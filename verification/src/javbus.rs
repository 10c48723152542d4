//! Reading a JavBus movie page: the checks on the page, the way past its age gate, and
//! the fields taken from it. The page is parsed and its elements selected by the
//! `scraper` crate; the requests are made by the caller.

use vstd::prelude::*;
use vstd::string::{StringExecFns, StringSliceAdditionalSpecFns};
use vstd::utf8::encode_utf8;
use crate::html::{html_attrs, html_texts, opt_strs, ov, select_attrs, select_texts, strs};
use crate::scrape::ScrapeResult;
use crate::sources::{list_field, list_opt};
use crate::text::{chars_eq, chars_of, contains, contains_exec, find, lemma_find, matches_at, extend_chars, parse_i32, parse_i32_exec, replace_all, replace_exec, string_of, subrange_exec, trim, trim_exec};

verus! {

/// The number of bytes of the UTF-8 encoding of `s`.
pub open spec fn byte_len(s: Seq<char>) -> int {
    encode_utf8(s).len() as int
}

/// `s` starts with `p`.
pub open spec fn starts_with(s: Seq<char>, p: Seq<char>) -> bool {
    p.len() <= s.len() && s.take(p.len() as int) == p
}

fn starts_with_exec(s: &Vec<char>, p: &str) -> (b: bool)
    ensures
        b == starts_with(s@, p@),
{
    let pc = chars_of(p);
    if pc.len() > s.len() {
        return false;
    }
    let head = subrange_exec(s, 0, pc.len());
    assert(head@ =~= s@.take(pc@.len() as int));
    chars_eq(&head, &pc)
}

/// A page that cannot hold the movie: shorter than 500 bytes, or mentioning `Cloudflare`
/// or `404`.
pub open spec fn page_unusable(body: Seq<char>) -> bool {
    byte_len(body) < 500 || contains(body, "Cloudflare"@) || contains(body, "404"@)
}

/// Whether a page cannot hold the movie.
pub fn is_unusable_page(body: &str) -> (b: bool)
    ensures
        b == page_unusable(body@),
{
    let cs = chars_of(body);
    body.as_bytes().len() < 500 || contains_exec(&cs, &chars_of("Cloudflare")) || contains_exec(&cs, &chars_of("404"))
}

/// Whether a page is the age gate.
pub fn is_age_gate(body: &str) -> (b: bool)
    ensures
        b == contains(body@, "Age Verification"@),
{
    contains_exec(&chars_of(body), &chars_of("Age Verification"))
}

/// A link on the site made absolute: kept when it starts with `http`, else prefixed with
/// the site (and a `/` when it has none).
pub open spec fn site_url(loc: Seq<char>) -> Seq<char> {
    if starts_with(loc, "http"@) {
        loc
    } else if starts_with(loc, "/"@) {
        "https://www.javbus.com"@ + loc
    } else {
        "https://www.javbus.com/"@ + loc
    }
}

/// A link on the site made absolute (redirects and age-gate links).
pub fn absolute_url(loc: &str) -> (r: String)
    ensures
        r@ == site_url(loc@),
{
    let l = chars_of(loc);
    if starts_with_exec(&l, "http") {
        String::from_str(loc)
    } else if starts_with_exec(&l, "/") {
        String::from_str("https://www.javbus.com").concat(loc)
    } else {
        String::from_str("https://www.javbus.com/").concat(loc)
    }
}

/// A cover address made absolute: kept when it starts with `http`, else prefixed with the
/// site as it is.
pub open spec fn cover_address(src: Seq<char>) -> Seq<char> {
    if starts_with(src, "http"@) { src } else { "https://www.javbus.com"@ + src }
}

/// The detail page of a code.
pub fn detail_url(code: &str) -> (r: String)
    ensures
        r@ == "https://www.javbus.com/ja/"@ + code@,
{
    String::from_str("https://www.javbus.com/ja/").concat(code)
}

/// Whether an age-gate link is the way in: its lower-case text mentions `enter`, `18`,
/// `over`, `はい`, `yes`, `agree` or `同意`, or its address mentions `over18` or `age`.
pub open spec fn entry_link(lower_text: Seq<char>, href: Seq<char>) -> bool {
    contains(lower_text, "enter"@) || contains(lower_text, "18"@) || contains(lower_text, "over"@)
        || contains(href, "over18"@) || contains(href, "age"@) || contains(lower_text, "はい"@)
        || contains(lower_text, "yes"@) || contains(lower_text, "agree"@) || contains(lower_text, "同意"@)
}

/// The first entry link among the page's links (`texts` and `hrefs` of the `a` elements),
/// made absolute.
pub open spec fn first_entry_link(texts: Seq<Seq<char>>, hrefs: Seq<Option<Seq<char>>>) -> Option<Seq<char>>
    decreases texts.len(),
{
    if texts.len() == 0 || hrefs.len() == 0 {
        None
    } else {
        match hrefs[0] {
            Some(h) => if entry_link(crate::text::str_lower(texts[0]), h) {
                Some(site_url(h))
            } else {
                first_entry_link(texts.drop_first(), hrefs.drop_first())
            },
            None => first_entry_link(texts.drop_first(), hrefs.drop_first()),
        }
    }
}

/// The address that gets past the age gate: the first entry link; else, on a challenge
/// page (mentioning `challenge` or `cf-`), the detail page again; else none.
pub open spec fn age_gate_exit(body: Seq<char>, detail: Seq<char>) -> Option<Seq<char>> {
    match first_entry_link(html_texts(body, "a"@), html_attrs(body, "a"@, "href"@)) {
        Some(u) => Some(u),
        None => if contains(body, "challenge"@) || contains(body, "cf-"@) { Some(detail) } else { None },
    }
}

fn has(cs: &Vec<char>, w: &str) -> (b: bool)
    ensures
        b == contains(cs@, w@),
{
    contains_exec(cs, &chars_of(w))
}

/// The address that gets past the age gate, if any.
pub fn age_gate_link(body: &str, detail: &str) -> (r: Option<String>)
    ensures
        (match r { Some(u) => Some(u@), None => None }) == age_gate_exit(body@, detail@),
{
    let texts = select_texts(body, "a");
    let hrefs = select_attrs(body, "a", "href");
    let ghost all_t = html_texts(body@, "a"@);
    let ghost all_h = html_attrs(body@, "a"@, "href"@);
    let n = texts.len();
    let mut k: usize = 0;
    assert(all_t.skip(0) =~= all_t);
    assert(all_h.skip(0) =~= all_h);
    while k < n
        invariant
            all_t == html_texts(body@, "a"@),
            all_h == html_attrs(body@, "a"@, "href"@),
            n == texts@.len(),
            n == hrefs@.len(),
            strs(texts@) == all_t,
            opt_strs(hrefs@) == all_h,
            k <= n,
            first_entry_link(all_t, all_h) == first_entry_link(all_t.skip(k as int), all_h.skip(k as int)),
        decreases n - k,
    {
        assert(all_t.skip(k as int).drop_first() =~= all_t.skip(k + 1));
        assert(all_h.skip(k as int).drop_first() =~= all_h.skip(k + 1));
        assert(all_t.skip(k as int)[0] == texts@[k as int]@);
        match &hrefs[k] {
            Some(h) => {
                assert(all_h.skip(k as int)[0] == Some(h@));
                let low = crate::text::lower_string(texts[k].as_str());
                let lc = chars_of(low.as_str());
                let hc = chars_of(h.as_str());
                if has(&lc, "enter") || has(&lc, "18") || has(&lc, "over") || has(&hc, "over18")
                    || has(&hc, "age") || has(&lc, "はい") || has(&lc, "yes") || has(&lc, "agree")
                    || has(&lc, "同意") {
                    return Some(absolute_url(h.as_str()));
                }
            },
            None => {
                assert(all_h.skip(k as int)[0] is None);
            },
        }
        k += 1;
    }
    assert(all_t.skip(n as int).len() == 0);
    let cs = chars_of(body);
    if has(&cs, "challenge") || has(&cs, "cf-") {
        Some(String::from_str(detail))
    } else {
        None
    }
}

/// What a JavBus page gives for a movie. The page carries no rating, overview or
/// director.
pub struct JavBusResult {
    pub title: String,
    pub year: Option<i32>,
    pub poster_url: Option<String>,
    pub overview: Option<String>,
    pub rating: Option<u64>,
    pub runtime: Option<i32>,
    pub director: Option<String>,
    pub genres: Vec<String>,
    pub actors: Vec<String>,
}

/// The views of a list of selectors.
pub open spec fn sel_views(v: Seq<&str>) -> Seq<Seq<char>> {
    Seq::new(v.len(), |i: int| v[i]@)
}

/// The title selectors, tried in order.
pub open spec fn title_selectors() -> Seq<Seq<char>> {
    seq!["a.bigImage img"@, ".bigImage img"@, "img.bigImage"@, "h3"@, "title"@]
}

/// The cover selectors, tried in order.
pub open spec fn cover_selectors() -> Seq<Seq<char>> {
    seq!["a.bigImage img"@, ".bigImage img"@]
}

/// The selectors of the information paragraphs, read in order.
pub open spec fn info_selectors() -> Seq<Seq<char>> {
    seq!["div.col-md-3.info p"@, ".info p"@, ".col-md-3 p"@, "p"@, ".header p"@]
}

/// The genre selectors, read in order.
pub open spec fn genre_selectors() -> Seq<Seq<char>> {
    seq!["span.genre label a"@, "span.genre a"@, ".genre a"@, "a[href*='genre']"@]
}

/// The actor selectors, read in order.
pub open spec fn actor_selectors() -> Seq<Seq<char>> {
    seq!["#star-div a"@, ".star-div a"@, "a[href*='star']"@, "a[href*='actress']"@]
}

/// The title: from the first selector whose first match has a title attribute (else
/// text, trimmed) longer than 2 bytes; the query when none has.
pub open spec fn pick_title(html: Seq<char>, sels: Seq<Seq<char>>, query: Seq<char>) -> Seq<char>
    decreases sels.len(),
{
    if sels.len() == 0 {
        query
    } else {
        let texts = html_texts(html, sels[0]);
        if texts.len() == 0 {
            pick_title(html, sels.drop_first(), query)
        } else {
            let t = match html_attrs(html, sels[0], "title"@)[0] {
                Some(x) => if x.len() > 0 { x } else { trim(texts[0]) },
                None => trim(texts[0]),
            };
            if byte_len(t) > 2 { t } else { pick_title(html, sels.drop_first(), query) }
        }
    }
}

/// The cover: the `src` of the first match of the first selector whose first match has
/// one, made absolute.
pub open spec fn pick_cover(html: Seq<char>, sels: Seq<Seq<char>>) -> Option<Seq<char>>
    decreases sels.len(),
{
    if sels.len() == 0 {
        None
    } else {
        let srcs = html_attrs(html, sels[0], "src"@);
        if srcs.len() == 0 {
            pick_cover(html, sels.drop_first())
        } else {
            match srcs[0] {
                Some(x) => Some(cover_address(x)),
                None => pick_cover(html, sels.drop_first()),
            }
        }
    }
}

/// The texts of a list, each trimmed.
pub open spec fn trimmed(texts: Seq<Seq<char>>) -> Seq<Seq<char>> {
    Seq::new(texts.len(), |i: int| trim(texts[i]))
}

/// The trimmed texts of all matches of the selectors, selector by selector.
pub open spec fn all_trimmed(html: Seq<char>, sels: Seq<Seq<char>>) -> Seq<Seq<char>>
    decreases sels.len(),
{
    if sels.len() == 0 {
        Seq::empty()
    } else {
        all_trimmed(html, sels.drop_last()) + trimmed(html_texts(html, sels.last()))
    }
}

/// The non-empty ones among the trimmed texts of all matches of the selectors.
pub open spec fn collected(html: Seq<char>, sels: Seq<Seq<char>>) -> Seq<Seq<char>> {
    all_trimmed(html, sels).filter(|t: Seq<char>| t.len() > 0)
}

/// An `i32` parse result as an optional `i32`.
pub open spec fn as_i32(o: Option<int>) -> Option<i32> {
    match o {
        Some(v) => Some(v as i32),
        None => None,
    }
}

/// The runtime and year after reading one information paragraph: a runtime paragraph
/// (mentioning 収録時間, 时长 or 時間) gives the runtime from its digits unless one is known;
/// a date paragraph (mentioning 発売日 or 日期) sets the year from the first four of its
/// digits and dashes, when there are four.
pub open spec fn info_step(state: (Option<i32>, Option<i32>), t: Seq<char>) -> (Option<i32>, Option<i32>) {
    let rt = if contains(t, "収録時間"@) || contains(t, "时长"@) || contains(t, "時間"@) {
        match state.0 {
            Some(r) => Some(r),
            None => as_i32(parse_i32(t.filter(|c: char| crate::text::is_digit(c)))),
        }
    } else {
        state.0
    };
    let nums = t.filter(|c: char| crate::text::is_digit(c) || c == '-');
    let yr = if contains(t, "発売日"@) || contains(t, "日期"@) {
        if nums.len() >= 4 { as_i32(parse_i32(nums.take(4))) } else { state.1 }
    } else {
        state.1
    };
    (rt, yr)
}

/// The runtime and year after reading the paragraphs in order.
pub open spec fn info_fold(texts: Seq<Seq<char>>) -> (Option<i32>, Option<i32>)
    decreases texts.len(),
{
    if texts.len() == 0 {
        (None, None)
    } else {
        info_step(info_fold(texts.drop_last()), texts.last())
    }
}

/// The poster: the cover with `/thumbs/` and then `/thumb/` turned into `/cover/`.
pub open spec fn poster_of(cover: Seq<char>) -> Seq<char> {
    replace_all(replace_all(cover, "/thumbs/"@, "/cover/"@), "/thumb/"@, "/cover/"@)
}

proof fn lemma_replace_after_prefix(a: Seq<char>, t: Seq<char>, pat: Seq<char>, rep: Seq<char>)
    requires
        pat.len() > 0,
        forall|k: int| 0 <= k < a.len() ==> !matches_at(a + t, pat, k),
    ensures
        replace_all(a + t, pat, rep) == a + replace_all(t, pat, rep),
    decreases a.len(),
{
    if a.len() > 0 {
        let s = a + t;
        assert(!matches_at(s, pat, 0));
        if s.len() >= pat.len() {
            assert(s.take(pat.len() as int) =~= s.subrange(0, pat.len() as int));
            let a1 = a.skip(1);
            assert(s.skip(1) =~= a1 + t);
            assert forall|k: int| 0 <= k < a1.len() implies !matches_at(a1 + t, pat, k) by {
                assert(!matches_at(s, pat, k + 1));
                if k + pat.len() <= (a1 + t).len() {
                    assert((a1 + t).subrange(k, k + pat.len()) =~= s.subrange(k + 1, k + 1 + pat.len()));
                }
            }
            lemma_replace_after_prefix(a1, t, pat, rep);
            assert(seq![s[0]] + (a1 + replace_all(t, pat, rep)) =~= a + replace_all(t, pat, rep));
        } else {
            assert(a + replace_all(t, pat, rep) =~= s);
        }
    } else {
        assert(a + t =~= t);
        assert(a + replace_all(t, pat, rep) =~= replace_all(t, pat, rep));
    }
}

proof fn lemma_replace_nothing(s: Seq<char>, pat: Seq<char>, rep: Seq<char>)
    requires
        pat.len() > 0,
        forall|k: int| !matches_at(s, pat, k),
    ensures
        replace_all(s, pat, rep) == s,
{
    let e = Seq::<char>::empty();
    assert(s + e =~= s);
    lemma_replace_after_prefix(s, e, pat, rep);
    assert(s + replace_all(e, pat, rep) =~= s);
}

proof fn lemma_replace_at_head(b: Seq<char>, pat: Seq<char>, rep: Seq<char>)
    requires
        pat.len() > 0,
    ensures
        replace_all(pat + b, pat, rep) == rep + replace_all(b, pat, rep),
{
    let s = pat + b;
    assert(s.take(pat.len() as int) =~= pat);
    assert(s.skip(pat.len() as int) =~= b);
}

/// Where `thumb` can stand in `a + mid + b` when neither `a` nor `b` holds it and `mid`
/// starts and ends with `/`: strictly inside `mid`.
proof fn lemma_thumb_inside(a: Seq<char>, mid: Seq<char>, b: Seq<char>, j: int)
    requires
        !contains(a, "thumb"@),
        !contains(b, "thumb"@),
        mid.len() >= 2,
        mid[0] == '/',
        mid[mid.len() - 1] == '/',
        matches_at(a + mid + b, "thumb"@, j),
    ensures
        a.len() + 1 <= j,
        j + 5 <= a.len() + mid.len() - 1,
{
    reveal_strlit("thumb");
    let s = a + mid + b;
    let w = "thumb"@;
    lemma_find(a, w);
    lemma_find(b, w);
    assert(w.len() == 5);
    assert(s.subrange(j, j + 5) == w);
    if j + 5 <= a.len() {
        assert(a.subrange(j, j + 5) =~= s.subrange(j, j + 5));
        assert(matches_at(a, w, j));
    } else if j >= a.len() + mid.len() {
        let k = j - a.len() - mid.len();
        assert(b.subrange(k, k + 5) =~= s.subrange(j, j + 5));
        assert(matches_at(b, w, k));
    } else if j <= a.len() {
        assert(s[a.len() as int] == '/');
        assert(s.subrange(j, j + 5)[a.len() - j] == s[a.len() as int]);
    } else if j + 5 > a.len() + mid.len() - 1 {
        let q = a.len() + mid.len() - 1;
        assert(s[q] == '/');
        assert(s.subrange(j, j + 5)[q - j] == s[q]);
    }
}

/// A match of `/thumbs/` or `/thumb/` holds `thumb` one place on.
proof fn lemma_pattern_thumb(s: Seq<char>, pat: Seq<char>, k: int)
    requires
        pat == "/thumbs/"@ || pat == "/thumb/"@,
        matches_at(s, pat, k),
    ensures
        matches_at(s, "thumb"@, k + 1),
        s[k] == '/',
        s[k + pat.len() - 1] == '/',
        pat == "/thumbs/"@ ==> s[k + 6] == 's',
{
    reveal_strlit("/thumbs/");
    reveal_strlit("/thumb/");
    reveal_strlit("thumb");
    assert(s.subrange(k, k + pat.len()) == pat);
    assert(s.subrange(k + 1, k + 6) =~= pat.subrange(1, 6));
    assert(pat.subrange(1, 6) =~= "thumb"@);
    assert(s.subrange(k, k + pat.len())[0] == s[k]);
    assert(s.subrange(k, k + pat.len())[pat.len() - 1] == s[k + pat.len() - 1]);
    assert(s.subrange(k, k + pat.len())[6] == s[k + 6]);
}

/// The poster address of a cover: a cover holding neither `/thumbs/` nor `/thumb/` is kept
/// as it is; a cover that names its thumbnail folder once, as `/thumbs/` or `/thumb/`
/// (and mentions `thumb` nowhere else), has that folder turned into `/cover/`, the rest
/// kept.
pub proof fn law_poster_from_cover(c: Seq<char>, a: Seq<char>, b: Seq<char>)
    ensures
        !contains(c, "/thumbs/"@) && !contains(c, "/thumb/"@) ==> poster_of(c) == c,
        !contains(a, "thumb"@) && !contains(b, "thumb"@) ==> poster_of(a + "/thumbs/"@ + b) == a + "/cover/"@ + b,
        !contains(a, "thumb"@) && !contains(b, "thumb"@) ==> poster_of(a + "/thumb/"@ + b) == a + "/cover/"@ + b,
{
    reveal_strlit("/thumbs/");
    reveal_strlit("/thumb/");
    reveal_strlit("/cover/");
    reveal_strlit("thumb");
    let p1 = "/thumbs/"@;
    let p2 = "/thumb/"@;
    let cv = "/cover/"@;
    if !contains(c, p1) && !contains(c, p2) {
        lemma_find(c, p1);
        lemma_find(c, p2);
        lemma_replace_nothing(c, p1, cv);
        lemma_replace_nothing(c, p2, cv);
    }
    if !contains(a, "thumb"@) && !contains(b, "thumb"@) {
        lemma_find(b, "thumb"@);
        // no pattern occurs in b
        assert forall|k: int| !matches_at(b, p1, k) by {
            if matches_at(b, p1, k) { lemma_pattern_thumb(b, p1, k); }
        }
        assert forall|k: int| !matches_at(b, p2, k) by {
            if matches_at(b, p2, k) { lemma_pattern_thumb(b, p2, k); }
        }
        // the cover with a /cover/ folder holds no pattern
        let s2 = a + cv + b;
        assert forall|k: int| !matches_at(s2, p2, k) by {
            if matches_at(s2, p2, k) {
                lemma_pattern_thumb(s2, p2, k);
                lemma_thumb_inside(a, cv, b, k + 1);
                assert(s2.subrange(k + 1, k + 6)[0] == s2[k + 1]);
                assert(s2[k + 1] == cv[1]);
            }
        }
        lemma_replace_nothing(s2, p2, cv);
        // first form: a + /thumbs/ + b
        let s1 = a + p1 + b;
        assert forall|k: int| 0 <= k < a.len() implies !matches_at(a + (p1 + b), p1, k) by {
            assert(a + (p1 + b) =~= s1);
            if matches_at(s1, p1, k) {
                lemma_pattern_thumb(s1, p1, k);
                lemma_thumb_inside(a, p1, b, k + 1);
            }
        }
        lemma_replace_after_prefix(a, p1 + b, p1, cv);
        lemma_replace_at_head(b, p1, cv);
        lemma_replace_nothing(b, p1, cv);
        assert(a + (p1 + b) =~= s1);
        assert(a + (cv + b) =~= s2);
        // second form: a + /thumb/ + b
        let s3 = a + p2 + b;
        assert forall|k: int| !matches_at(s3, p1, k) by {
            if matches_at(s3, p1, k) {
                lemma_pattern_thumb(s3, p1, k);
                lemma_thumb_inside(a, p2, b, k + 1);
                assert(s3[k + 6] == p2[6]);
            }
        }
        lemma_replace_nothing(s3, p1, cv);
        assert forall|k: int| 0 <= k < a.len() implies !matches_at(a + (p2 + b), p2, k) by {
            assert(a + (p2 + b) =~= s3);
            if matches_at(s3, p2, k) {
                lemma_pattern_thumb(s3, p2, k);
                lemma_thumb_inside(a, p2, b, k + 1);
            }
        }
        lemma_replace_after_prefix(a, p2 + b, p2, cv);
        lemma_replace_at_head(b, p2, cv);
        lemma_replace_nothing(b, p2, cv);
        assert(a + (p2 + b) =~= s3);
    }
}

/// Everything a page gives, as values.
pub open spec fn page_fields(html: Seq<char>, query: Seq<char>, r: JavBusResult) -> bool {
    let info = info_fold(all_trimmed(html, info_selectors()));
    &&& r.title@ == pick_title(html, title_selectors(), query)
    &&& (match r.poster_url { Some(p) => Some(p@), None => None }) == (match pick_cover(html, cover_selectors()) {
            Some(c) => Some(poster_of(c)),
            None => None,
        })
    &&& r.runtime == info.0
    &&& r.year == info.1
    &&& strs(r.genres@) == collected(html, genre_selectors())
    &&& strs(r.actors@) == collected(html, actor_selectors())
    &&& r.overview is None && r.rating is None && r.director is None
}

fn pick_title_exec(body: &str, sels: &Vec<&str>, query: &str) -> (r: String)
    ensures
        r@ == pick_title(body@, sel_views(sels@), query@),
{
    let n = sels.len();
    let mut k: usize = 0;
    assert(sel_views(sels@).skip(0) =~= sel_views(sels@));
    while k < n
        invariant
            n == sels@.len(),
            k <= n,
            pick_title(body@, sel_views(sels@), query@) == pick_title(body@, sel_views(sels@).skip(k as int), query@),
        decreases n - k,
    {
        let ghost rest = sel_views(sels@).skip(k as int);
        assert(rest.drop_first() =~= sel_views(sels@).skip(k + 1));
        assert(rest[0] == sels@[k as int]@);
        let texts = select_texts(body, sels[k]);
        if texts.len() > 0 {
            let attrs = select_attrs(body, sels[k], "title");
            assert(opt_strs(attrs@)[0] == html_attrs(body@, rest[0], "title"@)[0]);
            assert(strs(texts@)[0] == html_texts(body@, rest[0])[0]);
            let t: Vec<char> = match &attrs[0] {
                Some(x) => {
                    if x.as_str().is_empty() { trim_exec(&chars_of(texts[0].as_str())) } else { chars_of(x.as_str()) }
                },
                None => trim_exec(&chars_of(texts[0].as_str())),
            };
            let ts = string_of(&t);
            if ts.as_str().as_bytes().len() > 2 {
                return ts;
            }
        }
        k += 1;
    }
    assert(sel_views(sels@).skip(n as int).len() == 0);
    String::from_str(query)
}

fn pick_cover_exec(body: &str, sels: &Vec<&str>) -> (r: Option<String>)
    ensures
        (match r { Some(c) => Some(c@), None => None }) == pick_cover(body@, sel_views(sels@)),
{
    let n = sels.len();
    let mut k: usize = 0;
    assert(sel_views(sels@).skip(0) =~= sel_views(sels@));
    while k < n
        invariant
            n == sels@.len(),
            k <= n,
            pick_cover(body@, sel_views(sels@)) == pick_cover(body@, sel_views(sels@).skip(k as int)),
        decreases n - k,
    {
        let ghost rest = sel_views(sels@).skip(k as int);
        assert(rest.drop_first() =~= sel_views(sels@).skip(k + 1));
        assert(rest[0] == sels@[k as int]@);
        let srcs = select_attrs(body, sels[k], "src");
        if srcs.len() > 0 {
            assert(opt_strs(srcs@)[0] == html_attrs(body@, rest[0], "src"@)[0]);
            match &srcs[0] {
                Some(x) => {
                    let xc = chars_of(x.as_str());
                    let c = if starts_with_exec(&xc, "http") {
                        x.clone()
                    } else {
                        String::from_str("https://www.javbus.com").concat(x.as_str())
                    };
                    return Some(c);
                },
                None => {},
            }
        }
        k += 1;
    }
    assert(sel_views(sels@).skip(n as int).len() == 0);
    None
}

fn all_trimmed_exec(body: &str, sels: &Vec<&str>) -> (r: Vec<String>)
    ensures
        strs(r@) == all_trimmed(body@, sel_views(sels@)),
{
    let mut r: Vec<String> = Vec::new();
    let n = sels.len();
    for k in 0..n
        invariant
            n == sels@.len(),
            strs(r@) == all_trimmed(body@, sel_views(sels@).take(k as int)),
    {
        let ghost prefix = sel_views(sels@).take(k + 1);
        assert(prefix.drop_last() =~= sel_views(sels@).take(k as int));
        assert(prefix.last() == sels@[k as int]@);
        let texts = select_texts(body, sels[k]);
        let ghost before = strs(r@);
        let m = texts.len();
        for j in 0..m
            invariant
                m == texts@.len(),
                strs(texts@) == html_texts(body@, sels@[k as int]@),
                strs(r@) == before + trimmed(html_texts(body@, sels@[k as int]@)).take(j as int),
        {
            let t = trim_exec(&chars_of(texts[j].as_str()));
            let ghost b2 = strs(r@);
            r.push(string_of(&t));
            assert(strs(r@) =~= b2.push(t@));
            assert(trimmed(html_texts(body@, sels@[k as int]@)).take(j + 1) =~= trimmed(html_texts(body@, sels@[k as int]@)).take(j as int).push(t@));
        }
        assert(trimmed(html_texts(body@, sels@[k as int]@)).take(m as int) =~= trimmed(html_texts(body@, sels@[k as int]@)));
    }
    assert(sel_views(sels@).take(n as int) =~= sel_views(sels@));
    r
}

#[verifier::loop_isolation(false)]
fn collected_exec(body: &str, sels: &Vec<&str>) -> (r: Vec<String>)
    ensures
        strs(r@) == collected(body@, sel_views(sels@)),
{
    let all = all_trimmed_exec(body, sels);
    let ghost a = strs(all@);
    let ghost keep = |t: Seq<char>| t.len() > 0;
    let mut r: Vec<String> = Vec::new();
    proof {
        reveal(Seq::filter);
        assert(a.take(0).filter(keep) =~= Seq::<Seq<char>>::empty());
    }
    for k in 0..all.len()
        invariant
            strs(r@) == a.take(k as int).filter(keep),
    {
        let ghost t = all@[k as int]@;
        assert(a.take(k + 1) =~= a.take(k as int).push(t));
        proof { a.take(k as int).lemma_filter_push(t, keep); }
        if !all[k].as_str().is_empty() {
            let ghost before = strs(r@);
            r.push(all[k].clone());
            assert(strs(r@) =~= before.push(t));
        }
    }
    assert(a.take(all@.len() as int) =~= a);
    r
}

#[verifier::loop_isolation(false)]
fn filter_chars(t: &Vec<char>, dash: bool) -> (r: Vec<char>)
    ensures
        !dash ==> r@ == t@.filter(|c: char| crate::text::is_digit(c)),
        dash ==> r@ == t@.filter(|c: char| crate::text::is_digit(c) || c == '-'),
{
    let ghost p1 = |c: char| crate::text::is_digit(c);
    let ghost p2 = |c: char| crate::text::is_digit(c) || c == '-';
    let mut r: Vec<char> = Vec::new();
    proof {
        reveal(Seq::filter);
        assert(t@.take(0).filter(p1) =~= Seq::<char>::empty());
        assert(t@.take(0).filter(p2) =~= Seq::<char>::empty());
    }
    for k in 0..t.len()
        invariant
            !dash ==> r@ == t@.take(k as int).filter(p1),
            dash ==> r@ == t@.take(k as int).filter(p2),
    {
        let c = t[k];
        assert(t@.take(k + 1) =~= t@.take(k as int).push(c));
        proof {
            t@.take(k as int).lemma_filter_push(c, p1);
            t@.take(k as int).lemma_filter_push(c, p2);
        }
        if ('0' <= c && c <= '9') || (dash && c == '-') {
            r.push(c);
        }
    }
    assert(t@.take(t@.len() as int) =~= t@);
    r
}

fn info_step_exec(state: (Option<i32>, Option<i32>), t: &Vec<char>) -> (r: (Option<i32>, Option<i32>))
    ensures
        r == info_step(state, t@),
{
    let rt = if has(t, "収録時間") || has(t, "时长") || has(t, "時間") {
        match state.0 {
            Some(r) => Some(r),
            None => parse_i32_exec(&filter_chars(t, false)),
        }
    } else {
        state.0
    };
    let nums = filter_chars(t, true);
    let yr = if has(t, "発売日") || has(t, "日期") {
        if nums.len() >= 4 {
            let head = subrange_exec(&nums, 0, 4);
            assert(head@ =~= nums@.take(4));
            parse_i32_exec(&head)
        } else {
            state.1
        }
    } else {
        state.1
    };
    (rt, yr)
}

fn info_fold_exec(texts: &Vec<String>) -> (r: (Option<i32>, Option<i32>))
    ensures
        r == info_fold(strs(texts@)),
{
    let mut st: (Option<i32>, Option<i32>) = (None, None);
    let n = texts.len();
    for k in 0..n
        invariant
            n == texts@.len(),
            st == info_fold(strs(texts@).take(k as int)),
    {
        assert(strs(texts@).take(k + 1).drop_last() =~= strs(texts@).take(k as int));
        assert(strs(texts@).take(k + 1).last() == texts@[k as int]@);
        st = info_step_exec(st, &chars_of(texts[k].as_str()));
    }
    assert(strs(texts@).take(n as int) =~= strs(texts@));
    st
}

/// Reads the fields of a usable movie page. `query` is the title when the page shows none.
pub fn extract_javbus(body: &str, query: &str) -> (r: JavBusResult)
    ensures
        page_fields(body@, query@, r),
{
    let title_sels: Vec<&str> = vec!["a.bigImage img", ".bigImage img", "img.bigImage", "h3", "title"];
    let cover_sels: Vec<&str> = vec!["a.bigImage img", ".bigImage img"];
    let info_sels: Vec<&str> = vec!["div.col-md-3.info p", ".info p", ".col-md-3 p", "p", ".header p"];
    let genre_sels: Vec<&str> = vec!["span.genre label a", "span.genre a", ".genre a", "a[href*='genre']"];
    let actor_sels: Vec<&str> = vec!["#star-div a", ".star-div a", "a[href*='star']", "a[href*='actress']"];
    assert(sel_views(title_sels@) =~= title_selectors());
    assert(sel_views(cover_sels@) =~= cover_selectors());
    assert(sel_views(info_sels@) =~= info_selectors());
    assert(sel_views(genre_sels@) =~= genre_selectors());
    assert(sel_views(actor_sels@) =~= actor_selectors());
    let title = pick_title_exec(body, &title_sels, query);
    let cover = pick_cover_exec(body, &cover_sels);
    let info = info_fold_exec(&all_trimmed_exec(body, &info_sels));
    let genres = collected_exec(body, &genre_sels);
    let actors = collected_exec(body, &actor_sels);
    let poster = match cover {
        Some(c) => {
            let a = replace_exec(&chars_of(c.as_str()), &chars_of("/thumbs/"), &chars_of("/cover/"));
            let b = replace_exec(&a, &chars_of("/thumb/"), &chars_of("/cover/"));
            Some(string_of(&b))
        },
        None => None,
    };
    JavBusResult {
        title,
        year: info.1,
        poster_url: poster,
        overview: None,
        rating: None,
        runtime: info.0,
        director: None,
        genres,
        actors,
    }
}

/// The answer of the `javbus` source: the page's fields, lists absent when empty, score 75.
pub open spec fn javbus_scrape_answer(p: JavBusResult, r: ScrapeResult) -> bool {
    &&& r.source@ == "javbus"@ && r.title@ == p.title@ && r.year == p.year
    &&& ov(r.poster_url) == ov(p.poster_url) && r.backdrop_url is None && ov(r.overview) == ov(p.overview)
    &&& r.rating == p.rating && r.runtime == p.runtime && ov(r.director) == ov(p.director)
    &&& list_field(r.genre, strs(p.genres@)) && list_field(r.actors, strs(p.actors@))
    &&& r.score == 75
}

/// The answer of the `javbus` source built from its page.
pub fn javbus_scrape_result(p: JavBusResult) -> (r: ScrapeResult)
    ensures
        javbus_scrape_answer(p, r),
{
    ScrapeResult {
        source: String::from_str("javbus"),
        title: p.title,
        year: p.year,
        poster_url: p.poster_url,
        backdrop_url: None,
        overview: p.overview,
        rating: p.rating,
        runtime: p.runtime,
        director: p.director,
        genre: list_opt(p.genres),
        actors: list_opt(p.actors),
        score: 75,
    }
}

} // verus!
