//! The decisions of a scrape: which sources are asked and in what order, which answers
//! are kept, when MetaTube is no longer needed, and how the kept answers are ranked.
//! The requests themselves are made by the caller, one source at a time.

use vstd::prelude::*;
use vstd::string::StringSliceAdditionalSpecFns;
use crate::error::CommandError;
use crate::text::{chars_eq, chars_of, contains};

verus! {

/// One source's answer for a movie. `rating` holds the bit pattern of the rating as the
/// source gave it; the library carries it and never reads it.
#[derive(Debug)]
pub struct ScrapeResult {
    pub source: String,
    pub title: String,
    pub year: Option<i32>,
    pub poster_url: Option<String>,
    pub backdrop_url: Option<String>,
    pub overview: Option<String>,
    pub rating: Option<u64>,
    pub runtime: Option<i32>,
    pub director: Option<String>,
    pub genre: Option<Vec<String>>,
    pub actors: Option<Vec<String>>,
    pub score: i32,
}

/// The local MetaTube service's source name.
pub open spec fn metatube() -> Seq<char> {
    "metatube"@
}

/// The sources in the order they are asked: every other source in the given order, then
/// MetaTube (each time it is named).
pub open spec fn ordered_sources(sources: Seq<Seq<char>>) -> Seq<Seq<char>> {
    sources.filter(|s: Seq<char>| s != metatube()) + sources.filter(|s: Seq<char>| s == metatube())
}

/// The view of a vector of strings.
pub open spec fn str_seqs(v: Seq<String>) -> Seq<Seq<char>> {
    Seq::new(v.len(), |i: int| v[i]@)
}

fn is_metatube(s: &String) -> (b: bool)
    ensures
        b == (s@ == metatube()),
{
    let a = chars_of(s.as_str());
    let m = chars_of("metatube");
    chars_eq(&a, &m)
}

/// The sources in the order they are asked.
#[verifier::loop_isolation(false)]
pub fn order_sources(sources: &Vec<String>) -> (r: Vec<String>)
    ensures
        str_seqs(r@) == ordered_sources(str_seqs(sources@)),
{
    let ghost all = str_seqs(sources@);
    let ghost not_m = |s: Seq<char>| s != metatube();
    let ghost is_m = |s: Seq<char>| s == metatube();
    let mut first: Vec<String> = Vec::new();
    let mut last: Vec<String> = Vec::new();
    let n = sources.len();
    proof {
        reveal(Seq::filter);
        assert(all.take(0).filter(not_m) =~= Seq::<Seq<char>>::empty());
        assert(all.take(0).filter(is_m) =~= Seq::<Seq<char>>::empty());
    }
    for k in 0..n
        invariant
            n == sources@.len(),
            all == str_seqs(sources@),
            str_seqs(first@) == all.take(k as int).filter(not_m),
            str_seqs(last@) == all.take(k as int).filter(is_m),
    {
        let s = &sources[k];
        let ghost sv = s@;
        assert(all.take(k + 1) =~= all.take(k as int).push(sv));
        proof {
            all.take(k as int).lemma_filter_push(sv, not_m);
            all.take(k as int).lemma_filter_push(sv, is_m);
        }
        let c = s.clone();
        if is_metatube(s) {
            let ghost before = str_seqs(last@);
            last.push(c);
            assert(str_seqs(last@) =~= before.push(sv));

        } else {
            let ghost before = str_seqs(first@);
            first.push(c);
            assert(str_seqs(first@) =~= before.push(sv));

        }
    }
    assert(all.take(n as int) =~= all);
    let ghost f = str_seqs(first@);
    let ghost l = str_seqs(last@);
    let mut r = first;
    r.append(&mut last);
    assert(str_seqs(r@) =~= f + l);
    r
}

/// A title that marks an error or search page rather than a movie: it holds one of the
/// known error phrases, or is shorter than 4 bytes.
pub open spec fn is_bogus(t: Seq<char>, byte_len: int) -> bool {
    contains(t, "見つかりません"@)
        || contains(t, "Service Unavailable"@)
        || contains(t, "Not Found"@)
        || contains(t, "404"@)
        || contains(t, "Search Results"@)
        || contains(t, "エラー"@)
        || contains(t, "全動画"@)
        || contains(t, "JAVten"@)
        || contains(t, "セレブ"@)
        || contains(t, "AVエンターテインメント"@)
        || byte_len < 4
}

/// A title is taken for an error page exactly when it holds one of the phrases
/// 見つかりません, Service Unavailable, Not Found, 404, Search Results, エラー, 全動画,
/// JAVten, セレブ or AVエンターテインメント, or is shorter than 4 bytes.
pub proof fn law_error_phrases(t: Seq<char>, byte_len: int)
    ensures
        contains(t, "見つかりません"@) ==> is_bogus(t, byte_len),
        contains(t, "Service Unavailable"@) ==> is_bogus(t, byte_len),
        contains(t, "Not Found"@) ==> is_bogus(t, byte_len),
        contains(t, "404"@) ==> is_bogus(t, byte_len),
        contains(t, "Search Results"@) ==> is_bogus(t, byte_len),
        contains(t, "エラー"@) ==> is_bogus(t, byte_len),
        contains(t, "全動画"@) ==> is_bogus(t, byte_len),
        contains(t, "JAVten"@) ==> is_bogus(t, byte_len),
        contains(t, "セレブ"@) ==> is_bogus(t, byte_len),
        contains(t, "AVエンターテインメント"@) ==> is_bogus(t, byte_len),
        byte_len < 4 ==> is_bogus(t, byte_len),
        !contains(t, "見つかりません"@) && !contains(t, "Service Unavailable"@) && !contains(t, "Not Found"@)
            && !contains(t, "404"@) && !contains(t, "Search Results"@) && !contains(t, "エラー"@)
            && !contains(t, "全動画"@) && !contains(t, "JAVten"@) && !contains(t, "セレブ"@)
            && !contains(t, "AVエンターテインメント"@) && byte_len >= 4 ==> !is_bogus(t, byte_len),
{
}

fn has(cs: &Vec<char>, w: &str) -> (b: bool)
    ensures
        b == contains(cs@, w@),
{
    let wc = chars_of(w);
    crate::text::contains_exec(cs, &wc)
}

/// Whether an answer's title marks an error page.
pub fn is_bogus_title(title: &str) -> (b: bool)
    ensures
        b == is_bogus(title@, title.spec_bytes().len() as int),
{
    let cs = chars_of(title);
    if has(&cs, "見つかりません") { return true; }
    if has(&cs, "Service Unavailable") { return true; }
    if has(&cs, "Not Found") { return true; }
    if has(&cs, "404") { return true; }
    if has(&cs, "Search Results") { return true; }
    if has(&cs, "エラー") { return true; }
    if has(&cs, "全動画") { return true; }
    if has(&cs, "JAVten") { return true; }
    if has(&cs, "セレブ") { return true; }
    if has(&cs, "AVエンターテインメント") { return true; }
    title.as_bytes().len() < 4
}

/// The number of items of an optional list, 0 when absent.
pub open spec fn opt_len(o: Option<Vec<String>>) -> nat {
    match o {
        Some(v) => v@.len(),
        None => 0,
    }
}

/// An answer complete enough that MetaTube need not be asked: from another source, with a
/// poster, at least two actors and at least one genre.
pub open spec fn good_data(source: Seq<char>, r: ScrapeResult) -> bool {
    source != metatube() && r.poster_url is Some && opt_len(r.actors) >= 2 && opt_len(r.genre) > 0
}

/// Whether an answer is complete enough that MetaTube need not be asked.
pub fn has_good_data(source: &String, r: &ScrapeResult) -> (b: bool)
    ensures
        b == good_data(source@, *r),
{
    let n_actors = match &r.actors { Some(a) => a.len(), None => 0 };
    let has_genre = match &r.genre { Some(g) => g.len() > 0, None => false };
    !is_metatube(source) && r.poster_url.is_some() && n_actors >= 2 && has_genre
}

/// How many leading answers of `sorted` score at least `score`: where an answer with that
/// score goes so that it follows every answer scoring as much or more.
pub open spec fn insert_pos(sorted: Seq<ScrapeResult>, score: i32) -> int
    decreases sorted.len(),
{
    if sorted.len() == 0 {
        0
    } else if sorted[0].score >= score {
        1 + insert_pos(sorted.drop_first(), score)
    } else {
        0
    }
}

/// The answers ranked by score, highest first; answers with equal scores keep the order
/// in which they arrived.
pub open spec fn ranked(s: Seq<ScrapeResult>) -> Seq<ScrapeResult>
    decreases s.len(),
{
    if s.len() == 0 {
        s
    } else {
        let t = ranked(s.drop_last());
        t.insert(insert_pos(t, s.last().score), s.last())
    }
}

/// Scores never rise along the sequence.
pub open spec fn score_descending(s: Seq<ScrapeResult>) -> bool {
    forall|i: int, j: int| 0 <= i < j < s.len() ==> s[i].score >= s[j].score
}

proof fn lemma_insert_pos(sorted: Seq<ScrapeResult>, score: i32)
    requires
        score_descending(sorted),
    ensures
        0 <= insert_pos(sorted, score) <= sorted.len(),
        forall|i: int| 0 <= i < insert_pos(sorted, score) ==> sorted[i].score >= score,
        forall|i: int| insert_pos(sorted, score) <= i < sorted.len() ==> sorted[i].score < score,
    decreases sorted.len(),
{
    if sorted.len() > 0 && sorted[0].score >= score {
        let rest = sorted.drop_first();
        lemma_insert_pos(rest, score);
        assert forall|i: int| 1 <= i < sorted.len() implies sorted[i] == rest[i - 1] by {}
    }
}

proof fn lemma_ranked(s: Seq<ScrapeResult>)
    ensures
        score_descending(ranked(s)),
        ranked(s).len() == s.len(),
        ranked(s).to_multiset() == s.to_multiset(),
    decreases s.len(),
{
    broadcast use vstd::seq_lib::to_multiset_insert, vstd::seq_lib::to_multiset_build;
    if s.len() > 0 {
        let t = ranked(s.drop_last());
        lemma_ranked(s.drop_last());
        let x = s.last();
        let p = insert_pos(t, x.score);
        lemma_insert_pos(t, x.score);
        let u = t.insert(p, x);
        assert forall|i: int, j: int| 0 <= i < j < u.len() implies u[i].score >= u[j].score by {
            if j < p {
            } else if j == p {
            } else if i < p {
                assert(u[j] == t[j - 1]);
            } else if i == p {
                assert(u[j] == t[j - 1]);
            } else {
                assert(u[i] == t[i - 1]);
                assert(u[j] == t[j - 1]);
            }
        }
        assert(s =~= s.drop_last().push(x));
    }
}

/// Ranking puts the answers in order of falling score and neither adds nor loses any.
pub proof fn law_ranking(s: Seq<ScrapeResult>)
    ensures
        score_descending(ranked(s)),
        ranked(s).to_multiset() == s.to_multiset(),
{
    lemma_ranked(s);
}

/// The answers with score `c`, in order.
pub open spec fn with_score(s: Seq<ScrapeResult>, c: i32) -> Seq<ScrapeResult> {
    s.filter(|r: ScrapeResult| r.score == c)
}

proof fn lemma_none_with_score(s: Seq<ScrapeResult>, c: i32)
    requires
        forall|i: int| 0 <= i < s.len() ==> (#[trigger] s[i]).score != c,
    ensures
        with_score(s, c) == Seq::<ScrapeResult>::empty(),
    decreases s.len(),
{
    broadcast use vstd::seq_lib::group_filter_ensures;
    reveal(Seq::filter);
    if s.len() > 0 {
        lemma_none_with_score(s.drop_last(), c);
        assert(s =~= s.drop_last().push(s.last()));
        s.drop_last().lemma_filter_push(s.last(), |r: ScrapeResult| r.score == c);
    }
}

/// Ranking is stable: the answers of each score come out in the order they arrived.
pub proof fn law_ranking_stable(s: Seq<ScrapeResult>, c: i32)
    ensures
        with_score(ranked(s), c) == with_score(s, c),
    decreases s.len(),
{
    if s.len() > 0 {
        let pred = |r: ScrapeResult| r.score == c;
        let t = ranked(s.drop_last());
        let x = s.last();
        law_ranking_stable(s.drop_last(), c);
        lemma_ranked(s.drop_last());
        let p = insert_pos(t, x.score);
        lemma_insert_pos(t, x.score);
        let a = t.take(p);
        let b = t.skip(p);
        assert(t.insert(p, x) =~= a + seq![x] + b);
        assert(t =~= a + b);
        Seq::filter_distributes_over_add(a + seq![x], b, pred);
        Seq::filter_distributes_over_add(a, seq![x], pred);
        Seq::filter_distributes_over_add(a, b, pred);
        assert(s =~= s.drop_last().push(x));
        s.drop_last().lemma_filter_push(x, pred);
        assert(seq![x] =~= Seq::<ScrapeResult>::empty().push(x));
        Seq::<ScrapeResult>::empty().lemma_filter_push(x, pred);
        reveal(Seq::filter);
        assert(Seq::<ScrapeResult>::empty().filter(pred) =~= Seq::<ScrapeResult>::empty());
        if x.score == c {
            assert forall|i: int| 0 <= i < b.len() implies (#[trigger] b[i]).score != c by {
                assert(b[i] == t[p + i]);
            }
            lemma_none_with_score(b, c);
            assert(a.filter(pred) + seq![x] =~= a.filter(pred).push(x));
        } else {
            assert(a.filter(pred) + Seq::<ScrapeResult>::empty() =~= a.filter(pred));
        }
    }
}

/// The state of one scrape: the answers kept so far, ranked, and whether an answer was
/// complete enough to leave MetaTube out. `arrived` is the kept answers in arrival order.
pub struct ScrapeSession {
    pub got_good_data: bool,
    pub results: Vec<ScrapeResult>,
    pub arrived: Ghost<Seq<ScrapeResult>>,
}

impl ScrapeSession {
    /// The results are the arrived answers, ranked.
    pub open spec fn wf(&self) -> bool {
        self.results@ == ranked(self.arrived@)
    }

    /// A scrape that has kept nothing.
    pub fn new() -> (s: Self)
        ensures
            s.wf(),
            !s.got_good_data,
            s.arrived@ == Seq::<ScrapeResult>::empty(),
    {
        ScrapeSession { got_good_data: false, results: Vec::new(), arrived: Ghost(Seq::empty()) }
    }

    /// Whether `source` is passed over: MetaTube, once a complete answer was kept.
    pub fn skips(&self, source: &String) -> (b: bool)
        ensures
            b == (self.got_good_data && source@ == metatube()),
    {
        self.got_good_data && is_metatube(source)
    }

    /// Takes one source's answer: an error page is dropped; any other answer is kept, and
    /// a complete answer, or any answer from MetaTube, leaves MetaTube out from now on.
    pub fn record(&mut self, source: &String, r: ScrapeResult)
        requires
            old(self).wf(),
        ensures
            final(self).wf(),
            ({
                let bogus = is_bogus(r.title@, encode_len(r.title@));
                &&& bogus ==> final(self).arrived@ == old(self).arrived@ && final(self).got_good_data == old(self).got_good_data
                &&& !bogus ==> final(self).arrived@ == old(self).arrived@.push(r)
                    && final(self).got_good_data == (old(self).got_good_data || good_data(source@, r) || source@ == metatube())
            }),
    {
        if is_bogus_title(r.title.as_str()) {
            return;
        }
        if has_good_data(source, &r) || is_metatube(source) {
            self.got_good_data = true;
        }
        let ghost t = self.results@;
        proof { lemma_ranked(self.arrived@); }
        let mut pos: usize = 0;
        assert(t.skip(0) =~= t);
        while pos < self.results.len() && self.results[pos].score >= r.score
            invariant
                t == self.results@,
                score_descending(t),
                pos <= t.len(),
                insert_pos(t, r.score) == pos + insert_pos(t.skip(pos as int), r.score),
            decreases t.len() - pos,
        {
            assert(t.skip(pos as int).drop_first() =~= t.skip(pos + 1));
            pos += 1;
        }
        proof {
            if pos < t.len() {
                assert(t.skip(pos as int)[0] == t[pos as int]);
            }
        }
        let ghost x = r;
        self.results.insert(pos, r);
        proof {
            let a = self.arrived@.push(x);
            assert(a.drop_last() =~= old(self).arrived@);
            self.arrived = Ghost(a);
        }
    }

    /// The kept answers, ranked by score.
    pub fn finish(self) -> (r: Vec<ScrapeResult>)
        requires
            self.wf(),
        ensures
            r@ == ranked(self.arrived@),
    {
        self.results
    }
}

/// The length in bytes of the UTF-8 encoding of `s`.
pub open spec fn encode_len(s: Seq<char>) -> int {
    vstd::utf8::encode_utf8(s).len() as int
}

/// The code a provider is asked for: the query trimmed, in upper case, without `-`, `_`
/// or spaces.
pub open spec fn provider_code_of(query: Seq<char>) -> Seq<char> {
    crate::text::strip_separators(crate::filename_parser::str_upper(crate::text::trim(query)))
}

/// The code a provider is asked for.
pub fn provider_code(query: &str) -> (r: String)
    ensures
        r@ == provider_code_of(query@),
{
    let t = crate::text::trim_exec(&chars_of(query));
    let ts = crate::text::string_of(&t);
    let up = crate::filename_parser::upper_string(ts.as_str());
    crate::text::string_of(&crate::text::strip_separators_exec(&chars_of(up.as_str())))
}

/// At most `max` bytes of `s` for the log, cut back to a character boundary.
pub fn truncate_log(s: &str, max: usize) -> (r: &str)
    ensures
        r@ == crate::text::truncated(s@, max as int),
{
    crate::text::truncate_str(s, max)
}

/// What a movie is searched by: the code found in its file name, else the cleaned name.
pub fn scrape_query(parsed: &crate::filename_parser::ParsedFilename) -> (r: String)
    ensures
        r@ == (match parsed.id_number { Some(id) => id@, None => parsed.cleaned@ }),
{
    match &parsed.id_number {
        Some(id) => id.clone(),
        None => parsed.cleaned.clone(),
    }
}

/// Whether a poster address is downloaded: it starts with `http`.
pub fn is_remote_poster(url: &str) -> (b: bool)
    ensures
        b == crate::javbus::starts_with(url@, "http"@),
{
    let u = chars_of(url);
    let h = chars_of("http");
    if h.len() > u.len() {
        return false;
    }
    let head = crate::text::subrange_exec(&u, 0, h.len());
    assert(head@ =~= u@.take(h@.len() as int));
    chars_eq(&head, &h)
}

/// An ASCII letter.
pub open spec fn is_ascii_alpha(c: char) -> bool {
    ('a' <= c && c <= 'z') || ('A' <= c && c <= 'Z')
}

/// The extension a downloaded poster is saved with: the part of the address after its
/// last `.` and before any `?`, when it is at most 4 bytes of ASCII letters; else `jpg`.
pub open spec fn poster_extension_of(url: Seq<char>) -> Seq<char> {
    let e = extension_candidate(url);
    if e.len() <= 4 && all_ascii_alpha(e) { e } else { "jpg"@ }
}

/// The part of an address after its last `.` and before any `?` that follows.
pub open spec fn extension_candidate(url: Seq<char>) -> Seq<char> {
    let after_dot = match crate::text::rfind_char(url, '.') {
        Some(i) => url.skip(i + 1),
        None => url,
    };
    match crate::text::find(after_dot, seq!['?']) {
        Some(j) => after_dot.take(j),
        None => after_dot,
    }
}

/// Every character is an ASCII letter.
pub open spec fn all_ascii_alpha(e: Seq<char>) -> bool {
    forall|k: int| 0 <= k < e.len() ==> is_ascii_alpha(#[trigger] e[k])
}

/// The extension a downloaded poster is saved with.
#[verifier::loop_isolation(false)]
pub fn poster_extension(url: &str) -> (r: String)
    ensures
        r@ == poster_extension_of(url@),
{
    let u = chars_of(url);
    let n = u.len();
    proof { crate::text::lemma_rfind_char(u@, '.'); }
    let after_dot = match crate::text::rfind_char_exec(&u, '.') {
        Some(i) => {
            assert(i < n);
            let r = crate::text::subrange_exec(&u, i + 1, n);
            assert(r@ =~= u@.skip(i + 1));
            r
        },
        None => u,
    };
    let q: Vec<char> = vec!['?'];
    assert(q@ =~= seq!['?']);
    proof { crate::text::lemma_find(after_dot@, q@); }
    let e = match crate::text::find_exec(&after_dot, &q) {
        Some(j) => {
            let r = crate::text::subrange_exec(&after_dot, 0, j);
            assert(r@ =~= after_dot@.take(j as int));
            r
        },
        None => after_dot,
    };
    assert(e@ == extension_candidate(url@));
    if e.len() > 4 {
        return String::from_str("jpg");
    }
    let mut k: usize = 0;
    while k < e.len()
        invariant
            k <= e@.len(),
            forall|m: int| 0 <= m < k ==> is_ascii_alpha(#[trigger] e@[m]),
        decreases e@.len() - k,
    {
        let c = e[k];
        if !(('a' <= c && c <= 'z') || ('A' <= c && c <= 'Z')) {
            assert(!is_ascii_alpha(e@[k as int]));
            assert(!all_ascii_alpha(e@));
            return String::from_str("jpg");
        }
        k += 1;
    }
    crate::text::string_of(&e)
}

/// A downloaded poster that is really an image: more than 1000 bytes, starting with the
/// JPEG, PNG, WebP (`RIFF`) or GIF signature.
pub open spec fn image_bytes(b: Seq<u8>) -> bool {
    b.len() > 1000 && (
        (b[0] == 0xFFu8 && b[1] == 0xD8u8 && b[2] == 0xFFu8)
        || (b[0] == 0x89u8 && b[1] == 0x50u8 && b[2] == 0x4Eu8 && b[3] == 0x47u8)
        || (b[0] == 0x52u8 && b[1] == 0x49u8 && b[2] == 0x46u8 && b[3] == 0x46u8)
        || (b[0] == 0x47u8 && b[1] == 0x49u8 && b[2] == 0x46u8 && b[3] == 0x38u8)
    )
}

/// Whether a downloaded poster is an image rather than an error page.
pub fn is_image(b: &[u8]) -> (r: bool)
    ensures
        r == image_bytes(b@),
{
    b.len() > 1000 && (
        (b[0] == 0xFFu8 && b[1] == 0xD8u8 && b[2] == 0xFFu8)
        || (b[0] == 0x89u8 && b[1] == 0x50u8 && b[2] == 0x4Eu8 && b[3] == 0x47u8)
        || (b[0] == 0x52u8 && b[1] == 0x49u8 && b[2] == 0x46u8 && b[3] == 0x46u8)
        || (b[0] == 0x47u8 && b[1] == 0x49u8 && b[2] == 0x46u8 && b[3] == 0x38u8)
    )
}

/// The file name of a downloaded poster.
pub fn poster_file_name(ext: &str) -> (r: String)
    ensures
        r@ == "poster."@ + ext@,
{
    String::from_str("poster.").concat(ext)
}

/// Whether an overview is long enough to translate: at least 20 bytes.
pub fn overview_worth_translating(overview: &str) -> (b: bool)
    ensures
        b == (overview.spec_bytes().len() >= 20),
{
    overview.as_bytes().len() >= 20
}

/// A translated overview, trimmed, kept when it is longer than 10 bytes.
pub fn accepted_overview(translated: &str) -> (r: Option<String>)
    ensures
        ({
            let t = crate::text::trim(translated@);
            &&& vstd::utf8::encode_utf8(t).len() > 10 ==> (r matches Some(s) && s@ == t)
            &&& vstd::utf8::encode_utf8(t).len() <= 10 ==> r is None
        }),
{
    let t = crate::text::string_of(&crate::text::trim_exec(&chars_of(translated)));
    if t.as_str().as_bytes().len() > 10 { Some(t) } else { None }
}

/// Whether a translated title is kept: not empty and not the original.
pub fn accepted_title(translated: &str, original: &str) -> (b: bool)
    ensures
        b == (translated@.len() > 0 && translated@ != original@),
{
    let a = chars_of(translated);
    let o = chars_of(original);
    a.len() > 0 && !chars_eq(&a, &o)
}

/// The instruction that comes with every DeepSeek translation request: render a Japanese
/// title as natural Simplified Chinese, and answer with the translation only.
pub open spec fn deepseek_system_prompt_text() -> Seq<char> {
    "你是日本AV影片片名本地化翻译专家。将用户输入的日文片名改写成简体中文。\n\n规则：\n1. 完全按中文母语者阅读习惯改写，不要保留日语句式（如'被放置'、'てしまう'等）。\n2. 语序改为中文叙事顺序，通常先说结果或主视角动作（如'发现……'、'妻子被……'）。\n3. 使用AV标题常用中文词汇：'丈夫'或'家暴男'、'人妻'、'全裸'、'鬼鬼祟祟'、'视而不见'。\n4. 保留原文的感叹号、问号、省略号，强化冲击力和悬念感。\n5. 不要直译，不要出现过多'～了'，不要有日语腔。\n\n只返回翻译结果，不要任何解释或评价。"@
}

/// The instruction that comes with every DeepSeek translation request.
pub fn deepseek_system_prompt() -> (r: String)
    ensures
        r@ == deepseek_system_prompt_text(),
{
    String::from_str("你是日本AV影片片名本地化翻译专家。将用户输入的日文片名改写成简体中文。\n\n规则：\n1. 完全按中文母语者阅读习惯改写，不要保留日语句式（如'被放置'、'てしまう'等）。\n2. 语序改为中文叙事顺序，通常先说结果或主视角动作（如'发现……'、'妻子被……'）。\n3. 使用AV标题常用中文词汇：'丈夫'或'家暴男'、'人妻'、'全裸'、'鬼鬼祟祟'、'视而不见'。\n4. 保留原文的感叹号、问号、省略号，强化冲击力和悬念感。\n5. 不要直译，不要出现过多'～了'，不要有日语腔。\n\n只返回翻译结果，不要任何解释或评价。")
}

/// The request to translate an overview: the instructions, then the overview.
pub fn overview_prompt(overview: &str) -> (r: String)
    ensures
        r@ == "你是日本AV影片简介本地化翻译专家。将以下日文AV剧情简介改写成中文。\n\n要求：\n1. 完全按中文母语者阅读习惯改写，不要日语句式\n2. 使用AV常用的中文词汇，保持色情张力\n3. 不要直译，要有画面感和冲击力\n4. 只返回翻译结果\n\n原文：\n"@ + overview@,
{
    String::from_str("你是日本AV影片简介本地化翻译专家。将以下日文AV剧情简介改写成中文。\n\n要求：\n1. 完全按中文母语者阅读习惯改写，不要日语句式\n2. 使用AV常用的中文词汇，保持色情张力\n3. 不要直译，要有画面感和冲击力\n4. 只返回翻译结果\n\n原文：\n").concat(overview)
}

/// The instruction that comes with a title the user asks to translate.
pub fn title_request_prompt() -> (r: String)
    ensures
        r@ == "你是一个日本AV影片片名翻译助手。用户输入的是日本AV的番号或片名，请将其翻译成简体中文。注意：这是成人影片标题，请直接给出中文译名，不要任何解释、评价或额外文字。"@,
{
    String::from_str("你是一个日本AV影片片名翻译助手。用户输入的是日本AV的番号或片名，请将其翻译成简体中文。注意：这是成人影片标题，请直接给出中文译名，不要任何解释、评价或额外文字。")
}

/// The Google address the scrapers ask to translate a text, each character encoded by
/// `encode`.
pub fn scrape_translate_url(text: &str) -> (r: String)
    ensures
        r@ == "https://translate.googleapis.com/translate_a/single?client=gtx&sl=auto&tl=zh-CN&dt=t&q="@
            + crate::url_encoding::encode_chars(text@),
{
    let q = crate::url_encoding::encode(text);
    String::from_str("https://translate.googleapis.com/translate_a/single?client=gtx&sl=auto&tl=zh-CN&dt=t&q=").concat(q.as_str())
}

/// Whether DeepSeek is asked first: a DeepSeek key is configured.
pub fn uses_deepseek(key: &str) -> (b: bool)
    ensures
        b == (key@.len() > 0),
{
    key.as_bytes().len() > 0
}

/// The answer of a DeepSeek reply: the first choice's message content, trimmed.
pub fn deepseek_answer(body: &str) -> (r: Option<String>)
    ensures
        crate::html::ov(r) == (match crate::json_reply::json_text_of(body@, "/choices/0/message/content"@) {
            Some(c) => Some(crate::text::trim(c)),
            None => None,
        }),
{
    match crate::json_reply::json_text(body, "/choices/0/message/content") {
        Some(c) => Some(crate::text::string_of(&crate::text::trim_exec(&chars_of(c.as_str())))),
        None => None,
    }
}

/// The answer of a Google translation reply: its first segment's text.
pub fn google_answer(body: &str) -> (r: Option<String>)
    ensures
        crate::html::ov(r) == crate::json_reply::json_text_of(body@, "/0/0/0"@),
{
    crate::json_reply::json_text(body, "/0/0/0")
}

/// The translation a title request gives from a Google reply: its first segment's text,
/// else the title itself; a reply that is not JSON fails with `翻译解析失败: <error>`.
pub fn google_title_answer(body: &str, text: &str) -> (r: Result<String, CommandError>)
    ensures
        crate::json_reply::json_error_of(body@) matches Some(e) ==> (r matches Err(x) && x.code == crate::error::INTERNAL
            && x.message@ == "翻译解析失败: "@ + e),
        crate::json_reply::json_error_of(body@) is None ==> (r matches Ok(t) && t@ == (match crate::json_reply::json_text_of(body@, "/0/0/0"@) {
            Some(a) => a,
            None => text@,
        })),
{
    if let Some(e) = crate::json_reply::json_error(body) {
        let m = String::from_str("翻译解析失败: ").concat(e.as_str());
        return Err(CommandError::internal(m.as_str()));
    }
    match google_answer(body) {
        Some(a) => Ok(a),
        None => Ok(String::from_str(text)),
    }
}

/// The sources asked when none are configured.
pub open spec fn default_sources() -> Seq<Seq<char>> {
    seq!["metatube"@, "javbus"@]
}

/// The configured scrape sources: the configured JSON list when it parses, else MetaTube
/// and JavBus.
pub fn scrape_sources(config: Option<&str>) -> (r: Vec<String>)
    ensures
        str_seqs(r@) == (match config {
            Some(c) => match crate::scanner::json_string_list(c@) { Some(l) => l, None => default_sources() },
            None => default_sources(),
        }),
{
    match config {
        Some(c) => match crate::scanner::parse_string_list(c) {
            Some(l) => {
                assert(str_seqs(l@) =~= crate::scanner::strs(l@));
                return l;
            },
            None => {},
        },
        None => {},
    }
    let mut r: Vec<String> = Vec::new();
    r.push(String::from_str("metatube"));
    r.push(String::from_str("javbus"));
    assert(str_seqs(r@) =~= default_sources());
    r
}

/// The result of a batch scrape.
pub struct BatchScrapeResult {
    pub total: usize,
    pub success: usize,
    pub failed: usize,
}

/// The progress reported after each movie of a batch.
pub struct ScrapeProgress {
    pub current: usize,
    pub total: usize,
    pub success: usize,
    pub failed: usize,
    pub file_name: String,
}

impl BatchScrapeResult {
    /// A batch of `total` movies, none scraped yet.
    pub fn new(total: usize) -> (r: Self)
        ensures
            r.total == total,
            r.success == 0,
            r.failed == 0,
    {
        BatchScrapeResult { total, success: 0, failed: 0 }
    }

    /// Counts one movie as scraped or failed, and gives the progress to report.
    pub fn record(&mut self, ok: bool, file_name: String) -> (p: ScrapeProgress)
        requires
            old(self).success + old(self).failed < old(self).total,
        ensures
            final(self).total == old(self).total,
            final(self).success == old(self).success + (if ok { 1int } else { 0int }),
            final(self).failed == old(self).failed + (if ok { 0int } else { 1int }),
            p.current == final(self).success + final(self).failed,
            p.total == final(self).total,
            p.success == final(self).success,
            p.failed == final(self).failed,
            p.file_name@ == file_name@,
    {
        if ok {
            self.success = self.success + 1;
        } else {
            self.failed = self.failed + 1;
        }
        ScrapeProgress {
            current: self.success + self.failed,
            total: self.total,
            success: self.success,
            failed: self.failed,
            file_name,
        }
    }
}

/// The scrape status stored for a movie: 2 when scraped, 3 when failed.
pub fn scrape_status(ok: bool) -> (s: i32)
    ensures
        s == (if ok { 2i32 } else { 3i32 }),
{
    if ok { 2 } else { 3 }
}

} // verus!
