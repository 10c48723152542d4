//! The JAV321 movie page: its address, when it is an error page, and the fields it gives.
//! The caller fetches the page and reads the rating text as a float.

use vstd::prelude::*;
use vstd::string::StringExecFns;
use crate::error::{CommandError, SCRAPE_FAILED};
use crate::html::{
    byte_len, contains_any, contains_any_exec, first_attr, first_attr_of, first_text, first_text_of, html_attrs,
    html_texts, lits, nonempty_texts, nonempty_texts_of, ov, select_attrs, select_texts, strs, trimmed,
};
use crate::javbus::as_i32;
use crate::scrape::ScrapeResult;
use crate::sources::{complete, completed, list_field, list_opt, lower_code, lower_code_of, CoverBase};
use crate::text::{
    all_digits, chars_of, contains, contains_exec, digits_value, is_digit, parse_i32, parse_i32_exec, string_of,
    subrange_exec, trim_exec,
};

verus! {

/// The fields of a JAV321 movie page. `rating` is the float the caller read from
/// `jav321_rating_text`, as bits.
#[derive(Debug)]
pub struct Jav321Result {
    pub title: String,
    pub year: Option<i32>,
    pub poster_url: Option<String>,
    pub overview: Option<String>,
    pub rating: Option<u64>,
    pub runtime: Option<i32>,
    pub genres: Vec<String>,
    pub actors: Vec<String>,
}

/// The JAV321 address of a code: the query trimmed, in lower case, without `-`, `_` or
/// spaces.
pub open spec fn jav321_url_of(query: Seq<char>) -> Seq<char> {
    "https://www.jav321.com/video/"@ + lower_code_of(query)
}

/// The JAV321 address of a code.
pub fn jav321_url(query: &str) -> (r: String)
    ensures
        r@ == jav321_url_of(query@),
{
    let code = lower_code(query);
    String::from_str("https://www.jav321.com/video/").concat(code.as_str())
}

/// A JAV321 error page: it says `not found`, or it is shorter than 500 bytes.
pub open spec fn jav321_missing(html: Seq<char>) -> bool {
    contains(html, "not found"@) || byte_len(html) < 500
}

/// `s` parsed as an `i64` (`str::parse::<i64>`) when it is made of ASCII digits only.
pub open spec fn parse_digits_i64(s: Seq<char>) -> Option<int> {
    if s.len() == 0 || !all_digits(s) || digits_value(s) > i64::MAX { None } else { Some(digits_value(s) as int) }
}

/// A runtime in minutes: numbers above 1000 are seconds (truncated to 32 bits).
pub open spec fn minutes(n: i64) -> i32 {
    if n > 1000 { (n / 60) as i32 } else { n as i32 }
}

/// The runtime labels.
pub open spec fn runtime_labels() -> Seq<Seq<char>> {
    seq!["収録時間"@, "时长"@, "Duration"@, "時間"@]
}

/// The date labels.
pub open spec fn date_labels() -> Seq<Seq<char>> {
    seq!["発売日"@, "日期"@, "Release"@]
}

/// The rating labels.
pub open spec fn rating_labels() -> Seq<Seq<char>> {
    seq!["評分"@, "评分"@, "Score"@]
}

/// The digits of a text.
pub open spec fn digits_of(t: Seq<char>) -> Seq<char> {
    t.filter(|c: char| is_digit(c))
}

/// The digits and dashes of a text.
pub open spec fn date_chars_of(t: Seq<char>) -> Seq<char> {
    t.filter(|c: char| is_digit(c) || c == '-')
}

/// The digits and dots of a text.
pub open spec fn rating_chars_of(t: Seq<char>) -> Seq<char> {
    t.filter(|c: char| is_digit(c) || c == '.')
}

/// The runtime and year after one trimmed row: a runtime row whose digits parse sets the
/// runtime; a date row, while no year is known, sets the year from its first four digits
/// and dashes when it has four.
pub open spec fn jav321_step(st: (Option<i32>, Option<i32>), t: Seq<char>) -> (Option<i32>, Option<i32>) {
    let rt = if contains_any(t, runtime_labels()) {
        match parse_digits_i64(digits_of(t)) { Some(n) => Some(minutes(n as i64)), None => st.0 }
    } else {
        st.0
    };
    let nums = date_chars_of(t);
    let yr = if contains_any(t, date_labels()) && st.1 is None && nums.len() >= 4 {
        as_i32(parse_i32(nums.take(4)))
    } else {
        st.1
    };
    (rt, yr)
}

/// The runtime and year after the rows in order.
pub open spec fn jav321_fold(rows: Seq<Seq<char>>) -> (Option<i32>, Option<i32>)
    decreases rows.len(),
{
    if rows.len() == 0 { (None, None) } else { jav321_step(jav321_fold(rows.drop_last()), rows.last()) }
}

/// The digits and dots of the last row that mentions a rating.
pub open spec fn rating_text_of(rows: Seq<Seq<char>>) -> Option<Seq<char>>
    decreases rows.len(),
{
    if rows.len() == 0 {
        None
    } else if contains_any(rows.last(), rating_labels()) {
        Some(rating_chars_of(rows.last()))
    } else {
        rating_text_of(rows.drop_last())
    }
}

/// The selector of the information rows.
pub open spec fn row_selector() -> Seq<char> {
    "tr, .info-item, .detail-item, p"@
}

/// The poster: the `src` of the first main image, or of the first `pics` image when there
/// is no main image, completed with the site.
pub open spec fn jav321_poster(html: Seq<char>) -> Option<Seq<char>> {
    let main = ".movie-img img, .video-img img, .container img"@;
    let src = if html_attrs(html, main, "src"@).len() > 0 {
        first_attr(html, main, "src"@)
    } else {
        first_attr(html, "img[src*='pics']"@, "src"@)
    };
    match src { Some(s) => Some(completed(s, CoverBase::Site("https://www.jav321.com"))), None => None }
}

/// What a JAV321 page gives, beyond the rating.
pub open spec fn jav321_answer(html: Seq<char>, query: Seq<char>, rating: Option<u64>, r: Jav321Result) -> bool {
    let f = jav321_fold(trimmed(html_texts(html, row_selector())));
    &&& r.title@ == (match first_text(html, "h3"@) {
            Some(t) => t,
            None => match first_text(html, ".movie-title, .video-title, h2, h1"@) { Some(t) => t, None => query },
        })
    &&& ov(r.poster_url) == jav321_poster(html)
    &&& ov(r.overview) == first_text(html, ".panel-body, .description, .summary, .movie-desc, .synopsis"@)
    &&& r.runtime == f.0 && r.year == f.1
    &&& r.rating == rating
    &&& strs(r.actors@) == nonempty_texts(html, ".star-name a, .actress a, .cast a, a[href*='actress']"@)
    &&& strs(r.genres@) == nonempty_texts(html, ".tag a, .category a, .genre a, a[href*='genre']"@)
}

#[verifier::loop_isolation(false)]
fn keep_chars(t: &Vec<char>, extra: Option<char>) -> (r: Vec<char>)
    ensures
        extra is None ==> r@ == digits_of(t@),
        extra == Some('-') ==> r@ == date_chars_of(t@),
        extra == Some('.') ==> r@ == rating_chars_of(t@),
{
    let ghost p0 = |c: char| is_digit(c);
    let ghost p1 = |c: char| is_digit(c) || c == '-';
    let ghost p2 = |c: char| is_digit(c) || c == '.';
    let mut r: Vec<char> = Vec::new();
    proof {
        reveal(Seq::filter);
        assert(t@.take(0).filter(p0) =~= Seq::<char>::empty());
        assert(t@.take(0).filter(p1) =~= Seq::<char>::empty());
        assert(t@.take(0).filter(p2) =~= Seq::<char>::empty());
    }
    for k in 0..t.len()
        invariant
            extra is None ==> r@ == t@.take(k as int).filter(p0),
            extra == Some('-') ==> r@ == t@.take(k as int).filter(p1),
            extra == Some('.') ==> r@ == t@.take(k as int).filter(p2),
    {
        let c = t[k];
        assert(t@.take(k + 1) =~= t@.take(k as int).push(c));
        proof {
            t@.take(k as int).lemma_filter_push(c, p0);
            t@.take(k as int).lemma_filter_push(c, p1);
            t@.take(k as int).lemma_filter_push(c, p2);
        }
        let keep = ('0' <= c && c <= '9') || match extra { Some(x) => c == x, None => false };
        if keep {
            r.push(c);
        }
    }
    assert(t@.take(t@.len() as int) =~= t@);
    r
}

fn parse_digits_i64_exec(s: &Vec<char>) -> (r: Option<i64>)
    requires
        all_digits(s@),
    ensures
        r matches Some(v) ==> parse_digits_i64(s@) == Some(v as int),
        r is None ==> parse_digits_i64(s@) is None,
{
    let n = s.len();
    if n == 0 {
        return None;
    }
    let mut v: u128 = 0;
    let mut k: usize = 0;
    while k < n
        invariant
            n == s@.len(),
            k <= n,
            all_digits(s@),
            v == digits_value(s@.take(k as int)),
            v <= i64::MAX,
        decreases n - k,
    {
        let c = s[k];
        assert(is_digit(s@[k as int]));
        let d = (c as u32 - '0' as u32) as u128;
        assert(s@.take(k + 1).drop_last() =~= s@.take(k as int));
        let nv = v * 10 + d;
        k += 1;
        if nv > 9223372036854775807 {
            proof {
                assert(s@.take(k as int).last() == c);
                crate::text::lemma_digits_value_grows(s@, k as int);
            }
            return None;
        }
        v = nv;
    }
    assert(s@.take(n as int) =~= s@);
    Some(v as i64)
}

fn jav321_step_exec(st: (Option<i32>, Option<i32>), t: &Vec<char>) -> (r: (Option<i32>, Option<i32>))
    ensures
        r == jav321_step(st, t@),
{
    let rl: Vec<&str> = vec!["収録時間", "时长", "Duration", "時間"];
    let dl: Vec<&str> = vec!["発売日", "日期", "Release"];
    assert(lits(rl@) =~= runtime_labels());
    assert(lits(dl@) =~= date_labels());
    let rt = if contains_any_exec(t, &rl) {
        let digits = keep_chars(t, None);
        proof {
            reveal(Seq::filter);
            broadcast use vstd::seq_lib::group_filter_ensures;
            assert forall|i: int| 0 <= i < digits@.len() implies is_digit(#[trigger] digits@[i]) by {
                assert(digits@.contains(digits@[i]));
            }
        }
        match parse_digits_i64_exec(&digits) {
            Some(n) => {
                #[verifier::truncate]
                let m: i32 = if n > 1000 { (n / 60) as i32 } else { n as i32 };
                Some(m)
            },
            None => st.0,
        }
    } else {
        st.0
    };
    let nums = keep_chars(t, Some('-'));
    let yr = if contains_any_exec(t, &dl) && st.1.is_none() && nums.len() >= 4 {
        let head = subrange_exec(&nums, 0, 4);
        assert(head@ =~= nums@.take(4));
        parse_i32_exec(&head)
    } else {
        st.1
    };
    (rt, yr)
}

/// The runtime and year read from the rows.
fn jav321_fold_exec(rows: &Vec<String>) -> (r: (Option<i32>, Option<i32>))
    ensures
        r == jav321_fold(trimmed(strs(rows@))),
{
    let mut st: (Option<i32>, Option<i32>) = (None, None);
    let n = rows.len();
    let ghost all = trimmed(strs(rows@));
    for k in 0..n
        invariant
            n == rows@.len(),
            all == trimmed(strs(rows@)),
            st == jav321_fold(all.take(k as int)),
    {
        assert(all.take(k + 1).drop_last() =~= all.take(k as int));
        let t = trim_exec(&chars_of(rows[k].as_str()));
        assert(all.take(k + 1).last() == t@);
        st = jav321_step_exec(st, &t);
    }
    assert(all.take(n as int) =~= all);
    st
}

/// The digits and dots of the last row that mentions a rating, which the caller reads as
/// a float.
pub fn jav321_rating_text(body: &str) -> (r: Option<String>)
    ensures
        ov(r) == rating_text_of(trimmed(html_texts(body@, row_selector()))),
{
    let rows = select_texts(body, "tr, .info-item, .detail-item, p");
    let ghost all = trimmed(strs(rows@));
    let rl: Vec<&str> = vec!["評分", "评分", "Score"];
    assert(lits(rl@) =~= rating_labels());
    let mut r: Option<String> = None;
    let n = rows.len();
    for k in 0..n
        invariant
            n == rows@.len(),
            all == trimmed(strs(rows@)),
            lits(rl@) == rating_labels(),
            ov(r) == rating_text_of(all.take(k as int)),
    {
        assert(all.take(k + 1).drop_last() =~= all.take(k as int));
        let t = trim_exec(&chars_of(rows[k].as_str()));
        assert(all.take(k + 1).last() == t@);
        if contains_any_exec(&t, &rl) {
            r = Some(string_of(&keep_chars(&t, Some('.'))));
        }
    }
    assert(all.take(n as int) =~= all);
    r
}

fn jav321_poster_exec(body: &str) -> (r: Option<String>)
    ensures
        ov(r) == jav321_poster(body@),
{
    let main = select_attrs(body, ".movie-img img, .video-img img, .container img", "src");
    let src = if main.len() > 0 {
        first_attr_of(body, ".movie-img img, .video-img img, .container img", "src")
    } else {
        first_attr_of(body, "img[src*='pics']", "src")
    };
    match src {
        Some(s) => Some(complete(s, &CoverBase::Site("https://www.jav321.com"))),
        None => None,
    }
}

/// Reads a JAV321 page: `JAV321 无结果` for an error page, else its fields. `rating` is the
/// float read from `jav321_rating_text`, as bits.
pub fn jav321_page(body: &str, query: &str, rating: Option<u64>) -> (r: Result<Jav321Result, CommandError>)
    ensures
        jav321_missing(body@) ==> (r matches Err(e) && e.code == SCRAPE_FAILED && e.message@ == "JAV321 无结果"@),
        !jav321_missing(body@) ==> (r matches Ok(a) && jav321_answer(body@, query@, rating, a)),
{
    if contains_exec(&chars_of(body), &chars_of("not found")) || body.as_bytes().len() < 500 {
        return Err(CommandError::scrape_failed("JAV321 无结果"));
    }
    let title = match first_text_of(body, "h3") {
        Some(t) => t,
        None => match first_text_of(body, ".movie-title, .video-title, h2, h1") {
            Some(t) => t,
            None => String::from_str(query),
        },
    };
    let poster_url = jav321_poster_exec(body);
    let overview = first_text_of(body, ".panel-body, .description, .summary, .movie-desc, .synopsis");
    let rows = select_texts(body, "tr, .info-item, .detail-item, p");
    let (runtime, year) = jav321_fold_exec(&rows);
    let actors = nonempty_texts_of(body, ".star-name a, .actress a, .cast a, a[href*='actress']");
    let genres = nonempty_texts_of(body, ".tag a, .category a, .genre a, a[href*='genre']");
    Ok(Jav321Result { title, year, poster_url, overview, rating, runtime, genres, actors })
}

/// The answer of the `jav321` source: the page's fields, no director, lists absent when
/// empty, score 70.
pub open spec fn jav321_scrape_answer(p: Jav321Result, r: ScrapeResult) -> bool {
    &&& r.source@ == "jav321"@ && r.title@ == p.title@ && r.year == p.year
    &&& ov(r.poster_url) == ov(p.poster_url) && r.backdrop_url is None && ov(r.overview) == ov(p.overview)
    &&& r.rating == p.rating && r.runtime == p.runtime && r.director is None
    &&& list_field(r.genre, strs(p.genres@)) && list_field(r.actors, strs(p.actors@))
    &&& r.score == 70
}

/// The answer of the `jav321` source built from its page.
pub fn jav321_scrape_result(p: Jav321Result) -> (r: ScrapeResult)
    ensures
        jav321_scrape_answer(p, r),
{
    ScrapeResult {
        source: String::from_str("jav321"),
        title: p.title,
        year: p.year,
        poster_url: p.poster_url,
        backdrop_url: None,
        overview: p.overview,
        rating: p.rating,
        runtime: p.runtime,
        director: None,
        genre: list_opt(p.genres),
        actors: list_opt(p.actors),
        score: 70,
    }
}

} // verus!
