//! The detail pages of the sources that are searched first and then read: where the search
//! is sent, which link of the search page leads to the movie, and what the movie page
//! gives. The caller fetches both pages.

use vstd::prelude::*;
use vstd::string::StringExecFns;
use crate::error::{CommandError, SCRAPE_FAILED};
use crate::fields::{
    cut4_ok, last_word, last_word_exec, second_part, second_part_exec, year4, year4_exec,
};
use crate::filename_parser::{str_upper, upper_string};
use crate::html::{first_attr, first_attr_of, first_text, first_text_of, html_texts, nonempty_texts, nonempty_texts_of, ov, strs, select_texts};
use crate::javbus::as_i32;
use crate::scrape::ScrapeResult;
use crate::sources::{list_field, list_opt};
use crate::text::{
    chars_of, contains, contains_exec, find, find_exec, is_whitespace, is_whitespace_exec, parse_i32, parse_i32_exec,
    replace_all, replace_exec, string_of, strip_separators, strip_separators_exec, subrange_exec, trim, trim_exec,
};
use crate::url_encoding::{encode, encode_chars};

verus! {

/// The code a detail source is searched with: the query in upper case, without `-`, `_`
/// or spaces.
pub open spec fn search_code_of(query: Seq<char>) -> Seq<char> {
    strip_separators(str_upper(query))
}

/// The code a detail source is searched with.
pub fn search_code(query: &str) -> (r: String)
    ensures
        r@ == search_code_of(query@),
{
    let up = upper_string(query);
    string_of(&strip_separators_exec(&chars_of(up.as_str())))
}

/// The JavDB search address.
pub fn javdb_search_url(query: &str) -> (r: String)
    ensures
        r@ == "https://javdb.com/search?q="@ + search_code_of(query@) + "&f=all"@,
{
    let code = search_code(query);
    String::from_str("https://javdb.com/search?q=").concat(code.as_str()).concat("&f=all")
}

/// The JavLibrary search address.
pub fn javlib_search_url(query: &str) -> (r: String)
    ensures
        r@ == "https://www.javlibrary.com/en/vl_searchbyid.php?keyword="@ + search_code_of(query@),
{
    let code = search_code(query);
    String::from_str("https://www.javlibrary.com/en/vl_searchbyid.php?keyword=").concat(code.as_str())
}

/// The Fanza search address (the code percent-encoded).
pub fn fanza_search_url(query: &str) -> (r: String)
    ensures
        r@ == "https://www.dmm.co.jp/mono/dvd/-/search/=/searchstr="@ + encode_chars(search_code_of(query@)),
{
    let code = search_code(query);
    let e = encode(code.as_str());
    String::from_str("https://www.dmm.co.jp/mono/dvd/-/search/=/searchstr=").concat(e.as_str())
}

/// The Arzon search address (the code percent-encoded).
pub fn arzon_search_url(query: &str) -> (r: String)
    ensures
        r@ == "https://www.arzon.jp/itemlist.html?q="@ + encode_chars(search_code_of(query@)),
{
    let code = search_code(query);
    let e = encode(code.as_str());
    String::from_str("https://www.arzon.jp/itemlist.html?q=").concat(e.as_str())
}

/// The MGStage search address (the code percent-encoded).
pub fn mgstage_search_url(query: &str) -> (r: String)
    ensures
        r@ == "https://www.mgstage.com/search/cSearch.php?search_word="@ + encode_chars(search_code_of(query@)),
{
    let code = search_code(query);
    let e = encode(code.as_str());
    String::from_str("https://www.mgstage.com/search/cSearch.php?search_word=").concat(e.as_str())
}

/// The IMDb search address (the query percent-encoded).
pub fn imdb_search_url(query: &str) -> (r: String)
    ensures
        r@ == "https://www.imdb.com/find/?q="@ + encode_chars(query@),
{
    let e = encode(query);
    String::from_str("https://www.imdb.com/find/?q=").concat(e.as_str())
}

/// The Douban search address (the query percent-encoded).
pub fn douban_search_url(query: &str) -> (r: String)
    ensures
        r@ == "https://movie.douban.com/subject_search?search_text="@ + encode_chars(query@),
{
    let e = encode(query);
    String::from_str("https://movie.douban.com/subject_search?search_text=").concat(e.as_str())
}

/// Every character is an ASCII digit (true of the empty code).
pub open spec fn all_ascii_digits(s: Seq<char>) -> bool {
    forall|i: int| 0 <= i < s.len() ==> crate::text::is_digit(#[trigger] s[i])
}

/// The FC2 article address: FC2 codes are numeric, so a code with another character is
/// refused with `FC2需要纯数字ID`.
pub fn fc2_article_url(query: &str) -> (r: Result<String, CommandError>)
    ensures
        all_ascii_digits(search_code_of(query@)) ==> (r matches Ok(u)
            && u@ == "https://adult.contents.fc2.com/article/"@ + search_code_of(query@) + "/"@),
        !all_ascii_digits(search_code_of(query@)) ==> (r matches Err(e) && e.code == SCRAPE_FAILED
            && e.message@ == "FC2需要纯数字ID"@),
{
    let code = search_code(query);
    let cs = chars_of(code.as_str());
    let mut k: usize = 0;
    while k < cs.len()
        invariant
            k <= cs@.len(),
            cs@ == search_code_of(query@),
            forall|i: int| 0 <= i < k ==> crate::text::is_digit(#[trigger] cs@[i]),
        decreases cs@.len() - k,
    {
        if !('0' <= cs[k] && cs[k] <= '9') {
            return Err(CommandError::scrape_failed("FC2需要纯数字ID"));
        }
        k += 1;
    }
    Ok(String::from_str("https://adult.contents.fc2.com/article/").concat(code.as_str()).concat("/"))
}

/// How a search page's first link becomes the detail address.
pub enum LinkRule {
    /// The site's address followed by the link.
    Prefixed(&'static str),
    /// The site's address followed by the link without its query part.
    PrefixedNoQuery(&'static str),
    /// The site's address followed by the link without its leading dots.
    PrefixedNoDots(&'static str),
    /// The link as it is.
    AsIs,
}

/// `s` up to the first `c`, or all of it (`s.split(c).next()`).
pub open spec fn before_char(s: Seq<char>, c: char) -> Seq<char> {
    match find(s, seq![c]) {
        Some(i) => s.take(i),
        None => s,
    }
}

/// `s` without its leading `c`s (`str::trim_start_matches` with a char).
pub open spec fn without_leading(s: Seq<char>, c: char) -> Seq<char>
    decreases s.len(),
{
    if s.len() > 0 && s[0] == c { without_leading(s.drop_first(), c) } else { s }
}

/// The detail address a link leads to under a rule.
pub open spec fn linked_address(link: Seq<char>, rule: LinkRule) -> Seq<char> {
    match rule {
        LinkRule::Prefixed(p) => p@ + link,
        LinkRule::PrefixedNoQuery(p) => p@ + before_char(link, '?'),
        LinkRule::PrefixedNoDots(p) => p@ + without_leading(link, '.'),
        LinkRule::AsIs => link,
    }
}

fn before_char_exec(s: &Vec<char>, c: char) -> (r: Vec<char>)
    ensures
        r@ == before_char(s@, c),
{
    let pat = vec![c];
    assert(pat@ =~= seq![c]);
    match find_exec(s, &pat) {
        Some(i) => {
            proof { crate::text::lemma_find(s@, pat@); }
            let h = subrange_exec(s, 0, i);
            assert(h@ =~= s@.take(i as int));
            h
        },
        None => s.clone(),
    }
}

fn without_leading_exec(s: &Vec<char>, c: char) -> (r: Vec<char>)
    ensures
        r@ == without_leading(s@, c),
{
    let mut a: usize = 0;
    assert(s@.skip(0) =~= s@);
    while a < s.len() && s[a] == c
        invariant
            a <= s@.len(),
            without_leading(s@, c) == without_leading(s@.skip(a as int), c),
        decreases s@.len() - a,
    {
        assert(s@.skip(a as int).drop_first() =~= s@.skip(a + 1));
        a += 1;
    }
    let r = subrange_exec(s, a, s.len());
    assert(r@ =~= s@.skip(a as int));
    r
}

/// The detail address from a search page: its first match's `href` under the rule, or
/// the error `missing` when the first match has none or nothing matches.
pub open spec fn detail_link_of(html: Seq<char>, sel: Seq<char>, rule: LinkRule) -> Option<Seq<char>> {
    match first_attr(html, sel, "href"@) {
        Some(h) => Some(linked_address(h, rule)),
        None => None,
    }
}

/// The detail address from a search page, or `missing` as a scrape failure.
pub fn detail_link(html: &str, sel: &str, rule: &LinkRule, missing: &str) -> (r: Result<String, CommandError>)
    ensures
        detail_link_of(html@, sel@, *rule) matches Some(u) ==> (r matches Ok(v) && v@ == u),
        detail_link_of(html@, sel@, *rule) is None ==> (r matches Err(e) && e.code == SCRAPE_FAILED
            && e.message@ == missing@),
{
    match first_attr_of(html, sel, "href") {
        Some(h) => {
            let hc = chars_of(h.as_str());
            let v = match rule {
                LinkRule::Prefixed(p) => String::from_str(p).concat(h.as_str()),
                LinkRule::PrefixedNoQuery(p) => String::from_str(p).concat(string_of(&before_char_exec(&hc, '?')).as_str()),
                LinkRule::PrefixedNoDots(p) => String::from_str(p).concat(string_of(&without_leading_exec(&hc, '.')).as_str()),
                LinkRule::AsIs => h,
            };
            Ok(v)
        },
        None => Err(CommandError::scrape_failed(missing)),
    }
}

/// The JavDB movie address from its search page.
pub fn javdb_link(html: &str) -> (r: Result<String, CommandError>)
    ensures
        detail_link_of(html@, ".movie-list .item a.box"@, LinkRule::Prefixed("https://javdb.com")) matches Some(u)
            ==> (r matches Ok(v) && v@ == u),
        detail_link_of(html@, ".movie-list .item a.box"@, LinkRule::Prefixed("https://javdb.com")) is None
            ==> (r matches Err(e) && e.code == SCRAPE_FAILED && e.message@ == "JavDB无结果"@),
{
    detail_link(html, ".movie-list .item a.box", &LinkRule::Prefixed("https://javdb.com"), "JavDB无结果")
}

/// The JavLibrary movie address from its search page (the link's leading dots dropped).
pub fn javlib_link(html: &str) -> (r: Result<String, CommandError>)
    ensures
        detail_link_of(html@, ".video a"@, LinkRule::PrefixedNoDots("https://www.javlibrary.com")) matches Some(u)
            ==> (r matches Ok(v) && v@ == u),
        detail_link_of(html@, ".video a"@, LinkRule::PrefixedNoDots("https://www.javlibrary.com")) is None
            ==> (r matches Err(e) && e.code == SCRAPE_FAILED && e.message@ == "JavLibrary无结果"@),
{
    detail_link(html, ".video a", &LinkRule::PrefixedNoDots("https://www.javlibrary.com"), "JavLibrary无结果")
}

/// The Fanza movie address from its search page.
pub fn fanza_link(html: &str) -> (r: Result<String, CommandError>)
    ensures
        detail_link_of(html@, ".tmb a"@, LinkRule::AsIs) matches Some(u) ==> (r matches Ok(v) && v@ == u),
        detail_link_of(html@, ".tmb a"@, LinkRule::AsIs) is None
            ==> (r matches Err(e) && e.code == SCRAPE_FAILED && e.message@ == "Fanza无结果"@),
{
    detail_link(html, ".tmb a", &LinkRule::AsIs, "Fanza无结果")
}

/// The MGStage movie address from its search page.
pub fn mgstage_link(html: &str) -> (r: Result<String, CommandError>)
    ensures
        detail_link_of(html@, ".search_list h2 a"@, LinkRule::AsIs) matches Some(u) ==> (r matches Ok(v) && v@ == u),
        detail_link_of(html@, ".search_list h2 a"@, LinkRule::AsIs) is None
            ==> (r matches Err(e) && e.code == SCRAPE_FAILED && e.message@ == "MGStage无结果"@),
{
    detail_link(html, ".search_list h2 a", &LinkRule::AsIs, "MGStage无结果")
}

/// The IMDb title address from its search page.
pub fn imdb_link(html: &str) -> (r: Result<String, CommandError>)
    ensures
        detail_link_of(html@, ".ipc-metadata-list-summary-item__t a"@, LinkRule::Prefixed("https://www.imdb.com"))
            matches Some(u) ==> (r matches Ok(v) && v@ == u),
        detail_link_of(html@, ".ipc-metadata-list-summary-item__t a"@, LinkRule::Prefixed("https://www.imdb.com"))
            is None ==> (r matches Err(e) && e.code == SCRAPE_FAILED && e.message@ == "IMDb无结果"@),
{
    detail_link(html, ".ipc-metadata-list-summary-item__t a", &LinkRule::Prefixed("https://www.imdb.com"), "IMDb无结果")
}

/// The Douban subject address from its search page (the link's query part dropped).
pub fn douban_link(html: &str) -> (r: Result<String, CommandError>)
    ensures
        detail_link_of(html@, ".item-root a.cover-link"@, LinkRule::PrefixedNoQuery("https://movie.douban.com"))
            matches Some(u) ==> (r matches Ok(v) && v@ == u),
        detail_link_of(html@, ".item-root a.cover-link"@, LinkRule::PrefixedNoQuery("https://movie.douban.com"))
            is None ==> (r matches Err(e) && e.code == SCRAPE_FAILED && e.message@ == "豆瓣无结果"@),
{
    detail_link(html, ".item-root a.cover-link", &LinkRule::PrefixedNoQuery("https://movie.douban.com"), "豆瓣无结果")
}

/// How the information rows of a detail page are read.
pub enum RowRule {
    /// `日期:` gives the year (first four bytes), `導演:` or `导演:` the director, `時長:` or
    /// `时长:` the runtime, each from the text after the label.
    JavDb,
    /// `Release Date:` gives the year (before the first `/`), `Director:` the director,
    /// `Length:` the runtime (first word), each from the text after the label.
    JavLib,
    /// `発売日` or `配信開始日` gives the year (first four bytes of the last word), `収録時間`
    /// the runtime (last word without `min`).
    Fanza,
    /// `発売日` gives the year (first four bytes of the last word), `収録時間` the runtime
    /// (last word without `分`).
    Mgstage,
    /// `販売開始日` gives the year (first four bytes of the last word).
    Fc2,
}

/// Where the first word of a trimmed text ends: at its first whitespace, or its end.
pub open spec fn word_end(u: Seq<char>) -> int
    decreases u.len(),
{
    if u.len() == 0 || is_whitespace(u[0]) { 0 } else { 1 + word_end(u.drop_first()) }
}

/// The first word of a trimmed text (`split_whitespace().next()`).
pub open spec fn leading_word(u: Seq<char>) -> Option<Seq<char>> {
    if u.len() == 0 { None } else { Some(u.take(word_end(u))) }
}

/// The text after `a`, else after `b`, trimmed.
pub open spec fn after_either(t: Seq<char>, a: Seq<char>, b: Seq<char>) -> Option<Seq<char>> {
    match second_part(t, a) {
        Some(x) => Some(trim(x)),
        None => match second_part(t, b) { Some(x) => Some(trim(x)), None => None },
    }
}

/// A number read from an optional text.
pub open spec fn number_of(o: Option<Seq<char>>) -> Option<i32> {
    match o { Some(x) => as_i32(parse_i32(x)), None => None }
}

/// The year, director and runtime after reading one row: each is replaced when the row has
/// its label, and kept otherwise.
pub open spec fn row_step(rule: RowRule, st: (Option<i32>, Option<Seq<char>>, Option<i32>), t: Seq<char>)
    -> (Option<i32>, Option<Seq<char>>, Option<i32>)
{
    match rule {
        RowRule::JavDb => (
            if contains(t, "日期:"@) { match second_part(t, "日期:"@) { Some(d) => year4(trim(d)), None => None } } else { st.0 },
            if contains(t, "導演:"@) || contains(t, "导演:"@) { after_either(t, "導演:"@, "导演:"@) } else { st.1 },
            if contains(t, "時長:"@) || contains(t, "时长:"@) { number_of(after_either(t, "時長:"@, "时长:"@)) } else { st.2 },
        ),
        RowRule::JavLib => (
            if contains(t, "Release Date:"@) {
                match second_part(t, "Release Date:"@) { Some(d) => as_i32(parse_i32(trim(before_char(trim(d), '/')))), None => None }
            } else { st.0 },
            if contains(t, "Director:"@) { match second_part(t, "Director:"@) { Some(x) => Some(trim(x)), None => None } } else { st.1 },
            if contains(t, "Length:"@) {
                match second_part(t, "Length:"@) { Some(x) => number_of(leading_word(trim(x))), None => None }
            } else { st.2 },
        ),
        RowRule::Fanza => (
            if contains(t, "発売日"@) || contains(t, "配信開始日"@) { match last_word(t) { Some(w) => year4(w), None => None } } else { st.0 },
            st.1,
            if contains(t, "収録時間"@) {
                match last_word(t) { Some(w) => as_i32(parse_i32(replace_all(trim(w), "min"@, ""@))), None => None }
            } else { st.2 },
        ),
        RowRule::Mgstage => (
            if contains(t, "発売日"@) { match last_word(t) { Some(w) => year4(w), None => None } } else { st.0 },
            st.1,
            if contains(t, "収録時間"@) {
                match last_word(t) { Some(w) => as_i32(parse_i32(trim(replace_all(w, "分"@, ""@)))), None => None }
            } else { st.2 },
        ),
        RowRule::Fc2 => (
            if contains(t, "販売開始日"@) { match last_word(t) { Some(w) => year4(w), None => None } } else { st.0 },
            st.1,
            st.2,
        ),
    }
}

/// A row can be read without cutting a date in the middle of a character (or short of
/// four bytes), which the original read would panic on.
pub open spec fn row_cut_ok(rule: RowRule, t: Seq<char>) -> bool {
    match rule {
        RowRule::JavDb => contains(t, "日期:"@) ==> (second_part(t, "日期:"@) matches Some(d) ==> cut4_ok(trim(d))),
        RowRule::JavLib => true,
        RowRule::Fanza => (contains(t, "発売日"@) || contains(t, "配信開始日"@)) ==> (last_word(t) matches Some(w) ==> cut4_ok(w)),
        RowRule::Mgstage => contains(t, "発売日"@) ==> (last_word(t) matches Some(w) ==> cut4_ok(w)),
        RowRule::Fc2 => contains(t, "販売開始日"@) ==> (last_word(t) matches Some(w) ==> cut4_ok(w)),
    }
}

/// Every row can be read.
pub open spec fn rows_cut_ok(rule: RowRule, rows: Seq<Seq<char>>) -> bool {
    forall|i: int| 0 <= i < rows.len() ==> row_cut_ok(rule, #[trigger] rows[i])
}

/// The year, director and runtime after reading the rows in order.
pub open spec fn rows_fold(rule: RowRule, rows: Seq<Seq<char>>) -> (Option<i32>, Option<Seq<char>>, Option<i32>)
    decreases rows.len(),
{
    if rows.len() == 0 { (None, None, None) } else { row_step(rule, rows_fold(rule, rows.drop_last()), rows.last()) }
}

/// The view of a row state.
pub open spec fn row_view(st: (Option<i32>, Option<String>, Option<i32>)) -> (Option<i32>, Option<Seq<char>>, Option<i32>) {
    (st.0, ov(st.1), st.2)
}

fn has(t: &Vec<char>, w: &str) -> (b: bool)
    ensures
        b == contains(t@, w@),
{
    contains_exec(t, &chars_of(w))
}

fn leading_word_exec(u: &Vec<char>) -> (r: Option<Vec<char>>)
    ensures
        (match r { Some(v) => Some(v@), None => None }) == leading_word(u@),
{
    if u.len() == 0 {
        return None;
    }
    let mut e: usize = 0;
    assert(u@.skip(0) =~= u@);
    while e < u.len() && !is_whitespace_exec(u[e])
        invariant
            e <= u@.len(),
            word_end(u@) == e + word_end(u@.skip(e as int)),
        decreases u@.len() - e,
    {
        assert(u@.skip(e as int).drop_first() =~= u@.skip(e + 1));
        e += 1;
    }
    let w = subrange_exec(u, 0, e);
    assert(w@ =~= u@.take(e as int));
    Some(w)
}

fn after_either_exec(t: &Vec<char>, a: &str, b: &str) -> (r: Option<String>)
    ensures
        ov(r) == after_either(t@, a@, b@),
{
    match second_part_exec(t, &chars_of(a)) {
        Some(x) => Some(string_of(&trim_exec(&x))),
        None => match second_part_exec(t, &chars_of(b)) {
            Some(x) => Some(string_of(&trim_exec(&x))),
            None => None,
        },
    }
}

fn number_of_exec(o: Option<String>) -> (r: Option<i32>)
    ensures
        r == number_of(ov(o)),
{
    match o {
        Some(x) => parse_i32_exec(&chars_of(x.as_str())),
        None => None,
    }
}

fn year_of_last_word(t: &Vec<char>) -> (r: Option<i32>)
    requires
        last_word(t@) matches Some(w) ==> cut4_ok(w),
    ensures
        r == (match last_word(t@) { Some(w) => year4(w), None => None }),
{
    match last_word_exec(t) {
        Some(w) => year4_exec(string_of(&w).as_str()),
        None => None,
    }
}

fn row_step_exec(rule: &RowRule, st: (Option<i32>, Option<String>, Option<i32>), t: &Vec<char>)
    -> (r: (Option<i32>, Option<String>, Option<i32>))
    requires
        row_cut_ok(*rule, t@),
    ensures
        row_view(r) == row_step(*rule, row_view(st), t@),
{
    let (y0, d0, r0) = st;
    match rule {
        RowRule::JavDb => {
            let y = if has(t, "日期:") {
                match second_part_exec(t, &chars_of("日期:")) {
                    Some(d) => year4_exec(string_of(&trim_exec(&d)).as_str()),
                    None => None,
                }
            } else { y0 };
            let d = if has(t, "導演:") || has(t, "导演:") { after_either_exec(t, "導演:", "导演:") } else { d0 };
            let r = if has(t, "時長:") || has(t, "时长:") { number_of_exec(after_either_exec(t, "時長:", "时长:")) } else { r0 };
            (y, d, r)
        },
        RowRule::JavLib => {
            let y = if has(t, "Release Date:") {
                match second_part_exec(t, &chars_of("Release Date:")) {
                    Some(d) => parse_i32_exec(&trim_exec(&before_char_exec(&trim_exec(&d), '/'))),
                    None => None,
                }
            } else { y0 };
            let d = if has(t, "Director:") {
                match second_part_exec(t, &chars_of("Director:")) { Some(x) => Some(string_of(&trim_exec(&x))), None => None }
            } else { d0 };
            let r = if has(t, "Length:") {
                match second_part_exec(t, &chars_of("Length:")) {
                    Some(x) => match leading_word_exec(&trim_exec(&x)) {
                        Some(w) => parse_i32_exec(&w),
                        None => None,
                    },
                    None => None,
                }
            } else { r0 };
            (y, d, r)
        },
        RowRule::Fanza => {
            let y = if has(t, "発売日") || has(t, "配信開始日") { year_of_last_word(t) } else { y0 };
            let r = if has(t, "収録時間") {
                match last_word_exec(t) {
                    Some(w) => parse_i32_exec(&replace_exec(&trim_exec(&w), &chars_of("min"), &chars_of(""))),
                    None => None,
                }
            } else { r0 };
            (y, d0, r)
        },
        RowRule::Mgstage => {
            let y = if has(t, "発売日") { year_of_last_word(t) } else { y0 };
            let r = if has(t, "収録時間") {
                match last_word_exec(t) {
                    Some(w) => parse_i32_exec(&trim_exec(&replace_exec(&w, &chars_of("分"), &chars_of("")))),
                    None => None,
                }
            } else { r0 };
            (y, d0, r)
        },
        RowRule::Fc2 => {
            let y = if has(t, "販売開始日") { year_of_last_word(t) } else { y0 };
            (y, d0, r0)
        },
    }
}

/// The year, director and runtime read from the rows in order.
pub fn read_rows(rule: &RowRule, rows: &Vec<String>) -> (r: (Option<i32>, Option<String>, Option<i32>))
    requires
        rows_cut_ok(*rule, strs(rows@)),
    ensures
        row_view(r) == rows_fold(*rule, strs(rows@)),
{
    let mut st: (Option<i32>, Option<String>, Option<i32>) = (None, None, None);
    let n = rows.len();
    for k in 0..n
        invariant
            n == rows@.len(),
            rows_cut_ok(*rule, strs(rows@)),
            row_view(st) == rows_fold(*rule, strs(rows@).take(k as int)),
    {
        assert(strs(rows@).take(k + 1).drop_last() =~= strs(rows@).take(k as int));
        assert(strs(rows@).take(k + 1).last() == rows@[k as int]@);
        assert(row_cut_ok(*rule, strs(rows@)[k as int]));
        st = row_step_exec(rule, st, &chars_of(rows[k].as_str()));
    }
    assert(strs(rows@).take(n as int) =~= strs(rows@));
    st
}

/// The selectors of a detail page: title, cover and the cover's attribute, information
/// rows and how they are read, and the actors and genres where the source lists them.
pub struct DetailRecipe {
    pub source: &'static str,
    pub score: i32,
    pub title: &'static str,
    pub cover: &'static str,
    pub cover_attr: &'static str,
    pub rows: &'static str,
    pub rule: RowRule,
    pub actors: Option<&'static str>,
    pub genres: Option<&'static str>,
}

/// The page's rows can all be read.
pub open spec fn page_rows_ok(html: Seq<char>, rc: DetailRecipe) -> bool {
    rows_cut_ok(rc.rule, html_texts(html, rc.rows@))
}

/// What a detail page gives: the first title match trimmed (else the query), the first
/// cover match's attribute, the year, director and runtime read from the rows, and the
/// non-empty actor and genre texts, absent when there are none.
pub open spec fn detail_answer(html: Seq<char>, query: Seq<char>, rc: DetailRecipe, r: ScrapeResult) -> bool {
    let f = rows_fold(rc.rule, html_texts(html, rc.rows@));
    &&& r.source@ == rc.source@
    &&& r.title@ == (match first_text(html, rc.title@) { Some(t) => t, None => query })
    &&& ov(r.poster_url) == first_attr(html, rc.cover@, rc.cover_attr@)
    &&& r.year == f.0 && ov(r.director) == f.1 && r.runtime == f.2
    &&& (match rc.actors { Some(a) => list_field(r.actors, nonempty_texts(html, a@)), None => r.actors is None })
    &&& (match rc.genres { Some(g) => list_field(r.genre, nonempty_texts(html, g@)), None => r.genre is None })
    &&& r.overview is None && r.rating is None && r.backdrop_url is None
    &&& r.score == rc.score
}

/// Reads a detail page with a recipe.
pub fn detail_page(body: &str, query: &str, rc: &DetailRecipe) -> (r: ScrapeResult)
    requires
        page_rows_ok(body@, *rc),
    ensures
        detail_answer(body@, query@, *rc, r),
{
    let title = match first_text_of(body, rc.title) { Some(t) => t, None => String::from_str(query) };
    let poster = first_attr_of(body, rc.cover, rc.cover_attr);
    let rows = select_texts(body, rc.rows);
    let (year, director, runtime) = read_rows(&rc.rule, &rows);
    let actors = match rc.actors { Some(a) => list_opt(nonempty_texts_of(body, a)), None => None };
    let genre = match rc.genres { Some(g) => list_opt(nonempty_texts_of(body, g)), None => None };
    ScrapeResult {
        source: String::from_str(rc.source),
        title,
        year,
        poster_url: poster,
        backdrop_url: None,
        overview: None,
        rating: None,
        runtime,
        director,
        genre,
        actors,
        score: rc.score,
    }
}

fn rows_ok_exec(rule: &RowRule, rows: &Vec<String>) -> (b: bool)
    ensures
        b == rows_cut_ok(*rule, strs(rows@)),
{
    let n = rows.len();
    let mut k: usize = 0;
    while k < n
        invariant
            n == rows@.len(),
            k <= n,
            forall|i: int| 0 <= i < k ==> row_cut_ok(*rule, #[trigger] strs(rows@)[i]),
        decreases n - k,
    {
        let t = chars_of(rows[k].as_str());
        assert(t@ == strs(rows@)[k as int]);
        let ok = match rule {
            RowRule::JavDb => {
                if has(&t, "日期:") {
                    match second_part_exec(&t, &chars_of("日期:")) {
                        Some(d) => {
                            let td = string_of(&trim_exec(&d));
                            let bl = td.as_str().as_bytes().len();
                            bl >= 4 && td.as_str().is_char_boundary(4)
                        },
                        None => true,
                    }
                } else { true }
            },
            RowRule::JavLib => true,
            RowRule::Fanza => {
                if has(&t, "発売日") || has(&t, "配信開始日") { last_word_cut_ok(&t) } else { true }
            },
            RowRule::Mgstage => {
                if has(&t, "発売日") { last_word_cut_ok(&t) } else { true }
            },
            RowRule::Fc2 => {
                if has(&t, "販売開始日") { last_word_cut_ok(&t) } else { true }
            },
        };
        if !ok {
            return false;
        }
        k += 1;
    }
    true
}

fn last_word_cut_ok(t: &Vec<char>) -> (b: bool)
    ensures
        b == (last_word(t@) matches Some(w) ==> cut4_ok(w)),
{
    match last_word_exec(t) {
        Some(w) => {
            let ws = string_of(&w);
            ws.as_str().as_bytes().len() >= 4 && ws.as_str().is_char_boundary(4)
        },
        None => true,
    }
}

/// Reads a detail page with a recipe, unless one of its rows holds a date that the read
/// would cut inside a character or short of four bytes; then `None`.
pub fn detail_page_checked(body: &str, query: &str, rc: &DetailRecipe) -> (r: Option<ScrapeResult>)
    ensures
        page_rows_ok(body@, *rc) ==> (r matches Some(a) && detail_answer(body@, query@, *rc, a)),
        !page_rows_ok(body@, *rc) ==> r is None,
{
    let rows = select_texts(body, rc.rows);
    if rows_ok_exec(&rc.rule, &rows) {
        Some(detail_page(body, query, rc))
    } else {
        None
    }
}

/// The JavDB movie page.
pub fn javdb_recipe() -> (rc: DetailRecipe)
    ensures
        rc.source@ == "javdb"@ && rc.score == 70 && rc.title@ == ".video-title strong"@
            && rc.cover@ == ".video-cover img"@ && rc.cover_attr@ == "src"@ && rc.rows@ == ".panel-block"@
            && rc.rule == RowRule::JavDb && (rc.actors matches Some(a) && a@ == ".actress-name a"@) && rc.genres is None,
{
    DetailRecipe {
        source: "javdb", score: 70, title: ".video-title strong", cover: ".video-cover img", cover_attr: "src",
        rows: ".panel-block", rule: RowRule::JavDb, actors: Some(".actress-name a"), genres: None,
    }
}

/// The JavLibrary movie page.
pub fn javlib_recipe() -> (rc: DetailRecipe)
    ensures
        rc.source@ == "javlibrary"@ && rc.score == 70 && rc.title@ == "h3.post-title"@
            && rc.cover@ == "#video_jacket_img"@ && rc.cover_attr@ == "src"@ && rc.rows@ == "#video_info .item"@
            && rc.rule == RowRule::JavLib && (rc.actors matches Some(a) && a@ == ".cast a"@)
            && (rc.genres matches Some(g) && g@ == ".genre a"@),
{
    DetailRecipe {
        source: "javlibrary", score: 70, title: "h3.post-title", cover: "#video_jacket_img", cover_attr: "src",
        rows: "#video_info .item", rule: RowRule::JavLib, actors: Some(".cast a"), genres: Some(".genre a"),
    }
}

/// The Fanza movie page.
pub fn fanza_recipe() -> (rc: DetailRecipe)
    ensures
        rc.source@ == "fanza"@ && rc.score == 65 && rc.title@ == "h1#title"@
            && rc.cover@ == "#sample-image1 img"@ && rc.cover_attr@ == "src"@ && rc.rows@ == "table.mg-b20 tr"@
            && rc.rule == RowRule::Fanza && (rc.actors matches Some(a) && a@ == "#performer a"@)
            && (rc.genres matches Some(g) && g@ == ".genreTag a"@),
{
    DetailRecipe {
        source: "fanza", score: 65, title: "h1#title", cover: "#sample-image1 img", cover_attr: "src",
        rows: "table.mg-b20 tr", rule: RowRule::Fanza, actors: Some("#performer a"), genres: Some(".genreTag a"),
    }
}

/// The MGStage movie page (its cover is the enlarge link's `href`).
pub fn mgstage_recipe() -> (rc: DetailRecipe)
    ensures
        rc.source@ == "mgstage"@ && rc.score == 60 && rc.title@ == "h1.tag"@
            && rc.cover@ == "#EnlargeImage"@ && rc.cover_attr@ == "href"@ && rc.rows@ == ".detail_data tr"@
            && rc.rule == RowRule::Mgstage && (rc.actors matches Some(a) && a@ == ".detail_data a[href*='actress']"@)
            && (rc.genres matches Some(g) && g@ == ".detail_data a[href*='genre']"@),
{
    DetailRecipe {
        source: "mgstage", score: 60, title: "h1.tag", cover: "#EnlargeImage", cover_attr: "href",
        rows: ".detail_data tr", rule: RowRule::Mgstage, actors: Some(".detail_data a[href*='actress']"),
        genres: Some(".detail_data a[href*='genre']"),
    }
}

/// The FC2 article page.
pub fn fc2_recipe() -> (rc: DetailRecipe)
    ensures
        rc.source@ == "fc2"@ && rc.score == 55 && rc.title@ == "h3.items_article_headerInfo_title"@
            && rc.cover@ == ".items_article_Left img"@ && rc.cover_attr@ == "src"@ && rc.rows@ == ".items_article_Info tr"@
            && rc.rule == RowRule::Fc2 && rc.actors is None && rc.genres is None,
{
    DetailRecipe {
        source: "fc2", score: 55, title: "h3.items_article_headerInfo_title", cover: ".items_article_Left img",
        cover_attr: "src", rows: ".items_article_Info tr", rule: RowRule::Fc2, actors: None, genres: None,
    }
}

/// What the IMDb title page gives: the `h1` (else the query), the year from the first
/// release link, the poster, and the rating the caller read from `imdb_rating_text`.
pub open spec fn imdb_answer(html: Seq<char>, query: Seq<char>, rating: Option<u64>, r: ScrapeResult) -> bool {
    &&& r.source@ == "imdb"@
    &&& r.title@ == (match first_text(html, "h1"@) { Some(t) => t, None => query })
    &&& r.year == number_of(first_text(html, ".sc-afe43def-1 a.ipc-inline-list__item"@))
    &&& r.rating == rating
    &&& ov(r.poster_url) == first_attr(html, ".ipc-media img"@, "src"@)
    &&& r.backdrop_url is None && r.overview is None && r.runtime is None && r.director is None
    &&& r.genre is None && r.actors is None
    &&& r.score == 75
}

/// The text of the IMDb rating, which the caller reads as a float.
pub fn imdb_rating_text(body: &str) -> (r: Option<String>)
    ensures
        ov(r) == first_text(body@, ".sc-bde20123-1 span"@),
{
    first_text_of(body, ".sc-bde20123-1 span")
}

/// Reads the IMDb title page; `rating` is the float read from its rating text, as bits.
pub fn imdb_page(body: &str, query: &str, rating: Option<u64>) -> (r: ScrapeResult)
    ensures
        imdb_answer(body@, query@, rating, r),
{
    let title = match first_text_of(body, "h1") { Some(t) => t, None => String::from_str(query) };
    let year = number_of_exec(first_text_of(body, ".sc-afe43def-1 a.ipc-inline-list__item"));
    let poster = first_attr_of(body, ".ipc-media img", "src");
    ScrapeResult {
        source: String::from_str("imdb"),
        title,
        year,
        poster_url: poster,
        backdrop_url: None,
        overview: None,
        rating,
        runtime: None,
        director: None,
        genre: None,
        actors: None,
        score: 75,
    }
}

/// A text without any `(` or `)`.
pub open spec fn without_parens(s: Seq<char>) -> Seq<char> {
    s.filter(|c: char| c != '(' && c != ')')
}

#[verifier::loop_isolation(false)]
fn without_parens_exec(s: &Vec<char>) -> (r: Vec<char>)
    ensures
        r@ == without_parens(s@),
{
    let ghost keep = |c: char| c != '(' && c != ')';
    let mut r: Vec<char> = Vec::new();
    proof {
        reveal(Seq::filter);
        assert(s@.take(0).filter(keep) =~= Seq::<char>::empty());
    }
    for k in 0..s.len()
        invariant
            r@ == s@.take(k as int).filter(keep),
    {
        let c = s[k];
        assert(s@.take(k + 1) =~= s@.take(k as int).push(c));
        proof { s@.take(k as int).lemma_filter_push(c, keep); }
        if c != '(' && c != ')' {
            r.push(c);
        }
    }
    assert(s@.take(s@.len() as int) =~= s@);
    r
}

/// What the Douban subject page gives: the title span (else the query), the year without
/// its brackets, the rating the caller read from `douban_rating_text`, the poster and the
/// summary.
pub open spec fn douban_answer(html: Seq<char>, query: Seq<char>, rating: Option<u64>, r: ScrapeResult) -> bool {
    &&& r.source@ == "douban"@
    &&& r.title@ == (match first_text(html, "h1 span"@) { Some(t) => t, None => query })
    &&& r.year == (match first_text(html, ".year"@) { Some(y) => as_i32(parse_i32(without_parens(y))), None => None })
    &&& r.rating == rating
    &&& ov(r.poster_url) == first_attr(html, "#mainpic img"@, "src"@)
    &&& ov(r.overview) == first_text(html, "#link-report span[property='v:summary']"@)
    &&& r.backdrop_url is None && r.runtime is None && r.director is None && r.genre is None && r.actors is None
    &&& r.score == 70
}

/// The text of the Douban rating, which the caller reads as a float.
pub fn douban_rating_text(body: &str) -> (r: Option<String>)
    ensures
        ov(r) == first_text(body@, ".rating_num"@),
{
    first_text_of(body, ".rating_num")
}

/// Reads the Douban subject page; `rating` is the float read from its rating text, as bits.
pub fn douban_page(body: &str, query: &str, rating: Option<u64>) -> (r: ScrapeResult)
    ensures
        douban_answer(body@, query@, rating, r),
{
    let title = match first_text_of(body, "h1 span") { Some(t) => t, None => String::from_str(query) };
    let year = match first_text_of(body, ".year") {
        Some(y) => parse_i32_exec(&without_parens_exec(&chars_of(y.as_str()))),
        None => None,
    };
    let poster = first_attr_of(body, "#mainpic img", "src");
    let overview = first_text_of(body, "#link-report span[property='v:summary']");
    ScrapeResult {
        source: String::from_str("douban"),
        title,
        year,
        poster_url: poster,
        backdrop_url: None,
        overview,
        rating,
        runtime: None,
        director: None,
        genre: None,
        actors: None,
        score: 70,
    }
}

/// What the Arzon search page gives: the first item image's `alt` as the title and its
/// `src` behind `https:` as the poster; `Arzon无结果` when the first image has no `alt`.
pub open spec fn arzon_answer(html: Seq<char>, r: Result<ScrapeResult, CommandError>) -> bool {
    match first_attr(html, ".item img"@, "alt"@) {
        Some(t) => r matches Ok(a) && {
            &&& a.source@ == "arzon"@ && a.title@ == t
            &&& ov(a.poster_url) == (match first_attr(html, ".item img"@, "src"@) { Some(s) => Some("https:"@ + s), None => None })
            &&& a.year is None && a.backdrop_url is None && a.overview is None && a.rating is None
            &&& a.runtime is None && a.director is None && a.genre is None && a.actors is None
            &&& a.score == 50
        },
        None => r matches Err(e) && e.code == SCRAPE_FAILED && e.message@ == "Arzon无结果"@,
    }
}

/// Reads the Arzon search page.
pub fn arzon_page(body: &str) -> (r: Result<ScrapeResult, CommandError>)
    ensures
        arzon_answer(body@, r),
{
    let title = match first_attr_of(body, ".item img", "alt") {
        Some(t) => t,
        None => return Err(CommandError::scrape_failed("Arzon无结果")),
    };
    let poster = match first_attr_of(body, ".item img", "src") {
        Some(s) => Some(String::from_str("https:").concat(s.as_str())),
        None => None,
    };
    Ok(ScrapeResult {
        source: String::from_str("arzon"),
        title,
        year: None,
        poster_url: poster,
        backdrop_url: None,
        overview: None,
        rating: None,
        runtime: None,
        director: None,
        genre: None,
        actors: None,
        score: 50,
    })
}

} // verus!
