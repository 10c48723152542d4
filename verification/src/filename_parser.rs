//! Parsing of video file names: strip the extension and technical tags, and find a
//! code of the form `ABC-123` (letters, optional `-`/`_`, digits).

use vstd::prelude::*;
use vstd::string::{StringExecFns, StringSliceAdditionalSpecFns};
use crate::text::{
    chars_of, contains, contains_exec, find, find_exec, lemma_find, lemma_replace_all_shrinks,
    replace_all, replace_exec, rfind_char, rfind_char_exec, string_of, subrange_exec, trim,
    trim_exec,
};

verus! {

/// Technical tags removed from a file name, in the order they are removed.
pub open spec fn technical_suffixes() -> Seq<Seq<char>> {
    seq![
        "1080p"@, "720p"@, "4K"@, "2160p"@, "HDR"@, "DV"@, "HDR10"@,
        "x264"@, "x265"@, "HEVC"@, "AVC"@, "AV1"@,
        "BluRay"@, "WEB-DL"@, "WEBRip"@, "BDRip"@, "HDTV"@,
        "DDP5.1"@, "DDP7.1"@, "TrueHD"@, "Atmos"@, "DTS-HD"@, "DTS"@,
        "AAC"@, "FLAC"@,
        "CHS"@, "CHT"@, "中文字幕"@, "中文"@,
        "완전"@, "Uncensored"@, "Leak"@, "无码"@,
    ]
}

/// `s` with each pattern of `pats`, one after the other, replaced by a space.
pub open spec fn replace_each(s: Seq<char>, pats: Seq<Seq<char>>) -> Seq<char>
    decreases pats.len(),
{
    if pats.len() == 0 {
        s
    } else {
        replace_each(replace_all(s, pats[0], seq![' ']), pats.drop_first())
    }
}

/// Double spaces collapsed: `"  "` is replaced by `" "` until none is left.
pub open spec fn collapse_spaces(s: Seq<char>) -> Seq<char>
    decreases s.len(),
{
    if contains(s, seq![' ', ' ']) {
        proof {
            lemma_find(s, seq![' ', ' ']);
            lemma_replace_all_shrinks(s, seq![' ', ' '], seq![' ']);
        }
        collapse_spaces(replace_all(s, seq![' ', ' '], seq![' ']))
    } else {
        s
    }
}

/// Bracket content that names a resolution or codec.
pub open spec fn is_technical_bracket(content: Seq<char>) -> bool {
    contains(content, "1080p"@) || contains(content, "720p"@) || contains(content, "HEVC"@)
        || contains(content, "x265"@) || contains(content, "x264"@)
}

/// Text after a separator that names a resolution or codec.
pub open spec fn is_technical_tail(after: Seq<char>) -> bool {
    contains(after, "1080p"@) || contains(after, "720p"@) || contains(after, "x265"@)
        || contains(after, "x264"@)
}

/// Repeatedly replaces the first `open ... close` group by a space while its content is
/// technical; stops at the first group that is not.
pub open spec fn bracket_pass(s: Seq<char>, open: char, close: char) -> Seq<char>
    decreases s.len(),
{
    match find(s, seq![open]) {
        None => s,
        Some(start) => match find(s.skip(start), seq![close]) {
            None => s,
            Some(end) => if open != close && is_technical_bracket(s.subrange(start + 1, start + end)) {
                proof {
                    lemma_find(s, seq![open]);
                    lemma_find(s.skip(start), seq![close]);
                    assert(s.skip(start).subrange(0, 1)[0] == s[start]);
                    assert(s.skip(start).subrange(end, end + 1)[0] == s[start + end]);
                }
                bracket_pass(s.take(start) + seq![' '] + s.skip(start + end + 1), open, close)
            } else {
                s
            }
        },
    }
}

/// The first bracket group of a name is removed (replaced by a space, and the pass goes
/// on) only when its content names a resolution or codec: 1080p, 720p, HEVC, x265 or
/// x264. A first group whose content names none of them is left, with everything after
/// it: the pass stops there and the text is unchanged.
pub proof fn law_bracket_kept_unless_technical(s: Seq<char>, open: char, close: char, start: int, end: int)
    requires
        find(s, seq![open]) == Some(start),
        find(s.skip(start), seq![close]) == Some(end),
    ensures
        ({
            let c = s.subrange(start + 1, start + end);
            !contains(c, "1080p"@) && !contains(c, "720p"@) && !contains(c, "HEVC"@) && !contains(c, "x265"@)
                && !contains(c, "x264"@)
        }) ==> bracket_pass(s, open, close) == s,
        ({
            let c = s.subrange(start + 1, start + end);
            open != close && (contains(c, "1080p"@) || contains(c, "720p"@) || contains(c, "HEVC"@)
                || contains(c, "x265"@) || contains(c, "x264"@))
        }) ==> bracket_pass(s, open, close) == bracket_pass(s.take(start) + seq![' '] + s.skip(start + end + 1), open, close),
{
}

/// Cuts the text at the first `sep` when what follows it is technical.
pub open spec fn sep_pass(s: Seq<char>, sep: Seq<char>) -> Seq<char> {
    match find(s, sep) {
        Some(pos) => if is_technical_tail(s.skip(pos + sep.len())) {
            s.take(pos)
        } else {
            s
        },
        None => s,
    }
}

/// The text is cut at the first separator exactly when what follows it names 1080p, 720p,
/// x265 or x264; otherwise (or with no separator) it is unchanged.
pub proof fn law_cut_only_technical_tail(s: Seq<char>, sep: Seq<char>, pos: int)
    ensures
        find(s, sep) == Some(pos) ==> ({
            let t = s.skip(pos + sep.len());
            &&& (contains(t, "1080p"@) || contains(t, "720p"@) || contains(t, "x265"@) || contains(t, "x264"@))
                ==> sep_pass(s, sep) == s.take(pos)
            &&& (!contains(t, "1080p"@) && !contains(t, "720p"@) && !contains(t, "x265"@) && !contains(t, "x264"@))
                ==> sep_pass(s, sep) == s
        }),
        find(s, sep) is None ==> sep_pass(s, sep) == s,
{
}

/// Technical brackets removed, then trailing technical text after `" - "` or `" – "`.
pub open spec fn spec_remove_bracket_content(s: Seq<char>) -> Seq<char> {
    sep_pass(
        sep_pass(bracket_pass(bracket_pass(s, '[', ']'), '(', ')'), " - "@),
        " – "@,
    )
}

/// Technical tags replaced by spaces, spaces collapsed, technical brackets removed.
pub open spec fn spec_remove_technical_suffixes(name: Seq<char>) -> Seq<char> {
    spec_remove_bracket_content(collapse_spaces(replace_each(name, technical_suffixes())))
}

/// The file name, trimmed, without the text from its last `.` on.
pub open spec fn spec_base_name(filename: Seq<char>) -> Seq<char> {
    let t = trim(filename);
    match rfind_char(t, '.') {
        Some(d) => t.take(d),
        None => t,
    }
}

/// The cleaned name before the final trim.
pub open spec fn spec_cleaned(filename: Seq<char>) -> Seq<char> {
    spec_remove_technical_suffixes(spec_base_name(filename))
}

fn suffix_list() -> (v: Vec<Vec<char>>)
    ensures
        v@.map_values(|x: Vec<char>| x@) == technical_suffixes(),
{
    let mut v: Vec<Vec<char>> = Vec::new();
    v.push(chars_of("1080p"));
    v.push(chars_of("720p"));
    v.push(chars_of("4K"));
    v.push(chars_of("2160p"));
    v.push(chars_of("HDR"));
    v.push(chars_of("DV"));
    v.push(chars_of("HDR10"));
    v.push(chars_of("x264"));
    v.push(chars_of("x265"));
    v.push(chars_of("HEVC"));
    v.push(chars_of("AVC"));
    v.push(chars_of("AV1"));
    v.push(chars_of("BluRay"));
    v.push(chars_of("WEB-DL"));
    v.push(chars_of("WEBRip"));
    v.push(chars_of("BDRip"));
    v.push(chars_of("HDTV"));
    v.push(chars_of("DDP5.1"));
    v.push(chars_of("DDP7.1"));
    v.push(chars_of("TrueHD"));
    v.push(chars_of("Atmos"));
    v.push(chars_of("DTS-HD"));
    v.push(chars_of("DTS"));
    v.push(chars_of("AAC"));
    v.push(chars_of("FLAC"));
    v.push(chars_of("CHS"));
    v.push(chars_of("CHT"));
    v.push(chars_of("中文字幕"));
    v.push(chars_of("中文"));
    v.push(chars_of("완전"));
    v.push(chars_of("Uncensored"));
    v.push(chars_of("Leak"));
    v.push(chars_of("无码"));
    assert(v@.map_values(|x: Vec<char>| x@) =~= technical_suffixes());
    v
}

fn space() -> (v: Vec<char>)
    ensures
        v@ == seq![' '],
{
    let mut v: Vec<char> = Vec::new();
    v.push(' ');
    assert(v@ =~= seq![' ']);
    v
}

fn single(c: char) -> (v: Vec<char>)
    ensures
        v@ == seq![c],
{
    let mut v: Vec<char> = Vec::new();
    v.push(c);
    assert(v@ =~= seq![c]);
    v
}

fn collapse_spaces_exec(s: Vec<char>) -> (r: Vec<char>)
    ensures
        r@ == collapse_spaces(s@),
{
    let mut double = space();
    double.push(' ');
    assert(double@ =~= seq![' ', ' ']);
    let one = space();
    let mut result = s;
    while contains_exec(&result, &double)
        invariant
            double@ == seq![' ', ' '],
            one@ == seq![' '],
            collapse_spaces(s@) == collapse_spaces(result@),
        decreases result@.len(),
    {
        proof {
            lemma_find(result@, double@);
            lemma_replace_all_shrinks(result@, double@, one@);
        }
        result = replace_exec(&result, &double, &one);
    }
    result
}

fn is_technical_bracket_exec(content: &Vec<char>) -> (b: bool)
    ensures
        b == is_technical_bracket(content@),
{
    contains_exec(content, &chars_of("1080p")) || contains_exec(content, &chars_of("720p"))
        || contains_exec(content, &chars_of("HEVC")) || contains_exec(content, &chars_of("x265"))
        || contains_exec(content, &chars_of("x264"))
}

fn is_technical_tail_exec(after: &Vec<char>) -> (b: bool)
    ensures
        b == is_technical_tail(after@),
{
    contains_exec(after, &chars_of("1080p")) || contains_exec(after, &chars_of("720p"))
        || contains_exec(after, &chars_of("x265")) || contains_exec(after, &chars_of("x264"))
}

fn bracket_pass_exec(s: Vec<char>, open: char, close: char) -> (r: Vec<char>)
    requires
        open != close,
    ensures
        r@ == bracket_pass(s@, open, close),
{
    let open_v = single(open);
    let close_v = single(close);
    let mut result = s;
    loop
        invariant
            open != close,
            open_v@ == seq![open],
            close_v@ == seq![close],
            bracket_pass(s@, open, close) == bracket_pass(result@, open, close),
        decreases result@.len(),
    {
        let len = result.len();
        match find_exec(&result, &open_v) {
            None => {
                return result;
            },
            Some(start) => {
                proof {
                    lemma_find(result@, open_v@);
                }
                let tail = subrange_exec(&result, start, len);
                assert(tail@ =~= result@.skip(start as int));
                match find_exec(&tail, &close_v) {
                    None => {
                        return result;
                    },
                    Some(end) => {
                        proof {
                            lemma_find(tail@, close_v@);
                            assert(tail@.subrange(0, 1)[0] == result@[start as int]);
                            assert(result@.subrange(start as int, start + 1)[0] == result@[start as int]);
                            assert(tail@.subrange(end as int, end + 1)[0] == tail@[end as int]);
                        }
                        let content = subrange_exec(&result, start + 1, start + end);
                        if is_technical_bracket_exec(&content) {
                            let mut next = subrange_exec(&result, 0, start);
                            next.push(' ');
                            let rest = subrange_exec(&result, start + end + 1, len);
                            let ghost front = next@;
                            next.append(&mut rest.clone());
                            assert(next@ =~= result@.take(start as int) + seq![' '] + result@.skip(
                                start + end + 1,
                            ));
                            result = next;
                        } else {
                            return result;
                        }
                    },
                }
            },
        }
    }
}

fn sep_pass_exec(s: Vec<char>, sep: &Vec<char>) -> (r: Vec<char>)
    ensures
        r@ == sep_pass(s@, sep@),
{
    let slen = s.len();
    match find_exec(&s, sep) {
        Some(pos) => {
            proof {
                lemma_find(s@, sep@);
            }
            assert(pos + sep@.len() <= s@.len());
            let after = subrange_exec(&s, pos + sep.len(), slen);
            assert(after@ =~= s@.skip(pos + sep@.len()));
            if is_technical_tail_exec(&after) {
                let r = subrange_exec(&s, 0, pos);
                assert(r@ =~= s@.take(pos as int));
                r
            } else {
                s
            }
        },
        None => s,
    }
}

fn remove_bracket_content_chars(s: Vec<char>) -> (r: Vec<char>)
    ensures
        r@ == spec_remove_bracket_content(s@),
{
    let r = bracket_pass_exec(s, '[', ']');
    let r = bracket_pass_exec(r, '(', ')');
    let r = sep_pass_exec(r, &chars_of(" - "));
    sep_pass_exec(r, &chars_of(" – "))
}

fn remove_technical_suffixes_chars(name: Vec<char>) -> (r: Vec<char>)
    ensures
        r@ == spec_remove_technical_suffixes(name@),
{
    let suffixes = suffix_list();
    let sp = space();
    let mut result = name;
    let n = suffixes.len();
    let ghost pats = technical_suffixes();
    assert(pats.skip(0) =~= pats);
    for k in 0..n
        invariant
            n == suffixes@.len(),
            suffixes@.map_values(|x: Vec<char>| x@) == pats,
            pats == technical_suffixes(),
            sp@ == seq![' '],
            replace_each(name@, pats) == replace_each(result@, pats.skip(k as int)),
    {
        assert(pats.skip(k as int).drop_first() =~= pats.skip(k + 1));
        assert(pats.skip(k as int)[0] == suffixes@[k as int]@);
        result = replace_exec(&result, &suffixes[k], &sp);
    }
    assert(pats.skip(n as int) =~= Seq::<Seq<char>>::empty());
    let collapsed = collapse_spaces_exec(result);
    remove_bracket_content_chars(collapsed)
}

/// Technical tags (resolution, codec, source, audio, subtitle markers) replaced by spaces,
/// runs of spaces collapsed, then technical brackets and trailing technical text removed.
pub fn remove_technical_suffixes(name: &str) -> (r: String)
    ensures
        r@ == spec_remove_technical_suffixes(name@),
{
    string_of(&remove_technical_suffixes_chars(chars_of(name)))
}

/// Brackets `[...]` and `(...)` naming a resolution or codec removed (from the first one on,
/// while they are technical), then the text after `" - "` or `" – "` cut when it is technical.
pub fn remove_bracket_content(s: &str) -> (r: String)
    ensures
        r@ == spec_remove_bracket_content(s@),
{
    string_of(&remove_bracket_content_chars(chars_of(s)))
}


/// The uppercase form of a string, as std's `str::to_uppercase` computes it (Unicode
/// case mapping, independent of locale).
pub uninterp spec fn str_upper(s: Seq<char>) -> Seq<char>;

/// An ASCII character in upper case: `a`..`z` become `A`..`Z`, the rest stay.
pub open spec fn ascii_upper(c: char) -> char {
    if 'a' <= c && c <= 'z' { ((c as int) - 32) as char } else { c }
}

/// Every character is ASCII.
pub open spec fn is_ascii_text(s: Seq<char>) -> bool {
    forall|i: int| 0 <= i < s.len() ==> (#[trigger] s[i] as int) < 128
}

/// std's `str::to_uppercase`. The result is named `str_upper`; of it only the ASCII case
/// is claimed (Unicode maps `a`..`z` to `A`..`Z` and keeps the other ASCII characters, one
/// character each): the rest of the Unicode case tables is not stated here.
#[verifier::external_body]
pub(crate) fn upper_string(s: &str) -> (r: String)
    ensures
        r@ == str_upper(s@),
        is_ascii_text(s@) ==> r@ == Seq::new(s@.len(), |i: int| ascii_upper(s@[i])),
{
    s.to_uppercase()
}

pub open spec fn is_ascii_upper(c: char) -> bool {
    'A' <= c && c <= 'Z'
}

pub open spec fn is_ascii_digit(c: char) -> bool {
    '0' <= c && c <= '9'
}

/// An ASCII letter, of either case (a letter of the pattern, case folded).
pub open spec fn is_ascii_letter(c: char) -> bool {
    is_ascii_upper(c) || ('a' <= c && c <= 'z')
}

/// Length of the run of ASCII letters of `u` starting at `i`.
pub open spec fn letter_run(u: Seq<char>, i: int) -> int
    decreases u.len() - i,
{
    if 0 <= i < u.len() && is_ascii_letter(u[i]) {
        1 + letter_run(u, i + 1)
    } else {
        0
    }
}

/// Length of the run of ASCII digits of `u` starting at `i`.
pub open spec fn digit_run(u: Seq<char>, i: int) -> int
    decreases u.len() - i,
{
    if 0 <= i < u.len() && is_ascii_digit(u[i]) {
        1 + digit_run(u, i + 1)
    } else {
        0
    }
}

/// A code starting at `i`: 2 to 6 letters, an optional `-` or `_`, then 2 to 5 digits.
/// Gives (start, letter count, digits start, digit count).
pub open spec fn code_at(u: Seq<char>, i: int) -> Option<(int, int, int, int)> {
    let lc = letter_run(u, i);
    if 2 <= lc <= 6 {
        let p0 = i + lc;
        let pos = if p0 < u.len() && (u[p0] == '-' || u[p0] == '_') {
            p0 + 1
        } else {
            p0
        };
        let dc = digit_run(u, pos);
        if 2 <= dc <= 5 {
            Some((i, lc, pos, dc))
        } else {
            None
        }
    } else {
        None
    }
}

/// The first code starting at an index `>= i`.
pub open spec fn first_code_from(u: Seq<char>, i: int) -> Option<(int, int, int, int)>
    decreases u.len() - i,
{
    if i < 0 || i >= u.len() {
        None
    } else {
        match code_at(u, i) {
            Some(m) => Some(m),
            None => first_code_from(u, i + 1),
        }
    }
}

/// The first code in `text` (letters matched without regard to ASCII case), as
/// character positions in it.
pub open spec fn code_position(text: Seq<char>) -> Option<(int, int, int, int)> {
    first_code_from(text, 0)
}

/// The letters and the digits of the code, cut out of `text` itself at the positions
/// found.
pub open spec fn captures_groups(text: Seq<char>) -> Option<(Seq<char>, Seq<char>)> {
    match code_position(text) {
        None => None,
        Some((i, lc, pos, dc)) => Some((text.subrange(i, i + lc), text.subrange(pos, pos + dc))),
    }
}

/// Each character of `s` with ASCII lower case made upper case.
pub open spec fn ascii_upper_seq(s: Seq<char>) -> Seq<char> {
    Seq::new(s.len(), |i: int| ascii_upper(s[i]))
}

pub open spec fn all_ascii_letter(s: Seq<char>) -> bool {
    forall|k: int| 0 <= k < s.len() ==> is_ascii_letter(#[trigger] s[k])
}

pub open spec fn all_ascii_upper(s: Seq<char>) -> bool {
    forall|k: int| 0 <= k < s.len() ==> is_ascii_upper(#[trigger] s[k])
}

pub open spec fn all_ascii_digit(s: Seq<char>) -> bool {
    forall|k: int| 0 <= k < s.len() ==> is_ascii_digit(#[trigger] s[k])
}

/// The code `PREFIX-NUMBER` and its prefix found in `text`, if any.
pub open spec fn id_pattern(text: Seq<char>) -> (Option<Seq<char>>, Option<Seq<char>>) {
    match captures_groups(text) {
        None => (None, None),
        Some((g1, g2)) => {
            let prefix = ascii_upper_seq(g1);
            if all_ascii_upper(prefix) && all_ascii_digit(g2) {
                (Some(prefix + seq!['-'] + g2), Some(prefix))
            } else {
                (None, None)
            }
        },
    }
}

proof fn lemma_letter_run(u: Seq<char>, i: int, k: int)
    requires
        0 <= k < letter_run(u, i),
    ensures
        0 <= i + k < u.len(),
        is_ascii_letter(u[i + k]),
    decreases k,
{
    if k > 0 {
        lemma_letter_run(u, i + 1, k - 1);
    }
}

proof fn lemma_digit_run(u: Seq<char>, i: int, k: int)
    requires
        0 <= k < digit_run(u, i),
    ensures
        0 <= i + k < u.len(),
        is_ascii_digit(u[i + k]),
    decreases k,
{
    if k > 0 {
        lemma_digit_run(u, i + 1, k - 1);
    }
}

proof fn lemma_first_code(u: Seq<char>, i: int)
    ensures
        first_code_from(u, i) matches Some(m) ==> (0 <= m.0 && code_at(u, m.0) == Some(m)),
    decreases u.len() - i,
{
    if 0 <= i < u.len() && code_at(u, i) is None {
        lemma_first_code(u, i + 1);
    }
}

/// A code found in a text has the pattern's shape and lies in the text: its letters are
/// 2 to 6 ASCII letters and its digits 2 to 5 ASCII digits, each a stretch of the text
/// itself, the letters before the digits.
pub proof fn law_capture_shape(text: Seq<char>)
    ensures
        code_position(text) matches Some((i, lc, pos, dc)) ==> {
            &&& 0 <= i && i + lc <= pos && pos <= i + lc + 1 && pos + dc <= text.len()
            &&& captures_groups(text) == Some((text.subrange(i, i + lc), text.subrange(pos, pos + dc)))
        },
        captures_groups(text) matches Some((g1, g2)) ==> {
            &&& 2 <= g1.len() <= 6 && all_ascii_letter(g1)
            &&& 2 <= g2.len() <= 5 && all_ascii_digit(g2)
        },
{
    let u = text;
    lemma_first_code(u, 0);
    if let Some((i, lc, pos, dc)) = first_code_from(u, 0) {
        assert forall|k: int| 0 <= k < lc implies is_ascii_letter(#[trigger] u.subrange(i, i + lc)[k]) by {
            lemma_letter_run(u, i, k);
        }
        lemma_letter_run(u, i, lc - 1);
        lemma_digit_run(u, pos, dc - 1);
        assert(0 <= pos && pos + dc <= u.len());
        assert forall|k: int| 0 <= k < dc implies is_ascii_digit(#[trigger] u.subrange(pos, pos + dc)[k]) by {
            lemma_digit_run(u, pos, k);
        }
    }
}

/// A pattern kept for reference; the matching itself is the fixed code search above.
pub struct Regex {
    pattern: String,
}

/// The two groups of a match: the letters and the digits.
pub struct Captures {
    group1: String,
    group2: String,
}

/// One group of a match.
pub struct Match<'a> {
    value: &'a str,
}

impl Regex {
    pub closed spec fn pattern_view(&self) -> Seq<char> {
        self.pattern@
    }

    /// Always succeeds and keeps the pattern text.
    pub fn new(pattern: &str) -> (r: Option<Regex>)
        ensures
            r matches Some(re) && re.pattern_view() == pattern@,
    {
        Some(Regex { pattern: String::from_str(pattern) })
    }

    /// The first code (2-6 ASCII letters of either case, optional `-`/`_`, 2-5 digits) in
    /// `text`, its groups cut out of `text` as they stand.
    pub fn captures(&self, text: &str) -> (r: Option<Captures>)
        ensures
            r is Some <==> captures_groups(text@) is Some,
            r matches Some(c) ==> captures_groups(text@) == Some((c.group1_view(), c.group2_view())),
    {
        captures_impl(text)
    }
}

impl Captures {
    pub closed spec fn group1_view(&self) -> Seq<char> {
        self.group1@
    }

    pub closed spec fn group2_view(&self) -> Seq<char> {
        self.group2@
    }

    /// Group 1 (the letters), group 2 (the digits), nothing else.
    pub fn get(&self, idx: usize) -> (r: Option<Match<'_>>)
        ensures
            idx == 1 ==> (r matches Some(m) && m.view_str() == self.group1_view()),
            idx == 2 ==> (r matches Some(m) && m.view_str() == self.group2_view()),
            idx != 1 && idx != 2 ==> r is None,
    {
        match idx {
            1 => Some(Match { value: self.group1.as_str() }),
            2 => Some(Match { value: self.group2.as_str() }),
            _ => None,
        }
    }
}

impl<'a> Match<'a> {
    pub closed spec fn view_str(&self) -> Seq<char> {
        self.value@
    }

    /// The matched text.
    pub fn as_str(&self) -> (r: &str)
        ensures
            r@ == self.view_str(),
    {
        self.value
    }
}

fn is_ascii_upper_exec(c: char) -> (b: bool)
    ensures
        b == is_ascii_upper(c),
{
    'A' <= c && c <= 'Z'
}

fn is_ascii_letter_exec(c: char) -> (b: bool)
    ensures
        b == is_ascii_letter(c),
{
    ('A' <= c && c <= 'Z') || ('a' <= c && c <= 'z')
}

fn is_ascii_digit_exec(c: char) -> (b: bool)
    ensures
        b == is_ascii_digit(c),
{
    '0' <= c && c <= '9'
}

/// The code search on the uppercase form of `text`.
fn captures_impl(text: &str) -> (r: Option<Captures>)
    ensures
        r is Some <==> captures_groups(text@) is Some,
        r matches Some(c) ==> captures_groups(text@) == Some((c.group1_view(), c.group2_view())),
{
    let chars = chars_of(text);
    let ghost u = chars@;
    let len = chars.len();
    let mut i: usize = 0;
    while i < len
        invariant
            len == u.len(),
            u == text@,
            chars@ == u,
            i <= len,
            first_code_from(u, 0) == first_code_from(u, i as int),
        decreases len - i,
    {
        let mut letter_count: usize = 0;
        while i + letter_count < len && is_ascii_letter_exec(chars[i + letter_count])
            invariant
                len == u.len(),
                chars@ == u,
                i < len,
                i + letter_count <= len,
                letter_run(u, i as int) == letter_count + letter_run(u, i + letter_count),
            decreases len - i - letter_count,
        {
            letter_count += 1;
        }
        assert(letter_run(u, i as int) == letter_count);
        if letter_count >= 2 && letter_count <= 6 {
            let mut pos = i + letter_count;
            if pos < len && (chars[pos] == '-' || chars[pos] == '_') {
                pos += 1;
            }
            let mut digit_count: usize = 0;
            while pos + digit_count < len && is_ascii_digit_exec(chars[pos + digit_count])
                invariant
                    len == u.len(),
                    chars@ == u,
                    pos <= len,
                    pos + digit_count <= len,
                    digit_run(u, pos as int) == digit_count + digit_run(u, pos + digit_count),
                decreases len - pos - digit_count,
            {
                digit_count += 1;
            }
            assert(digit_run(u, pos as int) == digit_count);
            if digit_count >= 2 && digit_count <= 5 {
                assert(code_at(u, i as int) == Some((i as int, letter_count as int, pos as int, digit_count as int)));
                assert(code_position(text@) == Some((i as int, letter_count as int, pos as int, digit_count as int)));
                let g1 = string_of(&subrange_exec(&chars, i, i + letter_count));
                let g2 = string_of(&subrange_exec(&chars, pos, pos + digit_count));
                return Some(Captures { group1: g1, group2: g2 });
            }
        }
        assert(code_at(u, i as int) is None);
        i += 1;
    }
    None
}

struct IdPattern {
    id_number: Option<String>,
    id_prefix: Option<String>,
}

/// The view of an optional string.
pub open spec fn opt_view(o: Option<String>) -> Option<Seq<char>> {
    match o {
        Some(s) => Some(s@),
        None => None,
    }
}

fn all_ascii_upper_exec(s: &str) -> (b: bool)
    ensures
        b == all_ascii_upper(s@),
{
    let v = chars_of(s);
    let n = v.len();
    for k in 0..n
        invariant
            n == v@.len(),
            v@ == s@,
            forall|m: int| 0 <= m < k ==> is_ascii_upper(#[trigger] v@[m]),
    {
        if !is_ascii_upper_exec(v[k]) {
            return false;
        }
    }
    true
}

fn all_ascii_digit_exec(s: &str) -> (b: bool)
    ensures
        b == all_ascii_digit(s@),
{
    let v = chars_of(s);
    let n = v.len();
    for k in 0..n
        invariant
            n == v@.len(),
            v@ == s@,
            forall|m: int| 0 <= m < k ==> is_ascii_digit(#[trigger] v@[m]),
    {
        if !is_ascii_digit_exec(v[k]) {
            return false;
        }
    }
    true
}

/// A found code is `PREFIX-NUMBER` with a prefix of 2 to 6 uppercase ASCII letters and
/// 2 to 5 ASCII digits; no prefix without a code.
pub open spec fn code_shape(number: Option<String>, prefix: Option<String>) -> bool {
    match number {
        None => prefix is None,
        Some(n) => prefix matches Some(p) && {
            let k = p@.len();
            &&& 2 <= k <= 6 && all_ascii_upper(p@)
            &&& n@.len() > k && n@.subrange(0, k as int) == p@ && n@[k as int] == '-'
            &&& 2 <= n@.len() - k - 1 <= 5 && all_ascii_digit(n@.subrange(k as int + 1, n@.len() as int))
        },
    }
}

/// Tries both (identical) patterns.
fn detect_id_pattern(cleaned: &str) -> (r: IdPattern)
    ensures
        (opt_view(r.id_number), opt_view(r.id_prefix)) == id_pattern(cleaned@),
        code_shape(r.id_number, r.id_prefix),
{
    let mut patterns: Vec<Option<Regex>> = Vec::new();
    patterns.push(Regex::new("(?i)\\b([A-Z]{2,6})[-_]?(\\d{2,5})\\b"));
    patterns.push(Regex::new("(?i)\\b(\\d{2,5})[-_]?([A-Z]{2,6})\\b"));
    let n = patterns.len();
    for k in 0..n
        invariant
            n == patterns@.len(),
            n == 2,
            forall|j: int| 0 <= j < n ==> patterns@[j] is Some,
            k > 0 ==> id_pattern(cleaned@) == (
                None::<Seq<char>>,
                None::<Seq<char>>,
            ),
    {
        if let Some(_re) = &patterns[k] {
            match captures_impl(cleaned) {
                None => {},
                Some(caps) => {
                    let g1 = match caps.get(1) {
                        Some(m) => Some(upper_string(m.as_str())),
                        None => None,
                    };
                    let g2 = match caps.get(2) {
                        Some(m) => Some(String::from_str(m.as_str())),
                        None => None,
                    };
                    if let (Some(prefix), Some(number)) = (g1, g2) {
                        proof {
                            law_capture_shape(cleaned@);
                            let g = caps.group1_view();
                            assert(is_ascii_text(g)) by {
                                assert forall|i: int| 0 <= i < g.len() implies (#[trigger] g[i] as int) < 128 by {
                                    assert(is_ascii_letter(g[i]));
                                }
                            }
                            assert(prefix@ =~= ascii_upper_seq(g));
                        }
                        if all_ascii_upper_exec(prefix.as_str()) && all_ascii_digit_exec(number.as_str()) {
                            let id = prefix.clone().concat("-").concat(number.as_str());
                            proof {
                                reveal_strlit("-");
                                assert(id@ =~= prefix@ + seq!['-'] + number@);
                                assert(id@.subrange(0, prefix@.len() as int) =~= prefix@);
                                assert(id@.subrange(prefix@.len() as int + 1, id@.len() as int) =~= number@);
                            }
                            return IdPattern { id_number: Some(id), id_prefix: Some(prefix) };
                        }
                    }
                },
            }
        }
    }
    IdPattern { id_number: None, id_prefix: None }
}


/// What a file name yields: the name itself, the cleaned search title, and the code
/// (`PREFIX-NUMBER`) with its prefix when one is found.
pub struct ParsedFilename {
    pub original: String,
    pub cleaned: String,
    pub id_number: Option<String>,
    pub id_prefix: Option<String>,
}

/// What `parse_filename` yields for `filename`, as views.
pub open spec fn parsed_matches(r: ParsedFilename, filename: Seq<char>) -> bool {
    let cleaned = spec_cleaned(filename);
    &&& r.original@ == filename
    &&& r.cleaned@ == trim(cleaned)
    &&& (opt_view(r.id_number), opt_view(r.id_prefix)) == id_pattern(cleaned)
}

fn base_name(filename: &str) -> (r: Vec<char>)
    ensures
        r@ == spec_base_name(filename@),
{
    let t = trim_exec(&chars_of(filename));
    match rfind_char_exec(&t, '.') {
        Some(d) => {
            proof {
                crate::text::lemma_rfind_char(t@, '.');
            }
            let r = subrange_exec(&t, 0, d);
            assert(r@ =~= t@.take(d as int));
            r
        },
        None => t,
    }
}

/// Parses a video file name: the name is trimmed and loses its extension (from the last
/// `.`), technical tags are removed, and a code such as `SSNI-888` is looked for.
pub fn parse_filename(filename: &str) -> (r: ParsedFilename)
    ensures
        parsed_matches(r, filename@),
        code_shape(r.id_number, r.id_prefix),
{
    let name = base_name(filename);
    let cleaned_chars = remove_technical_suffixes_chars(name);
    let cleaned = string_of(&cleaned_chars);
    let id_pattern = detect_id_pattern(cleaned.as_str());
    ParsedFilename {
        original: String::from_str(filename),
        cleaned: string_of(&trim_exec(&cleaned_chars)),
        id_number: id_pattern.id_number,
        id_prefix: id_pattern.id_prefix,
    }
}

} // verus!
