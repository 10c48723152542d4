//! The decisions of a drive scan: which entries are videos, which folders are entered,
//! how many listing pages are read, and the title a new movie gets from its file name.

use vstd::prelude::*;
use vstd::string::StringExecFns;
use crate::pan115::FileInfo;
use crate::text::{chars_eq, chars_of, rfind_char, rfind_char_exec, string_of, subrange_exec};

verus! {

/// The counts of a finished scan.
pub struct ScanResult {
    pub total: i64,
    pub new: i64,
    pub updated: i64,
    pub deleted: i64,
}

/// The list of strings a JSON text holds, or `None` when the text is not a JSON array of
/// strings.
pub uninterp spec fn json_string_list(text: Seq<char>) -> Option<Seq<Seq<char>>>;

/// The view of a vector of strings.
pub open spec fn strs(v: Seq<String>) -> Seq<Seq<char>> {
    Seq::new(v.len(), |i: int| v[i]@)
}

/// serde_json's `from_str::<Vec<String>>`. The contract names the result
/// `json_string_list`; the parser itself is not stated.
#[verifier::external_body]
pub(crate) fn parse_string_list(text: &str) -> (r: Option<Vec<String>>)
    ensures
        (match r { Some(v) => Some(strs(v@)), None => None }) == json_string_list(text@),
{
    serde_json::from_str::<Vec<String>>(text).ok()
}

/// The video extensions used when none are configured.
pub open spec fn default_video_extensions() -> Seq<Seq<char>> {
    seq!["mp4"@, "mkv"@, "avi"@, "mov"@, "rmvb"@, "flv"@, "wmv"@, "ts"@, "iso"@, "m2ts"@]
}

/// The configured video extensions: the configured JSON list when it parses, else the
/// default list.
pub open spec fn video_extensions_of(config: Option<Seq<char>>) -> Seq<Seq<char>> {
    match config {
        Some(c) => match json_string_list(c) {
            Some(l) => l,
            None => default_video_extensions(),
        },
        None => default_video_extensions(),
    }
}

/// The video extensions for a configuration value.
pub fn video_extensions(config: Option<&str>) -> (r: Vec<String>)
    ensures
        strs(r@) == video_extensions_of(match config { Some(c) => Some(c@), None => None }),
{
    match config {
        Some(c) => match parse_string_list(c) {
            Some(l) => return l,
            None => {},
        },
        None => {},
    }
    let mut r: Vec<String> = Vec::new();
    r.push(String::from_str("mp4"));
    r.push(String::from_str("mkv"));
    r.push(String::from_str("avi"));
    r.push(String::from_str("mov"));
    r.push(String::from_str("rmvb"));
    r.push(String::from_str("flv"));
    r.push(String::from_str("wmv"));
    r.push(String::from_str("ts"));
    r.push(String::from_str("iso"));
    r.push(String::from_str("m2ts"));
    assert(strs(r@) =~= default_video_extensions());
    r
}

/// ASCII lower case of one character.
pub open spec fn ascii_lower(c: char) -> char {
    if 'A' <= c && c <= 'Z' { ((c as u32) + 32) as char } else { c }
}

/// Equal up to ASCII case (`str::eq_ignore_ascii_case`).
pub open spec fn eq_ignore_ascii_case(a: Seq<char>, b: Seq<char>) -> bool {
    a.len() == b.len() && forall|i: int| 0 <= i < a.len() ==> ascii_lower(#[trigger] a[i]) == ascii_lower(b[i])
}

/// The part of a name after its last `.`, or the whole name when it has none.
pub open spec fn extension(name: Seq<char>) -> Seq<char> {
    match rfind_char(name, '.') {
        Some(i) => name.skip(i + 1),
        None => name,
    }
}

/// A video: its extension equals one of `exts` up to ASCII case.
pub open spec fn is_video(name: Seq<char>, exts: Seq<Seq<char>>) -> bool {
    exists|k: int| 0 <= k < exts.len() && eq_ignore_ascii_case(#[trigger] exts[k], extension(name))
}

fn ascii_lower_exec(c: char) -> (r: char)
    ensures
        r == ascii_lower(c),
{
    if 'A' <= c && c <= 'Z' {
        let u = (c as u8) + 32;
        u as char
    } else {
        c
    }
}

fn eq_ignore_case_exec(a: &Vec<char>, b: &Vec<char>) -> (r: bool)
    ensures
        r == eq_ignore_ascii_case(a@, b@),
{
    if a.len() != b.len() {
        return false;
    }
    let mut k: usize = 0;
    while k < a.len()
        invariant
            a@.len() == b@.len(),
            k <= a@.len(),
            forall|i: int| 0 <= i < k ==> ascii_lower(#[trigger] a@[i]) == ascii_lower(b@[i]),
        decreases a@.len() - k,
    {
        if ascii_lower_exec(a[k]) != ascii_lower_exec(b[k]) {
            return false;
        }
        k += 1;
    }
    true
}

fn extension_exec(name: &Vec<char>) -> (r: Vec<char>)
    ensures
        r@ == extension(name@),
{
    proof { crate::text::lemma_rfind_char(name@, '.'); }
    let n = name.len();
    match rfind_char_exec(name, '.') {
        Some(i) => {
            assert(rfind_char(name@, '.') == Some(i as int));
            assert(i < n);
            let r = subrange_exec(name, i + 1, n);
            assert(r@ =~= name@.skip(i + 1));
            r
        },
        None => name.clone(),
    }
}

/// Whether a file is a video by its extension.
pub fn is_video_file(name: &str, exts: &Vec<String>) -> (b: bool)
    ensures
        b == is_video(name@, strs(exts@)),
{
    let ext = extension_exec(&chars_of(name));
    let mut k: usize = 0;
    while k < exts.len()
        invariant
            k <= exts@.len(),
            ext@ == extension(name@),
            forall|j: int| 0 <= j < k ==> !eq_ignore_ascii_case(#[trigger] strs(exts@)[j], extension(name@)),
        decreases exts@.len() - k,
    {
        let e = chars_of(exts[k].as_str());
        if eq_ignore_case_exec(&e, &ext) {
            assert(eq_ignore_ascii_case(strs(exts@)[k as int], extension(name@)));
            return true;
        }
        k += 1;
    }
    false
}

/// The title a new movie gets: its file name up to the last `.`.
pub open spec fn title_of(name: Seq<char>) -> Seq<char> {
    name.take(rfind_char(name, '.')->0)
}

/// The title a new movie gets from its file name, which holds a `.`.
pub fn file_title(name: &str) -> (r: String)
    requires
        rfind_char(name@, '.') is Some,
    ensures
        r@ == title_of(name@),
{
    let cs = chars_of(name);
    proof { crate::text::lemma_rfind_char(cs@, '.'); }
    match rfind_char_exec(&cs, '.') {
        Some(i) => {
            let t = subrange_exec(&cs, 0, i);
            assert(t@ =~= cs@.take(i as int));
            string_of(&t)
        },
        None => String::new(),
    }
}

/// What a scan does with one listing entry.
pub enum EntryAction {
    /// A folder to list in turn.
    Enter,
    /// A video to record.
    Collect,
    /// Neither: a folder without a usable id, or another file.
    Skip,
}

/// The action for an entry: a folder is entered unless its id is empty or `0`; a file is
/// collected when it is a video.
pub open spec fn entry_action(e: FileInfo, exts: Seq<Seq<char>>) -> EntryAction {
    if e.is_dir {
        if e.cid@.len() == 0 || e.cid@ == "0"@ { EntryAction::Skip } else { EntryAction::Enter }
    } else if is_video(e.name@, exts) {
        EntryAction::Collect
    } else {
        EntryAction::Skip
    }
}

/// The action for one listing entry.
pub fn classify_entry(e: &FileInfo, exts: &Vec<String>) -> (a: EntryAction)
    ensures
        a == entry_action(*e, strs(exts@)),
{
    if e.is_dir {
        let c = chars_of(e.cid.as_str());
        let zero = chars_of("0");
        if c.len() == 0 || chars_eq(&c, &zero) { EntryAction::Skip } else { EntryAction::Enter }
    } else if is_video_file(e.name.as_str(), exts) {
        EntryAction::Collect
    } else {
        EntryAction::Skip
    }
}

/// Whether a folder is listed: within the depth limit and not listed before.
pub fn should_list(current_depth: i32, max_depth: i32, already_listed: bool) -> (b: bool)
    ensures
        b == (current_depth <= max_depth && !already_listed),
{
    current_depth <= max_depth && !already_listed
}

/// The number of listing pages read for a folder: one when the first page holds fewer than
/// 200 entries, else the reported total divided by 200, rounded up, at most 50.
pub open spec fn pages_to_read(first_page_len: int, reported_total: int) -> int {
    if first_page_len < 200 {
        1
    } else {
        let p = if reported_total > 0 { (reported_total + 199) / 200 } else { -((-reported_total) / 200) };
        if p < 50 { p } else { 50 }
    }
}

/// The number of listing pages read for a folder.
pub fn total_pages(first_page_len: usize, reported_total: i64) -> (r: i64)
    ensures
        r == pages_to_read(first_page_len as int, reported_total as int),
{
    if first_page_len < 200 {
        return 1;
    }
    let p: i64 = if reported_total > 0 {
        reported_total / 200 + (if reported_total % 200 != 0 { 1i64 } else { 0i64 })
    } else if reported_total == i64::MIN {
        -46116860184273879
    } else {
        -((-reported_total) / 200)
    };
    if p < 50 { p } else { 50 }
}

/// Whether a scan in `mode` first clears the library: the `full` mode.
pub fn clears_library(mode: &str) -> (b: bool)
    ensures
        b == (mode@ == "full"@),
{
    let m = chars_of(mode);
    let full = chars_of("full");
    chars_eq(&m, &full)
}

/// Whether a scan in `mode` looks up each file among the stored ones: the `incremental`
/// mode.
pub fn checks_stored(mode: &str) -> (b: bool)
    ensures
        b == (mode@ == "incremental"@),
{
    let m = chars_of(mode);
    let inc = chars_of("incremental");
    chars_eq(&m, &inc)
}

/// The counts a scan starts from, having found `total` videos and cleared `cleared` stored
/// movies (those a `full` scan removed; other modes remove none).
pub fn scan_start(mode: &str, total: i64, cleared: i64) -> (c: ScanResult)
    ensures
        c.total == total,
        c.new == 0,
        c.updated == 0,
        c.deleted == (if mode@ == "full"@ { cleared } else { 0 }),
{
    let deleted = if clears_library(mode) { cleared } else { 0 };
    ScanResult { total, new: 0, updated: 0, deleted }
}

/// What a scan does with one video found.
#[derive(PartialEq, Eq, Structural)]
pub enum ScanAction {
    /// A file without an id: left alone.
    Skip,
    /// A file already stored, in an incremental scan: its size is refreshed.
    UpdateSize,
    /// Any other file: stored as a new movie.
    Insert,
}

/// The action for one video, and the counts after it: a file without an id is skipped; in
/// an `incremental` scan a stored file has its size refreshed and counts as updated; any
/// other file is inserted and counts as new.
pub fn scan_file_step(mode: &str, has_id: bool, stored: bool, c: ScanResult) -> (r: (ScanAction, ScanResult))
    requires
        c.new < i64::MAX,
        c.updated < i64::MAX,
    ensures
        !has_id ==> r.0 == ScanAction::Skip && r.1 == c,
        has_id && mode@ == "incremental"@ && stored ==> r.0 == ScanAction::UpdateSize
            && r.1.updated == c.updated + 1 && r.1.new == c.new && r.1.total == c.total && r.1.deleted == c.deleted,
        has_id && !(mode@ == "incremental"@ && stored) ==> r.0 == ScanAction::Insert
            && r.1.new == c.new + 1 && r.1.updated == c.updated && r.1.total == c.total && r.1.deleted == c.deleted,
{
    if !has_id {
        return (ScanAction::Skip, c);
    }
    if checks_stored(mode) && stored {
        (ScanAction::UpdateSize, ScanResult { updated: c.updated + 1, ..c })
    } else {
        (ScanAction::Insert, ScanResult { new: c.new + 1, ..c })
    }
}

} // verus!
