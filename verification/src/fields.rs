//! Reading a field out of a line of page text: the part after a label, the last word of a
//! line, and a year from the first four bytes of a date.

use vstd::prelude::*;
use vstd::utf8::{decode_utf8, encode_utf8, is_char_boundary};
use crate::javbus::as_i32;
use crate::text::{
    chars_of, find, find_exec, matches_at, is_whitespace, is_whitespace_exec, parse_i32, parse_i32_exec, subrange_exec,
    trim_end,
};

verus! {

/// The text between the first and the second occurrence of `pat` in `s`, or after the
/// first when there is no second: `s.split(pat).nth(1)` for a non-empty `pat`.
pub open spec fn second_part(s: Seq<char>, pat: Seq<char>) -> Option<Seq<char>> {
    match find(s, pat) {
        Some(i) => {
            let rest = s.skip(i + pat.len());
            Some(match find(rest, pat) { Some(j) => rest.take(j), None => rest })
        },
        None => None,
    }
}

/// The text after the first occurrence of `pat`, up to the next one.
pub fn second_part_exec(s: &Vec<char>, pat: &Vec<char>) -> (r: Option<Vec<char>>)
    ensures
        (match r { Some(v) => Some(v@), None => None }) == second_part(s@, pat@),
{
    match find_exec(s, pat) {
        Some(i) => {
            proof { crate::text::lemma_find(s@, pat@); }
            assert(matches_at(s@, pat@, i as int));
            let pl = pat.len();
            let sl = s.len();
            assert(i + pl <= sl);
            let rest = subrange_exec(s, i + pl, sl);
            assert(rest@ =~= s@.skip(i + pat@.len()));
            match find_exec(&rest, pat) {
                Some(j) => {
                    proof { crate::text::lemma_find(rest@, pat@); }
                    let head = subrange_exec(&rest, 0, j);
                    assert(head@ =~= rest@.take(j as int));
                    Some(head)
                },
                None => Some(rest),
            }
        },
        None => None,
    }
}

/// Where the last word of `u` starts: just after its last whitespace, or at 0.
pub open spec fn word_start(u: Seq<char>) -> int
    decreases u.len(),
{
    if u.len() == 0 {
        0
    } else if is_whitespace(u.last()) {
        u.len() as int
    } else {
        word_start(u.drop_last())
    }
}

/// The last whitespace-separated word of `s` (`s.split_whitespace().last()`).
pub open spec fn last_word(s: Seq<char>) -> Option<Seq<char>> {
    let u = trim_end(s);
    if u.len() == 0 { None } else { Some(u.skip(word_start(u))) }
}

proof fn lemma_word_start_bound(u: Seq<char>)
    ensures
        0 <= word_start(u) <= u.len(),
    decreases u.len(),
{
    if u.len() > 0 && !is_whitespace(u.last()) {
        lemma_word_start_bound(u.drop_last());
    }
}

/// The last whitespace-separated word of `s`.
pub fn last_word_exec(s: &Vec<char>) -> (r: Option<Vec<char>>)
    ensures
        (match r { Some(v) => Some(v@), None => None }) == last_word(s@),
{
    let mut e: usize = s.len();
    assert(s@.take(e as int) =~= s@);
    while e > 0 && is_whitespace_exec(s[e - 1])
        invariant
            e <= s@.len(),
            trim_end(s@) == trim_end(s@.take(e as int)),
        decreases e,
    {
        assert(s@.take(e as int).drop_last() =~= s@.take(e - 1));
        e -= 1;
    }
    let ghost u = s@.take(e as int);
    assert(trim_end(u) == u);
    if e == 0 {
        return None;
    }
    let mut b: usize = e;
    assert(u.take(b as int) =~= u);
    while b > 0 && !is_whitespace_exec(s[b - 1])
        invariant
            b <= e <= s@.len(),
            u == s@.take(e as int),
            word_start(u) == word_start(s@.take(b as int)),
        decreases b,
    {
        assert(s@.take(b as int).drop_last() =~= s@.take(b - 1));
        b -= 1;
    }
    proof { lemma_word_start_bound(u); }
    assert(word_start(s@.take(b as int)) == b);
    let w = subrange_exec(s, b, e);
    assert(w@ =~= u.skip(b as int));
    Some(w)
}

/// A date can be cut after four bytes (`&d[..4]` does not panic).
pub open spec fn cut4_ok(d: Seq<char>) -> bool {
    encode_utf8(d).len() >= 4 && is_char_boundary(encode_utf8(d), 4)
}

/// The year in the first four bytes of a date: `d[..4].parse::<i32>().ok()`.
pub open spec fn year4(d: Seq<char>) -> Option<i32> {
    as_i32(parse_i32(decode_utf8(encode_utf8(d).take(4))))
}

/// The year in the first four bytes of a date.
pub fn year4_exec(d: &str) -> (r: Option<i32>)
    requires
        cut4_ok(d@),
    ensures
        r == year4(d@),
{
    broadcast use vstd::utf8::encode_utf8_valid_utf8;
    let head = crate::text::byte_slice(d, 0, 4);
    proof {
        crate::text::lemma_slice_view(d, head, 0, 4);
        assert(encode_utf8(d@).subrange(0, 4) =~= encode_utf8(d@).take(4));
    }
    parse_i32_exec(&chars_of(head))
}

} // verus!
