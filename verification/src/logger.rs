//! Masking of secrets before they are written to the log.

use vstd::prelude::*;
use vstd::string::StringExecFns;
use crate::text::{chars_of, string_of, subrange_exec};

verus! {

/// The first `keep` characters of `s` followed by `****`, or just `****` when `s` has at
/// most `keep` characters.
pub open spec fn masked(s: Seq<char>, keep: int) -> Seq<char> {
    if s.len() <= keep {
        "****"@
    } else {
        s.take(keep) + "****"@
    }
}

fn mask_prefix(s: &str, keep: usize) -> (r: String)
    ensures
        r@ == masked(s@, keep as int),
{
    let cs = chars_of(s);
    if cs.len() <= keep {
        return String::from_str("****");
    }
    let head = subrange_exec(&cs, 0, keep);
    assert(head@ =~= s@.take(keep as int));
    string_of(&head).concat("****")
}

/// A cookie for the log: its first 8 characters and `****`, or `****` when it is that
/// short.
pub fn mask_cookie(cookie: &str) -> (r: String)
    ensures
        r@ == masked(cookie@, 8),
{
    mask_prefix(cookie, 8)
}

/// An API key for the log: its first 4 characters and `****`, or `****` when it is that
/// short.
pub fn mask_api_key(key: &str) -> (r: String)
    ensures
        r@ == masked(key@, 4),
{
    mask_prefix(key, 4)
}

} // verus!
