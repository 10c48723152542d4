//! Reading the JSON replies of the scrape services: serde_json parses a reply and picks
//! one value by its JSON pointer (`/data/0/title`); the library decides what the values
//! mean.

use vstd::prelude::*;
use vstd::string::StringExecFns;
use crate::html::{ov, strs};
use crate::text::{decimal, decimal_chars, string_of};

verus! {

/// serde_json's error text for a reply that is not JSON; none for one that is.
pub uninterp spec fn json_error_of(text: Seq<char>) -> Option<Seq<char>>;

/// The string at `pointer` in the parsed reply, if the reply parses and holds a string
/// there.
pub uninterp spec fn json_text_of(text: Seq<char>, pointer: Seq<char>) -> Option<Seq<char>>;

/// The integer (as an `i64`) at `pointer` in the parsed reply, if there is one.
pub uninterp spec fn json_int_of(text: Seq<char>, pointer: Seq<char>) -> Option<i64>;

/// The boolean at `pointer` in the parsed reply, if there is one.
pub uninterp spec fn json_bool_of(text: Seq<char>, pointer: Seq<char>) -> Option<bool>;

/// The length of the array at `pointer` in the parsed reply, if there is an array.
pub uninterp spec fn json_len_of(text: Seq<char>, pointer: Seq<char>) -> Option<nat>;

/// Whether the parsed reply has nothing, or `null`, at `pointer` (true as well for a reply
/// that does not parse).
pub uninterp spec fn json_null_of(text: Seq<char>, pointer: Seq<char>) -> bool;

/// serde_json's `from_str::<Value>`, giving the error's text when the reply is not JSON.
/// The contract names the text `json_error_of`.
#[verifier::external_body]
pub(crate) fn json_error(text: &str) -> (r: Option<String>)
    ensures
        ov(r) == json_error_of(text@),
{
    serde_json::from_str::<serde_json::Value>(text).err().map(|e| e.to_string())
}

/// serde_json's `from_str::<Value>`, `Value::pointer` and `Value::as_str`. The contract
/// names the string `json_text_of`.
#[verifier::external_body]
pub(crate) fn json_text(text: &str, pointer: &str) -> (r: Option<String>)
    ensures
        ov(r) == json_text_of(text@, pointer@),
{
    let v = serde_json::from_str::<serde_json::Value>(text).ok();
    v.as_ref().and_then(|v| v.pointer(pointer)).and_then(|x| x.as_str()).map(|s| s.to_string())
}

/// serde_json's `from_str::<Value>`, `Value::pointer` and `Value::as_i64`. The contract
/// names the number `json_int_of`.
#[verifier::external_body]
pub(crate) fn json_int(text: &str, pointer: &str) -> (r: Option<i64>)
    ensures
        r == json_int_of(text@, pointer@),
{
    let v = serde_json::from_str::<serde_json::Value>(text).ok();
    v.as_ref().and_then(|v| v.pointer(pointer)).and_then(|x| x.as_i64())
}

/// serde_json's `from_str::<Value>`, `Value::pointer` and `Value::as_bool`. The contract
/// names the boolean `json_bool_of`.
#[verifier::external_body]
pub(crate) fn json_bool(text: &str, pointer: &str) -> (r: Option<bool>)
    ensures
        r == json_bool_of(text@, pointer@),
{
    let v = serde_json::from_str::<serde_json::Value>(text).ok();
    v.as_ref().and_then(|v| v.pointer(pointer)).and_then(|x| x.as_bool())
}

/// serde_json's `from_str::<Value>`, `Value::pointer` and `Value::as_array`, giving the
/// array's length. The contract names the length `json_len_of`.
#[verifier::external_body]
pub(crate) fn json_len(text: &str, pointer: &str) -> (r: Option<usize>)
    ensures
        (match r { Some(n) => Some(n as nat), None => None }) == json_len_of(text@, pointer@),
{
    let v = serde_json::from_str::<serde_json::Value>(text).ok();
    v.as_ref().and_then(|v| v.pointer(pointer)).and_then(|x| x.as_array()).map(|a| a.len())
}

/// serde_json's `from_str::<Value>`, `Value::pointer` and `Value::is_null`, a missing value
/// (or a reply that does not parse) counting as `null`. The contract names the answer `json_null_of`.
#[verifier::external_body]
pub(crate) fn json_null(text: &str, pointer: &str) -> (r: bool)
    ensures
        r == json_null_of(text@, pointer@),
{
    let v = serde_json::from_str::<serde_json::Value>(text).ok();
    v.as_ref().and_then(|v| v.pointer(pointer)).map_or(true, |x| x.is_null())
}

/// The pointer to element `k` of the array at `prefix`.
pub open spec fn item_pointer(prefix: Seq<char>, k: nat) -> Seq<char> {
    prefix + "/"@ + decimal(k)
}

/// The pointer to element `k` of the array at `prefix`.
pub fn item_pointer_exec(prefix: &str, k: usize) -> (r: String)
    ensures
        r@ == item_pointer(prefix@, k as nat),
{
    String::from_str(prefix).concat("/").concat(string_of(&decimal_chars(k as u64)).as_str())
}

/// The strings among the first `n` elements of the array at `pointer`, in order.
pub open spec fn texts_upto(text: Seq<char>, pointer: Seq<char>, n: nat) -> Seq<Seq<char>>
    decreases n,
{
    if n == 0 {
        Seq::empty()
    } else {
        let prev = texts_upto(text, pointer, (n - 1) as nat);
        match json_text_of(text, item_pointer(pointer, (n - 1) as nat)) {
            Some(s) => prev.push(s),
            None => prev,
        }
    }
}

/// The strings of the array at `pointer`, in order (none when there is no array).
pub open spec fn text_list_of(text: Seq<char>, pointer: Seq<char>) -> Seq<Seq<char>> {
    match json_len_of(text, pointer) {
        Some(n) => texts_upto(text, pointer, n),
        None => Seq::empty(),
    }
}

/// The integers among the first `n` elements of the array at `pointer`, in order.
pub open spec fn ints_upto(text: Seq<char>, pointer: Seq<char>, n: nat) -> Seq<i64>
    decreases n,
{
    if n == 0 {
        Seq::empty()
    } else {
        let prev = ints_upto(text, pointer, (n - 1) as nat);
        match json_int_of(text, item_pointer(pointer, (n - 1) as nat)) {
            Some(v) => prev.push(v),
            None => prev,
        }
    }
}

/// The integers of the array at `pointer`, in order (none when there is no array).
pub open spec fn int_list_of(text: Seq<char>, pointer: Seq<char>) -> Seq<i64> {
    match json_len_of(text, pointer) {
        Some(n) => ints_upto(text, pointer, n),
        None => Seq::empty(),
    }
}

/// The fields named `field` that are strings, among the first `n` elements of the array at
/// `pointer`, in order.
pub open spec fn fields_upto(text: Seq<char>, pointer: Seq<char>, field: Seq<char>, n: nat) -> Seq<Seq<char>>
    decreases n,
{
    if n == 0 {
        Seq::empty()
    } else {
        let prev = fields_upto(text, pointer, field, (n - 1) as nat);
        match json_text_of(text, item_pointer(pointer, (n - 1) as nat) + "/"@ + field) {
            Some(s) => prev.push(s),
            None => prev,
        }
    }
}

/// The string fields named `field` of the elements of the array at `pointer`, in order.
pub open spec fn field_list_of(text: Seq<char>, pointer: Seq<char>, field: Seq<char>) -> Seq<Seq<char>> {
    match json_len_of(text, pointer) {
        Some(n) => fields_upto(text, pointer, field, n),
        None => Seq::empty(),
    }
}

/// The strings of the array at `pointer`.
pub fn text_list(text: &str, pointer: &str) -> (r: Vec<String>)
    ensures
        strs(r@) == text_list_of(text@, pointer@),
{
    let mut r: Vec<String> = Vec::new();
    match json_len(text, pointer) {
        None => r,
        Some(n) => {
            for k in 0..n
                invariant
                    strs(r@) == texts_upto(text@, pointer@, k as nat),
            {
                let p = item_pointer_exec(pointer, k);
                match json_text(text, p.as_str()) {
                    Some(s) => {
                        let ghost before = strs(r@);
                        r.push(s);
                        assert(strs(r@) =~= before.push(r@[r@.len() - 1]@));
                    },
                    None => {},
                }
            }
            r
        },
    }
}

/// The integers of the array at `pointer`.
pub fn int_list(text: &str, pointer: &str) -> (r: Vec<i64>)
    ensures
        r@ == int_list_of(text@, pointer@),
{
    let mut r: Vec<i64> = Vec::new();
    match json_len(text, pointer) {
        None => r,
        Some(n) => {
            for k in 0..n
                invariant
                    r@ == ints_upto(text@, pointer@, k as nat),
            {
                let p = item_pointer_exec(pointer, k);
                match json_int(text, p.as_str()) {
                    Some(v) => r.push(v),
                    None => {},
                }
            }
            r
        },
    }
}

/// The string fields named `field` of the elements of the array at `pointer`.
pub fn field_list(text: &str, pointer: &str, field: &str) -> (r: Vec<String>)
    ensures
        strs(r@) == field_list_of(text@, pointer@, field@),
{
    let mut r: Vec<String> = Vec::new();
    match json_len(text, pointer) {
        None => r,
        Some(n) => {
            for k in 0..n
                invariant
                    strs(r@) == fields_upto(text@, pointer@, field@, k as nat),
            {
                let p = item_pointer_exec(pointer, k).concat("/").concat(field);
                match json_text(text, p.as_str()) {
                    Some(s) => {
                        let ghost before = strs(r@);
                        r.push(s);
                        assert(strs(r@) =~= before.push(r@[r@.len() - 1]@));
                    },
                    None => {},
                }
            }
            r
        },
    }
}

} // verus!
