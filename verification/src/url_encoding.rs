//! Percent-encoding of query strings, as the scrapers and the translator send them.

use vstd::prelude::*;
use vstd::string::StringSliceAdditionalSpecFns;
use vstd::utf8::encode_utf8;
use crate::text::{chars_of, percent, push_char, push_percent};

verus! {

/// An unreserved ASCII character: a letter, a digit, or one of `-_.~`.
pub open spec fn is_unreserved(c: char) -> bool {
    ||| ('a' <= c && c <= 'z')
    ||| ('A' <= c && c <= 'Z')
    ||| ('0' <= c && c <= '9')
    ||| c == '-'
    ||| c == '_'
    ||| c == '.'
    ||| c == '~'
}

fn is_unreserved_exec(c: char) -> (b: bool)
    ensures
        b == is_unreserved(c),
{
    ('a' <= c && c <= 'z') || ('A' <= c && c <= 'Z') || ('0' <= c && c <= '9') || c == '-' || c
        == '_' || c == '.' || c == '~'
}

/// One byte of `encode_uri`: itself when unreserved, else `%XX`.
pub open spec fn uri_byte(b: u8) -> Seq<char> {
    if is_unreserved(b as char) {
        seq![b as char]
    } else {
        percent(b)
    }
}

/// Each byte of the UTF-8 encoding encoded by `uri_byte`, in order.
pub open spec fn encode_uri_bytes(b: Seq<u8>) -> Seq<char>
    decreases b.len(),
{
    if b.len() == 0 {
        Seq::empty()
    } else {
        encode_uri_bytes(b.drop_last()) + uri_byte(b.last())
    }
}

/// Percent-encodes the UTF-8 bytes of `s`, keeping unreserved ASCII characters.
pub fn encode_uri(s: &str) -> (r: String)
    ensures
        r@ == encode_uri_bytes(encode_utf8(s@)),
{
    let bytes = s.as_bytes();
    let n = bytes.len();
    let mut result = String::new();
    for i in 0..n
        invariant
            n == bytes@.len(),
            bytes@ == s.spec_bytes(),
            result@ == encode_uri_bytes(bytes@.take(i as int)),
    {
        let b = bytes[i];
        assert(bytes@.take(i + 1).drop_last() =~= bytes@.take(i as int));
        if is_unreserved_exec(b as char) {
            push_char(&mut result, b as char);
        } else {
            push_percent(&mut result, b);
        }
    }
    assert(bytes@.take(n as int) =~= bytes@);
    result
}

/// The value of a hexadecimal digit, in either case; zero for any other character.
pub open spec fn hex_value(c: char) -> int {
    if '0' <= c && c <= '9' {
        c as int - '0' as int
    } else if 'A' <= c && c <= 'F' {
        c as int - 'A' as int + 10
    } else if 'a' <= c && c <= 'f' {
        c as int - 'a' as int + 10
    } else {
        0
    }
}

/// Percent-decoding, read from the front: `%` and two more characters give the byte of
/// those two hexadecimal digits; any other character gives the low byte of its code.
pub open spec fn percent_decode(s: Seq<char>) -> Seq<u8>
    decreases s.len(),
{
    if s.len() == 0 {
        Seq::empty()
    } else if s[0] == '%' && s.len() >= 3 {
        seq![(hex_value(s[1]) * 16 + hex_value(s[2])) as u8] + percent_decode(s.skip(3))
    } else {
        seq![s[0] as u8] + percent_decode(s.skip(1))
    }
}

proof fn lemma_hex_digit_value(d: int)
    requires
        0 <= d < 16,
    ensures
        hex_value(crate::text::hex_digit(d)) == d,
{
}

proof fn lemma_decode_unit(x: u8, t: Seq<char>)
    ensures
        percent_decode(uri_byte(x) + t) == seq![x] + percent_decode(t),
{
    let u = uri_byte(x) + t;
    if is_unreserved(x as char) {
        assert(u.skip(1) =~= t);
        assert(u[0] == x as char);
    } else {
        lemma_hex_digit_value((x / 16) as int);
        lemma_hex_digit_value((x % 16) as int);
        assert(u.skip(3) =~= t);
        assert(u[0] == '%');
        assert((x / 16) * 16 + x % 16 == x);
    }
}

proof fn lemma_decode_encoded(b: Seq<u8>, t: Seq<char>)
    ensures
        percent_decode(encode_uri_bytes(b) + t) == b + percent_decode(t),
    decreases b.len(),
{
    if b.len() == 0 {
        assert(encode_uri_bytes(b) + t =~= t);
        assert(b + percent_decode(t) =~= percent_decode(t));
    } else {
        let x = b.last();
        let rest = b.drop_last();
        assert(encode_uri_bytes(b) + t =~= encode_uri_bytes(rest) + (uri_byte(x) + t));
        lemma_decode_encoded(rest, uri_byte(x) + t);
        lemma_decode_unit(x, t);
        assert(rest + (seq![x] + percent_decode(t)) =~= b + percent_decode(t));
    }
}

/// Percent-decoding what `encode_uri` gives yields the UTF-8 bytes of the text back.
pub proof fn law_encode_uri_round_trip(s: Seq<char>)
    ensures
        percent_decode(encode_uri_bytes(encode_utf8(s))) == encode_utf8(s),
{
    let b = encode_utf8(s);
    lemma_decode_encoded(b, Seq::empty());
    assert(encode_uri_bytes(b) + Seq::<char>::empty() =~= encode_uri_bytes(b));
    assert(b + percent_decode(Seq::<char>::empty()) =~= b);
}

/// One character of `encode`: itself when unreserved, else `%XX` of its low byte.
pub open spec fn query_char(c: char) -> Seq<char> {
    if is_unreserved(c) {
        seq![c]
    } else {
        percent(((c as u32) % 256) as u8)
    }
}

/// Each character of `s` encoded by `query_char`, in order.
pub open spec fn encode_chars(s: Seq<char>) -> Seq<char>
    decreases s.len(),
{
    if s.len() == 0 {
        Seq::empty()
    } else {
        encode_chars(s.drop_last()) + query_char(s.last())
    }
}

/// Percent-encodes a query per character: unreserved ASCII characters are kept, any other
/// character becomes `%XX` of the low byte of its code point.
pub fn encode(s: &str) -> (r: String)
    ensures
        r@ == encode_chars(s@),
{
    let cs = chars_of(s);
    let n = cs.len();
    let mut result = String::new();
    for i in 0..n
        invariant
            n == cs@.len(),
            cs@ == s@,
            result@ == encode_chars(cs@.take(i as int)),
    {
        let c = cs[i];
        assert(cs@.take(i + 1).drop_last() =~= cs@.take(i as int));
        if is_unreserved_exec(c) {
            push_char(&mut result, c);
            assert(result@ =~= encode_chars(cs@.take(i + 1)));
        } else {
            push_percent(&mut result, ((c as u32) % 256) as u8);
        }
    }
    assert(cs@.take(n as int) =~= cs@);
    result
}

} // verus!
