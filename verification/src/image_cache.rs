//! The image cache: the name an image is cached under and the width it is cut down to.
//! The caller downloads, decodes, resizes and encodes the image.

use vstd::prelude::*;
use vstd::string::StringExecFns;
use vstd::utf8::encode_utf8;
use crate::crypto::{sha256, sha256_digest};

verus! {

/// A lower-case hexadecimal digit.
pub open spec fn hex_lower(d: int) -> char {
    if d < 10 { ((d + 48) as u8) as char } else { ((d - 10 + 97) as u8) as char }
}

/// The lower-case hexadecimal form of bytes, two digits each.
pub open spec fn hex_of(b: Seq<u8>) -> Seq<char>
    decreases b.len(),
{
    if b.len() == 0 {
        Seq::empty()
    } else {
        hex_of(b.drop_last()) + seq![hex_lower((b.last() / 16) as int), hex_lower((b.last() % 16) as int)]
    }
}

/// The name an image from `url` is cached under: the first 16 hexadecimal digits of the
/// SHA-256 digest of the address, then `.webp`.
pub open spec fn cache_name_of(url: Seq<char>) -> Seq<char> {
    hex_of(sha256_digest(encode_utf8(url)).take(8)) + ".webp"@
}

fn hex_digit_lower(d: u8) -> (c: char)
    requires
        d < 16,
    ensures
        c == hex_lower(d as int),
{
    if d < 10 { (d + 48) as char } else { (d - 10 + 97) as char }
}

/// The name an image from `url` is cached under.
pub fn cache_file_name(url: &str) -> (r: String)
    ensures
        r@ == cache_name_of(url@),
{
    let digest = sha256(url.as_bytes());
    let mut s = String::new();
    let ghost d = sha256_digest(encode_utf8(url@));
    for k in 0..8
        invariant
            digest@ == d,
            d.len() == 32,
            s@ == hex_of(d.take(k as int)),
    {
        let b = digest[k];
        assert(d.take(k + 1).drop_last() =~= d.take(k as int));
        assert(d.take(k + 1).last() == b);
        crate::text::push_char(&mut s, hex_digit_lower(b / 16));
        crate::text::push_char(&mut s, hex_digit_lower(b % 16));
    }
    s.concat(".webp")
}

/// The widest an image is kept: 400 pixels for avatars, 800 for anything else.
pub fn max_width(category: &str) -> (w: u32)
    ensures
        category@ == "avatars"@ ==> w == 400,
        category@ != "avatars"@ ==> w == 800,
{
    if crate::text::chars_eq(&crate::text::chars_of(category), &crate::text::chars_of("avatars")) { 400 } else { 800 }
}

} // verus!
