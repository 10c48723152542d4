use media_vault::error::CommandError;
use media_vault::logger::{mask_api_key, mask_cookie};
use media_vault::text::truncate_str;
use media_vault::url_encoding::{encode, encode_uri};

#[test]
fn encode_keeps_unreserved_and_escapes_rest() {
    assert_eq!(encode("abc-123_.~"), "abc-123_.~");
    assert_eq!(encode("a b"), "a%20b");
    assert_eq!(encode("a/b?"), "a%2Fb%3F");
}

#[test]
fn encode_uses_low_byte_of_code_point() {
    // U+4E2D: low byte 0x2D
    assert_eq!(encode("中"), "%2D");
}

#[test]
fn encode_uri_escapes_each_utf8_byte() {
    assert_eq!(encode_uri("a b"), "a%20b");
    assert_eq!(encode_uri("中"), "%E4%B8%AD");
}

#[test]
fn truncate_cuts_at_char_boundary() {
    assert_eq!(truncate_str("hello", 10), "hello");
    assert_eq!(truncate_str("hello", 3), "hel");
    assert_eq!(truncate_str("中文", 4), "中");
    assert_eq!(truncate_str("中文", 2), "");
}

#[test]
fn masks_keep_a_prefix() {
    assert_eq!(mask_cookie("UID=1234567890"), "UID=1234****");
    assert_eq!(mask_cookie("short"), "****");
    assert_eq!(mask_api_key("sk-abcdef"), "sk-a****");
    assert_eq!(mask_api_key("abcd"), "****");
}

#[test]
fn masks_count_characters() {
    assert_eq!(mask_cookie("ab中中中中"), "****");
    assert_eq!(mask_cookie("中文中文中文中文中"), "中文中文中文中文****");
    assert_eq!(mask_cookie("abcdefg中x"), "abcdefg中****");
    assert_eq!(mask_api_key("密钥密钥X"), "密钥密钥****");
}

#[test]
fn error_codes_and_display() {
    assert_eq!(CommandError::db("x").code, 1000);
    assert_eq!(CommandError::network("x").code, 2000);
    assert_eq!(CommandError::unauthorized("x").code, 2100);
    assert_eq!(CommandError::rate_limited("x").code, 2200);
    assert_eq!(CommandError::invalid_input("x").code, 3000);
    assert_eq!(CommandError::not_found("x").code, 3100);
    assert_eq!(CommandError::internal("x").code, 4000);
    let e = CommandError::scrape_failed("没有结果");
    assert_eq!(e.code, 4100);
    assert_eq!(e.to_display_string(), "[4100] 没有结果");
}

fn percent_decode(s: &str) -> Vec<u8> {
    let b = s.as_bytes();
    let mut out = Vec::new();
    let mut i = 0;
    while i < b.len() {
        if b[i] == b'%' && i + 2 < b.len() {
            out.push(u8::from_str_radix(&s[i + 1..i + 3], 16).unwrap());
            i += 3;
        } else {
            out.push(b[i]);
            i += 1;
        }
    }
    out
}

#[test]
fn encode_uri_decodes_back() {
    for text in ["a b/あ", "", "~-_.", "100% 真", "SSNI-888"] {
        assert_eq!(percent_decode(&encode_uri(text)), text.as_bytes());
    }
    assert_eq!(encode_uri("a b/あ"), "a%20b%2F%E3%81%82");
}
