use media_vault::filename_parser::{parse_filename, remove_bracket_content, remove_technical_suffixes, Regex};

#[test]
fn test_parse_movie() {
    let r = parse_filename("Inception.2010.1080p.BluRay.x264.mkv");
    assert!(r.cleaned.contains("Inception"));

    let r = parse_filename("SSNI-888.mp4");
    assert_eq!(r.id_number, Some("SSNI-888".into()));
}

#[test]
fn parse_keeps_original_and_prefix() {
    let r = parse_filename("SSNI-888.mp4");
    assert_eq!(r.original, "SSNI-888.mp4");
    assert_eq!(r.id_prefix, Some("SSNI".to_string()));
}

#[test]
fn parse_without_code_has_no_id() {
    let r = parse_filename("Inception.2010.1080p.BluRay.x264.mkv");
    assert_eq!(r.id_number, None);
    assert_eq!(r.id_prefix, None);
}

#[test]
fn code_after_a_japanese_name() {
    let r = parse_filename("女優 SSNI-888.mp4");
    assert_eq!(r.id_number, Some("SSNI-888".to_string()));
    assert_eq!(r.id_prefix, Some("SSNI".to_string()));
    let r = parse_filename("ｱｲ abp_123 高画質.mkv");
    assert_eq!(r.id_number, Some("ABP-123".to_string()));
}

#[test]
fn brackets_are_removed() {
    let r = remove_bracket_content("abc[1080p]def");
    assert!(!r.contains("1080p"));
}

#[test]
fn technical_suffixes_are_removed() {
    let r = remove_technical_suffixes("Movie 1080p");
    assert!(!r.contains("1080p"));
    assert!(r.contains("Movie"));
}

#[test]
fn regex_finds_code_groups() {
    let re = Regex::new("").unwrap();
    let caps = re.captures("abc ABP-123 xyz").unwrap();
    assert_eq!(caps.get(1).unwrap().as_str(), "ABP");
    assert_eq!(caps.get(2).unwrap().as_str(), "123");
}

#[test]
fn regex_groups_after_non_ascii_text() {
    let re = Regex::new("").unwrap();
    let caps = re.captures("女優 ssni-888").unwrap();
    assert_eq!(caps.get(1).unwrap().as_str(), "ssni");
    assert_eq!(caps.get(2).unwrap().as_str(), "888");
    assert!(re.captures("女優のみ").is_none());
}

#[test]
fn found_codes_have_the_pattern_shape() {
    for name in ["abp_123.mp4", "女優 SSNI-888.mp4", "x IPX00123 y.mkv", "ABCDEFG-12.mp4", "no code here.avi", "AB-1.mp4"] {
        let p = parse_filename(name);
        match (&p.id_number, &p.id_prefix) {
            (Some(n), Some(pre)) => {
                assert!((2..=6).contains(&pre.len()) && pre.chars().all(|c| c.is_ascii_uppercase()));
                let digits = &n[pre.len() + 1..];
                assert!(n.starts_with(pre.as_str()) && n.as_bytes()[pre.len()] == b'-');
                assert!((2..=5).contains(&digits.len()) && digits.chars().all(|c| c.is_ascii_digit()));
            }
            (None, None) => {}
            _ => panic!("prefix without code for {}", name),
        }
    }
}

#[test]
fn regex_groups_keep_the_text_case() {
    let re = Regex::new(r"(?i)\b([A-Z]{2,6})[-_]?(\d{2,5})\b").unwrap();
    let c = re.captures("movie abc-1234").unwrap();
    assert_eq!(c.get(1).unwrap().as_str(), "abc");
    assert_eq!(c.get(2).unwrap().as_str(), "1234");
    assert!(c.get(3).is_none());
    assert!(re.captures("ABC-123456").is_none());
    assert!(re.captures("A-12").is_none());
    let c = re.captures("女優 SSNI-888").unwrap();
    assert_eq!((c.get(1).unwrap().as_str(), c.get(2).unwrap().as_str()), ("SSNI", "888"));
    let p = parse_filename("movie abc-1234.mp4");
    assert_eq!(p.id_number.as_deref(), Some("ABC-1234"));
    assert_eq!(p.id_prefix.as_deref(), Some("ABC"));
}
