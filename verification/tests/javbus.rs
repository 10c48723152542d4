use media_vault::javbus::{absolute_url, age_gate_link, detail_url, extract_javbus, is_age_gate, is_unusable_page};

const PAGE: &str = r#"<html><head><title>ABP-123 Fallback</title></head><body>
<h3>ABP-123 Header Title</h3>
<a class="bigImage" href="/big"><img src="/pics/thumb/abc.jpg" title="ABP-123 Big Title"></a>
<div class="col-md-3 info">
<p><span>発売日:</span> 2019-07-04</p>
<p><span>収録時間:</span> 120分鐘</p>
</div>
<span class="genre"><label><a href="/genre/1"> Drama </a></label></span>
<div id="star-div"><a href="/star/1">Yui</a></div>
</body></html>"#;

#[test]
fn page_checks() {
    assert!(is_unusable_page("short"));
    assert!(is_unusable_page(&format!("{}{}", "x".repeat(600), "Cloudflare")));
    assert!(!is_unusable_page(&"x".repeat(600)));
    assert!(is_age_gate("<p>Age Verification</p>"));
    assert!(!is_age_gate("<p>movie</p>"));
}

#[test]
fn links_are_made_absolute() {
    assert_eq!(absolute_url("https://a/b"), "https://a/b");
    assert_eq!(absolute_url("/ja/X"), "https://www.javbus.com/ja/X");
    assert_eq!(absolute_url("ja/X"), "https://www.javbus.com/ja/X");
    assert_eq!(detail_url("ABP123"), "https://www.javbus.com/ja/ABP123");
}

#[test]
fn age_gate_exit_link() {
    let page = r#"<html><body>Age Verification<a href="/home">Home</a><a href="/doc?over18=1">I am ENTERING</a></body></html>"#;
    assert_eq!(age_gate_link(page, "D"), Some("https://www.javbus.com/doc?over18=1".to_string()));
    let challenge = "<html><body>Age Verification cf-chl</body></html>";
    assert_eq!(age_gate_link(challenge, "D"), Some("D".to_string()));
    assert_eq!(age_gate_link("<html><body>Age Verification</body></html>", "D"), None);
}

#[test]
fn fields_are_extracted() {
    let r = extract_javbus(PAGE, "ABP-123");
    assert_eq!(r.title, "ABP-123 Big Title");
    assert_eq!(r.poster_url, Some("https://www.javbus.com/pics/cover/abc.jpg".to_string()));
    assert_eq!(r.year, Some(2019));
    assert_eq!(r.runtime, Some(120));
    assert!(r.genres.contains(&"Drama".to_string()));
    assert!(r.actors.contains(&"Yui".to_string()));
    assert_eq!(r.overview, None);
}

#[test]
fn empty_page_falls_back_to_query() {
    let r = extract_javbus("<html><body></body></html>", "QUERY");
    assert_eq!(r.title, "QUERY");
    assert_eq!(r.poster_url, None);
    assert_eq!(r.year, None);
    assert!(r.genres.is_empty());
}
