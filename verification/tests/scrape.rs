use media_vault::filename_parser::parse_filename;
use media_vault::scrape::{
    accepted_overview, accepted_title, has_good_data, is_bogus_title, is_image, is_remote_poster, order_sources,
    overview_worth_translating, poster_extension, uses_deepseek, deepseek_answer, google_answer, google_title_answer, poster_file_name, provider_code, scrape_query, scrape_sources,
    scrape_status, truncate_log, BatchScrapeResult, ScrapeResult, ScrapeSession,
};

fn result(source: &str, title: &str, score: i32) -> ScrapeResult {
    ScrapeResult {
        source: source.to_string(), title: title.to_string(), year: None, poster_url: None, backdrop_url: None,
        overview: None, rating: None, runtime: None, director: None, genre: None, actors: None, score,
    }
}

#[test]
fn metatube_is_asked_last() {
    let s = vec!["metatube".to_string(), "javbus".to_string(), "tmdb".to_string()];
    assert_eq!(order_sources(&s), vec!["javbus".to_string(), "tmdb".to_string(), "metatube".to_string()]);
}

#[test]
fn bogus_titles() {
    assert!(is_bogus_title("404 Not Found"));
    assert!(is_bogus_title("ページが見つかりません"));
    assert!(is_bogus_title("abc"));
    assert!(is_bogus_title("JAVten home"));
    assert!(!is_bogus_title("SSNI-888 Some Title"));
    assert!(!is_bogus_title("中文"));
}

#[test]
fn good_data_needs_poster_actors_and_genre() {
    let mut r = result("javbus", "Title here", 60);
    r.poster_url = Some("http://x/p.jpg".to_string());
    r.actors = Some(vec!["A".to_string(), "B".to_string()]);
    r.genre = Some(vec!["G".to_string()]);
    assert!(has_good_data(&"javbus".to_string(), &r));
    assert!(!has_good_data(&"metatube".to_string(), &r));
    r.actors = Some(vec!["A".to_string()]);
    assert!(!has_good_data(&"javbus".to_string(), &r));
}

#[test]
fn session_ranks_and_skips() {
    let mut s = ScrapeSession::new();
    assert!(!s.skips(&"metatube".to_string()));
    s.record(&"tmdb".to_string(), result("tmdb", "First title", 50));
    s.record(&"javbus".to_string(), result("javbus", "404 page", 90));
    s.record(&"x".to_string(), result("x", "Second title", 70));
    s.record(&"y".to_string(), result("y", "Third title", 50));
    assert!(!s.skips(&"metatube".to_string()));
    s.record(&"metatube".to_string(), result("metatube", "Meta title", 65));
    assert!(s.skips(&"metatube".to_string()));
    let r = s.finish();
    let titles: Vec<&str> = r.iter().map(|x| x.title.as_str()).collect();
    assert_eq!(titles, vec!["Second title", "Meta title", "First title", "Third title"]);
}

#[test]
fn complete_answer_leaves_metatube_out() {
    let mut s = ScrapeSession::new();
    let mut r = result("javbus", "Title here", 60);
    r.poster_url = Some("p".to_string());
    r.actors = Some(vec!["A".to_string(), "B".to_string()]);
    r.genre = Some(vec!["G".to_string()]);
    s.record(&"javbus".to_string(), r);
    assert!(s.skips(&"metatube".to_string()));
}

#[test]
fn codes_and_queries() {
    assert_eq!(provider_code(" ssni-888 "), "SSNI888");
    assert_eq!(provider_code("abp_12 3"), "ABP123");
    let p = parse_filename("SSNI-888.mp4");
    assert_eq!(scrape_query(&p), "SSNI-888");
    let p = parse_filename("Inception.2010.1080p.BluRay.x264.mkv");
    assert_eq!(scrape_query(&p), p.cleaned);
    assert_eq!(truncate_log("日本語", 4), "日");
}

#[test]
fn poster_names() {
    assert!(is_remote_poster("https://a/b.jpg"));
    assert!(!is_remote_poster("/local/b.jpg"));
    assert_eq!(poster_extension("https://a/b.png?x=1"), "png");
    assert_eq!(poster_extension("https://a/b.webp"), "webp");
    assert_eq!(poster_extension("https://a/b.jpeg2"), "jpg");
    assert_eq!(poster_extension("https://a/b.toolong"), "jpg");
    assert_eq!(poster_extension("https://a/b."), "");
    assert_eq!(poster_file_name("png"), "poster.png");
}

#[test]
fn image_signatures() {
    let mut jpeg = vec![0u8; 1001];
    jpeg[0] = 0xFF; jpeg[1] = 0xD8; jpeg[2] = 0xFF;
    assert!(is_image(&jpeg));
    let mut gif = vec![0u8; 1001];
    gif[..4].copy_from_slice(b"GIF8");
    assert!(is_image(&gif));
    assert!(!is_image(&jpeg[..1000]));
    assert!(!is_image(&vec![b'<'; 2000]));
}

#[test]
fn translation_acceptance() {
    assert!(!overview_worth_translating("short"));
    assert!(overview_worth_translating("a long enough overview text"));
    assert_eq!(accepted_overview("  这是一个足够长的简介  "), Some("这是一个足够长的简介".to_string()));
    assert_eq!(accepted_overview("  短  "), None);
    assert!(accepted_title("中文", "日本語"));
    assert!(!accepted_title("same", "same"));
    assert!(!accepted_title("", "x"));
}

#[test]
fn sources_and_batch() {
    assert_eq!(scrape_sources(None), vec!["metatube".to_string(), "javbus".to_string()]);
    assert_eq!(scrape_sources(Some("[\"tmdb\"]")), vec!["tmdb".to_string()]);
    assert_eq!(scrape_sources(Some("{")), vec!["metatube".to_string(), "javbus".to_string()]);
    let mut b = BatchScrapeResult::new(2);
    let p = b.record(true, "a.mp4".to_string());
    assert_eq!((p.current, p.total, p.success, p.failed), (1, 2, 1, 0));
    let p = b.record(false, "b.mp4".to_string());
    assert_eq!((p.current, p.success, p.failed), (2, 1, 1));
    assert_eq!(p.file_name, "b.mp4");
    assert_eq!(scrape_status(true), 2);
    assert_eq!(scrape_status(false), 3);
}

#[test]
fn equal_scores_keep_their_order() {
    let mut s = ScrapeSession::new();
    s.record(&"a".to_string(), result("a", "First title", 50));
    s.record(&"b".to_string(), result("b", "Higher title", 80));
    s.record(&"c".to_string(), result("c", "Second title", 50));
    s.record(&"d".to_string(), result("d", "Third title", 50));
    let order: Vec<String> = s.finish().into_iter().map(|r| r.source).collect();
    assert_eq!(order, vec!["b", "a", "c", "d"]);
}

#[test]
fn translation_replies() {
    assert!(uses_deepseek("sk-1"));
    assert!(!uses_deepseek(""));
    let ds = r#"{"choices":[{"message":{"content":"  中文标题 \n"}}]}"#;
    assert_eq!(deepseek_answer(ds).as_deref(), Some("中文标题"));
    assert_eq!(deepseek_answer(r#"{"choices":[]}"#), None);
    assert_eq!(deepseek_answer("garbage"), None);
    let g = r#"[[["你好","hello",null,null,1]],null,"en"]"#;
    assert_eq!(google_answer(g).as_deref(), Some("你好"));
    assert_eq!(google_answer("[]"), None);
    assert_eq!(google_title_answer(g, "hello").unwrap(), "你好");
    assert_eq!(google_title_answer("[]", "hello").unwrap(), "hello");
    let e = google_title_answer("<html>", "hello").unwrap_err();
    assert_eq!(e.code, 4000);
    assert!(e.message.starts_with("翻译解析失败: "));
}
