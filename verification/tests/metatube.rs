use media_vault::metatube::{
    base_url, detail_target, detail_url, fallback_code, fallback_providers, metatube_detail, metatube_search_hits,
    normalize_runtime, search_url, MetatubeHit, MetatubeInfo, MetatubeMerge,
};

fn hit(provider: &str, id: &str, title: &str) -> MetatubeHit {
    MetatubeHit {
        provider: Some(provider.to_string()), id: Some(id.to_string()), title: Some(title.to_string()),
        release_date: Some("2021-05-01".to_string()), score: Some(7), cover_url: None,
        thumb_url: Some("http://x/thumb.jpg".to_string()), actors: vec![" Alice ".to_string(), "Bob".to_string()],
    }
}

fn info(runtime: Option<i64>, actors: &[&str], genres: &[&str], big: Option<&str>) -> MetatubeInfo {
    MetatubeInfo {
        runtime, duration: None, actors: actors.iter().map(|s| s.to_string()).collect(),
        genres: genres.iter().map(|s| s.to_string()).collect(), big_cover_url: big.map(|s| s.to_string()),
        cover_url: None, score: Some(9),
    }
}

#[test]
fn addresses() {
    assert_eq!(base_url(), "http://127.0.0.1:9588");
    assert_eq!(search_url("http://h", "ab c"), "http://h/v1/movies/search?q=ab%20c&fallback=true");
    assert_eq!(detail_url("http://h", "FANZA", "abc123"), "http://h/v1/movies/FANZA/abc123");
    assert_eq!(fallback_code(" SSNI-888 "), "ssni888");
    assert_eq!(fallback_providers(), vec!["FANZA".to_string(), "JAV321".to_string(), "MGS".to_string()]);
}

#[test]
fn runtime_normalization() {
    assert_eq!(normalize_runtime(120), 120);
    assert_eq!(normalize_runtime(1000), 600);
    assert_eq!(normalize_runtime(999), 600);
    assert_eq!(normalize_runtime(600), 600);
    assert_eq!(normalize_runtime(60000), 600);
    assert_eq!(normalize_runtime(7200), 120);
}

#[test]
fn hits_merge_title_year_poster_actors() {
    let mut m = MetatubeMerge::new("SSNI-888");
    m.absorb_hit(&hit("JavBus", "SSNI-888", "短"));
    assert_eq!(m.title, "SSNI-888");
    m.absorb_hit(&hit("FANZA", "ssni888", "A much longer title"));
    assert_eq!(m.title, "A much longer title");
    assert_eq!(m.year, Some(2021));
    assert_eq!(m.rating, Some(7));
    assert_eq!(m.poster, Some("http://x/thumb.jpg".to_string()));
    assert_eq!(m.actors, vec!["Alice".to_string(), "Bob".to_string()]);
    assert!(m.has_data("SSNI-888"));
}

#[test]
fn details_merge_runtime_genres_cover_sources() {
    let mut m = MetatubeMerge::new("Q");
    m.absorb_hit(&hit("FANZA", "q", "Q"));
    m.absorb_detail(&"DUGA".to_string(), &info(Some(300), &[], &[], None));
    assert_eq!(m.runtime, None);
    assert!(m.sources.is_empty());
    m.absorb_detail(&"FANZA".to_string(), &info(Some(7200), &["Carol", "Bob"], &["Drama"], Some("http://big.jpg")));
    assert_eq!(m.runtime, Some(120));
    assert_eq!(m.actors, vec!["Alice".to_string(), "Bob".to_string(), "Carol".to_string()]);
    assert_eq!(m.genres, vec!["Drama".to_string()]);
    assert_eq!(m.poster, Some("http://big.jpg".to_string()));
    assert_eq!(m.sources, vec!["FANZA".to_string()]);
    m.absorb_detail(&"JavBus".to_string(), &info(Some(100), &["Bob"], &["Drama"], Some("http://other.jpg")));
    assert_eq!(m.runtime, Some(120));
    assert_eq!(m.poster, Some("http://big.jpg".to_string()));
    assert_eq!(m.sources, vec!["FANZA".to_string()]);
    assert!(!m.needs_fallback("FANZA"));
    assert!(m.needs_fallback("MGS"));
    m.absorb_fallback(&"MGS".to_string(), &info(Some(150), &[], &["Drama", "Blocked"], None));
    assert_eq!(m.runtime, Some(150));
    assert_eq!(m.sources, vec!["FANZA".to_string(), "MGS".to_string()]);
    let r = m.finish(&vec!["Blocked".to_string()]);
    assert_eq!(r.source, "metatube(FANZA,MGS)");
    assert_eq!(r.genre, Some(vec!["Drama".to_string()]));
    assert_eq!(r.score, 65);
    assert_eq!(r.rating, Some(7));
}

#[test]
fn nothing_found_is_reported() {
    let m = MetatubeMerge::new("Q");
    assert!(!m.has_data("Q"));
    let r = m.finish(&vec![]);
    assert_eq!(r.source, "metatube()");
    assert_eq!(r.actors, None);
    assert_eq!(r.genre, None);
}

#[test]
fn search_reply_gives_hits_with_their_scores() {
    let body = r#"{"data":[{"provider":"FANZA","id":"ssni888","title":"T1","release_date":"2021-05-01","cover_url":"c","thumb_url":"t","actors":["A","B"],"score":4.5},{"id":"x2","title":"T2"}]}"#;
    let scores = vec![Some(4.5f64.to_bits())];
    let hits = metatube_search_hits(body, &scores).unwrap();
    assert_eq!(hits.len(), 2);
    assert_eq!(hits[0].provider.as_deref(), Some("FANZA"));
    assert_eq!(hits[0].id.as_deref(), Some("ssni888"));
    assert_eq!(hits[0].title.as_deref(), Some("T1"));
    assert_eq!(hits[0].release_date.as_deref(), Some("2021-05-01"));
    assert_eq!(hits[0].cover_url.as_deref(), Some("c"));
    assert_eq!(hits[0].thumb_url.as_deref(), Some("t"));
    assert_eq!(hits[0].actors, vec!["A".to_string(), "B".to_string()]);
    assert_eq!(hits[0].score, Some(4.5f64.to_bits()));
    assert_eq!(hits[1].provider, None);
    assert_eq!(hits[1].title.as_deref(), Some("T2"));
    assert_eq!(hits[1].score, None);
    assert!(hits[1].actors.is_empty());
}

#[test]
fn search_reply_errors() {
    let e = metatube_search_hits("not json", &vec![]).unwrap_err();
    assert_eq!(e.code, 4100);
    assert!(e.message.starts_with("MetaTube JSON: "));
    assert!(e.message.len() > "MetaTube JSON: ".len());
    let e = metatube_search_hits(r#"{"error":{"message":"boom"}}"#, &vec![]).unwrap_err();
    assert_eq!(e.message, "MetaTube: boom");
    let e = metatube_search_hits(r#"{"data":null}"#, &vec![]).unwrap_err();
    assert_eq!(e.message, "MetaTube 返回格式异常");
    let e = metatube_search_hits(r#"{"data":[]}"#, &vec![]).unwrap_err();
    assert_eq!(e.message, "MetaTube 无结果");
}

#[test]
fn detail_target_needs_provider_and_id() {
    let h = hit("MGS", "abc", "T");
    assert_eq!(detail_target(&h), Some(("MGS".to_string(), "abc".to_string())));
    let mut h2 = hit("MGS", "abc", "T");
    h2.provider = None;
    assert_eq!(detail_target(&h2), Some(("metatube".to_string(), "abc".to_string())));
    let mut h3 = hit("MGS", "abc", "T");
    h3.id = None;
    assert_eq!(detail_target(&h3), None);
    let h4 = hit("", "abc", "T");
    assert_eq!(detail_target(&h4), None);
    let h5 = hit("MGS", "", "T");
    assert_eq!(detail_target(&h5), None);
}

#[test]
fn detail_reply_is_read_without_error() {
    let body = r#"{"data":{"runtime":120,"duration":7200,"actors":["A"],"genres":["G1","G2"],"big_cover_url":"b","cover_url":"c"}}"#;
    let info = metatube_detail(body, Some(7)).unwrap();
    assert_eq!(info.runtime, Some(120));
    assert_eq!(info.duration, Some(7200));
    assert_eq!(info.actors, vec!["A".to_string()]);
    assert_eq!(info.genres, vec!["G1".to_string(), "G2".to_string()]);
    assert_eq!(info.big_cover_url.as_deref(), Some("b"));
    assert_eq!(info.cover_url.as_deref(), Some("c"));
    assert_eq!(info.score, Some(7));
    assert!(metatube_detail(r#"{"error":{"message":"nope"},"data":{}}"#, None).is_none());
    assert!(metatube_detail("<html>", None).is_none());
    assert!(metatube_detail(r#"{"error":null,"data":{"runtime":5}}"#, None).unwrap().runtime == Some(5));
}
