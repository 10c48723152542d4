use media_vault::config::sdk_update_message;
use media_vault::javbus::{javbus_scrape_result, JavBusResult};
use media_vault::pan115::refresh_threshold;
use media_vault::scrape::{deepseek_system_prompt, overview_prompt, scrape_translate_url, title_request_prompt};

#[test]
fn prompts_and_addresses() {
    assert!(deepseek_system_prompt().starts_with("你是日本AV影片片名本地化翻译专家"));
    assert!(overview_prompt("あらすじ").ends_with("原文：\nあらすじ"));
    assert!(title_request_prompt().contains("请将其翻译成简体中文"));
    assert_eq!(
        scrape_translate_url("a b"),
        "https://translate.googleapis.com/translate_a/single?client=gtx&sl=auto&tl=zh-CN&dt=t&q=a%20b"
    );
    assert_eq!(sdk_update_message("ok", "/x/m.exe"), "MetaTube SDK 更新成功！\ngit: ok\n编译产物: /x/m.exe");
    assert_eq!(refresh_threshold(1000), 1600);
}

#[test]
fn javbus_answer() {
    let r = javbus_scrape_result(JavBusResult {
        title: "T".into(),
        year: Some(2019),
        poster_url: None,
        overview: None,
        rating: None,
        runtime: Some(120),
        director: None,
        genres: vec![],
        actors: vec!["A".into()],
    });
    assert_eq!((r.source.as_str(), r.score, r.year, r.runtime), ("javbus", 75, Some(2019), Some(120)));
    assert_eq!(r.genre, None);
    assert_eq!(r.actors, Some(vec!["A".to_string()]));
}
