use media_vault::genre_translation::GenreBatch;
use media_vault::jphoo::{check_credentials, json_start, jphoo_first_item, jphoo_result, nonce_of, search_url, JphooItem};

fn item() -> JphooItem {
    JphooItem {
        title: None, name: Some("Name".to_string()), release_date: Some("2020-01-02".to_string()), year: None,
        cover: None, img: Some("/img/a.jpg".to_string()), image: None, description: Some("d".to_string()),
        duration: Some(118), actor_names: vec!["A".to_string()], actress_list: vec!["B".to_string()], tags: vec![],
    }
}

#[test]
fn jphoo_credentials_and_request() {
    assert!(check_credentials("s", "r", "g").is_ok());
    let e = check_credentials("s", "  ", "g").unwrap_err();
    assert_eq!(e.code, 4100);
    assert_eq!(search_url("ABC"), "https://www.jphoo1.com/prod-api/v2/search/list?pageNum=1&pageSize=24&operationName=works&keyword=ABC");
    assert_eq!(nonce_of(0), 1_000_000_000);
    assert_eq!(nonce_of(9_000_000_001), 1_000_000_001);
    assert_eq!(json_start("xx{\"a\":1}"), "{\"a\":1}");
    assert_eq!(json_start("none"), "none");
}

#[test]
fn jphoo_answer_fields() {
    let r = jphoo_result(&item(), "Q");
    assert_eq!(r.source, "jphoo");
    assert_eq!(r.title, "Name");
    assert_eq!(r.year, Some(2020));
    assert_eq!(r.poster_url, Some("https://www.jphoo1.com/img/a.jpg".to_string()));
    assert_eq!(r.runtime, Some(118));
    assert_eq!(r.actors, Some(vec!["A".to_string(), "B".to_string()]));
    assert_eq!(r.genre, None);
    assert_eq!(r.score, 70);
}

#[test]
fn genre_translation_flow() {
    let genres = vec!["巨乳".to_string(), "単体作品".to_string(), "中出し".to_string()];
    let cached = vec![Some("巨乳中".to_string()), None, Some(String::new())];
    let mut t = GenreBatch::start(genres, &cached);
    assert_eq!(t.missing, vec![1, 2]);
    assert_eq!(t.request_text(), "1.単体作品\n2.中出し");
    assert!(t.request_prompt().contains("1.単体作品\n2.中出し"));
    let pairs = t.apply_batch_reply("1. 单体作品\r\n3.不存在\nx.y\n+2 .   \n");
    assert_eq!(pairs, vec![("単体作品".to_string(), "单体作品".to_string())]);
    assert_eq!(t.still_missing(), vec![1]);
    assert_eq!(t.apply_single_reply(1, Some("中出し".to_string())), None);
    assert_eq!(t.still_missing(), vec![1]);
    assert_eq!(t.apply_single_reply(1, Some(" 内射 ".to_string())), Some(("中出し".to_string(), "内射".to_string())));
    let done = t.finish();
    assert_eq!(done, vec!["巨乳中".to_string(), "单体作品".to_string(), "内射".to_string()]);
}

#[test]
fn untranslated_genres_keep_their_names() {
    let t = GenreBatch::start(vec!["A".to_string()], &vec![None]);
    assert_eq!(t.finish(), vec!["A".to_string()]);
}

#[test]
fn jphoo_reply_first_item_from_list() {
    let body = r#"\n {"data":{"list":[{"title":"T","name":"N","releaseDate":"2020-01-02","year":"2020","cover":"c","img":"i","image":"m","description":"d","duration":118,"actors":[{"name":"A1"},{"name":"A2"}],"actressList":["B"],"tags":["G"]},{"title":"second"}]}}"#;
    let item = jphoo_first_item(body).unwrap();
    assert_eq!(item.title.as_deref(), Some("T"));
    assert_eq!(item.name.as_deref(), Some("N"));
    assert_eq!(item.release_date.as_deref(), Some("2020-01-02"));
    assert_eq!(item.year.as_deref(), Some("2020"));
    assert_eq!(item.cover.as_deref(), Some("c"));
    assert_eq!(item.img.as_deref(), Some("i"));
    assert_eq!(item.image.as_deref(), Some("m"));
    assert_eq!(item.description.as_deref(), Some("d"));
    assert_eq!(item.duration, Some(118));
    assert_eq!(item.actor_names, vec!["A1".to_string(), "A2".to_string()]);
    assert_eq!(item.actress_list, vec!["B".to_string()]);
    assert_eq!(item.tags, vec!["G".to_string()]);
}

#[test]
fn jphoo_reply_rows_and_bare_data() {
    let rows = jphoo_first_item(r#"{"data":{"rows":[{"title":"R"}]}}"#).unwrap();
    assert_eq!(rows.title.as_deref(), Some("R"));
    let bare = jphoo_first_item(r#"{"data":[{"name":"D"}]}"#).unwrap();
    assert_eq!(bare.name.as_deref(), Some("D"));
    assert_eq!(bare.title, None);
}

#[test]
fn jphoo_reply_errors() {
    let e = jphoo_first_item("{oops").unwrap_err();
    assert_eq!(e.code, 4100);
    assert!(e.message.starts_with("JpHoo JSON解析失败: "));
    assert_eq!(jphoo_first_item(r#"{"data":{"total":0}}"#).unwrap_err().message, "JpHoo返回格式异常");
    assert_eq!(jphoo_first_item(r#"{"data":{"list":[]}}"#).unwrap_err().message, "JpHoo无结果");
}
