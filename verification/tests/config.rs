use media_vault::config::{default_config, google_translate_url, image_data_url, is_listed_image, now_ts, unix_seconds, proxy_url, seed_statement};
use media_vault::sql::SqlArg;

#[test]
fn defaults_are_complete() {
    let d = default_config();
    assert_eq!(d.len(), 23);
    assert_eq!(d[0], ("db_version".to_string(), "5".to_string()));
    assert!(d.contains(&("allow_app_rename_actor_folders".to_string(), "0".to_string())));
    assert!(d.contains(&("local_actor_base_dir".to_string(), r"D:\Media Library\Actor Information\picture".to_string())));
    let st = seed_statement("theme", "dark", 5);
    assert!(st.sql.starts_with("INSERT OR IGNORE INTO config"));
    assert!(matches!(st.args[2], SqlArg::Int(5)));
}

#[test]
fn images_and_urls() {
    assert!(is_listed_image("JPG"));
    assert!(is_listed_image("webp"));
    assert!(!is_listed_image("txt"));
    assert_eq!(image_data_url(None, b"ab"), "data:image/jpg;base64,YWI=");
    assert_eq!(image_data_url(Some("png"), b""), "data:image/png;base64,");
    assert_eq!(google_translate_url("a b"), "https://translate.googleapis.com/translate_a/single?client=gtx&sl=auto&tl=zh-CN&dt=t&q=a%20b");
    assert_eq!(proxy_url("true", "127.0.0.1", "7890"), Some("http://127.0.0.1:7890".to_string()));
    assert_eq!(proxy_url("true", "", "7890"), None);
    assert_eq!(proxy_url("false", "h", "1"), None);
}

#[test]
fn clock_reads_after_epoch() {
    let t = now_ts().unwrap();
    assert!(t > 1_600_000_000);
}

#[test]
fn seconds_fit_an_i64_or_give_none() {
    assert_eq!(unix_seconds(0), Some(0));
    assert_eq!(unix_seconds(1_700_000_000), Some(1_700_000_000));
    assert_eq!(unix_seconds(i64::MAX as u64), Some(i64::MAX));
    assert_eq!(unix_seconds(i64::MAX as u64 + 1), None);
    assert_eq!(unix_seconds(u64::MAX), None);
}
