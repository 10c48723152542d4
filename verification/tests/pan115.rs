use media_vault::pan115::{
    cookie_reply, files_page, listing_entries, login_status_reply, play_url_from, play_url_reply, qrcode_data_url, root_listing,
};
use media_vault::pan115::{
    assemble_cookie, clear_cookie, cookie_reply_accepts, file_info_from, get_cookie, has_cookie,
    html_reply_accepted, is_png, listing_ok, login_poll_code, login_status_result, login_status_unreadable,
    login_status_word, page_offset, play_url_expiry, set_cookie, CookieSession, RawFileEntry,
};

#[test]
fn cookie_set_get_clear() {
    let mut s = CookieSession::new();
    assert!(!has_cookie(&s));
    assert_eq!(get_cookie(&s), None);
    set_cookie(&mut s, "UID=1; CID=2");
    assert!(has_cookie(&s));
    assert_eq!(get_cookie(&s), Some("UID=1; CID=2".to_string()));
    set_cookie(&mut s, "UID=3");
    assert_eq!(get_cookie(&s), Some("UID=3".to_string()));
    clear_cookie(&mut s);
    assert!(!has_cookie(&s));
    assert_eq!(get_cookie(&s), None);
}

#[test]
fn status_words() {
    assert_eq!(login_status_word(0), "scanned");
    assert_eq!(login_status_word(1), "authorized");
    assert_eq!(login_status_word(2), "expired");
    assert_eq!(login_status_word(-1), "waiting");
    assert_eq!(login_status_word(7), "waiting");
    assert_eq!(login_poll_code(Some(1), Some(0)), 1);
    assert_eq!(login_poll_code(None, Some(2)), 2);
    assert_eq!(login_poll_code(None, None), -1);
}

#[test]
fn cookie_is_assembled_from_body_and_headers() {
    let headers = vec!["UID=1; path=/".to_string(), "; x".to_string(), "CID=2".to_string()];
    assert_eq!(assemble_cookie(Some("SEID=9".to_string()), &headers), Some("SEID=9; UID=1; CID=2".to_string()));
    assert_eq!(assemble_cookie(None, &headers), Some("UID=1; CID=2".to_string()));
    assert_eq!(assemble_cookie(Some("SEID=9".to_string()), &vec![]), Some("SEID=9".to_string()));
    assert_eq!(assemble_cookie(None, &vec![]), None);
    assert_eq!(assemble_cookie(Some(String::new()), &vec![";a".to_string()]), None);
}

#[test]
fn login_status_only_authorized_has_cookie() {
    let headers = vec!["UID=1; path=/".to_string()];
    let r = login_status_result(Some(1), None, None, &headers);
    assert_eq!(r.status, "authorized");
    assert_eq!(r.cookie, Some("UID=1".to_string()));
    let r = login_status_result(Some(0), None, None, &headers);
    assert_eq!(r.status, "scanned");
    assert_eq!(r.cookie, None);
    let r = login_status_unreadable();
    assert_eq!(r.status, "waiting");
    assert_eq!(r.cookie, None);
}

#[test]
fn png_signature_check() {
    assert!(is_png(&[0x89, 0x50, 0x4E, 0x47, 0x0D]));
    assert!(!is_png(&[0x89, 0x50, 0x4E]));
    assert!(!is_png(b"{\"state\":false}"));
}

#[test]
fn reply_checks() {
    assert!(cookie_reply_accepts(Some(0), None));
    assert!(cookie_reply_accepts(Some(5), Some(true)));
    assert!(!cookie_reply_accepts(Some(5), Some(false)));
    assert!(html_reply_accepted("<html>115</html>"));
    assert!(!html_reply_accepted("<html>no</html>"));
    assert!(listing_ok(None, Some(0), None));
    assert!(!listing_ok(Some(1), Some(1), Some(false)));
}

#[test]
fn listing_entry_is_read() {
    let e = RawFileEntry {
        cid: None, n: None, name: Some("a.mp4".to_string()), fid_int: None, fid_null: false,
        fid_str: Some("f1".to_string()), s: None, size: Some(42), t: Some(7), update_time: Some(9),
        file_id: Some("f2".to_string()),
    };
    let f = file_info_from(e);
    assert_eq!(f.cid, "");
    assert_eq!(f.name, "a.mp4");
    assert!(f.is_dir);
    assert_eq!(f.size, 42);
    assert_eq!(f.update_time, 7);
    assert_eq!(f.file_id, Some("f1".to_string()));
    let e = RawFileEntry {
        cid: Some("c".to_string()), n: None, name: None, fid_int: Some(5), fid_null: false,
        fid_str: None, s: None, size: None, t: None, update_time: None, file_id: None,
    };
    let f = file_info_from(e);
    assert_eq!(f.name, "未知");
    assert!(!f.is_dir);
    assert_eq!(f.size, 0);
}

#[test]
fn paging_and_expiry() {
    assert_eq!(page_offset(3, 200), 400);
    assert_eq!(page_offset(1, 50), 0);
    assert_eq!(play_url_expiry(1000), 4600);
}

#[test]
fn qrcode_and_play_links() {
    assert_eq!(qrcode_data_url(&[0x89, 0x50, 0x4E, 0x47]), "data:image/png;base64,iVBORw==");
    let p = play_url_from(None, Some("http://v".to_string()), 100).unwrap();
    assert_eq!(p.url, "http://v");
    assert_eq!(p.expire_at, 3700);
    let e = play_url_from(Some(String::new()), Some("http://v".to_string()), 100).err().unwrap();
    assert_eq!(e.code, 2000);
    assert_eq!(e.message, "未获取到播放链接");
}

#[test]
fn listing_reply_entries() {
    let body = r#"{"data":[{"cid":"7","n":"Movies","fid":null},{"cid":"7","name":"a.mp4","fid":"123","s":2048,"t":1700000000},{"fid":0}]}"#;
    let files = listing_entries(body);
    assert_eq!(files.len(), 3);
    assert_eq!(files[0].cid, "7");
    assert_eq!(files[0].name, "Movies");
    assert!(files[0].is_dir);
    assert_eq!(files[0].file_id, None);
    assert_eq!(files[1].name, "a.mp4");
    assert_eq!(files[1].size, 2048);
    assert_eq!(files[1].update_time, 1700000000);
    assert_eq!(files[1].file_id.as_deref(), Some("123"));
    assert_eq!(files[2].cid, "");
    assert_eq!(files[2].name, "未知");
    assert!(files[2].is_dir);
    let nested = listing_entries(r#"{"data":{"data":[{"cid":"1","n":"x","fid":5,"size":9,"update_time":3,"file_id":"f"}]}}"#);
    assert_eq!(nested.len(), 1);
    assert!(!nested[0].is_dir);
    assert_eq!(nested[0].size, 9);
    assert_eq!(nested[0].update_time, 3);
    assert_eq!(nested[0].file_id.as_deref(), Some("f"));
    assert!(listing_entries(r#"{"data":{"count":0}}"#).is_empty());
    assert!(listing_entries("oops").is_empty());
}

#[test]
fn login_poll_reply_bodies() {
    let headers = vec!["UID=1_A; path=/".to_string(), "CID=2; path=/".to_string()];
    let r = login_status_reply("not json", &headers);
    assert_eq!(r.status, "waiting");
    assert_eq!(r.cookie, None);
    let r = login_status_reply(r#"{"data":{"status":0}}"#, &headers);
    assert_eq!(r.status, "scanned");
    assert_eq!(r.cookie, None);
    let r = login_status_reply(r#"{"data":{"status":1}}"#, &headers);
    assert_eq!(r.status, login_status_result(Some(1), None, None, &headers).status);
    assert_eq!(r.cookie, assemble_cookie(None, &headers));
    assert!(r.cookie.is_some());
    let r = login_status_reply(r#"{"status":2}"#, &vec![]);
    assert_eq!(r.status, "expired");
    assert_eq!(login_status_reply("{}", &vec![]).status, "waiting");
}

#[test]
fn drive_replies_are_checked() {
    assert!(cookie_reply("<html>115</html>").is_none());
    assert!(matches!(cookie_reply(r#"{"state":true}"#), Some(Ok(()))));
    assert!(matches!(cookie_reply(r#"{"code":0}"#), Some(Ok(()))));
    let e = cookie_reply(r#"{"state":false,"message":"expired"}"#).unwrap().unwrap_err();
    assert_eq!(e.code, 2100);
    assert_eq!(e.message, "Cookie无效: expired");
    assert_eq!(cookie_reply(r#"{"code":1}"#).unwrap().unwrap_err().message, "Cookie无效: 未知错误");

    let root = root_listing(r#"{"state":0,"data":[{"cid":"1","n":"A"}]}"#).unwrap();
    assert_eq!(root.len(), 1);
    assert_eq!(root[0].name, "A");
    let e = root_listing(r#"{"state":false,"message":"no"}"#).unwrap_err();
    assert_eq!(e.code, 2000);
    assert_eq!(e.message, "获取目录列表失败: no");

    let (files, total) = files_page(r#"{"state":true,"count":7,"data":[{"n":"x"},{"n":"y"}]}"#).unwrap();
    assert_eq!(files.len(), 2);
    assert_eq!(total, 7);
    let (_, total) = files_page(r#"{"code":0,"data":{"count":3,"data":[]}}"#).unwrap();
    assert_eq!(total, 3);
    assert_eq!(files_page(r#"{"state":0}"#).unwrap_err().message, "获取文件列表失败: 未知错误");

    let p = play_url_reply(r#"{"state":true,"data":{"play_url":"http://v"}}"#, 1000).unwrap();
    assert_eq!(p.url, "http://v");
    assert_eq!(p.expire_at, 4600);
    assert_eq!(play_url_reply(r#"{"state":true,"data":{}}"#, 0).unwrap_err().message, "未获取到播放链接");
    assert_eq!(play_url_reply(r#"{"state":false,"message":"m"}"#, 0).unwrap_err().message, "获取播放链接失败: m");
}
