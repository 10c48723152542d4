//! Settings and small services around them: the defaults written on first start, image
//! files shown from local folders, and the translation fallback's address.

use vstd::prelude::*;
use vstd::string::StringExecFns;
use crate::sql::{arg_specs, ArgSpec, SqlArg, Statement};
use crate::text::chars_of;

verus! {

/// The settings written when the database is created, as (key, value).
pub open spec fn default_settings() -> Seq<(Seq<char>, Seq<char>)> {
    seq![
        ("db_version"@, "5"@),
        ("scan_depth"@, "5"@),
        ("cache_max_size"@, "2147483648"@),
        ("theme"@, "dark"@),
        ("poster_size"@, "medium"@),
        ("font_size"@, "14"@),
        ("auto_start"@, "false"@),
        ("privacy_title"@, "智能网盘影视库"@),
        ("privacy_tray"@, "智能网盘影视库"@),
        ("proxy_enabled"@, "false"@),
        ("external_player"@, ""@),
        ("scrape_sources"@, "[\"tmdb\",\"imdb\",\"douban\",\"javbus\",\"javdb\",\"fanza\",\"airav\",\"xcity\",\"mgstage\",\"fc2\",\"jav321\",\"javlibrary\",\"arzon\"]"@),
        ("video_extensions"@, "[\"mp4\",\"mkv\",\"avi\",\"mov\",\"rmvb\",\"flv\",\"wmv\",\"ts\",\"iso\",\"m2ts\"]"@),
        ("use_system_credential"@, "0"@),
        ("auto_resume_tasks"@, "1"@),
        ("playback_refresh_interval"@, "240"@),
        ("local_actor_base_dir"@, "D:\\Media Library\\Actor Information\\picture"@),
        ("auto_create_actors_from_scrape"@, "1"@),
        ("actor_pending_review"@, "1"@),
        ("allow_app_rename_actor_folders"@, "0"@),
        ("actor_merge_auto_merge_folders"@, "1"@),
        ("actor_merge_file_naming_pattern"@, "{name}_{index}{ext}"@),
        ("actor_merge_dry_run"@, "1"@),
    ]
}

/// The view of settings.
pub open spec fn pairs_view(v: Seq<(String, String)>) -> Seq<(Seq<char>, Seq<char>)> {
    Seq::new(v.len(), |i: int| (v[i].0@, v[i].1@))
}

fn push_pair(v: &mut Vec<(String, String)>, k: &str, val: &str)
    ensures
        pairs_view(final(v)@) == pairs_view(old(v)@).push((k@, val@)),
{
    let ghost before = pairs_view(v@);
    v.push((String::from_str(k), String::from_str(val)));
    assert(pairs_view(v@) =~= before.push((k@, val@)));
}

/// The settings written when the database is created.
pub fn default_config() -> (r: Vec<(String, String)>)
    ensures
        pairs_view(r@) == default_settings(),
{
    let mut v: Vec<(String, String)> = Vec::new();
    assert(pairs_view(v@) =~= Seq::<(Seq<char>, Seq<char>)>::empty());
    push_pair(&mut v, "db_version", "5");
    push_pair(&mut v, "scan_depth", "5");
    push_pair(&mut v, "cache_max_size", "2147483648");
    push_pair(&mut v, "theme", "dark");
    push_pair(&mut v, "poster_size", "medium");
    push_pair(&mut v, "font_size", "14");
    push_pair(&mut v, "auto_start", "false");
    push_pair(&mut v, "privacy_title", "智能网盘影视库");
    push_pair(&mut v, "privacy_tray", "智能网盘影视库");
    push_pair(&mut v, "proxy_enabled", "false");
    push_pair(&mut v, "external_player", "");
    push_pair(&mut v, "scrape_sources", "[\"tmdb\",\"imdb\",\"douban\",\"javbus\",\"javdb\",\"fanza\",\"airav\",\"xcity\",\"mgstage\",\"fc2\",\"jav321\",\"javlibrary\",\"arzon\"]");
    push_pair(&mut v, "video_extensions", "[\"mp4\",\"mkv\",\"avi\",\"mov\",\"rmvb\",\"flv\",\"wmv\",\"ts\",\"iso\",\"m2ts\"]");
    push_pair(&mut v, "use_system_credential", "0");
    push_pair(&mut v, "auto_resume_tasks", "1");
    push_pair(&mut v, "playback_refresh_interval", "240");
    push_pair(&mut v, "local_actor_base_dir", "D:\\Media Library\\Actor Information\\picture");
    push_pair(&mut v, "auto_create_actors_from_scrape", "1");
    push_pair(&mut v, "actor_pending_review", "1");
    push_pair(&mut v, "allow_app_rename_actor_folders", "0");
    push_pair(&mut v, "actor_merge_auto_merge_folders", "1");
    push_pair(&mut v, "actor_merge_file_naming_pattern", "{name}_{index}{ext}");
    push_pair(&mut v, "actor_merge_dry_run", "1");
    v
}

/// The statement that writes one default setting unless the key is already set; it binds
/// the key, the value and the time.
pub fn seed_statement(key: &str, value: &str, now: i64) -> (st: Statement)
    ensures
        st.sql@ == "INSERT OR IGNORE INTO config (key, value, use_system_credential, updated_at) VALUES (?1, ?2, 0, ?3)"@,
        arg_specs(st.args@) == seq![ArgSpec::Text(key@), ArgSpec::Text(value@), ArgSpec::Int(now as int)],
{
    let mut args: Vec<SqlArg> = Vec::new();
    args.push(SqlArg::Text(String::from_str(key)));
    args.push(SqlArg::Text(String::from_str(value)));
    args.push(SqlArg::Int(now));
    assert(arg_specs(args@) =~= seq![ArgSpec::Text(key@), ArgSpec::Text(value@), ArgSpec::Int(now as int)]);
    Statement {
        sql: String::from_str("INSERT OR IGNORE INTO config (key, value, use_system_credential, updated_at) VALUES (?1, ?2, 0, ?3)"),
        args,
    }
}

/// The extensions of the image files a folder view lists, compared in lower case.
pub open spec fn is_image_extension(lower_ext: Seq<char>) -> bool {
    lower_ext == "jpg"@ || lower_ext == "jpeg"@ || lower_ext == "png"@ || lower_ext == "webp"@
        || lower_ext == "gif"@ || lower_ext == "bmp"@
}

/// Whether a file with this extension is listed as an image: its lower-case form is one
/// of `jpg`, `jpeg`, `png`, `webp`, `gif`, `bmp`.
pub fn is_listed_image(ext: &str) -> (b: bool)
    ensures
        b == is_image_extension(crate::text::str_lower(ext@)),
{
    let low = crate::text::lower_string(ext);
    let l = chars_of(low.as_str());
    crate::text::chars_eq(&l, &chars_of("jpg")) || crate::text::chars_eq(&l, &chars_of("jpeg"))
        || crate::text::chars_eq(&l, &chars_of("png")) || crate::text::chars_eq(&l, &chars_of("webp"))
        || crate::text::chars_eq(&l, &chars_of("gif")) || crate::text::chars_eq(&l, &chars_of("bmp"))
}

/// A local image as a data URL: `data:image/<ext>;base64,<image>`, the extension `jpg`
/// when the file has none.
pub fn image_data_url(ext: Option<&str>, bytes: &[u8]) -> (r: String)
    requires
        bytes@.len() < usize::MAX / 2,
    ensures
        r@ == "data:image/"@ + (match ext { Some(e) => e@, None => "jpg"@ }) + ";base64,"@ + crate::crypto::b64_encoded(bytes@),
{
    let e = match ext { Some(e) => e, None => "jpg" };
    let b = crate::crypto::b64_encode(bytes);
    String::from_str("data:image/").concat(e).concat(";base64,").concat(b.as_str())
}

/// The address of the fallback translator for a text, percent-encoded per UTF-8 byte.
pub fn google_translate_url(text: &str) -> (r: String)
    ensures
        r@ == "https://translate.googleapis.com/translate_a/single?client=gtx&sl=auto&tl=zh-CN&dt=t&q="@
            + crate::url_encoding::encode_uri_bytes(vstd::utf8::encode_utf8(text@)),
{
    let q = crate::url_encoding::encode_uri(text);
    String::from_str("https://translate.googleapis.com/translate_a/single?client=gtx&sl=auto&tl=zh-CN&dt=t&q=").concat(q.as_str())
}

/// The proxy the MetaTube service is started with: `http://host:port` when the proxy is
/// enabled (`true`) and a host is set.
pub fn proxy_url(enabled: &str, host: &str, port: &str) -> (r: Option<String>)
    ensures
        (enabled@ == "true"@ && host@.len() > 0) ==> (r matches Some(u) && u@ == "http://"@ + host@ + ":"@ + port@),
        !(enabled@ == "true"@ && host@.len() > 0) ==> r is None,
{
    if crate::text::chars_eq(&chars_of(enabled), &chars_of("true")) && !host.is_empty() {
        Some(String::from_str("http://").concat(host).concat(":").concat(port))
    } else {
        None
    }
}

/// std's `SystemTime`, carried through opaquely.
#[verifier::external_type_specification]
#[verifier::external_body]
pub struct ExSystemTime(std::time::SystemTime);

/// std's `SystemTime::now()`. Nothing is claimed of the value: it is the clock's reading.
#[verifier::external_body]
fn system_now() -> (r: std::time::SystemTime)
{
    std::time::SystemTime::now()
}

/// std's `SystemTime::duration_since(UNIX_EPOCH)`, its error (a clock reading before 1970)
/// given as `None`. Nothing is claimed of the duration.
#[verifier::external_body]
fn since_epoch(t: &std::time::SystemTime) -> (r: Option<std::time::Duration>)
{
    t.duration_since(std::time::UNIX_EPOCH).ok()
}

/// std's `Duration::as_secs`, the whole seconds of a duration. Nothing is claimed of the
/// number.
#[verifier::external_body]
fn whole_secs(d: &std::time::Duration) -> (r: u64)
{
    d.as_secs()
}

/// Whole seconds since 1970 as an `i64`: `None` when they do not fit.
pub fn unix_seconds(secs: u64) -> (r: Option<i64>)
    ensures
        r == unix_seconds_of(secs),
{
    if secs <= 9223372036854775807u64 { Some(secs as i64) } else { None }
}

/// The time as Unix seconds: the clock's whole seconds since 1970, given by
/// `unix_seconds`; `None` when the clock reads before 1970. Which seconds the clock gives
/// is not claimed: they are the clock's reading.
pub fn now_ts() -> (r: Option<i64>)
    ensures
        r matches Some(t) ==> t >= 0,
        r is None || exists|secs: u64| r == unix_seconds_of(secs),
{
    let now = system_now();
    match since_epoch(&now) {
        Some(d) => unix_seconds(whole_secs(&d)),
        None => None,
    }
}

/// What `unix_seconds` gives for `secs`.
pub open spec fn unix_seconds_of(secs: u64) -> Option<i64> {
    if secs <= i64::MAX as u64 { Some(secs as i64) } else { None::<i64> }
}

/// The report of a MetaTube update: the pull's output and the built program's path.
pub fn sdk_update_message(git_output: &str, exe_path: &str) -> (r: String)
    ensures
        r@ == "MetaTube SDK 更新成功！\ngit: "@ + git_output@ + "\n编译产物: "@ + exe_path@,
{
    String::from_str("MetaTube SDK 更新成功！\ngit: ").concat(git_output).concat("\n编译产物: ").concat(exe_path)
}

} // verus!
