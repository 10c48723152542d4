//! The 115 cloud-drive session: the login cookie, the answer to a QR-code poll, and the
//! checks made on the drive's replies. The HTTP exchanges themselves are made by the caller.

use vstd::prelude::*;
use vstd::string::{StringExecFns, StringSliceAdditionalSpecFns};
use crate::error::{CommandError, NETWORK_ERROR, UNAUTHORIZED};
use crate::json_reply::{
    item_pointer, item_pointer_exec, json_bool, json_bool_of, json_error_of, json_int, json_int_of, json_len, json_len_of,
    json_null, json_null_of, json_text, json_text_of,
};
use crate::text::{chars_of, find, find_exec, string_of, subrange_exec};

verus! {

/// The cookie of the logged-in 115 account, if any.
pub struct CookieSession {
    pub cookie: Option<String>,
}

/// The view of an optional string as optional characters.
pub open spec fn opt_chars(o: Option<String>) -> Option<Seq<char>> {
    match o {
        Some(s) => Some(s@),
        None => None,
    }
}

impl CookieSession {
    /// The cookie as characters, if one is held.
    pub open spec fn held(&self) -> Option<Seq<char>> {
        opt_chars(self.cookie)
    }

    /// A session with no cookie.
    pub fn new() -> (s: Self)
        ensures
            s.held() is None,
    {
        CookieSession { cookie: None }
    }
}

/// Stores `cookie` as the session's cookie, replacing any earlier one.
pub fn set_cookie(session: &mut CookieSession, cookie: &str)
    ensures
        final(session).held() == Some(cookie@),
{
    session.cookie = Some(cookie.to_owned());
}

/// A copy of the session's cookie, if one is held.
pub fn get_cookie(session: &CookieSession) -> (r: Option<String>)
    ensures
        opt_chars(r) == session.held(),
{
    match &session.cookie {
        Some(c) => Some(c.clone()),
        None => None,
    }
}

/// Forgets the session's cookie.
pub fn clear_cookie(session: &mut CookieSession)
    ensures
        final(session).held() is None,
{
    session.cookie = None;
}

/// Whether a cookie is held.
pub fn has_cookie(session: &CookieSession) -> (b: bool)
    ensures
        b == session.held() is Some,
{
    session.cookie.is_some()
}

/// The status word for a QR-code poll code: 0 scanned, 1 authorized, 2 expired, anything
/// else waiting.
pub open spec fn status_word(code: i64) -> Seq<char> {
    if code == 0 {
        "scanned"@
    } else if code == 1 {
        "authorized"@
    } else if code == 2 {
        "expired"@
    } else {
        "waiting"@
    }
}

/// The status word for a QR-code poll code.
pub fn login_status_word(code: i64) -> (r: String)
    ensures
        r@ == status_word(code),
{
    proof {
        reveal_strlit("scanned");
        reveal_strlit("authorized");
        reveal_strlit("expired");
        reveal_strlit("waiting");
    }
    if code == 0 {
        String::from_str("scanned")
    } else if code == 1 {
        String::from_str("authorized")
    } else if code == 2 {
        String::from_str("expired")
    } else {
        String::from_str("waiting")
    }
}

/// The poll code of a reply: `data.status`, else the top-level `status`, else -1.
pub open spec fn poll_code(data_status: Option<i64>, top_status: Option<i64>) -> i64 {
    match data_status {
        Some(c) => c,
        None => match top_status {
            Some(c) => c,
            None => -1i64,
        },
    }
}

/// The poll code of a reply.
pub fn login_poll_code(data_status: Option<i64>, top_status: Option<i64>) -> (r: i64)
    ensures
        r == poll_code(data_status, top_status),
{
    match data_status {
        Some(c) => c,
        None => match top_status {
            Some(c) => c,
            None => -1,
        },
    }
}

/// The part of a `Set-Cookie` header before its first `;`.
pub open spec fn cookie_pair(header: Seq<char>) -> Seq<char> {
    match find(header, seq![';']) {
        Some(i) => header.take(i),
        None => header,
    }
}

/// The name=value pairs of the `Set-Cookie` headers, in order, leaving out empty ones.
pub open spec fn cookie_pairs(headers: Seq<Seq<char>>) -> Seq<Seq<char>>
    decreases headers.len(),
{
    if headers.len() == 0 {
        Seq::empty()
    } else {
        let rest = cookie_pairs(headers.drop_last());
        let p = cookie_pair(headers.last());
        if p.len() == 0 { rest } else { rest.push(p) }
    }
}

/// The pairs joined by `"; "`.
pub open spec fn join_pairs(pairs: Seq<Seq<char>>) -> Seq<char>
    decreases pairs.len(),
{
    if pairs.len() == 0 {
        Seq::empty()
    } else if pairs.len() == 1 {
        pairs[0]
    } else {
        join_pairs(pairs.drop_last()) + "; "@ + pairs.last()
    }
}

/// The cookie of an authorized login: the reply's own cookie and the pairs of the
/// `Set-Cookie` headers, joined by `"; "`; `None` when both are empty.
pub open spec fn assembled_cookie(body_cookie: Option<Seq<char>>, headers: Seq<Seq<char>>) -> Option<Seq<char>> {
    let own = match body_cookie {
        Some(c) => c,
        None => Seq::empty(),
    };
    let pairs = cookie_pairs(headers);
    let all = if pairs.len() == 0 {
        own
    } else if own.len() == 0 {
        join_pairs(pairs)
    } else {
        own + "; "@ + join_pairs(pairs)
    };
    if all.len() == 0 { None } else { Some(all) }
}

/// The view of a vector of strings as a sequence of character sequences.
pub open spec fn strs(v: Seq<String>) -> Seq<Seq<char>> {
    Seq::new(v.len(), |i: int| v[i]@)
}

fn cookie_pair_exec(header: &String) -> (r: Vec<char>)
    ensures
        r@ == cookie_pair(header@),
{
    let cs = chars_of(header.as_str());
    let semi: Vec<char> = vec![';'];
    assert(semi@ == seq![';']);
    proof { crate::text::lemma_find(cs@, semi@); }
    match find_exec(&cs, &semi) {
        Some(i) => {
            let r = subrange_exec(&cs, 0, i);
            assert(r@ == cs@.take(i as int));
            r
        },
        None => cs,
    }
}

/// Builds the cookie of an authorized login from the reply's own cookie and the
/// `Set-Cookie` headers.
pub fn assemble_cookie(body_cookie: Option<String>, headers: &Vec<String>) -> (r: Option<String>)
    ensures
        opt_chars(r) == assembled_cookie(opt_chars(body_cookie), strs(headers@)),
{
    proof { reveal_strlit("; "); }
    let mut joined: Vec<char> = Vec::new();
    let mut count: usize = 0;
    let n = headers.len();
    for k in 0..n
        invariant
            n == headers@.len(),
            count == cookie_pairs(strs(headers@.take(k as int))).len(),
            count <= k,
            count == 0 ==> joined@.len() == 0,
            joined@ == join_pairs(cookie_pairs(strs(headers@.take(k as int)))),
    {
        let ghost prev = strs(headers@.take(k as int));
        assert(strs(headers@.take(k + 1)).drop_last() =~= prev);
        assert(strs(headers@.take(k + 1)).last() == headers@[k as int]@);
        let p = cookie_pair_exec(&headers[k]);
        if p.len() > 0 {
            let ghost j0 = joined@;
            if count > 0 {
                joined.push(';');
                joined.push(' ');
                proof { reveal_strlit("; "); }
                assert(joined@ =~= j0 + "; "@);
            }
            let ghost before = joined@;
            let mut j: usize = 0;
            while j < p.len()
                invariant
                    j <= p@.len(),
                    joined@ == before + p@.take(j as int),
                decreases p@.len() - j,
            {
                joined.push(p[j]);
                j += 1;
                assert(p@.take(j as int) =~= p@.take(j - 1).push(p@[j - 1]));
            }
            assert(p@.take(j as int) =~= p@);
            proof {
                let ps = cookie_pairs(prev);
                assert(cookie_pairs(strs(headers@.take(k + 1))) == ps.push(p@));
                assert(ps.push(p@).drop_last() =~= ps);
                if count == 0 {
                    assert(join_pairs(ps.push(p@)) == p@);
                    assert(joined@ =~= p@);
                } else {
                    assert(before == join_pairs(ps) + "; "@);
                    assert(joined@ =~= join_pairs(ps) + "; "@ + p@);
                }
            }
            count = count + 1;
        } else {
            assert(cookie_pairs(strs(headers@.take(k + 1))) == cookie_pairs(prev));
        }
    }
    assert(headers@.take(n as int) =~= headers@);
    let own: Vec<char> = match &body_cookie {
        Some(c) => chars_of(c.as_str()),
        None => Vec::new(),
    };
    let mut all: Vec<char> = Vec::new();
    if count == 0 {
        all = own;
    } else if own.len() == 0 {
        all = joined;
    } else {
        all = own;
        all.push(';');
        all.push(' ');
        let ghost before = all@;
        let mut j: usize = 0;
        while j < joined.len()
            invariant
                j <= joined@.len(),
                all@ == before + joined@.take(j as int),
            decreases joined@.len() - j,
        {
            all.push(joined[j]);
            j += 1;
            assert(joined@.take(j as int) =~= joined@.take(j - 1).push(joined@[j - 1]));
        }
        assert(joined@.take(j as int) =~= joined@);
    }
    if all.len() == 0 {
        None
    } else {
        Some(string_of(&all))
    }
}

/// The reply to a QR-code poll: the status word, and the cookie once authorized.
pub struct LoginStatusResult {
    pub status: String,
    pub cookie: Option<String>,
}

/// The reply to a poll whose body was read: the status word for its code, and, when the
/// code is 1 (authorized), the assembled cookie.
pub fn login_status_result(data_status: Option<i64>, top_status: Option<i64>, body_cookie: Option<String>, headers: &Vec<String>) -> (r: LoginStatusResult)
    ensures
        r.status@ == status_word(poll_code(data_status, top_status)),
        poll_code(data_status, top_status) == 1 ==> opt_chars(r.cookie) == assembled_cookie(opt_chars(body_cookie), strs(headers@)),
        poll_code(data_status, top_status) != 1 ==> r.cookie is None,
{
    let code = login_poll_code(data_status, top_status);
    let status = login_status_word(code);
    let cookie = if code == 1 { assemble_cookie(body_cookie, headers) } else { None };
    LoginStatusResult { status, cookie }
}

/// The reply to a poll whose body is not JSON: still waiting, no cookie.
pub fn login_status_unreadable() -> (r: LoginStatusResult)
    ensures
        r.status@ == "waiting"@,
        r.cookie is None,
{
    LoginStatusResult { status: login_status_word(-1), cookie: None }
}

/// The reply to a QR-code poll read from its body: a body that is not JSON is still
/// waiting; otherwise `data.status`, `status` and `data.cookie` are read from it.
pub fn login_status_reply(body: &str, headers: &Vec<String>) -> (r: LoginStatusResult)
    ensures
        json_error_of(body@) is Some ==> (r.status@ == "waiting"@ && r.cookie is None),
        json_error_of(body@) is None ==> ({
            let ds = json_int_of(body@, "/data/status"@);
            let ts = json_int_of(body@, "/status"@);
            &&& r.status@ == status_word(poll_code(ds, ts))
            &&& poll_code(ds, ts) == 1 ==> opt_chars(r.cookie) == assembled_cookie(
                json_text_of(body@, "/data/cookie"@),
                strs(headers@),
            )
            &&& poll_code(ds, ts) != 1 ==> r.cookie is None
        }),
{
    if crate::json_reply::json_error(body).is_some() {
        return login_status_unreadable();
    }
    login_status_result(json_int(body, "/data/status"), json_int(body, "/status"), json_text(body, "/data/cookie"), headers)
}

/// The PNG signature `89 50 4E 47`.
pub open spec fn png_signature(b: Seq<u8>) -> bool {
    b.len() >= 4 && b[0] == 0x89u8 && b[1] == 0x50u8 && b[2] == 0x4Eu8 && b[3] == 0x47u8
}

/// Whether the QR-code reply is a PNG image.
pub fn is_png(bytes: &[u8]) -> (b: bool)
    ensures
        b == png_signature(bytes@),
{
    bytes.len() >= 4 && bytes[0] == 0x89u8 && bytes[1] == 0x50u8 && bytes[2] == 0x4Eu8 && bytes[3] == 0x47u8
}

/// Whether a cookie check's JSON reply accepts the cookie: `code` is 0 or `state` is true.
pub fn cookie_reply_accepts(code: Option<i64>, state: Option<bool>) -> (b: bool)
    ensures
        b == (code == Some(0i64) || state == Some(true)),
{
    (match code { Some(c) => c == 0, None => false }) || (match state { Some(s) => s, None => false })
}

/// Whether a successful non-JSON reply to a cookie check is taken as a valid login: it
/// mentions `115`, `user` or `UID`, or is longer than 100 bytes.
pub open spec fn html_reply_accepts(body: Seq<char>, byte_len: int) -> bool {
    crate::text::contains(body, "115"@) || crate::text::contains(body, "user"@)
        || crate::text::contains(body, "UID"@) || byte_len > 100
}

/// Whether a successful non-JSON reply to a cookie check is taken as a valid login.
pub fn html_reply_accepted(body: &str) -> (b: bool)
    ensures
        b == html_reply_accepts(body@, body.spec_bytes().len() as int),
{
    proof {
        reveal_strlit("115");
        reveal_strlit("user");
        reveal_strlit("UID");
    }
    let cs = chars_of(body);
    let a = chars_of("115");
    let u = chars_of("user");
    let d = chars_of("UID");
    crate::text::contains_exec(&cs, &a) || crate::text::contains_exec(&cs, &u)
        || crate::text::contains_exec(&cs, &d) || body.as_bytes().len() > 100
}

/// Whether a listing reply succeeded: `code` is 0, or `state` is 0 or true.
pub fn listing_ok(code: Option<i64>, state_int: Option<i64>, state_bool: Option<bool>) -> (b: bool)
    ensures
        b == (code == Some(0i64) || state_int == Some(0i64) || state_bool == Some(true)),
{
    (match code { Some(c) => c == 0, None => false })
        || (match state_int { Some(s) => s == 0, None => false })
        || (match state_bool { Some(s) => s, None => false })
}

/// A file or folder of the drive.
#[derive(Debug)]
pub struct FileInfo {
    pub cid: String,
    pub name: String,
    pub is_dir: bool,
    pub size: i64,
    pub update_time: i64,
    pub file_id: Option<String>,
}

/// The fields of one listing entry, as the reply holds them.
pub struct RawFileEntry {
    pub cid: Option<String>,
    pub n: Option<String>,
    pub name: Option<String>,
    pub fid_int: Option<i64>,
    pub fid_null: bool,
    pub fid_str: Option<String>,
    pub s: Option<i64>,
    pub size: Option<i64>,
    pub t: Option<i64>,
    pub update_time: Option<i64>,
    pub file_id: Option<String>,
}

/// The first of two optional values that is present.
pub open spec fn first_of<T>(a: Option<T>, b: Option<T>) -> Option<T> {
    match a {
        Some(x) => Some(x),
        None => b,
    }
}

/// A listing entry read as a file: missing `cid` is empty, a missing name is `未知`, it is
/// a folder when `fid` is null or reads as the number 0 (or is absent as a number).
pub fn file_info_from(e: RawFileEntry) -> (f: FileInfo)
    ensures
        f.cid@ == (match opt_chars(e.cid) { Some(c) => c, None => Seq::empty() }),
        f.name@ == (match first_of(opt_chars(e.n), opt_chars(e.name)) { Some(c) => c, None => "未知"@ }),
        f.is_dir == ((match e.fid_int { Some(v) => v, None => 0 }) == 0 || e.fid_null),
        f.size == (match first_of(e.s, e.size) { Some(v) => v, None => 0 }),
        f.update_time == (match first_of(e.t, e.update_time) { Some(v) => v, None => 0 }),
        opt_chars(f.file_id) == first_of(opt_chars(e.fid_str), opt_chars(e.file_id)),
{
    proof { reveal_strlit("未知"); }
    let cid = match e.cid { Some(c) => c, None => String::new() };
    let name = match e.n {
        Some(n) => n,
        None => match e.name { Some(n) => n, None => String::from_str("未知") },
    };
    let is_dir = (match e.fid_int { Some(v) => v, None => 0 }) == 0 || e.fid_null;
    let size = match e.s { Some(v) => v, None => match e.size { Some(v) => v, None => 0 } };
    let update_time = match e.t { Some(v) => v, None => match e.update_time { Some(v) => v, None => 0 } };
    let file_id = match e.fid_str { Some(f) => Some(f), None => e.file_id };
    FileInfo { cid, name, is_dir, size, update_time, file_id }
}

/// The entries array of a listing reply: `data.data`, else `data` itself.
pub open spec fn listing_pointer(t: Seq<char>) -> Option<Seq<char>> {
    if json_len_of(t, "/data/data"@) is Some {
        Some("/data/data"@)
    } else if json_len_of(t, "/data"@) is Some {
        Some("/data"@)
    } else {
        None
    }
}

/// The entry at pointer `p` of a listing reply, as `file_info_from` reads it.
pub open spec fn entry_info(t: Seq<char>, p: Seq<char>, f: FileInfo) -> bool {
    let at = |name: Seq<char>| p + "/"@ + name;
    &&& f.cid@ == (match json_text_of(t, at("cid"@)) { Some(c) => c, None => Seq::empty() })
    &&& f.name@ == (match first_of(json_text_of(t, at("n"@)), json_text_of(t, at("name"@))) {
        Some(c) => c,
        None => "未知"@,
    })
    &&& f.is_dir == ((match json_int_of(t, at("fid"@)) { Some(v) => v, None => 0 }) == 0
        || json_null_of(t, at("fid"@)))
    &&& f.size == (match first_of(json_int_of(t, at("s"@)), json_int_of(t, at("size"@))) { Some(v) => v, None => 0 })
    &&& f.update_time == (match first_of(json_int_of(t, at("t"@)), json_int_of(t, at("update_time"@))) {
        Some(v) => v,
        None => 0,
    })
    &&& opt_chars(f.file_id) == first_of(json_text_of(t, at("fid"@)), json_text_of(t, at("file_id"@)))
}

fn field_ptr(p: &str, name: &str) -> (r: String)
    ensures
        r@ == p@ + "/"@ + name@,
{
    String::from_str(p).concat("/").concat(name)
}

fn entry_at(t: &str, p: &str) -> (f: FileInfo)
    ensures
        entry_info(t@, p@, f),
{
    let fid = field_ptr(p, "fid");
    let raw = RawFileEntry {
        cid: json_text(t, field_ptr(p, "cid").as_str()),
        n: json_text(t, field_ptr(p, "n").as_str()),
        name: json_text(t, field_ptr(p, "name").as_str()),
        fid_int: json_int(t, fid.as_str()),
        fid_null: json_null(t, fid.as_str()),
        fid_str: json_text(t, fid.as_str()),
        s: json_int(t, field_ptr(p, "s").as_str()),
        size: json_int(t, field_ptr(p, "size").as_str()),
        t: json_int(t, field_ptr(p, "t").as_str()),
        update_time: json_int(t, field_ptr(p, "update_time").as_str()),
        file_id: json_text(t, field_ptr(p, "file_id").as_str()),
    };
    file_info_from(raw)
}

/// The files of a listing reply, in order: the elements of `data.data`, else of `data`,
/// each read by `file_info_from`; none when neither is an array.
pub fn listing_entries(body: &str) -> (r: Vec<FileInfo>)
    ensures
        match listing_pointer(body@) {
            None => r@.len() == 0,
            Some(p) => json_len_of(body@, p) == Some(r@.len())
                && forall|k: int| 0 <= k < r@.len() ==> #[trigger] entry_info(body@, item_pointer(p, k as nat), r@[k]),
        },
{
    let p: &str = if json_len(body, "/data/data").is_some() {
        "/data/data"
    } else if json_len(body, "/data").is_some() {
        "/data"
    } else {
        return Vec::new();
    };
    let n = match json_len(body, p) {
        Some(n) => n,
        None => 0,
    };
    let mut r: Vec<FileInfo> = Vec::new();
    for k in 0..n
        invariant
            r@.len() == k,
            forall|j: int| 0 <= j < k ==> #[trigger] entry_info(body@, item_pointer(p@, j as nat), r@[j]),
    {
        let ip = item_pointer_exec(p, k);
        r.push(entry_at(body, ip.as_str()));
    }
    r
}

/// The `message` of a reply, or `未知错误` when it has none.
pub open spec fn reply_message(t: Seq<char>) -> Seq<char> {
    match json_text_of(t, "/message"@) {
        Some(m) => m,
        None => "未知错误"@,
    }
}

fn reply_message_exec(t: &str) -> (r: String)
    ensures
        r@ == reply_message(t@),
{
    proof { reveal_strlit("未知错误"); }
    match json_text(t, "/message") {
        Some(m) => m,
        None => String::from_str("未知错误"),
    }
}

fn failed(what: &str, t: &str) -> (e: CommandError)
    ensures
        e.code == NETWORK_ERROR,
        e.message@ == what@ + reply_message(t@),
{
    let m = String::from_str(what).concat(reply_message_exec(t).as_str());
    CommandError::network(m.as_str())
}

/// The reply to a cookie check, when it is JSON: accepted when `code` is 0 or `state` is
/// true, else the error `Cookie无效: <message>`; `None` when the reply is not JSON.
pub fn cookie_reply(body: &str) -> (r: Option<Result<(), CommandError>>)
    ensures
        json_error_of(body@) is Some ==> r is None,
        json_error_of(body@) is None ==> (if json_int_of(body@, "/code"@) == Some(0i64) || json_bool_of(body@, "/state"@) == Some(true) {
            r matches Some(Ok(()))
        } else {
            r matches Some(Err(e)) && e.code == UNAUTHORIZED && e.message@ == "Cookie无效: "@ + reply_message(body@)
        }),
{
    if crate::json_reply::json_error(body).is_some() {
        return None;
    }
    if cookie_reply_accepts(json_int(body, "/code"), json_bool(body, "/state")) {
        Some(Ok(()))
    } else {
        let m = String::from_str("Cookie无效: ").concat(reply_message_exec(body).as_str());
        Some(Err(CommandError::unauthorized(m.as_str())))
    }
}

/// The root folder's entries from its listing reply: unless `code` is 0 or `state` is 0
/// or true, the error `获取目录列表失败: <message>`.
pub fn root_listing(body: &str) -> (r: Result<Vec<FileInfo>, CommandError>)
    ensures
        ({
            let ok = json_int_of(body@, "/code"@) == Some(0i64) || json_int_of(body@, "/state"@) == Some(0i64)
                || json_bool_of(body@, "/state"@) == Some(true);
            &&& !ok ==> (r matches Err(e) && e.code == NETWORK_ERROR && e.message@ == "获取目录列表失败: "@ + reply_message(body@))
            &&& ok ==> (r matches Ok(v) && match listing_pointer(body@) {
                None => v@.len() == 0,
                Some(p) => json_len_of(body@, p) == Some(v@.len())
                    && forall|k: int| 0 <= k < v@.len() ==> #[trigger] entry_info(body@, item_pointer(p, k as nat), v@[k]),
            })
        }),
{
    if !listing_ok(json_int(body, "/code"), json_int(body, "/state"), json_bool(body, "/state")) {
        return Err(failed("获取目录列表失败: ", body));
    }
    Ok(listing_entries(body))
}

/// The total a folder listing reports: `data.count`, else `count`, else 0.
pub open spec fn listing_total(t: Seq<char>) -> i64 {
    match json_int_of(t, "/data/count"@) {
        Some(c) => c,
        None => match json_int_of(t, "/count"@) {
            Some(c) => c,
            None => 0,
        },
    }
}

/// One page of a folder from its listing reply, with the reported total: unless `code`
/// is 0 or `state` is true, the error `获取文件列表失败: <message>`.
pub fn files_page(body: &str) -> (r: Result<(Vec<FileInfo>, i64), CommandError>)
    ensures
        ({
            let ok = json_int_of(body@, "/code"@) == Some(0i64) || json_bool_of(body@, "/state"@) == Some(true);
            &&& !ok ==> (r matches Err(e) && e.code == NETWORK_ERROR && e.message@ == "获取文件列表失败: "@ + reply_message(body@))
            &&& ok ==> (r matches Ok((v, total)) && total == listing_total(body@) && match listing_pointer(body@) {
                None => v@.len() == 0,
                Some(p) => json_len_of(body@, p) == Some(v@.len())
                    && forall|k: int| 0 <= k < v@.len() ==> #[trigger] entry_info(body@, item_pointer(p, k as nat), v@[k]),
            })
        }),
{
    if !listing_ok(json_int(body, "/code"), None, json_bool(body, "/state")) {
        return Err(failed("获取文件列表失败: ", body));
    }
    let total = match json_int(body, "/data/count") {
        Some(c) => c,
        None => match json_int(body, "/count") {
            Some(c) => c,
            None => 0,
        },
    };
    Ok((listing_entries(body), total))
}

/// The offset of a listing page: `(page - 1) * page_size`.
pub fn page_offset(page: i64, page_size: i64) -> (r: i64)
    requires
        i64::MIN <= (page - 1) * page_size <= i64::MAX,
        page > i64::MIN,
    ensures
        r == (page - 1) * page_size,
{
    (page - 1) * page_size
}

/// When a play link fetched at `now` expires: an hour later.
pub fn play_url_expiry(now: i64) -> (r: i64)
    requires
        now <= i64::MAX - 3600,
    ensures
        r == now + 3600,
{
    now + 3600
}

/// The QR-code image as a data URL: `data:image/png;base64,` and the image in base64.
pub fn qrcode_data_url(png: &[u8]) -> (r: String)
    requires
        png@.len() < usize::MAX / 2,
    ensures
        r@ == "data:image/png;base64,"@ + crate::crypto::b64_encoded(png@),
{
    let b = crate::crypto::b64_encode(png);
    String::from_str("data:image/png;base64,").concat(b.as_str())
}

/// A QR code to scan: its image as a data URL and the id its status is polled with.
pub struct QrCodeResult {
    pub qrcode_url: String,
    pub uid: String,
}

/// A playable link and when it expires.
#[derive(Debug)]
pub struct PlayUrlResult {
    pub url: String,
    pub expire_at: i64,
}

/// The playable link of a download reply: `data.url`, else `data.play_url`; a missing or
/// empty link is the network error `未获取到播放链接`. The link expires an hour after `now`.
pub fn play_url_from(url: Option<String>, play_url: Option<String>, now: i64) -> (r: Result<PlayUrlResult, crate::error::CommandError>)
    requires
        now <= i64::MAX - 3600,
    ensures
        ({
            let link = match opt_chars(url) { Some(u) => u, None => match opt_chars(play_url) { Some(p) => p, None => Seq::empty() } };
            &&& link.len() > 0 ==> (r matches Ok(p) && p.url@ == link && p.expire_at == now + 3600)
            &&& link.len() == 0 ==> (r matches Err(e) && e.code == crate::error::NETWORK_ERROR && e.message@ == "未获取到播放链接"@)
        }),
{
    let link = match url {
        Some(u) => u,
        None => match play_url { Some(p) => p, None => String::new() },
    };
    if link.as_str().is_empty() {
        return Err(crate::error::CommandError::network("未获取到播放链接"));
    }
    Ok(PlayUrlResult { url: link, expire_at: play_url_expiry(now) })
}

/// The playable link from a download reply at time `now`: unless `code` is 0 or `state`
/// is true, the error `获取播放链接失败: <message>`; otherwise `data.url`, else
/// `data.play_url`, as `play_url_from` takes them.
pub fn play_url_reply(body: &str, now: i64) -> (r: Result<PlayUrlResult, CommandError>)
    requires
        now <= i64::MAX - 3600,
    ensures
        ({
            let ok = json_int_of(body@, "/code"@) == Some(0i64) || json_bool_of(body@, "/state"@) == Some(true);
            let link = match json_text_of(body@, "/data/url"@) {
                Some(u) => u,
                None => match json_text_of(body@, "/data/play_url"@) { Some(p) => p, None => Seq::empty() },
            };
            &&& !ok ==> (r matches Err(e) && e.code == NETWORK_ERROR && e.message@ == "获取播放链接失败: "@ + reply_message(body@))
            &&& ok && link.len() > 0 ==> (r matches Ok(p) && p.url@ == link && p.expire_at == now + 3600)
            &&& ok && link.len() == 0 ==> (r matches Err(e) && e.code == NETWORK_ERROR && e.message@ == "未获取到播放链接"@)
        }),
{
    if !listing_ok(json_int(body, "/code"), None, json_bool(body, "/state")) {
        return Err(failed("获取播放链接失败: ", body));
    }
    play_url_from(json_text(body, "/data/url"), json_text(body, "/data/play_url"), now)
}

/// The links refreshed ahead of time are those that expire before this moment: ten
/// minutes from now.
pub fn refresh_threshold(now: i64) -> (t: i64)
    requires
        now <= i64::MAX - 600,
    ensures
        t == now + 600,
{
    now + 600
}

} // verus!
