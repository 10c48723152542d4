//! The JpHoo search API: its credentials, its request, and the answer built from the
//! first item of its reply. The request is made, and the JSON read, by the caller.

use vstd::prelude::*;
use vstd::string::StringExecFns;
use vstd::utf8::{decode_utf8, encode_utf8, is_char_boundary};
use crate::error::{CommandError, SCRAPE_FAILED};
use crate::json_reply::{
    field_list, field_list_of, json_error, json_error_of, json_int, json_int_of, json_len, json_len_of, json_text, json_text_of,
    text_list, text_list_of,
};
use crate::scrape::{str_seqs, ScrapeResult};
use crate::text::{chars_of, parse_i32, parse_i32_exec, string_of, trim, trim_exec};

verus! {

/// The fields of the first item of a JpHoo reply that the answer is built from; the
/// actor and tag lists hold the names the reply gives as strings.
#[derive(Debug)]
pub struct JphooItem {
    pub title: Option<String>,
    pub name: Option<String>,
    pub release_date: Option<String>,
    pub year: Option<String>,
    pub cover: Option<String>,
    pub img: Option<String>,
    pub image: Option<String>,
    pub description: Option<String>,
    pub duration: Option<i64>,
    pub actor_names: Vec<String>,
    pub actress_list: Vec<String>,
    pub tags: Vec<String>,
}

/// The view of an optional string.
pub open spec fn ov(o: Option<String>) -> Option<Seq<char>> {
    match o {
        Some(s) => Some(s@),
        None => None,
    }
}

/// The first of two optional values that is present.
pub open spec fn either<T>(a: Option<T>, b: Option<T>) -> Option<T> {
    match a {
        Some(x) => Some(x),
        None => b,
    }
}

/// The three credentials, trimmed, are all set.
pub open spec fn credentials_set(secret: Seq<char>, refresh: Seq<char>, guest: Seq<char>) -> bool {
    trim(secret).len() > 0 && trim(refresh).len() > 0 && trim(guest).len() > 0
}

/// Checks that the credentials are configured; if not, the scrape fails with a message
/// that says where to set them.
pub fn check_credentials(secret: &str, refresh: &str, guest: &str) -> (r: Result<(), CommandError>)
    ensures
        credentials_set(secret@, refresh@, guest@) ==> r is Ok,
        !credentials_set(secret@, refresh@, guest@) ==> (r matches Err(e) && e.code == SCRAPE_FAILED
            && e.message@ == "JpHoo未配置secret/refreshtoken/guestid，请在设置→刮削源中配置"@),
{
    let a = trim_exec(&chars_of(secret));
    let b = trim_exec(&chars_of(refresh));
    let c = trim_exec(&chars_of(guest));
    if a.len() == 0 || b.len() == 0 || c.len() == 0 {
        return Err(CommandError::scrape_failed("JpHoo未配置secret/refreshtoken/guestid，请在设置→刮削源中配置"));
    }
    Ok(())
}

/// The search address for a code.
pub fn search_url(code: &str) -> (r: String)
    ensures
        r@ == "https://www.jphoo1.com/prod-api/v2/search/list?pageNum=1&pageSize=24&operationName=works&keyword="@ + code@,
{
    String::from_str("https://www.jphoo1.com/prod-api/v2/search/list?pageNum=1&pageSize=24&operationName=works&keyword=").concat(code)
}

/// The request nonce for a random number: a ten-digit number from 1000000000 on.
pub fn nonce_of(random: u64) -> (n: u64)
    ensures
        n == 1_000_000_000 + random % 9_000_000_000,
        1_000_000_000 <= n < 10_000_000_000,
{
    1_000_000_000u64 + random % 9_000_000_000u64
}

/// The reply from its first `{` on (the whole reply when it has none).
pub open spec fn json_part(body: Seq<char>) -> Seq<char> {
    match crate::text::find(body, seq!['{']) {
        Some(i) => body.skip(i),
        None => body,
    }
}

/// The reply from its first `{` on.
pub fn json_start(body: &str) -> (r: String)
    ensures
        r@ == json_part(body@),
{
    let cs = chars_of(body);
    let n = cs.len();
    let brace: Vec<char> = vec!['{'];
    assert(brace@ =~= seq!['{']);
    proof { crate::text::lemma_find(cs@, brace@); }
    match crate::text::find_exec(&cs, &brace) {
        Some(i) => {
            let r = crate::text::subrange_exec(&cs, i, n);
            assert(r@ =~= cs@.skip(i as int));
            string_of(&r)
        },
        None => string_of(&cs),
    }
}

/// The item's date, when it has one: its release date, else its year.
pub open spec fn item_date(item: JphooItem) -> Option<Seq<char>> {
    either(ov(item.release_date), ov(item.year))
}

/// The item's date can be cut after four bytes (`&d[..4]` does not panic).
pub open spec fn date_cut_ok(item: JphooItem) -> bool {
    item_date(item) matches Some(d) ==> encode_utf8(d).len() >= 4 && is_char_boundary(encode_utf8(d), 4)
}

/// The answer built from an item: its title (else name, else the query), the year from
/// the first four bytes of its date, its cover (else img, else image) made absolute, its
/// description, its duration as minutes (truncated to 32 bits), its actors (named
/// objects, then plain names) and tags, absent when empty, from source `jphoo`, score 70.
pub open spec fn jphoo_answer(item: JphooItem, query: Seq<char>, r: ScrapeResult) -> bool {
    let actors = str_seqs(item.actor_names@) + str_seqs(item.actress_list@);
    let tags = str_seqs(item.tags@);
    &&& r.source@ == "jphoo"@
    &&& r.title@ == (match either(ov(item.title), ov(item.name)) { Some(t) => t, None => query })
    &&& r.year == (match item_date(item) {
            Some(d) => match parse_i32(decode_utf8(encode_utf8(d).take(4))) { Some(v) => Some(v as i32), None => None },
            None => None,
        })
    &&& ov(r.poster_url) == (match either(ov(item.cover), either(ov(item.img), ov(item.image))) {
            Some(p) => Some(if crate::javbus::starts_with(p, "http"@) { p } else { "https://www.jphoo1.com"@ + p }),
            None => None,
        })
    &&& r.backdrop_url is None
    &&& ov(r.overview) == ov(item.description)
    &&& r.rating is None
    &&& r.runtime == (match item.duration { Some(v) => Some(v as i32), None => None })
    &&& r.director is None
    &&& (if tags.len() == 0 { r.genre is None } else { r.genre matches Some(g) && str_seqs(g@) == tags })
    &&& (if actors.len() == 0 { r.actors is None } else { r.actors matches Some(a) && str_seqs(a@) == actors })
    &&& r.score == 70
}

fn opt_first(a: &Option<String>, b: &Option<String>) -> (r: Option<String>)
    ensures
        ov(r) == either(ov(*a), ov(*b)),
{
    match a {
        Some(x) => Some(x.clone()),
        None => match b {
            Some(y) => Some(y.clone()),
            None => None,
        },
    }
}

fn clone_all(v: &Vec<String>, into: &mut Vec<String>)
    ensures
        str_seqs(final(into)@) == str_seqs(old(into)@) + str_seqs(v@),
{
    let ghost start = str_seqs(into@);
    for k in 0..v.len()
        invariant
            str_seqs(into@) == start + str_seqs(v@).take(k as int),
    {
        let ghost before = str_seqs(into@);
        into.push(v[k].clone());
        assert(str_seqs(into@) =~= before.push(v@[k as int]@));
        assert(str_seqs(v@).take(k + 1) =~= str_seqs(v@).take(k as int).push(v@[k as int]@));
    }
    assert(str_seqs(v@).take(v@.len() as int) =~= str_seqs(v@));
}

/// Builds the answer from the first item of a reply.
pub fn jphoo_result(item: &JphooItem, query: &str) -> (r: ScrapeResult)
    requires
        date_cut_ok(*item),
    ensures
        jphoo_answer(*item, query@, r),
{
    broadcast use vstd::utf8::encode_utf8_valid_utf8;
    let title = match opt_first(&item.title, &item.name) {
        Some(t) => t,
        None => String::from_str(query),
    };
    let year = match opt_first(&item.release_date, &item.year) {
        Some(d) => {
            let ds = d.as_str();
            let head = crate::text::byte_slice(ds, 0, 4);
            proof {
                crate::text::lemma_slice_view(ds, head, 0, 4);
                assert(encode_utf8(d@).subrange(0, 4) =~= encode_utf8(d@).take(4));
            }
            parse_i32_exec(&chars_of(head))
        },
        None => None,
    };
    let img = opt_first(&item.img, &item.image);
    let poster = match opt_first(&item.cover, &img) {
        Some(p) => {
            let pc = chars_of(p.as_str());
            let h = chars_of("http");
            let is_abs = if h.len() > pc.len() {
                false
            } else {
                let head = crate::text::subrange_exec(&pc, 0, h.len());
                assert(head@ =~= pc@.take(h@.len() as int));
                crate::text::chars_eq(&head, &h)
            };
            if is_abs { Some(p) } else { Some(String::from_str("https://www.jphoo1.com").concat(p.as_str())) }
        },
        None => None,
    };
    let overview = match &item.description { Some(d) => Some(d.clone()), None => None };
    #[verifier::truncate]
    let runtime = match item.duration { Some(v) => Some(v as i32), None => None };
    let mut actors: Vec<String> = Vec::new();
    clone_all(&item.actor_names, &mut actors);
    clone_all(&item.actress_list, &mut actors);
    assert(str_seqs(actors@) =~= str_seqs(item.actor_names@) + str_seqs(item.actress_list@));
    let mut genres: Vec<String> = Vec::new();
    clone_all(&item.tags, &mut genres);
    assert(str_seqs(genres@) =~= str_seqs(item.tags@));
    ScrapeResult {
        source: String::from_str("jphoo"),
        title,
        year,
        poster_url: poster,
        backdrop_url: None,
        overview,
        rating: None,
        runtime,
        director: None,
        genre: if genres.len() == 0 { None } else { Some(genres) },
        actors: if actors.len() == 0 { None } else { Some(actors) },
        score: 70,
    }
}

/// Where a JpHoo reply keeps its list: `data.list`, else `data.rows`, else `data` itself,
/// the first that is an array.
pub open spec fn list_pointer(t: Seq<char>) -> Option<Seq<char>> {
    if json_len_of(t, "/data/list"@) is Some {
        Some("/data/list"@)
    } else if json_len_of(t, "/data/rows"@) is Some {
        Some("/data/rows"@)
    } else if json_len_of(t, "/data"@) is Some {
        Some("/data"@)
    } else {
        None
    }
}

/// The first item of the list at `p` as read: its string fields, its integer duration,
/// the names of its actors, its actress list and its tags.
pub open spec fn item_read(t: Seq<char>, p: Seq<char>, item: JphooItem) -> bool {
    let f = |name: Seq<char>| p + "/0/"@ + name;
    &&& ov(item.title) == json_text_of(t, f("title"@))
    &&& ov(item.name) == json_text_of(t, f("name"@))
    &&& ov(item.release_date) == json_text_of(t, f("releaseDate"@))
    &&& ov(item.year) == json_text_of(t, f("year"@))
    &&& ov(item.cover) == json_text_of(t, f("cover"@))
    &&& ov(item.img) == json_text_of(t, f("img"@))
    &&& ov(item.image) == json_text_of(t, f("image"@))
    &&& ov(item.description) == json_text_of(t, f("description"@))
    &&& item.duration == json_int_of(t, f("duration"@))
    &&& str_seqs(item.actor_names@) == field_list_of(t, f("actors"@), "name"@)
    &&& str_seqs(item.actress_list@) == text_list_of(t, f("actressList"@))
    &&& str_seqs(item.tags@) == text_list_of(t, f("tags"@))
}

fn field_at(t: &str, p: &str, name: &str) -> (r: Option<String>)
    ensures
        ov(r) == json_text_of(t@, p@ + "/0/"@ + name@),
{
    let q = String::from_str(p).concat("/0/").concat(name);
    json_text(t, q.as_str())
}

fn pointer_to(p: &str, name: &str) -> (r: String)
    ensures
        r@ == p@ + "/0/"@ + name@,
{
    String::from_str(p).concat("/0/").concat(name)
}

/// The first item of a JpHoo reply (read from its first `{`). A reply that is not JSON
/// fails with `JpHoo JSON解析失败: <error>`, one without a list with `JpHoo返回格式异常`,
/// and one with an empty list with `JpHoo无结果`.
pub fn jphoo_first_item(body: &str) -> (r: Result<JphooItem, CommandError>)
    ensures
        ({
            let t = json_part(body@);
            &&& json_error_of(t) matches Some(e) ==> (r matches Err(x) && x.code == SCRAPE_FAILED
                && x.message@ == "JpHoo JSON解析失败: "@ + e)
            &&& json_error_of(t) is None ==> match list_pointer(t) {
                None => r matches Err(x) && x.code == SCRAPE_FAILED && x.message@ == "JpHoo返回格式异常"@,
                Some(p) => if json_len_of(t, p) == Some(0nat) {
                    r matches Err(x) && x.code == SCRAPE_FAILED && x.message@ == "JpHoo无结果"@
                } else {
                    r matches Ok(item) && item_read(t, p, item)
                },
            }
        }),
{
    let t = json_start(body);
    let ts = t.as_str();
    if let Some(e) = json_error(ts) {
        let m = String::from_str("JpHoo JSON解析失败: ").concat(e.as_str());
        return Err(CommandError::scrape_failed(m.as_str()));
    }
    let p: &str = if json_len(ts, "/data/list").is_some() {
        "/data/list"
    } else if json_len(ts, "/data/rows").is_some() {
        "/data/rows"
    } else if json_len(ts, "/data").is_some() {
        "/data"
    } else {
        return Err(CommandError::scrape_failed("JpHoo返回格式异常"));
    };
    match json_len(ts, p) {
        Some(n) => if n == 0 {
            return Err(CommandError::scrape_failed("JpHoo无结果"));
        },
        None => {},
    }
    let actors = pointer_to(p, "actors");
    let actresses = pointer_to(p, "actressList");
    let tags = pointer_to(p, "tags");
    Ok(JphooItem {
        title: field_at(ts, p, "title"),
        name: field_at(ts, p, "name"),
        release_date: field_at(ts, p, "releaseDate"),
        year: field_at(ts, p, "year"),
        cover: field_at(ts, p, "cover"),
        img: field_at(ts, p, "img"),
        image: field_at(ts, p, "image"),
        description: field_at(ts, p, "description"),
        duration: json_int(ts, pointer_to(p, "duration").as_str()),
        actor_names: field_list(ts, actors.as_str(), "name"),
        actress_list: text_list(ts, actresses.as_str()),
        tags: text_list(ts, tags.as_str()),
    })
}

} // verus!
