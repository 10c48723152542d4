//! TMDB: the key it needs, the addresses it is asked at, and the answer built from the
//! first search result, its credits and the genre list. The caller makes the requests;
//! the replies' JSON is read here into the plain values below.

use vstd::prelude::*;
use vstd::string::StringExecFns;
use crate::error::{CommandError, SCRAPE_FAILED};
use crate::fields::{cut4_ok, year4, year4_exec};
use crate::html::ov;
use crate::json_reply::{
    int_list, int_list_of, item_pointer, item_pointer_exec, json_int, json_int_of, json_len, json_len_of, json_text,
    json_text_of,
};
use crate::scrape::{str_seqs, ScrapeResult};
use crate::text::{signed_decimal, signed_decimal_chars, string_of};
use crate::url_encoding::{encode, encode_chars};

verus! {

/// The fields of a search result that the answer is built from; the rating is the float
/// `vote_average`, as bits.
#[derive(Debug)]
pub struct TmdbMovie {
    pub id: Option<i64>,
    pub title: Option<String>,
    pub release_date: Option<String>,
    pub overview: Option<String>,
    pub vote_average: Option<u64>,
    pub poster_path: Option<String>,
    pub backdrop_path: Option<String>,
    pub genre_ids: Vec<i64>,
}

/// A crew member of the credits: the job and the name, where the reply gives them.
pub struct TmdbCrew {
    pub job: Option<String>,
    pub name: Option<String>,
}

/// An entry of the genre list: the id and the name, where the reply gives them.
pub struct TmdbGenre {
    pub id: Option<i64>,
    pub name: Option<String>,
}

/// The first key that is set: the secure store's, then the configuration's, then the
/// environment's.
pub open spec fn api_key_of(secure: Option<Seq<char>>, config: Option<Seq<char>>, env: Option<Seq<char>>) -> Option<Seq<char>> {
    match secure {
        Some(k) => Some(k),
        None => match config { Some(k) => Some(k), None => env },
    }
}

/// The TMDB key, or a scrape failure asking for it.
pub fn tmdb_api_key(secure: Option<String>, config: Option<String>, env: Option<String>) -> (r: Result<String, CommandError>)
    ensures
        api_key_of(ov(secure), ov(config), ov(env)) matches Some(k) ==> (r matches Ok(v) && v@ == k),
        api_key_of(ov(secure), ov(config), ov(env)) is None ==> (r matches Err(e) && e.code == SCRAPE_FAILED
            && e.message@ == "TMDB API Key未配置，请在设置→刮削源中填入"@),
{
    match secure {
        Some(k) => Ok(k),
        None => match config {
            Some(k) => Ok(k),
            None => match env {
                Some(k) => Ok(k),
                None => Err(CommandError::scrape_failed("TMDB API Key未配置，请在设置→刮削源中填入")),
            },
        },
    }
}

/// The search address.
pub fn tmdb_search_url(key: &str, query: &str) -> (r: String)
    ensures
        r@ == "https://api.themoviedb.org/3/search/movie?api_key="@ + key@ + "&query="@ + encode_chars(query@)
            + "&language=zh-CN"@,
{
    let e = encode(query);
    String::from_str("https://api.themoviedb.org/3/search/movie?api_key=").concat(key).concat("&query=")
        .concat(e.as_str()).concat("&language=zh-CN")
}

/// The string at field `name` of the element at pointer `p`.
pub open spec fn text_at(t: Seq<char>, p: Seq<char>, name: Seq<char>) -> Option<Seq<char>> {
    json_text_of(t, p + "/"@ + name)
}

fn text_field(t: &str, p: &str, name: &str) -> (r: Option<String>)
    ensures
        ov(r) == text_at(t@, p@, name@),
{
    json_text(t, String::from_str(p).concat("/").concat(name).as_str())
}

/// The integer at field `name` of the element at pointer `p`.
pub open spec fn int_at(t: Seq<char>, p: Seq<char>, name: Seq<char>) -> Option<i64> {
    json_int_of(t, p + "/"@ + name)
}

fn int_field(t: &str, p: &str, name: &str) -> (r: Option<i64>)
    ensures
        r == int_at(t@, p@, name@),
{
    json_int(t, String::from_str(p).concat("/").concat(name).as_str())
}

/// The search result at pointer `p` as read, with the rating the caller read for it.
pub open spec fn movie_read(t: Seq<char>, p: Seq<char>, vote: Option<u64>, m: TmdbMovie) -> bool {
    &&& m.id == int_at(t, p, "id"@)
    &&& ov(m.title) == text_at(t, p, "title"@)
    &&& ov(m.release_date) == text_at(t, p, "release_date"@)
    &&& ov(m.overview) == text_at(t, p, "overview"@)
    &&& m.vote_average == vote
    &&& ov(m.poster_path) == text_at(t, p, "poster_path"@)
    &&& ov(m.backdrop_path) == text_at(t, p, "backdrop_path"@)
    &&& m.genre_ids@ == int_list_of(t, p + "/genre_ids"@)
}

/// The rating given for result `k`: the `k`-th of `votes`, none past their end.
pub open spec fn vote_at(votes: Seq<Option<u64>>, k: int) -> Option<u64> {
    if 0 <= k < votes.len() { votes[k] } else { None }
}

/// The results of a search reply, each with the rating the caller read for it from
/// `votes`; none when the reply has no `results` array.
pub fn tmdb_results(body: &str, votes: &Vec<Option<u64>>) -> (r: Option<Vec<TmdbMovie>>)
    ensures
        match json_len_of(body@, "/results"@) {
            None => r is None,
            Some(n) => r matches Some(v) && v@.len() == n && forall|k: int| 0 <= k < n
                ==> #[trigger] movie_read(body@, item_pointer("/results"@, k as nat), vote_at(votes@, k), v@[k]),
        },
{
    let n = match json_len(body, "/results") {
        None => return None,
        Some(n) => n,
    };
    let mut v: Vec<TmdbMovie> = Vec::new();
    for k in 0..n
        invariant
            v@.len() == k,
            forall|j: int| 0 <= j < k
                ==> #[trigger] movie_read(body@, item_pointer("/results"@, j as nat), vote_at(votes@, j), v@[j]),
    {
        let p = item_pointer_exec("/results", k);
        let ps = p.as_str();
        let vote = if k < votes.len() { votes[k] } else { None };
        let ids = String::from_str(ps).concat("/genre_ids");
        v.push(TmdbMovie {
            id: int_field(body, ps, "id"),
            title: text_field(body, ps, "title"),
            release_date: text_field(body, ps, "release_date"),
            overview: text_field(body, ps, "overview"),
            vote_average: vote,
            poster_path: text_field(body, ps, "poster_path"),
            backdrop_path: text_field(body, ps, "backdrop_path"),
            genre_ids: int_list(body, ids.as_str()),
        });
    }
    Some(v)
}

/// The crew of a credits reply (each member's job and name); none without a `crew` array.
pub fn tmdb_crew_list(body: &str) -> (r: Option<Vec<TmdbCrew>>)
    ensures
        match json_len_of(body@, "/crew"@) {
            None => r is None,
            Some(n) => r matches Some(v) && v@.len() == n && forall|k: int| 0 <= k < n ==> {
                let p = #[trigger] item_pointer("/crew"@, k as nat);
                ov(v@[k].job) == text_at(body@, p, "job"@) && ov(v@[k].name) == text_at(body@, p, "name"@)
            },
        },
{
    let n = match json_len(body, "/crew") {
        None => return None,
        Some(n) => n,
    };
    let mut v: Vec<TmdbCrew> = Vec::new();
    for k in 0..n
        invariant
            v@.len() == k,
            forall|j: int| 0 <= j < k ==> {
                let p = #[trigger] item_pointer("/crew"@, j as nat);
                ov(v@[j].job) == text_at(body@, p, "job"@) && ov(v@[j].name) == text_at(body@, p, "name"@)
            },
    {
        let p = item_pointer_exec("/crew", k);
        v.push(TmdbCrew { job: text_field(body, p.as_str(), "job"), name: text_field(body, p.as_str(), "name") });
    }
    Some(v)
}

/// The cast names of a credits reply, a member without a string name giving `None`; none
/// without a `cast` array.
pub fn tmdb_cast_names(body: &str) -> (r: Option<Vec<Option<String>>>)
    ensures
        match json_len_of(body@, "/cast"@) {
            None => r is None,
            Some(n) => r matches Some(v) && v@.len() == n && forall|k: int| 0 <= k < n
                ==> ov(#[trigger] v@[k]) == text_at(body@, item_pointer("/cast"@, k as nat), "name"@),
        },
{
    let n = match json_len(body, "/cast") {
        None => return None,
        Some(n) => n,
    };
    let mut v: Vec<Option<String>> = Vec::new();
    for k in 0..n
        invariant
            v@.len() == k,
            forall|j: int| 0 <= j < k ==> ov(#[trigger] v@[j]) == text_at(body@, item_pointer("/cast"@, j as nat), "name"@),
    {
        let p = item_pointer_exec("/cast", k);
        v.push(text_field(body, p.as_str(), "name"));
    }
    Some(v)
}

/// The genre list of a genres reply (each entry's id and name); none without a `genres`
/// array.
pub fn tmdb_genre_list(body: &str) -> (r: Option<Vec<TmdbGenre>>)
    ensures
        match json_len_of(body@, "/genres"@) {
            None => r is None,
            Some(n) => r matches Some(v) && v@.len() == n && forall|k: int| 0 <= k < n ==> {
                let p = #[trigger] item_pointer("/genres"@, k as nat);
                v@[k].id == int_at(body@, p, "id"@) && ov(v@[k].name) == text_at(body@, p, "name"@)
            },
        },
{
    let n = match json_len(body, "/genres") {
        None => return None,
        Some(n) => n,
    };
    let mut v: Vec<TmdbGenre> = Vec::new();
    for k in 0..n
        invariant
            v@.len() == k,
            forall|j: int| 0 <= j < k ==> {
                let p = #[trigger] item_pointer("/genres"@, j as nat);
                v@[j].id == int_at(body@, p, "id"@) && ov(v@[j].name) == text_at(body@, p, "name"@)
            },
    {
        let p = item_pointer_exec("/genres", k);
        v.push(TmdbGenre { id: int_field(body, p.as_str(), "id"), name: text_field(body, p.as_str(), "name") });
    }
    Some(v)
}

/// The first search result: `TMDB无结果` when the reply has no result list, `TMDB无匹配`
/// when the list is empty.
pub fn tmdb_first(results: Option<Vec<TmdbMovie>>) -> (r: Result<TmdbMovie, CommandError>)
    ensures
        results is None ==> (r matches Err(e) && e.code == SCRAPE_FAILED && e.message@ == "TMDB无结果"@),
        results matches Some(v) ==> (v@.len() == 0 ==> (r matches Err(e) && e.code == SCRAPE_FAILED
            && e.message@ == "TMDB无匹配"@)),
        results matches Some(v) ==> (v@.len() > 0 ==> (r matches Ok(m) && m == v@[0])),
{
    match results {
        None => Err(CommandError::scrape_failed("TMDB无结果")),
        Some(mut v) => {
            if v.len() == 0 {
                Err(CommandError::scrape_failed("TMDB无匹配"))
            } else {
                Ok(v.remove(0))
            }
        },
    }
}

/// The credits address of a movie; there is none for an id that is not positive.
pub fn tmdb_credits_url(id: i64, key: &str) -> (r: Option<String>)
    ensures
        id > 0 ==> (r matches Some(u) && u@ == "https://api.themoviedb.org/3/movie/"@ + signed_decimal(id as int)
            + "/credits?api_key="@ + key@ + "&language=zh-CN"@),
        id <= 0 ==> r is None,
{
    if id > 0 {
        let n = string_of(&signed_decimal_chars(id));
        Some(String::from_str("https://api.themoviedb.org/3/movie/").concat(n.as_str()).concat("/credits?api_key=")
            .concat(key).concat("&language=zh-CN"))
    } else {
        None
    }
}

/// The genre list address.
pub fn tmdb_genres_url(key: &str) -> (r: String)
    ensures
        r@ == "https://api.themoviedb.org/3/genre/movie/list?api_key="@ + key@ + "&language=zh-CN"@,
{
    String::from_str("https://api.themoviedb.org/3/genre/movie/list?api_key=").concat(key).concat("&language=zh-CN")
}

/// The name of the first crew member whose job is `Director` (absent when that member
/// has no name, or there is none).
pub open spec fn director_of(crew: Seq<TmdbCrew>) -> Option<Seq<char>>
    decreases crew.len(),
{
    if crew.len() == 0 {
        None
    } else if ov(crew[0].job) == Some("Director"@) {
        ov(crew[0].name)
    } else {
        director_of(crew.drop_first())
    }
}

/// The director named in the credits.
pub fn tmdb_director(crew: &Vec<TmdbCrew>) -> (r: Option<String>)
    ensures
        ov(r) == director_of(crew@),
{
    let n = crew.len();
    let mut k: usize = 0;
    assert(crew@.skip(0) =~= crew@);
    while k < n
        invariant
            n == crew@.len(),
            k <= n,
            director_of(crew@) == director_of(crew@.skip(k as int)),
        decreases n - k,
    {
        assert(crew@.skip(k as int).drop_first() =~= crew@.skip(k + 1));
        assert(crew@.skip(k as int)[0] == crew@[k as int]);
        let is_director = match &crew[k].job {
            Some(j) => {
                proof { reveal_strlit("Director"); }
                crate::text::chars_eq(&crate::text::chars_of(j.as_str()), &crate::text::chars_of("Director"))
            },
            None => false,
        };
        if is_director {
            return match &crew[k].name { Some(x) => Some(x.clone()), None => None };
        }
        k += 1;
    }
    None
}

/// The names among the first five cast entries, in order.
pub open spec fn cast_names(cast: Seq<Option<Seq<char>>>) -> Seq<Seq<char>>
    decreases cast.len(),
{
    if cast.len() == 0 {
        Seq::empty()
    } else {
        let prev = cast_names(cast.drop_last());
        match cast.last() { Some(n) => prev.push(n), None => prev }
    }
}

/// The view of a list of optional names.
pub open spec fn opt_views(v: Seq<Option<String>>) -> Seq<Option<Seq<char>>> {
    Seq::new(v.len(), |i: int| ov(v[i]))
}

/// The actors: the names of the first five cast entries.
pub fn tmdb_cast(cast: &Vec<Option<String>>) -> (r: Vec<String>)
    ensures
        str_seqs(r@) == cast_names(opt_views(cast@).take(if cast@.len() < 5 { cast@.len() as int } else { 5 })),
{
    let n: usize = if cast.len() < 5 { cast.len() } else { 5 };
    let ghost all = opt_views(cast@);
    let mut r: Vec<String> = Vec::new();
    for k in 0..n
        invariant
            n <= cast@.len(),
            all == opt_views(cast@),
            str_seqs(r@) == cast_names(all.take(k as int)),
    {
        assert(all.take(k + 1).drop_last() =~= all.take(k as int));
        assert(all.take(k + 1).last() == ov(cast@[k as int]));
        match &cast[k] {
            Some(x) => {
                let ghost before = str_seqs(r@);
                r.push(x.clone());
                assert(str_seqs(r@) =~= before.push(x@));
            },
            None => {},
        }
    }
    r
}

/// The names of the listed genres whose id (0 when absent) is one of the movie's.
pub open spec fn genre_names_of(ids: Seq<i64>, list: Seq<TmdbGenre>) -> Seq<Seq<char>>
    decreases list.len(),
{
    if list.len() == 0 {
        Seq::empty()
    } else {
        let prev = genre_names_of(ids, list.drop_last());
        let g = list.last();
        let id: i64 = match g.id { Some(i) => i, None => 0 };
        if ids.contains(id) && g.name is Some { prev.push(ov(g.name)->0) } else { prev }
    }
}

/// The names of the movie's genres in the genre list, in the list's order.
pub fn tmdb_genre_names(ids: &Vec<i64>, list: &Vec<TmdbGenre>) -> (r: Vec<String>)
    ensures
        str_seqs(r@) == genre_names_of(ids@, list@),
{
    let mut r: Vec<String> = Vec::new();
    let n = list.len();
    for k in 0..n
        invariant
            n == list@.len(),
            str_seqs(r@) == genre_names_of(ids@, list@.take(k as int)),
    {
        assert(list@.take(k + 1).drop_last() =~= list@.take(k as int));
        assert(list@.take(k + 1).last() == list@[k as int]);
        let id: i64 = match list[k].id { Some(i) => i, None => 0 };
        let mut found = false;
        let mut j: usize = 0;
        while j < ids.len()
            invariant
                j <= ids@.len(),
                found == (exists|m: int| 0 <= m < j && ids@[m] == id),
            decreases ids@.len() - j,
        {
            if ids[j] == id {
                found = true;
            }
            j += 1;
        }
        assert(found == ids@.contains(id));
        if found {
            match &list[k].name {
                Some(x) => {
                    let ghost before = str_seqs(r@);
                    r.push(x.clone());
                    assert(str_seqs(r@) =~= before.push(x@));
                },
                None => {},
            }
        }
    }
    assert(list@.take(n as int) =~= list@);
    r
}

/// The movie's date can be cut after four bytes.
pub open spec fn tmdb_date_ok(m: TmdbMovie) -> bool {
    m.release_date matches Some(d) ==> cut4_ok(d@)
}

/// The answer from a search result: its title (else the query), the year from the first
/// four bytes of its date, the overview and rating, the poster and backdrop addresses,
/// the director, the actors (always given) and the genre names, score 80.
pub open spec fn tmdb_answer(
    m: TmdbMovie,
    query: Seq<char>,
    director: Option<Seq<char>>,
    actors: Seq<Seq<char>>,
    genres: Option<Seq<Seq<char>>>,
    r: ScrapeResult,
) -> bool {
    &&& r.source@ == "tmdb"@
    &&& r.title@ == (match m.title { Some(t) => t@, None => query })
    &&& r.year == (match m.release_date { Some(d) => year4(d@), None => None })
    &&& ov(r.overview) == ov(m.overview)
    &&& r.rating == m.vote_average
    &&& ov(r.poster_url) == (match m.poster_path { Some(p) => Some("https://image.tmdb.org/t/p/w500"@ + p@), None => None })
    &&& ov(r.backdrop_url) == (match m.backdrop_path { Some(p) => Some("https://image.tmdb.org/t/p/w1280"@ + p@), None => None })
    &&& r.runtime is None
    &&& ov(r.director) == director
    &&& (r.actors matches Some(a) && str_seqs(a@) == actors)
    &&& (match genres { Some(g) => r.genre matches Some(x) && str_seqs(x@) == g, None => r.genre is None })
    &&& r.score == 80
}

/// Builds the answer from a search result, the director and actors of its credits, and
/// the names of its genres (absent when the genre list was not had).
pub fn tmdb_result(
    m: TmdbMovie,
    query: &str,
    director: Option<String>,
    actors: Vec<String>,
    genres: Option<Vec<String>>,
) -> (r: ScrapeResult)
    requires
        tmdb_date_ok(m),
    ensures
        tmdb_answer(m, query@, ov(director), str_seqs(actors@),
            match genres { Some(g) => Some(str_seqs(g@)), None => None }, r),
{
    let title = match &m.title { Some(t) => t.clone(), None => String::from_str(query) };
    let year = match &m.release_date { Some(d) => year4_exec(d.as_str()), None => None };
    let poster = match &m.poster_path {
        Some(p) => Some(String::from_str("https://image.tmdb.org/t/p/w500").concat(p.as_str())),
        None => None,
    };
    let backdrop = match &m.backdrop_path {
        Some(p) => Some(String::from_str("https://image.tmdb.org/t/p/w1280").concat(p.as_str())),
        None => None,
    };
    let overview = match &m.overview { Some(o) => Some(o.clone()), None => None };
    ScrapeResult {
        source: String::from_str("tmdb"),
        title,
        year,
        poster_url: poster,
        backdrop_url: backdrop,
        overview,
        rating: m.vote_average,
        runtime: None,
        director,
        genre: genres,
        actors: Some(actors),
        score: 80,
    }
}

} // verus!
