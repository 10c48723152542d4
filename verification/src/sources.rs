//! The answer each scrape source's page gives. Each source is a search or detail page
//! whose fields are read with fixed selectors; the caller fetches the page.

use vstd::prelude::*;
use vstd::string::StringExecFns;
use crate::error::{CommandError, SCRAPE_FAILED};
use crate::html::{
    byte_len, contains_any, first_attr, first_attr_of, first_attr_with, first_longer, first_longer_of, first_text,
    first_text_of, html_attrs, html_texts, lits, linked_names, linked_names_of, nonempty_texts, nonempty_texts_of, ov,
    strs, first_with,
};
use crate::javbus::starts_with;
use crate::scrape::ScrapeResult;
use crate::scrape::{provider_code, provider_code_of};
use crate::text::{
    chars_of, contains, contains_exec, lower_string, str_lower, string_of, strip_separators, strip_separators_exec, trim,
    trim_exec,
};

verus! {

/// A list as an answer field: absent when empty.
pub open spec fn list_field(o: Option<Vec<String>>, items: Seq<Seq<char>>) -> bool {
    if items.len() == 0 { o is None } else { o matches Some(v) && strs(v@) == items }
}

pub(crate) fn list_opt(v: Vec<String>) -> (r: Option<Vec<String>>)
    ensures
        list_field(r, strs(v@)),
{
    if v.len() == 0 { None } else { Some(v) }
}

/// How a relative cover address is completed.
pub enum CoverBase {
    /// Kept as it is.
    AsIs,
    /// Prefixed with `https:` unless it starts with `http`.
    Scheme,
    /// Prefixed with the site unless it starts with `http`.
    Site(&'static str),
}

/// A cover address completed as `base` says.
pub open spec fn completed(src: Seq<char>, base: CoverBase) -> Seq<char> {
    match base {
        CoverBase::AsIs => src,
        CoverBase::Scheme => if starts_with(src, "http"@) { src } else { "https:"@ + src },
        CoverBase::Site(p) => if starts_with(src, "http"@) { src } else { p@ + src },
    }
}

pub(crate) fn complete(src: String, base: &CoverBase) -> (r: String)
    ensures
        r@ == completed(src@, *base),
{
    let c = chars_of(src.as_str());
    let h = chars_of("http");
    let is_abs = if h.len() > c.len() {
        false
    } else {
        let head = crate::text::subrange_exec(&c, 0, h.len());
        assert(head@ =~= c@.take(h@.len() as int));
        crate::text::chars_eq(&head, &h)
    };
    match base {
        CoverBase::AsIs => src,
        CoverBase::Scheme => if is_abs { src } else { String::from_str("https:").concat(src.as_str()) },
        CoverBase::Site(p) => if is_abs { src } else { String::from_str(p).concat(src.as_str()) },
    }
}

/// The selectors of a listing page: title, cover, cover completion, actors, and the
/// genres and overview where the source has them.
pub struct ListingRecipe {
    pub source: &'static str,
    pub url: &'static str,
    pub score: i32,
    pub title: &'static str,
    pub cover: &'static str,
    pub cover_base: CoverBase,
    pub actors: &'static str,
    pub genres: Option<&'static str>,
    pub overview: Option<&'static str>,
}

/// What a listing page gives: the first title match (else the query), the first cover
/// match's `src` completed, the non-empty actor and genre texts, the first overview match.
pub open spec fn listing_answer(html: Seq<char>, query: Seq<char>, rc: ListingRecipe, r: ScrapeResult) -> bool {
    &&& r.source@ == rc.source@
    &&& r.title@ == (match first_text(html, rc.title@) { Some(t) => t, None => query })
    &&& ov(r.poster_url) == (match first_attr(html, rc.cover@, "src"@) { Some(s) => Some(completed(s, rc.cover_base)), None => None })
    &&& list_field(r.actors, nonempty_texts(html, rc.actors@))
    &&& (match rc.genres { Some(g) => list_field(r.genre, nonempty_texts(html, g@)), None => r.genre is None })
    &&& ov(r.overview) == (match rc.overview { Some(o) => first_text(html, o@), None => None })
    &&& r.year is None && r.backdrop_url is None && r.rating is None && r.runtime is None && r.director is None
    &&& r.score == rc.score
}

/// Reads a listing page with a recipe.
pub fn listing_page(body: &str, query: &str, rc: &ListingRecipe) -> (r: ScrapeResult)
    ensures
        listing_answer(body@, query@, *rc, r),
{
    let title = match first_text_of(body, rc.title) { Some(t) => t, None => String::from_str(query) };
    let poster = match first_attr_of(body, rc.cover, "src") { Some(s) => Some(complete(s, &rc.cover_base)), None => None };
    let actors = list_opt(nonempty_texts_of(body, rc.actors));
    let genre = match rc.genres { Some(g) => list_opt(nonempty_texts_of(body, g)), None => None };
    let overview = match rc.overview { Some(o) => first_text_of(body, o), None => None };
    ScrapeResult {
        source: String::from_str(rc.source),
        title,
        year: None,
        poster_url: poster,
        backdrop_url: None,
        overview,
        rating: None,
        runtime: None,
        director: None,
        genre,
        actors,
        score: rc.score,
    }
}

/// The Airav search page.
pub fn airav_recipe() -> (rc: ListingRecipe)
    ensures
        rc.source@ == "airav"@ && rc.url@ == "https://www.airav.wiki/search?q="@ && rc.score == 50 && rc.title@ == ".video-title, .item-title, h2 a"@
            && rc.cover@ == ".video-cover img, .item-cover img, .poster img"@ && rc.cover_base == CoverBase::AsIs
            && rc.actors@ == ".actress a, .actor a, .star a"@ && rc.genres is None && rc.overview is None,
{
    ListingRecipe {
        source: "airav", url: "https://www.airav.wiki/search?q=", score: 50, title: ".video-title, .item-title, h2 a",
        cover: ".video-cover img, .item-cover img, .poster img", cover_base: CoverBase::AsIs,
        actors: ".actress a, .actor a, .star a", genres: None, overview: None,
    }
}

/// The XCITY search page.
pub fn xcity_recipe() -> (rc: ListingRecipe)
    ensures
        rc.source@ == "xcity"@ && rc.url@ == "https://www.xcity.jp/avod/list/?keyword="@ && rc.score == 45 && rc.title@ == ".itemTitle a, .videoTitle, .titleArea h3"@
            && rc.cover@ == ".itemPhoto img, .videoPhoto img, .packageImage img"@ && rc.cover_base == CoverBase::Scheme
            && rc.actors@ == ".actressName a, .performer a, .starName"@ && rc.genres is None && rc.overview is None,
{
    ListingRecipe {
        source: "xcity", url: "https://www.xcity.jp/avod/list/?keyword=", score: 45, title: ".itemTitle a, .videoTitle, .titleArea h3",
        cover: ".itemPhoto img, .videoPhoto img, .packageImage img", cover_base: CoverBase::Scheme,
        actors: ".actressName a, .performer a, .starName", genres: None, overview: None,
    }
}

/// The Prestige search page.
pub fn prestige_recipe() -> (rc: ListingRecipe)
    ensures
        rc.source@ == "prestige"@ && rc.url@ == "https://www.prestige-av.com/goods/goods_list.php?search_word="@ && rc.score == 45 && rc.title@ == ".goods_name, .goods-title, .item-name a"@
            && rc.cover@ == ".goods_image img, .goods-photo img, .item-img img"@
            && (rc.cover_base matches CoverBase::Site(p) && p@ == "https://www.prestige-av.com"@)
            && rc.actors@ == ".actress_name a, .performer a, .cast_name"@ && rc.genres is None && rc.overview is None,
{
    ListingRecipe {
        source: "prestige", url: "https://www.prestige-av.com/goods/goods_list.php?search_word=", score: 45, title: ".goods_name, .goods-title, .item-name a",
        cover: ".goods_image img, .goods-photo img, .item-img img", cover_base: CoverBase::Site("https://www.prestige-av.com"),
        actors: ".actress_name a, .performer a, .cast_name", genres: None, overview: None,
    }
}

/// The Avsox search page.
pub fn avsox_recipe() -> (rc: ListingRecipe)
    ensures
        rc.source@ == "avsox"@ && rc.url@ == "https://avsox.cyou/cn/search/"@ && rc.score == 50 && rc.title@ == ".movie-title h3, .video-title, .item-title a"@
            && rc.cover@ == ".movie-cover img, .video-img img, .thumb img"@ && rc.cover_base == CoverBase::AsIs
            && rc.actors@ == ".star-name a, .actress a, .cast span"@ && rc.genres is None && rc.overview is None,
{
    ListingRecipe {
        source: "avsox", url: "https://avsox.cyou/cn/search/", score: 50, title: ".movie-title h3, .video-title, .item-title a",
        cover: ".movie-cover img, .video-img img, .thumb img", cover_base: CoverBase::AsIs,
        actors: ".star-name a, .actress a, .cast span", genres: None, overview: None,
    }
}

/// The Njav search page.
pub fn njav_recipe() -> (rc: ListingRecipe)
    ensures
        rc.source@ == "njav"@ && rc.url@ == "https://njav.tv/search/"@ && rc.score == 45 && rc.title@ == ".video-title, .movie-title, h2 a, .item-title"@
            && rc.cover@ == ".video-img img, .poster img, .thumb img"@ && rc.cover_base == CoverBase::AsIs
            && rc.actors@ == ".actress-name, .star a, .actor-tag"@
            && (rc.genres matches Some(g) && g@ == ".tag a, .category a, .genre span"@) && rc.overview is None,
{
    ListingRecipe {
        source: "njav", url: "https://njav.tv/search/", score: 45, title: ".video-title, .movie-title, h2 a, .item-title",
        cover: ".video-img img, .poster img, .thumb img", cover_base: CoverBase::AsIs,
        actors: ".actress-name, .star a, .actor-tag", genres: Some(".tag a, .category a, .genre span"), overview: None,
    }
}

/// The GetAV search page.
pub fn getav_recipe() -> (rc: ListingRecipe)
    ensures
        rc.source@ == "getav"@ && rc.url@ == "https://getav.info/search?keyword="@ && rc.score == 45 && rc.title@ == ".video-title, .movie-title, h3 a, .item-name"@
            && rc.cover@ == ".video-cover img, .poster-img img, .thumb img"@ && rc.cover_base == CoverBase::AsIs
            && rc.actors@ == ".actress a, .star-name, .cast-item"@ && rc.genres is None && rc.overview is None,
{
    ListingRecipe {
        source: "getav", url: "https://getav.info/search?keyword=", score: 45, title: ".video-title, .movie-title, h3 a, .item-name",
        cover: ".video-cover img, .poster-img img, .thumb img", cover_base: CoverBase::AsIs,
        actors: ".actress a, .star-name, .cast-item", genres: None, overview: None,
    }
}

/// The WhosTV search page.
pub fn whostv_recipe() -> (rc: ListingRecipe)
    ensures
        rc.source@ == "whostv"@ && rc.url@ == "https://whostv.net/search?keyword="@ && rc.score == 40 && rc.title@ == ".video-title, .movie-title, h2 a, .item-title"@
            && rc.cover@ == ".video-img img, .poster img, .cover-img img"@ && rc.cover_base == CoverBase::AsIs
            && rc.actors@ == ".actress-name, .star a, .performer-name"@ && rc.genres is None && rc.overview is None,
{
    ListingRecipe {
        source: "whostv", url: "https://whostv.net/search?keyword=", score: 40, title: ".video-title, .movie-title, h2 a, .item-title",
        cover: ".video-img img, .poster img, .cover-img img", cover_base: CoverBase::AsIs,
        actors: ".actress-name, .star a, .performer-name", genres: None, overview: None,
    }
}

/// The FC2PPVDB search page.
pub fn fc2ppvdb_recipe() -> (rc: ListingRecipe)
    ensures
        rc.source@ == "fc2ppvdb"@ && rc.url@ == "https://fc2ppvdb.com/search?keyword="@ && rc.score == 45 && rc.title@ == ".video-title, .item-title a, .movie-title, h2"@
            && rc.cover@ == ".video-img img, .thumbnail img, .cover img"@ && rc.cover_base == CoverBase::AsIs
            && rc.actors@ == ".actress a, .actor-name, .seller-name"@ && rc.genres is None
            && (rc.overview matches Some(o) && o@ == ".description, .video-desc, .item-desc"@),
{
    ListingRecipe {
        source: "fc2ppvdb", url: "https://fc2ppvdb.com/search?keyword=", score: 45, title: ".video-title, .item-title a, .movie-title, h2",
        cover: ".video-img img, .thumbnail img, .cover img", cover_base: CoverBase::AsIs,
        actors: ".actress a, .actor-name, .seller-name", genres: None, overview: Some(".description, .video-desc, .item-desc"),
    }
}

/// The fields of a works page: where its title is, which image addresses are covers,
/// which link addresses are actors, where a long overview may be, and what makes the page
/// an error page.
pub struct WorksRecipe {
    pub source: String,
    pub url_head: &'static str,
    pub url_tail: &'static str,
    pub score: i32,
    pub title: &'static str,
    pub cover_marks: Vec<&'static str>,
    pub actor_marks: Vec<&'static str>,
    pub overview: Option<&'static str>,
    pub strict: bool,
    pub missing: String,
}

/// An error page: shorter than 500 bytes, or, for a strict source, mentioning `404` or
/// `Not Found`.
pub open spec fn works_missing(html: Seq<char>, strict: bool) -> bool {
    byte_len(html) < 500 || (strict && (contains(html, "404"@) || contains(html, "Not Found"@)))
}

/// What a works page gives: the first title match (else the query), the first image whose
/// address has a cover mark, the names of links whose address has an actor mark, and the
/// first overview text longer than 50 bytes.
pub open spec fn works_answer(html: Seq<char>, query: Seq<char>, rc: WorksRecipe, r: ScrapeResult) -> bool {
    &&& r.source@ == rc.source@
    &&& r.title@ == (match first_text(html, rc.title@) { Some(t) => t, None => query })
    &&& ov(r.poster_url) == first_with(html_attrs(html, "img"@, "src"@), lits(rc.cover_marks@))
    &&& list_field(r.actors, linked_names(html_texts(html, "a"@), html_attrs(html, "a"@, "href"@), lits(rc.actor_marks@)))
    &&& ov(r.overview) == (match rc.overview { Some(o) => first_longer(html_texts(html, o@), 50), None => None })
    &&& r.genre is None && r.year is None && r.backdrop_url is None && r.rating is None && r.runtime is None && r.director is None
    &&& r.score == rc.score
}

/// Reads a works page: the recipe's error when it is an error page, else its answer.
pub fn works_page(body: &str, query: &str, rc: &WorksRecipe) -> (r: Result<ScrapeResult, CommandError>)
    ensures
        works_missing(body@, rc.strict) ==> (r matches Err(e) && e.code == SCRAPE_FAILED && e.message@ == rc.missing@),
        !works_missing(body@, rc.strict) ==> (r matches Ok(a) && works_answer(body@, query@, *rc, a)),
{
    let cs = chars_of(body);
    if body.as_bytes().len() < 500 || (rc.strict && (contains_exec(&cs, &chars_of("404")) || contains_exec(&cs, &chars_of("Not Found")))) {
        return Err(CommandError::scrape_failed(rc.missing.as_str()));
    }
    let title = match first_text_of(body, rc.title) { Some(t) => t, None => String::from_str(query) };
    let poster = first_attr_with(body, "img", "src", &rc.cover_marks);
    let actors = list_opt(linked_names_of(body, &rc.actor_marks));
    let overview = match rc.overview { Some(o) => first_longer_of(body, o, 50), None => None };
    Ok(ScrapeResult {
        source: rc.source.clone(),
        title,
        year: None,
        poster_url: poster,
        backdrop_url: None,
        overview,
        rating: None,
        runtime: None,
        director: None,
        genre: None,
        actors,
        score: rc.score,
    })
}

/// The FALENO works page.
pub fn faleno_recipe() -> (rc: WorksRecipe)
    ensures
        rc.source@ == "faleno"@ && rc.url_head@ == "https://faleno.jp/top/works/"@ && rc.url_tail@ == "/"@ && rc.score == 55 && rc.title@ == "h1, .works-title, .p-work__title, title"@
            && lits(rc.cover_marks@) == seq!["works"@, "package"@] && lits(rc.actor_marks@) == seq!["/actress/"@]
            && rc.overview is None && !rc.strict && rc.missing@ == "FALENO 无结果"@,
{
    let rc = WorksRecipe {
        source: String::from_str("faleno"), url_head: "https://faleno.jp/top/works/", url_tail: "/", score: 55, title: "h1, .works-title, .p-work__title, title",
        cover_marks: vec!["works", "package"], actor_marks: vec!["/actress/"], overview: None, strict: false,
        missing: String::from_str("FALENO 无结果"),
    };
    assert(lits(rc.cover_marks@) =~= seq!["works"@, "package"@]);
    assert(lits(rc.actor_marks@) =~= seq!["/actress/"@]);
    rc
}

/// The DUGA works page.
pub fn duga_recipe() -> (rc: WorksRecipe)
    ensures
        rc.source@ == "duga"@ && rc.url_head@ == "https://duga.jp/ppv/"@ && rc.url_tail@ == "/"@ && rc.score == 45 && rc.title@ == "h1, .item-title, .p-work__title, title"@
            && lits(rc.cover_marks@) == seq!["jacket"@, "package"@] && lits(rc.actor_marks@) == seq!["/actress/"@]
            && (rc.overview matches Some(o) && o@ == "p, .description, .summary"@) && !rc.strict
            && rc.missing@ == "DUGA 无结果"@,
{
    let rc = WorksRecipe {
        source: String::from_str("duga"), url_head: "https://duga.jp/ppv/", url_tail: "/", score: 45, title: "h1, .item-title, .p-work__title, title",
        cover_marks: vec!["jacket", "package"], actor_marks: vec!["/actress/"], overview: Some("p, .description, .summary"),
        strict: false, missing: String::from_str("DUGA 无结果"),
    };
    assert(lits(rc.cover_marks@) =~= seq!["jacket"@, "package"@]);
    assert(lits(rc.actor_marks@) =~= seq!["/actress/"@]);
    rc
}

/// The SOD works page.
pub fn sod_recipe() -> (rc: WorksRecipe)
    ensures
        rc.source@ == "sod"@ && rc.url_head@ == "https://ec.sod.co.jp/prime/videos/?id="@ && rc.url_tail@ == ""@ && rc.score == 50 && rc.title@ == "h1, .item-title, title"@
            && lits(rc.cover_marks@) == seq!["jacket"@, "package"@] && lits(rc.actor_marks@) == seq!["actress"@, "actor"@]
            && rc.overview is None && !rc.strict && rc.missing@ == "SOD 无结果"@,
{
    let rc = WorksRecipe {
        source: String::from_str("sod"), url_head: "https://ec.sod.co.jp/prime/videos/?id=", url_tail: "", score: 50, title: "h1, .item-title, title",
        cover_marks: vec!["jacket", "package"], actor_marks: vec!["actress", "actor"], overview: None, strict: false,
        missing: String::from_str("SOD 无结果"),
    };
    assert(lits(rc.cover_marks@) =~= seq!["jacket"@, "package"@]);
    assert(lits(rc.actor_marks@) =~= seq!["actress"@, "actor"@]);
    rc
}

/// The DAHLIA works page.
pub fn dahlia_recipe() -> (rc: WorksRecipe)
    ensures
        rc.source@ == "dahlia"@ && rc.url_head@ == "https://dahlia-av.jp/works/"@ && rc.url_tail@ == "/"@ && rc.score == 50 && rc.title@ == "h1, .works-title, title"@
            && lits(rc.cover_marks@) == seq!["works"@, "package"@] && lits(rc.actor_marks@) == seq!["/actress/"@]
            && rc.overview is None && !rc.strict && rc.missing@ == "DAHLIA 无结果"@,
{
    let rc = WorksRecipe {
        source: String::from_str("dahlia"), url_head: "https://dahlia-av.jp/works/", url_tail: "/", score: 50, title: "h1, .works-title, title",
        cover_marks: vec!["works", "package"], actor_marks: vec!["/actress/"], overview: None, strict: false,
        missing: String::from_str("DAHLIA 无结果"),
    };
    assert(lits(rc.cover_marks@) =~= seq!["works"@, "package"@]);
    assert(lits(rc.actor_marks@) =~= seq!["/actress/"@]);
    rc
}

/// A page of one of the sources read the same simple way: their names, and the address
/// each is asked at (the lower-case code goes between the two parts).
pub open spec fn simple_sources() -> Seq<(Seq<char>, Seq<char>, Seq<char>)> {
    seq![
        ("1pondo"@, "https://www.1pondo.tv/movies/"@, "/"@),
        ("10musume"@, "https://www.10musume.com/detail/=/cid="@, "/"@),
        ("caribbeancom"@, "https://www.caribbeancom.com/moviepages/"@, "/"@),
        ("caribbeancompr"@, "https://www.caribbeancompr.com/moviepages/"@, "/"@),
        ("c0930"@, "https://www.c0930.com/moviepages/"@, "/"@),
        ("gcolle"@, "https://gcolle.net/product_info.php/products_id/"@, ""@),
        ("getchu"@, "https://dl.getchu.com/item/"@, "/"@),
        ("h0930"@, "https://www.h0930.com/moviepages/"@, "/"@),
        ("h4610"@, "https://www.h4610.com/moviepages/"@, "/"@),
        ("heydouga"@, "https://www.heydouga.com/moviepages/"@, "/"@),
        ("heyzo"@, "https://www.heyzo.com/moviepages/"@, "/"@),
        ("javfree"@, "https://javfree.me/?s="@, ""@),
        ("kin8"@, "https://www.kin8tengoku.com/moviepages/"@, "/"@),
        ("muramura"@, "https://www.muramura.tv/moviepages/"@, "/"@),
        ("mywife"@, "https://mywife.cc/works/"@, "/"@),
        ("pacopacomama"@, "https://www.pacopacomama.com/moviepages/"@, "/"@),
        ("pcolle"@, "https://www.pcolle.com/product/detail/?id="@, ""@),
        ("fc2hub"@, "https://javten.com/search?q="@, ""@),
        ("tokyohot"@, "https://my.tokyo-hot.com/product/?q="@, ""@),
        ("ave"@, "https://www.aventertainments.com/product.aspx?keyword="@, ""@),
    ]
}

/// The first row of the table named `source`.
pub open spec fn first_row_named(t: Seq<(Seq<char>, Seq<char>, Seq<char>)>, source: Seq<char>, i: int) -> bool {
    &&& 0 <= i < t.len()
    &&& t[i].0 == source
    &&& forall|j: int| 0 <= j < i ==> (#[trigger] t[j]).0 != source
}

/// The row of a simple source, if the source is one of them.
pub open spec fn simple_row_of(source: Seq<char>) -> Option<(Seq<char>, Seq<char>, Seq<char>)> {
    let t = simple_sources();
    if exists|i: int| #[trigger] first_row_named(t, source, i) {
        let i = choose|i: int| #[trigger] first_row_named(t, source, i);
        Some(t[i])
    } else {
        None
    }
}

fn simple_table() -> (v: Vec<(&'static str, &'static str, &'static str)>)
    ensures
        Seq::new(v@.len(), |i: int| (v@[i].0@, v@[i].1@, v@[i].2@)) == simple_sources(),
{
    let v = vec![
        ("1pondo", "https://www.1pondo.tv/movies/", "/"),
        ("10musume", "https://www.10musume.com/detail/=/cid=", "/"),
        ("caribbeancom", "https://www.caribbeancom.com/moviepages/", "/"),
        ("caribbeancompr", "https://www.caribbeancompr.com/moviepages/", "/"),
        ("c0930", "https://www.c0930.com/moviepages/", "/"),
        ("gcolle", "https://gcolle.net/product_info.php/products_id/", ""),
        ("getchu", "https://dl.getchu.com/item/", "/"),
        ("h0930", "https://www.h0930.com/moviepages/", "/"),
        ("h4610", "https://www.h4610.com/moviepages/", "/"),
        ("heydouga", "https://www.heydouga.com/moviepages/", "/"),
        ("heyzo", "https://www.heyzo.com/moviepages/", "/"),
        ("javfree", "https://javfree.me/?s=", ""),
        ("kin8", "https://www.kin8tengoku.com/moviepages/", "/"),
        ("muramura", "https://www.muramura.tv/moviepages/", "/"),
        ("mywife", "https://mywife.cc/works/", "/"),
        ("pacopacomama", "https://www.pacopacomama.com/moviepages/", "/"),
        ("pcolle", "https://www.pcolle.com/product/detail/?id=", ""),
        ("fc2hub", "https://javten.com/search?q=", ""),
        ("tokyohot", "https://my.tokyo-hot.com/product/?q=", ""),
        ("ave", "https://www.aventertainments.com/product.aspx?keyword=", ""),
    ];
    assert(Seq::new(v@.len(), |i: int| (v@[i].0@, v@[i].1@, v@[i].2@)) =~= simple_sources());
    v
}

/// The recipe of a simple source: its address parts from its row, its title, covers
/// marked `jacket`, `package`, `thumb` or `cover`, actors linked as `actress`, `actor`,
/// `star` or `model`, a long overview, score 40, and `<source> 无结果` for an error page
/// (which includes `404` and `Not Found`).
pub open spec fn simple_recipe_ok(source: Seq<char>, row: (Seq<char>, Seq<char>, Seq<char>), rc: WorksRecipe) -> bool {
    &&& rc.source@ == source
    &&& rc.url_head@ == row.1
    &&& rc.url_tail@ == row.2
    &&& rc.score == 40
    &&& rc.title@ == "h1, h2, h3, .title, .item-title, title"@
    &&& lits(rc.cover_marks@) == seq!["jacket"@, "package"@, "thumb"@, "cover"@]
    &&& lits(rc.actor_marks@) == seq!["actress"@, "actor"@, "star"@, "model"@]
    &&& (rc.overview matches Some(o) && o@ == "p, .description, .summary"@)
    &&& rc.strict
    &&& rc.missing@ == source + " 无结果"@
}

/// The recipe of a simple source, if the source is one of them.
pub fn simple_recipe(source: &str) -> (r: Option<WorksRecipe>)
    ensures
        simple_row_of(source@) matches Some(row) ==> (r matches Some(rc) && simple_recipe_ok(source@, row, rc)),
        simple_row_of(source@) is None ==> r is None,
{
    let t = simple_table();
    let ghost tv = simple_sources();
    let sc = chars_of(source);
    let mut k: usize = 0;
    while k < t.len()
        invariant
            k <= t@.len(),
            Seq::new(t@.len(), |i: int| (t@[i].0@, t@[i].1@, t@[i].2@)) == tv,
            tv == simple_sources(),
            sc@ == source@,
            forall|j: int| 0 <= j < k ==> (#[trigger] tv[j]).0 != source@,
        decreases t@.len() - k,
    {
        let (name, head, tail) = t[k];
        assert(tv[k as int] == (name@, head@, tail@));
        if crate::text::chars_eq(&chars_of(name), &sc) {
            proof {
                assert(first_row_named(tv, source@, k as int));
                let w = choose|i: int| #[trigger] first_row_named(tv, source@, i);
                if w < k {
                    assert(tv[w].0 != source@);
                } else if w > k {
                    assert(tv[k as int].0 != source@);
                }
                assert(w == k);
            }
            let rc = WorksRecipe {
                source: String::from_str(source),
                url_head: head,
                url_tail: tail,
                score: 40,
                title: "h1, h2, h3, .title, .item-title, title",
                cover_marks: vec!["jacket", "package", "thumb", "cover"],
                actor_marks: vec!["actress", "actor", "star", "model"],
                overview: Some("p, .description, .summary"),
                strict: true,
                missing: String::from_str(source).concat(" 无结果"),
            };
            assert(lits(rc.cover_marks@) =~= seq!["jacket"@, "package"@, "thumb"@, "cover"@]);
            assert(lits(rc.actor_marks@) =~= seq!["actress"@, "actor"@, "star"@, "model"@]);
            return Some(rc);
        }
        k += 1;
    }
    None
}

/// The code a works page is asked for: the query trimmed, in lower case, without `-`, `_`
/// or spaces.
pub open spec fn lower_code_of(query: Seq<char>) -> Seq<char> {
    strip_separators(str_lower(trim(query)))
}

/// The code a works page is asked for.
pub fn lower_code(query: &str) -> (r: String)
    ensures
        r@ == lower_code_of(query@),
{
    let t = string_of(&trim_exec(&chars_of(query)));
    let low = lower_string(t.as_str());
    string_of(&strip_separators_exec(&chars_of(low.as_str())))
}

/// The address of a listing source's search for the query's provider code.
pub fn listing_url(rc: &ListingRecipe, query: &str) -> (r: String)
    ensures
        r@ == rc.url@ + provider_code_of(query@),
{
    let code = provider_code(query);
    String::from_str(rc.url).concat(code.as_str())
}

/// The address of a works page for the query's lower-case code.
pub fn works_url(rc: &WorksRecipe, query: &str) -> (r: String)
    ensures
        r@ == rc.url_head@ + lower_code_of(query@) + rc.url_tail@,
{
    let code = lower_code(query);
    String::from_str(rc.url_head).concat(code.as_str()).concat(rc.url_tail)
}

} // verus!
