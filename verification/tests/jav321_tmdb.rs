use media_vault::error::SCRAPE_FAILED;
use media_vault::jav321::{jav321_page, jav321_rating_text, jav321_scrape_result, jav321_url};
use media_vault::sources::{
    airav_recipe, faleno_recipe, listing_url, lower_code, simple_recipe, works_page, works_url,
};
use media_vault::tmdb::{
    tmdb_api_key, tmdb_cast, tmdb_credits_url, tmdb_director, tmdb_first, tmdb_genre_names, tmdb_genres_url,
    tmdb_cast_names, tmdb_crew_list, tmdb_genre_list, tmdb_result, tmdb_results, tmdb_search_url, TmdbCrew, TmdbGenre,
    TmdbMovie,
};

fn page(inner: &str) -> String {
    format!("<html><body>{}<div>{}</div></body></html>", inner, "x".repeat(600))
}

#[test]
fn jav321_address_and_errors() {
    assert_eq!(jav321_url(" ABP-123 "), "https://www.jav321.com/video/abp123");
    let e = jav321_page("short", "Q", None).unwrap_err();
    assert_eq!((e.code, e.message.as_str()), (SCRAPE_FAILED, "JAV321 无结果"));
    let e = jav321_page(&page("Page not found"), "Q", None).unwrap_err();
    assert_eq!(e.message, "JAV321 无结果");
}

#[test]
fn jav321_fields() {
    let body = page(
        r#"<h3> Movie Title </h3><div class="movie-img"><img src="/pics/a.jpg"></div>
<div class="panel-body"> Summary </div>
<table><tr><td>収録時間: 7200</td></tr><tr><td>発売日: 2020-02-03</td></tr><tr><td>日期: 1999-01-01</td></tr>
<tr><td>評分: 4.5</td></tr></table>
<span class="star-name"><a> Ai </a></span><span class="genre"><a>Drama</a></span>"#,
    );
    assert_eq!(jav321_rating_text(&body).as_deref(), Some("4.5"));
    let r = jav321_page(&body, "Q", Some(4.5f64.to_bits())).unwrap();
    assert_eq!(r.title, "Movie Title");
    assert_eq!(r.poster_url.as_deref(), Some("https://www.jav321.com/pics/a.jpg"));
    assert_eq!(r.overview.as_deref(), Some("Summary"));
    assert_eq!(r.runtime, Some(120));
    assert_eq!(r.year, Some(2020));
    assert_eq!(r.actors, vec!["Ai".to_string()]);
    assert_eq!(r.genres, vec!["Drama".to_string()]);
    let s = jav321_scrape_result(r);
    assert_eq!((s.source.as_str(), s.score, s.director), ("jav321", 70, None));
    assert_eq!(s.rating, Some(4.5f64.to_bits()));
    assert_eq!(s.genre, Some(vec!["Drama".to_string()]));
}

#[test]
fn jav321_short_runtime_and_fallback_title() {
    let body = page(r#"<h1>Fallback</h1><p>時間 95</p>"#);
    let r = jav321_page(&body, "Q", None).unwrap();
    assert_eq!(r.title, "Fallback");
    assert_eq!(r.runtime, Some(95));
    assert_eq!(r.poster_url, None);
    let s = jav321_scrape_result(r);
    assert_eq!(s.actors, None);
}

#[test]
fn tmdb_requests() {
    assert_eq!(tmdb_api_key(None, Some("c".into()), Some("e".into())).unwrap(), "c");
    assert_eq!(tmdb_api_key(Some("s".into()), None, None).unwrap(), "s");
    let e = tmdb_api_key(None, None, None).unwrap_err();
    assert_eq!((e.code, e.message.as_str()), (SCRAPE_FAILED, "TMDB API Key未配置，请在设置→刮削源中填入"));
    assert_eq!(
        tmdb_search_url("K", "a b"),
        "https://api.themoviedb.org/3/search/movie?api_key=K&query=a%20b&language=zh-CN"
    );
    assert_eq!(
        tmdb_credits_url(603, "K").as_deref(),
        Some("https://api.themoviedb.org/3/movie/603/credits?api_key=K&language=zh-CN")
    );
    assert_eq!(tmdb_credits_url(0, "K"), None);
    assert_eq!(tmdb_genres_url("K"), "https://api.themoviedb.org/3/genre/movie/list?api_key=K&language=zh-CN");
}

fn movie(date: Option<&str>) -> TmdbMovie {
    TmdbMovie {
        id: Some(1),
        title: None,
        release_date: date.map(|d| d.to_string()),
        overview: Some("o".into()),
        vote_average: Some(7.5f64.to_bits()),
        poster_path: Some("/p.jpg".into()),
        backdrop_path: None,
        genre_ids: vec![28, 12],
    }
}

#[test]
fn tmdb_answer_parts() {
    assert_eq!(tmdb_first(None).unwrap_err().message, "TMDB无结果");
    assert_eq!(tmdb_first(Some(vec![])).unwrap_err().message, "TMDB无匹配");
    let first = tmdb_first(Some(vec![movie(Some("2001-01-01")), movie(None)])).unwrap();
    assert_eq!(first.release_date.as_deref(), Some("2001-01-01"));
    let crew = vec![
        TmdbCrew { job: Some("Writer".into()), name: Some("W".into()) },
        TmdbCrew { job: Some("Director".into()), name: Some("D".into()) },
        TmdbCrew { job: Some("Director".into()), name: Some("E".into()) },
    ];
    assert_eq!(tmdb_director(&crew).as_deref(), Some("D"));
    let nameless = vec![TmdbCrew { job: Some("Director".into()), name: None }, TmdbCrew { job: Some("Director".into()), name: Some("E".into()) }];
    assert_eq!(tmdb_director(&nameless), None);
    let cast: Vec<Option<String>> = vec![Some("a".into()), None, Some("b".into()), Some("c".into()), Some("d".into()), Some("e".into())];
    assert_eq!(tmdb_cast(&cast), vec!["a", "b", "c", "d"]);
    let list = vec![
        TmdbGenre { id: Some(12), name: Some("冒险".into()) },
        TmdbGenre { id: Some(99), name: Some("纪录".into()) },
        TmdbGenre { id: Some(28), name: Some("动作".into()) },
        TmdbGenre { id: None, name: Some("无".into()) },
    ];
    assert_eq!(tmdb_genre_names(&vec![28, 12], &list), vec!["冒险", "动作"]);
    let r = tmdb_result(movie(Some("1999-03-31")), "Query", Some("D".into()), vec![], Some(vec!["动作".into()]));
    assert_eq!((r.source.as_str(), r.title.as_str(), r.year, r.score), ("tmdb", "Query", Some(1999), 80));
    assert_eq!(r.poster_url.as_deref(), Some("https://image.tmdb.org/t/p/w500/p.jpg"));
    assert_eq!(r.backdrop_url, None);
    assert_eq!(r.actors, Some(vec![]));
    assert_eq!(r.rating, Some(7.5f64.to_bits()));
    assert_eq!(r.director.as_deref(), Some("D"));
}

#[test]
fn source_addresses() {
    assert_eq!(lower_code(" ABP-123 "), "abp123");
    assert_eq!(listing_url(&airav_recipe(), " abp-123 "), "https://www.airav.wiki/search?q=ABP123");
    assert_eq!(works_url(&faleno_recipe(), "FSDSS-001"), "https://faleno.jp/top/works/fsdss001/");
    let heyzo = simple_recipe("heyzo").unwrap();
    assert_eq!(works_url(&heyzo, "HEYZO-1234"), "https://www.heyzo.com/moviepages/heyzo1234/");
    assert_eq!(heyzo.missing, "heyzo 无结果");
    let ave = simple_recipe("ave").unwrap();
    assert_eq!(works_url(&ave, "x"), "https://www.aventertainments.com/product.aspx?keyword=x");
    assert!(simple_recipe("tmdb").is_none());
}

#[test]
fn simple_page_with_not_found_is_refused() {
    let heyzo = simple_recipe("heyzo").unwrap();
    let body = page("Not Found");
    let e = works_page(&body, "Q", &heyzo).unwrap_err();
    assert_eq!((e.code, e.message.as_str()), (SCRAPE_FAILED, "heyzo 无结果"));
    let ok = page(r#"<h1>Heyzo Title</h1><img src="/jacket/a.jpg"><a href="/actress/1">Mio</a>"#);
    let r = works_page(&ok, "Q", &heyzo).unwrap();
    assert_eq!(r.title, "Heyzo Title");
    assert_eq!(r.poster_url.as_deref(), Some("/jacket/a.jpg"));
    assert_eq!(r.actors, Some(vec!["Mio".to_string()]));
    assert_eq!(r.score, 40);
}

#[test]
fn tmdb_replies_are_read() {
    let body = r#"{"results":[{"id":27205,"title":"Inception","release_date":"2010-07-15","overview":"o","vote_average":8.4,"poster_path":"/p.jpg","backdrop_path":"/b.jpg","genre_ids":[28,"x",878]},{"title":"Other"}]}"#;
    let v = tmdb_results(body, &vec![Some(8.4f64.to_bits())]).unwrap();
    assert_eq!(v.len(), 2);
    assert_eq!(v[0].id, Some(27205));
    assert_eq!(v[0].title.as_deref(), Some("Inception"));
    assert_eq!(v[0].release_date.as_deref(), Some("2010-07-15"));
    assert_eq!(v[0].overview.as_deref(), Some("o"));
    assert_eq!(v[0].vote_average, Some(8.4f64.to_bits()));
    assert_eq!(v[0].poster_path.as_deref(), Some("/p.jpg"));
    assert_eq!(v[0].backdrop_path.as_deref(), Some("/b.jpg"));
    assert_eq!(v[0].genre_ids, vec![28, 878]);
    assert_eq!(v[1].id, None);
    assert_eq!(v[1].vote_average, None);
    assert!(v[1].genre_ids.is_empty());
    assert!(tmdb_results(r#"{"status":"bad"}"#, &vec![]).is_none());
    assert_eq!(tmdb_first(tmdb_results(r#"{"results":[]}"#, &vec![])).unwrap_err().message, "TMDB无匹配");

    let credits = r#"{"cast":[{"name":"Leo"},{"id":3}],"crew":[{"job":"Writer","name":"W"},{"job":"Director","name":"Nolan"}]}"#;
    let crew = tmdb_crew_list(credits).unwrap();
    assert_eq!(crew.len(), 2);
    assert_eq!(tmdb_director(&crew).as_deref(), Some("Nolan"));
    assert_eq!(tmdb_cast_names(credits).unwrap(), vec![Some("Leo".to_string()), None]);
    assert!(tmdb_crew_list("{}").is_none());
    assert!(tmdb_cast_names("nope").is_none());

    let genres = tmdb_genre_list(r#"{"genres":[{"id":28,"name":"Action"},{"id":878,"name":"Science Fiction"}]}"#).unwrap();
    assert_eq!(genres.len(), 2);
    assert_eq!(genres[1].id, Some(878));
    assert_eq!(tmdb_genre_names(&vec![878, 28], &genres), vec!["Action".to_string(), "Science Fiction".to_string()]);
    assert!(tmdb_genre_list(r#"{"genres":null}"#).is_none());
}
