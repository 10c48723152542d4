use media_vault::error::SCRAPE_FAILED;
use media_vault::fields::{last_word_exec, second_part_exec, year4_exec};
use media_vault::pages::{
    arzon_page, arzon_search_url, detail_link, detail_page, detail_page_checked, douban_link, douban_page,
    douban_rating_text, douban_search_url, fanza_recipe, fanza_search_url, fc2_article_url, fc2_recipe, imdb_link,
    imdb_page, imdb_rating_text, imdb_search_url, javdb_link, javdb_recipe, javdb_search_url, javlib_link, javlib_recipe,
    javlib_search_url, mgstage_recipe, read_rows, search_code, LinkRule, RowRule,
};

fn chars(s: &str) -> Vec<char> {
    s.chars().collect()
}

fn text(v: Option<Vec<char>>) -> Option<String> {
    v.map(|c| c.into_iter().collect())
}

#[test]
fn second_part_is_split_nth_one() {
    assert_eq!(text(second_part_exec(&chars("日期: 2024-01-01"), &chars("日期:"))), Some(" 2024-01-01".to_string()));
    assert_eq!(text(second_part_exec(&chars("a:b:c"), &chars(":"))), Some("b".to_string()));
    assert_eq!(text(second_part_exec(&chars("abc"), &chars(":"))), None);
    assert_eq!(text(second_part_exec(&chars("a:"), &chars(":"))), Some(String::new()));
}

#[test]
fn last_word_is_split_whitespace_last() {
    assert_eq!(text(last_word_exec(&chars("発売日： 2024/01/01 \n"))), Some("2024/01/01".to_string()));
    assert_eq!(text(last_word_exec(&chars("one"))), Some("one".to_string()));
    assert_eq!(text(last_word_exec(&chars("  \t "))), None);
    assert_eq!(text(last_word_exec(&chars(""))), None);
}

#[test]
fn year_from_four_bytes() {
    assert_eq!(year4_exec("2024-05-06"), Some(2024));
    assert_eq!(year4_exec("1999"), Some(1999));
    assert_eq!(year4_exec("20x4-01"), None);
    assert_eq!(year4_exec("-123"), Some(-123));
}

#[test]
fn search_addresses() {
    assert_eq!(search_code("abp-123"), "ABP123");
    assert_eq!(search_code("a_b c-d"), "ABCD");
    assert_eq!(javdb_search_url("abp-123"), "https://javdb.com/search?q=ABP123&f=all");
    assert_eq!(javlib_search_url("abp 1"), "https://www.javlibrary.com/en/vl_searchbyid.php?keyword=ABP1");
    assert_eq!(fanza_search_url("ssis-001"), "https://www.dmm.co.jp/mono/dvd/-/search/=/searchstr=SSIS001");
    assert_eq!(arzon_search_url("é-1"), "https://www.arzon.jp/itemlist.html?q=%C91");
    assert_eq!(imdb_search_url("The Matrix"), "https://www.imdb.com/find/?q=The%20Matrix");
    assert_eq!(douban_search_url("a b"), "https://movie.douban.com/subject_search?search_text=a%20b");
}

#[test]
fn fc2_needs_digits() {
    assert_eq!(fc2_article_url("123-456").unwrap(), "https://adult.contents.fc2.com/article/123456/");
    let e = fc2_article_url("FC2-PPV-1").unwrap_err();
    assert_eq!(e.code, SCRAPE_FAILED);
    assert_eq!(e.message, "FC2需要纯数字ID");
}

#[test]
fn links_from_search_pages() {
    let javdb = r#"<div class="movie-list"><div class="item"><a class="box" href="/v/abc">x</a></div></div>"#;
    assert_eq!(javdb_link(javdb).unwrap(), "https://javdb.com/v/abc");
    let e = javdb_link("<p>nothing</p>").unwrap_err();
    assert_eq!(e.code, SCRAPE_FAILED);
    assert_eq!(e.message, "JavDB无结果");
    let javlib = r#"<div class="video"><a href="./?v=javli123">x</a></div>"#;
    assert_eq!(javlib_link(javlib).unwrap(), "https://www.javlibrary.com/?v=javli123");
    let douban = r#"<div class="item-root"><a class="cover-link" href="/subject/1/?from=search">x</a></div>"#;
    assert_eq!(douban_link(douban).unwrap(), "https://movie.douban.com/subject/1/");
    assert_eq!(douban_link("<p></p>").unwrap_err().message, "豆瓣无结果");
    let imdb = r#"<div class="ipc-metadata-list-summary-item__t"><a href="/title/tt1/">x</a></div>"#;
    assert_eq!(imdb_link(imdb).unwrap(), "https://www.imdb.com/title/tt1/");
    assert_eq!(
        detail_link(r#"<a class="x" href="https://a/b">x</a>"#, "a.x", &LinkRule::AsIs, "none").unwrap(),
        "https://a/b"
    );
    assert_eq!(detail_link("<p></p>", "a.x", &LinkRule::AsIs, "none").unwrap_err().message, "none");
}

const JAVDB_PAGE: &str = r#"<html><body>
<h2 class="video-title"><strong> ABP-123 Title </strong></h2>
<div class="video-cover"><img src="https://c/cover.jpg"></div>
<div class="panel-block">日期: 2023-05-01</div>
<div class="panel-block">導演: Someone </div>
<div class="panel-block">時長: 120</div>
<span class="actress-name"><a> Yui </a></span><span class="actress-name"><a> </a></span>
</body></html>"#;

#[test]
fn javdb_detail_page() {
    let r = detail_page(JAVDB_PAGE, "ABP-123", &javdb_recipe());
    assert_eq!(r.source, "javdb");
    assert_eq!(r.title, "ABP-123 Title");
    assert_eq!(r.poster_url.as_deref(), Some("https://c/cover.jpg"));
    assert_eq!(r.year, Some(2023));
    assert_eq!(r.director.as_deref(), Some("Someone"));
    assert_eq!(r.runtime, Some(120));
    assert_eq!(r.actors, Some(vec!["Yui".to_string()]));
    assert_eq!(r.genre, None);
    assert_eq!(r.score, 70);
    let same = detail_page_checked(JAVDB_PAGE, "ABP-123", &javdb_recipe()).unwrap();
    assert_eq!(same.title, r.title);
}

#[test]
fn javdb_short_date_is_refused() {
    let page = r#"<div class="panel-block">日期: 20</div>"#;
    assert!(detail_page_checked(page, "Q", &javdb_recipe()).is_none());
    let r = detail_page_checked("<p>none</p>", "Q", &javdb_recipe()).unwrap();
    assert_eq!(r.title, "Q");
    assert_eq!(r.year, None);
    assert_eq!(r.actors, None);
}

#[test]
fn javlib_rows() {
    let page = r#"<h3 class="post-title">T</h3><img id="video_jacket_img" src="//p.jpg">
<div id="video_info"><div class="item">Release Date: 2020/01/02</div>
<div class="item">Director: Dir</div><div class="item">Length: 95 min(s)</div></div>
<span class="cast"><a>A</a></span><span class="genre"><a>G1</a><a>G2</a></span>"#;
    let r = detail_page(page, "Q", &javlib_recipe());
    assert_eq!(r.source, "javlibrary");
    assert_eq!(r.year, Some(2020));
    assert_eq!(r.director.as_deref(), Some("Dir"));
    assert_eq!(r.runtime, Some(95));
    assert_eq!(r.poster_url.as_deref(), Some("//p.jpg"));
    assert_eq!(r.genre, Some(vec!["G1".to_string(), "G2".to_string()]));
}

#[test]
fn fanza_and_mgstage_rows() {
    let rows = vec!["発売日： 2021/03/04".to_string(), "収録時間： 150min".to_string()];
    assert_eq!(read_rows(&RowRule::Fanza, &rows), (Some(2021), None, Some(150)));
    let rows = vec!["発売日： 2018/12/01".to_string(), "収録時間： 120分".to_string()];
    assert_eq!(read_rows(&RowRule::Mgstage, &rows), (Some(2018), None, Some(120)));
    let rows = vec!["販売開始日 : 2022/07/07".to_string(), "収録時間 99".to_string()];
    assert_eq!(read_rows(&RowRule::Fc2, &rows), (Some(2022), None, None));
    let r = detail_page("<p>x</p>", "Q", &fanza_recipe());
    assert_eq!((r.source.as_str(), r.score), ("fanza", 65));
    let r = detail_page("<p>x</p>", "Q", &mgstage_recipe());
    assert_eq!((r.source.as_str(), r.score), ("mgstage", 60));
    let r = detail_page("<p>x</p>", "Q", &fc2_recipe());
    assert_eq!((r.source.as_str(), r.score, r.actors), ("fc2", 55, None));
}

#[test]
fn imdb_and_douban_pages() {
    let imdb = r#"<h1> Film </h1><div class="sc-afe43def-1"><a class="ipc-inline-list__item">1999</a></div>
<div class="sc-bde20123-1"><span>8.7</span></div><div class="ipc-media"><img src="https://m/p.jpg"></div>"#;
    assert_eq!(imdb_rating_text(imdb).as_deref(), Some("8.7"));
    let r = imdb_page(imdb, "Q", Some(8.7f64.to_bits()));
    assert_eq!((r.title.as_str(), r.year, r.score), ("Film", Some(1999), 75));
    assert_eq!(r.rating, Some(8.7f64.to_bits()));
    assert_eq!(r.poster_url.as_deref(), Some("https://m/p.jpg"));
    let douban = r#"<h1><span>电影</span></h1><span class="year">(2019)</span><strong class="rating_num">9.1</strong>
<div id="mainpic"><img src="https://d/p.jpg"></div><div id="link-report"><span property="v:summary"> 简介 </span></div>"#;
    assert_eq!(douban_rating_text(douban).as_deref(), Some("9.1"));
    let r = douban_page(douban, "Q", None);
    assert_eq!((r.title.as_str(), r.year, r.score), ("电影", Some(2019), 70));
    assert_eq!(r.overview.as_deref(), Some("简介"));
    assert_eq!(r.rating, None);
}

#[test]
fn arzon_search_page() {
    let page = r#"<div class="item"><img alt="Arzon Title" src="//img.arzon.jp/a.jpg"></div>"#;
    let r = arzon_page(page).unwrap();
    assert_eq!(r.title, "Arzon Title");
    assert_eq!(r.poster_url.as_deref(), Some("https://img.arzon.jp/a.jpg"));
    assert_eq!(r.score, 50);
    let e = arzon_page(r#"<div class="item"><img src="x"></div>"#).unwrap_err();
    assert_eq!((e.code, e.message.as_str()), (SCRAPE_FAILED, "Arzon无结果"));
}
