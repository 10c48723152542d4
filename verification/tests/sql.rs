use media_vault::sql::{confirm_actor, delete_actresses, get_actresses_paginated, get_movies_paginated, get_pending_tasks, SqlArg};

#[test]
fn movie_page_without_filters() {
    let q = get_movies_paginated(None, None, None, None, None, None, "", 1, 20);
    assert_eq!(q.count.sql, "SELECT COUNT(*) FROM movies m WHERE 1=1 AND m.is_hidden = 0");
    assert!(q.count.args.is_empty());
    assert!(q.page.sql.starts_with("SELECT m.file_id, m.title, m.year, m.poster_local, m.rating, m.genre, m.is_hidden,\n"));
    assert!(q.page.sql.ends_with("WHERE 1=1 AND m.is_hidden = 0\n         ORDER BY m.updated_at DESC LIMIT ?1 OFFSET ?2"));
    assert_eq!(q.page.args.len(), 2);
    assert!(matches!(q.page.args[0], SqlArg::Int(20)));
    assert!(matches!(q.page.args[1], SqlArg::Int(0)));
}

#[test]
fn movie_page_with_all_filters() {
    let q = get_movies_paginated(Some("abc"), Some(2020), Some("Drama"), Some(7), Some(true), Some(true), "year_desc", 3, 10);
    assert_eq!(
        q.count.sql,
        "SELECT COUNT(*) FROM movies m WHERE 1=1 AND m.file_id IN (SELECT movie_id FROM movie_groups mg JOIN groups g ON mg.group_id = g.id WHERE g.type = 'favorite') AND title LIKE ?1 AND year = ?2 AND genre LIKE ?3 AND m.file_id IN (SELECT movie_id FROM movie_groups WHERE group_id = ?4) AND m.is_hidden = ?5"
    );
    assert!(q.page.sql.ends_with("ORDER BY m.year DESC LIMIT ?6 OFFSET ?7"));
    assert_eq!(q.page.args.len(), 7);
    assert!(matches!(&q.page.args[0], SqlArg::Text(t) if t == "%abc%"));
    assert!(matches!(q.page.args[1], SqlArg::Int(2020)));
    assert!(matches!(&q.page.args[2], SqlArg::Text(t) if t == "%\"Drama\"%"));
    assert!(matches!(q.page.args[3], SqlArg::Int(7)));
    assert!(matches!(q.page.args[4], SqlArg::Int(1)));
    assert!(matches!(q.page.args[5], SqlArg::Int(10)));
    assert!(matches!(q.page.args[6], SqlArg::Int(20)));
}

#[test]
fn movie_page_skips_empty_texts() {
    let q = get_movies_paginated(Some(""), None, Some(""), None, Some(false), None, "title_asc", 1, 5);
    assert_eq!(q.count.sql, "SELECT COUNT(*) FROM movies m WHERE 1=1 AND m.is_hidden = ?1");
    assert!(matches!(q.count.args[0], SqlArg::Int(0)));
    assert!(q.page.sql.ends_with("ORDER BY m.title ASC LIMIT ?2 OFFSET ?3"));
}

#[test]
fn movie_sort_orders() {
    let q = get_movies_paginated(None, None, None, None, None, None, "year_asc", 1, 5);
    assert!(q.page.sql.contains("ORDER BY m.year ASC"));
    let q = get_movies_paginated(None, None, None, None, None, None, "rating_desc", 1, 5);
    assert!(q.page.sql.contains("ORDER BY m.rating DESC"));
}

#[test]
fn simple_actress_page() {
    let q = get_actresses_paginated(2, 30, Some("mi"));
    assert_eq!(q.count.sql, "SELECT COUNT(*) FROM av_actors a WHERE (a.name LIKE ?1 OR EXISTS (SELECT 1 FROM actress_aliases al WHERE al.actress_id = a.id AND al.alias_name LIKE ?1))");
    assert!(q.page.sql.ends_with("ORDER BY a.name LIMIT ?2 OFFSET ?3"));
    assert!(matches!(q.page.args[2], SqlArg::Int(30)));
    let q = get_actresses_paginated(1, 30, None);
    assert_eq!(q.count.sql, "SELECT COUNT(*) FROM av_actors a WHERE 1=1");
    assert!(q.page.sql.ends_with("FROM av_actors a WHERE 1=1 ORDER BY a.name LIMIT ?1 OFFSET ?2"));
}

#[test]
fn simple_actress_listing_runs_without_search() {
    let conn = rusqlite::Connection::open_in_memory().unwrap();
    conn.execute_batch(
        "CREATE TABLE av_actors (id INTEGER PRIMARY KEY, name TEXT, avatar_local TEXT, debut_year INTEGER, height INTEGER,
            bust INTEGER, waist INTEGER, hip INTEGER, cup TEXT, letter TEXT);
         CREATE TABLE actors (id INTEGER PRIMARY KEY, name TEXT);
         CREATE TABLE movie_actors (movie_id TEXT, actor_id INTEGER);
         INSERT INTO av_actors (name) VALUES ('B'), ('A'), ('C');",
    )
    .unwrap();
    let q = get_actresses_paginated(1, 2, Some(""));
    let total: i64 = conn.query_row(&q.count.sql, [], |r| r.get(0)).unwrap();
    assert_eq!(total, 3);
    let mut stmt = conn.prepare(&q.page.sql).unwrap();
    let names: Vec<String> = stmt.query_map([2i64, 0i64], |r| r.get(1)).unwrap().map(|r| r.unwrap()).collect();
    assert_eq!(names, vec!["A", "B"]);
}

#[test]
fn single_actor_statements() {
    let st = confirm_actor(9, true);
    assert_eq!(st.sql, "UPDATE av_actors SET is_pending = 0 WHERE id = ?1");
    assert!(matches!(st.args[0], SqlArg::Int(9)));
    let st = confirm_actor(9, false);
    assert_eq!(st.sql, "DELETE FROM av_actors WHERE id = ?1 AND is_pending = 1");
    assert_eq!(delete_actresses(&[1, 22, -3]).sql, "DELETE FROM av_actors WHERE id IN (1,22,-3)");
    assert_eq!(delete_actresses(&[]).sql, "DELETE FROM av_actors WHERE id IN ()");
    assert!(get_pending_tasks().sql.ends_with("WHERE status IN ('pending', 'running', 'paused') ORDER BY created_at"));
}
