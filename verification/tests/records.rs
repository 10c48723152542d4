use media_vault::error::{INTERNAL, INVALID_INPUT};
use media_vault::image_cache::{cache_file_name, max_width};
use media_vault::records::{
    actress_item_of, all_groups_query, batch_action_of, clean_groups_message, create_task_row, duplicate_group_error, genres_json,
    genre_translation, group_category, group_item, group_response, group_type_or_manual, new_actress_group_item,
    new_group_item, new_task, no_progress, parse_genre, progress_finished, progress_response, reorder_plan,
    root_items, task_response, update_actress, ActressRow, ActressUpdate, BatchAction, GroupRow,
    GroupRowWithCount, ProgressRow,
};
use media_vault::pan115::FileInfo;
use media_vault::sql::SqlArg;

#[test]
fn tasks_start_pending() {
    let t = new_task("id1".into(), "scan", "[\"a\"]".into(), 77);
    assert_eq!((t.status.as_str(), t.progress, t.created_at, t.updated_at), ("pending", 0, 77, 77));
    assert_eq!(t.target_ids, "[\"a\"]");
    let t = create_task_row("id2".into(), "scrape", &vec!["f\"1".to_string(), "f2".to_string()], 5).unwrap();
    assert_eq!(t.target_ids, r#"["f\"1","f2"]"#);
    assert_eq!(t.task_type, "scrape");
    let r = task_response(t);
    assert_eq!((r.id.as_str(), r.status.as_str(), r.progress, r.result, r.error), ("id2", "pending", 0, None, None));
    assert_ne!(INTERNAL, INVALID_INPUT);
}

#[test]
fn groups() {
    assert_eq!(group_category(None), None);
    assert_eq!(group_category(Some("all".into())), None);
    assert_eq!(group_category(Some("favorite".into())).as_deref(), Some("favorite"));
    let st = all_groups_query(Some("favorite"));
    assert!(st.sql.contains("WHERE g.type = ?1 GROUP BY g.id ORDER BY g.sort_order"));
    assert!(matches!(&st.args[..], [SqlArg::Text(t)] if t == "favorite"));
    let st = all_groups_query(None);
    assert!(!st.sql.contains("WHERE"));
    assert!(st.args.is_empty());
    assert_eq!(group_type_or_manual(None), "manual");
    assert_eq!(group_type_or_manual(Some("favorite".into())), "favorite");
    let e = duplicate_group_error("收藏");
    assert_eq!((e.code, e.message.as_str()), (INVALID_INPUT, "该类型下分组「收藏」已存在"));
    let g = new_group_item(9, "n".into(), "manual".into());
    assert_eq!((g.id, g.sort_order, g.movie_count), (9, 0, 0));
    let a = new_actress_group_item(3, "x".into());
    assert_eq!((a.id, a.name.as_str(), a.member_count), (3, "x", 0));
    let g = group_item(GroupRowWithCount { id: 1, name: "a".into(), group_type: "t".into(), sort_order: 4, movie_count: 7 });
    assert_eq!((g.id, g.name.as_str(), g.group_type.as_str(), g.sort_order, g.movie_count), (1, "a", "t", 4, 7));
    let r = group_response(GroupRow { id: 2, name: "b".into(), group_type: "u".into() });
    assert_eq!((r.id, r.name.as_str(), r.group_type.as_str()), (2, "b", "u"));
    assert_eq!(reorder_plan(&vec![30, 10, 20]), vec![(0, 30), (1, 10), (2, 20)]);
    assert_eq!(clean_groups_message(2, 1, 5, 0), "已清理: 2个影片分组, 1个演员分组, 5个影片关联, 0个演员关联");
}

#[test]
fn progress() {
    let p = no_progress();
    assert_eq!((p.progress, p.duration, p.is_finished), (0, 0, 0));
    let r = progress_response(ProgressRow { progress: 5, duration: 9, is_finished: 1 });
    assert_eq!((r.progress, r.duration, r.is_finished), (5, 9, 1));
    assert!(progress_finished(100, 100));
    assert!(progress_finished(120, 100));
    assert!(!progress_finished(99, 100));
    assert!(!progress_finished(5, 0));
}

#[test]
fn genres_and_actions() {
    assert_eq!(parse_genre(&Some("[\"剧情\",\"巨乳\"]".into())), vec!["剧情", "巨乳"]);
    assert!(parse_genre(&Some("not json".into())).is_empty());
    assert!(parse_genre(&None).is_empty());
    assert!(matches!(batch_action_of("mark_watched"), Ok(BatchAction::MarkWatched)));
    assert!(matches!(batch_action_of("mark_unwatched"), Ok(BatchAction::MarkUnwatched)));
    assert!(matches!(batch_action_of("rescrape"), Ok(BatchAction::Rescrape)));
    match batch_action_of("delete") {
        Err(e) => assert_eq!((e.code, e.message.as_str()), (INVALID_INPUT, "未知操作")),
        Ok(_) => panic!("accepted an unknown action"),
    }
    let g = genre_translation(("ドラマ".into(), "剧情".into(), true));
    assert_eq!((g.ja_name.as_str(), g.cn_name.as_str(), g.blacklisted), ("ドラマ", "剧情", true));
}

#[test]
fn actress_edits() {
    let edit = ActressUpdate {
        name: Some("新名".into()),
        debut_year: None,
        height: Some(165),
        bust: None,
        waist: None,
        hip: Some(4294967386),
        cup: None,
        source: Some("manual".into()),
        is_pending: Some(false),
    };
    let sts = update_actress(7, edit);
    let cols: Vec<&str> = sts.iter().map(|s| s.sql.as_str()).collect();
    assert_eq!(
        cols,
        vec![
            "UPDATE av_actors SET name = ?1 WHERE id = ?2",
            "UPDATE av_actors SET height = ?1 WHERE id = ?2",
            "UPDATE av_actors SET hip = ?1 WHERE id = ?2",
            "UPDATE av_actors SET source = ?1 WHERE id = ?2",
            "UPDATE av_actors SET is_pending = ?1 WHERE id = ?2",
        ]
    );
    assert!(matches!(&sts[1].args[..], [SqlArg::Int(165), SqlArg::Int(7)]));
    assert!(matches!(&sts[2].args[..], [SqlArg::Int(90), SqlArg::Int(7)]));
    assert!(matches!(&sts[4].args[..], [SqlArg::Int(0), SqlArg::Int(7)]));
    let empty = ActressUpdate {
        name: None, debut_year: None, height: None, bust: None, waist: None, hip: None, cup: None, source: None, is_pending: None,
    };
    assert!(update_actress(1, empty).is_empty());
    let a = actress_item_of(ActressRow {
        id: 4, name: "A".into(), avatar_local: None, debut_year: Some(2020), height: None, bust: None, waist: None,
        hip: None, cup: Some("C".into()), letter: Some("A".into()), movie_count: 3,
    });
    assert_eq!((a.id, a.movie_count, a.is_pending, a.local_folder_name, a.source), (4, 3, false, None, None));
}

#[test]
fn drive_roots() {
    let f = |cid: &str, dir: bool| FileInfo { cid: cid.into(), name: format!("n{}", cid), is_dir: dir, size: 0, update_time: 0, file_id: None };
    let roots = root_items(vec![f("1", true), f("2", false), f("3", true)]);
    let got: Vec<(String, String)> = roots.into_iter().map(|r| (r.cid, r.name)).collect();
    assert_eq!(got, vec![("1".to_string(), "n1".to_string()), ("3".to_string(), "n3".to_string())]);
}

#[test]
fn image_cache_names() {
    // SHA-256("abc") = ba7816bf8f01cfea414140de5dae2223b00361a396177a9cb410ff61f20015ad
    assert_eq!(cache_file_name("abc"), "ba7816bf8f01cfea.webp");
    assert_eq!(max_width("avatars"), 400);
    assert_eq!(max_width("posters"), 800);
}

#[test]
fn genres_as_json() {
    assert_eq!(genres_json(&vec!["剧情".to_string(), "a\"b".to_string()]), r#"["剧情","a\"b"]"#);
    assert_eq!(genres_json(&vec![]), "[]");
}
