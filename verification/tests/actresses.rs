use media_vault::actress_folder::{folder_rename_allowed, merge_failed, merge_succeeded, merges_folders, merge_applies, rename_actor_plan, MergeOptions, ScanResult};
use media_vault::actress_folder::{
    conflict_action, default_conflict_policy, default_dry_run, first_char_upper, get_actor_base_dir,
    file_merge_step, levenshtein_distance, renamed_file_name, ConflictAction, FileMergeStep,
};
use media_vault::actress_listing::{actresses_by_letter_query, get_actresses_by_letter, get_actresses_paginated, ActressItem};
use media_vault::sql::SqlArg;

fn item(id: i64, name: &str, letter: Option<&str>) -> ActressItem {
    ActressItem {
        id, name: name.to_string(), avatar_local: None, debut_year: None, height: None, bust: None,
        waist: None, hip: None, cup: None, letter: letter.map(|s| s.to_string()), movie_count: 0,
        local_folder_name: None, is_pending: false, source: None,
    }
}

#[test]
fn levenshtein_values() {
    assert_eq!(levenshtein_distance("kitten", "sitting"), 3);
    assert_eq!(levenshtein_distance("", "abc"), 3);
    assert_eq!(levenshtein_distance("abc", ""), 3);
    assert_eq!(levenshtein_distance("same", "same"), 0);
    assert_eq!(levenshtein_distance("中文", "中国"), 1);
    assert_eq!(levenshtein_distance("flaw", "lawn"), 2);
}

#[test]
fn first_letter_of_names() {
    assert_eq!(first_char_upper("abc"), "A");
    assert_eq!(first_char_upper(""), "#");
    assert_eq!(first_char_upper("ßx"), "SS");
    assert_eq!(first_char_upper("中"), "中");
}

#[test]
fn base_dir_and_defaults() {
    assert_eq!(get_actor_base_dir(None), r"D:\Media Library\Actor Information\picture");
    assert_eq!(get_actor_base_dir(Some("E:/x".to_string())), "E:/x");
    assert_eq!(default_conflict_policy(), "rename");
    assert!(default_dry_run());
}

#[test]
fn conflict_policies() {
    assert!(matches!(conflict_action("overwrite", false), ConflictAction::Copy));
    assert!(matches!(conflict_action("overwrite", true), ConflictAction::Overwrite));
    assert!(matches!(conflict_action("skip", true), ConflictAction::Skip));
    assert!(matches!(conflict_action("rename", true), ConflictAction::CopyRenamed));
    assert!(matches!(conflict_action("anything", true), ConflictAction::CopyRenamed));
    assert_eq!(renamed_file_name("photo", "jpg"), "photo_1.jpg");
}

#[test]
fn grouping_by_letter_keeps_runs() {
    let rows = vec![
        item(1, "a1", Some("A")),
        item(2, "a2", Some("Abc")),
        item(3, "b1", Some("B")),
        item(4, "x", None),
        item(5, "y", Some("")),
        item(6, "a3", Some("A")),
    ];
    let groups = get_actresses_by_letter(rows);
    let letters: Vec<&str> = groups.iter().map(|g| g.letter.as_str()).collect();
    assert_eq!(letters, vec!["A", "B", "#", "A"]);
    let sizes: Vec<usize> = groups.iter().map(|g| g.actresses.len()).collect();
    assert_eq!(sizes, vec![2, 1, 2, 1]);
    assert_eq!(groups[2].actresses[1].id, 5);
    assert!(get_actresses_by_letter(vec![]).is_empty());
}

#[test]
fn by_letter_query_orders_by_letter() {
    let st = actresses_by_letter_query();
    assert!(st.sql.ends_with("FROM av_actors a ORDER BY a.letter, a.name"));
    assert!(st.args.is_empty());
}

#[test]
fn actress_page_with_search_and_filters() {
    let q = get_actresses_paginated(2, 10, Some("yui"), Some("height"), Some("desc"), Some(true), Some(5));
    assert_eq!(
        q.count.sql,
        "SELECT COUNT(*) FROM av_actors a WHERE a.is_pending = 1 AND a.id IN (SELECT actress_id FROM actress_group_members WHERE group_id = 5) AND (a.name LIKE ?1 OR EXISTS (SELECT 1 FROM actress_aliases al WHERE al.actress_id = a.id AND al.alias_name LIKE ?1))"
    );
    assert!(q.page.sql.ends_with(" ORDER BY a.\"height\" desc LIMIT ?2 OFFSET ?3"));
    assert_eq!(q.page.args.len(), 3);
    assert!(matches!(&q.page.args[0], SqlArg::Text(t) if t == "%yui%"));
    assert!(matches!(q.page.args[1], SqlArg::Int(10)));
    assert!(matches!(q.page.args[2], SqlArg::Int(10)));
}

#[test]
fn actress_page_defaults() {
    let q = get_actresses_paginated(1, 20, None, Some("bogus"), None, None, None);
    assert_eq!(q.count.sql, "SELECT COUNT(*) FROM av_actors a ");
    assert!(q.page.sql.ends_with("FROM av_actors a  ORDER BY a.\"name\" asc LIMIT ?1 OFFSET ?2"));
    assert!(q.count.args.is_empty());
    let q = get_actresses_paginated(1, 20, Some(""), Some("movie_count"), Some("desc"), Some(false), None);
    assert_eq!(q.count.sql, "SELECT COUNT(*) FROM av_actors a WHERE a.is_pending = 0");
    assert!(q.page.sql.ends_with("WHERE a.is_pending = 0 ORDER BY movie_count desc LIMIT ?1 OFFSET ?2"));
    assert!(matches!(q.page.args[1], SqlArg::Int(0)));
}

#[test]
fn rename_and_merge_plans() {
    assert!(folder_rename_allowed(Some("1")));
    assert!(!folder_rename_allowed(Some("0")));
    assert!(!folder_rename_allowed(None));
    let p = rename_actor_plan(3, "New", true, true, true, false, Some("1"));
    assert!(p.rename_on_disk);
    assert_eq!(p.statement.sql, "UPDATE av_actors SET name = ?1, local_folder_name = ?1 WHERE id = ?2");
    let p = rename_actor_plan(3, "New", true, true, true, false, None);
    assert!(!p.rename_on_disk);
    assert_eq!(p.statement.sql, "UPDATE av_actors SET name = ?1, local_folder_name = ?1 WHERE id = ?2");
    let p = rename_actor_plan(3, "New", false, true, true, false, Some("1"));
    assert!(!p.rename_on_disk);
    assert_eq!(p.statement.sql, "UPDATE av_actors SET name = ?1 WHERE id = ?2");
    assert!(matches!(&p.statement.args[0], SqlArg::Text(t) if t == "New"));
    let o = MergeOptions { merge_folders: true, conflict_policy: "rename".to_string(), dry_run: true };
    assert!(merges_folders(&o, &Some("a".to_string()), &Some("b".to_string())));
    assert!(!merges_folders(&o, &None, &Some("b".to_string())));
    assert!(!merge_applies(&o));
    let r = merge_failed(vec!["x".to_string()], vec![], vec![], "disk full");
    assert!(!r.success);
    assert_eq!(r.error, Some("文件夹合并失败: disk full".to_string()));
    assert_eq!(r.moved_files, vec!["x".to_string()]);
    let r = merge_succeeded(vec![], vec!["c".to_string()], vec![]);
    assert!(r.success && r.error.is_none());
}

#[test]
fn folder_scan_tally() {
    let mut r = ScanResult::new();
    r.record_folder(true);
    r.record_folder(false);
    r.record_folder(false);
    assert_eq!((r.added, r.total), (2, 3));
}

#[test]
fn levenshtein_length_gap_and_triangle() {
    let words = ["kitten", "sitting", "", "mitten", "中文", "中国人", "sit"];
    for a in words {
        for b in words {
            let d = levenshtein_distance(a, b);
            let (la, lb) = (a.chars().count(), b.chars().count());
            assert!(la.abs_diff(lb) <= d);
            for c in words {
                assert!(levenshtein_distance(a, c) <= d + levenshtein_distance(b, c));
            }
        }
    }
}

#[test]
fn dry_run_only_previews_file_steps() {
    assert!(matches!(file_merge_step("skip", true, true), FileMergeStep::Preview(ConflictAction::Skip)));
    assert!(matches!(file_merge_step("skip", false, true), FileMergeStep::Preview(ConflictAction::Copy)));
    assert!(matches!(file_merge_step("overwrite", true, false), FileMergeStep::Apply(ConflictAction::Overwrite)));
    assert!(matches!(file_merge_step("rename", true, false), FileMergeStep::Apply(ConflictAction::CopyRenamed)));
}
