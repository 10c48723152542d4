use media_vault::pan115::FileInfo;
use media_vault::scanner::{
    checks_stored, classify_entry, clears_library, file_title, is_video_file, scan_file_step, scan_start, should_list,
    total_pages, video_extensions, EntryAction, ScanAction,
};

fn entry(cid: &str, name: &str, is_dir: bool) -> FileInfo {
    FileInfo { cid: cid.to_string(), name: name.to_string(), is_dir, size: 0, update_time: 0, file_id: None }
}

#[test]
fn default_and_configured_extensions() {
    let d = video_extensions(None);
    assert_eq!(d.len(), 10);
    assert_eq!(d[0], "mp4");
    assert_eq!(d[9], "m2ts");
    assert_eq!(video_extensions(Some("[\"mp4\",\"webm\"]")), vec!["mp4".to_string(), "webm".to_string()]);
    assert_eq!(video_extensions(Some("not json")).len(), 10);
}

#[test]
fn video_detection_ignores_ascii_case() {
    let exts = video_extensions(None);
    assert!(is_video_file("movie.MP4", &exts));
    assert!(is_video_file("a.b.mkv", &exts));
    assert!(!is_video_file("notes.txt", &exts));
    assert!(!is_video_file("mp4file", &exts));
    assert!(is_video_file("mp4", &exts));
}

#[test]
fn title_drops_the_extension() {
    assert_eq!(file_title("ABP-123.mp4"), "ABP-123");
    assert_eq!(file_title("a.b.mkv"), "a.b");
    assert_eq!(file_title(".mp4"), "");
}

#[test]
fn entries_are_classified() {
    let exts = video_extensions(None);
    assert!(matches!(classify_entry(&entry("12", "dir", true), &exts), EntryAction::Enter));
    assert!(matches!(classify_entry(&entry("0", "dir", true), &exts), EntryAction::Skip));
    assert!(matches!(classify_entry(&entry("", "dir", true), &exts), EntryAction::Skip));
    assert!(matches!(classify_entry(&entry("", "x.avi", false), &exts), EntryAction::Collect));
    assert!(matches!(classify_entry(&entry("", "x.jpg", false), &exts), EntryAction::Skip));
}

#[test]
fn listing_limits() {
    assert!(should_list(0, 3, false));
    assert!(!should_list(4, 3, false));
    assert!(!should_list(1, 3, true));
    assert_eq!(total_pages(150, 5000), 1);
    assert_eq!(total_pages(200, 401), 3);
    assert_eq!(total_pages(200, 400), 2);
    assert_eq!(total_pages(200, 1_000_000), 50);
    assert_eq!(total_pages(200, 0), 0);
}

#[test]
fn scan_modes_decide_per_file() {
    assert!(clears_library("full"));
    assert!(!clears_library("incremental"));
    assert!(checks_stored("incremental"));
    assert!(!checks_stored("manual"));

    let c = scan_start("full", 5, 12);
    assert_eq!((c.total, c.new, c.updated, c.deleted), (5, 0, 0, 12));
    let c = scan_start("incremental", 5, 12);
    assert_eq!(c.deleted, 0);

    let (a, c) = scan_file_step("incremental", true, true, c);
    assert!(a == ScanAction::UpdateSize);
    assert_eq!((c.new, c.updated), (0, 1));
    let (a, c) = scan_file_step("incremental", true, false, c);
    assert!(a == ScanAction::Insert);
    assert_eq!((c.new, c.updated), (1, 1));
    let (a, c) = scan_file_step("incremental", false, true, c);
    assert!(a == ScanAction::Skip);
    assert_eq!((c.new, c.updated), (1, 1));
    let (a, c) = scan_file_step("full", true, true, c);
    assert!(a == ScanAction::Insert);
    assert_eq!((c.total, c.new, c.updated, c.deleted), (5, 2, 1, 0));
}
