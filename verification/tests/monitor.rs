use clipbrain::classifier::ContentType;
use clipbrain::clipboard::monitor::{
    build_history_item, char_count, image_preview_text, is_sensitive_type, make_file_list_preview,
    make_preview, should_auto_show, ClipboardMonitor, ClipboardSnapshot, FrontAppCache,
    PolledChange,
};

#[test]
fn text_changes_are_reported_once_and_debounced() {
    let mut m = ClipboardMonitor::new(500, 300, 1000);
    assert_eq!(m.poll_text("hello".to_string(), 1100), None);
    assert_eq!(m.poll_text("hello".to_string(), 1300), Some("hello".to_string()));
    assert_eq!(m.poll_text("hello".to_string(), 5000), None);
    assert_eq!(m.poll_text("world".to_string(), 1400), None);
    assert_eq!(m.poll_text("   ".to_string(), 9000), None);
    assert_eq!(m.poll_text("world".to_string(), 9000), Some("world".to_string()));
    assert_eq!(m.poll_interval_ms(), 500);
}

#[test]
fn images_are_told_apart_by_hash() {
    let mut m = ClipboardMonitor::new(500, 0, 0);
    assert_eq!(m.poll_image(0, 10, b"abc", 10), None);
    let h = m.poll_image(2, 2, b"abc", 10).unwrap();
    assert_eq!(h, "ba7816bf8f01cfea414140de5dae2223b00361a396177a9cb410ff61f20015ad");
    assert_eq!(m.poll_image(2, 2, b"abc", 20), None);
    assert!(m.poll_image(2, 2, b"abd", 30).is_some());
}

#[test]
fn file_lists_are_reported_when_their_paths_change() {
    let mut m = ClipboardMonitor::new(500, 0, 0);
    assert_eq!(m.poll_file_list(vec![], 1), None);
    let paths = vec!["/a".to_string(), "/b".to_string()];
    assert_eq!(m.poll_file_list(paths.clone(), 1), Some(paths.clone()));
    assert_eq!(m.poll_file_list(paths, 2), None);
}

#[test]
fn previews() {
    assert_eq!(make_preview("  short  ", 200), "short");
    assert_eq!(make_preview("abcdef", 3), "abc…");
    assert_eq!(make_preview("中文字", 4), "中文字");
    assert_eq!(make_preview("中文字", 2), "中文…");
    assert_eq!(make_preview("你好", 3), "你好");
    assert_eq!(make_preview("中文字", 0), "…");
    assert_eq!(
        make_file_list_preview(&vec!["/x/a.txt".to_string(), "/y/b".to_string()]),
        "a.txt\nb"
    );
    assert_eq!(
        make_file_list_preview(&vec!["/1".to_string(), "/2".to_string(), "/3".to_string(), "/4".to_string()]),
        "1\n2\n3\n…"
    );
    assert_eq!(make_file_list_preview(&vec!["/".to_string()]), "/");
    assert_eq!(image_preview_text(640, 480), "[Image 640x480]");
}

#[test]
fn sensitive_types_and_popup_modes() {
    assert!(is_sensitive_type(&ContentType::PhoneNumber));
    assert!(is_sensitive_type(&ContentType::Email));
    assert!(!is_sensitive_type(&ContentType::PlainText));
    assert!(should_auto_show("both"));
    assert!(should_auto_show("auto_popup"));
    assert!(!should_auto_show("hotkey"));
    assert_eq!(char_count("中a"), 4);
}

#[test]
fn history_items_are_never_pinned() {
    let item = build_history_item(7, Some("x".to_string()), None, "PlainText".to_string(), None, Some(1), true, "2024-01-01 00:00:00".to_string());
    assert_eq!(item.id, 7);
    assert!(!item.is_pinned);
    assert!(item.is_sensitive);
}

#[test]
fn previews_stay_within_their_limit_plus_the_ellipsis() {
    for limit in 0..12 {
        let p = make_preview("日本語のテキストです abc", limit);
        assert!(p.chars().count() <= limit + 1);
    }
}

#[test]
fn foreground_application_is_reused_for_five_seconds() {
    let mut cache = FrontAppCache::new();
    assert_eq!(cache.cached(0), None);
    cache.store(&Some("Safari".to_string()), 1000);
    assert_eq!(cache.cached(5999), Some(Some("Safari".to_string())));
    assert_eq!(cache.cached(6000), None);
    assert_eq!(cache.cached(10), Some(Some("Safari".to_string())));
}

fn snap(image: Option<(u64, u64, Vec<u8>)>, files: Vec<&str>, text: Option<&str>) -> ClipboardSnapshot {
    ClipboardSnapshot {
        image,
        files: files.into_iter().map(|f| f.to_string()).collect(),
        text: text.map(|t| t.to_string()),
    }
}

#[test]
fn a_new_image_wins_over_files_and_text() {
    let mut m = ClipboardMonitor::new(500, 0, 0);
    let s = snap(Some((2, 2, b"abc".to_vec())), vec!["/a"], Some("hello"));
    match m.poll_snapshot(&s, 10, true) {
        Some(PolledChange::Image { hash }) => {
            assert_eq!(hash, "ba7816bf8f01cfea414140de5dae2223b00361a396177a9cb410ff61f20015ad")
        }
        _ => panic!("expected an image change"),
    }
    // The same image again: the file list is reported next.
    match m.poll_snapshot(&s, 20, true) {
        Some(PolledChange::Files { paths, show }) => {
            assert_eq!(paths, vec!["/a".to_string()]);
            assert!(show);
        }
        _ => panic!("expected a file-list change"),
    }
    // Nothing new, and text is ignored while the clipboard holds files.
    assert!(m.poll_snapshot(&s, 30, true).is_none());
}

#[test]
fn text_changes_carry_what_is_recorded() {
    let mut m = ClipboardMonitor::new(500, 0, 0);
    let s = snap(None, vec![], Some("  user@example.com  "));
    match m.poll_snapshot(&s, 10, false) {
        Some(PolledChange::Text { text, kind, sensitive, char_count, preview, show }) => {
            assert_eq!(text, "  user@example.com  ");
            assert_eq!(kind, ContentType::Email);
            assert!(sensitive);
            assert_eq!(char_count, 20);
            assert_eq!(preview, "user@example.com");
            assert!(!show);
        }
        _ => panic!("expected a text change"),
    }
    assert!(m.poll_snapshot(&s, 20, false).is_none());
    assert!(m.poll_snapshot(&snap(None, vec![], None), 30, false).is_none());
}
