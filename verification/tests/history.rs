use evervoice::history::{
    add_to_history, comes_before, find_by_id, remove_from_history, set_summary,
    sort_history_descending, truncate_history, HistoryItem, MAX_HISTORY_ITEMS,
};

#[test]
fn test_history_item_new_generates_uuid() {
    let item = HistoryItem::new(
        "/path/to/file.webm".to_string(),
        60.0,
        "Test transcription".to_string(),
    );

    // UUID should be 36 characters (with hyphens)
    assert_eq!(item.id.len(), 36);
    assert!(item.id.contains('-'));
}

#[test]
fn test_history_item_new_sets_timestamp() {
    let item = HistoryItem::new(
        "/path/to/file.webm".to_string(),
        60.0,
        "Test transcription".to_string(),
    );

    // Should be an ISO 8601 timestamp
    assert!(item.created_at.contains('T'));
    assert!(item.created_at.contains(':'));
}

#[test]
fn new_items_keep_what_they_are_given() {
    let a = HistoryItem::new("/p.webm".to_string(), 1.5, "text".to_string());
    let b = HistoryItem::new("/p.webm".to_string(), 1.5, "text".to_string());
    assert_eq!(a.file_path, "/p.webm");
    assert_eq!(a.duration_seconds, 1.5);
    assert_eq!(a.transcription, "text");
    assert_eq!(a.summary, None);
    assert_ne!(a.id, b.id);
    assert_eq!(a.id.chars().count(), 36);

    let c = HistoryItem::with_identity(
        "id-1".to_string(),
        "2024-01-21T10:30:00Z".to_string(),
        "/q.webm".to_string(),
        7u32,
        "t".to_string(),
    );
    assert_eq!(c.id, "id-1");
    assert_eq!(c.created_at, "2024-01-21T10:30:00Z");
    assert_eq!(c.file_path, "/q.webm");
    assert_eq!(c.duration_seconds, 7);
    assert_eq!(c.transcription, "t");
    assert_eq!(c.summary, None);
}

fn item(id: &str, created_at: &str) -> HistoryItem<f64> {
    HistoryItem {
        id: id.to_string(),
        file_path: format!("/path/{}.webm", id),
        duration_seconds: 60.0,
        transcription: format!("Transcription {}", id),
        created_at: created_at.to_string(),
        summary: None,
    }
}

#[test]
fn test_sort_history_descending_orders_by_created_at() {
    let mut items = vec![
        HistoryItem {
            id: "1".to_string(),
            file_path: "/path/1.webm".to_string(),
            duration_seconds: 60.0,
            transcription: "First".to_string(),
            created_at: "2024-01-21T10:00:00Z".to_string(),
            summary: None,
        },
        HistoryItem {
            id: "3".to_string(),
            file_path: "/path/3.webm".to_string(),
            duration_seconds: 60.0,
            transcription: "Third".to_string(),
            created_at: "2024-01-21T12:00:00Z".to_string(),
            summary: None,
        },
        HistoryItem {
            id: "2".to_string(),
            file_path: "/path/2.webm".to_string(),
            duration_seconds: 60.0,
            transcription: "Second".to_string(),
            created_at: "2024-01-21T11:00:00Z".to_string(),
            summary: None,
        },
    ];

    sort_history_descending(&mut items);

    // Should be sorted newest first (descending by created_at)
    assert_eq!(items[0].id, "3"); // 12:00 - newest
    assert_eq!(items[1].id, "2"); // 11:00
    assert_eq!(items[2].id, "1"); // 10:00 - oldest
}

#[test]
fn test_truncate_history_limits_to_max_items() {
    // Create 105 items (more than MAX_HISTORY_ITEMS)
    let mut items: Vec<HistoryItem<f64>> = (0..105)
        .map(|i| HistoryItem {
            id: format!("item-{}", i),
            file_path: format!("/path/{}.webm", i),
            duration_seconds: 60.0,
            transcription: format!("Transcription {}", i),
            created_at: format!("2024-01-21T{:02}:00:00Z", i % 24),
            summary: None,
        })
        .collect();

    assert_eq!(items.len(), 105);

    truncate_history(&mut items);

    // Should be limited to MAX_HISTORY_ITEMS (100)
    assert_eq!(items.len(), MAX_HISTORY_ITEMS);
    assert_eq!(items.len(), 100);
}

#[test]
fn test_truncate_history_does_not_truncate_small_list() {
    let mut items: Vec<HistoryItem<f64>> = (0..50)
        .map(|i| HistoryItem {
            id: format!("item-{}", i),
            file_path: format!("/path/{}.webm", i),
            duration_seconds: 60.0,
            transcription: format!("Transcription {}", i),
            created_at: format!("2024-01-21T{:02}:00:00Z", i % 24),
            summary: None,
        })
        .collect();

    truncate_history(&mut items);

    // Should remain at 50 items
    assert_eq!(items.len(), 50);
}

#[test]
fn truncation_keeps_the_first_hundred() {
    let mut items: Vec<HistoryItem<f64>> =
        (0..101).map(|i| item(&format!("{}", i), "t")).collect();
    truncate_history(&mut items);
    assert_eq!(items.len(), 100);
    assert_eq!(items[0].id, "0");
    assert_eq!(items[99].id, "99");

    let mut exact: Vec<HistoryItem<f64>> = (0..100).map(|i| item(&format!("{}", i), "t")).collect();
    truncate_history(&mut exact);
    assert_eq!(exact.len(), 100);
    let mut empty: Vec<HistoryItem<f64>> = Vec::new();
    truncate_history(&mut empty);
    assert!(empty.is_empty());
}

#[test]
fn sorting_agrees_with_the_stable_sort_of_the_standard_library() {
    let stamps = ["b", "a", "c", "a", "", "b", "ab", "a", "é", "Z", "c", "", "a\u{10000}", "ab"];
    let mut items: Vec<HistoryItem<f64>> =
        stamps.iter().enumerate().map(|(i, s)| item(&format!("{}", i), s)).collect();
    let mut expected = items.clone();
    expected.sort_by(|a, b| b.created_at.cmp(&a.created_at));
    sort_history_descending(&mut items);
    assert_eq!(items, expected);
    let ids: Vec<&str> = items.iter().map(|i| i.id.as_str()).collect();
    assert_eq!(ids, vec!["8", "2", "10", "0", "5", "12", "6", "13", "1", "3", "7", "9", "4", "11"]);

    let mut one = vec![item("x", "t")];
    sort_history_descending(&mut one);
    assert_eq!(one[0].id, "x");
    let mut none: Vec<HistoryItem<f64>> = Vec::new();
    sort_history_descending(&mut none);
    assert!(none.is_empty());
}

#[test]
fn order_of_strings_agrees_with_the_standard_library() {
    let texts = ["", "a", "b", "ab", "aa", "A", "é", "e", "\u{7f}", "\u{80}", "\u{ffff}", "\u{10000}", "2024-01-21T10:00:00Z", "2024-01-21T09:59:59Z"];
    for a in texts {
        for b in texts {
            assert_eq!(comes_before(a, b), a < b, "{:?} {:?}", a, b);
        }
    }
}

#[test]
fn new_items_go_to_the_head() {
    let mut history = vec![item("1", "a"), item("2", "b")];
    add_to_history(&mut history, item("3", "c"));
    let ids: Vec<&str> = history.iter().map(|i| i.id.as_str()).collect();
    assert_eq!(ids, vec!["3", "1", "2"]);

    let mut full: Vec<HistoryItem<f64>> = (0..100).map(|i| item(&format!("{}", i), "t")).collect();
    add_to_history(&mut full, item("new", "t"));
    assert_eq!(full.len(), 100);
    assert_eq!(full[0].id, "new");
    assert_eq!(full[1].id, "0");
    assert_eq!(full[99].id, "98");
}

#[test]
fn items_are_found_and_removed_by_id() {
    let mut history = vec![item("a", "1"), item("b", "2"), item("a", "3"), item("c", "4")];
    assert_eq!(find_by_id(&history, "a"), Some(0));
    assert_eq!(find_by_id(&history, "b"), Some(1));
    assert_eq!(find_by_id(&history, "c"), Some(3));
    assert_eq!(find_by_id(&history, "d"), None);
    assert_eq!(find_by_id(&history, ""), None);

    remove_from_history(&mut history, "a");
    let ids: Vec<&str> = history.iter().map(|i| i.id.as_str()).collect();
    assert_eq!(ids, vec!["b", "c"]);
    remove_from_history(&mut history, "zzz");
    assert_eq!(history.len(), 2);
    remove_from_history(&mut history, "c");
    remove_from_history(&mut history, "b");
    assert!(history.is_empty());
    remove_from_history(&mut history, "b");
    assert!(history.is_empty());
}

#[test]
fn summary_is_set_on_the_first_item_with_the_id() {
    let mut history = vec![item("a", "1"), item("b", "2"), item("b", "3")];
    assert!(set_summary(&mut history, "b", "- point".to_string()).is_ok());
    assert_eq!(history[0], item("a", "1"));
    assert_eq!(history[1].summary.as_deref(), Some("- point"));
    assert_eq!(history[1].id, "b");
    assert_eq!(history[1].created_at, "2");
    assert_eq!(history[1].file_path, "/path/b.webm");
    assert_eq!(history[1].transcription, "Transcription b");
    assert_eq!(history[2], item("b", "3"));

    assert!(set_summary(&mut history, "b", "again".to_string()).is_ok());
    assert_eq!(history[1].summary.as_deref(), Some("again"));
    assert_eq!(history[2].summary, None);

    let before = history.clone();
    assert_eq!(
        set_summary(&mut history, "nope", "s".to_string()),
        Err("History item not found: nope".to_string())
    );
    assert_eq!(history, before);
}
