use reef::bookmarks::BookmarkManager;
use reef::types::Bookmark;

#[test]
fn test_add_bookmark() {
    let mut bookmarks = Vec::new();
    let result = BookmarkManager::add_bookmark(&mut bookmarks, 0, 10, "Test bookmark".to_string());
    assert!(result.is_ok());
    assert_eq!(bookmarks.len(), 1);
    assert_eq!(bookmarks[0].label, "Test bookmark");
}

#[test]
fn test_empty_label_rejected() {
    let mut bookmarks = Vec::new();
    let result = BookmarkManager::add_bookmark(&mut bookmarks, 0, 10, "   ".to_string());
    assert!(result.is_err());
    assert_eq!(bookmarks.len(), 0);
}

#[test]
fn test_bookmark_sorting() {
    let mut bookmarks = Vec::new();
    BookmarkManager::add_bookmark(&mut bookmarks, 1, 20, "Second".to_string()).unwrap();
    BookmarkManager::add_bookmark(&mut bookmarks, 0, 10, "First".to_string()).unwrap();
    BookmarkManager::add_bookmark(&mut bookmarks, 1, 5, "Third".to_string()).unwrap();

    assert_eq!(bookmarks[0].label, "First");
    assert_eq!(bookmarks[1].label, "Third");
    assert_eq!(bookmarks[2].label, "Second");
}

#[test]
fn test_label_truncation() {
    let long_text = "a".repeat(100);
    let result = BookmarkManager::truncate_label(&long_text, 50);
    assert_eq!(result.len(), 50);
    assert!(result.ends_with("..."));
}

#[test]
fn test_generate_label_from_text() {
    let suggestion = BookmarkManager::generate_label_suggestion("This is a test line", "Chapter 1");
    assert_eq!(suggestion, Some("This is a test line".to_string()));
}

#[test]
fn test_generate_label_from_chapter_title() {
    let suggestion = BookmarkManager::generate_label_suggestion("", "Chapter 1");
    assert_eq!(suggestion, Some("Chapter 1".to_string()));
}

#[test]
fn test_generate_label_empty() {
    let suggestion = BookmarkManager::generate_label_suggestion("", "");
    assert_eq!(suggestion, None);
}

#[test]
fn add_bookmark_trims_the_label() {
    let mut bookmarks = Vec::new();
    BookmarkManager::add_bookmark(&mut bookmarks, 2, 3, "  spaced out \n".to_string()).unwrap();
    assert_eq!(bookmarks[0].label, "spaced out");
    assert_eq!(bookmarks[0].chapter_idx, 2);
    assert_eq!(bookmarks[0].line, 3);
}

#[test]
fn add_bookmark_reports_an_empty_label() {
    let mut bookmarks = Vec::new();
    let result = BookmarkManager::add_bookmark(&mut bookmarks, 0, 0, "\t \n".to_string());
    assert_eq!(result, Err("Bookmark label cannot be empty".to_string()));
}

#[test]
fn add_bookmark_reports_a_long_label() {
    let mut bookmarks = Vec::new();
    let result = BookmarkManager::add_bookmark(&mut bookmarks, 0, 0, "x".repeat(101));
    assert_eq!(result, Err("Bookmark label too long (max 100 characters)".to_string()));
    assert!(bookmarks.is_empty());
    let at_limit = BookmarkManager::add_bookmark(&mut bookmarks, 0, 0, "x".repeat(100));
    assert!(at_limit.is_ok());
}

#[test]
fn add_bookmark_reports_a_full_collection() {
    let mut bookmarks: Vec<Bookmark> = (0..1000)
        .map(|i| Bookmark { chapter_idx: 0, line: i, label: "b".to_string() })
        .collect();
    let result = BookmarkManager::add_bookmark(&mut bookmarks, 0, 5, "one more".to_string());
    assert_eq!(result, Err("Maximum bookmarks (1000) reached".to_string()));
    assert_eq!(bookmarks.len(), 1000);
}

#[test]
fn bookmarks_at_one_position_keep_their_order() {
    let mut bookmarks = Vec::new();
    BookmarkManager::add_bookmark(&mut bookmarks, 1, 7, "early".to_string()).unwrap();
    BookmarkManager::add_bookmark(&mut bookmarks, 1, 7, "late".to_string()).unwrap();
    BookmarkManager::add_bookmark(&mut bookmarks, 0, 9, "front".to_string()).unwrap();
    let labels: Vec<&str> = bookmarks.iter().map(|b| b.label.as_str()).collect();
    assert_eq!(labels, vec!["front", "early", "late"]);
}

#[test]
fn sort_orders_by_chapter_then_line() {
    let unsorted = vec![
        Bookmark { chapter_idx: 2, line: 0, label: "c".to_string() },
        Bookmark { chapter_idx: 0, line: 9, label: "a".to_string() },
        Bookmark { chapter_idx: 0, line: 1, label: "b".to_string() },
    ];
    let sorted = BookmarkManager::sort(&unsorted);
    let keys: Vec<(usize, usize)> = sorted.iter().map(|b| (b.chapter_idx, b.line)).collect();
    assert_eq!(keys, vec![(0, 1), (0, 9), (2, 0)]);
}

#[test]
fn truncate_label_replaces_line_breaks_and_keeps_short_labels() {
    assert_eq!(BookmarkManager::truncate_label("one\ntwo\r\nthree", 50), "one two  three");
    assert_eq!(BookmarkManager::truncate_label("  short  ", 50), "short");
    assert_eq!(BookmarkManager::truncate_label("abcdefghij", 8), "abcde...");
}

#[test]
fn truncate_label_cuts_between_characters() {
    // every character takes two bytes: 47 bytes hold 23 of them
    let text = "é".repeat(40);
    let label = BookmarkManager::truncate_label(&text, 50);
    assert_eq!(label, format!("{}...", "é".repeat(23)));
}

#[test]
fn suggestion_is_cut_to_fifty_bytes() {
    let line = "word ".repeat(30);
    let suggestion = BookmarkManager::generate_label_suggestion(&line, "Title").unwrap();
    assert_eq!(suggestion.len(), 50);
    assert!(suggestion.starts_with("word word"));
    assert!(suggestion.ends_with("..."));
}
