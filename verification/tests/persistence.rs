use std::hash::{Hash, Hasher};
use reef::cli::Cli;
use reef::persistence::{compute_path_hash, validate_config, PersistenceManager};
use reef::types::Config;
use reef::ui::widgets::bookmarks::BookmarksPanel;
use reef::ui::widgets::loading::{LoadingWidget, SpinnerStyle};
use reef::types::Bookmark;

#[test]
fn test_path_hash_consistency() {
    let path = "/some/path/to/book.epub";
    let hash1 = compute_path_hash(path);
    let hash2 = compute_path_hash(path);
    assert_eq!(hash1, hash2);
    assert_eq!(hash1.len(), 16);
}

#[test]
fn a_path_hash_is_sixteen_hex_digits_of_the_standard_hash() {
    for path in ["", "a", "/some/path/to/book.epub"] {
        let mut hasher = std::collections::hash_map::DefaultHasher::new();
        path.hash(&mut hasher);
        assert_eq!(compute_path_hash(path), format!("{:016x}", hasher.finish()));
    }
    assert_ne!(compute_path_hash("a"), compute_path_hash("b"));
}

#[test]
fn file_names_are_fixed() {
    assert_eq!(PersistenceManager::config_file_name(), "config.json");
    assert_eq!(PersistenceManager::progress_file_name(), "reading_progress.json");
    assert_eq!(PersistenceManager::recent_file_name(), "recent_books.json");
    let name = PersistenceManager::bookmarks_file_name("/b.epub");
    assert_eq!(name, format!("bookmarks_{}.json", compute_path_hash("/b.epub")));
    assert_eq!(PersistenceManager::new("/cfg".to_string()).config_dir(), "/cfg");
}

#[test]
fn panel_widths_are_kept_within_their_limits() {
    let loaded = validate_config(Config { max_width: None, toc_panel_width: 5, bookmarks_panel_width: 100 });
    assert_eq!(loaded.toc_panel_width, 15);
    assert_eq!(loaded.bookmarks_panel_width, 80);
    let kept = validate_config(Config { max_width: Some(100), toc_panel_width: 35, bookmarks_panel_width: 40 });
    assert_eq!(kept, Config { max_width: Some(100), toc_panel_width: 35, bookmarks_panel_width: 40 });
    let edges = validate_config(Config { max_width: None, toc_panel_width: 61, bookmarks_panel_width: 19 });
    assert_eq!((edges.toc_panel_width, edges.bookmarks_panel_width), (60, 20));
    assert_eq!(Config::default(), Config { max_width: None, toc_panel_width: 34, bookmarks_panel_width: 34 });
}

#[test]
fn the_maximum_width_must_lie_between_forty_and_two_hundred() {
    let cli = |w: Option<usize>| Cli { file: None, max_width: w, log_file: None };
    assert_eq!(cli(None).validate(), Ok(()));
    assert_eq!(cli(Some(40)).validate(), Ok(()));
    assert_eq!(cli(Some(200)).validate(), Ok(()));
    assert_eq!(cli(Some(39)).validate(), Err("Max width too small (minimum 40)".to_string()));
    assert_eq!(cli(Some(201)).validate(), Err("Max width too large (maximum 200)".to_string()));
    assert_eq!(cli(Some(0)).validate(), Err("Max width too small (minimum 40)".to_string()));
}

#[test]
fn the_spinner_changes_every_eighty_milliseconds() {
    let style = SpinnerStyle::Dots;
    let frames = style.frames();
    assert_eq!(frames.len(), 10);
    assert_eq!(frames[0], "\u{280b}");
    assert_eq!(frames[9], "\u{280f}");
    assert_eq!(style.current_frame(0), frames[0]);
    assert_eq!(style.current_frame(79), frames[0]);
    assert_eq!(style.current_frame(80), frames[1]);
    assert_eq!(style.current_frame(799), frames[9]);
    assert_eq!(style.current_frame(800), frames[0]);
    assert_eq!(style.current_frame(u128::MAX), frames[((u128::MAX / 80) % 10) as usize]);
}

#[test]
fn the_progress_bar_fills_with_the_share_done() {
    let widget = LoadingWidget::new("Loading");
    assert_eq!(widget.message(), "Loading");
    assert_eq!(widget.progress_texts(), None);
    let half = LoadingWidget::new("x").progress(5, 10).progress_texts().unwrap();
    assert_eq!(half.0, format!("[{}{}]", "\u{2588}".repeat(20), "\u{2591}".repeat(20)));
    assert_eq!(half.1, "5/10 (50%)");
    let third = LoadingWidget::new("x").progress(1, 3).progress_texts().unwrap();
    assert_eq!(third.0, format!("[{}{}]", "\u{2588}".repeat(13), "\u{2591}".repeat(27)));
    assert_eq!(third.1, "1/3 (33%)");
    let none = LoadingWidget::new("x").progress(0, 0).progress_texts().unwrap();
    assert_eq!(none.0, format!("[{}]", "\u{2591}".repeat(40)));
    assert_eq!(none.1, "0/0 (0%)");
    let over = LoadingWidget::new("x").progress(7, 2).progress_texts().unwrap();
    assert_eq!(over.0, format!("[{}]", "\u{2588}".repeat(40)));
    assert_eq!(over.1, "7/2 (350%)");
    assert_eq!(LoadingWidget::new("x").spinner(160), "\u{2839}");
}

#[test]
fn the_bookmarks_panel_lists_positions_from_one() {
    let bookmarks = vec![
        Bookmark { chapter_idx: 0, line: 9, label: "Start".to_string() },
        Bookmark { chapter_idx: 11, line: 0, label: "Later on".to_string() },
    ];
    let panel = BookmarksPanel::new(&bookmarks, Some(1), true);
    assert!(panel.is_focused());
    assert!(!panel.is_empty());
    assert_eq!(panel.selection(), Some(1));
    assert_eq!(panel.item_texts(), vec!["Ch 1 | Line 10 | Start", "Ch 12 | Line 1 | Later on"]);
    let empty = BookmarksPanel::new(&[], None, false);
    assert!(empty.is_empty());
    assert!(empty.item_texts().is_empty());
}

#[test]
fn test_config_validation() {
    let config = Config { max_width: None, toc_panel_width: 5, bookmarks_panel_width: 100 };

    let loaded = validate_config(config);

    assert!(loaded.toc_panel_width >= 15 && loaded.toc_panel_width <= 60);
    assert!(loaded.bookmarks_panel_width >= 20 && loaded.bookmarks_panel_width <= 80);
}
