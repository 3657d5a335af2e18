use reef::expand::ExpandState;
use reef::toc::TocManager;
use reef::types::{Book, BookMetadata, Chapter, Section, TocState};

fn create_test_book() -> Book {
    Book {
        metadata: BookMetadata {
            title: "Test Book".to_string(),
            author: None,
            publisher: None,
            publication_date: None,
            language: None,
        },
        chapters: vec![
            Chapter {
                title: "Chapter 1".to_string(),
                sections: vec![
                    Section { title: "Section 1.1".to_string(), start_line: 10, fragment_id: None },
                    Section { title: "Section 1.2".to_string(), start_line: 50, fragment_id: None },
                ],
                content_lines: vec![],
                file_path: String::new(),
            },
            Chapter {
                title: "Chapter 2".to_string(),
                sections: vec![],
                content_lines: vec![],
                file_path: String::new(),
            },
        ],
    }
}

#[test]
fn test_build_tree() {
    let book = create_test_book();
    let items = TocManager::build_tree(&book);
    assert_eq!(items.len(), 2);
}

#[test]
fn test_find_item_for_cursor_in_section() {
    let book = create_test_book();
    let path = TocManager::find_item_for_cursor(&book, 0, 30).unwrap();
    assert_eq!(path.len(), 2);
    assert_eq!(path[0], "chapter_0");
    assert_eq!(path[1], "chapter_0_section_0");
}

#[test]
fn test_find_item_for_cursor_before_sections() {
    let book = create_test_book();
    let path = TocManager::find_item_for_cursor(&book, 0, 5).unwrap();
    assert_eq!(path.len(), 1);
    assert_eq!(path[0], "chapter_0");
}

#[test]
fn test_find_item_for_cursor_no_sections() {
    let book = create_test_book();
    let path = TocManager::find_item_for_cursor(&book, 1, 10).unwrap();
    assert_eq!(path.len(), 1);
    assert_eq!(path[0], "chapter_1");
}

#[test]
fn test_parse_chapter_id() {
    let result = TocManager::parse_item_id("chapter_5");
    assert_eq!(result, Some((5, None)));
}

#[test]
fn test_parse_section_id() {
    let result = TocManager::parse_item_id("chapter_3_section_2");
    assert_eq!(result, Some((3, Some(2))));
}

#[test]
fn test_parse_invalid_id() {
    let result = TocManager::parse_item_id("invalid_id");
    assert_eq!(result, None);
}

#[test]
fn identities_are_written_in_decimal() {
    assert_eq!(TocManager::make_chapter_id(0), "chapter_0");
    assert_eq!(TocManager::make_chapter_id(1234), "chapter_1234");
    assert_eq!(TocManager::make_section_id(12, 305), "chapter_12_section_305");
}

#[test]
fn parsing_undoes_making() {
    for chapter in [0usize, 1, 9, 10, 99, 100, 65535, usize::MAX] {
        let id = TocManager::make_chapter_id(chapter);
        assert_eq!(TocManager::parse_item_id(&id), Some((chapter, None)));
        for section in [0usize, 7, 10, 4096, usize::MAX] {
            let id = TocManager::make_section_id(chapter, section);
            assert_eq!(TocManager::parse_item_id(&id), Some((chapter, Some(section))));
        }
    }
}

#[test]
fn malformed_identities_are_refused() {
    assert_eq!(TocManager::parse_item_id(""), None);
    assert_eq!(TocManager::parse_item_id("chapter_"), None);
    assert_eq!(TocManager::parse_item_id("chapter_x"), None);
    assert_eq!(TocManager::parse_item_id("chapter_1_section_"), None);
    assert_eq!(TocManager::parse_item_id("chapter_1_part_2"), None);
    assert_eq!(TocManager::parse_item_id("chapter_1_section_2_3"), None);
    assert_eq!(TocManager::parse_item_id("chapter_1_2"), None);
    assert_eq!(TocManager::parse_item_id("Chapter_1"), None);
    assert_eq!(TocManager::parse_item_id("chapter_-1"), None);
    assert_eq!(TocManager::parse_item_id("chapter_99999999999999999999999999"), None);
}

#[test]
fn a_plus_sign_and_leading_zeros_are_read_as_numbers() {
    assert_eq!(TocManager::parse_item_id("chapter_+5"), Some((5, None)));
    assert_eq!(TocManager::parse_item_id("chapter_007_section_00"), Some((7, Some(0))));
}

#[test]
fn locating_beyond_the_book_gives_nothing() {
    let book = create_test_book();
    assert_eq!(TocManager::find_item_for_cursor(&book, 2, 0), None);
}

#[test]
fn located_paths_read_back_to_the_position() {
    let book = create_test_book();
    for (chapter, line) in [(0usize, 0usize), (0, 9), (0, 10), (0, 49), (0, 50), (0, 700), (1, 3)] {
        let path = TocManager::find_item_for_cursor(&book, chapter, line).unwrap();
        assert_eq!(TocManager::parse_item_id(&path[0]), Some((chapter, None)));
        if path.len() == 2 {
            let (c, s) = TocManager::parse_item_id(&path[1]).unwrap();
            let s = s.unwrap();
            let sections = &book.chapters[chapter].sections;
            assert_eq!(c, chapter);
            assert!(sections[s].start_line <= line);
            assert!(s + 1 >= sections.len() || sections[s + 1].start_line > line);
        } else {
            assert_eq!(path.len(), 1);
        }
    }
}

#[test]
fn section_boundaries_belong_to_the_later_section() {
    let book = create_test_book();
    assert_eq!(TocManager::find_section_at_line(&book.chapters[0], 9), None);
    assert_eq!(TocManager::find_section_at_line(&book.chapters[0], 10), Some(0));
    assert_eq!(TocManager::find_section_at_line(&book.chapters[0], 49), Some(0));
    assert_eq!(TocManager::find_section_at_line(&book.chapters[0], 50), Some(1));
    assert_eq!(TocManager::find_section_at_line(&book.chapters[1], 0), None);
}

#[test]
fn the_tree_carries_identities_and_titles() {
    let book = create_test_book();
    let items = TocManager::build_tree(&book);
    assert_eq!(items[0].id, "chapter_0");
    assert_eq!(items[0].title, "Chapter 1");
    assert_eq!(items[0].children.len(), 2);
    assert_eq!(items[0].children[1].id, "chapter_0_section_1");
    assert_eq!(items[0].children[1].title, "Section 1.2");
    assert_eq!(items[1].id, "chapter_1");
    assert!(items[1].children.is_empty());
}

#[test]
fn selecting_a_section_expands_its_chapter() {
    let book = create_test_book();
    let mut state = TocState::new();
    let mut expanded = ExpandState::new();
    let path = TocManager::find_item_for_cursor(&book, 0, 60).unwrap();
    TocManager::expand_parent(&mut expanded, &path);
    TocManager::select_item(&mut state, path);
    assert!(expanded.contains("chapter_0"));
    assert!(!expanded.contains("chapter_0_section_1"));
    assert_eq!(state.selected, vec!["chapter_0".to_string(), "chapter_0_section_1".to_string()]);
}

#[test]
fn expand_state_is_a_set() {
    let mut expanded = ExpandState::new();
    assert!(expanded.insert("chapter_1".to_string()));
    assert!(!expanded.insert("chapter_1".to_string()));
    assert!(expanded.insert("chapter_2".to_string()));
    assert_eq!(expanded.to_vec().len(), 2);
    assert!(expanded.remove("chapter_1"));
    assert!(!expanded.remove("chapter_1"));
    assert!(!expanded.contains("chapter_1"));
    assert!(expanded.contains("chapter_2"));
    expanded.clear();
    assert!(expanded.to_vec().is_empty());
}

#[test]
fn the_last_section_holds_every_line_behind_its_start() {
    let book = create_test_book();
    assert_eq!(TocManager::find_section_at_line(&book.chapters[0], usize::MAX), Some(1));
    let path = TocManager::find_item_for_cursor(&book, 0, usize::MAX).unwrap();
    assert_eq!(path, vec!["chapter_0".to_string(), "chapter_0_section_1".to_string()]);
}

#[test]
fn in_sorted_sections_the_last_start_before_the_line_is_found() {
    let mut book = create_test_book();
    book.chapters[0].sections = [3usize, 3, 8, 8, 8, 20]
        .iter()
        .map(|start| Section { title: "s".to_string(), start_line: *start, fragment_id: None })
        .collect();
    let expected = [(0usize, None), (2, None), (3, Some(1)), (7, Some(1)), (8, Some(4)), (19, Some(4)), (20, Some(5)), (99, Some(5))];
    for (line, section) in expected {
        assert_eq!(TocManager::find_section_at_line(&book.chapters[0], line), section, "line {}", line);
    }
}
