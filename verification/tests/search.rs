use reef::search::{SearchEngine, SearchError};
use reef::types::{Book, BookMetadata, Chapter, LineStyle, RenderedLine, SearchMatch, Viewport};

fn line(text: &str) -> RenderedLine {
    RenderedLine {
        text: text.to_string(),
        style: LineStyle::Normal,
        search_matches: vec![],
        inline_styles: vec![],
        syntax_colors: vec![],
    }
}

fn create_test_book() -> Book {
    Book {
        metadata: BookMetadata {
            title: "Test Book".to_string(),
            author: Some("Test Author".to_string()),
            publisher: None,
            publication_date: None,
            language: None,
        },
        chapters: vec![Chapter {
            title: "Chapter 1".to_string(),
            sections: vec![],
            content_lines: vec![line("This is a test line"), line("Another test line here")],
            file_path: "ch1.xhtml".to_string(),
        }],
    }
}

fn book_of(chapters: Vec<Vec<&str>>) -> Book {
    let mut book = create_test_book();
    book.chapters = chapters
        .into_iter()
        .map(|lines| Chapter {
            title: "c".to_string(),
            sections: vec![],
            content_lines: lines.into_iter().map(line).collect(),
            file_path: String::new(),
        })
        .collect();
    book
}

fn viewport() -> Viewport {
    Viewport { width: 80, height: 24, scroll_offset: 0 }
}

#[test]
fn test_simple_search() {
    let book = create_test_book();
    let results = SearchEngine::search(&book, "test").unwrap();
    assert_eq!(results.len(), 2);
    assert_eq!(results[0].match_length, 4);
    assert_eq!(results[1].match_length, 4);
}

#[test]
fn test_case_insensitive_search() {
    let book = create_test_book();
    let results = SearchEngine::search(&book, "(?i)TEST").unwrap();
    assert_eq!(results.len(), 2);
}

#[test]
fn test_invalid_regex() {
    let book = create_test_book();
    let result = SearchEngine::search(&book, "[invalid");
    assert!(result.is_err());
}

#[test]
fn test_no_matches() {
    let book = create_test_book();
    let results = SearchEngine::search(&book, "nonexistent").unwrap();
    assert_eq!(results.len(), 0);
}

#[test]
fn test_search_navigation() {
    let book = create_test_book();
    let results = SearchEngine::search(&book, "test").unwrap();
    let viewport = viewport();

    let (new_idx, _, _, _) = SearchEngine::next_result(&results, 0, &viewport).unwrap();
    assert_eq!(new_idx, 1);

    let (new_idx, _, _, _) = SearchEngine::next_result(&results, 1, &viewport).unwrap();
    assert_eq!(new_idx, 0);

    let (new_idx, _, _, _) = SearchEngine::previous_result(&results, 1, &viewport).unwrap();
    assert_eq!(new_idx, 0);

    let (new_idx, _, _, _) = SearchEngine::previous_result(&results, 0, &viewport).unwrap();
    assert_eq!(new_idx, 1);
}

#[test]
fn matches_come_in_document_order_with_byte_columns() {
    let book = book_of(vec![vec!["abc abc", "none"], vec!["éabc"]]);
    let results = SearchEngine::search(&book, "abc").unwrap();
    let found: Vec<(usize, usize, usize, usize)> =
        results.iter().map(|m| (m.chapter_idx, m.line, m.column, m.match_length)).collect();
    assert_eq!(found, vec![(0, 0, 0, 3), (0, 0, 4, 3), (1, 0, 2, 3)]);
}

#[test]
fn matches_do_not_overlap() {
    let book = book_of(vec![vec!["aaaa"]]);
    let results = SearchEngine::search(&book, "aa").unwrap();
    let columns: Vec<usize> = results.iter().map(|m| m.column).collect();
    assert_eq!(columns, vec![0, 2]);
}

#[test]
fn an_invalid_pattern_is_reported_as_such() {
    let book = create_test_book();
    match SearchEngine::search(&book, "(unclosed") {
        Err(SearchError::InvalidPattern(why)) => {
            assert!(!why.is_empty());
            let message = SearchError::InvalidPattern(why.clone()).message();
            assert_eq!(message, format!("Invalid regex pattern: {}", why));
        }
        other => panic!("expected an invalid pattern, got {:?}", other),
    }
    assert_eq!(SearchError::Timeout.message(), "Search cancelled (timeout)");
}

#[test]
fn a_search_stops_at_a_thousand_matches() {
    let long_line = "x".repeat(700);
    let book = book_of(vec![vec![long_line.as_str()], vec![long_line.as_str()]]);
    let results = SearchEngine::search(&book, "x").unwrap();
    assert_eq!(results.len(), 1000);
    assert_eq!(results[699].chapter_idx, 0);
    assert_eq!(results[700].chapter_idx, 1);
    assert_eq!(results[999].column, 299);
}

#[test]
fn a_search_that_runs_out_of_time_keeps_what_it_found() {
    let book = book_of(vec![vec!["hit"], vec!["hit hit"], vec!["hit"]]);
    let pattern = SearchEngine::compile("hit").unwrap();
    let partial = SearchEngine::search_until(&book, &pattern, 2).unwrap();
    assert_eq!(partial.len(), 3);
    let whole = SearchEngine::search_until(&book, &pattern, 3).unwrap();
    assert_eq!(whole.len(), 4);
    let beyond = SearchEngine::search_until(&book, &pattern, 99).unwrap();
    assert_eq!(beyond.len(), 4);
}

#[test]
fn a_search_that_runs_out_of_time_with_nothing_found_is_a_timeout() {
    let book = book_of(vec![vec!["nothing"], vec!["hit"]]);
    let pattern = SearchEngine::compile("hit").unwrap();
    assert_eq!(SearchEngine::search_until(&book, &pattern, 0), Err(SearchError::Timeout));
    assert_eq!(SearchEngine::search_until(&book, &pattern, 1), Err(SearchError::Timeout));
    assert_eq!(SearchEngine::search_until(&book, &pattern, 2).unwrap().len(), 1);
    let empty = book_of(vec![]);
    assert_eq!(SearchEngine::search_until(&empty, &pattern, 0), Ok(vec![]));
}

#[test]
fn navigation_is_cyclic() {
    let results: Vec<SearchMatch> = (0..5)
        .map(|i| SearchMatch { chapter_idx: 0, line: i * 10, column: 0, match_length: 1 })
        .collect();
    let viewport = viewport();
    let mut idx = 0;
    for _ in 0..results.len() {
        idx = SearchEngine::next_result(&results, idx, &viewport).unwrap().0;
    }
    assert_eq!(idx, 0);
    assert_eq!(SearchEngine::previous_result(&results, 0, &viewport).unwrap().0, 4);
    assert_eq!(SearchEngine::next_result(&results, usize::MAX, &viewport).unwrap().0, 1);
}

#[test]
fn navigation_without_results_gives_nothing() {
    let viewport = viewport();
    assert_eq!(SearchEngine::next_result(&[], 0, &viewport), None);
    assert_eq!(SearchEngine::previous_result(&[], 0, &viewport), None);
    let one = [SearchMatch { chapter_idx: 0, line: 3, column: 0, match_length: 1 }];
    assert_eq!(SearchEngine::previous_result(&one, 7, &viewport), None);
    assert_eq!(SearchEngine::get_jump_position(&one, 1, &viewport), None);
}

#[test]
fn the_target_line_is_centred() {
    let results = [
        SearchMatch { chapter_idx: 2, line: 100, column: 0, match_length: 1 },
        SearchMatch { chapter_idx: 3, line: 5, column: 0, match_length: 1 },
    ];
    let viewport = viewport();
    assert_eq!(SearchEngine::get_jump_position(&results, 0, &viewport), Some((0, 2, 100, 88)));
    assert_eq!(SearchEngine::get_jump_position(&results, 1, &viewport), Some((1, 3, 5, 0)));
}

#[test]
fn highlights_replace_earlier_ones() {
    let mut book = create_test_book();
    book.chapters[0].content_lines[1].search_matches.push((0, 1));
    let results = SearchEngine::search(&book, "test").unwrap();
    SearchEngine::apply_highlights(&mut book, &results);
    assert_eq!(book.chapters[0].content_lines[0].search_matches, vec![(10, 14)]);
    assert_eq!(book.chapters[0].content_lines[1].search_matches, vec![(8, 12)]);
    SearchEngine::clear_highlights(&mut book);
    assert!(book.chapters[0].content_lines.iter().all(|l| l.search_matches.is_empty()));
    assert_eq!(book.chapters[0].content_lines[0].text, "This is a test line");
}

#[test]
fn highlights_for_lines_that_are_not_there_are_left_out() {
    let mut book = create_test_book();
    let stale = [
        SearchMatch { chapter_idx: 0, line: 2, column: 0, match_length: 4 },
        SearchMatch { chapter_idx: 1, line: 0, column: 0, match_length: 4 },
        SearchMatch { chapter_idx: 0, line: 1, column: 8, match_length: 4 },
    ];
    SearchEngine::apply_highlights(&mut book, &stale);
    assert!(book.chapters[0].content_lines[0].search_matches.is_empty());
    assert_eq!(book.chapters[0].content_lines[1].search_matches, vec![(8, 12)]);
}

#[test]
fn fresh_matches_lie_within_their_lines() {
    let book = book_of(vec![vec!["alpha beta", "", "beta"], vec!["gamma beta beta"]]);
    let results = SearchEngine::search(&book, "b[a-z]+").unwrap();
    assert_eq!(results.len(), 4);
    for m in &results {
        let text = &book.chapters[m.chapter_idx].content_lines[m.line].text;
        assert_eq!(&text[m.column..m.column + m.match_length], "beta");
    }
}

#[test]
fn fresh_highlights_are_those_of_the_search() {
    let mut book = book_of(vec![vec!["one two", "two"], vec!["none"], vec!["two two two"]]);
    let results = SearchEngine::search(&book, "two").unwrap();
    SearchEngine::apply_fresh_highlights(&mut book, &results);
    let spans: Vec<Vec<(usize, usize)>> = book
        .chapters
        .iter()
        .flat_map(|c| c.content_lines.iter().map(|l| l.search_matches.clone()))
        .collect();
    assert_eq!(
        spans,
        vec![vec![(4, 7)], vec![(0, 3)], vec![], vec![(0, 3), (4, 7), (8, 11)]]
    );
}

#[test]
fn a_span_that_would_end_beyond_the_largest_offset_is_left_out() {
    let mut book = create_test_book();
    let odd = [SearchMatch { chapter_idx: 0, line: 0, column: usize::MAX, match_length: 2 }];
    SearchEngine::apply_highlights(&mut book, &odd);
    assert!(book.chapters[0].content_lines[0].search_matches.is_empty());
}
