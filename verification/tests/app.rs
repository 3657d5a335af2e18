use reef::app::AppState;
use reef::async_tasks::{handle_task_message, TaskMessage};
use reef::epub::code_highlight::CodeHighlighter;
use reef::epub::render_chapter;
use reef::persistence::ReadingProgress;
use reef::types::{
    Book, BookMetadata, Bookmark, Chapter, Config, FocusTarget, LoadingState, UiMode,
};
use reef::ui::handle_key_event;
use reef::ui::input_handler::{Action, Command, InputHandler, KeyCode, KeyEvent};

fn chapter(markup: &str) -> Chapter {
    Chapter {
        title: "c".to_string(),
        sections: Vec::new(),
        content_lines: Vec::new(),
        file_path: markup.to_string(),
    }
}

fn book(highlighter: &CodeHighlighter) -> Book {
    let long = "needle in a haystack of many many words ".repeat(12);
    let mut chapters = vec![
        chapter(&format!("<h1>One</h1><h2 id=\"a\">Alpha</h2><p>{}</p><h2 id=\"b\">Beta</h2><p>needle</p>", long)),
        chapter("<p>plain chapter without sections</p>"),
        chapter("<h2>Gamma</h2><p>last needle</p>"),
    ];
    for c in chapters.iter_mut() {
        render_chapter(c, None, 84, highlighter);
    }
    Book {
        metadata: BookMetadata {
            title: "Book".to_string(),
            author: None,
            publisher: None,
            publication_date: None,
            language: None,
        },
        chapters,
    }
}

fn state(highlighter: &CodeHighlighter) -> AppState {
    let mut app = AppState::new(Config::default(), vec!["/old.epub".to_string()]);
    app.open_book(book(highlighter), "/book.epub".to_string(), Vec::new(), None);
    app
}

fn key(code: KeyCode) -> KeyEvent {
    KeyEvent { code, control: false, shift: false, alt: false }
}

fn ctrl(code: KeyCode) -> KeyEvent {
    KeyEvent { code, control: true, shift: false, alt: false }
}

fn press(app: &mut AppState, h: &CodeHighlighter, k: KeyEvent) -> Action {
    handle_key_event(app, k, (84, 24), h)
}

fn type_text(app: &mut AppState, h: &CodeHighlighter, text: &str) {
    for c in text.chars() {
        press(app, h, key(KeyCode::Char(c)));
    }
}

#[test]
fn a_new_state_has_no_book() {
    let app = AppState::new(Config::default(), Vec::new());
    assert!(app.book.is_none());
    assert_eq!(app.total_chapters(), 0);
    assert_eq!(app.current_chapter_lines(), 0);
    assert_eq!((app.viewport.width, app.viewport.height), (80, 24));
    assert_eq!(app.focus, FocusTarget::Content);
    assert!(app.titlebar_visible && app.statusbar_visible);
    assert!(!app.toc_panel_visible && !app.bookmarks_panel_visible);
}

#[test]
fn opening_a_book_builds_the_outline() {
    let h = CodeHighlighter::new(None);
    let app = state(&h);
    assert_eq!(app.total_chapters(), 3);
    assert_eq!(app.toc_state.items.len(), 3);
    assert_eq!(app.toc_state.items[0].children.len(), 2);
    assert_eq!(app.toc_state.selected, vec!["chapter_0".to_string()]);
    assert_eq!(app.current_book_path, Some("/book.epub".to_string()));
}

#[test]
fn a_saved_position_is_restored_within_the_book() {
    let h = CodeHighlighter::new(None);
    let mut app = AppState::new(Config::default(), Vec::new());
    let progress = ReadingProgress {
        chapter_idx: 9,
        line: 1,
        scroll_offset: 1,
        last_read: 0,
        toc_expansion_state: vec!["chapter_0".to_string(), "chapter_7".to_string()],
    };
    app.open_book(book(&h), "/b".to_string(), Vec::new(), Some(progress));
    assert_eq!(app.current_chapter, 2);
    assert_eq!((app.cursor_line, app.viewport.scroll_offset), (1, 1));
    assert!(app.toc_expanded_chapters.contains("chapter_7"));
    assert!(app.toc_expanded_chapters.contains("chapter_2"));
    assert_eq!(app.toc_state.selected, vec!["chapter_2".to_string(), "chapter_2_section_0".to_string()]);
}

#[test]
fn chapters_wrap_around() {
    let h = CodeHighlighter::new(None);
    let mut app = state(&h);
    app.previous_chapter();
    assert_eq!(app.current_chapter, 2);
    app.next_chapter();
    assert_eq!(app.current_chapter, 0);
    app.next_chapter();
    app.next_chapter();
    app.next_chapter();
    assert_eq!(app.current_chapter, 0);
    assert_eq!((app.cursor_line, app.viewport.scroll_offset), (0, 0));
}

#[test]
fn sections_are_stepped_through() {
    let h = CodeHighlighter::new(None);
    let mut app = state(&h);
    let starts: Vec<usize> =
        app.book.as_ref().unwrap().chapters[0].sections.iter().map(|s| s.start_line).collect();
    assert_eq!(starts.len(), 2);
    app.next_section();
    assert_eq!((app.current_chapter, app.cursor_line), (0, starts[0]));
    assert_eq!(app.toc_state.selected.len(), 2);
    assert!(app.toc_expanded_chapters.contains("chapter_0"));
    app.next_section();
    assert_eq!((app.current_chapter, app.cursor_line), (0, starts[1]));
    assert_eq!(app.viewport.scroll_offset, starts[1]);
    app.previous_section();
    assert_eq!(app.cursor_line, starts[0]);
    app.previous_section();
    assert_eq!((app.current_chapter, app.cursor_line), (2, 0));
    app.next_section();
    assert_eq!((app.current_chapter, app.cursor_line), (0, 0));
    app.next_chapter();
    app.next_section();
    assert_eq!(app.current_chapter, 2);
}

#[test]
fn scrolling_stays_within_the_chapter() {
    let h = CodeHighlighter::new(None);
    let mut app = state(&h);
    app.update_viewport_size(84, 7);
    assert_eq!(app.viewport.height, 5);
    let lines = app.current_chapter_lines();
    assert!(lines > 12);
    app.scroll_down(3);
    assert_eq!((app.viewport.scroll_offset, app.cursor_line), (3, 3));
    app.page_down();
    assert_eq!(app.viewport.scroll_offset, 8);
    app.scroll_down(usize::MAX);
    assert_eq!(app.viewport.scroll_offset, lines - 5);
    app.half_page_up();
    assert_eq!(app.viewport.scroll_offset, lines - 7);
    assert_eq!(app.cursor_line, lines - 5);
    app.scroll_up(usize::MAX);
    assert_eq!((app.viewport.scroll_offset, app.cursor_line), (0, 4));
    app.move_cursor_to_middle();
    assert_eq!(app.cursor_line, 2);
    app.move_cursor_to_bottom();
    assert_eq!(app.cursor_line, 4);
    app.move_cursor_to_top();
    assert_eq!(app.cursor_line, 0);
    app.move_cursor_to_chapter_end();
    assert_eq!(app.cursor_line, lines - 1);
    assert_eq!(app.viewport.scroll_offset, lines - 5);
    app.move_cursor_to_chapter_start();
    assert_eq!((app.viewport.scroll_offset, app.cursor_line), (0, 0));
}

#[test]
fn a_viewport_without_rows_does_not_crash() {
    let h = CodeHighlighter::new(None);
    let mut app = state(&h);
    app.update_viewport_size(84, 1);
    assert_eq!(app.viewport.height, 0);
    app.move_cursor_to_bottom();
    app.move_cursor_to_chapter_end();
    app.scroll_down(1);
    app.scroll_up(2);
    app.page_down();
    assert!(app.cursor_line < app.current_chapter_lines());
}

#[test]
fn bars_and_zen_mode_change_the_viewport() {
    let h = CodeHighlighter::new(None);
    let mut app = state(&h);
    app.toggle_titlebar((100, 30));
    assert_eq!((app.viewport.width, app.viewport.height), (100, 29));
    app.toggle_statusbar((100, 30));
    assert_eq!(app.viewport.height, 30);
    app.toggle_statusbar((100, 30));
    app.toc_panel_visible = true;
    app.toggle_zen_mode((100, 30));
    assert!(app.zen_mode_active);
    assert!(!app.toc_panel_visible && !app.statusbar_visible && !app.titlebar_visible);
    assert_eq!(app.viewport.height, 30);
    app.toggle_zen_mode((100, 30));
    assert!(!app.zen_mode_active);
    assert!(app.toc_panel_visible && app.statusbar_visible && !app.titlebar_visible);
    assert_eq!(app.viewport.height, 29);
    assert_eq!(app.pre_zen_state, None);
}

#[test]
fn the_focus_goes_to_panels_that_show() {
    let h = CodeHighlighter::new(None);
    let mut app = state(&h);
    app.cycle_focus();
    assert_eq!(app.focus, FocusTarget::Content);
    app.focus_toc();
    assert_eq!(app.focus, FocusTarget::Content);
    app.toggle_toc(&h);
    app.toggle_bookmarks(&h);
    app.cycle_focus();
    assert_eq!(app.focus, FocusTarget::Toc);
    app.cycle_focus();
    assert_eq!(app.focus, FocusTarget::Bookmarks);
    app.toggle_bookmarks(&h);
    assert_eq!(app.focus, FocusTarget::Content);
    app.focus_toc();
    app.toggle_toc(&h);
    assert_eq!(app.focus, FocusTarget::Content);
    app.focus_bookmarks();
    assert_eq!(app.focus, FocusTarget::Content);
}

#[test]
fn the_outline_jumps_to_chapters_and_sections() {
    let h = CodeHighlighter::new(None);
    let mut app = state(&h);
    let start = app.book.as_ref().unwrap().chapters[0].sections[1].start_line;
    app.set_toc_selection(vec!["chapter_0".to_string(), "chapter_0_section_1".to_string()]);
    app.toc_select();
    assert_eq!((app.current_chapter, app.cursor_line, app.viewport.scroll_offset), (0, start, start));
    app.set_toc_selection(vec!["chapter_2".to_string()]);
    app.toc_select();
    assert_eq!((app.current_chapter, app.cursor_line), (2, 0));
    app.set_toc_selection(vec!["chapter_1".to_string(), "chapter_1_section_4".to_string()]);
    app.toc_select();
    assert_eq!((app.current_chapter, app.cursor_line), (1, 0));
    app.set_toc_selection(vec!["chapter_9".to_string()]);
    app.toc_select();
    assert_eq!(app.current_chapter, 1);
    app.set_toc_selection(vec!["nonsense".to_string()]);
    app.toc_select();
    assert_eq!(app.current_chapter, 1);
}

#[test]
fn chapters_with_sections_expand_and_collapse() {
    let h = CodeHighlighter::new(None);
    let mut app = state(&h);
    app.set_toc_selection(vec!["chapter_0".to_string()]);
    app.toc_open();
    assert!(app.toc_expanded_chapters.contains("chapter_0"));
    app.toc_open();
    assert!(!app.toc_expanded_chapters.contains("chapter_0"));
    app.set_toc_selection(vec!["chapter_1".to_string()]);
    app.toc_open();
    assert!(!app.toc_expanded_chapters.contains("chapter_1"));
    app.set_toc_selection(vec!["chapter_0_section_0".to_string()]);
    app.toc_open();
    assert!(app.toc_expanded_chapters.to_vec().is_empty());
    app.set_toc_selection(vec!["chapter_2".to_string(), "chapter_2_section_0".to_string()]);
    app.toc_open();
    assert!(app.toc_expanded_chapters.contains("chapter_2"));
    app.toc_close();
    assert!(!app.toc_expanded_chapters.contains("chapter_2"));
}

#[test]
fn the_width_cycles_through_the_presets() {
    let h = CodeHighlighter::new(None);
    let mut app = state(&h);
    let mut seen = vec![app.config.max_width];
    for _ in 0..4 {
        app.cycle_max_width(&h);
        seen.push(app.config.max_width);
    }
    assert_eq!(seen, vec![None, Some(80), Some(100), Some(120), None]);
    app.config.max_width = Some(55);
    app.cycle_max_width(&h);
    assert_eq!(app.config.max_width, None);
    app.cli_max_width_override = Some(60);
    assert_eq!(app.effective_max_width(), Some(60));
}

#[test]
fn a_search_is_typed_sent_off_and_stepped_through() {
    let h = CodeHighlighter::new(None);
    let mut app = state(&h);
    press(&mut app, &h, key(KeyCode::Char('/')));
    assert_eq!(app.ui_mode, UiMode::SearchPopup);
    assert_eq!(app.previous_focus, Some(FocusTarget::Content));
    type_text(&mut app, &h, "needles");
    press(&mut app, &h, key(KeyCode::Backspace));
    assert_eq!(app.input_buffer, "needle");
    press(&mut app, &h, key(KeyCode::Enter));
    assert_eq!(app.ui_mode, UiMode::Normal);
    assert_eq!(app.input_buffer, "");
    assert_eq!(app.search_query, "needle");
    assert_eq!(app.search_results.len(), 14);
    assert_eq!(app.current_search_idx, 1);
    let shown = app.search_results[1];
    assert_eq!((app.current_chapter, app.cursor_line), (shown.chapter_idx, shown.line));
    press(&mut app, &h, key(KeyCode::Char('N')));
    assert_eq!(app.current_search_idx, 0);
    press(&mut app, &h, key(KeyCode::Char('N')));
    assert_eq!(app.current_search_idx, 13);
    assert_eq!(app.current_chapter, 2);
    press(&mut app, &h, key(KeyCode::Char('n')));
    assert_eq!(app.current_search_idx, 0);
    let highlighted: usize = app.book.as_ref().unwrap().chapters.iter()
        .flat_map(|c| c.content_lines.iter()).map(|l| l.search_matches.len()).sum();
    assert_eq!(highlighted, 14);
    press(&mut app, &h, key(KeyCode::Esc));
    assert!(app.search_results.is_empty());
    assert_eq!(app.search_query, "");
    let highlighted: usize = app.book.as_ref().unwrap().chapters.iter()
        .flat_map(|c| c.content_lines.iter()).map(|l| l.search_matches.len()).sum();
    assert_eq!(highlighted, 0);
}

#[test]
fn a_pattern_that_does_not_compile_leaves_the_results() {
    let h = CodeHighlighter::new(None);
    let mut app = state(&h);
    app.input_buffer = "needle".to_string();
    app.submit_search();
    let before = app.search_results.clone();
    app.ui_mode = UiMode::SearchPopup;
    app.input_buffer = "(".to_string();
    app.submit_search();
    assert_eq!(app.search_results, before);
    assert_eq!(app.search_query, "needle");
    assert_eq!(app.ui_mode, UiMode::SearchPopup);
    assert_eq!(app.input_buffer, "(");
}

#[test]
fn matches_are_found_anew_when_the_width_changes() {
    let h = CodeHighlighter::new(None);
    let mut app = state(&h);
    app.input_buffer = "needle".to_string();
    app.submit_search();
    let wide_lines = app.book.as_ref().unwrap().chapters[0].content_lines.len();
    let wide_results = app.search_results.clone();
    handle_task_message(&mut app, TaskMessage::ResizeComplete { width: 30, height: 24 }, &h);
    let book = app.book.as_ref().unwrap();
    assert!(book.chapters[0].content_lines.len() > wide_lines);
    assert_eq!(app.search_results.len(), 14);
    assert_ne!(app.search_results, wide_results);
    assert!(app.current_search_idx < app.search_results.len());
    let mut highlights = 0;
    for (c, ch) in book.chapters.iter().enumerate() {
        for (l, line) in ch.content_lines.iter().enumerate() {
            for (start, end) in &line.search_matches {
                assert_eq!(&line.text[*start..*end], "needle");
                assert!(app.search_results.iter().any(|m| m.chapter_idx == c
                    && m.line == l
                    && m.column == *start
                    && m.match_length == end - start));
                highlights += 1;
            }
        }
    }
    assert_eq!(highlights, 14);
    for m in &app.search_results {
        assert!(m.line < book.chapters[m.chapter_idx].content_lines.len());
    }
}

#[test]
fn a_chapter_from_the_background_replaces_its_chapter() {
    let h = CodeHighlighter::new(None);
    let mut app = state(&h);
    app.input_buffer = "needle".to_string();
    app.submit_search();
    app.loading_state = LoadingState::RenderingChapters { rendered: 1, total: 3 };
    let mut fresh = chapter("<p>no match here</p>");
    render_chapter(&mut fresh, None, 84, &h);
    handle_task_message(
        &mut app,
        TaskMessage::ChapterRendered { chapter_idx: 2, rendered_chapter: fresh },
        &h,
    );
    assert_eq!(app.loading_state, LoadingState::RenderingChapters { rendered: 3, total: 3 });
    assert_eq!(app.search_results.len(), 13);
    assert!(app.search_results.iter().all(|m| m.chapter_idx == 0));
    assert_eq!(app.book.as_ref().unwrap().chapters[2].content_lines[0].text, "no match here");
    handle_task_message(&mut app, TaskMessage::AllChaptersRendered, &h);
    assert_eq!(app.loading_state, LoadingState::Idle);
}

#[test]
fn loading_messages_set_the_state() {
    let h = CodeHighlighter::new(None);
    let mut app = AppState::new(Config::default(), vec!["/a".to_string(), "/b".to_string()]);
    handle_task_message(&mut app, TaskMessage::BookLoadingStarted { file_path: "/b".to_string() }, &h);
    assert_eq!(app.loading_state, LoadingState::LoadingBook { file_path: "/b".to_string() });
    handle_task_message(
        &mut app,
        TaskMessage::BookLoaded {
            book: book(&h),
            file_path: "/b".to_string(),
            bookmarks: vec![Bookmark { chapter_idx: 1, line: 0, label: "x".to_string() }],
            progress: None,
        },
        &h,
    );
    assert_eq!(app.recent_books, vec!["/b".to_string(), "/a".to_string()]);
    assert_eq!(app.loading_state, LoadingState::RenderingChapters { rendered: 1, total: 3 });
    assert_eq!(app.bookmarks.len(), 1);
    handle_task_message(&mut app, TaskMessage::BookLoadError { error: "broken".to_string() }, &h);
    assert_eq!(app.ui_mode, UiMode::ErrorPopup("Failed to load book: broken".to_string()));
    assert_eq!(app.loading_state, LoadingState::Idle);
    press(&mut app, &h, key(KeyCode::Enter));
    assert_eq!(app.ui_mode, UiMode::Normal);
}

#[test]
fn bookmarks_are_set_walked_and_deleted() {
    let h = CodeHighlighter::new(None);
    let mut app = state(&h);
    app.next_chapter();
    press(&mut app, &h, ctrl(KeyCode::Char('m')));
    assert_eq!(app.ui_mode, UiMode::BookmarkPrompt);
    press(&mut app, &h, key(KeyCode::Enter));
    assert_eq!(app.ui_mode, UiMode::BookmarkPrompt);
    type_text(&mut app, &h, " here ");
    press(&mut app, &h, key(KeyCode::Enter));
    assert_eq!(app.ui_mode, UiMode::Normal);
    assert_eq!(app.bookmarks, vec![Bookmark { chapter_idx: 1, line: 0, label: "here".to_string() }]);
    app.bookmarks.push(Bookmark { chapter_idx: 2, line: 1, label: "there".to_string() });
    app.bookmark_previous();
    assert_eq!(app.selected_bookmark_idx, Some(0));
    app.bookmark_next();
    app.bookmark_next();
    assert_eq!(app.selected_bookmark_idx, Some(1));
    app.jump_to_selected_bookmark();
    assert_eq!((app.current_chapter, app.cursor_line, app.viewport.scroll_offset), (2, 1, 0));
    app.delete_selected_bookmark();
    assert_eq!(app.selected_bookmark_idx, Some(0));
    app.delete_selected_bookmark();
    assert_eq!(app.selected_bookmark_idx, None);
    assert!(app.bookmarks.is_empty());
    app.bookmark_next();
    assert_eq!(app.selected_bookmark_idx, None);
}

#[test]
fn keys_mean_what_the_mode_and_focus_say() {
    let normal = UiMode::Normal;
    let cmd = |mode: &UiMode, focus, k| InputHandler::command(mode, focus, true, true, k);
    assert_eq!(cmd(&normal, FocusTarget::Content, key(KeyCode::Char('q'))), Command::Quit);
    assert_eq!(cmd(&normal, FocusTarget::Content, ctrl(KeyCode::Char('c'))), Command::Quit);
    assert_eq!(cmd(&normal, FocusTarget::Content, key(KeyCode::Char('c'))), Command::Ignore);
    assert_eq!(cmd(&normal, FocusTarget::Content, ctrl(KeyCode::Char('t'))), Command::ToggleTitlebar);
    assert_eq!(cmd(&normal, FocusTarget::Content, key(KeyCode::Char('t'))), Command::ToggleToc);
    assert_eq!(cmd(&normal, FocusTarget::Content, ctrl(KeyCode::Char('b'))), Command::ToggleBookmarks);
    assert_eq!(cmd(&normal, FocusTarget::Content, key(KeyCode::Char('j'))), Command::ScrollDown);
    assert_eq!(cmd(&normal, FocusTarget::Toc, key(KeyCode::Char('j'))), Command::TocNext);
    assert_eq!(cmd(&normal, FocusTarget::Bookmarks, key(KeyCode::Char('j'))), Command::BookmarkNext);
    assert_eq!(cmd(&normal, FocusTarget::Bookmarks, key(KeyCode::Char('d'))), Command::BookmarkDelete);
    assert_eq!(cmd(&normal, FocusTarget::Content, ctrl(KeyCode::Char('d'))), Command::HalfPageDown);
    assert_eq!(cmd(&normal, FocusTarget::Content, ctrl(KeyCode::Down)), Command::HalfPageDown);
    assert_eq!(cmd(&normal, FocusTarget::Content, ctrl(KeyCode::PageUp)), Command::PreviousChapter);
    assert_eq!(cmd(&normal, FocusTarget::Content, key(KeyCode::PageUp)), Command::PageUp);
    assert_eq!(cmd(&normal, FocusTarget::Content, key(KeyCode::Char('M'))), Command::CursorMiddle);
    assert_eq!(cmd(&normal, FocusTarget::Content, ctrl(KeyCode::Char('M'))), Command::OpenBookmarkPrompt);
    assert_eq!(cmd(&normal, FocusTarget::Content, key(KeyCode::F(1))), Command::OpenHelp);
    assert_eq!(cmd(&normal, FocusTarget::Content, key(KeyCode::F(2))), Command::Ignore);
    let shift_space = KeyEvent { code: KeyCode::Char(' '), control: false, shift: true, alt: false };
    assert_eq!(cmd(&normal, FocusTarget::Content, shift_space), Command::PageUp);
    let alt_right = KeyEvent { code: KeyCode::Right, control: false, shift: false, alt: true };
    assert_eq!(cmd(&normal, FocusTarget::Content, alt_right), Command::NextSection);
    assert_eq!(cmd(&normal, FocusTarget::Content, key(KeyCode::Right)), Command::Ignore);
    assert_eq!(cmd(&normal, FocusTarget::Toc, key(KeyCode::Right)), Command::TocOpen);
    assert_eq!(cmd(&UiMode::SearchPopup, FocusTarget::Toc, key(KeyCode::Char('q'))), Command::TypeSearch('q'));
    assert_eq!(cmd(&UiMode::BookmarkPrompt, FocusTarget::Toc, key(KeyCode::Enter)), Command::SubmitBookmark);
    assert_eq!(cmd(&UiMode::BookPicker, FocusTarget::Toc, key(KeyCode::Char('q'))), Command::Quit);
    assert_eq!(cmd(&UiMode::Help, FocusTarget::Toc, key(KeyCode::Char('?'))), Command::CloseOverlay);
    assert_eq!(cmd(&UiMode::Help, FocusTarget::Toc, key(KeyCode::Char('q'))), Command::Ignore);
    assert_eq!(cmd(&UiMode::MetadataPopup, FocusTarget::Toc, key(KeyCode::Char('I'))), Command::CloseOverlay);
    let error = UiMode::ErrorPopup("e".to_string());
    assert_eq!(cmd(&error, FocusTarget::Toc, key(KeyCode::Esc)), Command::CloseError);
    // a panel that does not show leaves its keys to the content
    assert_eq!(
        InputHandler::command(&normal, FocusTarget::Toc, false, true, key(KeyCode::Char('j'))),
        Command::ScrollDown
    );
}

#[test]
fn the_book_picker_hands_the_path_back() {
    let h = CodeHighlighter::new(None);
    let mut app = AppState::new(Config::default(), vec!["/a".to_string(), "/b".to_string(), "/c".to_string()]);
    app.current_book_path = Some("/b".to_string());
    press(&mut app, &h, ctrl(KeyCode::Char('o')));
    assert_eq!(app.ui_mode, UiMode::BookPicker);
    assert_eq!(app.book_picker_selected_idx, Some(1));
    press(&mut app, &h, key(KeyCode::Char('j')));
    press(&mut app, &h, key(KeyCode::Down));
    assert_eq!(app.book_picker_selected_idx, Some(2));
    assert_eq!(press(&mut app, &h, key(KeyCode::Enter)), Action::LoadBook("/c".to_string()));
    press(&mut app, &h, key(KeyCode::Up));
    press(&mut app, &h, key(KeyCode::Char('k')));
    press(&mut app, &h, key(KeyCode::Char('k')));
    assert_eq!(app.book_picker_selected_idx, Some(0));
    assert!(!app.should_quit);
    press(&mut app, &h, key(KeyCode::Esc));
    assert!(app.should_quit);
}

#[test]
fn overlays_give_the_focus_back() {
    let h = CodeHighlighter::new(None);
    let mut app = state(&h);
    app.toc_panel_visible = true;
    app.focus = FocusTarget::Toc;
    assert_eq!(press(&mut app, &h, key(KeyCode::Char('j'))), Action::TocNext);
    assert_eq!(press(&mut app, &h, key(KeyCode::Up)), Action::TocPrevious);
    press(&mut app, &h, key(KeyCode::Char('/')));
    app.focus = FocusTarget::Content;
    press(&mut app, &h, key(KeyCode::Esc));
    assert_eq!(app.ui_mode, UiMode::Normal);
    app.focus = FocusTarget::Content;
    press(&mut app, &h, key(KeyCode::Char('?')));
    assert_eq!(app.ui_mode, UiMode::Help);
    app.focus = FocusTarget::Toc;
    press(&mut app, &h, key(KeyCode::F(1)));
    assert_eq!(app.ui_mode, UiMode::Normal);
    assert_eq!(app.focus, FocusTarget::Content);
    assert_eq!(app.previous_focus, None);
    press(&mut app, &h, key(KeyCode::Char('I')));
    assert_eq!(app.ui_mode, UiMode::MetadataPopup);
    press(&mut app, &h, key(KeyCode::Esc));
    assert_eq!(app.ui_mode, UiMode::Normal);
    press(&mut app, &h, key(KeyCode::Char('q')));
    assert!(app.should_quit);
}

#[test]
fn the_input_takes_no_more_than_its_limit() {
    let h = CodeHighlighter::new(None);
    let mut app = state(&h);
    press(&mut app, &h, ctrl(KeyCode::Char('m')));
    type_text(&mut app, &h, &"x".repeat(120));
    assert_eq!(app.input_buffer.len(), 100);
    press(&mut app, &h, key(KeyCode::Esc));
    assert_eq!(app.input_buffer, "");
    press(&mut app, &h, key(KeyCode::Char('/')));
    type_text(&mut app, &h, &"y".repeat(510));
    assert_eq!(app.input_buffer.len(), 500);
}

#[test]
fn the_bars_say_where_the_reader_is() {
    let h = CodeHighlighter::new(None);
    let empty = AppState::new(Config::default(), Vec::new());
    assert_eq!(reef::ui::layout::title_text(&empty), "EPUB Reader");
    assert_eq!(reef::ui::layout::status_text(&empty), "No book loaded");
    let mut app = state(&h);
    assert_eq!(reef::ui::layout::title_text(&app), "Book - c");
    let lines = app.current_chapter_lines();
    assert_eq!(reef::ui::layout::status_text(&app), format!("Ch 1/3  | Line 1/{} (0%)", lines));
    app.next_section();
    app.next_section();
    let line = app.cursor_line;
    assert_eq!(
        reef::ui::layout::status_text(&app),
        format!("Ch 1/3 | Sec 2/2  | Line {}/{} ({}%)", line + 1, lines, line * 100 / lines)
    );
    app.input_buffer = "needle|a very long pattern".to_string();
    app.submit_search();
    let status = reef::ui::layout::status_text(&app);
    assert!(status.ends_with(" | [Search: 'needle|a very lon...' 2/14]"), "{}", status);
    app.current_chapter = 7;
    assert_eq!(reef::ui::layout::title_text(&app), "Book - Unknown Chapter");
    assert!(reef::ui::layout::status_text(&app).starts_with("Ch 8/3  | Line "));
}

#[test]
fn the_lines_in_view_stay_within_the_chapter() {
    let h = CodeHighlighter::new(None);
    let mut app = state(&h);
    let lines = app.current_chapter_lines();
    assert_eq!(reef::ui::layout::visible_range(&app, 5), (0, 5));
    assert_eq!(reef::ui::layout::visible_range(&app, u16::MAX), (0, lines));
    app.viewport.scroll_offset = lines - 2;
    assert_eq!(reef::ui::layout::visible_range(&app, 5), (lines - 2, lines));
    app.viewport.scroll_offset = usize::MAX;
    assert_eq!(reef::ui::layout::visible_range(&app, 5), (lines, lines));
    app.current_chapter = 9;
    assert_eq!(reef::ui::layout::visible_range(&app, 5), (0, 0));
}

#[test]
fn a_line_is_cut_at_its_search_spans() {
    let h = CodeHighlighter::new(None);
    let mut app = state(&h);
    app.input_buffer = "needle".to_string();
    app.submit_search();
    let shown = app.search_results[app.current_search_idx];
    let parts = reef::ui::layout::content_segments(&app, shown.line);
    let joined: String = parts.iter().map(|p| p.text.as_str()).collect();
    assert_eq!(joined, app.book.as_ref().unwrap().chapters[0].content_lines[shown.line].text);
    let hits: Vec<&reef::ui::layout::Segment> = parts.iter().filter(|p| p.highlighted).collect();
    assert!(hits.iter().all(|p| p.text == "needle"));
    assert_eq!(hits.iter().filter(|p| p.current).count(), 1);
    assert!(parts.iter().all(|p| p.highlighted || !p.current));
    assert!(reef::ui::layout::content_segments(&app, usize::MAX).is_empty());

    let line = reef::types::RenderedLine {
        text: "aé needle é".to_string(),
        style: reef::types::LineStyle::Normal,
        search_matches: vec![(0, 1), (4, 10)],
        inline_styles: vec![],
        syntax_colors: vec![],
    };
    let parts = reef::ui::layout::line_segments(&line, Some(4));
    let found: Vec<(&str, bool, bool)> =
        parts.iter().map(|p| (p.text.as_str(), p.highlighted, p.current)).collect();
    assert_eq!(
        found,
        vec![("a", true, false), ("é ", false, false), ("needle", true, true), (" é", false, false)]
    );
    let plain = reef::types::RenderedLine { search_matches: vec![], ..line.clone() };
    let parts = reef::ui::layout::line_segments(&plain, None);
    assert_eq!(parts.len(), 1);
    assert_eq!(parts[0].text, "aé needle é");
}

#[test]
fn only_the_last_size_of_a_burst_is_passed_on() {
    let mut debouncer = reef::async_tasks::ResizeDebouncer::new();
    assert!(debouncer.flush().is_none());
    debouncer.record((100, 30));
    debouncer.record((90, 28));
    debouncer.record((80, 24));
    match debouncer.flush() {
        Some(TaskMessage::ResizeComplete { width, height }) => assert_eq!((width, height), (80, 24)),
        _ => panic!("expected the last size"),
    }
    assert!(debouncer.flush().is_none());
}

#[test]
fn loading_goes_chapter_by_chapter_until_cancelled() {
    use_steps();
}

fn use_steps() {
    let step = reef::async_tasks::next_load_step;
    assert_eq!(step(1, 3, false), reef::async_tasks::LoadStep::Render(1));
    assert_eq!(step(2, 3, false), reef::async_tasks::LoadStep::Render(2));
    assert_eq!(step(3, 3, false), reef::async_tasks::LoadStep::Finish);
    assert_eq!(step(1, 0, false), reef::async_tasks::LoadStep::Finish);
    assert_eq!(step(1, 3, true), reef::async_tasks::LoadStep::Stop);
    assert_eq!(step(3, 3, true), reef::async_tasks::LoadStep::Stop);
}

#[test]
fn a_search_of_a_book_without_chapters_comes_back_empty() {
    let mut app = AppState::new(Config::default(), Vec::new());
    let book = Book {
        metadata: BookMetadata {
            title: "Empty".to_string(),
            author: None,
            publisher: None,
            publication_date: None,
            language: None,
        },
        chapters: Vec::new(),
    };
    app.open_book(book, "/e.epub".to_string(), Vec::new(), None);
    app.ui_mode = UiMode::SearchPopup;
    app.input_buffer = "anything".to_string();
    app.submit_search();
    assert_eq!(app.ui_mode, UiMode::Normal);
    assert_eq!(app.input_buffer, "");
    assert_eq!(app.search_query, "anything");
    assert!(app.search_results.is_empty());
}

#[test]
fn a_search_outcome_is_taken_in_or_left_out() {
    let h = CodeHighlighter::new(None);
    let mut app = state(&h);
    app.ui_mode = UiMode::SearchPopup;
    app.input_buffer = "needle".to_string();
    app.take_search_outcome(Err(reef::search::SearchError::Timeout));
    assert_eq!(app.ui_mode, UiMode::SearchPopup);
    assert_eq!(app.input_buffer, "needle");
    assert!(app.search_results.is_empty());

    let found = reef::search::SearchEngine::search(app.book.as_ref().unwrap(), "needle").unwrap();
    app.take_search_outcome(Ok(found.clone()));
    assert_eq!(app.ui_mode, UiMode::Normal);
    assert_eq!(app.input_buffer, "");
    assert_eq!(app.search_query, "needle");
    assert_eq!(app.search_results, found);
    assert_eq!(app.current_search_idx, 1);
    let shown = found[1];
    assert_eq!((app.current_chapter, app.cursor_line), (shown.chapter_idx, shown.line));
    let highlighted: usize = app.book.as_ref().unwrap().chapters.iter()
        .flat_map(|c| c.content_lines.iter()).map(|l| l.search_matches.len()).sum();
    assert_eq!(highlighted, found.len());

    app.input_buffer = "typed".to_string();
    app.take_search_outcome(Ok(Vec::new()));
    assert!(app.search_results.is_empty());
    assert_eq!(app.search_query, "typed");
    assert_eq!(app.current_search_idx, 0);

    let mut bare = AppState::new(Config::default(), Vec::new());
    bare.input_buffer = "x".to_string();
    bare.take_search_outcome(Ok(Vec::new()));
    assert_eq!(bare.input_buffer, "x");
    assert!(bare.book.is_none());
}
