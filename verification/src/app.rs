//! The reader's state and the moves that change it: panels and focus,
//! scrolling, chapter and section navigation, the outline, bookmarks and
//! search results.

use vstd::prelude::*;
use vstd::string::*;
use crate::constants::{
    DEFAULT_TERMINAL_HEIGHT, DEFAULT_TERMINAL_WIDTH, WIDTH_PRESET_1, WIDTH_PRESET_2, WIDTH_PRESET_3,
};
use crate::expand::ExpandState;
use crate::epub::code_highlight::CodeHighlighter;
use crate::epub::renderer::{is_fresh_layout, render_chapter};
use crate::persistence::ReadingProgress;
use crate::search::{
    centered_offset, cleared, highlighted, is_outcome, matches_fit, next_index, previous_index,
    search_outcome, search_spans_in_bounds, SearchEngine,
};
use crate::text::string_views;
use crate::toc::{located_path, parsed_item_id, TocManager};
use crate::types::{
    bookmark_views, Book, Bookmark, BookmarkView, Chapter, ChapterView, Config, FocusTarget,
    LoadingState, LoadingStateView, SearchMatch, TocItem, TocState, UiMode, UiModeView, Viewport,
    ZenModeState,
};

verus! {

/// Everything the reader's interface keeps between two events.
pub struct AppState {
    pub book: Option<Book>,
    pub viewport: Viewport,
    pub current_chapter: usize,
    pub cursor_line: usize,
    pub focus: FocusTarget,
    pub config: Config,
    pub should_quit: bool,
    /// A maximum width given on the command line; it is not saved.
    pub cli_max_width_override: Option<usize>,
    pub ui_mode: UiMode,
    pub previous_focus: Option<FocusTarget>,
    pub toc_panel_visible: bool,
    pub toc_state: TocState,
    pub toc_expanded_chapters: ExpandState,
    pub bookmarks_panel_visible: bool,
    pub selected_bookmark_idx: Option<usize>,
    pub titlebar_visible: bool,
    pub statusbar_visible: bool,
    pub zen_mode_active: bool,
    pub pre_zen_state: Option<ZenModeState>,
    pub search_query: String,
    pub search_results: Vec<SearchMatch>,
    pub current_search_idx: usize,
    pub input_buffer: String,
    pub bookmarks: Vec<Bookmark>,
    pub recent_books: Vec<String>,
    pub current_book_path: Option<String>,
    pub book_picker_selected_idx: Option<usize>,
    pub loading_state: LoadingState,
}

/// Mathematical view of the reader's state.
pub struct AppView {
    pub metadata: Option<crate::types::BookMetadata>,
    pub chapters: Option<Seq<ChapterView>>,
    pub viewport: Viewport,
    pub current_chapter: usize,
    pub cursor_line: usize,
    pub focus: FocusTarget,
    pub config: Config,
    pub should_quit: bool,
    pub cli_max_width_override: Option<usize>,
    pub ui_mode: UiModeView,
    pub previous_focus: Option<FocusTarget>,
    pub toc_panel_visible: bool,
    pub toc_items: Seq<TocItem>,
    pub selected: Seq<Seq<char>>,
    pub expanded: Set<Seq<char>>,
    pub bookmarks_panel_visible: bool,
    pub selected_bookmark_idx: Option<usize>,
    pub titlebar_visible: bool,
    pub statusbar_visible: bool,
    pub zen_mode_active: bool,
    pub pre_zen_state: Option<ZenModeState>,
    pub search_query: Seq<char>,
    pub search_results: Seq<SearchMatch>,
    pub current_search_idx: usize,
    pub input_buffer: Seq<char>,
    pub bookmarks: Seq<BookmarkView>,
    pub recent_books: Seq<Seq<char>>,
    pub current_book_path: Option<Seq<char>>,
    pub book_picker_selected_idx: Option<usize>,
    pub loading_state: LoadingStateView,
}

impl View for AppState {
    type V = AppView;

    open spec fn view(&self) -> AppView {
        AppView {
            metadata: match self.book {
                Some(b) => Some(b.metadata),
                None => None,
            },
            chapters: match self.book {
                Some(b) => Some(b.chapters_view()),
                None => None,
            },
            viewport: self.viewport,
            current_chapter: self.current_chapter,
            cursor_line: self.cursor_line,
            focus: self.focus,
            config: self.config,
            should_quit: self.should_quit,
            cli_max_width_override: self.cli_max_width_override,
            ui_mode: self.ui_mode@,
            previous_focus: self.previous_focus,
            toc_panel_visible: self.toc_panel_visible,
            toc_items: self.toc_state.items@,
            selected: string_views(self.toc_state.selected@),
            expanded: self.toc_expanded_chapters@,
            bookmarks_panel_visible: self.bookmarks_panel_visible,
            selected_bookmark_idx: self.selected_bookmark_idx,
            titlebar_visible: self.titlebar_visible,
            statusbar_visible: self.statusbar_visible,
            zen_mode_active: self.zen_mode_active,
            pre_zen_state: self.pre_zen_state,
            search_query: self.search_query@,
            search_results: self.search_results@,
            current_search_idx: self.current_search_idx,
            input_buffer: self.input_buffer@,
            bookmarks: bookmark_views(self.bookmarks@),
            recent_books: string_views(self.recent_books@),
            current_book_path: crate::types::opt_view(self.current_book_path),
            book_picker_selected_idx: self.book_picker_selected_idx,
            loading_state: self.loading_state@,
        }
    }
}

/// `a + b`, kept at the largest `usize` where it would go beyond.
pub open spec fn sat_add(a: int, b: int) -> usize {
    if a + b > usize::MAX {
        usize::MAX
    } else {
        (a + b) as usize
    }
}

/// `a - b`, kept at zero where it would go below.
pub open spec fn sat_sub(a: int, b: int) -> usize {
    if a >= b {
        (a - b) as usize
    } else {
        0
    }
}

/// The smaller of two numbers.
pub open spec fn least(a: usize, b: usize) -> usize {
    if a < b {
        a
    } else {
        b
    }
}

impl AppView {
    /// The state at start: no book, a viewport of the default size, the
    /// focus on the content, the bars shown and the panels hidden, nothing
    /// typed, searched, selected or expanded.
    pub open spec fn initial(config: Config, recent_books: Seq<Seq<char>>) -> AppView {
        AppView {
            metadata: None,
            chapters: None,
            viewport: Viewport {
                width: DEFAULT_TERMINAL_WIDTH,
                height: DEFAULT_TERMINAL_HEIGHT,
                scroll_offset: 0,
            },
            current_chapter: 0,
            cursor_line: 0,
            focus: FocusTarget::Content,
            config,
            should_quit: false,
            cli_max_width_override: None,
            ui_mode: UiModeView::Normal,
            previous_focus: None,
            toc_panel_visible: false,
            toc_items: Seq::empty(),
            selected: Seq::empty(),
            expanded: Set::empty(),
            bookmarks_panel_visible: false,
            selected_bookmark_idx: None,
            titlebar_visible: true,
            statusbar_visible: true,
            zen_mode_active: false,
            pre_zen_state: None,
            search_query: Seq::empty(),
            search_results: Seq::empty(),
            current_search_idx: 0,
            input_buffer: Seq::empty(),
            bookmarks: Seq::empty(),
            recent_books,
            current_book_path: None,
            book_picker_selected_idx: None,
            loading_state: LoadingStateView::Idle,
        }
    }

    /// The number of chapters of the open book; zero without one.
    pub open spec fn total_chapters(self) -> usize {
        match self.chapters {
            Some(c) => c.len() as usize,
            None => 0,
        }
    }

    /// Whether a book is open and the current chapter is one of its.
    pub open spec fn has_current(self) -> bool {
        self.chapters is Some && self.current_chapter < self.chapters->Some_0.len()
    }

    /// The current chapter.
    pub open spec fn current(self) -> ChapterView {
        self.chapters->Some_0[self.current_chapter as int]
    }

    /// The number of lines of the current chapter; zero without one.
    pub open spec fn current_lines(self) -> usize {
        if self.has_current() {
            self.current().content_lines.len() as usize
        } else {
            0
        }
    }

    /// The last line of the current chapter; zero in an empty one.
    pub open spec fn max_line(self) -> usize {
        sat_sub(self.current_lines() as int, 1)
    }

    /// The state with the cursor at `line` and the viewport scrolled to
    /// `offset`.
    pub open spec fn at(self, line: usize, offset: usize) -> AppView {
        AppView {
            cursor_line: line,
            viewport: Viewport {
                width: self.viewport.width,
                height: self.viewport.height,
                scroll_offset: offset,
            },
            ..self
        }
    }

    /// The state with the outline's selection moved to where the cursor is.
    /// Where the cursor is in a section, the section's chapter is expanded so
    /// that the section can be shown. Without a book, or with a current
    /// chapter that the book does not have, nothing changes.
    pub open spec fn synced(self) -> AppView {
        match self.chapters {
            Some(chapters) => match located_path(chapters, self.current_chapter, self.cursor_line) {
                Some(path) => AppView {
                    selected: path,
                    expanded: if path.len() > 1 {
                        self.expanded.insert(path[0])
                    } else {
                        self.expanded
                    },
                    ..self
                },
                None => self,
            },
            None => self,
        }
    }

    /// The state synced to the cursor where the outline panel shows.
    pub open spec fn synced_if_visible(self) -> AppView {
        if self.toc_panel_visible {
            self.synced()
        } else {
            self
        }
    }

    /// The focus after cycling: from the content to the outline or, without
    /// it, the bookmarks; from the outline to the bookmarks; else to the
    /// content. Only panels that show take the focus.
    pub open spec fn cycled_focus(self) -> FocusTarget {
        match self.focus {
            FocusTarget::Content => if self.toc_panel_visible {
                FocusTarget::Toc
            } else if self.bookmarks_panel_visible {
                FocusTarget::Bookmarks
            } else {
                FocusTarget::Content
            },
            FocusTarget::Toc => if self.bookmarks_panel_visible {
                FocusTarget::Bookmarks
            } else {
                FocusTarget::Content
            },
            FocusTarget::Bookmarks => FocusTarget::Content,
        }
    }

    /// The rows that the title and status bar take.
    pub open spec fn reserved_height(self) -> u16 {
        ((if self.titlebar_visible {
            1int
        } else {
            0int
        }) + (if self.statusbar_visible {
            1int
        } else {
            0int
        })) as u16
    }

    /// The state in a terminal of the given size: the viewport is as wide
    /// and as high, less the rows of the bars.
    pub open spec fn resized(self, width: u16, height: u16) -> AppView {
        AppView {
            viewport: Viewport {
                width,
                height: sat_sub(height as int, self.reserved_height() as int) as u16,
                scroll_offset: self.viewport.scroll_offset,
            },
            ..self
        }
    }

    /// The state with zen mode toggled. Entering it saves which panels and
    /// bars show and hides them all; leaving it shows what was saved.
    pub open spec fn zen_toggled(self) -> AppView {
        if self.zen_mode_active {
            match self.pre_zen_state {
                Some(saved) => AppView {
                    toc_panel_visible: saved.toc_visible,
                    bookmarks_panel_visible: saved.bookmarks_visible,
                    statusbar_visible: saved.statusbar_visible,
                    titlebar_visible: saved.titlebar_visible,
                    zen_mode_active: false,
                    pre_zen_state: None,
                    ..self
                },
                None => AppView { zen_mode_active: false, pre_zen_state: None, ..self },
            }
        } else {
            AppView {
                pre_zen_state: Some(
                    ZenModeState {
                        toc_visible: self.toc_panel_visible,
                        bookmarks_visible: self.bookmarks_panel_visible,
                        statusbar_visible: self.statusbar_visible,
                        titlebar_visible: self.titlebar_visible,
                    },
                ),
                toc_panel_visible: false,
                bookmarks_panel_visible: false,
                statusbar_visible: false,
                titlebar_visible: false,
                zen_mode_active: true,
                ..self
            }
        }
    }

    /// The last line that the viewport shows, counted as if the chapter went
    /// on: the first line it shows plus its height less one.
    pub open spec fn viewport_end(self) -> usize {
        sat_sub(sat_add(self.viewport.scroll_offset as int, self.viewport.height as int) as int, 1)
    }

    /// The cursor kept within the viewport and within the chapter.
    pub open spec fn clamped_cursor(self) -> usize {
        let inside = if self.cursor_line < self.viewport.scroll_offset {
            self.viewport.scroll_offset
        } else if self.cursor_line > self.viewport_end() {
            least(self.viewport_end(), self.max_line())
        } else {
            self.cursor_line
        };
        least(inside, self.max_line())
    }

    /// The state with the cursor kept within the viewport and the chapter.
    pub open spec fn cursor_clamped(self) -> AppView {
        AppView { cursor_line: self.clamped_cursor(), ..self }
    }

    /// The state scrolled down by `lines`, no further than the chapter's
    /// last screenful. The cursor follows the viewport. An empty chapter
    /// leaves the state as it is.
    pub open spec fn scrolled_down(self, lines: usize) -> AppView {
        if self.current_lines() == 0 {
            self
        } else {
            self.at(
                self.cursor_line,
                least(
                    sat_add(self.viewport.scroll_offset as int, lines as int),
                    sat_sub(self.current_lines() as int, self.viewport.height as int),
                ),
            ).cursor_clamped().synced_if_visible()
        }
    }

    /// The state scrolled up by `lines`, no further than the chapter's
    /// start. The cursor follows the viewport.
    pub open spec fn scrolled_up(self, lines: usize) -> AppView {
        self.at(
            self.cursor_line,
            sat_sub(self.viewport.scroll_offset as int, lines as int),
        ).cursor_clamped().synced_if_visible()
    }

    /// The state at the start of the chapter after the current one, or of
    /// the first behind the last. Without chapters nothing changes.
    pub open spec fn at_next_chapter(self) -> AppView {
        if self.total_chapters() == 0 {
            self
        } else {
            AppView {
                current_chapter: ((self.current_chapter + 1) % (
                self.total_chapters() as int)) as usize,
                ..self.at(0, 0)
            }.synced()
        }
    }

    /// The state at the start of the chapter before the current one, or of
    /// the last before the first. Without chapters nothing changes.
    pub open spec fn at_previous_chapter(self) -> AppView {
        if self.total_chapters() == 0 {
            self
        } else {
            AppView {
                current_chapter: if self.current_chapter == 0 {
                    (self.total_chapters() - 1) as usize
                } else {
                    (self.current_chapter - 1) as usize
                },
                ..self.at(0, 0)
            }.synced()
        }
    }
}

/// The first section at or after `from` that starts behind `line`.
pub open spec fn section_after(sections: Seq<crate::types::SectionView>, line: usize, from: int) -> Option<
    int,
>
    decreases sections.len() - from,
{
    if from < 0 || from >= sections.len() {
        None
    } else if sections[from].start_line > line {
        Some(from)
    } else {
        section_after(sections, line, from + 1)
    }
}

impl AppView {
    /// The state at the next section: the first section of the chapter that
    /// starts behind the cursor. Where there is none, or the chapter has no
    /// sections, the state at the next chapter. Without a current chapter
    /// only the outline is synced.
    pub open spec fn at_next_section(self) -> AppView {
        if !self.has_current() {
            self.synced()
        } else if self.current().sections.len() == 0 {
            self.at_next_chapter()
        } else {
            match section_after(self.current().sections, self.cursor_line, 0) {
                Some(s) => self.at(
                    self.current().sections[s].start_line,
                    self.current().sections[s].start_line,
                ).synced(),
                None => self.at_next_chapter(),
            }
        }
    }

    /// The state at the previous section: the section before the one that
    /// holds the cursor. From the first section, from before it, and in a
    /// chapter without sections, the state at the previous chapter. Without a
    /// current chapter only the outline is synced.
    pub open spec fn at_previous_section(self) -> AppView {
        if !self.has_current() {
            self.synced()
        } else if self.current().sections.len() == 0 {
            self.at_previous_chapter()
        } else {
            match crate::toc::section_at(self.current().sections, self.cursor_line, 0) {
                Some(s) => if s == 0 {
                    self.at_previous_chapter()
                } else {
                    self.at(
                        self.current().sections[s - 1].start_line,
                        self.current().sections[s - 1].start_line,
                    ).synced()
                },
                None => self.at_previous_chapter(),
            }
        }
    }

    /// The maximum width in effect: the one from the command line, else the
    /// configured one.
    pub open spec fn effective_max_width(self) -> Option<usize> {
        match self.cli_max_width_override {
            Some(w) => Some(w),
            None => self.config.max_width,
        }
    }

    /// The configured maximum width after cycling through the presets:
    /// none, 80, 100, 120, and none again. Any other width gives none.
    pub open spec fn cycled_max_width(self) -> Option<usize> {
        match self.config.max_width {
            None => Some(WIDTH_PRESET_1),
            Some(w) => if w == WIDTH_PRESET_1 {
                Some(WIDTH_PRESET_2)
            } else if w == WIDTH_PRESET_2 {
                Some(WIDTH_PRESET_3)
            } else {
                None
            },
        }
    }

    /// The width that is left for the content beside the panels that show:
    /// each takes its width and one column more.
    pub open spec fn available_width(self) -> u16 {
        let beside_toc = if self.toc_panel_visible {
            sat_sub(self.viewport.width as int, self.config.toc_panel_width + 1) as u16
        } else {
            self.viewport.width
        };
        if self.bookmarks_panel_visible {
            sat_sub(beside_toc as int, self.config.bookmarks_panel_width + 1) as u16
        } else {
            beside_toc
        }
    }

    /// The state after jumping to result `idx` of the search: the cursor on
    /// its line, the line centred, the outline synced.
    pub open spec fn at_search_result(self, idx: int) -> AppView {
        let m = self.search_results[idx];
        AppView {
            current_search_idx: idx as usize,
            current_chapter: m.chapter_idx,
            ..self.at(m.line, centered_offset(m.line, self.viewport.height))
        }.synced()
    }

    /// The state at the next search result, cyclically. Without results
    /// nothing changes.
    pub open spec fn at_next_result(self) -> AppView {
        if self.search_results.len() == 0 {
            self
        } else {
            self.at_search_result(
                next_index(self.search_results.len() as int, self.current_search_idx as int),
            )
        }
    }

    /// The state at the previous search result, the last one before the
    /// first. Without results, or where the current index lies behind them,
    /// nothing changes.
    pub open spec fn at_previous_result(self) -> AppView {
        let idx = previous_index(self.search_results.len() as int, self.current_search_idx as int);
        if 0 <= idx < self.search_results.len() {
            self.at_search_result(idx)
        } else {
            self
        }
    }
}

/// Whether `pattern` stands somewhere in `s`.
pub open spec fn has_substring(s: Seq<char>, pattern: Seq<char>) -> bool {
    exists|i: int| 0 <= i <= s.len() && #[trigger] crate::text::starts_with(s.skip(i), pattern)
}

/// Whether `pattern` stands somewhere in `v`.
pub fn contains_text(v: &Vec<char>, pattern: &Vec<char>) -> (found: bool)
    ensures
        found == has_substring(v@, pattern@),
{
    let mut i: usize = 0;
    while i < v.len()
        invariant
            i <= v.len(),
            forall|j: int| 0 <= j < i ==> !#[trigger] crate::text::starts_with(v@.skip(j), pattern@),
        decreases v.len() - i,
    {
        if crate::text::has_prefix_at(v, i, pattern) {
            return true;
        }
        i += 1;
    }
    crate::text::has_prefix_at(v, v.len(), pattern)
}

impl AppView {
    /// The state with the cursor on the first line that the viewport shows.
    pub open spec fn cursor_at_top(self) -> AppView {
        AppView { cursor_line: self.viewport.scroll_offset, ..self }
    }

    /// The state with the cursor in the middle of the viewport, or on the
    /// chapter's last line where that comes first.
    pub open spec fn cursor_at_middle(self) -> AppView {
        AppView {
            cursor_line: least(
                sat_add(self.viewport.scroll_offset as int, self.viewport.height as int / 2),
                self.max_line(),
            ),
            ..self
        }
    }

    /// The state with the cursor on the last line that the viewport shows,
    /// or on the chapter's last line where that comes first.
    pub open spec fn cursor_at_bottom(self) -> AppView {
        AppView { cursor_line: least(self.viewport_end(), self.max_line()), ..self }
    }

    /// The state with the cursor on the chapter's last line, scrolled so
    /// that the line is the last one shown where the chapter is longer than
    /// the viewport.
    pub open spec fn at_chapter_end(self) -> AppView {
        if self.max_line() >= self.viewport.height {
            self.at(
                self.max_line(),
                sat_sub(self.max_line() as int, sat_sub(self.viewport.height as int, 1) as int),
            )
        } else {
            AppView { cursor_line: self.max_line(), ..self }
        }
    }

    /// The node that opening and closing in the outline act on: the head of
    /// the selection.
    pub open spec fn toggled_chapter(self) -> Option<usize> {
        if self.selected.len() == 0 {
            None
        } else {
            let id = self.selected[0];
            if crate::text::starts_with(id, "chapter_"@) && !has_substring(id, "_section_"@) {
                match crate::decimal::parsed_usize(id.skip("chapter_"@.len() as int)) {
                    Some(c) => if self.chapters is Some && c < self.chapters->Some_0.len()
                        && self.chapters->Some_0[c as int].sections.len() > 0 {
                        Some(c)
                    } else {
                        None
                    },
                    None => None,
                }
            } else {
                None
            }
        }
    }

    /// The state after opening in the outline: where a chapter with sections
    /// is selected, it changes between expanded and collapsed. A leaf stays
    /// as it is.
    pub open spec fn toc_opened(self) -> AppView {
        if self.toggled_chapter() is Some {
            AppView {
                expanded: if self.expanded.contains(self.selected[0]) {
                    self.expanded.remove(self.selected[0])
                } else {
                    self.expanded.insert(self.selected[0])
                },
                ..self
            }
        } else {
            self
        }
    }

    /// The state after closing in the outline: the head of the selection is
    /// collapsed.
    pub open spec fn toc_closed(self) -> AppView {
        if self.selected.len() == 0 {
            self
        } else {
            AppView { expanded: self.expanded.remove(self.selected[0]), ..self }
        }
    }

    /// The state after jumping to the selected node of the outline: to the
    /// chapter's start for a chapter, to the section's start for a section.
    /// A selection that is no identity, or names no chapter of the book,
    /// changes nothing; one that names no section of its chapter changes the
    /// chapter only.
    pub open spec fn toc_selected(self) -> AppView {
        if self.selected.len() == 0 {
            self
        } else {
            match parsed_item_id(self.selected.last()) {
                None => self,
                Some((c, section)) => if c >= self.total_chapters() {
                    self
                } else {
                    let moved = AppView { current_chapter: c, ..self };
                    match section {
                        Some(s) => if s < self.chapters->Some_0[c as int].sections.len() {
                            moved.at(
                                self.chapters->Some_0[c as int].sections[s as int].start_line,
                                self.chapters->Some_0[c as int].sections[s as int].start_line,
                            )
                        } else {
                            moved
                        },
                        None => moved.at(0, 0),
                    }
                },
            }
        }
    }

    /// The state with the bookmark after the selected one selected, the
    /// first where none is, and no further than the last. Without bookmarks
    /// none is selected.
    pub open spec fn bookmark_after(self) -> Option<usize> {
        if self.bookmarks.len() == 0 {
            None
        } else {
            match self.selected_bookmark_idx {
                None => Some(0),
                Some(i) => Some(least(sat_add(i as int, 1), (self.bookmarks.len() - 1) as usize)),
            }
        }
    }

    /// The bookmark before the selected one, the first where none is
    /// selected, and no further than the last. Without bookmarks none is
    /// selected.
    pub open spec fn bookmark_before(self) -> Option<usize> {
        if self.bookmarks.len() == 0 {
            None
        } else {
            match self.selected_bookmark_idx {
                None => Some(0),
                Some(i) => Some(least(sat_sub(i as int, 1), (self.bookmarks.len() - 1) as usize)),
            }
        }
    }

    /// The state after jumping to the selected bookmark: the cursor on its
    /// line, the line centred, the outline synced. Without a selected
    /// bookmark nothing changes.
    pub open spec fn at_selected_bookmark(self) -> AppView {
        match self.selected_bookmark_idx {
            Some(i) => if i < self.bookmarks.len() {
                let b = self.bookmarks[i as int];
                AppView {
                    current_chapter: b.chapter_idx,
                    ..self.at(b.line, centered_offset(b.line, self.viewport.height))
                }.synced()
            } else {
                self
            },
            None => self,
        }
    }

    /// The state without the selected bookmark. The selection stays on the
    /// same place, or on the last bookmark where that place is gone; without
    /// bookmarks none is selected. Without a selected bookmark nothing
    /// changes.
    pub open spec fn without_selected_bookmark(self) -> AppView {
        match self.selected_bookmark_idx {
            Some(i) => if i < self.bookmarks.len() {
                let rest = self.bookmarks.remove(i as int);
                AppView {
                    bookmarks: rest,
                    selected_bookmark_idx: if rest.len() == 0 {
                        None
                    } else {
                        Some(least(i, (rest.len() - 1) as usize))
                    },
                    ..self
                }
            } else {
                self
            },
            None => self,
        }
    }
}

impl AppState {
    /// The state at start: no book, a viewport of the default size, the
    /// focus on the content, bars shown and panels hidden.
    pub fn new(config: Config, recent_books: Vec<String>) -> (s: AppState)
        ensures
            s@ == AppView::initial(config, string_views(recent_books@)),
    {
        let s = AppState {
            book: None,
            viewport: Viewport {
                width: DEFAULT_TERMINAL_WIDTH,
                height: DEFAULT_TERMINAL_HEIGHT,
                scroll_offset: 0,
            },
            current_chapter: 0,
            cursor_line: 0,
            focus: FocusTarget::Content,
            config,
            should_quit: false,
            cli_max_width_override: None,
            ui_mode: UiMode::Normal,
            previous_focus: None,
            toc_panel_visible: false,
            toc_state: TocState::new(),
            toc_expanded_chapters: ExpandState::new(),
            bookmarks_panel_visible: false,
            selected_bookmark_idx: None,
            titlebar_visible: true,
            statusbar_visible: true,
            zen_mode_active: false,
            pre_zen_state: None,
            search_query: String::new(),
            search_results: Vec::new(),
            current_search_idx: 0,
            input_buffer: String::new(),
            bookmarks: Vec::new(),
            recent_books,
            current_book_path: None,
            book_picker_selected_idx: None,
            loading_state: LoadingState::Idle,
        };
        assert(s@.selected =~= Seq::<Seq<char>>::empty());
        assert(s@.bookmarks =~= Seq::<BookmarkView>::empty());
        assert(s@.toc_items =~= Seq::<TocItem>::empty());
        assert(s@.search_results =~= Seq::<SearchMatch>::empty());
        s
    }

    /// The number of chapters of the open book; zero without one.
    pub fn total_chapters(&self) -> (n: usize)
        ensures
            n == self@.total_chapters(),
    {
        match &self.book {
            Some(b) => b.chapters.len(),
            None => 0,
        }
    }

    /// The chapter that is shown.
    pub fn get_current_chapter(&self) -> (r: Option<&Chapter>)
        ensures
            r is Some <==> self@.has_current(),
            r is Some ==> r->Some_0@ == self@.current(),
    {
        match &self.book {
            Some(b) => if self.current_chapter < b.chapters.len() {
                Some(&b.chapters[self.current_chapter])
            } else {
                None
            },
            None => None,
        }
    }

    /// The number of lines of the chapter that is shown.
    pub fn current_chapter_lines(&self) -> (n: usize)
        ensures
            n == self@.current_lines(),
    {
        match self.get_current_chapter() {
            Some(ch) => ch.content_lines.len(),
            None => 0,
        }
    }

    fn max_line(&self) -> (n: usize)
        ensures
            n == self@.max_line(),
    {
        self.current_chapter_lines().saturating_sub(1)
    }

    fn viewport_end(&self) -> (n: usize)
        ensures
            n == self@.viewport_end(),
    {
        self.viewport.scroll_offset.saturating_add(self.viewport.height as usize).saturating_sub(1)
    }

    /// Moves the outline's selection to where the cursor is.
    pub fn sync_toc_to_cursor(&mut self)
        ensures
            final(self)@ == old(self)@.synced(),
    {
        let path = match &self.book {
            Some(b) => match TocManager::find_item_for_cursor(
                b,
                self.current_chapter,
                self.cursor_line,
            ) {
                Some(p) => p,
                None => {
                    return ;
                },
            },
            None => {
                return ;
            },
        };
        if path.len() > 1 {
            TocManager::expand_parent(&mut self.toc_expanded_chapters, path.as_slice());
        }
        TocManager::select_item(&mut self.toc_state, path);
    }

    /// Passes the focus on to the next panel that shows.
    pub fn cycle_focus(&mut self)
        ensures
            final(self)@ == (AppView { focus: old(self)@.cycled_focus(), ..old(self)@ }),
    {
        self.focus = match self.focus {
            FocusTarget::Content => {
                if self.toc_panel_visible {
                    FocusTarget::Toc
                } else if self.bookmarks_panel_visible {
                    FocusTarget::Bookmarks
                } else {
                    FocusTarget::Content
                }
            },
            FocusTarget::Toc => {
                if self.bookmarks_panel_visible {
                    FocusTarget::Bookmarks
                } else {
                    FocusTarget::Content
                }
            },
            FocusTarget::Bookmarks => FocusTarget::Content,
        };
    }

    /// Gives the focus to the outline where it shows.
    pub fn focus_toc(&mut self)
        ensures
            final(self)@ == (AppView {
                focus: if old(self)@.toc_panel_visible {
                    FocusTarget::Toc
                } else {
                    old(self)@.focus
                },
                ..old(self)@
            }),
    {
        if self.toc_panel_visible {
            self.focus = FocusTarget::Toc;
        }
    }

    /// Gives the focus to the content.
    pub fn focus_content(&mut self)
        ensures
            final(self)@ == (AppView { focus: FocusTarget::Content, ..old(self)@ }),
    {
        self.focus = FocusTarget::Content;
    }

    /// Gives the focus to the bookmarks where they show.
    pub fn focus_bookmarks(&mut self)
        ensures
            final(self)@ == (AppView {
                focus: if old(self)@.bookmarks_panel_visible {
                    FocusTarget::Bookmarks
                } else {
                    old(self)@.focus
                },
                ..old(self)@
            }),
    {
        if self.bookmarks_panel_visible {
            self.focus = FocusTarget::Bookmarks;
        }
    }

    /// Fits the viewport to a terminal of the given size.
    pub fn update_viewport_size(&mut self, width: u16, height: u16)
        ensures
            final(self)@ == old(self)@.resized(width, height),
    {
        self.viewport.width = width;
        let reserved: u16 = (if self.titlebar_visible {
            1u16
        } else {
            0u16
        }) + (if self.statusbar_visible {
            1u16
        } else {
            0u16
        });
        self.viewport.height = height.saturating_sub(reserved);
    }

    /// Shows or hides the title bar and fits the viewport to the terminal,
    /// whose size is `terminal`.
    pub fn toggle_titlebar(&mut self, terminal: (u16, u16))
        ensures
            final(self)@ == (AppView {
                titlebar_visible: !old(self)@.titlebar_visible,
                ..old(self)@
            }).resized(terminal.0, terminal.1),
    {
        self.titlebar_visible = !self.titlebar_visible;
        self.update_viewport_size(terminal.0, terminal.1);
    }

    /// Shows or hides the status bar and fits the viewport to the terminal,
    /// whose size is `terminal`.
    pub fn toggle_statusbar(&mut self, terminal: (u16, u16))
        ensures
            final(self)@ == (AppView {
                statusbar_visible: !old(self)@.statusbar_visible,
                ..old(self)@
            }).resized(terminal.0, terminal.1),
    {
        self.statusbar_visible = !self.statusbar_visible;
        self.update_viewport_size(terminal.0, terminal.1);
    }

    /// Enters or leaves zen mode and fits the viewport to the terminal,
    /// whose size is `terminal`.
    pub fn toggle_zen_mode(&mut self, terminal: (u16, u16))
        ensures
            final(self)@ == old(self)@.zen_toggled().resized(terminal.0, terminal.1),
    {
        if self.zen_mode_active {
            match self.pre_zen_state {
                Some(state) => {
                    self.toc_panel_visible = state.toc_visible;
                    self.bookmarks_panel_visible = state.bookmarks_visible;
                    self.statusbar_visible = state.statusbar_visible;
                    self.titlebar_visible = state.titlebar_visible;
                },
                None => {},
            }
            self.zen_mode_active = false;
            self.pre_zen_state = None;
        } else {
            self.pre_zen_state = Some(
                ZenModeState {
                    toc_visible: self.toc_panel_visible,
                    bookmarks_visible: self.bookmarks_panel_visible,
                    statusbar_visible: self.statusbar_visible,
                    titlebar_visible: self.titlebar_visible,
                },
            );
            self.toc_panel_visible = false;
            self.bookmarks_panel_visible = false;
            self.statusbar_visible = false;
            self.titlebar_visible = false;
            self.zen_mode_active = true;
        }
        self.update_viewport_size(terminal.0, terminal.1);
    }

    fn clamp_cursor_to_viewport(&mut self)
        ensures
            final(self)@ == old(self)@.cursor_clamped(),
    {
        let max_line = self.max_line();
        let start = self.viewport.scroll_offset;
        let end = self.viewport_end();
        if self.cursor_line < start {
            self.cursor_line = start;
        } else if self.cursor_line > end {
            self.cursor_line = if end < max_line {
                end
            } else {
                max_line
            };
        }
        if self.cursor_line > max_line {
            self.cursor_line = max_line;
        }
    }

    fn sync_if_visible(&mut self)
        ensures
            final(self)@ == old(self)@.synced_if_visible(),
    {
        if self.toc_panel_visible {
            self.sync_toc_to_cursor();
        }
    }

    /// Scrolls down by `lines`.
    pub fn scroll_down(&mut self, lines: usize)
        ensures
            final(self)@ == old(self)@.scrolled_down(lines),
    {
        let max_lines = self.current_chapter_lines();
        if max_lines == 0 {
            return ;
        }
        let max_scroll = max_lines.saturating_sub(self.viewport.height as usize);
        let target = self.viewport.scroll_offset.saturating_add(lines);
        self.viewport.scroll_offset = if target < max_scroll {
            target
        } else {
            max_scroll
        };
        self.clamp_cursor_to_viewport();
        self.sync_if_visible();
    }

    /// Scrolls up by `lines`.
    pub fn scroll_up(&mut self, lines: usize)
        ensures
            final(self)@ == old(self)@.scrolled_up(lines),
    {
        self.viewport.scroll_offset = self.viewport.scroll_offset.saturating_sub(lines);
        self.clamp_cursor_to_viewport();
        self.sync_if_visible();
    }

    /// Scrolls down by the height of the viewport.
    pub fn page_down(&mut self)
        ensures
            final(self)@ == old(self)@.scrolled_down(old(self)@.viewport.height as usize),
    {
        let page_size = self.viewport.height as usize;
        self.scroll_down(page_size);
    }

    /// Scrolls up by the height of the viewport.
    pub fn page_up(&mut self)
        ensures
            final(self)@ == old(self)@.scrolled_up(old(self)@.viewport.height as usize),
    {
        let page_size = self.viewport.height as usize;
        self.scroll_up(page_size);
    }

    /// Scrolls down by half the height of the viewport.
    pub fn half_page_down(&mut self)
        ensures
            final(self)@ == old(self)@.scrolled_down((old(self)@.viewport.height / 2) as usize),
    {
        let half_page = (self.viewport.height / 2) as usize;
        self.scroll_down(half_page);
    }

    /// Scrolls up by half the height of the viewport.
    pub fn half_page_up(&mut self)
        ensures
            final(self)@ == old(self)@.scrolled_up((old(self)@.viewport.height / 2) as usize),
    {
        let half_page = (self.viewport.height / 2) as usize;
        self.scroll_up(half_page);
    }

    /// Puts the cursor on the first line shown.
    pub fn move_cursor_to_top(&mut self)
        ensures
            final(self)@ == old(self)@.cursor_at_top(),
    {
        self.cursor_line = self.viewport.scroll_offset;
    }

    /// Puts the cursor in the middle of the viewport.
    pub fn move_cursor_to_middle(&mut self)
        ensures
            final(self)@ == old(self)@.cursor_at_middle(),
    {
        let middle = self.viewport.scroll_offset.saturating_add((self.viewport.height / 2) as usize);
        let max_line = self.max_line();
        self.cursor_line = if middle < max_line {
            middle
        } else {
            max_line
        };
    }

    /// Puts the cursor on the last line shown.
    pub fn move_cursor_to_bottom(&mut self)
        ensures
            final(self)@ == old(self)@.cursor_at_bottom(),
    {
        let bottom = self.viewport_end();
        let max_line = self.max_line();
        self.cursor_line = if bottom < max_line {
            bottom
        } else {
            max_line
        };
    }

    /// Goes to the start of the chapter.
    pub fn move_cursor_to_chapter_start(&mut self)
        ensures
            final(self)@ == old(self)@.at(0, 0),
    {
        self.cursor_line = 0;
        self.viewport.scroll_offset = 0;
    }

    /// Goes to the end of the chapter.
    pub fn move_cursor_to_chapter_end(&mut self)
        ensures
            final(self)@ == old(self)@.at_chapter_end(),
    {
        let max_line = self.max_line();
        self.cursor_line = max_line;
        let viewport_height = self.viewport.height as usize;
        if max_line >= viewport_height {
            self.viewport.scroll_offset = max_line.saturating_sub(viewport_height.saturating_sub(1));
        }
    }

    /// Goes to the next chapter, the first behind the last.
    pub fn next_chapter(&mut self)
        ensures
            final(self)@ == old(self)@.at_next_chapter(),
    {
        let total = self.total_chapters();
        if total == 0 {
            return ;
        }
        let next = (self.current_chapter % total + 1) % total;
        assert(next == (self.current_chapter + 1) % (total as int)) by (nonlinear_arith)
            requires
                total > 0,
                next == ((self.current_chapter % total) + 1) % (total as int),
        ;
        self.current_chapter = next;
        self.cursor_line = 0;
        self.viewport.scroll_offset = 0;
        self.sync_toc_to_cursor();
    }

    /// Goes to the previous chapter, the last before the first.
    pub fn previous_chapter(&mut self)
        ensures
            final(self)@ == old(self)@.at_previous_chapter(),
    {
        let total = self.total_chapters();
        if total == 0 {
            return ;
        }
        if self.current_chapter == 0 {
            self.current_chapter = total - 1;
        } else {
            self.current_chapter -= 1;
        }
        self.cursor_line = 0;
        self.viewport.scroll_offset = 0;
        self.sync_toc_to_cursor();
    }

    /// The maximum width in effect.
    pub fn effective_max_width(&self) -> (w: Option<usize>)
        ensures
            w == self@.effective_max_width(),
    {
        match self.cli_max_width_override {
            Some(w) => Some(w),
            None => self.config.max_width,
        }
    }

    /// Goes to the next search result.
    pub fn next_search_result(&mut self)
        ensures
            final(self)@ == old(self)@.at_next_result(),
    {
        match SearchEngine::next_result(
            self.search_results.as_slice(),
            self.current_search_idx,
            &self.viewport,
        ) {
            Some((new_idx, chapter_idx, line, scroll_offset)) => {
                self.current_search_idx = new_idx;
                self.current_chapter = chapter_idx;
                self.cursor_line = line;
                self.viewport.scroll_offset = scroll_offset;
                self.sync_toc_to_cursor();
            },
            None => {},
        }
    }

    /// Goes to the previous search result.
    pub fn previous_search_result(&mut self)
        ensures
            final(self)@ == old(self)@.at_previous_result(),
    {
        match SearchEngine::previous_result(
            self.search_results.as_slice(),
            self.current_search_idx,
            &self.viewport,
        ) {
            Some((new_idx, chapter_idx, line, scroll_offset)) => {
                self.current_search_idx = new_idx;
                self.current_chapter = chapter_idx;
                self.cursor_line = line;
                self.viewport.scroll_offset = scroll_offset;
                self.sync_toc_to_cursor();
            },
            None => {},
        }
    }
}

/// Whether `after` is a fresh layout of every chapter of `before` for the
/// given maximum and terminal width, whatever the highlighter answered.
pub open spec fn relaid(
    before: Seq<ChapterView>,
    after: Seq<ChapterView>,
    max_width: Option<usize>,
    terminal_width: u16,
) -> bool {
    &&& after.len() == before.len()
    &&& forall|i: int|
        0 <= i < before.len() ==> #[trigger] is_fresh_layout(
            before[i],
            after[i],
            max_width,
            terminal_width,
        )
}

/// Whether `results` is what a search for `query` in `chapters` can yield.
pub open spec fn is_search_of(results: Seq<SearchMatch>, query: Seq<char>, chapters: Seq<ChapterView>) -> bool {
    exists|stop: int|
        0 <= stop <= chapters.len() && #[trigger] search_outcome(query, chapters, stop) == Ok::<
            Seq<SearchMatch>,
            (),
        >(results)
}

/// How the search follows a change of the lines. `fresh` are the chapters
/// with their new lines. Without results before, they stay as they are.
/// With results before, the search was run again on the new lines: either it
/// gave results, which fit the new lines and are the only highlights, or it
/// gave none, and no result and no highlight is left. Matches from before
/// the change are never kept.
pub open spec fn search_follows(
    fresh: Seq<ChapterView>,
    query: Seq<char>,
    had_results: bool,
    chapters: Seq<ChapterView>,
    results: Seq<SearchMatch>,
) -> bool {
    if !had_results {
        chapters == fresh && results.len() == 0
    } else if results.len() > 0 {
        &&& is_search_of(results, query, fresh)
        &&& matches_fit(chapters, results)
        &&& chapters == highlighted(fresh, results, results.len() as int)
        &&& search_spans_in_bounds(chapters)
    } else {
        chapters == cleared(fresh)
    }
}

/// Whether `fresh` is a fresh layout of the chapters of `before` and the
/// chapters and results of `after` follow from it.
pub open spec fn laid_and_followed(
    fresh: Seq<ChapterView>,
    before: AppView,
    after: AppView,
    terminal_width: u16,
) -> bool {
    &&& before.chapters is Some
    &&& after.chapters is Some
    &&& relaid(before.chapters->Some_0, fresh, before.effective_max_width(), terminal_width)
    &&& search_follows(
        fresh,
        before.search_query,
        before.search_results.len() > 0,
        after.chapters->Some_0,
        after.search_results,
    )
}

/// Whether `after` is `before` with every chapter laid out anew at the
/// given terminal width and the search brought up to date. Nothing else
/// changes.
pub open spec fn rerendered(before: AppView, after: AppView, terminal_width: u16) -> bool {
    &&& after == (AppView {
        chapters: after.chapters,
        search_results: after.search_results,
        search_query: after.search_query,
        current_search_idx: after.current_search_idx,
        ..before
    })
    &&& match before.chapters {
        None => after.chapters is None && after.search_results == before.search_results
            && after.search_query == before.search_query && after.current_search_idx
            == before.current_search_idx,
        Some(old_chapters) => {
            &&& after.chapters is Some
            &&& exists|fresh: Seq<ChapterView>|
                #[trigger] laid_and_followed(fresh, before, after, terminal_width)
            &&& after.search_results.len() > 0 ==> after.search_query == before.search_query
                && after.current_search_idx < after.search_results.len()
            &&& before.search_results.len() == 0 ==> after.search_query == before.search_query
                && after.current_search_idx == before.current_search_idx
        },
    }
}

impl AppView {
    /// The state with the outline panel shown or hidden. Showing it syncs
    /// the outline to the cursor; hiding it while it has the focus gives the
    /// focus to the content.
    pub open spec fn toc_toggled(self) -> AppView {
        if self.toc_panel_visible {
            AppView {
                toc_panel_visible: false,
                focus: if self.focus == FocusTarget::Toc {
                    FocusTarget::Content
                } else {
                    self.focus
                },
                ..self
            }
        } else {
            AppView { toc_panel_visible: true, ..self }.synced()
        }
    }

    /// The state with the bookmarks panel shown or hidden. Hiding it while
    /// it has the focus gives the focus to the content.
    pub open spec fn bookmarks_toggled(self) -> AppView {
        AppView {
            bookmarks_panel_visible: !self.bookmarks_panel_visible,
            focus: if self.bookmarks_panel_visible && self.focus == FocusTarget::Bookmarks {
                FocusTarget::Content
            } else {
                self.focus
            },
            ..self
        }
    }

    /// The state with the next width preset configured.
    pub open spec fn width_cycled(self) -> AppView {
        AppView {
            config: Config {
                max_width: self.cycled_max_width(),
                toc_panel_width: self.config.toc_panel_width,
                bookmarks_panel_width: self.config.bookmarks_panel_width,
            },
            ..self
        }
    }
}

impl AppState {
    /// Goes to the next section, or to the next chapter from the last one.
    pub fn next_section(&mut self)
        ensures
            final(self)@ == old(self)@.at_next_section(),
    {
        let target = match self.get_current_chapter() {
            Some(chapter) => {
                if chapter.sections.len() == 0 {
                    None
                } else {
                    let ghost sv = chapter@.sections;
                    let mut idx: usize = 0;
                    let mut found: Option<usize> = None;
                    while idx < chapter.sections.len() && found.is_none()
                        invariant
                            idx <= chapter.sections.len(),
                            sv == crate::types::section_views(chapter.sections@),
                            found is None ==> section_after(sv, self.cursor_line, 0)
                                == section_after(sv, self.cursor_line, idx as int),
                            found is Some ==> section_after(sv, self.cursor_line, 0) is Some
                                && found->Some_0 == sv[section_after(
                                sv,
                                self.cursor_line,
                                0,
                            )->Some_0].start_line,
                        decreases chapter.sections.len() - idx + (if found is None {
                            1int
                        } else {
                            0int
                        }),
                    {
                        assert(sv[idx as int] == chapter.sections[idx as int]@);
                        if chapter.sections[idx].start_line > self.cursor_line {
                            found = Some(chapter.sections[idx].start_line);
                        } else {
                            idx += 1;
                        }
                    }
                    found
                }
            },
            None => {
                self.sync_toc_to_cursor();
                return ;
            },
        };
        match target {
            Some(line) => {
                self.cursor_line = line;
                self.viewport.scroll_offset = line;
                self.sync_toc_to_cursor();
            },
            None => {
                self.next_chapter();
            },
        }
    }

    /// Goes to the previous section, or to the previous chapter from the
    /// first one.
    pub fn previous_section(&mut self)
        ensures
            final(self)@ == old(self)@.at_previous_section(),
    {
        let target = match self.get_current_chapter() {
            Some(chapter) => {
                if chapter.sections.len() == 0 {
                    None
                } else {
                    match TocManager::find_section_at_line(chapter, self.cursor_line) {
                        Some(s) => if s == 0 {
                            None
                        } else {
                            assert(chapter@.sections[s - 1] == chapter.sections[s - 1]@);
                            Some(chapter.sections[s - 1].start_line)
                        },
                        None => None,
                    }
                }
            },
            None => {
                self.sync_toc_to_cursor();
                return ;
            },
        };
        match target {
            Some(line) => {
                self.cursor_line = line;
                self.viewport.scroll_offset = line;
                self.sync_toc_to_cursor();
            },
            None => {
                self.previous_chapter();
            },
        }
    }

    /// Makes `path` the outline's selection.
    pub fn set_toc_selection(&mut self, path: Vec<String>)
        ensures
            final(self)@ == (AppView { selected: string_views(path@), ..old(self)@ }),
    {
        TocManager::select_item(&mut self.toc_state, path);
    }

    fn toggled_chapter(&self) -> (r: Option<usize>)
        ensures
            r == self@.toggled_chapter(),
    {
        if self.toc_state.selected.len() == 0 {
            return None;
        }
        let id = crate::text::chars_of(self.toc_state.selected[0].as_str());
        let prefix = crate::text::chars_of("chapter_");
        if crate::text::has_prefix(&id, &prefix) && !contains_text(
            &id,
            &crate::text::chars_of("_section_"),
        ) {
            let rest = crate::text::tail_from(&id, prefix.len());
            match crate::decimal::parse_usize(&rest) {
                Some(c) => match &self.book {
                    Some(b) => {
                        if c < b.chapters.len() {
                            assert(b.chapters_view()[c as int] == b.chapters[c as int]@);
                            if b.chapters[c].sections.len() > 0 {
                                Some(c)
                            } else {
                                None
                            }
                        } else {
                            None
                        }
                    },
                    None => None,
                },
                None => None,
            }
        } else {
            None
        }
    }

    /// Opens in the outline: expands or collapses the selected chapter.
    pub fn toc_open(&mut self)
        ensures
            final(self)@ == old(self)@.toc_opened(),
    {
        match self.toggled_chapter() {
            Some(_c) => {
                let id = self.toc_state.selected[0].clone();
                if self.toc_expanded_chapters.contains(id.as_str()) {
                    self.toc_expanded_chapters.remove(id.as_str());
                } else {
                    self.toc_expanded_chapters.insert(id);
                }
            },
            None => {},
        }
    }

    /// Closes in the outline: collapses the head of the selection.
    pub fn toc_close(&mut self)
        ensures
            final(self)@ == old(self)@.toc_closed(),
    {
        if self.toc_state.selected.len() > 0 {
            let id = self.toc_state.selected[0].clone();
            self.toc_expanded_chapters.remove(id.as_str());
        }
    }

    /// Jumps to the selected node of the outline.
    pub fn toc_select(&mut self)
        ensures
            final(self)@ == old(self)@.toc_selected(),
    {
        let n = self.toc_state.selected.len();
        if n == 0 {
            return ;
        }
        let parsed = TocManager::parse_item_id(self.toc_state.selected[n - 1].as_str());
        assert(self@.selected.last() == self.toc_state.selected[n - 1]@);
        let (chapter_idx, section_idx) = match parsed {
            Some(p) => p,
            None => {
                return ;
            },
        };
        if chapter_idx >= self.total_chapters() {
            return ;
        }
        let start = match section_idx {
            Some(s) => match &self.book {
                Some(b) => {
                    assert(b.chapters_view()[chapter_idx as int] == b.chapters[chapter_idx as int]@);
                    if s < b.chapters[chapter_idx].sections.len() {
                        assert(b.chapters[chapter_idx as int]@.sections[s as int]
                            == b.chapters[chapter_idx as int].sections[s as int]@);
                        Some(b.chapters[chapter_idx].sections[s].start_line)
                    } else {
                        None
                    }
                },
                None => None,
            },
            None => Some(0),
        };
        self.current_chapter = chapter_idx;
        match start {
            Some(line) => {
                self.cursor_line = line;
                self.viewport.scroll_offset = line;
            },
            None => {},
        }
    }

    /// Selects the next bookmark.
    pub fn bookmark_next(&mut self)
        ensures
            final(self)@ == (AppView {
                selected_bookmark_idx: old(self)@.bookmark_after(),
                ..old(self)@
            }),
    {
        let n = self.bookmarks.len();
        self.selected_bookmark_idx = if n == 0 {
            None
        } else {
            match self.selected_bookmark_idx {
                None => Some(0),
                Some(i) => {
                    let next = i.saturating_add(1);
                    Some(
                        if next < n - 1 {
                            next
                        } else {
                            n - 1
                        },
                    )
                },
            }
        };
    }

    /// Selects the previous bookmark.
    pub fn bookmark_previous(&mut self)
        ensures
            final(self)@ == (AppView {
                selected_bookmark_idx: old(self)@.bookmark_before(),
                ..old(self)@
            }),
    {
        let n = self.bookmarks.len();
        self.selected_bookmark_idx = if n == 0 {
            None
        } else {
            match self.selected_bookmark_idx {
                None => Some(0),
                Some(i) => {
                    let before = i.saturating_sub(1);
                    Some(
                        if before < n - 1 {
                            before
                        } else {
                            n - 1
                        },
                    )
                },
            }
        };
    }

    /// Jumps to the selected bookmark.
    pub fn jump_to_selected_bookmark(&mut self)
        ensures
            final(self)@ == old(self)@.at_selected_bookmark(),
    {
        match self.selected_bookmark_idx {
            Some(i) => {
                if i < self.bookmarks.len() {
                    assert(self@.bookmarks[i as int] == self.bookmarks[i as int]@);
                    let chapter_idx = self.bookmarks[i].chapter_idx;
                    let line = self.bookmarks[i].line;
                    let half: usize = (self.viewport.height / 2) as usize;
                    self.current_chapter = chapter_idx;
                    self.cursor_line = line;
                    self.viewport.scroll_offset = if line >= half {
                        line - half
                    } else {
                        0
                    };
                    self.sync_toc_to_cursor();
                }
            },
            None => {},
        }
    }

    /// Deletes the selected bookmark.
    pub fn delete_selected_bookmark(&mut self)
        ensures
            final(self)@ == old(self)@.without_selected_bookmark(),
    {
        match self.selected_bookmark_idx {
            Some(i) => {
                if i < self.bookmarks.len() {
                    let ghost before = bookmark_views(self.bookmarks@);
                    self.bookmarks.remove(i);
                    assert(bookmark_views(self.bookmarks@) =~= before.remove(i as int));
                    let n = self.bookmarks.len();
                    self.selected_bookmark_idx = if n == 0 {
                        None
                    } else {
                        Some(
                            if i < n - 1 {
                                i
                            } else {
                                n - 1
                            },
                        )
                    };
                }
            },
            None => {},
        }
    }

    fn available_width(&self) -> (w: u16)
        ensures
            w == self@.available_width(),
    {
        let mut available = self.viewport.width;
        if self.toc_panel_visible {
            available = available.saturating_sub(self.config.toc_panel_width.saturating_add(1));
        }
        if self.bookmarks_panel_visible {
            available = available.saturating_sub(
                self.config.bookmarks_panel_width.saturating_add(1),
            );
        }
        available
    }

    /// Brings the search up to date after the lines of `book` changed. With
    /// results at hand the search for `query` is run again: its results
    /// replace them and are highlighted, or, where it fails, no result and
    /// no highlight is left.
    pub(crate) fn refresh_search(book: &mut Book, query: &str, results: &mut Vec<SearchMatch>)
        ensures
            final(book).metadata == old(book).metadata,
            search_follows(
                old(book).chapters_view(),
                query@,
                old(results)@.len() > 0,
                final(book).chapters_view(),
                final(results)@,
            ),
    {
        if results.len() == 0 {
            return ;
        }
        let ghost fresh = book.chapters_view();
        match SearchEngine::search(book, query) {
            Ok(found) => {
                if found.len() > 0 {
                    proof {
                        if crate::search::pattern_accepted(query@) {
                            let stop = choose|stop: int|
                                0 <= stop <= book.chapters.len() && is_outcome(
                                    Ok::<Vec<SearchMatch>, crate::search::SearchError>(found),
                                    #[trigger] search_outcome(query@, fresh, stop),
                                );
                            assert(search_outcome(query@, fresh, stop) == Ok::<
                                Seq<SearchMatch>,
                                (),
                            >(found@));
                        }
                    }
                    *results = found;
                    SearchEngine::apply_fresh_highlights(book, results.as_slice());
                } else {
                    *results = found;
                    SearchEngine::clear_highlights(book);
                }
            },
            Err(_e) => {
                *results = Vec::new();
                SearchEngine::clear_highlights(book);
            },
        }
    }

    /// Lays out every chapter anew for a terminal of the given width and
    /// brings the search up to date.
    pub fn rerender_at(&mut self, terminal_width: u16, highlighter: &CodeHighlighter)
        ensures
            rerendered(old(self)@, final(self)@, terminal_width),
    {
        let max_width = self.effective_max_width();
        let mut book = match self.book.take() {
            Some(b) => b,
            None => {
                return ;
            },
        };
        let ghost before = book.chapters_view();
        let ghost about = book.metadata;
        let mut i: usize = 0;
        while i < book.chapters.len()
            invariant
                i <= book.chapters.len(),
                book.metadata == about,
                book.chapters.len() == before.len(),
                forall|j: int|
                    0 <= j < i ==> #[trigger] is_fresh_layout(
                        before[j],
                        book.chapters[j]@,
                        max_width,
                        terminal_width,
                    ),
                forall|j: int| i <= j < before.len() ==> #[trigger] book.chapters[j]@ == before[j],
            decreases book.chapters.len() - i,
        {
            let ghost chapters_before = book.chapters@;
            render_chapter(&mut book.chapters[i], max_width, terminal_width, highlighter);
            assert(forall|j: int|
                0 <= j < before.len() && j != i ==> book.chapters[j] == chapters_before[j]);
            i += 1;
        }
        let ghost fresh = book.chapters_view();
        assert(relaid(before, fresh, max_width, terminal_width)) by {
            assert forall|j: int| 0 <= j < before.len() implies #[trigger] is_fresh_layout(
                before[j],
                fresh[j],
                max_width,
                terminal_width,
            ) by {
                assert(fresh[j] == book.chapters[j]@);
                assert(is_fresh_layout(before[j], book.chapters[j]@, max_width, terminal_width));
            }
        }
        let had_results = self.search_results.len() > 0;
        AppState::refresh_search(&mut book, self.search_query.as_str(), &mut self.search_results);
        if had_results && self.search_results.len() == 0 {
            self.search_query = String::new();
            self.current_search_idx = 0;
        } else if self.current_search_idx >= self.search_results.len() && had_results {
            self.current_search_idx = 0;
        }
        self.book = Some(book);
        proof {
            let o = old(self)@;
            let n = self@;
            assert(o.chapters == Some(before));
            assert(n.chapters == Some(book.chapters_view()));
            assert(relaid(before, fresh, o.effective_max_width(), terminal_width));
            assert(search_follows(
                fresh,
                o.search_query,
                o.search_results.len() > 0,
                n.chapters->Some_0,
                n.search_results,
            ));
            assert(n == (AppView {
                chapters: n.chapters,
                search_results: n.search_results,
                search_query: n.search_query,
                current_search_idx: n.current_search_idx,
                ..o
            }));
            assert(laid_and_followed(fresh, o, n, terminal_width));
            assert(n.search_results.len() > 0 ==> n.search_query == o.search_query
                && n.current_search_idx < n.search_results.len());
            assert(o.search_results.len() == 0 ==> n.search_query == o.search_query
                && n.current_search_idx == o.current_search_idx);
            assert(rerendered(o, n, terminal_width));
        }
    }

    /// Lays out every chapter anew for the width that the panels leave, and
    /// brings the search up to date.
    pub fn rerender_chapters(&mut self, highlighter: &CodeHighlighter)
        ensures
            rerendered(old(self)@, final(self)@, old(self)@.available_width()),
    {
        let width = self.available_width();
        self.rerender_at(width, highlighter);
    }

    /// Shows or hides the outline panel and lays the chapters out for the
    /// width that is left.
    pub fn toggle_toc(&mut self, highlighter: &CodeHighlighter)
        ensures
            rerendered(
                old(self)@.toc_toggled(),
                final(self)@,
                old(self)@.toc_toggled().available_width(),
            ),
    {
        self.toc_panel_visible = !self.toc_panel_visible;
        if self.toc_panel_visible {
            self.sync_toc_to_cursor();
        }
        if !self.toc_panel_visible && self.focus == FocusTarget::Toc {
            self.focus = FocusTarget::Content;
        }
        self.rerender_chapters(highlighter);
    }

    /// Shows or hides the bookmarks panel and lays the chapters out for the
    /// width that is left.
    pub fn toggle_bookmarks(&mut self, highlighter: &CodeHighlighter)
        ensures
            rerendered(
                old(self)@.bookmarks_toggled(),
                final(self)@,
                old(self)@.bookmarks_toggled().available_width(),
            ),
    {
        self.bookmarks_panel_visible = !self.bookmarks_panel_visible;
        if !self.bookmarks_panel_visible && self.focus == FocusTarget::Bookmarks {
            self.focus = FocusTarget::Content;
        }
        self.rerender_chapters(highlighter);
    }

    /// Configures the next width preset and lays the chapters out anew.
    pub fn cycle_max_width(&mut self, highlighter: &CodeHighlighter)
        ensures
            rerendered(
                old(self)@.width_cycled(),
                final(self)@,
                old(self)@.width_cycled().available_width(),
            ),
    {
        self.config.max_width = match self.config.max_width {
            None => Some(WIDTH_PRESET_1),
            Some(w) => if w == WIDTH_PRESET_1 {
                Some(WIDTH_PRESET_2)
            } else if w == WIDTH_PRESET_2 {
                Some(WIDTH_PRESET_3)
            } else {
                None
            },
        };
        self.rerender_chapters(highlighter);
    }
}

impl AppView {
    /// The state with the results of a search for what the reader typed:
    /// they replace the earlier ones and are the highlights; the popup is
    /// closed and the input emptied; and where there is a result, the reader
    /// is taken to the one after the first, cyclically.
    pub open spec fn with_search(self, results: Seq<SearchMatch>) -> AppView {
        let found = AppView {
            chapters: Some(highlighted(self.chapters->Some_0, results, results.len() as int)),
            search_query: self.input_buffer,
            search_results: results,
            current_search_idx: 0,
            ..self
        };
        AppView {
            ui_mode: UiModeView::Normal,
            input_buffer: Seq::empty(),
            ..found.at_next_result()
        }
    }

    /// The state without search results and highlights. Without results
    /// nothing changes.
    pub open spec fn without_search(self) -> AppView {
        if self.search_results.len() == 0 {
            self
        } else {
            AppView {
                chapters: match self.chapters {
                    Some(c) => Some(cleared(c)),
                    None => None,
                },
                search_results: Seq::empty(),
                search_query: Seq::empty(),
                current_search_idx: 0,
                ..self
            }
        }
    }

    /// The list of recent books with `path` at its head: an earlier first
    /// occurrence of it is taken out.
    pub open spec fn recent_with(self, path: Seq<char>) -> Seq<Seq<char>> {
        match first_occurrence(self.recent_books, path, 0) {
            Some(i) => seq![path] + self.recent_books.remove(i),
            None => seq![path] + self.recent_books,
        }
    }
}

/// The index of the first text equal to `text` at or after `from`.
pub open spec fn first_occurrence(list: Seq<Seq<char>>, text: Seq<char>, from: int) -> Option<int>
    decreases list.len() - from,
{
    if from < 0 || from >= list.len() {
        None
    } else if list[from] == text {
        Some(from)
    } else {
        first_occurrence(list, text, from + 1)
    }
}

/// What a search handed back, as plain values: its matches, or nothing
/// where it failed.
pub open spec fn outcome_of(outcome: Result<Vec<SearchMatch>, crate::search::SearchError>) -> Result<
    Seq<SearchMatch>,
    (),
> {
    match outcome {
        Ok(results) => Ok(results@),
        Err(_) => Err(()),
    }
}

impl AppView {
    /// The state after a search for what the reader typed came back. Matches,
    /// even none, are taken in as `with_search` says. A search that failed
    /// changes nothing, so that earlier results stay; neither does an
    /// outcome without a book.
    pub open spec fn search_taken(self, outcome: Result<Seq<SearchMatch>, ()>) -> AppView {
        match outcome {
            Ok(results) => if self.chapters is Some {
                self.with_search(results)
            } else {
                self
            },
            Err(_) => self,
        }
    }
}

/// Whether `after` is `before` after the reader sent off the search input.
/// Empty input and a state without book change nothing; neither does a
/// pattern that does not compile. Else the book was searched, and the state
/// took in what the search yields for the chapter at which it stopped: its
/// matches, or nothing where it ran out of time with nothing found. A book
/// without chapters leaves no chapter to stop before, so its search always
/// comes back, with no match.
pub open spec fn search_submitted(before: AppView, after: AppView) -> bool {
    if before.input_buffer.len() == 0 || before.chapters is None {
        after == before
    } else if !crate::search::pattern_accepted(before.input_buffer) {
        after == before
    } else {
        exists|stop: int|
            0 <= stop <= before.chapters->Some_0.len() && after == before.search_taken(
                #[trigger] search_outcome(before.input_buffer, before.chapters->Some_0, stop),
            )
    }
}

impl AppState {
    /// Takes in what a search for the typed input handed back. Matches
    /// replace the earlier results and become the highlights, the popup
    /// closes, the input is emptied, and the reader is taken to a result
    /// where there is one. A failed search leaves everything as it is. The
    /// matches must fit the lines of the book as they are now.
    pub fn take_search_outcome(
        &mut self,
        outcome: Result<Vec<SearchMatch>, crate::search::SearchError>,
    )
        requires
            outcome is Ok && old(self)@.chapters is Some ==> matches_fit(
                old(self)@.chapters->Some_0,
                outcome->Ok_0@,
            ),
        ensures
            final(self)@ == old(self)@.search_taken(outcome_of(outcome)),
    {
        let results = match outcome {
            Ok(results) => results,
            Err(_e) => {
                return ;
            },
        };
        let mut book = match self.book.take() {
            Some(b) => b,
            None => {
                return ;
            },
        };
        self.search_query = self.input_buffer.clone();
        self.search_results = results;
        self.current_search_idx = 0;
        SearchEngine::apply_fresh_highlights(&mut book, self.search_results.as_slice());
        self.book = Some(book);
        if self.search_results.len() > 0 {
            self.next_search_result();
        }
        self.ui_mode = UiMode::Normal;
        self.input_buffer = String::new();
        assert(self@ == old(self)@.with_search(self@.search_results));
    }

    /// Runs the search that the reader typed and takes in what it yields.
    pub fn submit_search(&mut self)
        ensures
            search_submitted(old(self)@, final(self)@),
    {
        if crate::text::byte_length(self.input_buffer.as_str()) == 0 {
            proof {
                crate::text::lemma_byte_len_at_least_len(self.input_buffer@);
            }
            return ;
        }
        proof {
            if self.input_buffer@.len() == 0 {
                assert(vstd::utf8::encode_utf8(self.input_buffer@).len() == 0);
            }
        }
        let outcome = match &self.book {
            Some(book) => SearchEngine::search(book, self.input_buffer.as_str()),
            None => {
                return ;
            },
        };
        let ghost query = self.input_buffer@;
        let ghost chapters = self@.chapters->Some_0;
        proof {
            if crate::search::pattern_accepted(query) {
                let stop = choose|stop: int|
                    0 <= stop <= chapters.len() && is_outcome(
                        outcome,
                        #[trigger] search_outcome(query, chapters, stop),
                    );
                assert(outcome_of(outcome) == search_outcome(query, chapters, stop));
            }
        }
        self.take_search_outcome(outcome);
    }

    /// Drops the search results and their highlights.
    pub fn clear_search(&mut self)
        ensures
            final(self)@ == old(self)@.without_search(),
    {
        if self.search_results.len() > 0 {
            match self.book.take() {
                Some(mut book) => {
                    SearchEngine::clear_highlights(&mut book);
                    self.book = Some(book);
                },
                None => {},
            }
            self.search_results = Vec::new();
            self.search_query = String::new();
            self.current_search_idx = 0;
        }
    }

    /// Puts `path` at the head of the recent books.
    pub fn note_recent_book(&mut self, path: String)
        ensures
            final(self)@ == (AppView {
                recent_books: old(self)@.recent_with(path@),
                ..old(self)@
            }),
    {
        let ghost list = string_views(self.recent_books@);
        let mut i: usize = 0;
        let mut found: Option<usize> = None;
        while i < self.recent_books.len() && found.is_none()
            invariant
                i <= self.recent_books.len(),
                self.recent_books == old(self).recent_books,
                list == string_views(self.recent_books@),
                found is None ==> first_occurrence(list, path@, 0) == first_occurrence(
                    list,
                    path@,
                    i as int,
                ),
                found is Some ==> found->Some_0 < self.recent_books.len() && first_occurrence(
                    list,
                    path@,
                    0,
                ) == Some(found->Some_0 as int),
            decreases self.recent_books.len() - i + (if found is None {
                1int
            } else {
                0int
            }),
        {
            if crate::text::same_text(self.recent_books[i].as_str(), path.as_str()) {
                found = Some(i);
            } else {
                i += 1;
            }
        }
        match found {
            Some(at) => {
                self.recent_books.remove(at);
                assert(string_views(self.recent_books@) =~= list.remove(at as int));
            },
            None => {},
        }
        let ghost rest = string_views(self.recent_books@);
        self.recent_books.insert(0, path);
        assert(string_views(self.recent_books@) =~= seq![path@] + rest);
    }

    /// Replaces the expanded outline nodes by the saved ones.
    pub fn restore_toc_expansion_state(&mut self, state: &Vec<String>)
        ensures
            final(self)@ == (AppView { expanded: texts_of(state@), ..old(self)@ }),
    {
        self.toc_expanded_chapters.clear();
        let mut k: usize = 0;
        while k < state.len()
            invariant
                k <= state.len(),
                self@ == (AppView { expanded: self@.expanded, ..old(self)@ }),
                forall|s: Seq<char>|
                    self@.expanded.contains(s) <==> exists|i: int|
                        0 <= i < k && #[trigger] state[i]@ == s,
            decreases state.len() - k,
        {
            let ghost before = self@.expanded;
            self.toc_expanded_chapters.insert(state[k].clone());
            assert forall|s: Seq<char>| self@.expanded.contains(s) <==> exists|i: int|
                0 <= i < k + 1 && #[trigger] state[i]@ == s by {
                if self@.expanded.contains(s) {
                    if before.contains(s) {
                        let i = choose|i: int| 0 <= i < k && #[trigger] state[i]@ == s;
                        assert(0 <= i < k + 1 && state[i]@ == s);
                    } else {
                        assert(state[k as int]@ == s);
                    }
                }
                if exists|i: int| 0 <= i < k + 1 && #[trigger] state[i]@ == s {
                    let i = choose|i: int| 0 <= i < k + 1 && #[trigger] state[i]@ == s;
                    if i < k {
                        assert(before.contains(s));
                    }
                }
            }
            k += 1;
        }
        assert(self@.expanded =~= texts_of(state@));
    }

    /// Takes in a book that was opened from `path`, with its bookmarks and
    /// the position saved for it. The search is reset. The reader is put
    /// where the saved position says, in a chapter that the book has, or at
    /// the book's start without one; the expanded outline nodes are the
    /// saved ones; and the outline is built and synced to the cursor.
    pub fn open_book(
        &mut self,
        book: Book,
        path: String,
        bookmarks: Vec<Bookmark>,
        progress: Option<ReadingProgress>,
    )
        ensures
            final(self)@ == (AppView {
                toc_items: final(self)@.toc_items,
                ..old(self)@.with_book(
                    book.metadata,
                    book.chapters_view(),
                    path@,
                    bookmark_views(bookmarks@),
                    match progress {
                        Some(p) => Some(
                            (
                                p.chapter_idx,
                                p.line,
                                p.scroll_offset,
                                texts_of(p.toc_expansion_state@),
                            ),
                        ),
                        None => None,
                    },
                )
            }),
            crate::toc::tree_matches(final(self)@.toc_items, book.chapters_view()),
    {
        self.search_query = String::new();
        self.search_results = Vec::new();
        self.current_search_idx = 0;
        self.bookmarks = bookmarks;
        self.current_book_path = Some(path);
        self.toc_state.items = TocManager::build_tree(&book);
        match progress {
            Some(p) => {
                let last = book.chapters.len().saturating_sub(1);
                self.current_chapter = if p.chapter_idx < last {
                    p.chapter_idx
                } else {
                    last
                };
                self.cursor_line = p.line;
                self.viewport.scroll_offset = p.scroll_offset;
                self.restore_toc_expansion_state(&p.toc_expansion_state);
            },
            None => {
                self.current_chapter = 0;
                self.cursor_line = 0;
                self.viewport.scroll_offset = 0;
            },
        }
        self.book = Some(book);
        self.sync_toc_to_cursor();
    }
}

/// The texts that a list holds, as a set.
pub open spec fn texts_of(list: Seq<String>) -> Set<Seq<char>> {
    Set::new(|s: Seq<char>| exists|i: int| 0 <= i < list.len() && #[trigger] list[i]@ == s)
}

impl AppView {
    /// The state with a book taken in: its metadata and chapters, the path it
    /// came from and its bookmarks; no search; the saved position `(chapter, line,
    /// scroll offset, expanded nodes)`, in a chapter that the book has, or
    /// the book's start without one; the outline synced to the cursor.
    pub open spec fn with_book(
        self,
        metadata: crate::types::BookMetadata,
        chapters: Seq<ChapterView>,
        path: Seq<char>,
        bookmarks: Seq<BookmarkView>,
        progress: Option<(usize, usize, usize, Set<Seq<char>>)>,
    ) -> AppView {
        let taken = AppView {
            metadata: Some(metadata),
            chapters: Some(chapters),
            search_query: Seq::empty(),
            search_results: Seq::empty(),
            current_search_idx: 0,
            bookmarks,
            current_book_path: Some(path),
            ..self
        };
        (match progress {
            Some((chapter, line, offset, expanded)) => AppView {
                current_chapter: least(chapter, sat_sub(chapters.len() as int, 1)),
                expanded,
                ..taken.at(line, offset)
            },
            None => AppView { current_chapter: 0, ..taken.at(0, 0) },
        }).synced()
    }
}

} // verus!
