//! From keys to commands, and from commands to moves of the reader's state.
//!
//! What a key means depends on the mode and on the panel that has the focus.
//! A command changes the state; what needs the outside world comes back as
//! an action for the caller to carry out.

use vstd::prelude::*;
use vstd::string::*;
use crate::app::{first_occurrence, rerendered, sat_add, sat_sub, search_submitted, AppState, AppView, least};
use crate::bookmarks::{sorted_by_position, BookmarkManager, MAX_BOOKMARKS, MAX_LABEL_LENGTH};
use crate::constants::{MAX_BOOKMARK_INPUT_LENGTH, MAX_SEARCH_INPUT_LENGTH};
use crate::epub::code_highlight::CodeHighlighter;
use crate::text::{byte_len, byte_length, chars_of, is_blank, same_text, string_of, string_views, trimmed};
use crate::types::{BookmarkView, FocusTarget, UiMode, UiModeView};

verus! {

/// The key of a key press.
#[derive(Debug, Clone, Copy, PartialEq, Eq, Structural)]
pub enum KeyCode {
    Char(char),
    Esc,
    Enter,
    Backspace,
    Tab,
    Up,
    Down,
    Left,
    Right,
    PageUp,
    PageDown,
    Home,
    End,
    F(u8),
    Other,
}

/// A key press with the modifiers held.
#[derive(Debug, Clone, Copy, PartialEq, Eq, Structural)]
pub struct KeyEvent {
    pub code: KeyCode,
    pub control: bool,
    pub shift: bool,
    pub alt: bool,
}

/// What a key asks for.
#[derive(Debug, Clone, Copy, PartialEq, Eq, Structural)]
pub enum Command {
    Ignore,
    Quit,
    ToggleTitlebar,
    ToggleStatusbar,
    ToggleToc,
    ToggleBookmarks,
    ToggleZen,
    CycleFocus,
    FocusToc,
    FocusContent,
    FocusBookmarks,
    CancelInput,
    SubmitSearch,
    SubmitBookmark,
    EraseInput,
    TypeSearch(char),
    TypeBookmark(char),
    PickerClose,
    PickerDown,
    PickerUp,
    PickerOpen,
    CloseOverlay,
    CloseError,
    BookmarkNext,
    BookmarkPrevious,
    BookmarkJump,
    BookmarkDelete,
    TocNext,
    TocPrevious,
    TocOpen,
    TocClose,
    TocSelect,
    OpenSearch,
    OpenBookmarkPrompt,
    OpenHelp,
    OpenMetadata,
    OpenPicker,
    ClearSearch,
    ScrollDown,
    ScrollUp,
    HalfPageDown,
    HalfPageUp,
    PageDown,
    PageUp,
    NextChapter,
    PreviousChapter,
    NextSection,
    PreviousSection,
    CycleWidth,
    NextResult,
    PreviousResult,
    CursorTop,
    CursorMiddle,
    CursorBottom,
    ChapterStart,
    ChapterEnd,
}

/// What the caller has to do after a command.
#[derive(Debug, Clone, PartialEq)]
pub enum Action {
    /// Nothing.
    Nothing,
    /// Load the book at this path.
    LoadBook(String),
    /// Move the outline's cursor down and report the new selection.
    TocNext,
    /// Move the outline's cursor up and report the new selection.
    TocPrevious,
}

/// The command of a key that means the same in every panel.
pub open spec fn common_command(key: KeyEvent) -> Option<Command> {
    match key.code {
        KeyCode::Char(c) => if c == 'q' {
            Some(Command::Quit)
        } else if c == 'c' && key.control {
            Some(Command::Quit)
        } else if c == 't' && key.control {
            Some(Command::ToggleTitlebar)
        } else if c == 's' && key.control {
            Some(Command::ToggleStatusbar)
        } else if c == 't' {
            Some(Command::ToggleToc)
        } else if c == 'b' {
            Some(Command::ToggleBookmarks)
        } else if c == 'z' {
            Some(Command::ToggleZen)
        } else if c == '1' {
            Some(Command::FocusToc)
        } else if c == '2' {
            Some(Command::FocusContent)
        } else if c == '3' {
            Some(Command::FocusBookmarks)
        } else {
            None
        },
        KeyCode::Tab => Some(Command::CycleFocus),
        _ => None,
    }
}

/// The command of a key in the content, after the common ones.
pub open spec fn content_command(key: KeyEvent) -> Command {
    match key.code {
        KeyCode::Esc => Command::ClearSearch,
        KeyCode::Down => if key.control {
            Command::HalfPageDown
        } else {
            Command::ScrollDown
        },
        KeyCode::Up => if key.control {
            Command::HalfPageUp
        } else {
            Command::ScrollUp
        },
        KeyCode::PageUp => if key.control {
            Command::PreviousChapter
        } else {
            Command::PageUp
        },
        KeyCode::PageDown => if key.control {
            Command::NextChapter
        } else {
            Command::PageDown
        },
        KeyCode::Home => Command::ChapterStart,
        KeyCode::End => Command::ChapterEnd,
        KeyCode::F(n) => if n == 1 {
            Command::OpenHelp
        } else {
            Command::Ignore
        },
        KeyCode::Left => if key.alt {
            Command::PreviousSection
        } else {
            Command::Ignore
        },
        KeyCode::Right => if key.alt {
            Command::NextSection
        } else {
            Command::Ignore
        },
        KeyCode::Char(c) => if c == 'j' {
            Command::ScrollDown
        } else if c == 'k' {
            Command::ScrollUp
        } else if c == ' ' {
            if key.shift {
                Command::PageUp
            } else {
                Command::PageDown
            }
        } else if c == 'f' && key.control {
            Command::PageDown
        } else if c == 'd' && key.control {
            Command::HalfPageDown
        } else if c == 'u' && key.control {
            Command::HalfPageUp
        } else if c == 'w' {
            Command::CycleWidth
        } else if c == '/' {
            Command::OpenSearch
        } else if c == 'n' {
            Command::NextResult
        } else if c == 'N' {
            Command::PreviousResult
        } else if (c == 'm' || c == 'M') && key.control {
            Command::OpenBookmarkPrompt
        } else if c == '?' {
            Command::OpenHelp
        } else if c == 'I' {
            Command::OpenMetadata
        } else if (c == 'o' || c == 'O') && key.control {
            Command::OpenPicker
        } else if c == 'H' {
            Command::CursorTop
        } else if c == 'M' {
            Command::CursorMiddle
        } else if c == 'L' {
            Command::CursorBottom
        } else if c == 'g' {
            Command::ChapterStart
        } else if c == 'G' {
            Command::ChapterEnd
        } else if c == '{' {
            Command::PreviousChapter
        } else if c == '}' {
            Command::NextChapter
        } else if c == '[' {
            Command::PreviousSection
        } else if c == ']' {
            Command::NextSection
        } else {
            Command::Ignore
        },
        _ => Command::Ignore,
    }
}

/// The command of a key in the outline, after the common ones.
pub open spec fn toc_command(key: KeyEvent) -> Command {
    match key.code {
        KeyCode::Down => Command::TocNext,
        KeyCode::Up => Command::TocPrevious,
        KeyCode::Right => Command::TocOpen,
        KeyCode::Left => Command::TocClose,
        KeyCode::Enter => Command::TocSelect,
        KeyCode::Char(c) => if c == 'j' {
            Command::TocNext
        } else if c == 'k' {
            Command::TocPrevious
        } else if c == 'l' {
            Command::TocOpen
        } else if c == 'h' {
            Command::TocClose
        } else if c == '/' {
            Command::OpenSearch
        } else if (c == 'm' || c == 'M') && key.control {
            Command::OpenBookmarkPrompt
        } else {
            Command::Ignore
        },
        _ => Command::Ignore,
    }
}

/// The command of a key in the bookmarks, after the common ones.
pub open spec fn bookmarks_command(key: KeyEvent) -> Command {
    match key.code {
        KeyCode::Down => Command::BookmarkNext,
        KeyCode::Up => Command::BookmarkPrevious,
        KeyCode::Enter => Command::BookmarkJump,
        KeyCode::Char(c) => if c == 'j' {
            Command::BookmarkNext
        } else if c == 'k' {
            Command::BookmarkPrevious
        } else if c == 'd' {
            Command::BookmarkDelete
        } else {
            Command::Ignore
        },
        _ => Command::Ignore,
    }
}

/// The command of a key in a popup with a text input: the search popup where
/// `search` holds, else the bookmark prompt.
pub open spec fn input_command(key: KeyEvent, search: bool) -> Command {
    match key.code {
        KeyCode::Esc => Command::CancelInput,
        KeyCode::Enter => if search {
            Command::SubmitSearch
        } else {
            Command::SubmitBookmark
        },
        KeyCode::Backspace => Command::EraseInput,
        KeyCode::Char(c) => if search {
            Command::TypeSearch(c)
        } else {
            Command::TypeBookmark(c)
        },
        _ => Command::Ignore,
    }
}

/// The command of a key in the book picker.
pub open spec fn picker_command(key: KeyEvent) -> Command {
    match key.code {
        KeyCode::Esc => Command::PickerClose,
        KeyCode::Down => Command::PickerDown,
        KeyCode::Up => Command::PickerUp,
        KeyCode::Enter => Command::PickerOpen,
        KeyCode::Char(c) => if c == 'q' {
            Command::Quit
        } else if c == 'j' {
            Command::PickerDown
        } else if c == 'k' {
            Command::PickerUp
        } else {
            Command::Ignore
        },
        _ => Command::Ignore,
    }
}

/// The command of a key. A popup takes every key. Else the common keys come
/// first, then those of the panel that has the focus and shows; the content
/// takes the keys of a panel that does not show.
pub open spec fn command_for(
    mode: UiModeView,
    focus: FocusTarget,
    toc_visible: bool,
    bookmarks_visible: bool,
    key: KeyEvent,
) -> Command {
    match mode {
        UiModeView::SearchPopup => input_command(key, true),
        UiModeView::BookmarkPrompt => input_command(key, false),
        UiModeView::BookPicker => picker_command(key),
        UiModeView::Help => match key.code {
            KeyCode::Esc => Command::CloseOverlay,
            KeyCode::Char(c) => if c == '?' {
                Command::CloseOverlay
            } else {
                Command::Ignore
            },
            KeyCode::F(n) => if n == 1 {
                Command::CloseOverlay
            } else {
                Command::Ignore
            },
            _ => Command::Ignore,
        },
        UiModeView::MetadataPopup => match key.code {
            KeyCode::Esc => Command::CloseOverlay,
            KeyCode::Char(c) => if c == 'I' {
                Command::CloseOverlay
            } else {
                Command::Ignore
            },
            _ => Command::Ignore,
        },
        UiModeView::ErrorPopup(_) => match key.code {
            KeyCode::Esc => Command::CloseError,
            KeyCode::Enter => Command::CloseError,
            _ => Command::Ignore,
        },
        UiModeView::Normal => match common_command(key) {
            Some(c) => c,
            None => if focus == FocusTarget::Toc && toc_visible {
                toc_command(key)
            } else if focus == FocusTarget::Bookmarks && bookmarks_visible {
                bookmarks_command(key)
            } else {
                content_command(key)
            },
        },
    }
}

impl AppView {
    /// The state with a popup opened from a panel: the focus is remembered.
    pub open spec fn with_popup(self, mode: UiModeView) -> AppView {
        AppView { previous_focus: Some(self.focus), ui_mode: mode, ..self }
    }

    /// The state with a popup for typing opened: the input starts empty.
    pub open spec fn with_input_popup(self, mode: UiModeView) -> AppView {
        AppView { input_buffer: Seq::empty(), ..self.with_popup(mode) }
    }

    /// The state with the help or metadata popup closed: the focus goes back
    /// to where it was.
    pub open spec fn overlay_closed(self) -> AppView {
        match self.previous_focus {
            Some(f) => AppView {
                ui_mode: UiModeView::Normal,
                focus: f,
                previous_focus: None,
                ..self
            },
            None => AppView { ui_mode: UiModeView::Normal, ..self },
        }
    }

    /// The state with `c` typed into the input, unless the input has `limit`
    /// bytes or more.
    pub open spec fn typed(self, c: char, limit: usize) -> AppView {
        if byte_len(self.input_buffer) < limit {
            AppView { input_buffer: self.input_buffer.push(c), ..self }
        } else {
            self
        }
    }

    /// The state with the last character of the input erased.
    pub open spec fn erased(self) -> AppView {
        if self.input_buffer.len() > 0 {
            AppView { input_buffer: self.input_buffer.drop_last(), ..self }
        } else {
            self
        }
    }

    /// The state after the reader sent off the label of a bookmark. A label
    /// that is accepted gives a bookmark at the cursor, in position order,
    /// and closes the prompt; empty input and a refused label change
    /// nothing.
    pub open spec fn bookmark_submitted(self) -> AppView {
        if self.input_buffer.len() == 0 || is_blank(self.input_buffer) || byte_len(
            trimmed(self.input_buffer),
        ) > MAX_LABEL_LENGTH || self.bookmarks.len() >= MAX_BOOKMARKS {
            self
        } else {
            AppView {
                bookmarks: sorted_by_position(
                    self.bookmarks.push(
                        BookmarkView {
                            chapter_idx: self.current_chapter,
                            line: self.cursor_line,
                            label: trimmed(self.input_buffer),
                        },
                    ),
                ),
                ui_mode: UiModeView::Normal,
                input_buffer: Seq::empty(),
                ..self
            }
        }
    }

    /// The state with the book picker opened: the book that is open is
    /// selected where it is among the recent ones, else the first.
    pub open spec fn picker_opened(self) -> AppView {
        AppView {
            book_picker_selected_idx: match self.current_book_path {
                Some(path) => match first_occurrence(self.recent_books, path, 0) {
                    Some(i) => Some(i as usize),
                    None => Some(0),
                },
                None => Some(0),
            },
            ..self.with_popup(UiModeView::BookPicker)
        }
    }

    /// The state with the book picker closed: without a book the
    /// application quits.
    pub open spec fn picker_closed(self) -> AppView {
        if self.chapters is None {
            AppView { should_quit: true, ..self }
        } else {
            AppView { ui_mode: UiModeView::Normal, ..self }
        }
    }

    /// The state with the selection of the book picker moved by one, no
    /// further than the first and the last recent book.
    pub open spec fn picker_moved(self, down: bool) -> AppView {
        match self.book_picker_selected_idx {
            Some(i) => AppView {
                book_picker_selected_idx: Some(
                    if down {
                        least(sat_add(i as int, 1), sat_sub(self.recent_books.len() as int, 1))
                    } else {
                        sat_sub(i as int, 1)
                    },
                ),
                ..self
            },
            None => self,
        }
    }

    /// The book that the picker would open.
    pub open spec fn picked_book(self) -> Option<Seq<char>> {
        match self.book_picker_selected_idx {
            Some(i) => if i < self.recent_books.len() {
                Some(self.recent_books[i as int])
            } else {
                None
            },
            None => None,
        }
    }
}

/// Whether `after` and `action` are what the command makes of `before` in a
/// terminal of size `terminal`.
pub open spec fn command_applied(
    before: AppView,
    command: Command,
    terminal: (u16, u16),
    after: AppView,
    action: Action,
) -> bool {
    match command {
        Command::PickerOpen => after == before && (match before.picked_book() {
            Some(path) => action is LoadBook && action->LoadBook_0@ == path,
            None => action is Nothing,
        }),
        Command::TocNext => after == before && action is TocNext,
        Command::TocPrevious => after == before && action is TocPrevious,
        _ => action is Nothing && (match command {
            Command::Ignore => after == before,
            Command::Quit => after == (AppView { should_quit: true, ..before }),
            Command::ToggleTitlebar => after == (AppView {
                titlebar_visible: !before.titlebar_visible,
                ..before
            }).resized(terminal.0, terminal.1),
            Command::ToggleStatusbar => after == (AppView {
                statusbar_visible: !before.statusbar_visible,
                ..before
            }).resized(terminal.0, terminal.1),
            Command::ToggleToc => rerendered(
                before.toc_toggled(),
                after,
                before.toc_toggled().available_width(),
            ),
            Command::ToggleBookmarks => rerendered(
                before.bookmarks_toggled(),
                after,
                before.bookmarks_toggled().available_width(),
            ),
            Command::ToggleZen => after == before.zen_toggled().resized(terminal.0, terminal.1),
            Command::CycleFocus => after == (AppView { focus: before.cycled_focus(), ..before }),
            Command::FocusToc => after == (AppView {
                focus: if before.toc_panel_visible {
                    FocusTarget::Toc
                } else {
                    before.focus
                },
                ..before
            }),
            Command::FocusContent => after == (AppView { focus: FocusTarget::Content, ..before }),
            Command::FocusBookmarks => after == (AppView {
                focus: if before.bookmarks_panel_visible {
                    FocusTarget::Bookmarks
                } else {
                    before.focus
                },
                ..before
            }),
            Command::CancelInput => after == (AppView {
                ui_mode: UiModeView::Normal,
                input_buffer: Seq::empty(),
                ..before
            }),
            Command::SubmitSearch => search_submitted(before, after),
            Command::SubmitBookmark => after == before.bookmark_submitted(),
            Command::EraseInput => after == before.erased(),
            Command::TypeSearch(c) => after == before.typed(c, MAX_SEARCH_INPUT_LENGTH),
            Command::TypeBookmark(c) => after == before.typed(c, MAX_BOOKMARK_INPUT_LENGTH),
            Command::PickerClose => after == before.picker_closed(),
            Command::PickerDown => after == before.picker_moved(true),
            Command::PickerUp => after == before.picker_moved(false),
            Command::CloseOverlay => after == before.overlay_closed(),
            Command::CloseError => after == (AppView { ui_mode: UiModeView::Normal, ..before }),
            Command::BookmarkNext => after == (AppView {
                selected_bookmark_idx: before.bookmark_after(),
                ..before
            }),
            Command::BookmarkPrevious => after == (AppView {
                selected_bookmark_idx: before.bookmark_before(),
                ..before
            }),
            Command::BookmarkJump => after == before.at_selected_bookmark(),
            Command::BookmarkDelete => after == before.without_selected_bookmark(),
            Command::TocOpen => after == before.toc_opened(),
            Command::TocClose => after == before.toc_closed(),
            Command::TocSelect => after == before.toc_selected(),
            Command::OpenSearch => after == before.with_input_popup(UiModeView::SearchPopup),
            Command::OpenBookmarkPrompt => after == before.with_input_popup(
                UiModeView::BookmarkPrompt,
            ),
            Command::OpenHelp => after == before.with_popup(UiModeView::Help),
            Command::OpenMetadata => after == before.with_popup(UiModeView::MetadataPopup),
            Command::OpenPicker => after == before.picker_opened(),
            Command::ClearSearch => after == before.without_search(),
            Command::ScrollDown => after == before.scrolled_down(1),
            Command::ScrollUp => after == before.scrolled_up(1),
            Command::HalfPageDown => after == before.scrolled_down(
                (before.viewport.height / 2) as usize,
            ),
            Command::HalfPageUp => after == before.scrolled_up(
                (before.viewport.height / 2) as usize,
            ),
            Command::PageDown => after == before.scrolled_down(before.viewport.height as usize),
            Command::PageUp => after == before.scrolled_up(before.viewport.height as usize),
            Command::NextChapter => after == before.at_next_chapter(),
            Command::PreviousChapter => after == before.at_previous_chapter(),
            Command::NextSection => after == before.at_next_section(),
            Command::PreviousSection => after == before.at_previous_section(),
            Command::CycleWidth => rerendered(
                before.width_cycled(),
                after,
                before.width_cycled().available_width(),
            ),
            Command::NextResult => after == before.at_next_result(),
            Command::PreviousResult => after == before.at_previous_result(),
            Command::CursorTop => after == before.cursor_at_top(),
            Command::CursorMiddle => after == before.cursor_at_middle(),
            Command::CursorBottom => after == before.cursor_at_bottom(),
            Command::ChapterStart => after == before.at(0, 0),
            Command::ChapterEnd => after == before.at_chapter_end(),
            _ => true,
        }),
    }
}

/// Maps keys to commands and carries commands out.
pub struct InputHandler;

impl InputHandler {
    fn handle_common_controls(key: KeyEvent) -> (r: Option<Command>)
        ensures
            r == common_command(key),
    {
        match key.code {
            KeyCode::Char(c) => if c == 'q' {
                Some(Command::Quit)
            } else if c == 'c' && key.control {
                Some(Command::Quit)
            } else if c == 't' && key.control {
                Some(Command::ToggleTitlebar)
            } else if c == 's' && key.control {
                Some(Command::ToggleStatusbar)
            } else if c == 't' {
                Some(Command::ToggleToc)
            } else if c == 'b' {
                Some(Command::ToggleBookmarks)
            } else if c == 'z' {
                Some(Command::ToggleZen)
            } else if c == '1' {
                Some(Command::FocusToc)
            } else if c == '2' {
                Some(Command::FocusContent)
            } else if c == '3' {
                Some(Command::FocusBookmarks)
            } else {
                None
            },
            KeyCode::Tab => Some(Command::CycleFocus),
            _ => None,
        }
    }

    fn handle_content(key: KeyEvent) -> (r: Command)
        ensures
            r == content_command(key),
    {
        match key.code {
            KeyCode::Esc => Command::ClearSearch,
            KeyCode::Down => if key.control {
                Command::HalfPageDown
            } else {
                Command::ScrollDown
            },
            KeyCode::Up => if key.control {
                Command::HalfPageUp
            } else {
                Command::ScrollUp
            },
            KeyCode::PageUp => if key.control {
                Command::PreviousChapter
            } else {
                Command::PageUp
            },
            KeyCode::PageDown => if key.control {
                Command::NextChapter
            } else {
                Command::PageDown
            },
            KeyCode::Home => Command::ChapterStart,
            KeyCode::End => Command::ChapterEnd,
            KeyCode::F(n) => if n == 1 {
                Command::OpenHelp
            } else {
                Command::Ignore
            },
            KeyCode::Left => if key.alt {
                Command::PreviousSection
            } else {
                Command::Ignore
            },
            KeyCode::Right => if key.alt {
                Command::NextSection
            } else {
                Command::Ignore
            },
            KeyCode::Char(c) => if c == 'j' {
                Command::ScrollDown
            } else if c == 'k' {
                Command::ScrollUp
            } else if c == ' ' {
                if key.shift {
                    Command::PageUp
                } else {
                    Command::PageDown
                }
            } else if c == 'f' && key.control {
                Command::PageDown
            } else if c == 'd' && key.control {
                Command::HalfPageDown
            } else if c == 'u' && key.control {
                Command::HalfPageUp
            } else if c == 'w' {
                Command::CycleWidth
            } else if c == '/' {
                Command::OpenSearch
            } else if c == 'n' {
                Command::NextResult
            } else if c == 'N' {
                Command::PreviousResult
            } else if (c == 'm' || c == 'M') && key.control {
                Command::OpenBookmarkPrompt
            } else if c == '?' {
                Command::OpenHelp
            } else if c == 'I' {
                Command::OpenMetadata
            } else if (c == 'o' || c == 'O') && key.control {
                Command::OpenPicker
            } else if c == 'H' {
                Command::CursorTop
            } else if c == 'M' {
                Command::CursorMiddle
            } else if c == 'L' {
                Command::CursorBottom
            } else if c == 'g' {
                Command::ChapterStart
            } else if c == 'G' {
                Command::ChapterEnd
            } else if c == '{' {
                Command::PreviousChapter
            } else if c == '}' {
                Command::NextChapter
            } else if c == '[' {
                Command::PreviousSection
            } else if c == ']' {
                Command::NextSection
            } else {
                Command::Ignore
            },
            _ => Command::Ignore,
        }
    }

    fn handle_toc(key: KeyEvent) -> (r: Command)
        ensures
            r == toc_command(key),
    {
        match key.code {
            KeyCode::Down => Command::TocNext,
            KeyCode::Up => Command::TocPrevious,
            KeyCode::Right => Command::TocOpen,
            KeyCode::Left => Command::TocClose,
            KeyCode::Enter => Command::TocSelect,
            KeyCode::Char(c) => if c == 'j' {
                Command::TocNext
            } else if c == 'k' {
                Command::TocPrevious
            } else if c == 'l' {
                Command::TocOpen
            } else if c == 'h' {
                Command::TocClose
            } else if c == '/' {
                Command::OpenSearch
            } else if (c == 'm' || c == 'M') && key.control {
                Command::OpenBookmarkPrompt
            } else {
                Command::Ignore
            },
            _ => Command::Ignore,
        }
    }

    fn handle_bookmarks(key: KeyEvent) -> (r: Command)
        ensures
            r == bookmarks_command(key),
    {
        match key.code {
            KeyCode::Down => Command::BookmarkNext,
            KeyCode::Up => Command::BookmarkPrevious,
            KeyCode::Enter => Command::BookmarkJump,
            KeyCode::Char(c) => if c == 'j' {
                Command::BookmarkNext
            } else if c == 'k' {
                Command::BookmarkPrevious
            } else if c == 'd' {
                Command::BookmarkDelete
            } else {
                Command::Ignore
            },
            _ => Command::Ignore,
        }
    }

    fn handle_input_popup(key: KeyEvent, search: bool) -> (r: Command)
        ensures
            r == input_command(key, search),
    {
        match key.code {
            KeyCode::Esc => Command::CancelInput,
            KeyCode::Enter => if search {
                Command::SubmitSearch
            } else {
                Command::SubmitBookmark
            },
            KeyCode::Backspace => Command::EraseInput,
            KeyCode::Char(c) => if search {
                Command::TypeSearch(c)
            } else {
                Command::TypeBookmark(c)
            },
            _ => Command::Ignore,
        }
    }

    fn handle_book_picker(key: KeyEvent) -> (r: Command)
        ensures
            r == picker_command(key),
    {
        match key.code {
            KeyCode::Esc => Command::PickerClose,
            KeyCode::Down => Command::PickerDown,
            KeyCode::Up => Command::PickerUp,
            KeyCode::Enter => Command::PickerOpen,
            KeyCode::Char(c) => if c == 'q' {
                Command::Quit
            } else if c == 'j' {
                Command::PickerDown
            } else if c == 'k' {
                Command::PickerUp
            } else {
                Command::Ignore
            },
            _ => Command::Ignore,
        }
    }

    /// The command that the key asks for in the given mode and focus.
    pub fn command(
        mode: &UiMode,
        focus: FocusTarget,
        toc_visible: bool,
        bookmarks_visible: bool,
        key: KeyEvent,
    ) -> (r: Command)
        ensures
            r == command_for(mode@, focus, toc_visible, bookmarks_visible, key),
    {
        match mode {
            UiMode::SearchPopup => InputHandler::handle_input_popup(key, true),
            UiMode::BookmarkPrompt => InputHandler::handle_input_popup(key, false),
            UiMode::BookPicker => InputHandler::handle_book_picker(key),
            UiMode::Help => match key.code {
                KeyCode::Esc => Command::CloseOverlay,
                KeyCode::Char(c) => if c == '?' {
                    Command::CloseOverlay
                } else {
                    Command::Ignore
                },
                KeyCode::F(n) => if n == 1 {
                    Command::CloseOverlay
                } else {
                    Command::Ignore
                },
                _ => Command::Ignore,
            },
            UiMode::MetadataPopup => match key.code {
                KeyCode::Esc => Command::CloseOverlay,
                KeyCode::Char(c) => if c == 'I' {
                    Command::CloseOverlay
                } else {
                    Command::Ignore
                },
                _ => Command::Ignore,
            },
            UiMode::ErrorPopup(_) => match key.code {
                KeyCode::Esc => Command::CloseError,
                KeyCode::Enter => Command::CloseError,
                _ => Command::Ignore,
            },
            UiMode::Normal => match InputHandler::handle_common_controls(key) {
                Some(c) => c,
                None => if focus == FocusTarget::Toc && toc_visible {
                    InputHandler::handle_toc(key)
                } else if focus == FocusTarget::Bookmarks && bookmarks_visible {
                    InputHandler::handle_bookmarks(key)
                } else {
                    InputHandler::handle_content(key)
                },
            },
        }
    }

    fn open_popup(app: &mut AppState, mode: UiMode, with_input: bool)
        ensures
            final(app)@ == (if with_input {
                old(app)@.with_input_popup(mode@)
            } else {
                old(app)@.with_popup(mode@)
            }),
    {
        app.previous_focus = Some(app.focus);
        app.ui_mode = mode;
        if with_input {
            app.input_buffer = String::new();
        }
    }

    fn type_char(app: &mut AppState, c: char, limit: usize)
        ensures
            final(app)@ == old(app)@.typed(c, limit),
    {
        if byte_length(app.input_buffer.as_str()) < limit {
            crate::text::push_char(&mut app.input_buffer, c);
        }
    }

    fn erase_char(app: &mut AppState)
        ensures
            final(app)@ == old(app)@.erased(),
    {
        let mut chars = chars_of(app.input_buffer.as_str());
        if chars.len() > 0 {
            chars.pop();
            app.input_buffer = string_of(&chars);
        }
    }

    fn submit_bookmark(app: &mut AppState)
        ensures
            final(app)@ == old(app)@.bookmark_submitted(),
    {
        let chars = chars_of(app.input_buffer.as_str());
        if chars.len() == 0 {
            return ;
        }
        let result = BookmarkManager::add_bookmark(
            &mut app.bookmarks,
            app.current_chapter,
            app.cursor_line,
            app.input_buffer.clone(),
        );
        if result.is_ok() {
            app.ui_mode = UiMode::Normal;
            app.input_buffer = String::new();
        }
    }

    fn open_picker(app: &mut AppState)
        ensures
            final(app)@ == old(app)@.picker_opened(),
    {
        let selected = match &app.current_book_path {
            Some(path) => {
                let ghost list = string_views(app.recent_books@);
                let mut i: usize = 0;
                let mut found: Option<usize> = None;
                while i < app.recent_books.len() && found.is_none()
                    invariant
                        i <= app.recent_books.len(),
                        list == string_views(app.recent_books@),
                        found is None ==> first_occurrence(list, path@, 0) == first_occurrence(
                            list,
                            path@,
                            i as int,
                        ),
                        found is Some ==> first_occurrence(list, path@, 0) == Some(
                            found->Some_0 as int,
                        ),
                    decreases app.recent_books.len() - i + (if found is None {
                        1int
                    } else {
                        0int
                    }),
                {
                    if same_text(app.recent_books[i].as_str(), path.as_str()) {
                        found = Some(i);
                    } else {
                        i += 1;
                    }
                }
                match found {
                    Some(i) => Some(i),
                    None => Some(0),
                }
            },
            None => Some(0),
        };
        app.previous_focus = Some(app.focus);
        app.ui_mode = UiMode::BookPicker;
        app.book_picker_selected_idx = selected;
    }

    fn move_picker(app: &mut AppState, down: bool)
        ensures
            final(app)@ == old(app)@.picker_moved(down),
    {
        match app.book_picker_selected_idx {
            Some(i) => {
                let next = if down {
                    let below = i.saturating_add(1);
                    let last = app.recent_books.len().saturating_sub(1);
                    if below < last {
                        below
                    } else {
                        last
                    }
                } else {
                    i.saturating_sub(1)
                };
                app.book_picker_selected_idx = Some(next);
            },
            None => {},
        }
    }

    /// Carries a command out in a terminal of size `terminal`.
    pub fn apply(
        app: &mut AppState,
        command: Command,
        terminal: (u16, u16),
        highlighter: &CodeHighlighter,
    ) -> (action: Action)
        ensures
            command_applied(old(app)@, command, terminal, final(app)@, action),
    {
        match command {
            Command::Ignore => {},
            Command::Quit => {
                app.should_quit = true;
            },
            Command::ToggleTitlebar => app.toggle_titlebar(terminal),
            Command::ToggleStatusbar => app.toggle_statusbar(terminal),
            Command::ToggleToc => app.toggle_toc(highlighter),
            Command::ToggleBookmarks => app.toggle_bookmarks(highlighter),
            Command::ToggleZen => app.toggle_zen_mode(terminal),
            Command::CycleFocus => app.cycle_focus(),
            Command::FocusToc => app.focus_toc(),
            Command::FocusContent => app.focus_content(),
            Command::FocusBookmarks => app.focus_bookmarks(),
            Command::CancelInput => {
                app.ui_mode = UiMode::Normal;
                app.input_buffer = String::new();
            },
            Command::SubmitSearch => app.submit_search(),
            Command::SubmitBookmark => InputHandler::submit_bookmark(app),
            Command::EraseInput => InputHandler::erase_char(app),
            Command::TypeSearch(c) => InputHandler::type_char(app, c, MAX_SEARCH_INPUT_LENGTH),
            Command::TypeBookmark(c) => InputHandler::type_char(app, c, MAX_BOOKMARK_INPUT_LENGTH),
            Command::PickerClose => {
                if app.book.is_none() {
                    app.should_quit = true;
                } else {
                    app.ui_mode = UiMode::Normal;
                }
            },
            Command::PickerDown => InputHandler::move_picker(app, true),
            Command::PickerUp => InputHandler::move_picker(app, false),
            Command::PickerOpen => {
                match app.book_picker_selected_idx {
                    Some(i) => {
                        if i < app.recent_books.len() {
                            return Action::LoadBook(app.recent_books[i].clone());
                        }
                    },
                    None => {},
                }
            },
            Command::CloseOverlay => {
                app.ui_mode = UiMode::Normal;
                match app.previous_focus {
                    Some(f) => {
                        app.focus = f;
                        app.previous_focus = None;
                    },
                    None => {},
                }
            },
            Command::CloseError => {
                app.ui_mode = UiMode::Normal;
            },
            Command::BookmarkNext => app.bookmark_next(),
            Command::BookmarkPrevious => app.bookmark_previous(),
            Command::BookmarkJump => app.jump_to_selected_bookmark(),
            Command::BookmarkDelete => app.delete_selected_bookmark(),
            Command::TocNext => {
                return Action::TocNext;
            },
            Command::TocPrevious => {
                return Action::TocPrevious;
            },
            Command::TocOpen => app.toc_open(),
            Command::TocClose => app.toc_close(),
            Command::TocSelect => app.toc_select(),
            Command::OpenSearch => InputHandler::open_popup(app, UiMode::SearchPopup, true),
            Command::OpenBookmarkPrompt => InputHandler::open_popup(
                app,
                UiMode::BookmarkPrompt,
                true,
            ),
            Command::OpenHelp => InputHandler::open_popup(app, UiMode::Help, false),
            Command::OpenMetadata => InputHandler::open_popup(app, UiMode::MetadataPopup, false),
            Command::OpenPicker => InputHandler::open_picker(app),
            Command::ClearSearch => app.clear_search(),
            Command::ScrollDown => app.scroll_down(1),
            Command::ScrollUp => app.scroll_up(1),
            Command::HalfPageDown => app.half_page_down(),
            Command::HalfPageUp => app.half_page_up(),
            Command::PageDown => app.page_down(),
            Command::PageUp => app.page_up(),
            Command::NextChapter => app.next_chapter(),
            Command::PreviousChapter => app.previous_chapter(),
            Command::NextSection => app.next_section(),
            Command::PreviousSection => app.previous_section(),
            Command::CycleWidth => app.cycle_max_width(highlighter),
            Command::NextResult => app.next_search_result(),
            Command::PreviousResult => app.previous_search_result(),
            Command::CursorTop => app.move_cursor_to_top(),
            Command::CursorMiddle => app.move_cursor_to_middle(),
            Command::CursorBottom => app.move_cursor_to_bottom(),
            Command::ChapterStart => app.move_cursor_to_chapter_start(),
            Command::ChapterEnd => app.move_cursor_to_chapter_end(),
        }
        Action::Nothing
    }

    /// Handles a key press: finds its command in the state's mode and focus
    /// and carries it out.
    pub fn handle_key(
        &mut self,
        app: &mut AppState,
        key: KeyEvent,
        terminal: (u16, u16),
        highlighter: &CodeHighlighter,
    ) -> (action: Action)
        ensures
            command_applied(
                old(app)@,
                command_for(
                    old(app)@.ui_mode,
                    old(app)@.focus,
                    old(app)@.toc_panel_visible,
                    old(app)@.bookmarks_panel_visible,
                    key,
                ),
                terminal,
                final(app)@,
                action,
            ),
    {
        let command = InputHandler::command(
            &app.ui_mode,
            app.focus,
            app.toc_panel_visible,
            app.bookmarks_panel_visible,
            key,
        );
        InputHandler::apply(app, command, terminal, highlighter)
    }
}

/// Handles a key press.
pub fn handle_key_event(
    app: &mut AppState,
    key: KeyEvent,
    terminal: (u16, u16),
    highlighter: &CodeHighlighter,
) -> (action: Action)
    ensures
        command_applied(
            old(app)@,
            command_for(
                old(app)@.ui_mode,
                old(app)@.focus,
                old(app)@.toc_panel_visible,
                old(app)@.bookmarks_panel_visible,
                key,
            ),
            terminal,
            final(app)@,
            action,
        ),
{
    let mut handler = InputHandler;
    handler.handle_key(app, key, terminal, highlighter)
}

} // verus!
