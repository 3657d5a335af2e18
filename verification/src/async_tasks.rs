//! What the background work reports, and what the reader's state makes of
//! it. Spawning the work and carrying its messages is the caller's part.

use vstd::prelude::*;
use vstd::string::*;
use crate::app::{rerendered, search_follows, texts_of, AppState, AppView};
use crate::epub::code_highlight::CodeHighlighter;
use crate::persistence::ReadingProgress;
use crate::text::owned;
use crate::types::{
    bookmark_views, Book, Bookmark, Chapter, ChapterView, LoadingState, LoadingStateView, UiMode,
    UiModeView,
};

verus! {

/// A message from the background work.
pub enum TaskMessage {
    /// Loading of the book at this path has started.
    BookLoadingStarted { file_path: String },
    /// The book was read, with its first chapter laid out; with it come the
    /// path it was read from, its bookmarks and the position saved for it.
    BookLoaded {
        book: Book,
        file_path: String,
        bookmarks: Vec<Bookmark>,
        progress: Option<ReadingProgress>,
    },
    /// The book could not be read.
    BookLoadError { error: String },
    /// One more chapter was laid out.
    ChapterRendered { chapter_idx: usize, rendered_chapter: Chapter },
    /// Every chapter is laid out.
    AllChaptersRendered,
    /// The terminal has kept this size for a while.
    ResizeComplete { width: u16, height: u16 },
}

/// What the loading work does next.
#[derive(Debug, Clone, Copy, PartialEq, Eq, Structural)]
pub enum LoadStep {
    /// Lay out the chapter with this index and hand it over.
    Render(usize),
    /// Report that every chapter is laid out.
    Finish,
    /// Stop without a word: the work was cancelled.
    Stop,
}

/// What the loading work does after `done` of `total` chapters are laid out.
/// The cancellation is looked at before every chapter and before the end:
/// cancelled work stops; else the next chapter is laid out, or the end is
/// reported when none is left.
pub fn next_load_step(done: usize, total: usize, cancelled: bool) -> (step: LoadStep)
    ensures
        step == (if cancelled {
            LoadStep::Stop
        } else if done < total {
            LoadStep::Render(done)
        } else {
            LoadStep::Finish
        }),
{
    if cancelled {
        LoadStep::Stop
    } else if done < total {
        LoadStep::Render(done)
    } else {
        LoadStep::Finish
    }
}

/// Holds back resize events until they stop coming: of a burst of sizes only
/// the last is passed on.
#[derive(Debug, Clone, Copy)]
pub struct ResizeDebouncer {
    last_size: Option<(u16, u16)>,
}

impl ResizeDebouncer {
    /// The size that waits to be passed on.
    pub closed spec fn pending(&self) -> Option<(u16, u16)> {
        self.last_size
    }

    /// A debouncer with nothing waiting.
    pub fn new() -> (d: ResizeDebouncer)
        ensures
            d.pending() is None,
    {
        ResizeDebouncer { last_size: None }
    }

    /// Takes note of a resize event: its size replaces the one that waited.
    pub fn record(&mut self, size: (u16, u16))
        ensures
            final(self).pending() == Some(size),
    {
        self.last_size = Some(size);
    }

    /// The events have stopped: hands out the size that waited, as the
    /// message to send, and keeps nothing.
    pub fn flush(&mut self) -> (msg: Option<TaskMessage>)
        ensures
            final(self).pending() is None,
            match old(self).pending() {
                Some((width, height)) => msg == Some(TaskMessage::ResizeComplete { width, height }),
                None => msg is None,
            },
    {
        match self.last_size {
            Some((width, height)) => {
                self.last_size = None;
                Some(TaskMessage::ResizeComplete { width, height })
            },
            None => None,
        }
    }
}

impl AppView {
    /// The loading state after chapter `idx` came in: the count of chapters
    /// done goes to `idx + 1` while chapters are being laid out.
    pub open spec fn progressed(self, idx: usize) -> LoadingStateView {
        match self.loading_state {
            LoadingStateView::RenderingChapters { rendered, total } => {
                LoadingStateView::RenderingChapters {
                    rendered: crate::app::sat_add(idx as int, 1),
                    total,
                }
            },
            other => other,
        }
    }
}

/// Whether `after` is `before` after chapter `idx` was replaced by
/// `chapter`. Without a book nothing changes; a chapter that the book does
/// not have changes the count of chapters done only. Else the chapter is
/// replaced as a whole and the search is brought up to date, so that no
/// match from before is kept.
pub open spec fn chapter_replaced(
    before: AppView,
    idx: usize,
    chapter: ChapterView,
    after: AppView,
) -> bool {
    match before.chapters {
        None => after == before,
        Some(chapters) => {
            &&& after == (AppView {
                chapters: after.chapters,
                search_results: after.search_results,
                search_query: after.search_query,
                current_search_idx: after.current_search_idx,
                loading_state: before.progressed(idx),
                ..before
            })
            &&& after.chapters is Some
            &&& if idx >= chapters.len() {
                &&& after.chapters == before.chapters
                &&& after.search_results == before.search_results
                &&& after.search_query == before.search_query
                &&& after.current_search_idx == before.current_search_idx
            } else {
                &&& search_follows(
                    chapters.update(idx as int, chapter),
                    before.search_query,
                    before.search_results.len() > 0,
                    after.chapters->Some_0,
                    after.search_results,
                )
                &&& after.search_results.len() > 0 ==> after.search_query == before.search_query
                    && after.current_search_idx < after.search_results.len()
                &&& before.search_results.len() == 0 ==> after.search_query
                    == before.search_query && after.current_search_idx
                    == before.current_search_idx
            }
        },
    }
}

impl AppState {
    /// Takes in a chapter that the background work laid out.
    pub fn chapter_rendered(&mut self, chapter_idx: usize, rendered_chapter: Chapter)
        ensures
            chapter_replaced(old(self)@, chapter_idx, rendered_chapter@, final(self)@),
    {
        let mut book = match self.book.take() {
            Some(b) => b,
            None => {
                return ;
            },
        };
        let ghost before = book.chapters_view();
        if chapter_idx < book.chapters.len() {
            book.chapters[chapter_idx] = rendered_chapter;
            assert(book.chapters_view() =~= before.update(chapter_idx as int, rendered_chapter@));
            let had_results = self.search_results.len() > 0;
            AppState::refresh_search(
                &mut book,
                self.search_query.as_str(),
                &mut self.search_results,
            );
            if had_results && self.search_results.len() == 0 {
                self.search_query = String::new();
                self.current_search_idx = 0;
            } else if self.current_search_idx >= self.search_results.len() && had_results {
                self.current_search_idx = 0;
            }
        }
        match self.loading_state {
            LoadingState::RenderingChapters { rendered, total } => {
                self.loading_state = LoadingState::RenderingChapters {
                    rendered: chapter_idx.saturating_add(1),
                    total,
                };
            },
            _ => {},
        }
        self.book = Some(book);
    }

    /// Shows that a book could not be loaded.
    pub fn book_load_failed(&mut self, error: &str)
        ensures
            final(self)@ == (AppView {
                ui_mode: UiModeView::ErrorPopup("Failed to load book: "@ + error@),
                loading_state: LoadingStateView::Idle,
                ..old(self)@
            }),
    {
        let mut text = owned("Failed to load book: ");
        text.append(error);
        self.ui_mode = UiMode::ErrorPopup(text);
        self.loading_state = LoadingState::Idle;
    }
}

impl AppView {
    /// The state with a book that the background work has read: the book is
    /// put at the head of the recent books and opened, and its chapters are
    /// being laid out, the first being done.
    pub open spec fn with_loaded_book(
        self,
        metadata: crate::types::BookMetadata,
        chapters: Seq<ChapterView>,
        path: Seq<char>,
        bookmarks: Seq<crate::types::BookmarkView>,
        progress: Option<(usize, usize, usize, Set<Seq<char>>)>,
    ) -> AppView {
        AppView {
            loading_state: LoadingStateView::RenderingChapters {
                rendered: 1,
                total: chapters.len() as usize,
            },
            ..(AppView { recent_books: self.recent_with(path), ..self }).with_book(
                metadata,
                chapters,
                path,
                bookmarks,
                progress,
            )
        }
    }
}

/// The saved position as plain values.
pub open spec fn progress_view(progress: Option<ReadingProgress>) -> Option<
    (usize, usize, usize, Set<Seq<char>>),
> {
    match progress {
        Some(p) => Some((p.chapter_idx, p.line, p.scroll_offset, texts_of(p.toc_expansion_state@))),
        None => None,
    }
}

impl AppState {
    /// Takes in a book that the background work has read.
    pub fn book_loaded(
        &mut self,
        book: Book,
        file_path: String,
        bookmarks: Vec<Bookmark>,
        progress: Option<ReadingProgress>,
    )
        ensures
            final(self)@ == (AppView {
                toc_items: final(self)@.toc_items,
                ..old(self)@.with_loaded_book(
                    book.metadata,
                    book.chapters_view(),
                    file_path@,
                    bookmark_views(bookmarks@),
                    progress_view(progress),
                )
            }),
            crate::toc::tree_matches(final(self)@.toc_items, book.chapters_view()),
    {
        let total = book.chapters.len();
        self.note_recent_book(file_path.clone());
        self.open_book(book, file_path, bookmarks, progress);
        self.loading_state = LoadingState::RenderingChapters { rendered: 1, total };
    }

    /// Notes what the background work is doing.
    pub fn set_loading_state(&mut self, state: LoadingState)
        ensures
            final(self)@ == (AppView { loading_state: state@, ..old(self)@ }),
    {
        self.loading_state = state;
    }
}

/// Whether `after` is what the message makes of `before`.
/// - Loading started or ended: the loading state says so.
/// - A book came: it is put at the head of the recent books and opened, and
///   its chapters are being laid out, the first being done.
/// - A book failed: the error shows in a popup.
/// - A chapter came: it replaces the one it is for.
/// - The terminal was resized: every chapter is laid out for its width.
pub open spec fn message_handled(before: AppView, msg: TaskMessage, after: AppView) -> bool {
    match msg {
        TaskMessage::BookLoadingStarted { file_path } => after == (AppView {
            loading_state: LoadingStateView::LoadingBook { file_path: file_path@ },
            ..before
        }),
        TaskMessage::BookLoaded { book, file_path, bookmarks, progress } => after == (AppView {
            toc_items: after.toc_items,
            ..before.with_loaded_book(
                book.metadata,
                book.chapters_view(),
                file_path@,
                bookmark_views(bookmarks@),
                progress_view(progress),
            )
        }) && crate::toc::tree_matches(after.toc_items, book.chapters_view()),
        TaskMessage::BookLoadError { error } => after == (AppView {
            ui_mode: UiModeView::ErrorPopup("Failed to load book: "@ + error@),
            loading_state: LoadingStateView::Idle,
            ..before
        }),
        TaskMessage::ChapterRendered { chapter_idx, rendered_chapter } => chapter_replaced(
            before,
            chapter_idx,
            rendered_chapter@,
            after,
        ),
        TaskMessage::AllChaptersRendered => after == (AppView {
            loading_state: LoadingStateView::Idle,
            ..before
        }),
        TaskMessage::ResizeComplete { width, height } => rerendered(before, after, width),
    }
}

/// Takes a message of the background work into the reader's state.
pub fn handle_task_message(app: &mut AppState, msg: TaskMessage, highlighter: &CodeHighlighter)
    ensures
        message_handled(old(app)@, msg, final(app)@),
{
    match msg {
        TaskMessage::BookLoadingStarted { file_path } => {
            app.set_loading_state(LoadingState::LoadingBook { file_path });
        },
        TaskMessage::BookLoaded { book, file_path, bookmarks, progress } => {
            app.book_loaded(book, file_path, bookmarks, progress);
        },
        TaskMessage::BookLoadError { error } => {
            app.book_load_failed(error.as_str());
        },
        TaskMessage::ChapterRendered { chapter_idx, rendered_chapter } => {
            app.chapter_rendered(chapter_idx, rendered_chapter);
        },
        TaskMessage::AllChaptersRendered => {
            app.set_loading_state(LoadingState::Idle);
        },
        TaskMessage::ResizeComplete { width, height: _ } => {
            app.rerender_at(width, highlighter);
        },
    }
}

} // verus!
