//! The data model: books, chapters, sections and rendered lines, the
//! reader's interface state, and the mathematical view of each.

use vstd::prelude::*;
use crate::text::byte_len;

verus! {

/// The characters of an optional string.
pub open spec fn opt_view(o: Option<String>) -> Option<Seq<char>> {
    match o {
        Some(s) => Some(s@),
        None => None,
    }
}

/// A copy of an optional string.
pub fn clone_opt(o: &Option<String>) -> (r: Option<String>)
    ensures
        opt_view(r) == opt_view(*o),
{
    match o {
        Some(s) => Some(s.clone()),
        None => None,
    }
}

/// A parsed book: metadata and chapters in reading order.
#[derive(Debug, Clone)]
pub struct Book {
    pub metadata: BookMetadata,
    pub chapters: Vec<Chapter>,
}

/// One chapter of a book.
#[derive(Debug, Clone)]
pub struct Chapter {
    /// The chapter title from the outline, or a generic one.
    pub title: String,
    /// Sections within this chapter, sorted by `start_line` once resolved.
    pub sections: Vec<Section>,
    /// The rendered lines, replaced as a whole on every layout pass.
    pub content_lines: Vec<RenderedLine>,
    /// The chapter's raw markup, kept so that layout can be redone.
    pub file_path: String,
}

/// A section within a chapter.
#[derive(Debug, Clone, PartialEq)]
pub struct Section {
    /// Section title.
    pub title: String,
    /// Index of the line in the chapter's rendered lines where it starts.
    pub start_line: usize,
    /// Anchor id that ties the section to a heading, whatever the layout.
    pub fragment_id: Option<String>,
}

/// A colour as red, green and blue.
#[derive(Debug, Clone, Copy, PartialEq, Eq, Structural)]
pub struct Rgb {
    pub r: u8,
    pub g: u8,
    pub b: u8,
}

/// One rendered line with its annotations. All offsets are byte offsets
/// into `text`.
#[derive(Debug, Clone, PartialEq)]
pub struct RenderedLine {
    /// The text of the line.
    pub text: String,
    /// Block style of the line.
    pub style: LineStyle,
    /// Ranges `(start, end)` that match the current search.
    pub search_matches: Vec<(usize, usize)>,
    /// Ranges `(start, end, style)` of inline styles.
    pub inline_styles: Vec<(usize, usize, InlineStyle)>,
    /// Ranges `(start, end, colour)` of syntax colours in code blocks.
    pub syntax_colors: Vec<(usize, usize, Rgb)>,
}

/// Block style of a rendered line.
#[derive(Debug, Clone, PartialEq)]
pub enum LineStyle {
    Normal,
    Heading1,
    Heading2,
    Heading3,
    CodeBlock { language: Option<String> },
    Quote,
    Link,
}

/// Inline text style.
#[derive(Debug, Clone, Copy, PartialEq, Eq, Structural)]
pub enum InlineStyle {
    Bold,
    Italic,
    Code,
    Underline,
    Strikethrough,
    Highlight,
}

/// Metadata of a book.
#[derive(Debug, Clone)]
pub struct BookMetadata {
    pub title: String,
    pub author: Option<String>,
    pub publisher: Option<String>,
    pub publication_date: Option<String>,
    pub language: Option<String>,
}

/// The part of the terminal that shows content.
#[derive(Debug, Clone, Copy, PartialEq, Eq, Structural)]
pub struct Viewport {
    /// Terminal width in columns.
    pub width: u16,
    /// Height in rows, without title and status bar.
    pub height: u16,
    /// Index of the first visible line.
    pub scroll_offset: usize,
}

/// The panel that has keyboard focus.
#[derive(Debug, Clone, Copy, PartialEq, Eq, Structural)]
pub enum FocusTarget {
    Content,
    Toc,
    Bookmarks,
}

/// Settings kept across sessions.
#[derive(Debug, Clone, Copy, PartialEq, Eq)]
pub struct Config {
    /// Maximum line width for wrapping; `None` uses the terminal width.
    pub max_width: Option<usize>,
    /// Width of the outline panel in columns.
    pub toc_panel_width: u16,
    /// Width of the bookmarks panel in columns.
    pub bookmarks_panel_width: u16,
}

impl Default for Config {
    fn default() -> (c: Config)
        ensures
            c.max_width is None,
            c.toc_panel_width == 34,
            c.bookmarks_panel_width == 34,
    {
        Config { max_width: None, toc_panel_width: 34, bookmarks_panel_width: 34 }
    }
}

/// Where a search match lies.
#[derive(Debug, Clone, Copy, PartialEq, Eq, Structural)]
pub struct SearchMatch {
    /// Index of the chapter.
    pub chapter_idx: usize,
    /// Index of the line within the chapter.
    pub line: usize,
    /// Byte offset in the line where the match starts.
    pub column: usize,
    /// Length of the match in bytes.
    pub match_length: usize,
}

/// A bookmark set by the reader.
#[derive(Debug, Clone, PartialEq)]
pub struct Bookmark {
    /// Index of the chapter.
    pub chapter_idx: usize,
    /// Index of the line within the chapter.
    pub line: usize,
    /// Label given by the reader.
    pub label: String,
}

/// The mode that decides which controls are active.
#[derive(Debug, Clone, PartialEq)]
pub enum UiMode {
    Normal,
    SearchPopup,
    BookmarkPrompt,
    BookPicker,
    Help,
    MetadataPopup,
    ErrorPopup(String),
}

/// Panel visibility saved while zen mode is on.
#[derive(Debug, Clone, Copy, PartialEq, Eq, Structural)]
pub struct ZenModeState {
    pub toc_visible: bool,
    pub bookmarks_visible: bool,
    pub statusbar_visible: bool,
    pub titlebar_visible: bool,
}

/// What the background work is doing.
#[derive(Debug, Clone, PartialEq)]
pub enum LoadingState {
    Idle,
    LoadingBook { file_path: String },
    RenderingChapters { rendered: usize, total: usize },
}

/// Mathematical view of a block style.
pub enum LineStyleView {
    Normal,
    Heading1,
    Heading2,
    Heading3,
    CodeBlock { language: Option<Seq<char>> },
    Quote,
    Link,
}

impl View for LineStyle {
    type V = LineStyleView;

    open spec fn view(&self) -> LineStyleView {
        match *self {
            LineStyle::Normal => LineStyleView::Normal,
            LineStyle::Heading1 => LineStyleView::Heading1,
            LineStyle::Heading2 => LineStyleView::Heading2,
            LineStyle::Heading3 => LineStyleView::Heading3,
            LineStyle::CodeBlock { language } => LineStyleView::CodeBlock {
                language: opt_view(language),
            },
            LineStyle::Quote => LineStyleView::Quote,
            LineStyle::Link => LineStyleView::Link,
        }
    }
}

impl LineStyle {
    /// A copy of this style.
    pub fn duplicate(&self) -> (r: LineStyle)
        ensures
            r@ == self@,
    {
        match self {
            LineStyle::Normal => LineStyle::Normal,
            LineStyle::Heading1 => LineStyle::Heading1,
            LineStyle::Heading2 => LineStyle::Heading2,
            LineStyle::Heading3 => LineStyle::Heading3,
            LineStyle::CodeBlock { language } => LineStyle::CodeBlock {
                language: clone_opt(language),
            },
            LineStyle::Quote => LineStyle::Quote,
            LineStyle::Link => LineStyle::Link,
        }
    }
}

/// Mathematical view of a rendered line.
pub struct LineView {
    pub text: Seq<char>,
    pub style: LineStyleView,
    pub search_matches: Seq<(usize, usize)>,
    pub inline_styles: Seq<(usize, usize, InlineStyle)>,
    pub syntax_colors: Seq<(usize, usize, Rgb)>,
}

impl View for RenderedLine {
    type V = LineView;

    open spec fn view(&self) -> LineView {
        LineView {
            text: self.text@,
            style: self.style@,
            search_matches: self.search_matches@,
            inline_styles: self.inline_styles@,
            syntax_colors: self.syntax_colors@,
        }
    }
}

impl LineView {
    /// A line of plain text without annotations.
    pub open spec fn plain(text: Seq<char>, style: LineStyleView) -> LineView {
        LineView {
            text,
            style,
            search_matches: Seq::empty(),
            inline_styles: Seq::empty(),
            syntax_colors: Seq::empty(),
        }
    }

    /// Every annotation lies within the text, and no inline range is empty.
    pub open spec fn spans_in_bounds(self) -> bool {
        &&& forall|i: int|
            0 <= i < self.search_matches.len() ==> {
                let m = #[trigger] self.search_matches[i];
                m.0 <= m.1 <= byte_len(self.text)
            }
        &&& forall|i: int|
            0 <= i < self.inline_styles.len() ==> {
                let m = #[trigger] self.inline_styles[i];
                m.0 < m.1 <= byte_len(self.text)
            }
    }
}

/// Whether every annotation of every line lies within the line's text.
pub open spec fn all_in_bounds(lines: Seq<LineView>) -> bool {
    forall|i: int| 0 <= i < lines.len() ==> (#[trigger] lines[i]).spans_in_bounds()
}

/// Whether every line is as layout leaves it: its annotations lie within its
/// text, and it carries no search span.
pub open spec fn all_laid_out(lines: Seq<LineView>) -> bool {
    &&& all_in_bounds(lines)
    &&& forall|i: int| 0 <= i < lines.len() ==> (#[trigger] lines[i]).search_matches.len() == 0
}

/// The views of a sequence of lines.
pub open spec fn line_views(lines: Seq<RenderedLine>) -> Seq<LineView> {
    Seq::new(lines.len(), |i: int| lines[i]@)
}

/// Mathematical view of a section.
pub struct SectionView {
    pub title: Seq<char>,
    pub start_line: usize,
    pub fragment_id: Option<Seq<char>>,
}

impl View for Section {
    type V = SectionView;

    open spec fn view(&self) -> SectionView {
        SectionView {
            title: self.title@,
            start_line: self.start_line,
            fragment_id: opt_view(self.fragment_id),
        }
    }
}

/// The views of a sequence of sections.
pub open spec fn section_views(sections: Seq<Section>) -> Seq<SectionView> {
    Seq::new(sections.len(), |i: int| sections[i]@)
}

/// Mathematical view of a chapter.
pub struct ChapterView {
    pub title: Seq<char>,
    pub sections: Seq<SectionView>,
    pub content_lines: Seq<LineView>,
    pub file_path: Seq<char>,
}

impl View for Chapter {
    type V = ChapterView;

    open spec fn view(&self) -> ChapterView {
        ChapterView {
            title: self.title@,
            sections: section_views(self.sections@),
            content_lines: line_views(self.content_lines@),
            file_path: self.file_path@,
        }
    }
}

/// The views of a sequence of chapters.
pub open spec fn chapter_views(chapters: Seq<Chapter>) -> Seq<ChapterView> {
    Seq::new(chapters.len(), |i: int| chapters[i]@)
}

impl Book {
    /// The views of the book's chapters. Metadata takes no part in layout,
    /// outline or search, so the contracts speak of the chapters alone.
    pub open spec fn chapters_view(&self) -> Seq<ChapterView> {
        chapter_views(self.chapters@)
    }
}

/// Mathematical view of a bookmark.
pub struct BookmarkView {
    pub chapter_idx: usize,
    pub line: usize,
    pub label: Seq<char>,
}

impl View for Bookmark {
    type V = BookmarkView;

    open spec fn view(&self) -> BookmarkView {
        BookmarkView { chapter_idx: self.chapter_idx, line: self.line, label: self.label@ }
    }
}

/// The views of a sequence of bookmarks.
pub open spec fn bookmark_views(bookmarks: Seq<Bookmark>) -> Seq<BookmarkView> {
    Seq::new(bookmarks.len(), |i: int| bookmarks[i]@)
}

/// A section entry of the outline tree.
#[derive(Debug, Clone)]
pub struct TocLeaf {
    /// The entry's identity, `chapter_<i>_section_<j>`.
    pub id: String,
    /// The section's title.
    pub title: String,
}

/// A chapter entry of the outline tree with its section entries.
#[derive(Debug, Clone)]
pub struct TocItem {
    /// The entry's identity, `chapter_<i>`.
    pub id: String,
    /// The chapter's title.
    pub title: String,
    /// The chapter's sections; empty for a leaf.
    pub children: Vec<TocLeaf>,
}

/// The outline tree with its active selection.
#[derive(Debug, Clone)]
pub struct TocState {
    /// The path of the selected entry: empty, a chapter, or a chapter and one
    /// of its sections.
    pub selected: Vec<String>,
    /// The chapter entries.
    pub items: Vec<TocItem>,
}

impl TocState {
    /// An empty outline with nothing selected.
    pub fn new() -> (s: TocState)
        ensures
            s.selected@.len() == 0,
            s.items@.len() == 0,
    {
        TocState { selected: Vec::new(), items: Vec::new() }
    }
}

impl Default for TocState {
    fn default() -> (s: TocState)
        ensures
            s.selected@.len() == 0,
            s.items@.len() == 0,
    {
        TocState::new()
    }
}

/// Mathematical view of the interface mode.
pub enum UiModeView {
    Normal,
    SearchPopup,
    BookmarkPrompt,
    BookPicker,
    Help,
    MetadataPopup,
    ErrorPopup(Seq<char>),
}

impl View for UiMode {
    type V = UiModeView;

    open spec fn view(&self) -> UiModeView {
        match *self {
            UiMode::Normal => UiModeView::Normal,
            UiMode::SearchPopup => UiModeView::SearchPopup,
            UiMode::BookmarkPrompt => UiModeView::BookmarkPrompt,
            UiMode::BookPicker => UiModeView::BookPicker,
            UiMode::Help => UiModeView::Help,
            UiMode::MetadataPopup => UiModeView::MetadataPopup,
            UiMode::ErrorPopup(text) => UiModeView::ErrorPopup(text@),
        }
    }
}

/// Mathematical view of the loading state.
pub enum LoadingStateView {
    Idle,
    LoadingBook { file_path: Seq<char> },
    RenderingChapters { rendered: usize, total: usize },
}

impl View for LoadingState {
    type V = LoadingStateView;

    open spec fn view(&self) -> LoadingStateView {
        match *self {
            LoadingState::Idle => LoadingStateView::Idle,
            LoadingState::LoadingBook { file_path } => LoadingStateView::LoadingBook {
                file_path: file_path@,
            },
            LoadingState::RenderingChapters { rendered, total } => {
                LoadingStateView::RenderingChapters { rendered, total }
            },
        }
    }
}

} // verus!
