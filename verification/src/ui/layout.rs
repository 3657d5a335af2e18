//! What the screen shows, as far as it is text and numbers: the title, the
//! status line, the lines in view, and how a line is cut into plain and
//! highlighted parts.

use vstd::prelude::*;
use vstd::string::*;
use crate::app::{sat_add, AppState, AppView};
use crate::decimal::{decimal, push_decimal, push_decimal_wide};
use crate::text::{
    byte_len, byte_length, char_width, chars_of, extend_chars, fitting_prefix,
    lemma_byte_len_concat, owned, string_of, take_fitting,
};
use crate::toc::{section_at, TocManager};
use crate::types::{LineView, RenderedLine};

verus! {

/// The text of the title bar: the book's title and the chapter's, or the
/// application's name without a book.
pub open spec fn title_of(app: AppState) -> Seq<char> {
    match app.book {
        Some(book) => book.metadata.title@ + " - "@ + (if app@.has_current() {
            app@.current().title
        } else {
            "Unknown Chapter"@
        }),
        None => "EPUB Reader"@,
    }
}

/// The text of the title bar.
pub fn title_text(app: &AppState) -> (text: String)
    ensures
        text@ == title_of(*app),
{
    match &app.book {
        Some(book) => {
            let mut text = book.metadata.title.clone();
            text.append(" - ");
            match app.get_current_chapter() {
                Some(chapter) => {
                    text.append(chapter.title.as_str());
                },
                None => {
                    text.append("Unknown Chapter");
                },
            }
            text
        },
        None => owned("EPUB Reader"),
    }
}

impl AppView {
    /// How far the cursor is through the chapter, in percent of its lines.
    pub open spec fn percent_read(self) -> nat {
        if self.current_lines() > 0 {
            ((self.cursor_line * 100) / (self.current_lines() as int)) as nat
        } else {
            0
        }
    }

    /// The part of the status line that names the section at the cursor,
    /// counted from one; empty outside of sections.
    pub open spec fn section_info(self) -> Seq<char> {
        if self.has_current() {
            match section_at(self.current().sections, self.cursor_line, 0) {
                Some(s) => " | Sec "@ + decimal((s + 1) as nat) + "/"@ + decimal(
                    self.current().sections.len(),
                ),
                None => Seq::empty(),
            }
        } else {
            Seq::empty()
        }
    }

    /// The search query as the status line shows it: cut to 17 bytes with an
    /// ellipsis where it has more than 20.
    pub open spec fn query_display(self) -> Seq<char> {
        if byte_len(self.search_query) > 20 {
            fitting_prefix(self.search_query, 17) + "..."@
        } else {
            self.search_query
        }
    }

    /// The text of the status line: chapter, section and line, counted from
    /// one, with the share read; and the search with the place among its
    /// results, where there are results.
    pub open spec fn status_line(self) -> Seq<char> {
        let position = if self.chapters is Some {
            "Ch "@ + decimal((self.current_chapter + 1) as nat) + "/"@ + decimal(
                self.total_chapters() as nat,
            ) + self.section_info() + "  | Line "@ + decimal((self.cursor_line + 1) as nat)
                + "/"@ + decimal(self.current_lines() as nat) + " ("@ + decimal(
                self.percent_read(),
            ) + "%)"@
        } else {
            "No book loaded"@
        };
        if self.search_results.len() > 0 {
            position + " | [Search: '"@ + self.query_display() + "' "@ + decimal(
                (self.current_search_idx + 1) as nat,
            ) + "/"@ + decimal(self.search_results.len()) + "]"@
        } else {
            position
        }
    }

    /// The lines in view in an area of the given height: from the scroll
    /// offset on, as many as the area has rows, within the chapter.
    pub open spec fn lines_in_view(self, height: u16) -> (usize, usize) {
        let start = if self.viewport.scroll_offset < self.current_lines() {
            self.viewport.scroll_offset
        } else {
            self.current_lines()
        };
        let end = sat_add(start as int, height as int);
        (
            start,
            if end < self.current_lines() {
                end
            } else {
                self.current_lines()
            },
        )
    }

    /// The column of the current search result, where it lies on line `line`
    /// of the chapter shown.
    pub open spec fn current_column(self, line: usize) -> Option<usize> {
        if self.current_search_idx < self.search_results.len() {
            let m = self.search_results[self.current_search_idx as int];
            if m.chapter_idx == self.current_chapter && m.line == line {
                Some(m.column)
            } else {
                None
            }
        } else {
            None
        }
    }
}

/// The text of the status line.
pub fn status_text(app: &AppState) -> (text: String)
    ensures
        text@ == app@.status_line(),
{
    let mut text: Vec<char> = Vec::new();
    if app.book.is_some() {
        extend_chars(&mut text, &chars_of("Ch "));
        push_decimal_wide(&mut text, app.current_chapter as u128 + 1);
        extend_chars(&mut text, &chars_of("/"));
        push_decimal(&mut text, app.total_chapters());
        match app.get_current_chapter() {
            Some(chapter) => {
                match TocManager::find_section_at_line(chapter, app.cursor_line) {
                    Some(s) => {
                        extend_chars(&mut text, &chars_of(" | Sec "));
                        push_decimal_wide(&mut text, s as u128 + 1);
                        extend_chars(&mut text, &chars_of("/"));
                        push_decimal(&mut text, chapter.sections.len());
                    },
                    None => {},
                }
            },
            None => {},
        }
        let ghost so_far = text@;
        assert(so_far == "Ch "@ + decimal((app@.current_chapter + 1) as nat) + "/"@ + decimal(
            app@.total_chapters() as nat,
        ) + app@.section_info());
        extend_chars(&mut text, &chars_of("  | Line "));
        push_decimal_wide(&mut text, app.cursor_line as u128 + 1);
        extend_chars(&mut text, &chars_of("/"));
        let total_lines = app.current_chapter_lines();
        push_decimal(&mut text, total_lines);
        extend_chars(&mut text, &chars_of(" ("));
        let percent: u128 = if total_lines > 0 {
            (app.cursor_line as u128 * 100) / (total_lines as u128)
        } else {
            0
        };
        push_decimal_wide(&mut text, percent);
        extend_chars(&mut text, &chars_of("%)"));
    } else {
        extend_chars(&mut text, &chars_of("No book loaded"));
        assert(text@ == "No book loaded"@);
    }
    if app.search_results.len() > 0 {
        extend_chars(&mut text, &chars_of(" | [Search: '"));
        let query = chars_of(app.search_query.as_str());
        if byte_length(app.search_query.as_str()) > 20 {
            extend_chars(&mut text, &take_fitting(&query, 17));
            extend_chars(&mut text, &chars_of("..."));
        } else {
            extend_chars(&mut text, &query);
        }
        extend_chars(&mut text, &chars_of("' "));
        push_decimal_wide(&mut text, app.current_search_idx as u128 + 1);
        extend_chars(&mut text, &chars_of("/"));
        push_decimal(&mut text, app.search_results.len());
        extend_chars(&mut text, &chars_of("]"));
    }
    assert(text@ =~= app@.status_line());
    string_of(&text)
}

/// The first line in view and the one behind the last, in an area of the
/// given height.
pub fn visible_range(app: &AppState, height: u16) -> (r: (usize, usize))
    ensures
        r == app@.lines_in_view(height),
        r.0 <= r.1 <= app@.current_lines(),
{
    let lines = app.current_chapter_lines();
    let start = if app.viewport.scroll_offset < lines {
        app.viewport.scroll_offset
    } else {
        lines
    };
    let end = start.saturating_add(height as usize);
    (
        start,
        if end < lines {
            end
        } else {
            lines
        },
    )
}

/// A part of a line as it is painted.
#[derive(Debug, Clone, PartialEq)]
pub struct Segment {
    /// The text of the part.
    pub text: String,
    /// Whether the part is a search match.
    pub highlighted: bool,
    /// Whether the part is the current search result.
    pub current: bool,
}

/// Mathematical view of a part of a line.
pub struct SegmentView {
    pub text: Seq<char>,
    pub highlighted: bool,
    pub current: bool,
}

impl View for Segment {
    type V = SegmentView;

    open spec fn view(&self) -> SegmentView {
        SegmentView { text: self.text@, highlighted: self.highlighted, current: self.current }
    }
}

/// The views of a sequence of parts.
pub open spec fn segment_views(parts: Seq<Segment>) -> Seq<SegmentView> {
    Seq::new(parts.len(), |i: int| parts[i]@)
}

/// The characters of `text` whose encoding starts at a byte offset in
/// `from..to`.
pub open spec fn text_between(text: Seq<char>, from: int, to: int) -> Seq<char>
    decreases text.len(),
{
    if text.len() == 0 {
        text
    } else {
        let init = text_between(text.drop_last(), from, to);
        let at = byte_len(text.drop_last());
        if from <= at < to {
            init.push(text.last())
        } else {
            init
        }
    }
}

/// The parts for the first `upto` search spans of a line, and the byte
/// offset behind the last of them. Before each span comes the plain text
/// that lies between it and the span before, if there is any; then the span
/// itself, which is the current result where it starts at `current`.
pub open spec fn span_parts(
    text: Seq<char>,
    spans: Seq<(usize, usize)>,
    current: Option<usize>,
    upto: int,
) -> (Seq<SegmentView>, int)
    decreases upto,
{
    if upto <= 0 {
        (Seq::empty(), 0)
    } else {
        let (parts, last) = span_parts(text, spans, current, upto - 1);
        let (start, end) = spans[upto - 1];
        let plain = if start > last {
            parts.push(
                SegmentView {
                    text: text_between(text, last, start as int),
                    highlighted: false,
                    current: false,
                },
            )
        } else {
            parts
        };
        (
            plain.push(
                SegmentView {
                    text: text_between(text, start as int, end as int),
                    highlighted: true,
                    current: current == Some(start),
                },
            ),
            end as int,
        )
    }
}

/// The parts of a line: its search spans as highlighted parts, the text
/// between and behind them as plain parts. A line without search spans is
/// one plain part.
pub open spec fn line_parts(line: LineView, current: Option<usize>) -> Seq<SegmentView> {
    if line.search_matches.len() == 0 {
        seq![SegmentView { text: line.text, highlighted: false, current: false }]
    } else {
        let (parts, last) = span_parts(
            line.text,
            line.search_matches,
            current,
            line.search_matches.len() as int,
        );
        if last < byte_len(line.text) {
            parts.push(
                SegmentView {
                    text: text_between(line.text, last, byte_len(line.text) as int),
                    highlighted: false,
                    current: false,
                },
            )
        } else {
            parts
        }
    }
}

fn slice_text(chars: &Vec<char>, from: usize, to: usize) -> (out: String)
    ensures
        out@ == text_between(chars@, from as int, to as int),
{
    let mut out: Vec<char> = Vec::new();
    let mut at: u128 = 0;
    let mut i: usize = 0;
    assert(chars@.take(0) =~= Seq::<char>::empty());
    while i < chars.len()
        invariant
            i <= chars.len(),
            at == byte_len(chars@.take(i as int)),
            at <= 4 * i,
            out@ == text_between(chars@.take(i as int), from as int, to as int),
        decreases chars.len() - i,
    {
        let ghost seen = chars@.take(i as int);
        let ghost next = chars@.take(i + 1);
        assert(next.drop_last() == seen);
        assert(next == seen + seq![chars@[i as int]]);
        proof {
            lemma_byte_len_concat(seen, seq![chars@[i as int]]);
        }
        if from as u128 <= at && at < to as u128 {
            out.push(chars[i]);
        }
        at = at + char_width(chars[i]) as u128;
        i += 1;
    }
    assert(chars@.take(chars@.len() as int) == chars@);
    string_of(&out)
}

/// Cuts a line into the parts that are painted alike. `current` is the
/// column of the current search result where it lies on this line.
pub fn line_segments(line: &RenderedLine, current: Option<usize>) -> (parts: Vec<Segment>)
    ensures
        segment_views(parts@) == line_parts(line@, current),
{
    let mut parts: Vec<Segment> = Vec::new();
    if line.search_matches.len() == 0 {
        let whole = Segment { text: line.text.clone(), highlighted: false, current: false };
        let ghost wv = whole@;
        parts.push(whole);
        assert(segment_views(parts@) =~= seq![wv]);
        return parts;
    }
    let chars = chars_of(line.text.as_str());
    let total = byte_length(line.text.as_str());
    let mut last: usize = 0;
    let mut k: usize = 0;
    assert(segment_views(parts@) =~= span_parts(line.text@, line.search_matches@, current, 0).0);
    while k < line.search_matches.len()
        invariant
            k <= line.search_matches.len(),
            chars@ == line.text@,
            (segment_views(parts@), last as int) == span_parts(
                line.text@,
                line.search_matches@,
                current,
                k as int,
            ),
        decreases line.search_matches.len() - k,
    {
        let (start, end) = line.search_matches[k];
        if start > last {
            let ghost before = segment_views(parts@);
            let plain = Segment {
                text: slice_text(&chars, last, start),
                highlighted: false,
                current: false,
            };
            let ghost pv = plain@;
            parts.push(plain);
            assert(segment_views(parts@) =~= before.push(pv));
        }
        let is_current = match current {
            Some(c) => c == start,
            None => false,
        };
        let ghost before = segment_views(parts@);
        let hit = Segment {
            text: slice_text(&chars, start, end),
            highlighted: true,
            current: is_current,
        };
        let ghost hv = hit@;
        parts.push(hit);
        assert(segment_views(parts@) =~= before.push(hv));
        last = end;
        k += 1;
    }
    if last < total {
        let ghost before = segment_views(parts@);
        let rest = Segment {
            text: slice_text(&chars, last, total),
            highlighted: false,
            current: false,
        };
        let ghost rv = rest@;
        parts.push(rest);
        assert(segment_views(parts@) =~= before.push(rv));
    }
    parts
}

/// The parts of line `line_idx` of the chapter shown; none where the chapter
/// has no such line.
pub fn content_segments(app: &AppState, line_idx: usize) -> (parts: Vec<Segment>)
    ensures
        line_idx < app@.current_lines() ==> segment_views(parts@) == line_parts(
            app@.current().content_lines[line_idx as int],
            app@.current_column(line_idx),
        ),
        line_idx >= app@.current_lines() ==> parts.len() == 0,
{
    match app.get_current_chapter() {
        Some(chapter) => {
            if line_idx < chapter.content_lines.len() {
                let current = if app.current_search_idx < app.search_results.len() {
                    let m = &app.search_results[app.current_search_idx];
                    if m.chapter_idx == app.current_chapter && m.line == line_idx {
                        Some(m.column)
                    } else {
                        None
                    }
                } else {
                    None
                };
                assert(chapter@.content_lines[line_idx as int]
                    == chapter.content_lines[line_idx as int]@);
                line_segments(&chapter.content_lines[line_idx], current)
            } else {
                Vec::new()
            }
        },
        None => Vec::new(),
    }
}

} // verus!
