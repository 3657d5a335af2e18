//! Full-text regex search over the rendered lines of a book: matching,
//! result navigation and highlight spans.

use vstd::prelude::*;
use vstd::string::*;
use crate::text::byte_len;
use crate::types::{Book, Chapter, ChapterView, LineView, SearchMatch, Viewport};

verus! {

/// `regex::Regex`, a compiled pattern. Its inside is not looked at.
#[verifier::external_type_specification]
#[verifier::external_body]
pub struct ExRegex(regex::Regex);

/// `regex::Error`, what compiling a pattern fails with. Its inside is not
/// looked at.
#[verifier::external_type_specification]
#[verifier::external_body]
pub struct ExRegexError(regex::Error);

/// `std::time::Instant`, a point in time. Its inside is not looked at.
#[verifier::external_type_specification]
#[verifier::external_body]
pub struct ExInstant(std::time::Instant);

/// The most matches that one search collects.
pub const MAX_SEARCH_RESULTS: usize = 1000;

/// The time budget of one search, in nanoseconds: thirty seconds.
pub const SEARCH_TIMEOUT_NANOS: u128 = 30_000_000_000;

/// Whether `Regex::new` accepts `pattern`.
pub uninterp spec fn pattern_accepted(pattern: Seq<char>) -> bool;

/// The byte ranges `(start, end)` of the successive non-overlapping matches
/// that `Regex::find_iter` yields for `pattern` in `text`.
pub uninterp spec fn pattern_matches(pattern: Seq<char>, text: Seq<char>) -> Seq<(usize, usize)>;

/// A compiled search pattern together with its source. Values are made by
/// compiling only, so the compiled form always belongs to the source.
pub struct SearchPattern {
    source: String,
    regex: regex::Regex,
}

impl SearchPattern {
    /// The pattern as it was written.
    pub closed spec fn source(&self) -> Seq<char> {
        self.source@
    }
}

/// Why a search gave no result.
#[derive(Debug, Clone, PartialEq)]
pub enum SearchError {
    /// The pattern is no valid regular expression; the text says why.
    InvalidPattern(String),
    /// The time budget ran out before anything was found.
    Timeout,
}

impl SearchError {
    /// The message shown to the reader.
    pub fn message(&self) -> (text: String)
        ensures
            self is Timeout ==> text@ == "Search cancelled (timeout)"@,
            self is InvalidPattern ==> text@ == "Invalid regex pattern: "@ + self->InvalidPattern_0@,
    {
        match self {
            SearchError::InvalidPattern(why) => {
                let mut text = crate::text::owned("Invalid regex pattern: ");
                text.append(why.as_str());
                text
            },
            SearchError::Timeout => crate::text::owned("Search cancelled (timeout)"),
        }
    }
}

/// Calls `Regex::new`. The pattern compiles exactly where `pattern_accepted`
/// says so, and the compiled pattern is kept with its source.
#[verifier::external_body]
fn compile(pattern: &str) -> (r: Result<SearchPattern, regex::Error>)
    ensures
        r is Ok <==> pattern_accepted(pattern@),
        r is Ok ==> r->Ok_0.source() == pattern@,
{
    regex::Regex::new(pattern).map(|regex| SearchPattern { source: pattern.to_string(), regex })
}

/// Formats a `regex::Error` with its `Display` impl. Nothing is claimed of
/// the text.
#[verifier::external_body]
fn error_text(error: &regex::Error) -> String {
    error.to_string()
}

/// Calls `Regex::find_iter` and hands out `Match::start` and `Match::end` of
/// every match. The ranges are the named ones; each has its start at or
/// before its end, and its end within the text, as `Match` documents.
#[verifier::external_body]
fn find_spans(pattern: &SearchPattern, text: &str) -> (spans: Vec<(usize, usize)>)
    ensures
        spans@ == pattern_matches(pattern.source(), text@),
        forall|k: int|
            0 <= k < spans.len() ==> (#[trigger] spans[k]).0 <= spans[k].1 <= byte_len(text@),
{
    pattern.regex.find_iter(text).map(|m| (m.start(), m.end())).collect()
}

/// Calls `Instant::now`.
#[verifier::external_body]
fn clock_start() -> std::time::Instant {
    std::time::Instant::now()
}

/// Calls `Instant::elapsed`. Nothing is claimed of the time.
#[verifier::external_body]
fn elapsed(start: &std::time::Instant) -> core::time::Duration {
    start.elapsed()
}

/// Calls `Duration::as_nanos`. Nothing is claimed of the number.
#[verifier::external_body]
fn as_nanos(duration: &core::time::Duration) -> u128 {
    duration.as_nanos()
}

/// The matches of `pattern` on one line, as search results.
pub open spec fn line_hits(pattern: Seq<char>, chapter_idx: usize, line: usize, text: Seq<char>) -> Seq<
    SearchMatch,
> {
    let found = pattern_matches(pattern, text);
    Seq::new(
        found.len(),
        |k: int|
            SearchMatch {
                chapter_idx,
                line,
                column: found[k].0,
                match_length: (found[k].1 - found[k].0) as usize,
            },
    )
}

/// The matches in the first `upto` lines of a chapter, in line order.
pub open spec fn hits_in_lines(
    pattern: Seq<char>,
    chapter_idx: usize,
    lines: Seq<LineView>,
    upto: int,
) -> Seq<SearchMatch>
    decreases upto,
{
    if upto <= 0 {
        Seq::empty()
    } else {
        hits_in_lines(pattern, chapter_idx, lines, upto - 1) + line_hits(
            pattern,
            chapter_idx,
            (upto - 1) as usize,
            lines[upto - 1].text,
        )
    }
}

/// The matches in the first `upto` chapters, in document order.
pub open spec fn hits_in_chapters(pattern: Seq<char>, chapters: Seq<ChapterView>, upto: int) -> Seq<
    SearchMatch,
>
    decreases upto,
{
    if upto <= 0 {
        Seq::empty()
    } else {
        hits_in_chapters(pattern, chapters, upto - 1) + hits_in_lines(
            pattern,
            (upto - 1) as usize,
            chapters[upto - 1].content_lines,
            chapters[upto - 1].content_lines.len() as int,
        )
    }
}

/// What a search yields. `stop` is the chapter before which the time budget
/// was found exceeded, or the number of chapters where it never was. Where
/// the first `stop` chapters hold the maximum number of matches or more, the
/// result is the first that many. Else, where the budget ran out, it is a
/// timeout with nothing collected and the matches collected otherwise. Else
/// it is every match of the book, in document order.
pub open spec fn search_outcome(pattern: Seq<char>, chapters: Seq<ChapterView>, stop: int) -> Result<
    Seq<SearchMatch>,
    (),
> {
    let collected = hits_in_chapters(pattern, chapters, stop);
    if collected.len() >= MAX_SEARCH_RESULTS {
        Ok(collected.take(MAX_SEARCH_RESULTS as int))
    } else if stop < chapters.len() && collected.len() == 0 {
        Err(())
    } else {
        Ok(collected)
    }
}

/// Whether `r` is the outcome `expected`.
pub open spec fn is_outcome(r: Result<Vec<SearchMatch>, SearchError>, expected: Result<
    Seq<SearchMatch>,
    (),
>) -> bool {
    match expected {
        Ok(found) => r is Ok && r->Ok_0@ == found,
        Err(_) => r is Err && r->Err_0 is Timeout,
    }
}

/// Whether every match addresses a line of the book and lies within its
/// text.
pub open spec fn matches_fit(chapters: Seq<ChapterView>, matches: Seq<SearchMatch>) -> bool {
    forall|k: int|
        0 <= k < matches.len() ==> {
            let m = #[trigger] matches[k];
            &&& m.chapter_idx < chapters.len()
            &&& m.line < chapters[m.chapter_idx as int].content_lines.len()
            &&& m.column + m.match_length <= usize::MAX
            &&& m.column + m.match_length <= byte_len(
                chapters[m.chapter_idx as int].content_lines[m.line as int].text,
            )
        }
}

/// The matches on the lines of a chapter only grow with the lines.
pub proof fn lemma_hits_in_lines_prefix(
    pattern: Seq<char>,
    chapter_idx: usize,
    lines: Seq<LineView>,
    a: int,
    b: int,
)
    requires
        0 <= a <= b,
    ensures
        hits_in_lines(pattern, chapter_idx, lines, a).len() <= hits_in_lines(
            pattern,
            chapter_idx,
            lines,
            b,
        ).len(),
        hits_in_lines(pattern, chapter_idx, lines, b).take(
            hits_in_lines(pattern, chapter_idx, lines, a).len() as int,
        ) == hits_in_lines(pattern, chapter_idx, lines, a),
    decreases b - a,
{
    let short = hits_in_lines(pattern, chapter_idx, lines, a);
    if a < b {
        lemma_hits_in_lines_prefix(pattern, chapter_idx, lines, a, b - 1);
        let mid = hits_in_lines(pattern, chapter_idx, lines, b - 1);
        let long = hits_in_lines(pattern, chapter_idx, lines, b);
        assert(long.take(short.len() as int) =~= mid.take(short.len() as int));
    } else {
        assert(short.take(short.len() as int) =~= short);
    }
}

/// The matches of the first chapters only grow with the chapters.
pub proof fn lemma_hits_in_chapters_prefix(
    pattern: Seq<char>,
    chapters: Seq<ChapterView>,
    a: int,
    b: int,
)
    requires
        0 <= a <= b,
    ensures
        hits_in_chapters(pattern, chapters, a).len() <= hits_in_chapters(pattern, chapters, b).len(),
        hits_in_chapters(pattern, chapters, b).take(
            hits_in_chapters(pattern, chapters, a).len() as int,
        ) == hits_in_chapters(pattern, chapters, a),
    decreases b - a,
{
    let short = hits_in_chapters(pattern, chapters, a);
    if a < b {
        lemma_hits_in_chapters_prefix(pattern, chapters, a, b - 1);
        let mid = hits_in_chapters(pattern, chapters, b - 1);
        let long = hits_in_chapters(pattern, chapters, b);
        assert(long.take(short.len() as int) =~= mid.take(short.len() as int));
    } else {
        assert(short.take(short.len() as int) =~= short);
    }
}

/// The index that follows `current` in a cycle of `len` results.
pub open spec fn next_index(len: int, current: int) -> int {
    (current + 1) % len
}

/// The index that precedes `current`: the last one before the first, else
/// one less.
pub open spec fn previous_index(len: int, current: int) -> int {
    if current == 0 {
        len - 1
    } else {
        current - 1
    }
}

/// The index reached from `current` by going to the next result `times`
/// times.
pub open spec fn advance(len: int, current: int, times: nat) -> int
    decreases times,
{
    if times == 0 {
        current
    } else {
        next_index(len, advance(len, current, (times - 1) as nat))
    }
}

/// The scroll offset that centres `line` in a viewport of the given height,
/// kept at zero or above.
pub open spec fn centered_offset(line: usize, height: u16) -> usize {
    if line >= height / 2 {
        (line - height / 2) as usize
    } else {
        0
    }
}

/// Going forward `times` times from the first result, with `times` at most
/// the number of results, reaches result `times`, counted cyclically.
proof fn lemma_advance_from_first(len: int, times: nat)
    requires
        len > 0,
        times <= len,
    ensures
        advance(len, 0, times) == times as int % len,
    decreases times,
{
    if times > 0 {
        lemma_advance_from_first(len, (times - 1) as nat);
        assert((times - 1) % len == times - 1) by (nonlinear_arith)
            requires
                0 <= times - 1 < len,
        ;
    } else {
        assert(0int % len == 0) by (nonlinear_arith)
            requires
                len > 0,
        ;
    }
}

/// Navigation is cyclic. In a result set of `len` results, going to the next
/// result `len` times from the first returns to the first, and going to the
/// previous result from the first yields the last.
pub proof fn lemma_navigation_cyclic(len: int)
    requires
        len > 0,
    ensures
        advance(len, 0, len as nat) == 0,
        previous_index(len, 0) == len - 1,
{
    lemma_advance_from_first(len, len as nat);
    assert(len % len == 0) by (nonlinear_arith)
        requires
            len > 0,
    ;
}

/// A line without search spans.
pub open spec fn line_cleared(line: LineView) -> LineView {
    LineView {
        text: line.text,
        style: line.style,
        search_matches: Seq::empty(),
        inline_styles: line.inline_styles,
        syntax_colors: line.syntax_colors,
    }
}

/// A chapter whose lines have no search spans.
pub open spec fn chapter_cleared(chapter: ChapterView) -> ChapterView {
    ChapterView {
        title: chapter.title,
        sections: chapter.sections,
        content_lines: Seq::new(
            chapter.content_lines.len(),
            |l: int| line_cleared(chapter.content_lines[l]),
        ),
        file_path: chapter.file_path,
    }
}

/// The chapters without any search span.
pub open spec fn cleared(chapters: Seq<ChapterView>) -> Seq<ChapterView> {
    Seq::new(chapters.len(), |c: int| chapter_cleared(chapters[c]))
}

/// The chapters with `span` appended to the search spans of line `l` of
/// chapter `c`.
pub open spec fn with_span(chapters: Seq<ChapterView>, c: int, l: int, span: (usize, usize)) -> Seq<
    ChapterView,
> {
    let chapter = chapters[c];
    let line = chapter.content_lines[l];
    chapters.update(
        c,
        ChapterView {
            title: chapter.title,
            sections: chapter.sections,
            content_lines: chapter.content_lines.update(
                l,
                LineView {
                    text: line.text,
                    style: line.style,
                    search_matches: line.search_matches.push(span),
                    inline_styles: line.inline_styles,
                    syntax_colors: line.syntax_colors,
                },
            ),
            file_path: chapter.file_path,
        },
    )
}

/// The chapters with the span of `m` appended to the line that `m`
/// addresses; unchanged where there is no such line, or the span would end
/// beyond the largest offset.
pub open spec fn with_match(chapters: Seq<ChapterView>, m: SearchMatch) -> Seq<ChapterView> {
    if m.chapter_idx < chapters.len() && m.line < chapters[m.chapter_idx as int].content_lines.len()
        && m.column + m.match_length <= usize::MAX {
        with_span(
            chapters,
            m.chapter_idx as int,
            m.line as int,
            (m.column, (m.column + m.match_length) as usize),
        )
    } else {
        chapters
    }
}

/// The chapters with every earlier search span removed and the spans of the
/// first `upto` matches applied, in order.
pub open spec fn highlighted(chapters: Seq<ChapterView>, matches: Seq<SearchMatch>, upto: int) -> Seq<
    ChapterView,
>
    decreases upto,
{
    if upto <= 0 {
        cleared(chapters)
    } else {
        with_match(highlighted(chapters, matches, upto - 1), matches[upto - 1])
    }
}

/// Whether every search span of every line lies within the line's text.
pub open spec fn search_spans_in_bounds(chapters: Seq<ChapterView>) -> bool {
    forall|c: int, l: int, k: int|
        0 <= c < chapters.len() && 0 <= l < chapters[c].content_lines.len() && 0 <= k
            < chapters[c].content_lines[l].search_matches.len() ==> {
            let span = #[trigger] chapters[c].content_lines[l].search_matches[k];
            span.0 <= span.1 <= byte_len(chapters[c].content_lines[l].text)
        }
}

/// Applying highlights changes search spans only: the chapters and lines
/// stay as many, and every line keeps its text.
pub proof fn lemma_highlighted_keeps_text(
    chapters: Seq<ChapterView>,
    matches: Seq<SearchMatch>,
    upto: int,
)
    requires
        0 <= upto <= matches.len(),
    ensures
        highlighted(chapters, matches, upto).len() == chapters.len(),
        forall|c: int|
            0 <= c < chapters.len() ==> (#[trigger] highlighted(
                chapters,
                matches,
                upto,
            )[c]).content_lines.len() == chapters[c].content_lines.len(),
        forall|c: int, l: int|
            0 <= c < chapters.len() && 0 <= l < chapters[c].content_lines.len() ==> (
            #[trigger] highlighted(chapters, matches, upto)[c].content_lines[l]).text
                == chapters[c].content_lines[l].text,
    decreases upto,
{
    if upto > 0 {
        lemma_highlighted_keeps_text(chapters, matches, upto - 1);
    }
}

/// Matches that fit the lines they address give highlights within bounds:
/// after applying them, every search span of every line lies within the
/// line's text.
pub proof fn lemma_fresh_highlights_in_bounds(
    chapters: Seq<ChapterView>,
    matches: Seq<SearchMatch>,
    upto: int,
)
    requires
        0 <= upto <= matches.len(),
        matches_fit(chapters, matches),
    ensures
        search_spans_in_bounds(highlighted(chapters, matches, upto)),
    decreases upto,
{
    if upto > 0 {
        lemma_fresh_highlights_in_bounds(chapters, matches, upto - 1);
        lemma_highlighted_keeps_text(chapters, matches, upto - 1);
        let before = highlighted(chapters, matches, upto - 1);
        let m = matches[upto - 1];
        let after = highlighted(chapters, matches, upto);
        assert forall|c: int, l: int, k: int|
            0 <= c < after.len() && 0 <= l < after[c].content_lines.len() && 0 <= k
                < after[c].content_lines[l].search_matches.len() implies ({
            let span = #[trigger] after[c].content_lines[l].search_matches[k];
            span.0 <= span.1 <= byte_len(after[c].content_lines[l].text)
        }) by {
            assert(before.len() == chapters.len());
            assert(before[c].content_lines.len() == chapters[c].content_lines.len());
            assert(before[c].content_lines[l].text == chapters[c].content_lines[l].text);
            if c == m.chapter_idx && l == m.line {
                assert(after[c].content_lines[l].text == before[c].content_lines[l].text);
                if k < before[c].content_lines[l].search_matches.len() {
                    assert(after[c].content_lines[l].search_matches[k]
                        == before[c].content_lines[l].search_matches[k]);
                } else {
                    assert(after[c].content_lines[l].search_matches[k] == (
                        m.column,
                        (m.column + m.match_length) as usize,
                    ));
                }
            } else if c == m.chapter_idx {
                assert(after[c].content_lines[l] == before[c].content_lines[l]);
                assert(before[c].content_lines[l].search_matches[k]
                    == after[c].content_lines[l].search_matches[k]);
            } else {
                assert(after[c] == before[c]);
                assert(before[c].content_lines[l].search_matches[k]
                    == after[c].content_lines[l].search_matches[k]);
            }
        }
    }
}

/// Regex search across the rendered lines of a book.
pub struct SearchEngine;

impl SearchEngine {
    /// Compiles `query`. It compiles exactly where the regex engine accepts
    /// it; the error carries the engine's message.
    pub fn compile(query: &str) -> (r: Result<SearchPattern, SearchError>)
        ensures
            r is Ok <==> pattern_accepted(query@),
            r is Ok ==> r->Ok_0.source() == query@,
            r is Err ==> r->Err_0 is InvalidPattern,
    {
        match compile(query) {
            Ok(p) => Ok(p),
            Err(e) => Err(SearchError::InvalidPattern(error_text(&e))),
        }
    }

    /// Scans the chapters in order. Before each chapter the scan stops where
    /// the chapter's index is `stop` or, with a clock, the budget is
    /// exceeded. Returns the outcome and the chapter before which it stopped.
    fn scan(book: &Book, pattern: &SearchPattern, stop: usize, clock: Option<
        &std::time::Instant,
    >) -> (r: (Result<Vec<SearchMatch>, SearchError>, usize))
        ensures
            r.1 <= book.chapters.len(),
            clock is None ==> r.1 == (if stop < book.chapters.len() {
                stop
            } else {
                book.chapters.len()
            }),
            is_outcome(r.0, search_outcome(pattern.source(), book.chapters_view(), r.1 as int)),
            r.0 is Ok ==> matches_fit(book.chapters_view(), r.0->Ok_0@),
    {
        let ghost p = pattern.source();
        let ghost cv = book.chapters_view();
        let n = book.chapters.len();
        let mut results: Vec<SearchMatch> = Vec::new();
        let mut c: usize = 0;
        while c < n
            invariant
                c <= n,
                n == book.chapters.len(),
                p == pattern.source(),
                cv == book.chapters_view(),
                results@ == hits_in_chapters(p, cv, c as int),
                results.len() < MAX_SEARCH_RESULTS,
                matches_fit(cv, results@),
                clock is None ==> c <= stop,
            decreases n - c,
        {
            let expired = c >= stop || match clock {
                Some(start) => {
                    let spent = elapsed(start);
                    as_nanos(&spent) > SEARCH_TIMEOUT_NANOS
                },
                None => false,
            };
            if expired {
                if results.len() == 0 {
                    return (Err(SearchError::Timeout), c);
                }
                return (Ok(results), c);
            }
            let chapter = &book.chapters[c];
            let ghost lv = cv[c as int].content_lines;
            let ghost base = results@;
            let mut l: usize = 0;
            while l < chapter.content_lines.len()
                invariant
                    c < n,
                    c < stop,
                    n == book.chapters.len(),
                    p == pattern.source(),
                    cv == book.chapters_view(),
                    *chapter == book.chapters[c as int],
                    lv == cv[c as int].content_lines,
                    lv.len() == chapter.content_lines.len(),
                    l <= chapter.content_lines.len(),
                    base == hits_in_chapters(p, cv, c as int),
                    results@ == base + hits_in_lines(p, c, lv, l as int),
                    results.len() < MAX_SEARCH_RESULTS,
                    matches_fit(cv, results@),
                decreases chapter.content_lines.len() - l,
            {
                let line = &chapter.content_lines[l];
                assert(lv[l as int] == line@);
                let spans = find_spans(pattern, line.text.as_str());
                let ghost before = results@;
                let ghost here = line_hits(p, c, l, line.text@);
                let mut k: usize = 0;
                while k < spans.len()
                    invariant
                        c < n,
                        c < stop,
                        n == book.chapters.len(),
                        p == pattern.source(),
                        l < lv.len(),
                        k <= spans.len(),
                        cv == book.chapters_view(),
                        lv == cv[c as int].content_lines,
                        n == cv.len(),
                        lv[l as int].text == line.text@,
                        spans@ == pattern_matches(p, line.text@),
                        forall|j: int|
                            0 <= j < spans.len() ==> (#[trigger] spans[j]).0 <= spans[j].1
                                <= byte_len(line.text@),
                        here == line_hits(p, c, l, line.text@),
                        before == base + hits_in_lines(p, c, lv, l as int),
                        base == hits_in_chapters(p, cv, c as int),
                        results@ == before + here.take(k as int),
                        results.len() < MAX_SEARCH_RESULTS,
                        matches_fit(cv, results@),
                    decreases spans.len() - k,
                {
                    let span = spans[k];
                    let hit = SearchMatch {
                        chapter_idx: c,
                        line: l,
                        column: span.0,
                        match_length: span.1 - span.0,
                    };
                    assert(hit == here[k as int]);
                    results.push(hit);
                    assert(here.take(k + 1) == here.take(k as int).push(here[k as int]));
                    assert(results@ == before + here.take(k + 1));
                    if results.len() >= MAX_SEARCH_RESULTS {
                        let reach: usize = if stop < n {
                            stop
                        } else {
                            n
                        };
                        proof {
                            let full = hits_in_chapters(p, cv, c + 1);
                            let whole = hits_in_chapters(p, cv, reach as int);
                            let in_chapter = hits_in_lines(p, c, lv, lv.len() as int);
                            let sofar = hits_in_lines(p, c, lv, l as int);
                            let upto_line = hits_in_lines(p, c, lv, l + 1);
                            lemma_hits_in_lines_prefix(p, c, lv, l + 1, lv.len() as int);
                            lemma_hits_in_chapters_prefix(p, cv, c + 1, reach as int);
                            assert(upto_line == sofar + here);
                            assert(full == base + in_chapter);
                            assert(results@.len() == MAX_SEARCH_RESULTS);
                            assert(results@.len() <= base.len() + upto_line.len());
                            assert forall|j: int| 0 <= j < results@.len() implies results@[j]
                                == whole[j] by {
                                assert(j < full.len());
                                assert(whole.take(full.len() as int)[j] == whole[j]);
                                if j >= base.len() {
                                    let q = j - base.len();
                                    assert(in_chapter.take(upto_line.len() as int)[q]
                                        == in_chapter[q]);
                                    if q >= sofar.len() {
                                        assert(upto_line[q] == here[q - sofar.len()]);
                                    } else {
                                        assert(upto_line[q] == sofar[q]);
                                    }
                                }
                            }
                            assert(results@ =~= whole.take(MAX_SEARCH_RESULTS as int));
                            assert(whole.len() >= full.len() >= MAX_SEARCH_RESULTS);
                        }
                        return (Ok(results), reach);
                    }
                    k += 1;
                }
                assert(here.take(here.len() as int) == here);
                assert(results@ == base + hits_in_lines(p, c, lv, l + 1)) by {
                    assert(results@ =~= base + (hits_in_lines(p, c, lv, l as int) + here));
                }
                l += 1;
            }
            c += 1;
        }
        (Ok(results), n)
    }

    /// Searches the first `stop` chapters of the book, or all where it has no
    /// more, as a search does whose time budget is found exceeded before
    /// chapter `stop`.
    pub fn search_until(book: &Book, pattern: &SearchPattern, stop: usize) -> (r: Result<
        Vec<SearchMatch>,
        SearchError,
    >)
        ensures
            is_outcome(
                r,
                search_outcome(
                    pattern.source(),
                    book.chapters_view(),
                    if stop < book.chapters.len() {
                        stop as int
                    } else {
                        book.chapters.len() as int
                    },
                ),
            ),
            r is Ok ==> matches_fit(book.chapters_view(), r->Ok_0@),
    {
        SearchEngine::scan(book, pattern, stop, None).0
    }

    /// Searches every line of every chapter for `query`, a regular
    /// expression. A query that does not compile gives `InvalidPattern`.
    /// Else the chapters are scanned in order until the maximum number of
    /// matches is reached or, checked before each chapter, the time budget is
    /// exceeded: the result is the outcome for the chapter at which the scan
    /// stopped. Every match returned lies within its line.
    pub fn search(book: &Book, query: &str) -> (r: Result<Vec<SearchMatch>, SearchError>)
        ensures
            !pattern_accepted(query@) ==> r is Err && r->Err_0 is InvalidPattern,
            pattern_accepted(query@) ==> exists|stop: int|
                0 <= stop <= book.chapters.len() && is_outcome(
                    r,
                    #[trigger] search_outcome(query@, book.chapters_view(), stop),
                ),
            r is Ok ==> matches_fit(book.chapters_view(), r->Ok_0@),
    {
        let pattern = match SearchEngine::compile(query) {
            Ok(p) => p,
            Err(e) => {
                return Err(e);
            },
        };
        let start = clock_start();
        let (r, stop) = SearchEngine::scan(book, &pattern, book.chapters.len(), Some(&start));
        assert(is_outcome(r, search_outcome(query@, book.chapters_view(), stop as int)));
        r
    }

    /// The position to jump to for result `idx`: its index, chapter and line,
    /// and the scroll offset that centres the line. `None` where there is no
    /// such result.
    pub fn get_jump_position(results: &[SearchMatch], idx: usize, viewport: &Viewport) -> (r:
        Option<(usize, usize, usize, usize)>)
        ensures
            r is Some <==> idx < results@.len(),
            r is Some ==> r->Some_0 == (
                idx,
                results@[idx as int].chapter_idx,
                results@[idx as int].line,
                centered_offset(results@[idx as int].line, viewport.height),
            ),
    {
        if idx < results.len() {
            let result = &results[idx];
            let half: usize = (viewport.height / 2) as usize;
            let scroll_offset = if result.line >= half {
                result.line - half
            } else {
                0
            };
            Some((idx, result.chapter_idx, result.line, scroll_offset))
        } else {
            None
        }
    }

    /// The position of the result after `current_idx`, cyclically. `None`
    /// where there are no results.
    pub fn next_result(results: &[SearchMatch], current_idx: usize, viewport: &Viewport) -> (r:
        Option<(usize, usize, usize, usize)>)
        ensures
            r is Some <==> results@.len() > 0,
            r is Some ==> {
                let idx = next_index(results@.len() as int, current_idx as int);
                &&& 0 <= idx < results@.len()
                &&& r->Some_0 == (
                    idx as usize,
                    results@[idx].chapter_idx,
                    results@[idx].line,
                    centered_offset(results@[idx].line, viewport.height),
                )
            },
    {
        if results.len() == 0 {
            return None;
        }
        let len = results.len();
        let new_idx = (current_idx % len + 1) % len;
        assert(new_idx == (current_idx + 1) % (len as int)) by (nonlinear_arith)
            requires
                len > 0,
                new_idx == ((current_idx % len) + 1) % (len as int),
        ;
        SearchEngine::get_jump_position(results, new_idx, viewport)
    }

    /// The position of the result before `current_idx`: the last one where
    /// `current_idx` is the first. `None` where there are no results or the
    /// index before `current_idx` is none of theirs.
    pub fn previous_result(results: &[SearchMatch], current_idx: usize, viewport: &Viewport) -> (r:
        Option<(usize, usize, usize, usize)>)
        ensures
            r is Some <==> 0 <= previous_index(results@.len() as int, current_idx as int)
                < results@.len(),
            r is Some ==> {
                let idx = previous_index(results@.len() as int, current_idx as int);
                r->Some_0 == (
                    idx as usize,
                    results@[idx].chapter_idx,
                    results@[idx].line,
                    centered_offset(results@[idx].line, viewport.height),
                )
            },
    {
        if results.len() == 0 {
            return None;
        }
        let new_idx = if current_idx == 0 {
            results.len() - 1
        } else {
            current_idx - 1
        };
        SearchEngine::get_jump_position(results, new_idx, viewport)
    }

    /// Removes the search spans of the lines of one chapter.
    fn clear_chapter(chapter: &mut Chapter)
        ensures
            final(chapter)@ == chapter_cleared(old(chapter)@),
    {
        let ghost lines = old(chapter)@.content_lines;
        let mut l: usize = 0;
        while l < chapter.content_lines.len()
            invariant
                lines == old(chapter)@.content_lines,
                l <= chapter.content_lines.len(),
                chapter.content_lines.len() == lines.len(),
                chapter.title == old(chapter).title,
                chapter.file_path == old(chapter).file_path,
                chapter.sections == old(chapter).sections,
                forall|j: int|
                    0 <= j < l ==> #[trigger] chapter.content_lines[j]@ == line_cleared(lines[j]),
                forall|j: int|
                    l <= j < lines.len() ==> #[trigger] chapter.content_lines[j]@ == lines[j],
            decreases chapter.content_lines.len() - l,
        {
            let ghost before = chapter.content_lines@;
            chapter.content_lines[l].search_matches = Vec::new();
            assert(chapter.content_lines[l as int]@ == line_cleared(before[l as int]@));
            assert(forall|j: int|
                0 <= j < before.len() && j != l ==> chapter.content_lines[j] == before[j]);
            l += 1;
        }
        assert(chapter@.content_lines =~= chapter_cleared(old(chapter)@).content_lines);
    }

    /// Removes the search spans of every line.
    pub fn clear_highlights(book: &mut Book)
        ensures
            final(book).chapters_view() == cleared(old(book).chapters_view()),
            final(book).metadata == old(book).metadata,
    {
        let ghost start = book.chapters_view();
        let mut c: usize = 0;
        while c < book.chapters.len()
            invariant
                c <= book.chapters.len(),
                book.metadata == old(book).metadata,
                book.chapters.len() == start.len(),
                start == old(book).chapters_view(),
                forall|i: int|
                    0 <= i < c ==> #[trigger] book.chapters[i]@ == chapter_cleared(start[i]),
                forall|i: int| c <= i < start.len() ==> #[trigger] book.chapters[i]@ == start[i],
            decreases book.chapters.len() - c,
        {
            SearchEngine::clear_chapter(&mut book.chapters[c]);
            c += 1;
        }
        assert(book.chapters_view() =~= cleared(start));
    }

    /// Appends `span` to the search spans of line `l` of chapter `c`.
    fn push_span(book: &mut Book, c: usize, l: usize, span: (usize, usize))
        requires
            c < old(book).chapters.len(),
            l < old(book).chapters[c as int].content_lines.len(),
        ensures
            final(book).chapters_view() == with_span(
                old(book).chapters_view(),
                c as int,
                l as int,
                span,
            ),
            final(book).metadata == old(book).metadata,
    {
        let ghost before = book.chapters_view();
        book.chapters[c].content_lines[l].search_matches.push(span);
        let ghost goal = with_span(before, c as int, l as int, span);
        assert(book.chapters[c as int]@.content_lines =~= goal[c as int].content_lines);
        assert(book.chapters_view() =~= goal);
    }

    /// Replaces the search spans of the book by those of `results`: every
    /// span is removed, then each match appends `(column, column + length)`
    /// to the line it addresses. A match that addresses no line of the book
    /// adds nothing.
    pub fn apply_highlights(book: &mut Book, results: &[SearchMatch])
        ensures
            final(book).chapters_view() == highlighted(
                old(book).chapters_view(),
                results@,
                results@.len() as int,
            ),
            final(book).metadata == old(book).metadata,
    {
        let ghost start = book.chapters_view();
        SearchEngine::clear_highlights(book);
        let mut k: usize = 0;
        while k < results.len()
            invariant
                k <= results@.len(),
                start == old(book).chapters_view(),
                book.metadata == old(book).metadata,
                book.chapters_view() == highlighted(start, results@, k as int),
            decreases results@.len() - k,
        {
            let m = results[k];
            if m.chapter_idx < book.chapters.len() && m.line
                < book.chapters[m.chapter_idx].content_lines.len() && m.match_length <= usize::MAX
                - m.column {
                SearchEngine::push_span(
                    book,
                    m.chapter_idx,
                    m.line,
                    (m.column, m.column + m.match_length),
                );
            }
            k += 1;
        }
    }

    /// Highlights matches that were found in the lines as they are now. Such
    /// matches fit their lines, so every highlight lies within its line, and
    /// the matches still fit afterwards. The reader's state highlights
    /// through this function only: matches from before a change of the lines
    /// cannot be passed.
    pub fn apply_fresh_highlights(book: &mut Book, results: &[SearchMatch])
        requires
            matches_fit(old(book).chapters_view(), results@),
        ensures
            final(book).chapters_view() == highlighted(
                old(book).chapters_view(),
                results@,
                results@.len() as int,
            ),
            final(book).metadata == old(book).metadata,
            search_spans_in_bounds(final(book).chapters_view()),
            matches_fit(final(book).chapters_view(), results@),
    {
        proof {
            lemma_fresh_highlights_in_bounds(
                book.chapters_view(),
                results@,
                results@.len() as int,
            );
            lemma_highlighted_keeps_text(book.chapters_view(), results@, results@.len() as int);
        }
        SearchEngine::apply_highlights(book, results);
    }
}

} // verus!
