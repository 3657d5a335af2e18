//! Word wrap and the remapping of inline spans onto wrapped lines.

use vstd::prelude::*;
use vstd::string::*;
use vstd::utf8::encode_utf8;
use crate::text::{byte_len, chars_of, is_blank, string_views, trim};
use crate::types::{
    all_laid_out, line_views, InlineStyle, LineStyle, LineStyleView, LineView, RenderedLine,
};

verus! {

/// The lines into which `textwrap::wrap` breaks `text` at `width` columns.
pub uninterp spec fn wrapped_lines(text: Seq<char>, width: usize) -> Seq<Seq<char>>;

/// Calls `textwrap::wrap` with a plain width and hands the lines out as
/// owned strings. The contract names the lines and claims nothing else of
/// them.
#[verifier::external_body]
pub(crate) fn wrap_text(text: &str, width: usize) -> (lines: Vec<String>)
    ensures
        string_views(lines@) == wrapped_lines(text@, width),
{
    textwrap::wrap(text, width).into_iter().map(|line| line.into_owned()).collect()
}

/// Whether wrapping drops this byte where it breaks a line: a space or a
/// line feed.
pub open spec fn is_gap(b: u8) -> bool {
    b == 0x20 || b == 0x0a
}

/// Whether the bytes of `line` stand in `text` at the offset `at`.
pub open spec fn stands_at(text: Seq<u8>, at: int, line: Seq<u8>) -> bool {
    0 <= at && at + line.len() <= text.len() && text.subrange(at, at + line.len()) == line
}

/// The first offset at or after `from` at which the bytes of `line` stand in
/// `text`, reached over spaces and line feeds alone. `None` where another
/// byte comes first or the text ends.
pub open spec fn found_offset(text: Seq<u8>, from: int, line: Seq<u8>) -> Option<int>
    decreases text.len() - from,
{
    if from < 0 || from + line.len() > text.len() {
        None
    } else if stands_at(text, from, line) {
        Some(from)
    } else if from < text.len() && is_gap(text[from]) {
        found_offset(text, from + 1, line)
    } else {
        None
    }
}

/// The offset in the bytes of `text` from which wrapped line `k` is looked
/// for: the end of the last line before it that was found, or the start of
/// the text.
pub open spec fn search_from(text: Seq<char>, wrapped: Seq<Seq<char>>, k: int) -> int
    decreases k,
{
    if k <= 0 {
        0
    } else {
        let from = search_from(text, wrapped, k - 1);
        match found_offset(encode_utf8(text), from, encode_utf8(wrapped[k - 1])) {
            Some(at) => at + byte_len(wrapped[k - 1]),
            None => from,
        }
    }
}

/// The byte offset in `text` at which wrapped line `k` stands: the first
/// place behind the lines before it, over the spaces and line feeds that
/// wrapping dropped, where the text's bytes are the line's. `None` where the
/// line does not stand there.
pub open spec fn line_offset(text: Seq<char>, wrapped: Seq<Seq<char>>, k: int) -> Option<int> {
    found_offset(encode_utf8(text), search_from(text, wrapped, k), encode_utf8(wrapped[k]))
}

/// The inline spans of wrapped line `k`: the fragments of `spans` on the
/// range of the text where the line stands. A line that is not found in the
/// text carries none.
pub open spec fn line_spans(
    text: Seq<char>,
    wrapped: Seq<Seq<char>>,
    spans: Seq<(usize, usize, InlineStyle)>,
    k: int,
) -> Seq<(usize, usize, InlineStyle)> {
    match line_offset(text, wrapped, k) {
        Some(at) => fragments(spans, at, byte_len(wrapped[k]) as int),
        None => Seq::empty(),
    }
}

/// The part of `span` that falls on the line covering `start..start + len`,
/// in offsets local to the line; `None` where they do not overlap.
pub open spec fn fragment(span: (usize, usize, InlineStyle), start: int, len: int) -> Option<
    (usize, usize, InlineStyle),
> {
    let lo = if span.0 > start {
        span.0 as int
    } else {
        start
    };
    let hi = if span.1 < start + len {
        span.1 as int
    } else {
        start + len
    };
    if span.1 > start && span.0 < start + len && hi > lo {
        Some(((lo - start) as usize, (hi - start) as usize, span.2))
    } else {
        None
    }
}

/// The fragments of `spans` on the line covering `start..start + len`, in
/// the order of the spans.
pub open spec fn fragments(spans: Seq<(usize, usize, InlineStyle)>, start: int, len: int) -> Seq<
    (usize, usize, InlineStyle),
>
    decreases spans.len(),
{
    if spans.len() == 0 {
        Seq::empty()
    } else {
        let init = fragments(spans.drop_last(), start, len);
        match fragment(spans.last(), start, len) {
            Some(f) => init.push(f),
            None => init,
        }
    }
}

/// The rendered lines for `wrapped`, the result of wrapping `text`: each
/// line carries the fragments of `spans` that fall on the range of the text
/// where it stands.
pub open spec fn remapped_lines(
    text: Seq<char>,
    wrapped: Seq<Seq<char>>,
    style: LineStyleView,
    spans: Seq<(usize, usize, InlineStyle)>,
) -> Seq<LineView> {
    Seq::new(
        wrapped.len(),
        |k: int|
            LineView {
                text: wrapped[k],
                style,
                search_matches: Seq::empty(),
                inline_styles: line_spans(text, wrapped, spans, k),
                syntax_colors: Seq::empty(),
            },
    )
}

/// The rendered lines for a block of text: none where the text is blank,
/// else the wrapped lines with the spans remapped.
pub open spec fn text_lines(
    text: Seq<char>,
    width: usize,
    style: LineStyleView,
    spans: Seq<(usize, usize, InlineStyle)>,
) -> Seq<LineView> {
    if is_blank(text) {
        Seq::empty()
    } else {
        remapped_lines(text, wrapped_lines(text, width), style, spans)
    }
}

/// Whether `span` has style `style` and covers the position `at`.
pub open spec fn covers(span: (usize, usize, InlineStyle), at: int, style: InlineStyle) -> bool {
    span.2 == style && span.0 <= at < span.1
}

/// How many of `spans` have style `style` and cover the position `at`.
pub open spec fn cover_count(spans: Seq<(usize, usize, InlineStyle)>, at: int, style: InlineStyle) -> nat
    decreases spans.len(),
{
    if spans.len() == 0 {
        0
    } else {
        cover_count(spans.drop_last(), at, style) + if covers(spans.last(), at, style) {
            1nat
        } else {
            0nat
        }
    }
}

/// Every fragment on a line is non-empty and ends within the line.
pub proof fn lemma_fragments_in_bounds(
    spans: Seq<(usize, usize, InlineStyle)>,
    start: int,
    len: int,
)
    requires
        0 <= start,
        0 <= len <= usize::MAX,
    ensures
        forall|k: int|
            0 <= k < fragments(spans, start, len).len() ==> {
                let f = #[trigger] fragments(spans, start, len)[k];
                f.0 < f.1 <= len
            },
    decreases spans.len(),
{
    if spans.len() > 0 {
        lemma_fragments_in_bounds(spans.drop_last(), start, len);
        let init = fragments(spans.drop_last(), start, len);
        match fragment(spans.last(), start, len) {
            Some(f) => {
                assert(init.push(f).drop_last() == init);
                assert(f.0 < f.1 <= len);
            },
            None => {},
        }
    }
}

/// On one line, remapping neither drops nor duplicates: a position of the
/// line is covered by as many fragments of a style as its position in the
/// text is covered by spans of that style. Every fragment is non-empty and
/// ends within the line.
pub proof fn lemma_fragments_exact(
    spans: Seq<(usize, usize, InlineStyle)>,
    start: int,
    len: int,
    at: int,
    style: InlineStyle,
)
    requires
        0 <= start,
        0 <= at < len <= usize::MAX,
    ensures
        cover_count(fragments(spans, start, len), at, style) == cover_count(
            spans,
            start + at,
            style,
        ),
        forall|k: int|
            0 <= k < fragments(spans, start, len).len() ==> {
                let f = #[trigger] fragments(spans, start, len)[k];
                f.0 < f.1 <= len
            },
    decreases spans.len(),
{
    if spans.len() > 0 {
        lemma_fragments_exact(spans.drop_last(), start, len, at, style);
        let init = fragments(spans.drop_last(), start, len);
        match fragment(spans.last(), start, len) {
            Some(f) => {
                assert(init.push(f).drop_last() == init);
            },
            None => {},
        }
    }
}

/// Where a line is found, it stands there, at or behind the place from
/// which it was looked for, with nothing but spaces and line feeds between.
pub proof fn lemma_found_offset(text: Seq<u8>, from: int, line: Seq<u8>)
    requires
        found_offset(text, from, line) is Some,
    ensures
        ({
            let at = found_offset(text, from, line)->Some_0;
            &&& 0 <= from <= at
            &&& stands_at(text, at, line)
            &&& forall|p: int| from <= p < at ==> is_gap(#[trigger] text[p])
        }),
    decreases text.len() - from,
{
    if !stands_at(text, from, line) {
        lemma_found_offset(text, from + 1, line);
    }
}

/// The places from which lines are looked for lie within the text and only
/// move forward.
pub proof fn lemma_search_from_ascends(text: Seq<char>, wrapped: Seq<Seq<char>>, j: int, k: int)
    requires
        0 <= j <= k,
    ensures
        0 <= search_from(text, wrapped, j) <= search_from(text, wrapped, k) <= byte_len(text),
    decreases k,
{
    if k > 0 {
        lemma_search_from_ascends(text, wrapped, 0, k - 1);
        let from = search_from(text, wrapped, k - 1);
        let found = found_offset(encode_utf8(text), from, encode_utf8(wrapped[k - 1]));
        if found is Some {
            lemma_found_offset(encode_utf8(text), from, encode_utf8(wrapped[k - 1]));
        }
        if j < k {
            lemma_search_from_ascends(text, wrapped, j, k - 1);
        }
    }
}

/// Wrapped lines that are found in the text stand on disjoint, ascending
/// ranges of it.
pub proof fn lemma_lines_ascend(text: Seq<char>, wrapped: Seq<Seq<char>>, j: int, k: int)
    requires
        0 <= j < k,
        line_offset(text, wrapped, j) is Some,
        line_offset(text, wrapped, k) is Some,
    ensures
        line_offset(text, wrapped, j)->Some_0 + byte_len(wrapped[j]) <= line_offset(
            text,
            wrapped,
            k,
        )->Some_0,
{
    lemma_search_from_ascends(text, wrapped, j + 1, k);
    lemma_found_offset(
        encode_utf8(text),
        search_from(text, wrapped, k),
        encode_utf8(wrapped[k]),
    );
}

/// Span remapping is exact. For any text, spans and wrapped lines, line `k`
/// keeps its text. Where the line is found in the text, at the byte offset
/// `g`:
/// - the bytes of the text at `g .. g + len` are the bytes of the line;
/// - at any position `at` of the line, the line's fragments of a style cover
///   `at` as often as the spans of that style cover the byte `g + at` of the
///   text, so nothing that survives wrapping is dropped and nothing is
///   duplicated;
/// - the lines before it that are found end at `g` or before, so no part of
///   a span shows on two lines.
/// A line that is not found carries no fragment. Either way the fragments
/// are non-empty and stay within the line.
pub proof fn lemma_span_remapping_exact(
    text: Seq<char>,
    wrapped: Seq<Seq<char>>,
    line_style: LineStyleView,
    spans: Seq<(usize, usize, InlineStyle)>,
    k: int,
    at: int,
    style: InlineStyle,
)
    requires
        0 <= k < wrapped.len(),
        0 <= at < byte_len(wrapped[k]) <= usize::MAX,
    ensures
        ({
            let line = remapped_lines(text, wrapped, line_style, spans)[k];
            &&& line.text == wrapped[k]
            &&& line.spans_in_bounds()
            &&& match line_offset(text, wrapped, k) {
                Some(g) => {
                    &&& stands_at(encode_utf8(text), g, encode_utf8(wrapped[k]))
                    &&& cover_count(line.inline_styles, at, style) == cover_count(
                        spans,
                        g + at,
                        style,
                    )
                    &&& forall|j: int|
                        0 <= j < k && (#[trigger] line_offset(text, wrapped, j)) is Some
                            ==> line_offset(text, wrapped, j)->Some_0 + byte_len(wrapped[j])
                            <= g
                },
                None => line.inline_styles.len() == 0,
            }
        }),
{
    let len = byte_len(wrapped[k]) as int;
    match line_offset(text, wrapped, k) {
        Some(g) => {
            lemma_found_offset(
                encode_utf8(text),
                search_from(text, wrapped, k),
                encode_utf8(wrapped[k]),
            );
            lemma_search_from_ascends(text, wrapped, 0, k);
            lemma_fragments_exact(spans, g, len, at, style);
            assert forall|j: int|
                0 <= j < k && (#[trigger] line_offset(text, wrapped, j)) is Some implies line_offset(
                text,
                wrapped,
                j,
            )->Some_0 + byte_len(wrapped[j]) <= g by {
                lemma_lines_ascend(text, wrapped, j, k);
            }
        },
        None => {},
    }
}

/// The fragments of `spans` on the line covering `start..start + len`.
fn line_fragments(spans: &Vec<(usize, usize, InlineStyle)>, start: usize, len: usize) -> (out: Vec<
    (usize, usize, InlineStyle),
>)
    requires
        start + len <= usize::MAX,
    ensures
        out@ == fragments(spans@, start as int, len as int),
{
    let mut out: Vec<(usize, usize, InlineStyle)> = Vec::new();
    let end: usize = start + len;
    let mut i: usize = 0;
    assert(spans@.take(0) == Seq::<(usize, usize, InlineStyle)>::empty());
    while i < spans.len()
        invariant
            i <= spans.len(),
            end == start + len,
            out@ == fragments(spans@.take(i as int), start as int, len as int),
        decreases spans.len() - i,
    {
        let span = spans[i];
        assert(spans@.take(i + 1).drop_last() == spans@.take(i as int));
        if span.1 > start && span.0 < end {
            let lo: usize = if span.0 > start {
                span.0
            } else {
                start
            };
            let hi: usize = if span.1 < end {
                span.1
            } else {
                end
            };
            if hi > lo {
                out.push((lo - start, hi - start, span.2));
            }
        }
        i += 1;
    }
    assert(spans@.take(spans@.len() as int) == spans@);
    out
}

/// Whether the bytes of `line` stand in `text` at `at`.
fn stands(text: &[u8], at: usize, line: &[u8]) -> (yes: bool)
    requires
        at <= text@.len(),
        line@.len() <= text@.len() - at,
    ensures
        yes == stands_at(text@, at as int, line@),
{
    let ghost part = text@.subrange(at as int, at + line@.len());
    let total = text.len();
    let mut i: usize = 0;
    while i < line.len()
        invariant
            total == text@.len(),
            at <= text@.len(),
            line@.len() <= text@.len() - at,
            part == text@.subrange(at as int, at + line@.len()),
            i <= line@.len(),
            part.take(i as int) == line@.take(i as int),
        decreases line@.len() - i,
    {
        if text[at + i] != line[i] {
            assert(part[i as int] != line@[i as int]);
            return false;
        }
        assert(part.take(i + 1) == part.take(i as int).push(part[i as int]));
        assert(line@.take(i + 1) == line@.take(i as int).push(line@[i as int]));
        i += 1;
    }
    assert(part.take(part.len() as int) == part);
    assert(line@.take(line@.len() as int) == line@);
    true
}

/// Looks for the bytes of `line` in `text` from `from` on, over spaces and
/// line feeds alone.
fn find_line(text: &[u8], from: usize, line: &[u8]) -> (r: Option<usize>)
    requires
        from <= text@.len(),
    ensures
        match r {
            Some(at) => found_offset(text@, from as int, line@) == Some(at as int) && at
                + line@.len() <= text@.len(),
            None => found_offset(text@, from as int, line@) is None,
        },
{
    let mut p: usize = from;
    loop
        invariant
            from <= p <= text@.len(),
            found_offset(text@, from as int, line@) == found_offset(text@, p as int, line@),
        decreases text@.len() - p,
    {
        if line.len() > text.len() - p {
            return None;
        }
        if stands(text, p, line) {
            return Some(p);
        }
        if p < text.len() && (text[p] == 0x20u8 || text[p] == 0x0au8) {
            p += 1;
        } else {
            return None;
        }
    }
}

/// Appends the lines `wrapped`, which came from wrapping `text`. Each line
/// is looked for in the text behind the one before it; where it is found,
/// it carries the inline spans cut to the range where it stands, in offsets
/// local to the line, and where it is not, none.
pub fn append_wrapped(
    lines: &mut Vec<RenderedLine>,
    text: &str,
    wrapped: &Vec<String>,
    style: &LineStyle,
    inline_styles: &Vec<(usize, usize, InlineStyle)>,
)
    ensures
        all_laid_out(line_views(old(lines)@)) ==> all_laid_out(line_views(final(lines)@)),
        final(lines).len() >= old(lines).len(),
        line_views(final(lines)@) == line_views(old(lines)@) + remapped_lines(
            text@,
            string_views(wrapped@),
            style@,
            inline_styles@,
        ),
{
    let bytes = text.as_bytes();
    let total = bytes.len();
    let ghost wv = string_views(wrapped@);
    let ghost goal = remapped_lines(text@, wv, style@, inline_styles@);
    let mut from: usize = 0;
    let mut k: usize = 0;
    assert(line_views(lines@) =~= line_views(old(lines)@) + goal.take(0));
    while k < wrapped.len()
        invariant
            k <= wrapped.len(),
            wv == string_views(wrapped@),
            goal == remapped_lines(text@, wv, style@, inline_styles@),
            bytes@ == encode_utf8(text@),
            total == bytes@.len(),
            from == search_from(text@, wv, k as int),
            from <= bytes@.len(),
            line_views(lines@) == line_views(old(lines)@) + goal.take(k as int),
            all_laid_out(line_views(old(lines)@)) ==> all_laid_out(line_views(lines@)),
        decreases wrapped.len() - k,
    {
        let line_text = wrapped[k].clone();
        let line_bytes = wrapped[k].as_str().as_bytes();
        let len = line_bytes.len();
        assert(line_bytes@ == encode_utf8(wv[k as int]));
        let place = find_line(bytes, from, line_bytes);
        let found = match place {
            Some(at) => line_fragments(inline_styles, at, len),
            None => Vec::new(),
        };
        proof {
            match place {
                Some(at) => {
                    lemma_fragments_in_bounds(inline_styles@, at as int, len as int);
                },
                None => {},
            }
        }
        let ghost before = line_views(lines@);
        let line = RenderedLine {
            text: line_text,
            style: style.duplicate(),
            search_matches: Vec::new(),
            inline_styles: found,
            syntax_colors: Vec::new(),
        };
        assert(line@ == goal[k as int]);
        assert(line@.spans_in_bounds());
        lines.push(line);
        assert(line_views(lines@) =~= before.push(goal[k as int]));
        assert(goal.take(k + 1) == goal.take(k as int).push(goal[k as int]));
        match place {
            Some(at) => {
                from = at + len;
            },
            None => {},
        }
        k += 1;
    }
    assert(goal.take(goal.len() as int) == goal);
}

/// Appends the lines of a block of text, wrapped at `width`, with its inline
/// styles remapped. Blank text adds nothing.
pub fn add_text_lines(
    lines: &mut Vec<RenderedLine>,
    text: &str,
    width: usize,
    style: LineStyle,
    inline_styles: Vec<(usize, usize, InlineStyle)>,
)
    ensures
        all_laid_out(line_views(old(lines)@)) ==> all_laid_out(line_views(final(lines)@)),
        final(lines).len() >= old(lines).len(),
        line_views(final(lines)@) == line_views(old(lines)@) + text_lines(
            text@,
            width,
            style@,
            inline_styles@,
        ),
{
    let chars = chars_of(text);
    if trim(&chars).len() == 0 {
        assert(line_views(lines@) =~= line_views(old(lines)@) + Seq::<LineView>::empty());
        return ;
    }
    let wrapped = wrap_text(text, width);
    append_wrapped(lines, text, &wrapped, &style, &inline_styles);
}

} // verus!
