//! Text extraction with inline styles, and word wrap with span remapping.
//!
//! Extraction walks an element's subtree with a stack of active styles and
//! yields the concatenated text and one span per text node and active style.
//! Wrapping breaks the text into lines; every span is then cut at the line
//! boundaries and re-expressed in offsets local to each line.

use vstd::prelude::*;
use vstd::string::*;
use crate::epub::markup::{end_of, node_views, subtree_end, MarkupNode, NodeView};
use crate::text::{byte_len, byte_length, lemma_byte_len_concat, same_text};
use crate::types::InlineStyle;

verus! {

/// Text with the spans of its inline styles, in byte offsets.
pub struct InlineText {
    pub text: Seq<char>,
    pub spans: Seq<(usize, usize, InlineStyle)>,
}

/// The inline style that an element of this name gives to its subtree.
pub open spec fn tag_style(tag: Seq<char>) -> Option<InlineStyle> {
    if tag == "strong"@ || tag == "b"@ {
        Some(InlineStyle::Bold)
    } else if tag == "em"@ || tag == "i"@ {
        Some(InlineStyle::Italic)
    } else if tag == "code"@ {
        Some(InlineStyle::Code)
    } else if tag == "u"@ {
        Some(InlineStyle::Underline)
    } else if tag == "s"@ || tag == "del"@ || tag == "strike"@ {
        Some(InlineStyle::Strikethrough)
    } else if tag == "mark"@ {
        Some(InlineStyle::Highlight)
    } else {
        None
    }
}

/// The inline style of an element name.
pub fn style_of_tag(tag: &str) -> (style: Option<InlineStyle>)
    ensures
        style == tag_style(tag@),
{
    if same_text(tag, "strong") || same_text(tag, "b") {
        Some(InlineStyle::Bold)
    } else if same_text(tag, "em") || same_text(tag, "i") {
        Some(InlineStyle::Italic)
    } else if same_text(tag, "code") {
        Some(InlineStyle::Code)
    } else if same_text(tag, "u") {
        Some(InlineStyle::Underline)
    } else if same_text(tag, "s") || same_text(tag, "del") || same_text(tag, "strike") {
        Some(InlineStyle::Strikethrough)
    } else if same_text(tag, "mark") {
        Some(InlineStyle::Highlight)
    } else {
        None
    }
}

/// One span over `start..end` for each of `styles`, in stack order.
pub open spec fn styled_spans(start: usize, end: usize, styles: Seq<InlineStyle>) -> Seq<
    (usize, usize, InlineStyle),
> {
    Seq::new(styles.len(), |k: int| (start, end, styles[k]))
}

/// The text and spans that the nodes in `from..to` add to `acc` while
/// `styles` are active. A text node appends its text and, unless it is
/// empty, one span per active style over the bytes it added. An element
/// adds the style of its name, if it has one, for its own subtree.
pub open spec fn inline_text(
    nodes: Seq<NodeView>,
    from: int,
    to: int,
    styles: Seq<InlineStyle>,
    acc: InlineText,
) -> InlineText
    decreases to - from,
{
    if from >= to {
        acc
    } else {
        match nodes[from] {
            NodeView::Text(t) => {
                let start = byte_len(acc.text);
                let joined = acc.text + t;
                let end = byte_len(joined);
                let spans = if end > start {
                    acc.spans + styled_spans(start as usize, end as usize, styles)
                } else {
                    acc.spans
                };
                inline_text(nodes, from + 1, to, styles, InlineText { text: joined, spans })
            },
            NodeView::Element { tag, .. } => {
                let stop = subtree_end(nodes, from, to);
                let inner_styles = match tag_style(tag) {
                    Some(s) => styles.push(s),
                    None => styles,
                };
                let inner = inline_text(nodes, from + 1, stop, inner_styles, acc);
                inline_text(nodes, stop, to, styles, inner)
            },
            NodeView::Other => inline_text(nodes, from + 1, to, styles, acc),
        }
    }
}

/// The text and spans of the subtree of element `i`, whose subtree ends at
/// or before `limit`.
pub open spec fn element_text(nodes: Seq<NodeView>, i: int, limit: int) -> InlineText {
    inline_text(
        nodes,
        i + 1,
        subtree_end(nodes, i, limit),
        Seq::empty(),
        InlineText { text: Seq::empty(), spans: Seq::empty() },
    )
}

/// Every span of extracted text lies within the text and is not empty,
/// provided that this holds of what was there before.
pub proof fn lemma_inline_text_bounds(
    nodes: Seq<NodeView>,
    from: int,
    to: int,
    styles: Seq<InlineStyle>,
    acc: InlineText,
)
    requires
        byte_len(inline_text(nodes, from, to, styles, acc).text) <= usize::MAX,
        forall|k: int|
            0 <= k < acc.spans.len() ==> (#[trigger] acc.spans[k]).0 < acc.spans[k].1 <= byte_len(
                acc.text,
            ),
    ensures
        ({
            let r = inline_text(nodes, from, to, styles, acc);
            &&& byte_len(acc.text) <= byte_len(r.text)
            &&& forall|k: int|
                0 <= k < r.spans.len() ==> (#[trigger] r.spans[k]).0 < r.spans[k].1 <= byte_len(
                    r.text,
                )
        }),
    decreases to - from,
{
    if from < to {
        match nodes[from] {
            NodeView::Text(t) => {
                let start = byte_len(acc.text);
                let joined = acc.text + t;
                let end = byte_len(joined);
                lemma_byte_len_concat(acc.text, t);
                let spans = if end > start {
                    acc.spans + styled_spans(start as usize, end as usize, styles)
                } else {
                    acc.spans
                };
                let next = InlineText { text: joined, spans };
                lemma_inline_text_grows(nodes, from + 1, to, styles, next);
                lemma_inline_text_bounds(nodes, from + 1, to, styles, next);
            },
            NodeView::Element { tag, .. } => {
                let stop = subtree_end(nodes, from, to);
                let inner_styles = match tag_style(tag) {
                    Some(s) => styles.push(s),
                    None => styles,
                };
                let inner = inline_text(nodes, from + 1, stop, inner_styles, acc);
                lemma_inline_text_grows(nodes, stop, to, styles, inner);
                lemma_inline_text_bounds(nodes, from + 1, stop, inner_styles, acc);
                lemma_inline_text_bounds(nodes, stop, to, styles, inner);
            },
            NodeView::Other => {
                lemma_inline_text_bounds(nodes, from + 1, to, styles, acc);
            },
        }
    }
}

/// Extraction only appends text.
pub proof fn lemma_inline_text_grows(
    nodes: Seq<NodeView>,
    from: int,
    to: int,
    styles: Seq<InlineStyle>,
    acc: InlineText,
)
    ensures
        byte_len(acc.text) <= byte_len(inline_text(nodes, from, to, styles, acc).text),
    decreases to - from,
{
    if from < to {
        match nodes[from] {
            NodeView::Text(t) => {
                let start = byte_len(acc.text);
                let joined = acc.text + t;
                let end = byte_len(joined);
                lemma_byte_len_concat(acc.text, t);
                let spans = if end > start {
                    acc.spans + styled_spans(start as usize, end as usize, styles)
                } else {
                    acc.spans
                };
                lemma_inline_text_grows(
                    nodes,
                    from + 1,
                    to,
                    styles,
                    InlineText { text: joined, spans },
                );
            },
            NodeView::Element { tag, .. } => {
                let stop = subtree_end(nodes, from, to);
                let inner_styles = match tag_style(tag) {
                    Some(s) => styles.push(s),
                    None => styles,
                };
                let inner = inline_text(nodes, from + 1, stop, inner_styles, acc);
                lemma_inline_text_grows(nodes, from + 1, stop, inner_styles, acc);
                lemma_inline_text_grows(nodes, stop, to, styles, inner);
            },
            NodeView::Other => {
                lemma_inline_text_grows(nodes, from + 1, to, styles, acc);
            },
        }
    }
}

/// A copy of a style stack with one more style on it.
fn with_style(styles: &Vec<InlineStyle>, extra: Option<InlineStyle>) -> (out: Vec<InlineStyle>)
    ensures
        out@ == (match extra {
            Some(s) => styles@.push(s),
            None => styles@,
        }),
{
    let mut out: Vec<InlineStyle> = Vec::new();
    let mut k: usize = 0;
    while k < styles.len()
        invariant
            k <= styles.len(),
            out@ == styles@.take(k as int),
        decreases styles.len() - k,
    {
        out.push(styles[k]);
        assert(styles@.take(k + 1) == styles@.take(k as int).push(styles@[k as int]));
        k += 1;
    }
    assert(styles@.take(styles@.len() as int) == styles@);
    match extra {
        Some(s) => {
            out.push(s);
        },
        None => {},
    }
    out
}

/// Appends to `text` and `spans` what the nodes in `from..to` hold.
pub fn collect_inline(
    nodes: &Vec<MarkupNode>,
    from: usize,
    to: usize,
    styles: &Vec<InlineStyle>,
    text: &mut String,
    spans: &mut Vec<(usize, usize, InlineStyle)>,
)
    requires
        from <= to <= nodes.len(),
    ensures
        (InlineText { text: final(text)@, spans: final(spans)@ }) == inline_text(
            node_views(nodes@),
            from as int,
            to as int,
            styles@,
            (InlineText { text: old(text)@, spans: old(spans)@ }),
        ),
    decreases to - from,
{
    let ghost nv = node_views(nodes@);
    let ghost goal = inline_text(
        nv,
        from as int,
        to as int,
        styles@,
        (InlineText { text: old(text)@, spans: old(spans)@ }),
    );
    let mut j: usize = from;
    while j < to
        invariant
            from <= j <= to <= nodes.len(),
            nv == node_views(nodes@),
            goal == inline_text(
                nv,
                j as int,
                to as int,
                styles@,
                (InlineText { text: text@, spans: spans@ }),
            ),
        decreases to - j,
    {
        match &nodes[j] {
            MarkupNode::Text(t) => {
                let start = byte_length(text.as_str());
                let ghost before = spans@;
                text.append(t.as_str());
                let end = byte_length(text.as_str());
                if end > start {
                    let mut k: usize = 0;
                    while k < styles.len()
                        invariant
                            k <= styles.len(),
                            spans@ == before + styled_spans(start, end, styles@).take(k as int),
                        decreases styles.len() - k,
                    {
                        spans.push((start, end, styles[k]));
                        assert(styled_spans(start, end, styles@).take(k + 1) == styled_spans(
                            start,
                            end,
                            styles@,
                        ).take(k as int).push((start, end, styles@[k as int])));
                        k += 1;
                    }
                    assert(styled_spans(start, end, styles@).take(styles@.len() as int)
                        == styled_spans(start, end, styles@));
                }
                j += 1;
            },
            MarkupNode::Element { tag, .. } => {
                let stop = end_of(nodes, j, to);
                let inner_styles = with_style(styles, style_of_tag(tag.as_str()));
                collect_inline(nodes, j + 1, stop, &inner_styles, text, spans);
                j = stop;
            },
            MarkupNode::Other => {
                j += 1;
            },
        }
    }
}

/// The text of element `i` with its inline styles.
pub fn extract_text_with_inline_styles(nodes: &Vec<MarkupNode>, i: usize, limit: usize) -> (r: (
    String,
    Vec<(usize, usize, InlineStyle)>,
))
    requires
        i < limit <= nodes.len(),
    ensures
        (InlineText { text: r.0@, spans: r.1@ }) == element_text(
            node_views(nodes@),
            i as int,
            limit as int,
        ),
        forall|k: int| 0 <= k < r.1.len() ==> (#[trigger] r.1[k]).0 < r.1[k].1 <= byte_len(r.0@),
{
    let mut text = String::new();
    let mut spans: Vec<(usize, usize, InlineStyle)> = Vec::new();
    let styles: Vec<InlineStyle> = Vec::new();
    let stop = end_of(nodes, i, limit);
    collect_inline(nodes, i + 1, stop, &styles, &mut text, &mut spans);
    let n = byte_length(text.as_str());
    proof {
        let start = InlineText { text: Seq::empty(), spans: Seq::empty() };
        let r = inline_text(node_views(nodes@), i + 1, stop as int, Seq::empty(), start);
        assert(styles@ == Seq::<InlineStyle>::empty());
        assert(r == (InlineText { text: text@, spans: spans@ }));
        assert(r.text == text@);
        lemma_inline_text_bounds(node_views(nodes@), i + 1, stop as int, Seq::empty(), start);
        assert(forall|k: int|
            0 <= k < r.spans.len() ==> (#[trigger] r.spans[k]).0 < r.spans[k].1 <= byte_len(
                r.text,
            ));
    }
    (text, spans)
}

} // verus!
