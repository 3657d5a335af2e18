//! The node sequence of a chapter's markup.
//!
//! A parsed fragment is held as its nodes in document order. Each element
//! records the size of its subtree, so the descendants of the node at
//! index `i` are the nodes at `i + 1 .. i + size`.

use vstd::prelude::*;
use vstd::string::*;
use crate::types::opt_view;

verus! {

/// One node of parsed markup.
#[derive(Debug, Clone)]
pub enum MarkupNode {
    /// An element with its local name, the attributes that layout reads, and
    /// the number of nodes in its subtree, itself included.
    Element {
        tag: String,
        id: Option<String>,
        class: Option<String>,
        alt: Option<String>,
        size: usize,
    },
    /// A text node.
    Text(String),
    /// A comment, doctype or processing instruction.
    Other,
}

/// Mathematical view of a markup node.
pub enum NodeView {
    Element {
        tag: Seq<char>,
        id: Option<Seq<char>>,
        class: Option<Seq<char>>,
        alt: Option<Seq<char>>,
        size: usize,
    },
    Text(Seq<char>),
    Other,
}

impl View for MarkupNode {
    type V = NodeView;

    open spec fn view(&self) -> NodeView {
        match *self {
            MarkupNode::Element { tag, id, class, alt, size } => NodeView::Element {
                tag: tag@,
                id: opt_view(id),
                class: opt_view(class),
                alt: opt_view(alt),
                size,
            },
            MarkupNode::Text(t) => NodeView::Text(t@),
            MarkupNode::Other => NodeView::Other,
        }
    }
}

/// The views of a sequence of nodes.
pub open spec fn node_views(nodes: Seq<MarkupNode>) -> Seq<NodeView> {
    Seq::new(nodes.len(), |i: int| nodes[i]@)
}

/// The nodes below the root element of `markup` parsed as an HTML fragment,
/// the root element first, in document order.
pub uninterp spec fn fragment_nodes(markup: Seq<char>) -> Seq<NodeView>;

/// Parses `markup` with `scraper::Html::parse_fragment` and lists the root
/// element and its descendants as `NodeRef::descendants` yields them. An
/// element carries its name, its `id`, `class` and `alt` attributes and the
/// count of `descendants` of its own; a text node carries its text. The
/// contract names the list and claims nothing else of it.
#[verifier::external_body]
pub(crate) fn parse_fragment(markup: &str) -> (nodes: Vec<MarkupNode>)
    ensures
        node_views(nodes@) == fragment_nodes(markup@),
{
    let html = scraper::Html::parse_fragment(markup);
    html.root_element().descendants().map(|n| match n.value() {
        scraper::Node::Element(e) => MarkupNode::Element {
            tag: e.name().to_string(),
            id: e.attr("id").map(String::from),
            class: e.attr("class").map(String::from),
            alt: e.attr("alt").map(String::from),
            size: n.descendants().count(),
        },
        scraper::Node::Text(t) => MarkupNode::Text(t.to_string()),
        _ => MarkupNode::Other,
    }).collect()
}

/// The index one past the subtree of node `i`, kept within `(i, limit]`.
/// In a well-formed sequence this is `i` plus the element's size.
pub open spec fn subtree_end(nodes: Seq<NodeView>, i: int, limit: int) -> int {
    let size = match nodes[i] {
        NodeView::Element { size, .. } => size as int,
        _ => 1,
    };
    if size < 1 {
        i + 1
    } else if i + size > limit {
        limit
    } else {
        i + size
    }
}

/// The index one past the subtree of node `i`.
pub fn end_of(nodes: &Vec<MarkupNode>, i: usize, limit: usize) -> (end: usize)
    requires
        i < limit <= nodes.len(),
    ensures
        end == subtree_end(node_views(nodes@), i as int, limit as int),
        i < end <= limit,
{
    match &nodes[i] {
        MarkupNode::Element { size, .. } => {
            if *size < 1 {
                i + 1
            } else if *size > limit - i {
                limit
            } else {
                i + *size
            }
        },
        _ => i + 1,
    }
}

/// The tag of node `i`, where it is an element.
pub open spec fn tag_at(nodes: Seq<NodeView>, i: int) -> Option<Seq<char>> {
    match nodes[i] {
        NodeView::Element { tag, .. } => Some(tag),
        _ => None,
    }
}

/// The text of the text nodes in `from..to`, concatenated.
pub open spec fn text_content(nodes: Seq<NodeView>, from: int, to: int) -> Seq<char>
    decreases to - from,
{
    if to <= from {
        Seq::<char>::empty()
    } else {
        let init = text_content(nodes, from, to - 1);
        match nodes[to - 1] {
            NodeView::Text(t) => init + t,
            _ => init,
        }
    }
}

/// Concatenates the text nodes in `from..to`.
pub fn collect_text(nodes: &Vec<MarkupNode>, from: usize, to: usize) -> (out: String)
    requires
        from <= to <= nodes.len(),
    ensures
        out@ == text_content(node_views(nodes@), from as int, to as int),
{
    let mut out = String::new();
    let mut k: usize = from;
    while k < to
        invariant
            from <= k <= to <= nodes.len(),
            out@ == text_content(node_views(nodes@), from as int, k as int),
        decreases to - k,
    {
        match &nodes[k] {
            MarkupNode::Text(t) => {
                out.append(t.as_str());
            },
            _ => {},
        }
        k += 1;
    }
    out
}

/// The indices in `from..to` of the elements named `name` or `other`, in
/// document order.
pub open spec fn elements_named(
    nodes: Seq<NodeView>,
    from: int,
    to: int,
    name: Seq<char>,
    other: Seq<char>,
) -> Seq<usize>
    decreases to - from,
{
    if to <= from {
        Seq::<usize>::empty()
    } else {
        let init = elements_named(nodes, from, to - 1, name, other);
        match nodes[to - 1] {
            NodeView::Element { tag, .. } => if tag == name || tag == other {
                init.push((to - 1) as usize)
            } else {
                init
            },
            _ => init,
        }
    }
}

/// Every index that `elements_named` lists lies in the range.
pub proof fn lemma_elements_named_in_range(
    nodes: Seq<NodeView>,
    from: int,
    to: int,
    name: Seq<char>,
    other: Seq<char>,
)
    requires
        0 <= from <= to <= usize::MAX,
    ensures
        forall|k: int|
            0 <= k < elements_named(nodes, from, to, name, other).len() ==> from
                <= #[trigger] elements_named(nodes, from, to, name, other)[k] < to,
        elements_named(nodes, from, to, name, other).len() <= to - from,
    decreases to - from,
{
    if to > from {
        lemma_elements_named_in_range(nodes, from, to - 1, name, other);
    }
}

/// Lists the elements in `from..to` that are named `name` or `other`.
pub fn find_elements(nodes: &Vec<MarkupNode>, from: usize, to: usize, name: &str, other: &str) -> (found:
    Vec<usize>)
    requires
        from <= to <= nodes.len(),
    ensures
        found@ == elements_named(node_views(nodes@), from as int, to as int, name@, other@),
        forall|k: int| 0 <= k < found.len() ==> from <= #[trigger] found[k] < to,
{
    let mut found: Vec<usize> = Vec::new();
    let mut k: usize = from;
    while k < to
        invariant
            from <= k <= to <= nodes.len(),
            found@ == elements_named(node_views(nodes@), from as int, k as int, name@, other@),
        decreases to - k,
    {
        match &nodes[k] {
            MarkupNode::Element { tag, .. } => {
                if crate::text::same_text(tag.as_str(), name) || crate::text::same_text(
                    tag.as_str(),
                    other,
                ) {
                    found.push(k);
                }
            },
            _ => {},
        }
        k += 1;
    }
    proof {
        lemma_elements_named_in_range(node_views(nodes@), from as int, to as int, name@, other@);
    }
    found
}

} // verus!
