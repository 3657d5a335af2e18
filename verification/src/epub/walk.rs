//! The layout engine's walk over a chapter's nodes: from markup to wrapped,
//! styled lines and the headings found on the way.

use vstd::prelude::*;
use vstd::string::*;
use crate::constants::UI_MARGIN_WIDTH;
use crate::epub::blocks::{
    add_blank_line, alt_at, blank_line, block_views, code_block, id_at, image_lines,
    process_code_block, process_horizontal_rule, process_image, push_plain, rule_lines,
};
use crate::epub::inline::{element_text, extract_text_with_inline_styles};
use crate::epub::lists::{
    item_lines, navigation_lines, process_definition_list, process_navigation,
    process_ordered_list, process_table, process_unordered_list, table_lines, ItemKind,
};
use crate::epub::markup::{
    elements_named, end_of, find_elements, fragment_nodes, node_views, parse_fragment,
    subtree_end, MarkupNode, NodeView,
};
use crate::epub::wrap::{add_text_lines, text_lines};
use crate::text::{owned, same_text};
use crate::types::{
    all_laid_out, clone_opt, line_views, opt_view, LineStyle, LineStyleView, LineView,
    RenderedLine,
};

verus! {

/// A heading found during layout.
#[derive(Debug, Clone, PartialEq)]
pub struct HeadingInfo {
    /// The heading's text.
    pub text: String,
    /// Its level, 1 to 6.
    pub level: u8,
    /// The number of lines that stood before it.
    pub line_number: usize,
    /// Its `id` attribute.
    pub id: Option<String>,
}

/// Mathematical view of a heading.
pub struct HeadingView {
    pub text: Seq<char>,
    pub level: u8,
    pub line_number: usize,
    pub id: Option<Seq<char>>,
}

impl View for HeadingInfo {
    type V = HeadingView;

    open spec fn view(&self) -> HeadingView {
        HeadingView {
            text: self.text@,
            level: self.level,
            line_number: self.line_number,
            id: opt_view(self.id),
        }
    }
}

/// The views of a sequence of headings.
pub open spec fn heading_views(headings: Seq<HeadingInfo>) -> Seq<HeadingView> {
    Seq::new(headings.len(), |i: int| headings[i]@)
}

/// Whether the headings stand in the order of their lines, none behind line
/// `bound`.
pub open spec fn headings_ordered(headings: Seq<HeadingView>, bound: int) -> bool {
    &&& forall|i: int, j: int|
        0 <= i < j < headings.len() ==> headings[i].line_number <= headings[j].line_number
    &&& forall|i: int| 0 <= i < headings.len() ==> (#[trigger] headings[i]).line_number <= bound
}

/// What layout yields: the lines and the headings.
pub struct Rendered {
    pub lines: Seq<LineView>,
    pub headings: Seq<HeadingView>,
}

/// The views of lines and headings together.
pub open spec fn rendered_of(lines: Seq<RenderedLine>, headings: Seq<HeadingInfo>) -> Rendered {
    Rendered { lines: line_views(lines), headings: heading_views(headings) }
}

/// The level of a heading element, by its name.
pub open spec fn heading_level(tag: Seq<char>) -> Option<u8> {
    if tag == "h1"@ {
        Some(1u8)
    } else if tag == "h2"@ {
        Some(2u8)
    } else if tag == "h3"@ {
        Some(3u8)
    } else if tag == "h4"@ {
        Some(4u8)
    } else if tag == "h5"@ {
        Some(5u8)
    } else if tag == "h6"@ {
        Some(6u8)
    } else {
        None
    }
}

/// The block style of a heading of the given level.
pub open spec fn heading_style(level: u8) -> LineStyleView {
    if level == 1 {
        LineStyleView::Heading1
    } else if level == 2 {
        LineStyleView::Heading2
    } else {
        LineStyleView::Heading3
    }
}

/// Whether an element of this name is inline content, which makes a block of
/// its own only outside a paragraph.
pub open spec fn is_inline_tag(tag: Seq<char>) -> bool {
    tag == "span"@ || tag == "em"@ || tag == "strong"@ || tag == "i"@ || tag == "b"@ || tag
        == "code"@
}

/// The wrapped lines of the text of element `i`.
pub open spec fn block_lines(
    nodes: Seq<NodeView>,
    i: int,
    limit: int,
    width: usize,
    style: LineStyleView,
) -> Seq<LineView> {
    let t = element_text(nodes, i, limit);
    text_lines(t.text, width, style, t.spans)
}

/// What rendering node `i` adds to `acc`. The node's subtree ends at or
/// before `limit`. Text and other non-element nodes add nothing; an element
/// is rendered by its name:
/// - a heading records itself at the current line count, then adds its
///   wrapped text and a blank line;
/// - `pre` adds a code block, `img` a placeholder, `hr` a rule;
/// - `p` and `blockquote` add their wrapped text and a blank line;
/// - `ul`, `ol` and `dl` add their entries and a blank line, `table` its
///   rows, `nav` its links;
/// - `aside`, `figure` and `figcaption` frame what their children add;
/// - `a` and the inline elements add their wrapped text unless they stand in
///   a paragraph;
/// - any other element adds what its children add.
pub open spec fn render_node(
    nodes: Seq<NodeView>,
    i: int,
    limit: int,
    width: usize,
    blocks: Seq<Option<Seq<Seq<char>>>>,
    in_paragraph: bool,
    acc: Rendered,
) -> Rendered
    decreases limit - i, 0nat,
{
    if i < 0 || i >= limit {
        acc
    } else {
        match nodes[i] {
            NodeView::Element { tag, id, .. } => {
                let end = subtree_end(nodes, i, limit);
                if heading_level(tag) is Some {
                    let level = heading_level(tag)->Some_0;
                    let t = element_text(nodes, i, limit);
                    Rendered {
                        lines: (acc.lines + text_lines(
                            t.text,
                            width,
                            heading_style(level),
                            t.spans,
                        )).push(blank_line()),
                        headings: acc.headings.push(
                            HeadingView {
                                text: t.text,
                                level,
                                line_number: acc.lines.len() as usize,
                                id,
                            },
                        ),
                    }
                } else if tag == "pre"@ {
                    Rendered {
                        lines: acc.lines + code_block(nodes, i, end, blocks),
                        headings: acc.headings,
                    }
                } else if tag == "img"@ {
                    Rendered {
                        lines: acc.lines + image_lines(alt_at(nodes, i)),
                        headings: acc.headings,
                    }
                } else if tag == "p"@ {
                    Rendered {
                        lines: (acc.lines + block_lines(
                            nodes,
                            i,
                            limit,
                            width,
                            LineStyleView::Normal,
                        )).push(blank_line()),
                        headings: acc.headings,
                    }
                } else if tag == "blockquote"@ {
                    Rendered {
                        lines: (acc.lines + block_lines(
                            nodes,
                            i,
                            limit,
                            width,
                            LineStyleView::Quote,
                        )).push(blank_line()),
                        headings: acc.headings,
                    }
                } else if tag == "ul"@ {
                    Rendered {
                        lines: item_lines(
                            nodes,
                            elements_named(nodes, i + 1, end, "li"@, "li"@),
                            0,
                            end,
                            width,
                            ItemKind::Bullet,
                            acc.lines,
                        ).push(blank_line()),
                        headings: acc.headings,
                    }
                } else if tag == "ol"@ {
                    Rendered {
                        lines: item_lines(
                            nodes,
                            elements_named(nodes, i + 1, end, "li"@, "li"@),
                            0,
                            end,
                            width,
                            ItemKind::Numbered,
                            acc.lines,
                        ).push(blank_line()),
                        headings: acc.headings,
                    }
                } else if tag == "dl"@ {
                    Rendered {
                        lines: item_lines(
                            nodes,
                            elements_named(nodes, i + 1, end, "dd"@, "dd"@),
                            0,
                            end,
                            width,
                            ItemKind::Description,
                            item_lines(
                                nodes,
                                elements_named(nodes, i + 1, end, "dt"@, "dt"@),
                                0,
                                end,
                                width,
                                ItemKind::Term,
                                acc.lines,
                            ),
                        ).push(blank_line()),
                        headings: acc.headings,
                    }
                } else if tag == "table"@ {
                    Rendered {
                        lines: acc.lines + table_lines(nodes, i, end, width),
                        headings: acc.headings,
                    }
                } else if tag == "hr"@ {
                    Rendered { lines: acc.lines + rule_lines(width), headings: acc.headings }
                } else if tag == "aside"@ || tag == "figure"@ || tag == "figcaption"@ {
                    framed_children(nodes, i, end, width, blocks, tag, acc)
                } else if tag == "nav"@ {
                    Rendered {
                        lines: acc.lines + navigation_lines(nodes, i, end),
                        headings: acc.headings,
                    }
                } else if tag == "a"@ {
                    if in_paragraph {
                        acc
                    } else {
                        Rendered {
                            lines: acc.lines + block_lines(
                                nodes,
                                i,
                                limit,
                                width,
                                LineStyleView::Link,
                            ),
                            headings: acc.headings,
                        }
                    }
                } else if is_inline_tag(tag) {
                    if in_paragraph {
                        acc
                    } else {
                        Rendered {
                            lines: acc.lines + block_lines(
                                nodes,
                                i,
                                limit,
                                width,
                                LineStyleView::Normal,
                            ),
                            headings: acc.headings,
                        }
                    }
                } else {
                    render_children(nodes, i + 1, end, width, blocks, acc)
                }
            },
            _ => acc,
        }
    }
}

/// What a semantic container adds to `acc`: what its children add, behind
/// an opening line for an aside and a figure, and for an aside before a
/// closing line and a blank line.
pub open spec fn framed_children(
    nodes: Seq<NodeView>,
    i: int,
    end: int,
    width: usize,
    blocks: Seq<Option<Seq<Seq<char>>>>,
    tag: Seq<char>,
    acc: Rendered,
) -> Rendered
    decreases end - i - 1, 2nat,
{
    let opened = if tag == "aside"@ {
        acc.lines.push(LineView::plain("\u{250c}\u{2500} Aside \u{2500}"@, LineStyleView::Quote))
    } else if tag == "figure"@ {
        acc.lines.push(LineView::plain("[Figure]"@, LineStyleView::Normal))
    } else {
        acc.lines
    };
    let inner = render_children(
        nodes,
        i + 1,
        end,
        width,
        blocks,
        Rendered { lines: opened, headings: acc.headings },
    );
    if tag == "aside"@ {
        Rendered {
            lines: inner.lines.push(
                LineView::plain(
                    "\u{2514}\u{2500}\u{2500}\u{2500}\u{2500}\u{2500}\u{2500}\u{2500}\u{2500}\u{2500}"@,
                    LineStyleView::Quote,
                ),
            ).push(blank_line()),
            headings: inner.headings,
        }
    } else {
        inner
    }
}

/// What rendering the sibling nodes in `from..to`, one after the other, adds
/// to `acc`.
pub open spec fn render_children(
    nodes: Seq<NodeView>,
    from: int,
    to: int,
    width: usize,
    blocks: Seq<Option<Seq<Seq<char>>>>,
    acc: Rendered,
) -> Rendered
    decreases to - from, 1nat,
{
    if from < 0 || from >= to {
        acc
    } else {
        render_children(
            nodes,
            subtree_end(nodes, from, to),
            to,
            width,
            blocks,
            render_node(nodes, from, to, width, blocks, false, acc),
        )
    }
}

/// The node at which layout starts: the first `body` element, or the root.
pub open spec fn start_index(nodes: Seq<NodeView>) -> int {
    let bodies = elements_named(nodes, 0, nodes.len() as int, "body"@, "body"@);
    if bodies.len() > 0 {
        bodies[0] as int
    } else {
        0
    }
}

/// The lines and headings of a node sequence at a width, given the
/// highlighted fragments of its code blocks.
pub open spec fn laid_out(
    nodes: Seq<NodeView>,
    width: usize,
    blocks: Seq<Option<Seq<Seq<char>>>>,
) -> Rendered {
    render_node(
        nodes,
        start_index(nodes),
        nodes.len() as int,
        width,
        blocks,
        false,
        Rendered { lines: Seq::empty(), headings: Seq::empty() },
    )
}

fn level_of(tag: &str) -> (level: Option<u8>)
    ensures
        level == heading_level(tag@),
{
    if same_text(tag, "h1") {
        Some(1)
    } else if same_text(tag, "h2") {
        Some(2)
    } else if same_text(tag, "h3") {
        Some(3)
    } else if same_text(tag, "h4") {
        Some(4)
    } else if same_text(tag, "h5") {
        Some(5)
    } else if same_text(tag, "h6") {
        Some(6)
    } else {
        None
    }
}

fn style_of_level(level: u8) -> (style: LineStyle)
    ensures
        style@ == heading_style(level),
{
    if level == 1 {
        LineStyle::Heading1
    } else if level == 2 {
        LineStyle::Heading2
    } else {
        LineStyle::Heading3
    }
}

fn inline_tag(tag: &str) -> (yes: bool)
    ensures
        yes == is_inline_tag(tag@),
{
    same_text(tag, "span") || same_text(tag, "em") || same_text(tag, "strong") || same_text(
        tag,
        "i",
    ) || same_text(tag, "b") || same_text(tag, "code")
}

/// Appends the wrapped text of element `i` in the given block style.
pub fn process_block(
    nodes: &Vec<MarkupNode>,
    i: usize,
    limit: usize,
    lines: &mut Vec<RenderedLine>,
    width: usize,
    style: LineStyle,
)
    requires
        i < limit <= nodes.len(),
    ensures
        all_laid_out(line_views(old(lines)@)) ==> all_laid_out(line_views(final(lines)@)),
        final(lines).len() >= old(lines).len(),
        line_views(final(lines)@) == line_views(old(lines)@) + block_lines(
            node_views(nodes@),
            i as int,
            limit as int,
            width,
            style@,
        ),
{
    let (text, spans) = extract_text_with_inline_styles(nodes, i, limit);
    add_text_lines(lines, text.as_str(), width, style, spans);
}

/// Appends a paragraph: its wrapped text and a blank line.
pub fn process_paragraph(
    nodes: &Vec<MarkupNode>,
    i: usize,
    limit: usize,
    lines: &mut Vec<RenderedLine>,
    width: usize,
)
    requires
        i < limit <= nodes.len(),
    ensures
        all_laid_out(line_views(old(lines)@)) ==> all_laid_out(line_views(final(lines)@)),
        final(lines).len() >= old(lines).len(),
        line_views(final(lines)@) == (line_views(old(lines)@) + block_lines(
            node_views(nodes@),
            i as int,
            limit as int,
            width,
            LineStyleView::Normal,
        )).push(blank_line()),
{
    process_block(nodes, i, limit, lines, width, LineStyle::Normal);
    add_blank_line(lines);
}

/// Appends a block quote: its wrapped text as a quote, and a blank line.
pub fn process_blockquote(
    nodes: &Vec<MarkupNode>,
    i: usize,
    limit: usize,
    lines: &mut Vec<RenderedLine>,
    width: usize,
)
    requires
        i < limit <= nodes.len(),
    ensures
        all_laid_out(line_views(old(lines)@)) ==> all_laid_out(line_views(final(lines)@)),
        final(lines).len() >= old(lines).len(),
        line_views(final(lines)@) == (line_views(old(lines)@) + block_lines(
            node_views(nodes@),
            i as int,
            limit as int,
            width,
            LineStyleView::Quote,
        )).push(blank_line()),
{
    process_block(nodes, i, limit, lines, width, LineStyle::Quote);
    add_blank_line(lines);
}

/// Appends a link that stands outside a paragraph: its wrapped text as a
/// link.
pub fn process_link(
    nodes: &Vec<MarkupNode>,
    i: usize,
    limit: usize,
    lines: &mut Vec<RenderedLine>,
    width: usize,
)
    requires
        i < limit <= nodes.len(),
    ensures
        all_laid_out(line_views(old(lines)@)) ==> all_laid_out(line_views(final(lines)@)),
        final(lines).len() >= old(lines).len(),
        line_views(final(lines)@) == line_views(old(lines)@) + block_lines(
            node_views(nodes@),
            i as int,
            limit as int,
            width,
            LineStyleView::Link,
        ),
{
    process_block(nodes, i, limit, lines, width, LineStyle::Link);
}

/// Appends an inline element that stands outside a paragraph: its wrapped
/// text, unless it is blank.
pub fn process_inline_as_block(
    nodes: &Vec<MarkupNode>,
    i: usize,
    limit: usize,
    lines: &mut Vec<RenderedLine>,
    width: usize,
)
    requires
        i < limit <= nodes.len(),
    ensures
        all_laid_out(line_views(old(lines)@)) ==> all_laid_out(line_views(final(lines)@)),
        final(lines).len() >= old(lines).len(),
        line_views(final(lines)@) == line_views(old(lines)@) + block_lines(
            node_views(nodes@),
            i as int,
            limit as int,
            width,
            LineStyleView::Normal,
        ),
{
    process_block(nodes, i, limit, lines, width, LineStyle::Normal);
}

/// Renders a semantic container: an aside, a figure or a figure's caption.
pub fn process_semantic_container(
    nodes: &Vec<MarkupNode>,
    i: usize,
    end: usize,
    tag: &str,
    lines: &mut Vec<RenderedLine>,
    headings: &mut Vec<HeadingInfo>,
    width: usize,
    blocks: &Vec<Option<Vec<String>>>,
)
    requires
        i < end <= nodes.len(),
    ensures
        all_laid_out(line_views(old(lines)@)) ==> all_laid_out(line_views(final(lines)@)),
        final(lines).len() >= old(lines).len(),
        headings_ordered(heading_views(old(headings)@), old(lines).len() as int)
            ==> headings_ordered(heading_views(final(headings)@), final(lines).len() as int),
        rendered_of(final(lines)@, final(headings)@) == framed_children(
            node_views(nodes@),
            i as int,
            end as int,
            width,
            block_views(blocks@),
            tag@,
            rendered_of(old(lines)@, old(headings)@),
        ),
    decreases end - i - 1, 2nat,
{
    let aside = same_text(tag, "aside");
    if aside {
        push_plain(lines, owned("\u{250c}\u{2500} Aside \u{2500}"), LineStyle::Quote);
    } else if same_text(tag, "figure") {
        push_plain(lines, owned("[Figure]"), LineStyle::Normal);
    }
    process_container(nodes, i + 1, end, lines, headings, width, blocks);
    if aside {
        push_plain(
            lines,
            owned(
                "\u{2514}\u{2500}\u{2500}\u{2500}\u{2500}\u{2500}\u{2500}\u{2500}\u{2500}\u{2500}",
            ),
            LineStyle::Quote,
        );
        add_blank_line(lines);
    }
}

/// Records the heading `i` and appends its lines.
pub fn process_heading(
    nodes: &Vec<MarkupNode>,
    i: usize,
    limit: usize,
    lines: &mut Vec<RenderedLine>,
    headings: &mut Vec<HeadingInfo>,
    width: usize,
    level: u8,
)
    requires
        i < limit <= nodes.len(),
    ensures
        all_laid_out(line_views(old(lines)@)) ==> all_laid_out(line_views(final(lines)@)),
        final(lines).len() >= old(lines).len(),
        headings_ordered(heading_views(old(headings)@), old(lines).len() as int)
            ==> headings_ordered(heading_views(final(headings)@), final(lines).len() as int),
        ({
            let t = element_text(node_views(nodes@), i as int, limit as int);
            &&& line_views(final(lines)@) == (line_views(old(lines)@) + text_lines(
                t.text,
                width,
                heading_style(level),
                t.spans,
            )).push(blank_line())
            &&& heading_views(final(headings)@) == heading_views(old(headings)@).push(
                HeadingView {
                    text: t.text,
                    level,
                    line_number: old(lines).len(),
                    id: id_at(node_views(nodes@), i as int),
                },
            )
        }),
{
    let (text, spans) = extract_text_with_inline_styles(nodes, i, limit);
    let id = match &nodes[i] {
        MarkupNode::Element { id, .. } => clone_opt(id),
        _ => None,
    };
    let ghost before = heading_views(headings@);
    let heading = HeadingInfo { text: text.clone(), level, line_number: lines.len(), id };
    let ghost added = heading@;
    headings.push(heading);
    assert(heading_views(headings@) =~= before.push(added));
    add_text_lines(lines, text.as_str(), width, style_of_level(level), spans);
    add_blank_line(lines);
}

/// Renders node `i`, whose subtree ends at or before `limit`.
pub fn process_element(
    nodes: &Vec<MarkupNode>,
    i: usize,
    limit: usize,
    lines: &mut Vec<RenderedLine>,
    headings: &mut Vec<HeadingInfo>,
    width: usize,
    in_paragraph: bool,
    blocks: &Vec<Option<Vec<String>>>,
)
    requires
        i < limit <= nodes.len(),
    ensures
        all_laid_out(line_views(old(lines)@)) ==> all_laid_out(line_views(final(lines)@)),
        final(lines).len() >= old(lines).len(),
        headings_ordered(heading_views(old(headings)@), old(lines).len() as int)
            ==> headings_ordered(heading_views(final(headings)@), final(lines).len() as int),
        rendered_of(final(lines)@, final(headings)@) == render_node(
            node_views(nodes@),
            i as int,
            limit as int,
            width,
            block_views(blocks@),
            in_paragraph,
            rendered_of(old(lines)@, old(headings)@),
        ),
    decreases limit - i, 0nat,
{
    let ghost nv = node_views(nodes@);
    match &nodes[i] {
        MarkupNode::Element { tag, id, alt, .. } => {
            let end = end_of(nodes, i, limit);
            let name = tag.as_str();
            assert(id_at(nv, i as int) == opt_view(*id));
            assert(alt_at(nv, i as int) == opt_view(*alt));
            match level_of(name) {
                Some(level) => {
                    process_heading(nodes, i, limit, lines, headings, width, level);
                    return ;
                },
                None => {},
            }
            if same_text(name, "pre") {
                process_code_block(nodes, i, end, blocks, lines);
            } else if same_text(name, "img") {
                process_image(alt, lines);
            } else if same_text(name, "p") {
                process_paragraph(nodes, i, limit, lines, width);
            } else if same_text(name, "blockquote") {
                process_blockquote(nodes, i, limit, lines, width);
            } else if same_text(name, "ul") {
                process_unordered_list(nodes, i, end, lines, width);
            } else if same_text(name, "ol") {
                process_ordered_list(nodes, i, end, lines, width);
            } else if same_text(name, "dl") {
                process_definition_list(nodes, i, end, lines, width);
            } else if same_text(name, "table") {
                process_table(nodes, i, end, lines, width);
            } else if same_text(name, "hr") {
                process_horizontal_rule(lines, width);
            } else if same_text(name, "aside") || same_text(name, "figure") || same_text(
                name,
                "figcaption",
            ) {
                process_semantic_container(nodes, i, end, name, lines, headings, width, blocks);
            } else if same_text(name, "nav") {
                process_navigation(nodes, i, end, lines);
            } else if same_text(name, "a") {
                if !in_paragraph {
                    process_link(nodes, i, limit, lines, width);
                }
            } else if inline_tag(name) {
                if !in_paragraph {
                    process_inline_as_block(nodes, i, limit, lines, width);
                }
            } else {
                process_container(nodes, i + 1, end, lines, headings, width, blocks);
            }
        },
        _ => {},
    }
}

/// Renders the sibling nodes in `from..to`, one after the other.
pub fn process_container(
    nodes: &Vec<MarkupNode>,
    from: usize,
    to: usize,
    lines: &mut Vec<RenderedLine>,
    headings: &mut Vec<HeadingInfo>,
    width: usize,
    blocks: &Vec<Option<Vec<String>>>,
)
    requires
        from <= to <= nodes.len(),
    ensures
        all_laid_out(line_views(old(lines)@)) ==> all_laid_out(line_views(final(lines)@)),
        final(lines).len() >= old(lines).len(),
        headings_ordered(heading_views(old(headings)@), old(lines).len() as int)
            ==> headings_ordered(heading_views(final(headings)@), final(lines).len() as int),
        rendered_of(final(lines)@, final(headings)@) == render_children(
            node_views(nodes@),
            from as int,
            to as int,
            width,
            block_views(blocks@),
            rendered_of(old(lines)@, old(headings)@),
        ),
    decreases to - from, 1nat,
{
    let ghost nv = node_views(nodes@);
    let ghost goal = render_children(
        nv,
        from as int,
        to as int,
        width,
        block_views(blocks@),
        rendered_of(lines@, headings@),
    );
    let mut j: usize = from;
    while j < to
        invariant
            from <= j <= to <= nodes.len(),
            nv == node_views(nodes@),
            goal == render_children(
                nv,
                j as int,
                to as int,
                width,
                block_views(blocks@),
                rendered_of(lines@, headings@),
            ),
            all_laid_out(line_views(old(lines)@)) ==> all_laid_out(line_views(lines@)),
            lines.len() >= old(lines).len(),
            headings_ordered(heading_views(old(headings)@), old(lines).len() as int)
                ==> headings_ordered(heading_views(headings@), lines.len() as int),
        decreases to - j,
    {
        process_element(nodes, j, to, lines, headings, width, false, blocks);
        j = end_of(nodes, j, to);
    }
}

/// The width that layout wraps at: the configured maximum, where there is
/// one, but no more than the terminal has; less the margin; and at least 1.
pub open spec fn effective_width(max_width: Option<usize>, terminal_width: u16) -> usize {
    let available = match max_width {
        Some(m) => if m < terminal_width {
            m
        } else {
            terminal_width as usize
        },
        None => terminal_width as usize,
    };
    if available > UI_MARGIN_WIDTH {
        (available - UI_MARGIN_WIDTH) as usize
    } else {
        1
    }
}

/// The width that layout wraps at.
pub fn compute_effective_width(max_width: Option<usize>, terminal_width: u16) -> (width: usize)
    ensures
        width == effective_width(max_width, terminal_width),
        width >= 1,
{
    let terminal: usize = terminal_width as usize;
    let available = match max_width {
        Some(m) => if m < terminal {
            m
        } else {
            terminal
        },
        None => terminal,
    };
    if available > UI_MARGIN_WIDTH {
        available - UI_MARGIN_WIDTH
    } else {
        1
    }
}

/// Lays out a parsed node sequence.
pub fn extract_and_render(nodes: &Vec<MarkupNode>, width: usize, blocks: &Vec<Option<Vec<String>>>) -> (r:
    (Vec<RenderedLine>, Vec<HeadingInfo>))
    ensures
        rendered_of(r.0@, r.1@) == laid_out(node_views(nodes@), width, block_views(blocks@)),
        all_laid_out(line_views(r.0@)),
        headings_ordered(heading_views(r.1@), r.0.len() as int),
{
    let mut lines: Vec<RenderedLine> = Vec::new();
    let mut headings: Vec<HeadingInfo> = Vec::new();
    assert(rendered_of(lines@, headings@) == (Rendered {
        lines: Seq::empty(),
        headings: Seq::empty(),
    })) by {
        assert(line_views(lines@) =~= Seq::<LineView>::empty());
        assert(heading_views(headings@) =~= Seq::<HeadingView>::empty());
    }
    let bodies = find_elements(nodes, 0, nodes.len(), "body", "body");
    let start: usize = if bodies.len() > 0 {
        bodies[0]
    } else {
        0
    };
    if start < nodes.len() {
        process_element(nodes, start, nodes.len(), &mut lines, &mut headings, width, false, blocks);
    }
    (lines, headings)
}

/// Lays out `markup` at `width` columns: the wrapped, styled lines and the
/// headings, given the highlighted fragments for its code blocks. The result
/// depends on the arguments alone.
pub fn layout(markup: &str, width: usize, blocks: &Vec<Option<Vec<String>>>) -> (r: (
    Vec<RenderedLine>,
    Vec<HeadingInfo>,
))
    ensures
        rendered_of(r.0@, r.1@) == laid_out(fragment_nodes(markup@), width, block_views(blocks@)),
        all_laid_out(line_views(r.0@)),
        headings_ordered(heading_views(r.1@), r.0.len() as int),
{
    let nodes = parse_fragment(markup);
    extract_and_render(&nodes, width, blocks)
}

/// Layout is idempotent: two results of laying out the same markup at the
/// same width, with the same highlighted fragments, are identical.
pub proof fn lemma_layout_idempotent(
    markup: Seq<char>,
    width: usize,
    blocks: Seq<Option<Seq<Seq<char>>>>,
    first: Rendered,
    second: Rendered,
)
    requires
        first == laid_out(fragment_nodes(markup), width, blocks),
        second == laid_out(fragment_nodes(markup), width, blocks),
    ensures
        first.lines == second.lines,
        first.headings == second.headings,
{
}

} // verus!
