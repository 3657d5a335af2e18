//! The lines of lists, definition lists, tables and navigation blocks.

use vstd::prelude::*;
use vstd::string::*;
use crate::decimal::{decimal, push_decimal};
use crate::epub::blocks::{add_blank_line, blank_line, narrowed, push_plain, shift_spans, shifted};
use crate::epub::inline::{element_text, extract_text_with_inline_styles, InlineText};
use crate::epub::markup::{
    collect_text, elements_named, end_of, find_elements, node_views, subtree_end, text_content,
    MarkupNode, NodeView,
};
use crate::epub::wrap::{add_text_lines, text_lines};
use crate::text::{
    byte_len, byte_length, chars_of, is_blank, lemma_byte_len_concat, owned, string_of, trim,
};
use crate::types::{
    all_laid_out, line_views, InlineStyle, LineStyle, LineStyleView, LineView, RenderedLine,
};

verus! {

/// The kinds of list entries.
#[derive(Debug, Clone, Copy, PartialEq, Eq, Structural)]
pub enum ItemKind {
    /// An entry of an unordered list.
    Bullet,
    /// An entry of an ordered list.
    Numbered,
    /// A term of a definition list.
    Term,
    /// A description of a definition list.
    Description,
}

/// What stands before the text of entry `k`, counted from zero.
pub open spec fn item_prefix(kind: ItemKind, k: int) -> Seq<char> {
    match kind {
        ItemKind::Bullet => "\u{2022} "@,
        ItemKind::Numbered => decimal((k + 1) as nat) + ". "@,
        ItemKind::Term => Seq::<char>::empty(),
        ItemKind::Description => "  "@,
    }
}

/// The width at which an entry is wrapped.
pub open spec fn item_width(kind: ItemKind, width: usize) -> usize {
    match kind {
        ItemKind::Bullet => narrowed(width, 2),
        ItemKind::Numbered => narrowed(width, 3),
        ItemKind::Term => width,
        ItemKind::Description => narrowed(width, 2),
    }
}

/// The block style of an entry.
pub open spec fn item_style(kind: ItemKind) -> LineStyleView {
    match kind {
        ItemKind::Term => LineStyleView::Heading3,
        _ => LineStyleView::Normal,
    }
}

/// The lines of the entries `k..` of `items`: each entry's text behind its
/// prefix, wrapped, with its spans moved right by the length of the prefix.
pub open spec fn item_lines(
    nodes: Seq<NodeView>,
    items: Seq<usize>,
    k: int,
    limit: int,
    width: usize,
    kind: ItemKind,
    acc: Seq<LineView>,
) -> Seq<LineView>
    decreases items.len() - k,
{
    if k < 0 || k >= items.len() {
        acc
    } else {
        let t = element_text(nodes, items[k] as int, limit);
        let prefix = item_prefix(kind, k);
        item_lines(
            nodes,
            items,
            k + 1,
            limit,
            width,
            kind,
            acc + text_lines(
                prefix + t.text,
                item_width(kind, width),
                item_style(kind),
                shifted(t.spans, byte_len(prefix) as usize),
            ),
        )
    }
}

fn prefix_of(kind: ItemKind, k: usize) -> (p: String)
    requires
        k < usize::MAX,
    ensures
        p@ == item_prefix(kind, k as int),
{
    match kind {
        ItemKind::Bullet => owned("\u{2022} "),
        ItemKind::Numbered => {
            let mut digits: Vec<char> = Vec::new();
            push_decimal(&mut digits, k + 1);
            assert(digits@ == decimal((k + 1) as nat));
            let mut p = string_of(&digits);
            p.append(". ");
            p
        },
        ItemKind::Term => String::new(),
        ItemKind::Description => owned("  "),
    }
}

fn width_of(kind: ItemKind, width: usize) -> (w: usize)
    ensures
        w == item_width(kind, width),
{
    match kind {
        ItemKind::Bullet => width.saturating_sub(2),
        ItemKind::Numbered => width.saturating_sub(3),
        ItemKind::Term => width,
        ItemKind::Description => width.saturating_sub(2),
    }
}

fn style_of(kind: ItemKind) -> (s: LineStyle)
    ensures
        s@ == item_style(kind),
{
    match kind {
        ItemKind::Term => LineStyle::Heading3,
        _ => LineStyle::Normal,
    }
}

/// Appends the lines of the entries `items`, elements below `limit`.
pub fn process_items(
    nodes: &Vec<MarkupNode>,
    items: &Vec<usize>,
    limit: usize,
    width: usize,
    kind: ItemKind,
    lines: &mut Vec<RenderedLine>,
)
    requires
        limit <= nodes.len(),
        forall|k: int| 0 <= k < items.len() ==> #[trigger] items[k] < limit,
    ensures
        all_laid_out(line_views(old(lines)@)) ==> all_laid_out(line_views(final(lines)@)),
        final(lines).len() >= old(lines).len(),
        line_views(final(lines)@) == item_lines(
            node_views(nodes@),
            items@,
            0,
            limit as int,
            width,
            kind,
            line_views(old(lines)@),
        ),
{
    let ghost nv = node_views(nodes@);
    let ghost goal = item_lines(nv, items@, 0, limit as int, width, kind, line_views(lines@));
    let mut k: usize = 0;
    while k < items.len()
        invariant
            k <= items.len(),
            limit <= nodes.len(),
            nv == node_views(nodes@),
            forall|j: int| 0 <= j < items.len() ==> #[trigger] items[j] < limit,
            goal == item_lines(nv, items@, k as int, limit as int, width, kind, line_views(lines@)),
            all_laid_out(line_views(old(lines)@)) ==> all_laid_out(line_views(lines@)),
            lines.len() >= old(lines).len(),
        decreases items.len() - k,
    {
        let (text, spans) = extract_text_with_inline_styles(nodes, items[k], limit);
        let mut full = prefix_of(kind, k);
        let by = byte_length(full.as_str());
        let ghost prefix = full@;
        full.append(text.as_str());
        let n = byte_length(full.as_str());
        let m = byte_length(text.as_str());
        proof {
            lemma_byte_len_concat(prefix, text@);
        }
        let moved = shift_spans(&spans, by, m);
        add_text_lines(lines, full.as_str(), width_of(kind, width), style_of(kind), moved);
        k += 1;
    }
}

/// Appends an unordered list: its entries behind bullets, and a blank line.
pub fn process_unordered_list(
    nodes: &Vec<MarkupNode>,
    i: usize,
    end: usize,
    lines: &mut Vec<RenderedLine>,
    width: usize,
)
    requires
        i < end <= nodes.len(),
    ensures
        all_laid_out(line_views(old(lines)@)) ==> all_laid_out(line_views(final(lines)@)),
        final(lines).len() >= old(lines).len(),
        line_views(final(lines)@) == item_lines(
            node_views(nodes@),
            elements_named(node_views(nodes@), i + 1, end as int, "li"@, "li"@),
            0,
            end as int,
            width,
            ItemKind::Bullet,
            line_views(old(lines)@),
        ).push(blank_line()),
{
    let items = find_elements(nodes, i + 1, end, "li", "li");
    process_items(nodes, &items, end, width, ItemKind::Bullet, lines);
    add_blank_line(lines);
}

/// Appends an ordered list: its entries behind their numbers, and a blank
/// line.
pub fn process_ordered_list(
    nodes: &Vec<MarkupNode>,
    i: usize,
    end: usize,
    lines: &mut Vec<RenderedLine>,
    width: usize,
)
    requires
        i < end <= nodes.len(),
    ensures
        all_laid_out(line_views(old(lines)@)) ==> all_laid_out(line_views(final(lines)@)),
        final(lines).len() >= old(lines).len(),
        line_views(final(lines)@) == item_lines(
            node_views(nodes@),
            elements_named(node_views(nodes@), i + 1, end as int, "li"@, "li"@),
            0,
            end as int,
            width,
            ItemKind::Numbered,
            line_views(old(lines)@),
        ).push(blank_line()),
{
    let items = find_elements(nodes, i + 1, end, "li", "li");
    process_items(nodes, &items, end, width, ItemKind::Numbered, lines);
    add_blank_line(lines);
}

/// Appends a definition list: its terms, then its descriptions indented,
/// and a blank line.
pub fn process_definition_list(
    nodes: &Vec<MarkupNode>,
    i: usize,
    end: usize,
    lines: &mut Vec<RenderedLine>,
    width: usize,
)
    requires
        i < end <= nodes.len(),
    ensures
        all_laid_out(line_views(old(lines)@)) ==> all_laid_out(line_views(final(lines)@)),
        final(lines).len() >= old(lines).len(),
        line_views(final(lines)@) == item_lines(
            node_views(nodes@),
            elements_named(node_views(nodes@), i + 1, end as int, "dd"@, "dd"@),
            0,
            end as int,
            width,
            ItemKind::Description,
            item_lines(
                node_views(nodes@),
                elements_named(node_views(nodes@), i + 1, end as int, "dt"@, "dt"@),
                0,
                end as int,
                width,
                ItemKind::Term,
                line_views(old(lines)@),
            ),
        ).push(blank_line()),
{
    let terms = find_elements(nodes, i + 1, end, "dt", "dt");
    process_items(nodes, &terms, end, width, ItemKind::Term, lines);
    let descriptions = find_elements(nodes, i + 1, end, "dd", "dd");
    process_items(nodes, &descriptions, end, width, ItemKind::Description, lines);
    add_blank_line(lines);
}

/// The text of the cells `k..` of a table row, joined by ` | `, with every
/// cell's spans moved to where its text stands in the row.
pub open spec fn row_text(
    nodes: Seq<NodeView>,
    cells: Seq<usize>,
    k: int,
    limit: int,
    acc: InlineText,
) -> InlineText
    decreases cells.len() - k,
{
    if k < 0 || k >= cells.len() {
        acc
    } else {
        let lead = if k > 0 {
            acc.text + " | "@
        } else {
            acc.text
        };
        let t = element_text(nodes, cells[k] as int, limit);
        row_text(
            nodes,
            cells,
            k + 1,
            limit,
            InlineText {
                text: lead + t.text,
                spans: acc.spans + shifted(t.spans, byte_len(lead) as usize),
            },
        )
    }
}

/// The lines of the rows `r..` of a table: one wrapped block per row that is
/// not blank.
pub open spec fn row_lines(
    nodes: Seq<NodeView>,
    rows: Seq<usize>,
    r: int,
    limit: int,
    width: usize,
    acc: Seq<LineView>,
) -> Seq<LineView>
    decreases rows.len() - r,
{
    if r < 0 || r >= rows.len() {
        acc
    } else {
        let row = rows[r] as int;
        let row_end = subtree_end(nodes, row, limit);
        let cells = elements_named(nodes, row + 1, row_end, "td"@, "th"@);
        let t = row_text(
            nodes,
            cells,
            0,
            row_end,
            InlineText { text: Seq::empty(), spans: Seq::empty() },
        );
        row_lines(
            nodes,
            rows,
            r + 1,
            limit,
            width,
            acc + text_lines(t.text, width, LineStyleView::Normal, t.spans),
        )
    }
}

/// The lines of the table `i`: a marker line, the rows, and a blank line.
pub open spec fn table_lines(nodes: Seq<NodeView>, i: int, end: int, width: usize) -> Seq<
    LineView,
> {
    row_lines(
        nodes,
        elements_named(nodes, i + 1, end, "tr"@, "tr"@),
        0,
        end,
        width,
        seq![LineView::plain("[Table]"@, LineStyleView::Normal)],
    ).push(blank_line())
}

fn row_of(nodes: &Vec<MarkupNode>, cells: &Vec<usize>, limit: usize) -> (r: (
    String,
    Vec<(usize, usize, InlineStyle)>,
))
    requires
        limit <= nodes.len(),
        forall|k: int| 0 <= k < cells.len() ==> #[trigger] cells[k] < limit,
    ensures
        (InlineText { text: r.0@, spans: r.1@ }) == row_text(
            node_views(nodes@),
            cells@,
            0,
            limit as int,
            InlineText { text: Seq::empty(), spans: Seq::empty() },
        ),
{
    let ghost nv = node_views(nodes@);
    let ghost goal = row_text(
        nv,
        cells@,
        0,
        limit as int,
        InlineText { text: Seq::empty(), spans: Seq::empty() },
    );
    let mut row = String::new();
    let mut row_spans: Vec<(usize, usize, InlineStyle)> = Vec::new();
    let mut k: usize = 0;
    while k < cells.len()
        invariant
            k <= cells.len(),
            limit <= nodes.len(),
            nv == node_views(nodes@),
            forall|j: int| 0 <= j < cells.len() ==> #[trigger] cells[j] < limit,
            goal == row_text(
                nv,
                cells@,
                k as int,
                limit as int,
                InlineText { text: row@, spans: row_spans@ },
            ),
        decreases cells.len() - k,
    {
        if k > 0 {
            row.append(" | ");
        }
        let ghost lead = row@;
        let at = byte_length(row.as_str());
        let (text, spans) = extract_text_with_inline_styles(nodes, cells[k], limit);
        row.append(text.as_str());
        let n = byte_length(row.as_str());
        let m = byte_length(text.as_str());
        proof {
            lemma_byte_len_concat(lead, text@);
        }
        let mut moved = shift_spans(&spans, at, m);
        let ghost before = row_spans@;
        let ghost added = moved@;
        row_spans.append(&mut moved);
        assert(row_spans@ == before + added);
        k += 1;
    }
    (row, row_spans)
}

/// Appends the lines of the table `i`, whose subtree ends at `end`.
pub fn process_table(
    nodes: &Vec<MarkupNode>,
    i: usize,
    end: usize,
    lines: &mut Vec<RenderedLine>,
    width: usize,
)
    requires
        i < end <= nodes.len(),
    ensures
        all_laid_out(line_views(old(lines)@)) ==> all_laid_out(line_views(final(lines)@)),
        final(lines).len() >= old(lines).len(),
        line_views(final(lines)@) == line_views(old(lines)@) + table_lines(
            node_views(nodes@),
            i as int,
            end as int,
            width,
        ),
{
    let ghost nv = node_views(nodes@);
    let ghost before = line_views(lines@);
    let ghost marker = seq![LineView::plain("[Table]"@, LineStyleView::Normal)];
    push_plain(lines, owned("[Table]"), LineStyle::Normal);
    let rows = find_elements(nodes, i + 1, end, "tr", "tr");
    let ghost goal = row_lines(nv, rows@, 0, end as int, width, marker);
    assert(line_views(lines@) =~= before + marker);
    assert(line_views(lines@).skip(before.len() as int) =~= marker);
    assert(line_views(lines@).take(before.len() as int) =~= before);
    let mut r: usize = 0;
    while r < rows.len()
        invariant
            r <= rows.len(),
            i < end <= nodes.len(),
            nv == node_views(nodes@),
            forall|j: int| 0 <= j < rows.len() ==> i + 1 <= #[trigger] rows[j] < end,
            line_views(lines@).len() >= before.len(),
            line_views(lines@).take(before.len() as int) == before,
            goal == row_lines(
                nv,
                rows@,
                r as int,
                end as int,
                width,
                line_views(lines@).skip(before.len() as int),
            ),
            all_laid_out(line_views(old(lines)@)) ==> all_laid_out(line_views(lines@)),
        decreases rows.len() - r,
    {
        let ghost sofar = line_views(lines@);
        let row = rows[r];
        let row_end = end_of(nodes, row, end);
        let cells = find_elements(nodes, row + 1, row_end, "td", "th");
        let (text, spans) = row_of(nodes, &cells, row_end);
        let ghost added = text_lines(text@, width, LineStyleView::Normal, spans@);
        add_text_lines(lines, text.as_str(), width, LineStyle::Normal, spans);
        assert(line_views(lines@).skip(before.len() as int) =~= sofar.skip(before.len() as int)
            + added);
        assert(line_views(lines@).take(before.len() as int) =~= before);
        r += 1;
    }
    let ghost body = line_views(lines@);
    add_blank_line(lines);
    assert(line_views(lines@) =~= before + body.skip(before.len() as int).push(blank_line()));
}

/// The lines of the links `k..` of a navigation block: the text of every
/// link that is not blank, behind an arrow.
pub open spec fn link_lines(
    nodes: Seq<NodeView>,
    links: Seq<usize>,
    k: int,
    limit: int,
    acc: Seq<LineView>,
) -> Seq<LineView>
    decreases links.len() - k,
{
    if k < 0 || k >= links.len() {
        acc
    } else {
        let a = links[k] as int;
        let text = text_content(nodes, a + 1, subtree_end(nodes, a, limit));
        link_lines(
            nodes,
            links,
            k + 1,
            limit,
            if is_blank(text) {
                acc
            } else {
                acc.push(LineView::plain("\u{2192} "@ + text, LineStyleView::Link))
            },
        )
    }
}

/// The lines of the navigation block `i`: a title line, its links, and a
/// blank line.
pub open spec fn navigation_lines(nodes: Seq<NodeView>, i: int, end: int) -> Seq<LineView> {
    link_lines(
        nodes,
        elements_named(nodes, i + 1, end, "a"@, "a"@),
        0,
        end,
        seq![
            LineView::plain(
                "\u{2500}\u{2500}\u{2500} Navigation \u{2500}\u{2500}\u{2500}"@,
                LineStyleView::Heading3,
            ),
        ],
    ).push(blank_line())
}

/// Appends the lines of the navigation block `i`, whose subtree ends at
/// `end`.
pub fn process_navigation(
    nodes: &Vec<MarkupNode>,
    i: usize,
    end: usize,
    lines: &mut Vec<RenderedLine>,
)
    requires
        i < end <= nodes.len(),
    ensures
        all_laid_out(line_views(old(lines)@)) ==> all_laid_out(line_views(final(lines)@)),
        final(lines).len() >= old(lines).len(),
        line_views(final(lines)@) == line_views(old(lines)@) + navigation_lines(
            node_views(nodes@),
            i as int,
            end as int,
        ),
{
    let ghost nv = node_views(nodes@);
    let ghost before = line_views(lines@);
    let ghost title = seq![
        LineView::plain(
            "\u{2500}\u{2500}\u{2500} Navigation \u{2500}\u{2500}\u{2500}"@,
            LineStyleView::Heading3,
        ),
    ];
    push_plain(
        lines,
        owned("\u{2500}\u{2500}\u{2500} Navigation \u{2500}\u{2500}\u{2500}"),
        LineStyle::Heading3,
    );
    let links = find_elements(nodes, i + 1, end, "a", "a");
    let ghost goal = link_lines(nv, links@, 0, end as int, title);
    assert(line_views(lines@) =~= before + title);
    assert(line_views(lines@).skip(before.len() as int) =~= title);
    assert(line_views(lines@).take(before.len() as int) =~= before);
    let mut k: usize = 0;
    while k < links.len()
        invariant
            k <= links.len(),
            i < end <= nodes.len(),
            nv == node_views(nodes@),
            forall|j: int| 0 <= j < links.len() ==> i + 1 <= #[trigger] links[j] < end,
            line_views(lines@).len() >= before.len(),
            line_views(lines@).take(before.len() as int) == before,
            goal == link_lines(
                nv,
                links@,
                k as int,
                end as int,
                line_views(lines@).skip(before.len() as int),
            ),
            all_laid_out(line_views(old(lines)@)) ==> all_laid_out(line_views(lines@)),
        decreases links.len() - k,
    {
        let ghost sofar = line_views(lines@);
        let a = links[k];
        let stop = end_of(nodes, a, end);
        let text = collect_text(nodes, a + 1, stop);
        let chars = chars_of(text.as_str());
        if trim(&chars).len() != 0 {
            let mut item = owned("\u{2192} ");
            item.append(text.as_str());
            push_plain(lines, item, LineStyle::Link);
            assert(line_views(lines@).skip(before.len() as int) =~= sofar.skip(
                before.len() as int,
            ).push(LineView::plain("\u{2192} "@ + text@, LineStyleView::Link)));
            assert(line_views(lines@).take(before.len() as int) =~= before);
        }
        k += 1;
    }
    let ghost body = line_views(lines@);
    add_blank_line(lines);
    assert(line_views(lines@) =~= before + body.skip(before.len() as int).push(blank_line()));
}

} // verus!
