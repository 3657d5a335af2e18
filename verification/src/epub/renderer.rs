//! Rendering of a whole chapter, and section resolution.
//!
//! A layout pass replaces a chapter's lines and positions its sections. A
//! chapter without declared sections gets one section per heading of level 2
//! or 3. Declared sections are positioned by their anchor id, else by their
//! normalised title, else at the chapter's start.

use vstd::prelude::*;
use vstd::string::*;
use crate::epub::blocks::{block_views, code_request, request_for};
use crate::epub::code_highlight::{fragment_text, joined, CodeHighlighter};
use crate::epub::markup::{
    end_of, fragment_nodes, node_views, parse_fragment, subtree_end, tag_at, MarkupNode,
    NodeView,
};
use crate::epub::walk::{
    compute_effective_width, effective_width, extract_and_render, heading_views, headings_ordered,
    laid_out, HeadingInfo, HeadingView,
};
use crate::text::{chars_of, replace_all, replaced, same_text, string_of, trim, trimmed};
use crate::types::{
    all_laid_out, clone_opt, section_views, Chapter, ChapterView, Rgb, Section, SectionView,
};

verus! {

/// `s` trimmed, with the entities `&amp;`, `&lt;`, `&gt;`, `&quot;` and
/// `&#39;` decoded, in that order.
pub open spec fn normalized(s: Seq<char>) -> Seq<char> {
    replaced(
        replaced(
            replaced(
                replaced(replaced(trimmed(s), "&amp;"@, "&"@), "&lt;"@, "<"@),
                "&gt;"@,
                ">"@,
            ),
            "&quot;"@,
            "\""@,
        ),
        "&#39;"@,
        "'"@,
    )
}

/// Trims `text` and decodes the five literal entities.
pub fn normalize_text(text: &str) -> (r: String)
    ensures
        r@ == normalized(text@),
{
    let chars = chars_of(text);
    let t0 = trim(&chars);
    let t1 = replace_all(&t0, &chars_of("&amp;"), &chars_of("&"));
    let t2 = replace_all(&t1, &chars_of("&lt;"), &chars_of("<"));
    let t3 = replace_all(&t2, &chars_of("&gt;"), &chars_of(">"));
    let t4 = replace_all(&t3, &chars_of("&quot;"), &chars_of("\""));
    let t5 = replace_all(&t4, &chars_of("&#39;"), &chars_of("'"));
    string_of(&t5)
}

/// One section per heading of level 2 or 3, in document order, with the
/// heading's text, line and anchor id.
pub open spec fn sections_from(headings: Seq<HeadingView>) -> Seq<SectionView>
    decreases headings.len(),
{
    if headings.len() == 0 {
        Seq::empty()
    } else {
        let init = sections_from(headings.drop_last());
        let h = headings.last();
        if 2 <= h.level <= 3 {
            init.push(SectionView { title: h.text, start_line: h.line_number, fragment_id: h.id })
        } else {
            init
        }
    }
}

/// Whether every section starts at or behind the one before it.
pub open spec fn sections_sorted(sections: Seq<SectionView>) -> bool {
    forall|i: int, j: int|
        0 <= i < j < sections.len() ==> sections[i].start_line <= sections[j].start_line
}

/// Sections that come from headings in the order of their lines are sorted
/// by their start, and start where a heading does.
pub proof fn lemma_sections_from_ordered(headings: Seq<HeadingView>, bound: int)
    requires
        headings_ordered(headings, bound),
    ensures
        sections_sorted(sections_from(headings)),
        forall|i: int|
            0 <= i < sections_from(headings).len() ==> exists|h: int|
                0 <= h < headings.len() && headings[h].line_number == (#[trigger] sections_from(
                    headings,
                )[i]).start_line,
    decreases headings.len(),
{
    if headings.len() > 0 {
        let init = headings.drop_last();
        assert(headings_ordered(init, bound)) by {
            assert forall|i: int, j: int| 0 <= i < j < init.len() implies init[i].line_number
                <= init[j].line_number by {
                assert(headings[i].line_number <= headings[j].line_number);
            }
            assert forall|i: int| 0 <= i < init.len() implies (#[trigger] init[i]).line_number
                <= bound by {
                assert(headings[i].line_number <= bound);
            }
        }
        lemma_sections_from_ordered(init, bound);
        let before = sections_from(init);
        let all = sections_from(headings);
        assert forall|i: int| 0 <= i < all.len() implies exists|h: int|
            0 <= h < headings.len() && headings[h].line_number == (#[trigger] all[i]).start_line by {
            if i < before.len() {
                let h = choose|h: int|
                    0 <= h < init.len() && init[h].line_number == before[i].start_line;
                assert(headings[h].line_number == all[i].start_line);
            } else {
                assert(headings[headings.len() - 1].line_number == all[i].start_line);
            }
        }
        assert forall|i: int, j: int| 0 <= i < j < all.len() implies all[i].start_line
            <= all[j].start_line by {
            if j < before.len() {
                assert(before[i].start_line <= before[j].start_line);
            } else {
                let h = choose|h: int|
                    0 <= h < init.len() && init[h].line_number == before[i].start_line;
                assert(headings[h].line_number <= headings[headings.len() - 1].line_number);
            }
        }
    }
}

/// The first heading at or after `from` whose anchor id is `anchor`.
pub open spec fn anchor_heading(headings: Seq<HeadingView>, anchor: Seq<char>, from: int) -> Option<
    int,
>
    decreases headings.len() - from,
{
    if from < 0 || from >= headings.len() {
        None
    } else if headings[from].id == Some(anchor) {
        Some(from)
    } else {
        anchor_heading(headings, anchor, from + 1)
    }
}

/// The first heading at or after `from` whose normalised text is `title`.
pub open spec fn title_heading(headings: Seq<HeadingView>, title: Seq<char>, from: int) -> Option<
    int,
>
    decreases headings.len() - from,
{
    if from < 0 || from >= headings.len() {
        None
    } else if normalized(headings[from].text) == title {
        Some(from)
    } else {
        title_heading(headings, title, from + 1)
    }
}

/// The line at which a declared section starts: that of the first heading
/// with the section's anchor id; without one, that of the first heading with
/// the section's normalised title; without one, the chapter's start.
pub open spec fn resolved_start(section: SectionView, headings: Seq<HeadingView>) -> usize {
    let by_anchor = match section.fragment_id {
        Some(a) => anchor_heading(headings, a, 0),
        None => None,
    };
    match by_anchor {
        Some(h) => headings[h].line_number,
        None => match title_heading(headings, normalized(section.title), 0) {
            Some(h) => headings[h].line_number,
            None => 0,
        },
    }
}

/// The declared sections, each at its resolved line.
pub open spec fn resolved_sections(sections: Seq<SectionView>, headings: Seq<HeadingView>) -> Seq<
    SectionView,
> {
    Seq::new(
        sections.len(),
        |k: int|
            SectionView {
                title: sections[k].title,
                start_line: resolved_start(sections[k], headings),
                fragment_id: sections[k].fragment_id,
            },
    )
}

/// The sections of a chapter after layout found `headings`.
pub open spec fn final_sections(declared: Seq<SectionView>, headings: Seq<HeadingView>) -> Seq<
    SectionView,
> {
    if declared.len() == 0 {
        sections_from(headings)
    } else {
        resolved_sections(declared, headings)
    }
}

/// An anchor match wins over a title match. Where a heading carries the
/// section's anchor id, the section starts at the line of the first heading
/// that does, whatever other heading matches the section's title.
pub proof fn lemma_anchor_match_wins(
    section: SectionView,
    headings: Seq<HeadingView>,
    anchored: int,
    titled: int,
)
    requires
        0 <= anchored < headings.len(),
        0 <= titled < headings.len(),
        anchored != titled,
        section.fragment_id is Some,
        headings[anchored].id == section.fragment_id,
        normalized(headings[titled].text) == normalized(section.title),
    ensures
        anchor_heading(headings, section.fragment_id->Some_0, 0) is Some,
        ({
            let first = anchor_heading(headings, section.fragment_id->Some_0, 0)->Some_0;
            &&& 0 <= first <= anchored
            &&& headings[first].id == section.fragment_id
            &&& resolved_start(section, headings) == headings[first].line_number
            &&& (forall|j: int| 0 <= j < anchored ==> headings[j].id != section.fragment_id)
                ==> first == anchored
        }),
{
    lemma_anchor_heading_found(headings, section.fragment_id->Some_0, 0, anchored);
}

proof fn lemma_anchor_heading_found(
    headings: Seq<HeadingView>,
    anchor: Seq<char>,
    from: int,
    at: int,
)
    requires
        0 <= from <= at < headings.len(),
        headings[at].id == Some(anchor),
    ensures
        anchor_heading(headings, anchor, from) is Some,
        from <= anchor_heading(headings, anchor, from)->Some_0 <= at,
        headings[anchor_heading(headings, anchor, from)->Some_0].id == Some(anchor),
        forall|j: int|
            from <= j < anchor_heading(headings, anchor, from)->Some_0 ==> headings[j].id != Some(
                anchor,
            ),
    decreases at - from,
{
    if headings[from].id != Some(anchor) {
        lemma_anchor_heading_found(headings, anchor, from + 1, at);
    }
}

/// The sections for the headings of level 2 and 3.
pub fn sections_from_headings(headings: &Vec<HeadingInfo>) -> (sections: Vec<Section>)
    ensures
        section_views(sections@) == sections_from(heading_views(headings@)),
{
    let ghost hv = heading_views(headings@);
    let mut sections: Vec<Section> = Vec::new();
    let mut k: usize = 0;
    assert(section_views(sections@) =~= sections_from(hv.take(0)));
    while k < headings.len()
        invariant
            k <= headings.len(),
            hv == heading_views(headings@),
            section_views(sections@) == sections_from(hv.take(k as int)),
        decreases headings.len() - k,
    {
        let ghost before = section_views(sections@);
        assert(hv.take(k + 1).drop_last() == hv.take(k as int));
        let h = &headings[k];
        if h.level >= 2 && h.level <= 3 {
            let section = Section {
                title: h.text.clone(),
                start_line: h.line_number,
                fragment_id: clone_opt(&h.id),
            };
            let ghost added = section@;
            sections.push(section);
            assert(section_views(sections@) =~= before.push(added));
        }
        k += 1;
    }
    assert(hv.take(hv.len() as int) == hv);
    sections
}

fn find_anchor(headings: &Vec<HeadingInfo>, anchor: &str) -> (found: Option<usize>)
    ensures
        match found {
            Some(h) => h < headings.len() && anchor_heading(heading_views(headings@), anchor@, 0)
                == Some(h as int),
            None => anchor_heading(heading_views(headings@), anchor@, 0) is None,
        },
{
    let ghost hv = heading_views(headings@);
    let mut k: usize = 0;
    while k < headings.len()
        invariant
            k <= headings.len(),
            hv == heading_views(headings@),
            anchor_heading(hv, anchor@, 0) == anchor_heading(hv, anchor@, k as int),
        decreases headings.len() - k,
    {
        let same = match &headings[k].id {
            Some(id) => same_text(id.as_str(), anchor),
            None => false,
        };
        if same {
            return Some(k);
        }
        k += 1;
    }
    None
}

fn find_title(headings: &Vec<HeadingInfo>, title: &str) -> (found: Option<usize>)
    ensures
        match found {
            Some(h) => h < headings.len() && title_heading(heading_views(headings@), title@, 0)
                == Some(h as int),
            None => title_heading(heading_views(headings@), title@, 0) is None,
        },
{
    let ghost hv = heading_views(headings@);
    let mut k: usize = 0;
    while k < headings.len()
        invariant
            k <= headings.len(),
            hv == heading_views(headings@),
            title_heading(hv, title@, 0) == title_heading(hv, title@, k as int),
        decreases headings.len() - k,
    {
        let text = normalize_text(headings[k].text.as_str());
        if same_text(text.as_str(), title) {
            return Some(k);
        }
        k += 1;
    }
    None
}

/// The line at which a declared section starts.
pub fn resolve_start(section: &Section, headings: &Vec<HeadingInfo>) -> (line: usize)
    ensures
        line == resolved_start(section@, heading_views(headings@)),
{
    let by_anchor = match &section.fragment_id {
        Some(a) => find_anchor(headings, a.as_str()),
        None => None,
    };
    match by_anchor {
        Some(h) => headings[h].line_number,
        None => {
            let title = normalize_text(section.title.as_str());
            match find_title(headings, title.as_str()) {
                Some(h) => headings[h].line_number,
                None => 0,
            }
        },
    }
}

/// The sections of a chapter after layout: synthesised from the headings
/// where none were declared, else the declared ones at their resolved lines.
pub fn resolve_sections(declared: &Vec<Section>, headings: &Vec<HeadingInfo>) -> (sections: Vec<
    Section,
>)
    ensures
        section_views(sections@) == final_sections(
            section_views(declared@),
            heading_views(headings@),
        ),
{
    if declared.len() == 0 {
        return sections_from_headings(headings);
    }
    let ghost goal = resolved_sections(section_views(declared@), heading_views(headings@));
    let mut sections: Vec<Section> = Vec::new();
    let mut k: usize = 0;
    assert(section_views(sections@) =~= goal.take(0));
    while k < declared.len()
        invariant
            k <= declared.len(),
            goal == resolved_sections(section_views(declared@), heading_views(headings@)),
            section_views(sections@) == goal.take(k as int),
        decreases declared.len() - k,
    {
        let ghost before = section_views(sections@);
        let d = &declared[k];
        let section = Section {
            title: d.title.clone(),
            start_line: resolve_start(d, headings),
            fragment_id: clone_opt(&d.fragment_id),
        };
        assert(section@ == goal[k as int]);
        sections.push(section);
        assert(section_views(sections@) =~= before.push(goal[k as int]));
        assert(goal.take(k + 1) == goal.take(k as int).push(goal[k as int]));
        k += 1;
    }
    assert(goal.take(goal.len() as int) == goal);
    sections
}

/// A chapter after a layout pass over `nodes` at `width`: its lines are
/// replaced by the new ones and its sections are positioned anew; title and
/// markup stay.
pub open spec fn chapter_rendered(
    chapter: ChapterView,
    nodes: Seq<NodeView>,
    width: usize,
    blocks: Seq<Option<Seq<Seq<char>>>>,
) -> ChapterView {
    let out = laid_out(nodes, width, blocks);
    ChapterView {
        title: chapter.title,
        sections: final_sections(chapter.sections, out.headings),
        content_lines: out.lines,
        file_path: chapter.file_path,
    }
}

/// Whether node `i` is a preformatted element that asks the highlighter for
/// code.
pub open spec fn asks_highlighter(nodes: Seq<NodeView>, i: int) -> bool {
    tag_at(nodes, i) == Some("pre"@) && code_request(
        nodes,
        i,
        subtree_end(nodes, i, nodes.len() as int),
    ) is Some
}

/// Whether the highlighted fragments belong to the nodes: there is one
/// entry per node; a node has fragments exactly where it asks the
/// highlighter for code; and its fragments, joined, are that code.
pub open spec fn blocks_cover(nodes: Seq<NodeView>, blocks: Seq<Option<Seq<Seq<char>>>>) -> bool {
    &&& blocks.len() == nodes.len()
    &&& forall|i: int|
        0 <= i < nodes.len() ==> match #[trigger] blocks[i] {
            Some(texts) => asks_highlighter(nodes, i) && joined(texts) == code_request(
                nodes,
                i,
                subtree_end(nodes, i, nodes.len() as int),
            )->Some_0.0,
            None => !asks_highlighter(nodes, i),
        }
}

/// Whether `after` is `before` after a layout pass of its markup for the
/// given maximum and terminal width, with fragments from the highlighter
/// that cover the code they are for, however they are cut.
pub open spec fn is_fresh_layout(
    before: ChapterView,
    after: ChapterView,
    max_width: Option<usize>,
    terminal_width: u16,
) -> bool {
    exists|blocks: Seq<Option<Seq<Seq<char>>>>|
        blocks_cover(fragment_nodes(before.file_path), blocks) && after
            == #[trigger] chapter_rendered(
            before,
            fragment_nodes(before.file_path),
            effective_width(max_width, terminal_width),
            blocks,
        )
}

/// A layout pass keeps a chapter's title and markup, whatever the
/// highlighter answers.
pub proof fn lemma_layout_keeps_markup(
    before: ChapterView,
    after: ChapterView,
    max_width: Option<usize>,
    terminal_width: u16,
)
    requires
        is_fresh_layout(before, after, max_width, terminal_width),
    ensures
        after.title == before.title,
        after.file_path == before.file_path,
{
}

/// Laying a chapter out is idempotent where the highlighter has no say. Of a
/// chapter whose markup asks the highlighter for nothing, a second layout
/// pass at the same widths leaves the lines exactly as the first left them.
pub proof fn lemma_render_chapter_idempotent(
    before: ChapterView,
    first: ChapterView,
    second: ChapterView,
    max_width: Option<usize>,
    terminal_width: u16,
)
    requires
        is_fresh_layout(before, first, max_width, terminal_width),
        is_fresh_layout(first, second, max_width, terminal_width),
        forall|i: int|
            0 <= i < fragment_nodes(before.file_path).len() ==> !#[trigger] asks_highlighter(
                fragment_nodes(before.file_path),
                i,
            ),
    ensures
        second.content_lines == first.content_lines,
        second.title == first.title,
        second.file_path == first.file_path,
{
    let nodes = fragment_nodes(before.file_path);
    let width = effective_width(max_width, terminal_width);
    let one = choose|blocks: Seq<Option<Seq<Seq<char>>>>|
        blocks_cover(nodes, blocks) && first == #[trigger] chapter_rendered(
            before,
            nodes,
            width,
            blocks,
        );
    assert(first.file_path == before.file_path);
    let two = choose|blocks: Seq<Option<Seq<Seq<char>>>>|
        blocks_cover(nodes, blocks) && second == #[trigger] chapter_rendered(
            first,
            nodes,
            width,
            blocks,
        );
    assert forall|i: int| 0 <= i < nodes.len() implies one[i] == two[i] by {
        assert(!asks_highlighter(nodes, i));
        assert(one[i] is None);
        assert(two[i] is None);
    }
    assert(one =~= two);
}

/// Asks the highlighter for the fragments of every preformatted element
/// that holds code with a language hint. The result has one entry per node;
/// the fragments of an entry, joined, are the code of its node.
pub fn highlight_blocks(nodes: &Vec<MarkupNode>, highlighter: &CodeHighlighter) -> (blocks: Vec<
    Option<Vec<String>>,
>)
    ensures
        blocks_cover(node_views(nodes@), block_views(blocks@)),
{
    let ghost nv = node_views(nodes@);
    let mut blocks: Vec<Option<Vec<String>>> = Vec::new();
    let mut i: usize = 0;
    while i < nodes.len()
        invariant
            i <= nodes.len(),
            blocks.len() == i,
            nv == node_views(nodes@),
            forall|j: int|
                0 <= j < i ==> match #[trigger] block_views(blocks@)[j] {
                    Some(texts) => asks_highlighter(nv, j) && joined(texts) == code_request(
                        nv,
                        j,
                        subtree_end(nv, j, nv.len() as int),
                    )->Some_0.0,
                    None => !asks_highlighter(nv, j),
                },
        decreases nodes.len() - i,
    {
        let is_pre = match &nodes[i] {
            MarkupNode::Element { tag, .. } => same_text(tag.as_str(), "pre"),
            _ => false,
        };
        assert(is_pre == (tag_at(nv, i as int) == Some("pre"@)));
        let mut entry: Option<Vec<String>> = None;
        if is_pre {
            let end = end_of(nodes, i, nodes.len());
            match request_for(nodes, i, end) {
                Some((code, lang)) => {
                    let fragments = highlighter.highlight_code(code.as_str(), Some(lang.as_str()));
                    let mut texts: Vec<String> = Vec::new();
                    let mut k: usize = 0;
                    assert(fragments@.take(0) =~= Seq::<(String, Rgb)>::empty());
                    assert(crate::text::string_views(texts@) =~= Seq::<Seq<char>>::empty());
                    while k < fragments.len()
                        invariant
                            k <= fragments.len(),
                            joined(crate::text::string_views(texts@)) == fragment_text(
                                fragments@.take(k as int),
                            ),
                        decreases fragments.len() - k,
                    {
                        let ghost before = crate::text::string_views(texts@);
                        assert(fragments@.take(k + 1).drop_last() =~= fragments@.take(k as int));
                        texts.push(fragments[k].0.clone());
                        assert(crate::text::string_views(texts@).drop_last() =~= before);
                        k += 1;
                    }
                    assert(fragments@.take(fragments@.len() as int) =~= fragments@);
                    entry = Some(texts);
                },
                None => {},
            }
        }
        let ghost before = block_views(blocks@);
        let ghost added: Option<Seq<Seq<char>>> = if entry is Some {
            Some(crate::text::string_views(entry->Some_0@))
        } else {
            None
        };
        blocks.push(entry);
        assert(block_views(blocks@) =~= before.push(added));
        i += 1;
    }
    blocks
}

/// Lays out the chapter from its parsed nodes at `width`, with the given
/// highlighted fragments: replaces its lines and positions its sections.
pub fn render_parsed(
    chapter: &mut Chapter,
    nodes: &Vec<MarkupNode>,
    width: usize,
    blocks: &Vec<Option<Vec<String>>>,
)
    ensures
        final(chapter)@ == chapter_rendered(
            old(chapter)@,
            node_views(nodes@),
            width,
            block_views(blocks@),
        ),
        all_laid_out(final(chapter)@.content_lines),
        old(chapter)@.sections.len() == 0 ==> sections_sorted(final(chapter)@.sections),
{
    let (lines, headings) = extract_and_render(nodes, width, blocks);
    let sections = resolve_sections(&chapter.sections, &headings);
    proof {
        lemma_sections_from_ordered(heading_views(headings@), lines.len() as int);
    }
    chapter.sections = sections;
    chapter.content_lines = lines;
}

/// Renders a chapter's markup into styled, wrapped lines and positions its
/// sections. The width is the configured maximum, if any, within the
/// terminal's width, less the margin, and at least 1. Code with a language
/// hint is sent to `highlighter`; whatever fragments it answers with, the
/// chapter is the exact layout of its markup with those fragments.
pub fn render_chapter(
    chapter: &mut Chapter,
    max_width: Option<usize>,
    terminal_width: u16,
    highlighter: &CodeHighlighter,
)
    ensures
        is_fresh_layout(old(chapter)@, final(chapter)@, max_width, terminal_width),
        all_laid_out(final(chapter)@.content_lines),
        old(chapter)@.sections.len() == 0 ==> sections_sorted(final(chapter)@.sections),
{
    let width = compute_effective_width(max_width, terminal_width);
    let nodes = parse_fragment(chapter.file_path.as_str());
    let blocks = highlight_blocks(&nodes, highlighter);
    render_parsed(chapter, &nodes, width, &blocks);
    assert(blocks_cover(fragment_nodes(old(chapter).file_path@), block_views(blocks@)));
    assert(chapter@ == chapter_rendered(
        old(chapter)@,
        fragment_nodes(old(chapter).file_path@),
        effective_width(max_width, terminal_width),
        block_views(blocks@),
    ));
}

} // verus!
