//! The outline: node identities, the mapping between a cursor position and
//! an outline path, and the tree built from a book.

use vstd::prelude::*;
use vstd::string::*;
use crate::decimal::{
    decimal, lemma_decimal_digits, lemma_parse_decimal, parse_usize, parsed_usize, push_decimal,
};
use crate::epub::renderer::sections_sorted;
use crate::expand::ExpandState;
use crate::text::{
    chars_equal, chars_of, has_prefix, split, split_on, starts_with, string_of, string_views, views,
};
use crate::types::{
    section_views, Book, Chapter, ChapterView, SectionView, TocItem, TocLeaf, TocState,
};

verus! {

/// The identity of the outline node of chapter `chapter`.
pub open spec fn chapter_id(chapter: usize) -> Seq<char> {
    "chapter_"@ + decimal(chapter as nat)
}

/// The identity of the outline node of section `section` of chapter
/// `chapter`.
pub open spec fn section_id(chapter: usize, section: usize) -> Seq<char> {
    "chapter_"@ + decimal(chapter as nat) + "_section_"@ + decimal(section as nat)
}

/// The chapter and section that an identity names: `chapter_<i>` names a
/// chapter, `chapter_<i>_section_<j>` a section. Anything else is no
/// identity.
pub open spec fn parsed_item_id(id: Seq<char>) -> Option<(usize, Option<usize>)> {
    let parts = split_on(id, '_');
    if !starts_with(id, "chapter_"@) {
        None
    } else if parts.len() == 2 {
        match parsed_usize(parts[1]) {
            Some(chapter) => Some((chapter, None)),
            None => None,
        }
    } else if parts.len() == 4 && parts[2] == "section"@ {
        match (parsed_usize(parts[1]), parsed_usize(parts[3])) {
            (Some(chapter), Some(section)) => Some((chapter, Some(section))),
            _ => None,
        }
    } else {
        None
    }
}

/// Whether section `idx` holds `line`: it starts at or before the line, and
/// the section after it, if there is one, starts behind the line. The last
/// section holds every line from its start on.
pub open spec fn section_holds(sections: Seq<SectionView>, idx: int, line: usize) -> bool {
    &&& 0 <= idx < sections.len()
    &&& sections[idx].start_line <= line
    &&& idx + 1 < sections.len() ==> line < sections[idx + 1].start_line
}

/// The first section at or after `from` that holds `line`.
pub open spec fn section_at(sections: Seq<SectionView>, line: usize, from: int) -> Option<int>
    decreases sections.len() - from,
{
    if from < 0 || from >= sections.len() {
        None
    } else if section_holds(sections, from, line) {
        Some(from)
    } else {
        section_at(sections, line, from + 1)
    }
}

/// The outline path for a cursor position: the chapter's node, followed by
/// the node of the section that holds the line, if one does. `None` where
/// the book has no such chapter.
pub open spec fn located_path(chapters: Seq<ChapterView>, chapter: usize, line: usize) -> Option<
    Seq<Seq<char>>,
> {
    if chapter >= chapters.len() {
        None
    } else {
        match section_at(chapters[chapter as int].sections, line, 0) {
            Some(s) => Some(seq![chapter_id(chapter), section_id(chapter, s as usize)]),
            None => Some(seq![chapter_id(chapter)]),
        }
    }
}

/// A text without the separator is a single piece.
proof fn lemma_split_plain(s: Seq<char>, sep: char)
    requires
        forall|i: int| 0 <= i < s.len() ==> s[i] != sep,
    ensures
        split_on(s, sep) == seq![s],
    decreases s.len(),
{
    if s.len() > 0 {
        lemma_split_plain(s.drop_last(), sep);
        assert(s.drop_last().push(s.last()) =~= s);
        assert(seq![s.drop_last()].drop_last().push(s) =~= seq![s]);
    } else {
        assert(Seq::<char>::empty() =~= s);
    }
}

/// Behind a separator, a text without the separator is one more piece.
proof fn lemma_split_append(a: Seq<char>, sep: char, b: Seq<char>)
    requires
        forall|i: int| 0 <= i < b.len() ==> b[i] != sep,
    ensures
        split_on(a + seq![sep] + b, sep) == split_on(a, sep).push(b),
    decreases b.len(),
{
    let s = a + seq![sep] + b;
    if b.len() == 0 {
        assert(s.drop_last() =~= a);
        assert(Seq::<char>::empty() =~= b);
    } else {
        assert(s.drop_last() =~= a + seq![sep] + b.drop_last());
        assert(s.last() == b.last());
        lemma_split_append(a, sep, b.drop_last());
        let init = split_on(a, sep).push(b.drop_last());
        assert(init.drop_last() =~= split_on(a, sep));
        assert(b.drop_last().push(b.last()) =~= b);
    }
}

/// A chapter identity names its chapter.
pub proof fn lemma_parse_chapter_id(chapter: usize)
    ensures
        parsed_item_id(chapter_id(chapter)) == Some((chapter, None::<usize>)),
{
    reveal_strlit("chapter_");
    reveal_strlit("chapter");
    let number = decimal(chapter as nat);
    lemma_decimal_digits(chapter as nat);
    lemma_parse_decimal(chapter as nat);
    let id = chapter_id(chapter);
    assert(id =~= "chapter"@ + seq!['_'] + number);
    lemma_split_plain("chapter"@, '_');
    lemma_split_append("chapter"@, '_', number);
    assert(id.take(8) =~= "chapter_"@);
    assert(split_on(id, '_') =~= seq!["chapter"@, number]);
}

/// A section identity names its chapter and section.
pub proof fn lemma_parse_section_id(chapter: usize, section: usize)
    ensures
        parsed_item_id(section_id(chapter, section)) == Some((chapter, Some(section))),
{
    reveal_strlit("chapter_");
    reveal_strlit("chapter");
    reveal_strlit("_section_");
    reveal_strlit("section");
    let first = decimal(chapter as nat);
    let second = decimal(section as nat);
    lemma_decimal_digits(chapter as nat);
    lemma_decimal_digits(section as nat);
    lemma_parse_decimal(chapter as nat);
    lemma_parse_decimal(section as nat);
    let id = section_id(chapter, section);
    let one = "chapter"@ + seq!['_'] + first;
    let two = one + seq!['_'] + "section"@;
    assert(id =~= two + seq!['_'] + second);
    lemma_split_plain("chapter"@, '_');
    lemma_split_append("chapter"@, '_', first);
    lemma_split_append(one, '_', "section"@);
    lemma_split_append(two, '_', second);
    assert(id.take(8) =~= "chapter_"@);
    assert(split_on(id, '_') =~= seq!["chapter"@, first, "section"@, second]);
}

/// Where a section is found for a line, it is the first that holds it.
pub proof fn lemma_section_at_holds(sections: Seq<SectionView>, line: usize, from: int)
    requires
        0 <= from,
    ensures
        match section_at(sections, line, from) {
            Some(s) => from <= s < sections.len() && section_holds(sections, s, line) && forall|
                j: int,
            |
                from <= j < s ==> !section_holds(sections, j, line),
            None => forall|j: int| from <= j < sections.len() ==> !section_holds(sections, j, line),
        },
    decreases sections.len() - from,
{
    if from < sections.len() && !section_holds(sections, from, line) {
        lemma_section_at_holds(sections, line, from + 1);
    }
}

/// Behind a section that starts at or before the line, some section holds
/// the line.
proof fn lemma_some_section_holds(sections: Seq<SectionView>, line: usize, k: int)
    requires
        0 <= k < sections.len(),
        sections[k].start_line <= line,
    ensures
        exists|j: int| k <= j < sections.len() && section_holds(sections, j, line),
    decreases sections.len() - k,
{
    if section_holds(sections, k, line) {
    } else {
        lemma_some_section_holds(sections, line, k + 1);
        let j = choose|j: int| k + 1 <= j < sections.len() && section_holds(sections, j, line);
        assert(k <= j < sections.len() && section_holds(sections, j, line));
    }
}

/// In sections sorted by their start, the section located for a line is the
/// last one that starts at or before the line; none is located exactly
/// where there is no section or the line lies before the first.
pub proof fn lemma_section_at_sorted(sections: Seq<SectionView>, line: usize)
    requires
        sections_sorted(sections),
    ensures
        match section_at(sections, line, 0) {
            Some(s) => {
                &&& 0 <= s < sections.len()
                &&& sections[s].start_line <= line
                &&& forall|j: int| s < j < sections.len() ==> line < sections[j].start_line
            },
            None => sections.len() == 0 || line < sections[0].start_line,
        },
{
    lemma_section_at_holds(sections, line, 0);
    match section_at(sections, line, 0) {
        Some(s) => {
            assert forall|j: int| s < j < sections.len() implies line < sections[j].start_line by {
                assert(sections[s + 1].start_line <= sections[j].start_line);
            }
        },
        None => {
            if sections.len() > 0 && sections[0].start_line <= line {
                lemma_some_section_holds(sections, line, 0);
            }
        },
    }
}

/// In a chapter whose sections are sorted by their start, the path located
/// for a line is the chapter alone exactly where the chapter has no section
/// or the line lies before the first; else it names the last section that
/// starts at or before the line.
pub proof fn lemma_located_path_sorted(chapters: Seq<ChapterView>, chapter: usize, line: usize)
    requires
        chapter < chapters.len(),
        sections_sorted(chapters[chapter as int].sections),
    ensures
        located_path(chapters, chapter, line) is Some,
        ({
            let path = located_path(chapters, chapter, line)->Some_0;
            let sections = chapters[chapter as int].sections;
            &&& path[0] == chapter_id(chapter)
            &&& path.len() == 1 <==> sections.len() == 0 || line < sections[0].start_line
            &&& path.len() != 1 ==> path.len() == 2 && exists|s: int|
                {
                    &&& 0 <= s < sections.len()
                    &&& path[1] == #[trigger] section_id(chapter, s as usize)
                    &&& sections[s].start_line <= line
                    &&& forall|j: int| s < j < sections.len() ==> line < sections[j].start_line
                }
        }),
{
    let sections = chapters[chapter as int].sections;
    lemma_section_at_sorted(sections, line);
    match section_at(sections, line, 0) {
        Some(s) => {
            let path = located_path(chapters, chapter, line)->Some_0;
            assert(path[1] == section_id(chapter, s as usize));
        },
        None => {},
    }
}

/// Locating and selecting are inverse to each other. For every chapter of
/// the book and every line, the path that the cursor position is located at
/// has one or two elements; its first element, read back as an identity,
/// names the chapter; and where it has a second, that names a section of the
/// chapter which starts at or before the line while the section after it, if
/// any, starts behind the line.
pub proof fn lemma_locate_select_inverse(chapters: Seq<ChapterView>, chapter: usize, line: usize)
    requires
        chapter < chapters.len(),
        chapters[chapter as int].sections.len() <= usize::MAX,
    ensures
        located_path(chapters, chapter, line) is Some,
        ({
            let path = located_path(chapters, chapter, line)->Some_0;
            let sections = chapters[chapter as int].sections;
            &&& 1 <= path.len() <= 2
            &&& parsed_item_id(path[0]) == Some((chapter, None::<usize>))
            &&& path.len() == 2 ==> match parsed_item_id(path[1]) {
                Some((c, Some(s))) => {
                    &&& c == chapter
                    &&& s < sections.len()
                    &&& sections[s as int].start_line <= line
                    &&& s + 1 < sections.len() ==> sections[s + 1].start_line > line
                },
                _ => false,
            }
        }),
{
    let sections = chapters[chapter as int].sections;
    lemma_parse_chapter_id(chapter);
    lemma_section_at_holds(sections, line, 0);
    match section_at(sections, line, 0) {
        Some(s) => {
            lemma_parse_section_id(chapter, s as usize);
            let path = located_path(chapters, chapter, line)->Some_0;
            assert(parsed_item_id(path[1]) == Some((chapter, Some(s as usize))));
        },
        None => {},
    }
}

/// The title of an outline entry and the identities in the tree for a book:
/// one entry per chapter, holding one entry per section.
pub open spec fn tree_matches(items: Seq<TocItem>, chapters: Seq<ChapterView>) -> bool {
    &&& items.len() == chapters.len()
    &&& forall|c: int|
        0 <= c < items.len() ==> {
            let item = #[trigger] items[c];
            &&& item.id@ == chapter_id(c as usize)
            &&& item.title@ == chapters[c].title
            &&& item.children@.len() == chapters[c].sections.len()
            &&& forall|s: int|
                0 <= s < item.children@.len() ==> {
                    let leaf = #[trigger] item.children@[s];
                    &&& leaf.id@ == section_id(c as usize, s as usize)
                    &&& leaf.title@ == chapters[c].sections[s].title
                }
        }
}

/// Helpers for the outline and its synchronisation with the cursor.
pub struct TocManager;

impl TocManager {
    /// The identity of a chapter's node.
    pub fn make_chapter_id(chapter_idx: usize) -> (id: String)
        ensures
            id@ == chapter_id(chapter_idx),
    {
        let mut chars = chars_of("chapter_");
        push_decimal(&mut chars, chapter_idx);
        string_of(&chars)
    }

    /// The identity of a section's node.
    pub fn make_section_id(chapter_idx: usize, section_idx: usize) -> (id: String)
        ensures
            id@ == section_id(chapter_idx, section_idx),
    {
        let mut chars = chars_of("chapter_");
        push_decimal(&mut chars, chapter_idx);
        crate::text::extend_chars(&mut chars, &chars_of("_section_"));
        push_decimal(&mut chars, section_idx);
        string_of(&chars)
    }

    /// Reads an identity: the chapter, and the section where it names one.
    /// `None` for anything that is no identity.
    pub fn parse_item_id(item_id: &str) -> (r: Option<(usize, Option<usize>)>)
        ensures
            r == parsed_item_id(item_id@),
    {
        let chars = chars_of(item_id);
        if !has_prefix(&chars, &chars_of("chapter_")) {
            return None;
        }
        let parts = split(&chars, '_');
        assert(views(parts@).len() == parts.len());
        if parts.len() == 2 {
            assert(views(parts@)[1] == parts[1]@);
            match parse_usize(&parts[1]) {
                Some(chapter) => Some((chapter, None)),
                None => None,
            }
        } else if parts.len() == 4 && chars_equal(&parts[2], &chars_of("section")) {
            assert(views(parts@)[1] == parts[1]@);
            assert(views(parts@)[2] == parts[2]@);
            assert(views(parts@)[3] == parts[3]@);
            let chapter = parse_usize(&parts[1]);
            let section = parse_usize(&parts[3]);
            match (chapter, section) {
                (Some(c), Some(s)) => Some((c, Some(s))),
                _ => None,
            }
        } else {
            if parts.len() == 4 {
                assert(views(parts@)[2] == parts[2]@);
            }
            None
        }
    }

    /// The first section of the chapter that holds the line.
    pub fn find_section_at_line(chapter: &Chapter, cursor_line: usize) -> (r: Option<usize>)
        ensures
            match r {
                Some(s) => section_at(chapter@.sections, cursor_line, 0) == Some(s as int),
                None => section_at(chapter@.sections, cursor_line, 0) is None,
            },
            r is Some ==> r->Some_0 < chapter.sections.len(),
    {
        let ghost sv = chapter@.sections;
        let n = chapter.sections.len();
        let mut idx: usize = 0;
        while idx < n
            invariant
                idx <= n,
                n == chapter.sections.len(),
                sv == section_views(chapter.sections@),
                section_at(sv, cursor_line, 0) == section_at(sv, cursor_line, idx as int),
            decreases n - idx,
        {
            assert(sv[idx as int] == chapter.sections[idx as int]@);
            assert(idx + 1 < n ==> sv[idx + 1] == chapter.sections[idx + 1]@);
            let before_next = if idx + 1 < n {
                cursor_line < chapter.sections[idx + 1].start_line
            } else {
                true
            };
            if chapter.sections[idx].start_line <= cursor_line && before_next {
                return Some(idx);
            }
            idx += 1;
        }
        None
    }

    /// The outline path for the cursor position.
    pub fn find_item_for_cursor(book: &Book, current_chapter: usize, cursor_line: usize) -> (r:
        Option<Vec<String>>)
        ensures
            match r {
                Some(path) => located_path(book.chapters_view(), current_chapter, cursor_line)
                    == Some(string_views(path@)),
                None => located_path(book.chapters_view(), current_chapter, cursor_line) is None,
            },
    {
        if current_chapter >= book.chapters.len() {
            return None;
        }
        let chapter = &book.chapters[current_chapter];
        assert(book.chapters_view()[current_chapter as int] == chapter@);
        let mut path: Vec<String> = Vec::new();
        path.push(TocManager::make_chapter_id(current_chapter));
        match TocManager::find_section_at_line(chapter, cursor_line) {
            Some(s) => {
                path.push(TocManager::make_section_id(current_chapter, s));
                assert(string_views(path@) =~= seq![
                    chapter_id(current_chapter),
                    section_id(current_chapter, s),
                ]);
            },
            None => {
                assert(string_views(path@) =~= seq![chapter_id(current_chapter)]);
            },
        }
        Some(path)
    }

    /// The section entries of a chapter.
    pub fn build_section_items(chapter_idx: usize, chapter: &Chapter) -> (leaves: Vec<TocLeaf>)
        ensures
            leaves.len() == chapter.sections.len(),
            forall|s: int|
                0 <= s < leaves.len() ==> (#[trigger] leaves[s]).id@ == section_id(
                    chapter_idx,
                    s as usize,
                ) && leaves[s].title@ == chapter.sections[s].title@,
    {
        let mut leaves: Vec<TocLeaf> = Vec::new();
        let mut s: usize = 0;
        while s < chapter.sections.len()
            invariant
                s <= chapter.sections.len(),
                leaves.len() == s,
                forall|j: int|
                    0 <= j < s ==> (#[trigger] leaves[j]).id@ == section_id(chapter_idx, j as usize)
                        && leaves[j].title@ == chapter.sections[j].title@,
            decreases chapter.sections.len() - s,
        {
            leaves.push(
                TocLeaf {
                    id: TocManager::make_section_id(chapter_idx, s),
                    title: chapter.sections[s].title.clone(),
                },
            );
            s += 1;
        }
        leaves
    }

    /// The outline tree of a book: one entry per chapter with its identity
    /// and title, holding one entry per section.
    pub fn build_tree(book: &Book) -> (items: Vec<TocItem>)
        ensures
            tree_matches(items@, book.chapters_view()),
    {
        let ghost cv = book.chapters_view();
        let mut items: Vec<TocItem> = Vec::new();
        let mut c: usize = 0;
        while c < book.chapters.len()
            invariant
                c <= book.chapters.len(),
                cv == book.chapters_view(),
                items.len() == c,
                tree_matches(items@, cv.take(c as int)),
            decreases book.chapters.len() - c,
        {
            let chapter = &book.chapters[c];
            assert(cv[c as int] == chapter@);
            let item = TocItem {
                id: TocManager::make_chapter_id(c),
                title: chapter.title.clone(),
                children: TocManager::build_section_items(c, chapter),
            };
            assert forall|s: int| 0 <= s < item.children@.len() implies {
                let leaf = #[trigger] item.children@[s];
                &&& leaf.id@ == section_id(c, s as usize)
                &&& leaf.title@ == cv[c as int].sections[s].title
            } by {
                assert(cv[c as int].sections[s] == chapter.sections[s]@);
            }
            let ghost before = items@;
            items.push(item);
            assert forall|k: int| 0 <= k < items.len() implies {
                let it = #[trigger] items[k];
                &&& it.id@ == chapter_id(k as usize)
                &&& it.title@ == cv.take(c + 1)[k].title
                &&& it.children@.len() == cv.take(c + 1)[k].sections.len()
                &&& forall|s: int|
                    0 <= s < it.children@.len() ==> {
                        let leaf = #[trigger] it.children@[s];
                        &&& leaf.id@ == section_id(k as usize, s as usize)
                        &&& leaf.title@ == cv.take(c + 1)[k].sections[s].title
                    }
            } by {
                if k < c {
                    assert(items[k] == before[k]);
                    assert(cv.take(c + 1)[k] == cv.take(c as int)[k]);
                }
            }
            c += 1;
        }
        assert(cv.take(cv.len() as int) == cv);
        items
    }

    /// Expands the chapter at the head of `item_path`, so that a section
    /// below it can be shown.
    pub fn expand_parent(expanded_chapters: &mut ExpandState, item_path: &[String])
        ensures
            item_path@.len() == 0 ==> final(expanded_chapters)@ == old(expanded_chapters)@,
            item_path@.len() > 0 ==> final(expanded_chapters)@ == old(expanded_chapters)@.insert(
                item_path@[0]@,
            ),
    {
        if item_path.len() > 0 {
            expanded_chapters.insert(item_path[0].clone());
        }
    }

    /// Makes `item_path` the active selection.
    pub fn select_item(toc_state: &mut TocState, item_path: Vec<String>)
        ensures
            final(toc_state).selected == item_path,
            final(toc_state).items == old(toc_state).items,
    {
        toc_state.selected = item_path;
    }
}

} // verus!
