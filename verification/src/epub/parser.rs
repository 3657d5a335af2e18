//! From a book's outline and reading order to chapters.
//!
//! The container reader hands over plain values: the outline's entries in
//! document order with their depth, and the items of the reading order with
//! their markup. What is decided here is which outline entry names a
//! chapter, which a section, and how chapters get their titles.

use vstd::prelude::*;
use vstd::string::*;
use crate::decimal::{decimal, push_decimal};
use crate::error::AppError;
use crate::text::{chars_of, owned, same_text, string_of, tail_from};
use crate::types::{
    clone_opt, opt_view, section_views, BookMetadata, Chapter, ChapterView, LineView, Section,
    SectionView,
};

verus! {

/// One entry of the outline: its label, the resource it points to, and how
/// deep it is nested. Entries come in document order, a parent before its
/// children.
#[derive(Debug, Clone)]
pub struct NavEntry {
    pub label: String,
    pub content: String,
    pub depth: usize,
}

/// One item of the reading order: its id, and its markup where the
/// container could read it.
#[derive(Debug, Clone)]
pub struct SpineEntry {
    pub id: String,
    pub content: Option<String>,
}

/// A section that the outline declares.
#[derive(Debug, Clone, PartialEq)]
pub struct SectionInfo {
    pub title: String,
    pub fragment_id: Option<String>,
}

/// What the outline says of one resource: the chapter's title and its
/// sections.
#[derive(Debug, Clone, PartialEq)]
pub struct TocEntry {
    pub title: Option<String>,
    pub sections: Vec<SectionInfo>,
}

/// Mathematical view of a declared section.
pub struct SectionInfoView {
    pub title: Seq<char>,
    pub fragment_id: Option<Seq<char>>,
}

/// Mathematical view of an outline entry for a resource.
pub struct TocEntryView {
    pub title: Option<Seq<char>>,
    pub sections: Seq<SectionInfoView>,
}

impl View for SectionInfo {
    type V = SectionInfoView;

    open spec fn view(&self) -> SectionInfoView {
        SectionInfoView { title: self.title@, fragment_id: opt_view(self.fragment_id) }
    }
}

impl View for TocEntry {
    type V = TocEntryView;

    open spec fn view(&self) -> TocEntryView {
        TocEntryView {
            title: opt_view(self.title),
            sections: Seq::new(self.sections@.len(), |i: int| self.sections@[i]@),
        }
    }
}

/// The outline by resource path, in the order in which the paths first
/// occurred.
pub open spec fn toc_view(map: Seq<(String, TocEntry)>) -> Seq<(Seq<char>, TocEntryView)> {
    Seq::new(map.len(), |i: int| (map[i].0@, map[i].1@))
}

/// The index of the first `c` in `s` at or after `from`.
pub open spec fn first_index(s: Seq<char>, c: char, from: int) -> Option<int>
    decreases s.len() - from,
{
    if from < 0 || from >= s.len() {
        None
    } else if s[from] == c {
        Some(from)
    } else {
        first_index(s, c, from + 1)
    }
}

/// The resource path of a reference: what stands before its first `#`.
pub open spec fn base_path(content: Seq<char>) -> Seq<char> {
    match first_index(content, '#', 0) {
        Some(i) => content.take(i),
        None => content,
    }
}

/// The fragment of a reference: what stands behind its first `#`.
pub open spec fn fragment_of(content: Seq<char>) -> Option<Seq<char>> {
    match first_index(content, '#', 0) {
        Some(i) => Some(content.skip(i + 1)),
        None => None,
    }
}

/// The index of the entry for `key` at or after `from`.
pub open spec fn key_index(map: Seq<(Seq<char>, TocEntryView)>, key: Seq<char>, from: int) -> Option<
    int,
>
    decreases map.len() - from,
{
    if from < 0 || from >= map.len() {
        None
    } else if map[from].0 == key {
        Some(from)
    } else {
        key_index(map, key, from + 1)
    }
}

/// The map with an entry for `key`, titled `label`, added at its end unless
/// the key has an entry.
pub open spec fn with_entry(map: Seq<(Seq<char>, TocEntryView)>, key: Seq<char>, label: Seq<char>) -> Seq<
    (Seq<char>, TocEntryView),
> {
    if key_index(map, key, 0) is Some {
        map
    } else {
        map.push((key, TocEntryView { title: Some(label), sections: Seq::empty() }))
    }
}

/// The map with `section` appended to the sections of entry `k`.
pub open spec fn with_section(map: Seq<(Seq<char>, TocEntryView)>, k: int, section: SectionInfoView) -> Seq<
    (Seq<char>, TocEntryView),
> {
    map.update(
        k,
        (map[k].0, TocEntryView { title: map[k].1.title, sections: map[k].1.sections.push(section) }),
    )
}

/// The map with the title of entry `k` set to `label`.
pub open spec fn with_title(map: Seq<(Seq<char>, TocEntryView)>, k: int, label: Seq<char>) -> Seq<
    (Seq<char>, TocEntryView),
> {
    map.update(k, (map[k].0, TocEntryView { title: Some(label), sections: map[k].1.sections }))
}

/// What one outline entry adds to the map. `parent` is the resource path of
/// the entry above it, if any.
/// - At the top level the entry's resource becomes a chapter titled by the
///   entry, unless it is one already; where the entry points at a fragment
///   it is also a section of that chapter.
/// - Below an entry for the same resource it is a section of that chapter.
/// - Below an entry for another resource its resource becomes a chapter.
pub open spec fn nav_applied(
    map: Seq<(Seq<char>, TocEntryView)>,
    label: Seq<char>,
    content: Seq<char>,
    parent: Option<Seq<char>>,
) -> Seq<(Seq<char>, TocEntryView)> {
    let base = base_path(content);
    let section = SectionInfoView { title: label, fragment_id: fragment_of(content) };
    match parent {
        None => {
            let added = with_entry(map, base, label);
            let k = key_index(added, base, 0)->Some_0;
            if added[k].1.title is Some && fragment_of(content) is Some {
                with_section(added, k, section)
            } else {
                added
            }
        },
        Some(p) => if p == base {
            match key_index(map, base, 0) {
                Some(k) => with_section(map, k, section),
                None => map,
            }
        } else {
            let added = with_entry(map, base, label);
            let k = key_index(added, base, 0)->Some_0;
            if added[k].1.title is None {
                with_title(added, k, label)
            } else {
                added
            }
        },
    }
}

/// The resource path of the entry above an entry at `depth`, given the
/// paths of the latest entries at each depth above it.
pub open spec fn parent_path(bases: Seq<Seq<char>>, depth: usize) -> Option<Seq<char>> {
    if depth == 0 || depth > bases.len() {
        None
    } else {
        Some(bases[depth - 1])
    }
}

/// The map after the first `upto` outline entries, with the resource paths
/// of the latest entries at each depth.
pub open spec fn toc_scan(entries: Seq<NavEntry>, upto: int) -> (
    Seq<(Seq<char>, TocEntryView)>,
    Seq<Seq<char>>,
)
    decreases upto,
{
    if upto <= 0 {
        (Seq::empty(), Seq::empty())
    } else {
        let (map, bases) = toc_scan(entries, upto - 1);
        let e = entries[upto - 1];
        let kept = if e.depth < bases.len() {
            bases.take(e.depth as int)
        } else {
            bases
        };
        (
            nav_applied(map, e.label@, e.content@, parent_path(bases, e.depth)),
            kept.push(base_path(e.content@)),
        )
    }
}

/// The outline of a book by resource path.
pub open spec fn parsed_toc(entries: Seq<NavEntry>) -> Seq<(Seq<char>, TocEntryView)> {
    toc_scan(entries, entries.len() as int).0
}

/// Splits a reference at its first `#` into resource path and fragment.
pub fn split_fragment(content: &str) -> (r: (String, Option<String>))
    ensures
        r.0@ == base_path(content@),
        opt_view(r.1) == fragment_of(content@),
{
    let chars = chars_of(content);
    let mut i: usize = 0;
    while i < chars.len()
        invariant
            i <= chars.len(),
            chars@ == content@,
            first_index(chars@, '#', 0) == first_index(chars@, '#', i as int),
        decreases chars.len() - i,
    {
        if chars[i] == '#' {
            let mut base: Vec<char> = Vec::new();
            let mut k: usize = 0;
            while k < i
                invariant
                    k <= i <= chars.len(),
                    base@ == chars@.take(k as int),
                decreases i - k,
            {
                base.push(chars[k]);
                assert(chars@.take(k + 1) == chars@.take(k as int).push(chars@[k as int]));
                k += 1;
            }
            return (string_of(&base), Some(string_of(&tail_from(&chars, i + 1))));
        }
        i += 1;
    }
    (string_of(&chars), None)
}

fn find_key(map: &Vec<(String, TocEntry)>, key: &str) -> (r: Option<usize>)
    ensures
        match r {
            Some(k) => k < map.len() && key_index(toc_view(map@), key@, 0) == Some(k as int),
            None => key_index(toc_view(map@), key@, 0) is None,
        },
{
    let ghost mv = toc_view(map@);
    let mut k: usize = 0;
    while k < map.len()
        invariant
            k <= map.len(),
            mv == toc_view(map@),
            key_index(mv, key@, 0) == key_index(mv, key@, k as int),
        decreases map.len() - k,
    {
        if same_text(map[k].0.as_str(), key) {
            return Some(k);
        }
        k += 1;
    }
    None
}

fn ensure_entry(map: &mut Vec<(String, TocEntry)>, key: &str, label: &str) -> (k: usize)
    ensures
        toc_view(final(map)@) == with_entry(toc_view(old(map)@), key@, label@),
        k < final(map).len(),
        key_index(toc_view(final(map)@), key@, 0) == Some(k as int),
{
    let ghost before = toc_view(map@);
    match find_key(map, key) {
        Some(k) => k,
        None => {
            let entry = TocEntry { title: Some(owned(label)), sections: Vec::new() };
            assert(entry@.sections =~= Seq::<SectionInfoView>::empty());
            let ghost added = (key@, entry@);
            map.push((owned(key), entry));
            assert(toc_view(map@) =~= before.push(added));
            proof {
                lemma_key_index_push(before, key@, added.1, 0);
            }
            map.len() - 1
        },
    }
}

proof fn lemma_key_index_push(
    map: Seq<(Seq<char>, TocEntryView)>,
    key: Seq<char>,
    entry: TocEntryView,
    from: int,
)
    requires
        0 <= from <= map.len(),
        key_index(map, key, from) is None,
    ensures
        key_index(map.push((key, entry)), key, from) == Some(map.len() as int),
    decreases map.len() - from,
{
    if from < map.len() {
        lemma_key_index_push(map, key, entry, from + 1);
    }
}

fn add_section(map: &mut Vec<(String, TocEntry)>, k: usize, section: SectionInfo)
    requires
        k < old(map).len(),
    ensures
        toc_view(final(map)@) == with_section(toc_view(old(map)@), k as int, section@),
{
    let ghost before = toc_view(map@);
    let ghost sv = section@;
    map[k].1.sections.push(section);
    assert(map[k as int].1@.sections =~= before[k as int].1.sections.push(sv));
    assert(toc_view(map@) =~= with_section(before, k as int, sv));
}

/// Enters one outline entry into the map. `parent_base_path` is the
/// resource path of the entry above it, if any.
pub fn process_nav_point(
    nav_point: &NavEntry,
    toc_map: &mut Vec<(String, TocEntry)>,
    parent_base_path: Option<String>,
)
    ensures
        toc_view(final(toc_map)@) == nav_applied(
            toc_view(old(toc_map)@),
            nav_point.label@,
            nav_point.content@,
            opt_view(parent_base_path),
        ),
{
    let (base, fragment) = split_fragment(nav_point.content.as_str());
    let has_fragment = fragment.is_some();
    let section = SectionInfo { title: nav_point.label.clone(), fragment_id: fragment };
    match parent_base_path {
        None => {
            let k = ensure_entry(toc_map, base.as_str(), nav_point.label.as_str());
            if toc_map[k].1.title.is_some() && has_fragment {
                add_section(toc_map, k, section);
            }
        },
        Some(parent) => {
            if same_text(parent.as_str(), base.as_str()) {
                match find_key(toc_map, base.as_str()) {
                    Some(k) => {
                        add_section(toc_map, k, section);
                    },
                    None => {},
                }
            } else {
                let k = ensure_entry(toc_map, base.as_str(), nav_point.label.as_str());
                if toc_map[k].1.title.is_none() {
                    let ghost before = toc_view(toc_map@);
                    toc_map[k].1.title = Some(nav_point.label.clone());
                    assert(toc_map[k as int].1@.sections =~= before[k as int].1.sections);
                    assert(toc_view(toc_map@) =~= with_title(
                        before,
                        k as int,
                        nav_point.label@,
                    ));
                }
            }
        },
    }
}

/// The outline of a book by resource path, from its entries in document
/// order.
pub fn parse_toc(entries: &Vec<NavEntry>) -> (toc: Vec<(String, TocEntry)>)
    ensures
        toc_view(toc@) == parsed_toc(entries@),
{
    let mut toc: Vec<(String, TocEntry)> = Vec::new();
    let mut bases: Vec<String> = Vec::new();
    let mut i: usize = 0;
    assert(toc_view(toc@) =~= toc_scan(entries@, 0).0);
    assert(crate::text::string_views(bases@) =~= toc_scan(entries@, 0).1);
    while i < entries.len()
        invariant
            i <= entries.len(),
            (toc_view(toc@), crate::text::string_views(bases@)) == toc_scan(entries@, i as int),
        decreases entries.len() - i,
    {
        let e = &entries[i];
        let ghost bv = crate::text::string_views(bases@);
        let parent = if e.depth == 0 || e.depth > bases.len() {
            None
        } else {
            Some(bases[e.depth - 1].clone())
        };
        assert(opt_view(parent) == parent_path(bv, e.depth));
        process_nav_point(e, &mut toc, parent);
        if e.depth < bases.len() {
            bases.truncate(e.depth);
        }
        let (base, _fragment) = split_fragment(e.content.as_str());
        let ghost kept = crate::text::string_views(bases@);
        assert(kept =~= (if e.depth < bv.len() {
            bv.take(e.depth as int)
        } else {
            bv
        }));
        let ghost added = base@;
        bases.push(base);
        assert(crate::text::string_views(bases@) =~= kept.push(added));
        i += 1;
    }
    toc
}

/// The metadata of a book; a book without a title is called
/// `Unknown Title`.
pub fn parse_metadata(
    title: Option<String>,
    author: Option<String>,
    publisher: Option<String>,
    publication_date: Option<String>,
    language: Option<String>,
) -> (m: BookMetadata)
    ensures
        m.title@ == (match title {
            Some(t) => t@,
            None => "Unknown Title"@,
        }),
        m.author == author,
        m.publisher == publisher,
        m.publication_date == publication_date,
        m.language == language,
{
    BookMetadata {
        title: match title {
            Some(t) => t,
            None => owned("Unknown Title"),
        },
        author,
        publisher,
        publication_date,
        language,
    }
}

/// The name of the file of a path: what stands behind its last `/` or `\`.
pub open spec fn file_name(path: Seq<char>) -> Seq<char>
    decreases path.len(),
{
    if path.len() == 0 {
        path
    } else if path.last() == '/' || path.last() == '\\' {
        Seq::empty()
    } else {
        file_name(path.drop_last()).push(path.last())
    }
}

/// The id that a file name is expected to have in the reading order: the
/// name with every `.` turned into `_`.
pub open spec fn spine_id_of(name: Seq<char>) -> Seq<char> {
    Seq::new(
        name.len(),
        |i: int|
            if name[i] == '.' {
                '_'
            } else {
                name[i]
            },
    )
}

/// The id that the file of `path` is expected to have in the reading order.
pub fn spine_id_for(path: &str) -> (id: String)
    ensures
        id@ == spine_id_of(file_name(path@)),
{
    let chars = chars_of(path);
    let mut start: usize = chars.len();
    assert(chars@.skip(start as int) =~= Seq::<char>::empty());
    while start > 0 && chars[start - 1] != '/' && chars[start - 1] != '\\'
        invariant
            start <= chars.len(),
            forall|j: int| start <= j < chars.len() ==> chars[j] != '/' && chars[j] != '\\',
        decreases start,
    {
        start -= 1;
    }
    let name = tail_from(&chars, start);
    proof {
        lemma_file_name(chars@, start as int);
    }
    let mut id: Vec<char> = Vec::new();
    let mut k: usize = 0;
    while k < name.len()
        invariant
            k <= name.len(),
            id.len() == k,
            forall|j: int|
                0 <= j < k ==> id[j] == (if name[j] == '.' {
                    '_'
                } else {
                    name[j]
                }),
        decreases name.len() - k,
    {
        id.push(
            if name[k] == '.' {
                '_'
            } else {
                name[k]
            },
        );
        k += 1;
    }
    assert(id@ =~= spine_id_of(name@));
    string_of(&id)
}

proof fn lemma_file_name(path: Seq<char>, start: int)
    requires
        0 <= start <= path.len(),
        start > 0 ==> path[start - 1] == '/' || path[start - 1] == '\\',
        forall|j: int| start <= j < path.len() ==> path[j] != '/' && path[j] != '\\',
    ensures
        file_name(path) == path.skip(start),
    decreases path.len(),
{
    if path.len() == 0 {
        assert(path.skip(start) =~= path);
    } else if start == path.len() {
        assert(path.skip(start) =~= Seq::<char>::empty());
    } else {
        lemma_file_name(path.drop_last(), start);
        assert(path.drop_last().skip(start).push(path.last()) =~= path.skip(start));
    }
}

/// The resource path that the outline has for an item of the reading order:
/// the first path whose file is expected to have the item's id, else the id
/// itself.
pub open spec fn resource_path(toc: Seq<(Seq<char>, TocEntryView)>, id: Seq<char>, from: int) -> Seq<
    char,
>
    decreases toc.len() - from,
{
    if from < 0 || from >= toc.len() {
        id
    } else if spine_id_of(file_name(toc[from].0)) == id {
        toc[from].0
    } else {
        resource_path(toc, id, from + 1)
    }
}

/// The sections of a chapter as the outline declares them, each at the
/// chapter's start until layout positions it.
pub open spec fn declared_sections(sections: Seq<SectionInfoView>) -> Seq<SectionView> {
    Seq::new(
        sections.len(),
        |i: int|
            SectionView {
                title: sections[i].title,
                start_line: 0,
                fragment_id: sections[i].fragment_id,
            },
    )
}

/// The chapter for item `index` of the reading order, with `markup` as its
/// content: titled by the outline, else `Chapter <n>` with `n` counted from
/// one; with the outline's sections; not yet laid out.
pub open spec fn chapter_for(
    toc: Seq<(Seq<char>, TocEntryView)>,
    id: Seq<char>,
    markup: Seq<char>,
    index: int,
) -> ChapterView {
    let path = resource_path(toc, id, 0);
    let entry = key_index(toc, path, 0);
    ChapterView {
        title: match entry {
            Some(k) => match toc[k].1.title {
                Some(t) => t,
                None => "Chapter "@ + decimal((index + 1) as nat),
            },
            None => "Chapter "@ + decimal((index + 1) as nat),
        },
        sections: match entry {
            Some(k) => declared_sections(toc[k].1.sections),
            None => Seq::empty(),
        },
        content_lines: Seq::empty(),
        file_path: markup,
    }
}

fn path_for(toc: &Vec<(String, TocEntry)>, id: &str) -> (path: String)
    ensures
        path@ == resource_path(toc_view(toc@), id@, 0),
{
    let ghost tv = toc_view(toc@);
    let mut k: usize = 0;
    while k < toc.len()
        invariant
            k <= toc.len(),
            tv == toc_view(toc@),
            resource_path(tv, id@, 0) == resource_path(tv, id@, k as int),
        decreases toc.len() - k,
    {
        let expected = spine_id_for(toc[k].0.as_str());
        if same_text(expected.as_str(), id) {
            return toc[k].0.clone();
        }
        k += 1;
    }
    owned(id)
}

/// The chapter for one item of the reading order.
pub fn build_chapter(toc: &Vec<(String, TocEntry)>, id: &str, markup: String, index: usize) -> (chapter:
    Chapter)
    requires
        index < usize::MAX,
    ensures
        chapter@ == chapter_for(toc_view(toc@), id@, markup@, index as int),
{
    let path = path_for(toc, id);
    let entry = find_key(toc, path.as_str());
    let mut generic = chars_of("Chapter ");
    push_decimal(&mut generic, index + 1);
    let mut sections: Vec<Section> = Vec::new();
    let title = match entry {
        Some(k) => {
            let declared = &toc[k].1.sections;
            let ghost goal = declared_sections(toc_view(toc@)[k as int].1.sections);
            let mut s: usize = 0;
            assert(section_views(sections@) =~= goal.take(0));
            while s < declared.len()
                invariant
                    s <= declared.len(),
                    k < toc.len(),
                    *declared == toc[k as int].1.sections,
                    goal == declared_sections(toc_view(toc@)[k as int].1.sections),
                    section_views(sections@) == goal.take(s as int),
                decreases declared.len() - s,
            {
                let ghost before = section_views(sections@);
                let section = Section {
                    title: declared[s].title.clone(),
                    start_line: 0,
                    fragment_id: clone_opt(&declared[s].fragment_id),
                };
                assert(section@ == goal[s as int]);
                sections.push(section);
                assert(section_views(sections@) =~= before.push(goal[s as int]));
                assert(goal.take(s + 1) == goal.take(s as int).push(goal[s as int]));
                s += 1;
            }
            assert(goal.take(goal.len() as int) == goal);
            match &toc[k].1.title {
                Some(t) => t.clone(),
                None => string_of(&generic),
            }
        },
        None => {
            assert(section_views(sections@) =~= Seq::<SectionView>::empty());
            string_of(&generic)
        },
    };
    let chapter = Chapter { title, sections, content_lines: Vec::new(), file_path: markup };
    assert(chapter@.content_lines =~= Seq::<LineView>::empty());
    chapter
}

/// The index of the first item of the reading order at or after `from`
/// whose content could not be read.
pub open spec fn first_unreadable(spine: Seq<SpineEntry>, from: int) -> Option<int>
    decreases spine.len() - from,
{
    if from < 0 || from >= spine.len() {
        None
    } else if spine[from].content is None {
        Some(from)
    } else {
        first_unreadable(spine, from + 1)
    }
}

/// The chapters of a book, one per item of the reading order. Where an
/// item's content could not be read, the first such item is reported.
pub fn build_chapters(spine: &Vec<SpineEntry>, toc: &Vec<(String, TocEntry)>) -> (r: Result<
    Vec<Chapter>,
    AppError,
>)
    ensures
        match first_unreadable(spine@, 0) {
            Some(i) => r is Err && r->Err_0 is ChapterExtractionError && r->Err_0
                ->ChapterExtractionError_0@ == "Failed to extract chapter "@ + decimal(i as nat),
            None => r is Ok && r->Ok_0@.len() == spine@.len() && forall|i: int|
                0 <= i < spine@.len() ==> (#[trigger] r->Ok_0@[i])@ == chapter_for(
                    toc_view(toc@),
                    spine@[i].id@,
                    spine@[i].content->Some_0@,
                    i,
                ),
        },
{
    let mut chapters: Vec<Chapter> = Vec::new();
    let mut i: usize = 0;
    while i < spine.len()
        invariant
            i <= spine.len(),
            chapters.len() == i,
            first_unreadable(spine@, 0) == first_unreadable(spine@, i as int),
            forall|j: int|
                0 <= j < i ==> (#[trigger] chapters@[j])@ == chapter_for(
                    toc_view(toc@),
                    spine@[j].id@,
                    spine@[j].content->Some_0@,
                    j,
                ),
        decreases spine.len() - i,
    {
        match &spine[i].content {
            Some(markup) => {
                chapters.push(build_chapter(toc, spine[i].id.as_str(), markup.clone(), i));
            },
            None => {
                let mut message = chars_of("Failed to extract chapter ");
                push_decimal(&mut message, i);
                return Err(AppError::ChapterExtractionError(string_of(&message)));
            },
        }
        i += 1;
    }
    Ok(chapters)
}

} // verus!
