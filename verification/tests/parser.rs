use reef::epub::parser::{
    build_chapters, parse_metadata, parse_toc, process_nav_point, spine_id_for, split_fragment,
    NavEntry, SectionInfo, SpineEntry, TocEntry,
};
use reef::error::AppError;

fn nav(label: &str, content: &str, depth: usize) -> NavEntry {
    NavEntry { label: label.to_string(), content: content.to_string(), depth }
}

#[test]
fn test_extract_fragment_id() {
    let url1 = "text/chapter1.xhtml#section-2";
    assert_eq!(split_fragment(url1).1, Some("section-2".to_string()));

    let url2 = "chapter1.xhtml";
    assert_eq!(split_fragment(url2).1, None);
}

#[test]
fn test_spine_id_conversion() {
    let filename = "ch003.xhtml";
    let potential_id = spine_id_for(filename);
    assert_eq!(potential_id, "ch003_xhtml");
}

#[test]
fn a_reference_is_split_at_its_first_hash() {
    assert_eq!(split_fragment("a#b#c"), ("a".to_string(), Some("b#c".to_string())));
    assert_eq!(split_fragment("#only"), (String::new(), Some("only".to_string())));
    assert_eq!(split_fragment("plain"), ("plain".to_string(), None));
    assert_eq!(split_fragment("end#"), ("end".to_string(), Some(String::new())));
}

#[test]
fn the_expected_id_comes_from_the_file_name() {
    assert_eq!(spine_id_for("EPUB/text/ch003.xhtml"), "ch003_xhtml");
    assert_eq!(spine_id_for("EPUB\\text\\a.b.html"), "a_b_html");
    assert_eq!(spine_id_for("dir/"), "");
    assert_eq!(spine_id_for(""), "");
}

#[test]
fn top_level_entries_become_chapters() {
    let toc = parse_toc(&vec![nav("One", "one.xhtml", 0), nav("Two", "two.xhtml", 0)]);
    assert_eq!(
        toc,
        vec![
            ("one.xhtml".to_string(), TocEntry { title: Some("One".to_string()), sections: vec![] }),
            ("two.xhtml".to_string(), TocEntry { title: Some("Two".to_string()), sections: vec![] }),
        ]
    );
}

#[test]
fn nested_entries_of_the_same_file_become_sections() {
    let toc = parse_toc(&vec![
        nav("One", "one.xhtml", 0),
        nav("One A", "one.xhtml#a", 1),
        nav("One A deep", "one.xhtml#deep", 2),
        nav("Elsewhere", "other.xhtml#x", 1),
        nav("One B", "one.xhtml#b", 1),
        nav("Two", "two.xhtml#top", 0),
        nav("One again", "one.xhtml#again", 0),
    ]);
    let sec = |t: &str, f: &str| SectionInfo { title: t.to_string(), fragment_id: Some(f.to_string()) };
    assert_eq!(toc.len(), 3);
    assert_eq!(toc[0].0, "one.xhtml");
    assert_eq!(toc[0].1.title, Some("One".to_string()));
    assert_eq!(
        toc[0].1.sections,
        vec![sec("One A", "a"), sec("One A deep", "deep"), sec("One B", "b"), sec("One again", "again")]
    );
    assert_eq!(toc[1].0, "other.xhtml");
    assert_eq!(toc[1].1.title, Some("Elsewhere".to_string()));
    assert!(toc[1].1.sections.is_empty());
    assert_eq!(toc[2].0, "two.xhtml");
    assert_eq!(toc[2].1.sections, vec![sec("Two", "top")]);
}

#[test]
fn an_entry_below_a_missing_chapter_is_dropped() {
    let mut toc = Vec::new();
    process_nav_point(&nav("Orphan", "a.xhtml#x", 1), &mut toc, Some("a.xhtml".to_string()));
    assert!(toc.is_empty());
    process_nav_point(&nav("Child", "b.xhtml", 1), &mut toc, Some("a.xhtml".to_string()));
    assert_eq!(toc.len(), 1);
    assert_eq!(toc[0].1.title, Some("Child".to_string()));
}

#[test]
fn chapters_follow_the_reading_order() {
    let toc = parse_toc(&vec![
        nav("Preface", "text/pre.xhtml", 0),
        nav("First", "text/ch1.xhtml", 0),
        nav("Part", "text/ch1.xhtml#part", 1),
    ]);
    let spine = vec![
        SpineEntry { id: "cover".to_string(), content: Some("<p>c</p>".to_string()) },
        SpineEntry { id: "ch1_xhtml".to_string(), content: Some("<h1>1</h1>".to_string()) },
        SpineEntry { id: "text/pre.xhtml".to_string(), content: Some(String::new()) },
    ];
    let chapters = build_chapters(&spine, &toc).unwrap();
    assert_eq!(chapters.len(), 3);
    assert_eq!(chapters[0].title, "Chapter 1");
    assert!(chapters[0].sections.is_empty());
    assert_eq!(chapters[0].file_path, "<p>c</p>");
    assert_eq!(chapters[1].title, "First");
    assert_eq!(chapters[1].sections.len(), 1);
    assert_eq!(chapters[1].sections[0].title, "Part");
    assert_eq!(chapters[1].sections[0].start_line, 0);
    assert_eq!(chapters[1].sections[0].fragment_id, Some("part".to_string()));
    assert_eq!(chapters[2].title, "Preface");
    assert!(chapters.iter().all(|c| c.content_lines.is_empty()));
}

#[test]
fn an_unreadable_item_fails_the_book() {
    let spine = vec![
        SpineEntry { id: "a".to_string(), content: Some(String::new()) },
        SpineEntry { id: "b".to_string(), content: None },
        SpineEntry { id: "c".to_string(), content: None },
    ];
    let error = build_chapters(&spine, &Vec::new()).unwrap_err();
    assert_eq!(error, AppError::ChapterExtractionError("Failed to extract chapter 1".to_string()));
    assert_eq!(error.message(), "Failed to extract chapter: Failed to extract chapter 1");
}

#[test]
fn a_book_without_title_is_unknown() {
    let m = parse_metadata(None, Some("A".to_string()), None, None, Some("en".to_string()));
    assert_eq!(m.title, "Unknown Title");
    assert_eq!(m.author, Some("A".to_string()));
    assert_eq!(m.language, Some("en".to_string()));
    let m = parse_metadata(Some("T".to_string()), None, None, None, None);
    assert_eq!(m.title, "T");
}

#[test]
fn errors_have_their_texts() {
    assert_eq!(AppError::FileNotFound("x.epub".to_string()).message(), "EPUB file not found: x.epub");
    assert_eq!(AppError::InvalidEpub("bad".to_string()).message(), "Invalid or corrupted EPUB: bad");
    assert_eq!(AppError::IoError("denied".to_string()).message(), "IO error: denied");
    assert_eq!(AppError::TerminalTooSmall.message(), "Terminal too small (minimum 80x24)");
    assert_eq!(AppError::Other("as is".to_string()).message(), "as is");
}
