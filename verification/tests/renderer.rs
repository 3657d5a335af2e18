use reef::epub::blocks::detect_language;
use reef::epub::code_highlight::{detect_theme, CodeHighlighter, TerminalTheme};
use reef::epub::render_chapter;
use reef::epub::renderer::{normalize_text, resolve_sections, sections_from_headings};
use reef::epub::walk::{compute_effective_width, layout, HeadingInfo};
use reef::search::SearchEngine;
use reef::types::{
    Book, BookMetadata, Chapter, InlineStyle, LineStyle, RenderedLine, Section, Viewport,
};

fn create_test_chapter(html_content: &str) -> Chapter {
    Chapter {
        title: "Test Chapter".to_string(),
        sections: Vec::new(),
        content_lines: Vec::new(),
        file_path: html_content.to_string(),
    }
}

fn highlighter() -> CodeHighlighter {
    CodeHighlighter::new(None)
}

fn texts(lines: &[RenderedLine]) -> Vec<&str> {
    lines.iter().map(|l| l.text.as_str()).collect()
}

fn lay(markup: &str, width: usize) -> (Vec<RenderedLine>, Vec<HeadingInfo>) {
    layout(markup, width, &Vec::new())
}

#[test]
fn test_render_simple_paragraph() {
    let html = "<p>This is a simple paragraph.</p>";
    let mut chapter = create_test_chapter(html);

    render_chapter(&mut chapter, Some(80), 100, &highlighter());

    assert!(!chapter.content_lines.is_empty());
    assert!(chapter.content_lines[0].text.contains("This is a simple paragraph"));
}

#[test]
fn test_render_heading() {
    let html = "<h1>Main Heading</h1><p>Content here.</p>";
    let mut chapter = create_test_chapter(html);

    render_chapter(&mut chapter, Some(80), 100, &highlighter());

    assert!(!chapter.content_lines.is_empty());
    let heading_line = chapter.content_lines.iter().find(|line| line.style == LineStyle::Heading1);
    assert!(heading_line.is_some());
}

#[test]
fn test_extract_sections_from_headings() {
    let html = r#"
            <h1>Chapter Title</h1>
            <h2 id="section-1">Section 1</h2>
            <p>Content</p>
            <h2 id="section-2">Section 2</h2>
            <p>More content</p>
        "#;
    let mut chapter = create_test_chapter(html);

    render_chapter(&mut chapter, Some(80), 100, &highlighter());

    assert!(chapter.sections.len() >= 2);
    assert!(chapter.sections.iter().any(|s| s.title.contains("Section 1")));
    assert!(chapter.sections.iter().any(|s| s.title.contains("Section 2")));
}

#[test]
fn test_word_wrapping() {
    let long_text = "word ".repeat(50);
    let html = format!("<p>{}</p>", long_text);
    let mut chapter = create_test_chapter(&html);

    render_chapter(&mut chapter, Some(40), 100, &highlighter());

    assert!(chapter.content_lines.len() > 1);
    for line in &chapter.content_lines {
        assert!(line.text.len() <= 40 + 10);
    }
}

#[test]
fn test_max_width_limiting() {
    let html = "<p>Short text</p>";
    let mut chapter = create_test_chapter(html);

    render_chapter(&mut chapter, Some(50), 200, &highlighter());

    assert!(!chapter.content_lines.is_empty());
}

#[test]
fn test_empty_html() {
    let html = "";
    let mut chapter = create_test_chapter(html);

    render_chapter(&mut chapter, Some(80), 100, &highlighter());

    assert!(chapter.content_lines.len() <= 1);
}

#[test]
fn a_chapter_is_laid_out_sectioned_and_searched() {
    let markup = "<h1>Intro</h1><h2 id=\"s1\">First</h2><p>hello world hello</p><h2 id=\"s2\">Second</h2><p>hello</p>";
    let mut chapter = create_test_chapter(markup);
    render_chapter(&mut chapter, Some(44), 100, &highlighter());

    assert_eq!(
        texts(&chapter.content_lines),
        vec!["Intro", "", "First", "", "hello world hello", "", "Second", "", "hello", ""]
    );
    assert_eq!(chapter.sections.len(), 2);
    assert_eq!(chapter.sections[0].title, "First");
    assert_eq!(chapter.sections[1].title, "Second");
    assert_eq!(chapter.sections[0].fragment_id, Some("s1".to_string()));
    for section in &chapter.sections {
        let line = &chapter.content_lines[section.start_line];
        assert_eq!(line.text, section.title);
        assert_eq!(line.style, LineStyle::Heading2);
    }

    let book = Book {
        metadata: BookMetadata {
            title: "t".to_string(),
            author: None,
            publisher: None,
            publication_date: None,
            language: None,
        },
        chapters: vec![chapter],
    };
    let matches = SearchEngine::search(&book, "hello").unwrap();
    let found: Vec<(usize, usize)> = matches.iter().map(|m| (m.line, m.column)).collect();
    assert_eq!(found, vec![(4, 0), (4, 12), (8, 0)]);

    let viewport = Viewport { width: 44, height: 24, scroll_offset: 0 };
    let first = SearchEngine::next_result(&matches, 0, &viewport).unwrap().0;
    let second = SearchEngine::next_result(&matches, first, &viewport).unwrap().0;
    let third = SearchEngine::next_result(&matches, second, &viewport).unwrap().0;
    assert_eq!((first, second, third), (1, 2, 0));
}

#[test]
fn layout_is_the_same_every_time() {
    let markup = "<h2>A <em>title</em></h2><p>Some <b>bold and <i>nested</i></b> text that wraps around.</p><ul><li>x</li></ul>";
    let first = lay(markup, 12);
    let second = lay(markup, 12);
    assert_eq!(first, second);
    assert!(first.0.len() > 5);
}

#[test]
fn spans_are_cut_at_line_boundaries() {
    let (lines, _) = lay("<p>aaa <b>bbb ccc</b> ddd</p>", 7);
    assert_eq!(texts(&lines), vec!["aaa bbb", "ccc ddd", ""]);
    assert_eq!(lines[0].inline_styles, vec![(4, 7, InlineStyle::Bold)]);
    assert_eq!(lines[1].inline_styles, vec![(0, 3, InlineStyle::Bold)]);
    assert!(lines[2].inline_styles.is_empty());
}

#[test]
fn fragments_rebuild_the_spans() {
    let markup = "<p>one <i>two three four five six</i> seven <code>eight nine</code> ten</p>";
    let text = "one two three four five six seven eight nine ten";
    let spans = [(4usize, 27usize, InlineStyle::Italic), (34, 44, InlineStyle::Code)];
    for width in [1usize, 3, 5, 8, 13, 21, 60] {
        let (lines, _) = lay(markup, width);
        let mut start = 0;
        let mut covered = vec![0usize; spans.len()];
        for line in &lines[..lines.len() - 1] {
            assert_eq!(&text[start..start + line.text.len()], line.text);
            for (lo, hi, style) in &line.inline_styles {
                assert!(lo < hi && *hi <= line.text.len());
                let which = spans.iter().position(|s| s.2 == *style).unwrap();
                assert!(spans[which].0 <= start + lo && start + hi <= spans[which].1);
                covered[which] += hi - lo;
            }
            start += line.text.len();
            if text.as_bytes().get(start) == Some(&b' ') {
                start += 1;
            }
        }
        // every character of a span that is on a line is covered once
        let spaces_lost: Vec<usize> = spans
            .iter()
            .map(|s| (s.1 - s.0) - covered[spans.iter().position(|t| t == s).unwrap()])
            .collect();
        for (lost, span) in spaces_lost.iter().zip(spans.iter()) {
            assert!(*lost <= text[span.0..span.1].matches(' ').count());
        }
    }
}

#[test]
fn nested_styles_give_one_span_each() {
    let (lines, _) = lay("<p>a<b>b<i>c</i></b><u>d</u><s>e</s><mark>f</mark><code>g</code></p>", 40);
    assert_eq!(lines[0].text, "abcdefg");
    assert_eq!(
        lines[0].inline_styles,
        vec![
            (1, 2, InlineStyle::Bold),
            (2, 3, InlineStyle::Bold),
            (2, 3, InlineStyle::Italic),
            (3, 4, InlineStyle::Underline),
            (4, 5, InlineStyle::Strikethrough),
            (5, 6, InlineStyle::Highlight),
            (6, 7, InlineStyle::Code),
        ]
    );
}

#[test]
fn headings_are_recorded_before_their_lines() {
    let (lines, headings) = lay("<p>intro</p><h3 id=\"x\">Deep <b>one</b></h3><h5>Deeper</h5>", 30);
    assert_eq!(texts(&lines), vec!["intro", "", "Deep one", "", "Deeper", ""]);
    assert_eq!(
        headings,
        vec![
            HeadingInfo {
                text: "Deep one".to_string(),
                level: 3,
                line_number: 2,
                id: Some("x".to_string()),
            },
            HeadingInfo { text: "Deeper".to_string(), level: 5, line_number: 4, id: None },
        ]
    );
    assert_eq!(lines[2].style, LineStyle::Heading3);
    assert_eq!(lines[4].style, LineStyle::Heading3);
    assert_eq!(lines[2].inline_styles, vec![(5, 8, InlineStyle::Bold)]);
}

#[test]
fn the_width_is_clamped() {
    assert_eq!(compute_effective_width(Some(50), 200), 46);
    assert_eq!(compute_effective_width(Some(300), 120), 116);
    assert_eq!(compute_effective_width(None, 80), 76);
    assert_eq!(compute_effective_width(None, 5), 1);
    assert_eq!(compute_effective_width(None, 4), 1);
    assert_eq!(compute_effective_width(Some(0), 100), 1);
    assert_eq!(compute_effective_width(None, 0), 1);
}

#[test]
fn a_degenerate_width_still_lays_out() {
    let mut chapter = create_test_chapter("<p>tiny words</p><ul><li>item</li></ul><hr/>");
    render_chapter(&mut chapter, None, 0, &highlighter());
    // at one column every word is broken into its characters
    let lines = texts(&chapter.content_lines);
    assert_eq!(&lines[..10], &["t", "i", "n", "y", "w", "o", "r", "d", "s", ""]);
    assert!(lines.contains(&"\u{2500}"));
    assert_eq!(lines.last(), Some(&""));
}

#[test]
fn images_get_a_placeholder() {
    let (lines, _) = lay("<img src=\"a.png\"><img alt=\"A cat\">", 40);
    assert_eq!(texts(&lines), vec!["[Image]", "", "[Image: A cat]", ""]);
    let long = "x".repeat(60);
    let (lines, _) = lay(&format!("<img alt=\"{}\">", long), 40);
    assert_eq!(lines[0].text, format!("[Image: {}...]", "x".repeat(50)));
    let exact = "y".repeat(50);
    let (lines, _) = lay(&format!("<img alt=\"{}\">", exact), 40);
    assert_eq!(lines[0].text, format!("[Image: {}]", exact));
    // three bytes each: 50 bytes hold 16 of them
    let wide = "\u{4e2d}".repeat(20);
    let (lines, _) = lay(&format!("<img alt=\"{}\">", wide), 40);
    assert_eq!(lines[0].text, format!("[Image: {}...]", "\u{4e2d}".repeat(16)));
}

#[test]
fn lists_shift_their_spans_by_the_prefix() {
    let (lines, _) = lay("<ul><li>one <b>two</b></li><li>three</li></ul>", 40);
    assert_eq!(texts(&lines), vec!["\u{2022} one two", "\u{2022} three", ""]);
    assert_eq!(lines[0].inline_styles, vec![(8, 11, InlineStyle::Bold)]);
    assert_eq!(&lines[0].text[8..11], "two");

    let (lines, _) = lay("<ol><li>first</li><li><i>second</i></li></ol>", 40);
    assert_eq!(texts(&lines), vec!["1. first", "2. second", ""]);
    assert_eq!(lines[1].inline_styles, vec![(3, 9, InlineStyle::Italic)]);
}

#[test]
fn definition_lists_show_terms_then_descriptions() {
    let (lines, _) = lay("<dl><dt>Term</dt><dd>What it <em>is</em></dd><dt>Other</dt></dl>", 40);
    assert_eq!(texts(&lines), vec!["Term", "Other", "  What it is", ""]);
    assert_eq!(lines[0].style, LineStyle::Heading3);
    assert_eq!(lines[2].style, LineStyle::Normal);
    assert_eq!(lines[2].inline_styles, vec![(10, 12, InlineStyle::Italic)]);
}

#[test]
fn tables_show_their_rows() {
    let markup = "<table><tr><th>A</th><td>B</td></tr><tr><td>c</td><td><i>d</i></td></tr></table>";
    let (lines, _) = lay(markup, 40);
    assert_eq!(texts(&lines), vec!["[Table]", "A | B", "c | d", ""]);
    assert_eq!(lines[2].inline_styles, vec![(4, 5, InlineStyle::Italic)]);
}

#[test]
fn rules_are_as_wide_as_the_text_up_to_eighty() {
    let (lines, _) = lay("<hr>", 10);
    assert_eq!(texts(&lines), vec!["\u{2500}".repeat(10).as_str(), ""]);
    let (lines, _) = lay("<hr>", 200);
    assert_eq!(lines[0].text.chars().count(), 80);
}

#[test]
fn asides_and_figures_frame_their_content() {
    let (lines, headings) = lay("<aside><h2>Note</h2><p>text</p></aside>", 40);
    assert_eq!(
        texts(&lines),
        vec![
            "\u{250c}\u{2500} Aside \u{2500}",
            "Note",
            "",
            "text",
            "",
            "\u{2514}\u{2500}\u{2500}\u{2500}\u{2500}\u{2500}\u{2500}\u{2500}\u{2500}\u{2500}",
            ""
        ]
    );
    assert_eq!(lines[0].style, LineStyle::Quote);
    assert_eq!(headings[0].line_number, 1);
    let (lines, _) = lay("<figure><img alt=\"x\"><figcaption><p>cap</p></figcaption></figure>", 40);
    assert_eq!(texts(&lines), vec!["[Figure]", "[Image: x]", "", "cap", ""]);
}

#[test]
fn navigation_lists_its_links() {
    let (lines, _) = lay("<nav><ol><li><a href=\"a\">One</a></li><li><a> </a></li><li><a>Two</a></li></ol></nav>", 40);
    assert_eq!(
        texts(&lines),
        vec!["\u{2500}\u{2500}\u{2500} Navigation \u{2500}\u{2500}\u{2500}", "\u{2192} One", "\u{2192} Two", ""]
    );
    assert_eq!(lines[0].style, LineStyle::Heading3);
    assert_eq!(lines[1].style, LineStyle::Link);
}

#[test]
fn links_and_inline_elements_outside_paragraphs_are_blocks() {
    let (lines, _) = lay("<div><a href=\"x\">a link</a><span>plain</span><em>  </em></div>", 40);
    assert_eq!(texts(&lines), vec!["a link", "plain"]);
    assert_eq!(lines[0].style, LineStyle::Link);
    assert_eq!(lines[1].style, LineStyle::Normal);
}

#[test]
fn unknown_elements_are_containers() {
    let (lines, _) = lay("<section><custom-box><p>inside</p></custom-box></section><!-- c -->", 40);
    assert_eq!(texts(&lines), vec!["inside", ""]);
}

#[test]
fn preformatted_text_is_kept_verbatim() {
    let (lines, _) = lay("<pre>first   line\n  second line that is quite long\r\nthird</pre>", 5);
    assert_eq!(
        texts(&lines),
        vec!["first   line", "  second line that is quite long", "third", ""]
    );
    assert_eq!(lines[0].style, LineStyle::CodeBlock { language: None });
    assert_eq!(lines[3].style, LineStyle::Normal);
}

#[test]
fn code_without_a_language_is_kept_verbatim() {
    let (lines, _) = lay("<pre><code class=\"fancy\">a = 1\nb = 2\n</code></pre>", 40);
    assert_eq!(texts(&lines), vec!["a = 1", "b = 2", ""]);
    assert_eq!(lines[0].style, LineStyle::CodeBlock { language: None });
}

#[test]
fn highlighted_fragments_become_lines_of_their_own() {
    let markup = "<pre><code class=\"language-rust\">let x = 1;\nlet y;</code></pre>";
    let mut blocks: Vec<Option<Vec<String>>> = vec![None; 8];
    // node 0 is the root element, node 1 the preformatted element
    blocks[1] = Some(vec!["let".to_string(), " x = 1;\n".to_string(), "let y;".to_string()]);
    let (lines, _) = layout(markup, 40, &blocks);
    assert_eq!(texts(&lines), vec!["let", " x = 1;", "let y;", ""]);
    let rust = LineStyle::CodeBlock { language: Some("rust".to_string()) };
    assert_eq!(lines[0].style, rust);
    assert_eq!(lines[2].style, rust);
    // without fragments the code is shown as it is
    let (plain, _) = layout(markup, 40, &Vec::new());
    assert_eq!(texts(&plain), vec!["let x = 1;", "let y;", ""]);
    assert_eq!(plain[0].style, rust);
}

#[test]
fn the_highlighter_covers_the_code() {
    let code = "fn main() {\n    println!(\"hi\");\n}\n";
    let h = highlighter();
    let fragments = h.highlight_code(code, Some("rust"));
    let joined: String = fragments.iter().map(|f| f.0.as_str()).collect();
    assert_eq!(joined, code);
    assert!(fragments.len() > 3);
    let plain = h.highlight_code(code, Some("no-such-language"));
    let joined: String = plain.iter().map(|f| f.0.as_str()).collect();
    assert_eq!(joined, code);
    assert_eq!(h.theme_name(), "base16-ocean.dark");
    assert_eq!(CodeHighlighter::new(Some(TerminalTheme::Light)).theme_name(), "base16-ocean.light");
    assert_eq!(detect_theme(Some(TerminalTheme::Dark)), "base16-ocean.dark");
}

#[test]
fn code_with_a_language_is_highlighted_in_a_chapter() {
    let mut chapter =
        create_test_chapter("<pre><code class=\"language-rust\">let x = 1;\nlet y = 2;\n</code></pre>");
    render_chapter(&mut chapter, Some(80), 100, &highlighter());
    let rust = LineStyle::CodeBlock { language: Some("rust".to_string()) };
    let code: Vec<&RenderedLine> = chapter.content_lines.iter().filter(|l| l.style == rust).collect();
    assert!(!code.is_empty());
    let joined: String = code.iter().map(|l| l.text.as_str()).collect();
    assert_eq!(joined.replace(' ', ""), "letx=1;lety=2;");
    assert_eq!(chapter.content_lines.last().unwrap().text, "");
}

#[test]
fn languages_are_found_in_class_names() {
    let lang = |class: &str| detect_language(&Some(class.to_string()));
    assert_eq!(lang("language-rust"), Some("rust".to_string()));
    assert_eq!(lang("foo highlight-py bar"), Some("py".to_string()));
    assert_eq!(lang("sourceCode"), Some(String::new()));
    assert_eq!(lang("sourceCodehaskell"), Some("haskell".to_string()));
    assert_eq!(lang("  toml  "), Some("toml".to_string()));
    assert_eq!(lang("python language-x"), Some("python".to_string()));
    assert_eq!(lang("Rust"), None);
    assert_eq!(lang("unknown words"), None);
    assert_eq!(lang(""), None);
    assert_eq!(detect_language(&None), None);
}

#[test]
fn titles_are_normalised() {
    assert_eq!(normalize_text("  plain  "), "plain");
    assert_eq!(
        normalize_text("\ta &lt;b&gt; &quot;c&quot; &#39;d&#39; &amp;amp;\n"),
        "a <b> \"c\" 'd' &amp;"
    );
    assert_eq!(normalize_text("&amp;lt;"), "<");
    assert_eq!(normalize_text("&nbsp;"), "&nbsp;");
}

fn heading(text: &str, level: u8, line_number: usize, id: Option<&str>) -> HeadingInfo {
    HeadingInfo { text: text.to_string(), level, line_number, id: id.map(|s| s.to_string()) }
}

fn section(title: &str, fragment_id: Option<&str>) -> Section {
    Section { title: title.to_string(), start_line: 0, fragment_id: fragment_id.map(|s| s.to_string()) }
}

#[test]
fn sections_come_from_headings_of_level_two_and_three() {
    let headings = vec![
        heading("Title", 1, 0, None),
        heading("A", 2, 2, Some("a")),
        heading("B", 3, 5, None),
        heading("C", 4, 7, Some("c")),
        heading("D", 2, 9, None),
    ];
    let sections = sections_from_headings(&headings);
    let found: Vec<(&str, usize)> = sections.iter().map(|s| (s.title.as_str(), s.start_line)).collect();
    assert_eq!(found, vec![("A", 2), ("B", 5), ("D", 9)]);
    assert_eq!(sections[0].fragment_id, Some("a".to_string()));
    assert_eq!(resolve_sections(&Vec::new(), &headings), sections);
}

#[test]
fn an_anchor_match_wins_over_a_title_match() {
    let headings = vec![heading("First", 2, 2, Some("s1")), heading("Second", 2, 6, Some("s2"))];
    let declared = vec![section("Second", Some("s1"))];
    let resolved = resolve_sections(&declared, &headings);
    assert_eq!(resolved[0].start_line, 2);
    assert_eq!(resolved[0].title, "Second");
    assert_eq!(resolved[0].fragment_id, Some("s1".to_string()));
}

#[test]
fn sections_fall_back_to_titles_and_then_to_the_start() {
    let headings = vec![
        heading("Intro", 1, 0, None),
        heading(" Tom & Jerry ", 2, 4, Some("tj")),
        heading("Tom & Jerry", 2, 9, None),
    ];
    let declared = vec![
        section("Tom &amp; Jerry", Some("missing")),
        section("Tom &amp; Jerry", None),
        section("Nowhere", Some("nope")),
        Section { title: "Lost".to_string(), start_line: 33, fragment_id: None },
    ];
    let resolved = resolve_sections(&declared, &headings);
    let lines: Vec<usize> = resolved.iter().map(|s| s.start_line).collect();
    assert_eq!(lines, vec![4, 4, 0, 0]);
}

#[test]
fn declared_sections_are_positioned_by_a_layout_pass() {
    let mut chapter = create_test_chapter("<h1>T</h1><h2 id=\"a\">Alpha</h2><p>x</p><h2>Beta</h2>");
    chapter.sections = vec![section("Beta", None), section("Renamed", Some("a")), section("Gone", None)];
    render_chapter(&mut chapter, Some(80), 100, &highlighter());
    let lines: Vec<usize> = chapter.sections.iter().map(|s| s.start_line).collect();
    assert_eq!(lines, vec![6, 2, 0]);
    assert_eq!(chapter.sections.len(), 3);
}

#[test]
fn every_span_lies_within_its_line() {
    let markup = "<h2>A <em>long heading that wraps</em></h2><p>Some <b>bold text and <i>nested italics</i> that go on</b> and <code>code</code>.</p><ul><li><u>first item with style</u></li></ul><table><tr><td><s>struck</s></td><td><mark>marked cell</mark></td></tr></table>";
    for width in [1u16, 6, 9, 14, 25, 80] {
        let mut chapter = create_test_chapter(markup);
        render_chapter(&mut chapter, None, width, &highlighter());
        for line in &chapter.content_lines {
            for (start, end, _) in &line.inline_styles {
                assert!(start < end && *end <= line.text.len());
                assert!(line.text.is_char_boundary(*start) && line.text.is_char_boundary(*end));
            }
            assert!(line.search_matches.is_empty());
        }
    }
}

#[test]
fn synthesised_sections_are_sorted() {
    let markup = "<h2>One</h2><p>text text text text text text text</p><aside><h3>Two</h3></aside><div><h2>Three</h2><h4>skip</h4><h3>Four</h3></div>";
    for width in [5u16, 12, 60] {
        let mut chapter = create_test_chapter(markup);
        render_chapter(&mut chapter, None, width, &highlighter());
        let titles: Vec<&str> = chapter.sections.iter().map(|s| s.title.as_str()).collect();
        assert_eq!(titles, vec!["One", "Two", "Three", "Four"]);
        assert!(chapter.sections.windows(2).all(|w| w[0].start_line <= w[1].start_line));
        for section in &chapter.sections {
            assert!(chapter.content_lines[section.start_line].text.starts_with(&section.title[..1]));
        }
    }
}

#[test]
fn a_line_behind_a_run_of_spaces_keeps_its_spans() {
    let (lines, _) = lay("<p>aaaaaaa  <b>bbbbbbb</b></p>", 7);
    assert_eq!(texts(&lines), vec!["aaaaaaa", "bbbbbbb", ""]);
    assert!(lines[0].inline_styles.is_empty());
    assert_eq!(lines[1].inline_styles, vec![(0, 7, InlineStyle::Bold)]);

    let (lines, _) = lay("<p>one     <i>two</i>      <b>three</b></p>", 5);
    assert_eq!(texts(&lines), vec!["one", "two", "three", ""]);
    assert_eq!(lines[1].inline_styles, vec![(0, 3, InlineStyle::Italic)]);
    assert_eq!(lines[2].inline_styles, vec![(0, 5, InlineStyle::Bold)]);
}

#[test]
fn a_line_behind_a_line_feed_keeps_its_spans() {
    let (lines, _) = lay("<p>aaa\n<i>bbb</i>\n\n<b>cc</b> d</p>", 10);
    assert_eq!(texts(&lines), vec!["aaa", "bbb", "", "cc d", ""]);
    assert_eq!(lines[1].inline_styles, vec![(0, 3, InlineStyle::Italic)]);
    assert!(lines[2].inline_styles.is_empty());
    assert_eq!(lines[3].inline_styles, vec![(0, 2, InlineStyle::Bold)]);
}

#[test]
fn a_line_behind_text_of_many_bytes_keeps_its_spans() {
    let (lines, _) = lay("<p>\u{e9}\u{e9}\u{e9} <b>bbb</b> <u>\u{4e2d}\u{6587}</u>!</p>", 3);
    // the wide characters take two columns each, so they are parted
    assert_eq!(
        texts(&lines),
        vec!["\u{e9}\u{e9}\u{e9}", "bbb", "\u{4e2d}", "\u{6587}!", ""]
    );
    assert!(lines[0].inline_styles.is_empty());
    assert_eq!(lines[1].inline_styles, vec![(0, 3, InlineStyle::Bold)]);
    assert_eq!(lines[2].inline_styles, vec![(0, 3, InlineStyle::Underline)]);
    assert_eq!(lines[3].inline_styles, vec![(0, 3, InlineStyle::Underline)]);
    assert_eq!(&lines[3].text[0..3], "\u{6587}");
}

#[test]
fn spans_follow_their_text_at_every_width() {
    let markup = "<p>alpha  <b>beta gamma</b>\n delta   <i>\u{3b5}psilon z\u{e9}ta</i>  eta <code>theta</code></p>";
    let (whole, _) = lay(markup, 500);
    let marked: Vec<(String, InlineStyle)> = vec![
        ("beta gamma".to_string(), InlineStyle::Bold),
        ("\u{3b5}psilon z\u{e9}ta".to_string(), InlineStyle::Italic),
        ("theta".to_string(), InlineStyle::Code),
    ];
    assert!(!whole.is_empty());
    for width in [1usize, 2, 4, 6, 9, 12, 20, 40] {
        let (lines, _) = lay(markup, width);
        for (word, style) in &marked {
            let mut shown = String::new();
            for line in &lines {
                for (lo, hi, st) in &line.inline_styles {
                    if st == style {
                        shown.push_str(&line.text[*lo..*hi]);
                    }
                }
            }
            let kept: String = word.chars().filter(|c| *c != ' ').collect();
            let seen: String = shown.chars().filter(|c| *c != ' ').collect();
            assert_eq!(seen, kept, "width {}", width);
        }
    }
}

#[test]
fn lines_that_are_not_in_the_text_carry_no_spans() {
    use_append_wrapped();
}

fn use_append_wrapped() {
    let mut lines = Vec::new();
    let wrapped = vec!["abc".to_string(), "xyz".to_string(), "def".to_string()];
    reef::epub::wrap::append_wrapped(
        &mut lines,
        "abc def",
        &wrapped,
        &LineStyle::Normal,
        &vec![(0, 7, InlineStyle::Bold)],
    );
    assert_eq!(lines[0].inline_styles, vec![(0, 3, InlineStyle::Bold)]);
    assert!(lines[1].inline_styles.is_empty());
    assert_eq!(lines[2].inline_styles, vec![(0, 3, InlineStyle::Bold)]);
}

#[test]
fn the_highlighter_keeps_the_code_of_every_language() {
    let h = highlighter();
    let code = "<?php echo \"x\"; ?>\n{ \"a\": [1, 2] }\n\tdef f(x):\n\n    return x  \nlast line without end";
    for language in ["php", "json", "python", "rs", "html", "md", "sh", "", "nothing"] {
        let fragments = h.highlight_code(code, Some(language));
        let joined: String = fragments.iter().map(|f| f.0.as_str()).collect();
        assert_eq!(joined, code, "language {}", language);
    }
    let fragments = h.highlight_code(code, None);
    let joined: String = fragments.iter().map(|f| f.0.as_str()).collect();
    assert_eq!(joined, code);
    assert!(h.highlight_code("", Some("rust")).is_empty());
}
