//! The lines of the block elements that hold no nested blocks: code blocks,
//! images, lists, definition lists, tables, rules and navigation.

use vstd::prelude::*;
use vstd::string::*;
use crate::epub::markup::{
    collect_text, elements_named, end_of, find_elements, node_views, subtree_end, text_content,
    MarkupNode, NodeView,
};
use crate::text::{
    byte_len, byte_length, chars_equal, chars_of, fitting_prefix, has_prefix, lines_of, owned,
    split_lines, split_words, starts_with, string_of, string_views, tail_from, take_fitting, trim,
    trimmed, views, words_of,
};
use crate::types::{
    all_laid_out, line_views, opt_view, InlineStyle, LineStyle, LineStyleView, LineView,
    RenderedLine,
};

verus! {

/// The empty separator line.
pub open spec fn blank_line() -> LineView {
    LineView::plain(Seq::empty(), LineStyleView::Normal)
}

/// One unannotated line per text.
pub open spec fn plain_lines(texts: Seq<Seq<char>>, style: LineStyleView) -> Seq<LineView> {
    Seq::new(texts.len(), |j: int| LineView::plain(texts[j], style))
}

/// `width` less `by`, and zero where that would be negative.
pub open spec fn narrowed(width: usize, by: usize) -> usize {
    if width >= by {
        (width - by) as usize
    } else {
        0
    }
}

/// `spans` moved right by `by` bytes.
pub open spec fn shifted(spans: Seq<(usize, usize, InlineStyle)>, by: usize) -> Seq<
    (usize, usize, InlineStyle),
> {
    Seq::new(
        spans.len(),
        |k: int| ((spans[k].0 + by) as usize, (spans[k].1 + by) as usize, spans[k].2),
    )
}

/// Appends one unannotated line.
pub fn push_plain(lines: &mut Vec<RenderedLine>, text: String, style: LineStyle)
    ensures
        all_laid_out(line_views(old(lines)@)) ==> all_laid_out(line_views(final(lines)@)),
        final(lines).len() >= old(lines).len(),
        line_views(final(lines)@) == line_views(old(lines)@).push(LineView::plain(text@, style@)),
{
    let ghost before = line_views(lines@);
    let ghost added = LineView::plain(text@, style@);
    let line = RenderedLine {
        text,
        style,
        search_matches: Vec::new(),
        inline_styles: Vec::new(),
        syntax_colors: Vec::new(),
    };
    assert(line@ == added);
    lines.push(line);
    assert(line_views(lines@) =~= before.push(added));
}

/// Appends the empty separator line.
pub fn add_blank_line(lines: &mut Vec<RenderedLine>)
    ensures
        all_laid_out(line_views(old(lines)@)) ==> all_laid_out(line_views(final(lines)@)),
        final(lines).len() >= old(lines).len(),
        line_views(final(lines)@) == line_views(old(lines)@).push(blank_line()),
{
    push_plain(lines, String::new(), LineStyle::Normal);
}

/// Appends one unannotated line per text of `texts`.
pub fn push_plain_lines(lines: &mut Vec<RenderedLine>, texts: &Vec<Vec<char>>, style: &LineStyle)
    ensures
        all_laid_out(line_views(old(lines)@)) ==> all_laid_out(line_views(final(lines)@)),
        final(lines).len() >= old(lines).len(),
        line_views(final(lines)@) == line_views(old(lines)@) + plain_lines(views(texts@), style@),
{
    let ghost goal = plain_lines(views(texts@), style@);
    let mut j: usize = 0;
    assert(line_views(lines@) =~= line_views(old(lines)@) + goal.take(0));
    while j < texts.len()
        invariant
            j <= texts.len(),
            goal == plain_lines(views(texts@), style@),
            line_views(lines@) == line_views(old(lines)@) + goal.take(j as int),
            all_laid_out(line_views(old(lines)@)) ==> all_laid_out(line_views(lines@)),
        decreases texts.len() - j,
    {
        push_plain(lines, string_of(&texts[j]), style.duplicate());
        assert(goal.take(j + 1) == goal.take(j as int).push(goal[j as int]));
        j += 1;
    }
    assert(goal.take(goal.len() as int) == goal);
}

/// Moves every span right by `by` bytes.
pub fn shift_spans(spans: &Vec<(usize, usize, InlineStyle)>, by: usize, bound: usize) -> (out: Vec<
    (usize, usize, InlineStyle),
>)
    requires
        by + bound <= usize::MAX,
        forall|k: int| 0 <= k < spans.len() ==> (#[trigger] spans[k]).0 < spans[k].1 <= bound,
    ensures
        out@ == shifted(spans@, by),
{
    let mut out: Vec<(usize, usize, InlineStyle)> = Vec::new();
    let mut k: usize = 0;
    while k < spans.len()
        invariant
            k <= spans.len(),
            by + bound <= usize::MAX,
            forall|j: int| 0 <= j < spans.len() ==> (#[trigger] spans[j]).0 < spans[j].1 <= bound,
            out@ == shifted(spans@, by).take(k as int),
        decreases spans.len() - k,
    {
        let s = spans[k];
        out.push((s.0 + by, s.1 + by, s.2));
        assert(shifted(spans@, by).take(k + 1) == shifted(spans@, by).take(k as int).push(
            shifted(spans@, by)[k as int],
        ));
        k += 1;
    }
    assert(shifted(spans@, by).take(spans@.len() as int) == shifted(spans@, by));
    out
}

/// Whether `word` names one of the languages known by their bare name.
pub open spec fn is_known_language(word: Seq<char>) -> bool {
    word == "rust"@ || word == "python"@ || word == "javascript"@ || word == "typescript"@ || word
        == "java"@ || word == "c"@ || word == "cpp"@ || word == "go"@ || word == "ruby"@ || word
        == "php"@ || word == "swift"@ || word == "kotlin"@ || word == "scala"@ || word
        == "haskell"@ || word == "elixir"@ || word == "erlang"@ || word == "clojure"@ || word
        == "bash"@ || word == "sh"@ || word == "shell"@ || word == "sql"@ || word == "html"@
        || word == "css"@ || word == "json"@ || word == "xml"@ || word == "yaml"@ || word
        == "markdown"@ || word == "md"@ || word == "toml"@
}

/// The language that one class name gives, if any: what follows
/// `language-`, `highlight-` or `sourceCode`, or a known bare name.
pub open spec fn word_language(word: Seq<char>) -> Option<Seq<char>> {
    if starts_with(word, "language-"@) {
        Some(word.skip("language-"@.len() as int))
    } else if starts_with(word, "highlight-"@) {
        Some(word.skip("highlight-"@.len() as int))
    } else if starts_with(word, "sourceCode"@) {
        Some(trimmed(word.skip("sourceCode"@.len() as int)))
    } else if is_known_language(word) {
        Some(word)
    } else {
        None
    }
}

/// The language of the first of `words` that gives one.
pub open spec fn first_language(words: Seq<Seq<char>>) -> Option<Seq<char>>
    decreases words.len(),
{
    if words.len() == 0 {
        None
    } else {
        match word_language(words[0]) {
            Some(l) => Some(l),
            None => first_language(words.drop_first()),
        }
    }
}

/// The language hint of a code element with the given `class` attribute.
pub open spec fn detected_language(class: Option<Seq<char>>) -> Option<Seq<char>> {
    match class {
        Some(c) => first_language(words_of(c)),
        None => None,
    }
}

fn word_is(word: &Vec<char>, name: &str) -> (same: bool)
    ensures
        same == (word@ == name@),
{
    let other = chars_of(name);
    chars_equal(word, &other)
}

fn known_language(w: &Vec<char>) -> (known: bool)
    ensures
        known == is_known_language(w@),
{
    word_is(w, "rust") || word_is(w, "python") || word_is(w, "javascript") || word_is(
        w,
        "typescript",
    ) || word_is(w, "java") || word_is(w, "c") || word_is(w, "cpp") || word_is(w, "go")
        || word_is(w, "ruby") || word_is(w, "php") || word_is(w, "swift") || word_is(w, "kotlin")
        || word_is(w, "scala") || word_is(w, "haskell") || word_is(w, "elixir") || word_is(
        w,
        "erlang",
    ) || word_is(w, "clojure") || word_is(w, "bash") || word_is(w, "sh") || word_is(w, "shell")
        || word_is(w, "sql") || word_is(w, "html") || word_is(w, "css") || word_is(w, "json")
        || word_is(w, "xml") || word_is(w, "yaml") || word_is(w, "markdown") || word_is(w, "md")
        || word_is(w, "toml")
}

fn language_of_word(word: &Vec<char>) -> (lang: Option<Vec<char>>)
    ensures
        match lang {
            Some(l) => word_language(word@) == Some(l@),
            None => word_language(word@) is None,
        },
{
    let language = chars_of("language-");
    let highlight = chars_of("highlight-");
    let source = chars_of("sourceCode");
    if has_prefix(word, &language) {
        Some(tail_from(word, language.len()))
    } else if has_prefix(word, &highlight) {
        Some(tail_from(word, highlight.len()))
    } else if has_prefix(word, &source) {
        let rest = tail_from(word, source.len());
        Some(trim(&rest))
    } else if known_language(word) {
        Some(tail_from(word, 0))
    } else {
        None
    }
}

/// The language hint that a code element's `class` attribute carries.
pub fn detect_language(class: &Option<String>) -> (lang: Option<String>)
    ensures
        opt_view(lang) == detected_language(opt_view(*class)),
{
    match class {
        None => None,
        Some(c) => {
            let chars = chars_of(c.as_str());
            let words = split_words(&chars);
            let ghost all = views(words@);
            let mut k: usize = 0;
            assert(all.skip(0) == all);
            while k < words.len()
                invariant
                    k <= words.len(),
                    all == views(words@),
                    all == words_of(c@),
                    opt_view(*class) == Some(c@),
                    first_language(all) == first_language(all.skip(k as int)),
                decreases words.len() - k,
            {
                assert(all.skip(k as int).drop_first() == all.skip(k + 1));
                assert(all.skip(k as int)[0] == words[k as int]@);
                match language_of_word(&words[k]) {
                    Some(l) => {
                        assert(all.skip(k as int).len() > 0);
                        assert(first_language(all.skip(k as int)) == Some(l@));
                        return Some(string_of(&l));
                    },
                    None => {},
                }
                k += 1;
            }
            assert(all.skip(all.len() as int).len() == 0);
            None
        },
    }
}

/// The `class` attribute of node `i`, where it is an element that has one.
pub open spec fn class_at(nodes: Seq<NodeView>, i: int) -> Option<Seq<char>> {
    match nodes[i] {
        NodeView::Element { class, .. } => class,
        _ => None,
    }
}

/// The `alt` attribute of node `i`, where it is an element that has one.
pub open spec fn alt_at(nodes: Seq<NodeView>, i: int) -> Option<Seq<char>> {
    match nodes[i] {
        NodeView::Element { alt, .. } => alt,
        _ => None,
    }
}

/// The `id` attribute of node `i`, where it is an element that has one.
pub open spec fn id_at(nodes: Seq<NodeView>, i: int) -> Option<Seq<char>> {
    match nodes[i] {
        NodeView::Element { id, .. } => id,
        _ => None,
    }
}

/// The views of the highlighted fragments, one entry per node.
pub open spec fn block_views(blocks: Seq<Option<Vec<String>>>) -> Seq<Option<Seq<Seq<char>>>> {
    Seq::new(
        blocks.len(),
        |i: int|
            match blocks[i] {
                Some(f) => Some(string_views(f@)),
                None => None,
            },
    )
}

/// The highlighted fragments for the code block at node `i`, if any.
pub open spec fn highlight_at(blocks: Seq<Option<Seq<Seq<char>>>>, i: int) -> Option<
    Seq<Seq<char>>,
> {
    if 0 <= i < blocks.len() {
        blocks[i]
    } else {
        None
    }
}

/// The lines of highlighted fragments `k..`: every fragment is split into
/// lines of its own.
pub open spec fn fragment_lines(
    fragments: Seq<Seq<char>>,
    k: int,
    style: LineStyleView,
    acc: Seq<LineView>,
) -> Seq<LineView>
    decreases fragments.len() - k,
{
    if k < 0 || k >= fragments.len() {
        acc
    } else {
        fragment_lines(fragments, k + 1, style, acc + plain_lines(lines_of(fragments[k]), style))
    }
}

/// What the preformatted element `i`, whose subtree ends at `end`, asks the
/// highlighter for: the text of its first nested code element and that
/// element's language hint. `None` where there is no such element or hint.
pub open spec fn code_request(nodes: Seq<NodeView>, i: int, end: int) -> Option<
    (Seq<char>, Seq<char>),
> {
    let codes = elements_named(nodes, i + 1, end, "code"@, "code"@);
    if codes.len() > 0 {
        let c = codes[0] as int;
        match detected_language(class_at(nodes, c)) {
            Some(lang) => Some((text_content(nodes, c + 1, subtree_end(nodes, c, end)), lang)),
            None => None,
        }
    } else {
        None
    }
}

/// The lines of the preformatted element `i`. With a language hint and
/// highlighted fragments, the lines of the fragments; with a hint but no
/// fragments, the lines of the code as they are; without a hint, the lines of
/// the element's text as they are. No line is wrapped. A blank line follows.
pub open spec fn code_block(
    nodes: Seq<NodeView>,
    i: int,
    end: int,
    blocks: Seq<Option<Seq<Seq<char>>>>,
) -> Seq<LineView> {
    (match code_request(nodes, i, end) {
        Some((code, lang)) => {
            let style = LineStyleView::CodeBlock { language: Some(lang) };
            match highlight_at(blocks, i) {
                Some(fragments) => fragment_lines(fragments, 0, style, Seq::empty()),
                None => plain_lines(lines_of(code), style),
            }
        },
        None => plain_lines(
            lines_of(text_content(nodes, i + 1, end)),
            LineStyleView::CodeBlock { language: None },
        ),
    }).push(blank_line())
}

/// The code and language hint that the preformatted element `i` asks the
/// highlighter for.
pub fn request_for(nodes: &Vec<MarkupNode>, i: usize, end: usize) -> (r: Option<(String, String)>)
    requires
        i < end <= nodes.len(),
    ensures
        match r {
            Some((code, lang)) => code_request(node_views(nodes@), i as int, end as int) == Some(
                (code@, lang@),
            ),
            None => code_request(node_views(nodes@), i as int, end as int) is None,
        },
{
    let codes = find_elements(nodes, i + 1, end, "code", "code");
    if codes.len() > 0 {
        let c = codes[0];
        let class = match &nodes[c] {
            MarkupNode::Element { class, .. } => detect_language(class),
            _ => None,
        };
        match class {
            Some(lang) => {
                let stop = end_of(nodes, c, end);
                Some((collect_text(nodes, c + 1, stop), lang))
            },
            None => None,
        }
    } else {
        None
    }
}

/// Appends the lines of the preformatted element `i`.
pub fn process_code_block(
    nodes: &Vec<MarkupNode>,
    i: usize,
    end: usize,
    blocks: &Vec<Option<Vec<String>>>,
    lines: &mut Vec<RenderedLine>,
)
    requires
        i < end <= nodes.len(),
    ensures
        all_laid_out(line_views(old(lines)@)) ==> all_laid_out(line_views(final(lines)@)),
        final(lines).len() >= old(lines).len(),
        line_views(final(lines)@) == line_views(old(lines)@) + code_block(
            node_views(nodes@),
            i as int,
            end as int,
            block_views(blocks@),
        ),
{
    let ghost before = line_views(lines@);
    match request_for(nodes, i, end) {
        Some((code, lang)) => {
            let style = LineStyle::CodeBlock { language: Some(lang) };
            if i < blocks.len() && blocks[i].is_some() {
                let fragments = blocks[i].as_ref().unwrap();
                let ghost fv = string_views(fragments@);
                assert(highlight_at(block_views(blocks@), i as int) == Some(fv));
                let mut k: usize = 0;
                assert(line_views(lines@) =~= before + Seq::<LineView>::empty());
                while k < fragments.len()
                    invariant
                        k <= fragments.len(),
                        fv == string_views(fragments@),
                        fragment_lines(fv, 0, style@, Seq::empty()) == fragment_lines(
                            fv,
                            k as int,
                            style@,
                            line_views(lines@).skip(before.len() as int),
                        ),
                        line_views(lines@).take(before.len() as int) == before,
                        line_views(lines@).len() >= before.len(),
                        all_laid_out(line_views(old(lines)@)) ==> all_laid_out(line_views(lines@)),
                    decreases fragments.len() - k,
                {
                    let ghost sofar = line_views(lines@);
                    let chars = chars_of(fragments[k].as_str());
                    let parts = split_lines(&chars);
                    push_plain_lines(lines, &parts, &style);
                    assert(line_views(lines@).skip(before.len() as int) =~= sofar.skip(
                        before.len() as int,
                    ) + plain_lines(lines_of(fv[k as int]), style@));
                    assert(line_views(lines@).take(before.len() as int) =~= before);
                    k += 1;
                }
                assert(line_views(lines@) =~= before + line_views(lines@).skip(
                    before.len() as int,
                ));
            } else {
                assert(highlight_at(block_views(blocks@), i as int) is None);
                let chars = chars_of(code.as_str());
                let parts = split_lines(&chars);
                push_plain_lines(lines, &parts, &style);
            }
        },
        None => {
            let text = collect_text(nodes, i + 1, end);
            let chars = chars_of(text.as_str());
            let parts = split_lines(&chars);
            push_plain_lines(lines, &parts, &LineStyle::CodeBlock { language: None });
        },
    }
    let ghost body = line_views(lines@);
    add_blank_line(lines);
    assert(line_views(lines@) =~= before + body.skip(before.len() as int).push(blank_line()));
}

/// The placeholder text of an image with the given `alt` attribute: a generic
/// one where there is no alternative text, else the text, cut to the longest
/// prefix of at most 50 bytes and marked with an ellipsis where it is longer.
pub open spec fn image_placeholder(alt: Option<Seq<char>>) -> Seq<char> {
    let text = match alt {
        Some(a) => a,
        None => Seq::<char>::empty(),
    };
    if text.len() == 0 {
        "[Image]"@
    } else if byte_len(text) > 50 {
        "[Image: "@ + fitting_prefix(text, 50) + "..."@ + "]"@
    } else {
        "[Image: "@ + text + "]"@
    }
}

/// The lines of an image: its placeholder and a blank line.
pub open spec fn image_lines(alt: Option<Seq<char>>) -> Seq<LineView> {
    seq![LineView::plain(image_placeholder(alt), LineStyleView::Normal), blank_line()]
}

/// Appends the placeholder for an image.
pub fn process_image(alt: &Option<String>, lines: &mut Vec<RenderedLine>)
    ensures
        all_laid_out(line_views(old(lines)@)) ==> all_laid_out(line_views(final(lines)@)),
        final(lines).len() >= old(lines).len(),
        line_views(final(lines)@) == line_views(old(lines)@) + image_lines(opt_view(*alt)),
{
    let ghost before = line_views(lines@);
    let empty = String::new();
    let text: &String = match alt {
        Some(a) => a,
        None => &empty,
    };
    let chars = chars_of(text.as_str());
    let placeholder = if chars.len() == 0 {
        owned("[Image]")
    } else if byte_length(text.as_str()) > 50 {
        let cut = take_fitting(&chars, 50);
        let mut p = owned("[Image: ");
        p.append(string_of(&cut).as_str());
        p.append("...");
        p.append("]");
        p
    } else {
        let mut p = owned("[Image: ");
        p.append(text.as_str());
        p.append("]");
        p
    };
    push_plain(lines, placeholder, LineStyle::Normal);
    add_blank_line(lines);
    assert(line_views(lines@) =~= before + image_lines(opt_view(*alt)));
}

/// The text of a horizontal rule: the rule character, once per column up to
/// 80 columns.
pub open spec fn rule_text(width: usize) -> Seq<char> {
    Seq::new(
        if width < 80 {
            width as nat
        } else {
            80
        },
        |k: int| '\u{2500}',
    )
}

/// The lines of a horizontal rule: the rule and a blank line.
pub open spec fn rule_lines(width: usize) -> Seq<LineView> {
    seq![LineView::plain(rule_text(width), LineStyleView::Normal), blank_line()]
}

/// Appends a horizontal rule.
pub fn process_horizontal_rule(lines: &mut Vec<RenderedLine>, width: usize)
    ensures
        all_laid_out(line_views(old(lines)@)) ==> all_laid_out(line_views(final(lines)@)),
        final(lines).len() >= old(lines).len(),
        line_views(final(lines)@) == line_views(old(lines)@) + rule_lines(width),
{
    let ghost before = line_views(lines@);
    let count: usize = if width < 80 {
        width
    } else {
        80
    };
    let mut rule: Vec<char> = Vec::new();
    while rule.len() < count
        invariant
            rule.len() <= count,
            forall|k: int| 0 <= k < rule.len() ==> rule[k] == '\u{2500}',
        decreases count - rule.len(),
    {
        rule.push('\u{2500}');
    }
    assert(rule@ =~= rule_text(width));
    push_plain(lines, string_of(&rule), LineStyle::Normal);
    add_blank_line(lines);
    assert(line_views(lines@) =~= before + rule_lines(width));
}

} // verus!
