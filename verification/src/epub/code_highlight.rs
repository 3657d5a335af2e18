//! Syntax highlighting of code blocks with the bundled syntaxes and themes.

use vstd::prelude::*;
use vstd::string::*;
use crate::text::{chars_of, owned, same_text, string_of, views};
use crate::types::Rgb;

verus! {

/// `syntect::parsing::SyntaxSet`, a set of syntaxes. Its inside is not looked
/// at.
#[verifier::external_type_specification]
#[verifier::external_body]
pub struct ExSyntaxSet(syntect::parsing::SyntaxSet);

/// `syntect::parsing::SyntaxReference`, one syntax of a set. Its inside is not
/// looked at.
#[verifier::external_type_specification]
#[verifier::external_body]
pub struct ExSyntaxReference(syntect::parsing::SyntaxReference);

/// `syntect::highlighting::ThemeSet`, a set of themes. Its inside is not
/// looked at.
#[verifier::external_type_specification]
#[verifier::external_body]
pub struct ExThemeSet(syntect::highlighting::ThemeSet);

/// `syntect::highlighting::Theme`, one theme of a set. Its inside is not
/// looked at.
#[verifier::external_type_specification]
#[verifier::external_body]
pub struct ExTheme(syntect::highlighting::Theme);

/// `syntect::easy::HighlightLines`, the state of highlighting from line to
/// line. Its inside is not looked at.
#[verifier::external_type_specification]
#[verifier::external_body]
pub struct ExHighlightLines<'a>(syntect::easy::HighlightLines<'a>);

/// What a probe of the terminal's background found.
#[derive(Debug, Clone, Copy, PartialEq, Eq, Structural)]
pub enum TerminalTheme {
    Light,
    Dark,
}

/// Highlights code with the bundled syntaxes and one of the bundled themes.
pub struct CodeHighlighter {
    syntax_set: syntect::parsing::SyntaxSet,
    theme_set: syntect::highlighting::ThemeSet,
    theme_name: String,
}

/// Calls `SyntaxSet::load_defaults_newlines`, which unpacks the syntaxes
/// bundled with the crate. Nothing is claimed of the set.
#[verifier::external_body]
fn load_syntaxes() -> syntect::parsing::SyntaxSet {
    syntect::parsing::SyntaxSet::load_defaults_newlines()
}

/// Calls `ThemeSet::load_defaults`, which unpacks the themes bundled with
/// the crate. Nothing is claimed of the set.
#[verifier::external_body]
fn load_themes() -> syntect::highlighting::ThemeSet {
    syntect::highlighting::ThemeSet::load_defaults()
}

/// A syntax together with the set that holds it. Values are made by the
/// lookups in a set only, so the syntax always belongs to the set.
pub struct FoundSyntax<'a> {
    set: &'a syntect::parsing::SyntaxSet,
    syntax: &'a syntect::parsing::SyntaxReference,
}

/// The state of highlighting from line to line, together with the syntax
/// set that its syntax came from. Values are made by `start_highlighting`
/// only, so a state is never used with another set.
pub struct LineHighlighter<'a> {
    state: syntect::easy::HighlightLines<'a>,
    set: &'a syntect::parsing::SyntaxSet,
}

/// Calls `SyntaxSet::find_syntax_by_token` and keeps what it finds with the
/// set. Nothing is claimed of the result.
#[verifier::external_body]
fn syntax_by_token<'a>(set: &'a syntect::parsing::SyntaxSet, token: &str) -> Option<
    FoundSyntax<'a>,
> {
    set.find_syntax_by_token(token).map(|syntax| FoundSyntax { set, syntax })
}

/// Calls `SyntaxSet::find_syntax_by_extension` and keeps what it finds with
/// the set. Nothing is claimed of the result.
#[verifier::external_body]
fn syntax_by_extension<'a>(set: &'a syntect::parsing::SyntaxSet, extension: &str) -> Option<
    FoundSyntax<'a>,
> {
    set.find_syntax_by_extension(extension).map(|syntax| FoundSyntax { set, syntax })
}

/// Calls `SyntaxSet::find_syntax_by_name` and keeps what it finds with the
/// set. Nothing is claimed of the result.
#[verifier::external_body]
fn syntax_by_name<'a>(set: &'a syntect::parsing::SyntaxSet, name: &str) -> Option<
    FoundSyntax<'a>,
> {
    set.find_syntax_by_name(name).map(|syntax| FoundSyntax { set, syntax })
}

/// Looks `name` up in the `themes` map of a `ThemeSet`. Nothing is claimed of
/// the result.
#[verifier::external_body]
fn theme_named<'a>(set: &'a syntect::highlighting::ThemeSet, name: &str) -> Option<
    &'a syntect::highlighting::Theme,
> {
    set.themes.get(name)
}

/// Calls `HighlightLines::new` for a syntax and keeps the state with the set
/// that holds the syntax. Nothing is claimed of the result.
#[verifier::external_body]
fn start_highlighting<'a>(
    found: FoundSyntax<'a>,
    theme: &'a syntect::highlighting::Theme,
) -> LineHighlighter<'a> {
    LineHighlighter { state: syntect::easy::HighlightLines::new(found.syntax, theme), set: found.set }
}

/// The texts of the fragments, joined.
pub open spec fn fragment_text(fragments: Seq<(String, Rgb)>) -> Seq<char>
    decreases fragments.len(),
{
    if fragments.len() == 0 {
        Seq::empty()
    } else {
        fragment_text(fragments.drop_last()) + fragments.last().0@
    }
}

/// Calls `HighlightLines::highlight_line` with the set that the state was
/// made for, and hands out each range as its text and the red, green and
/// blue of its foreground; `None` where the call fails. Nothing is claimed
/// of the ranges.
#[verifier::external_body]
fn highlight_line(highlighter: &mut LineHighlighter<'_>, line: &str) -> Option<Vec<(String, Rgb)>> {
    highlighter.state.highlight_line(line, highlighter.set).ok().map(
        |ranges|
            ranges.into_iter().map(
                |(style, text)|
                    (
                        text.to_string(),
                        Rgb { r: style.foreground.r, g: style.foreground.g, b: style.foreground.b },
                    ),
            ).collect(),
    )
}

/// The texts of the fragments, joined.
fn joined_text(fragments: &Vec<(String, Rgb)>) -> (text: String)
    ensures
        text@ == fragment_text(fragments@),
{
    let mut text = String::new();
    let mut k: usize = 0;
    assert(fragments@.take(0) =~= Seq::<(String, Rgb)>::empty());
    while k < fragments.len()
        invariant
            k <= fragments.len(),
            text@ == fragment_text(fragments@.take(k as int)),
        decreases fragments.len() - k,
    {
        assert(fragments@.take(k + 1).drop_last() =~= fragments@.take(k as int));
        text.append(fragments[k].0.as_str());
        k += 1;
    }
    assert(fragments@.take(fragments@.len() as int) =~= fragments@);
    text
}

/// The foreground of `Style::default()`, which is black.
#[verifier::external_body]
fn default_foreground() -> (c: Rgb)
    ensures
        c == (Rgb { r: 0, g: 0, b: 0 }),
{
    let color = syntect::highlighting::Style::default().foreground;
    Rgb { r: color.r, g: color.g, b: color.b }
}

/// The finished pieces of `s` and the piece that its end is in: a piece ends
/// with its line feed.
pub open spec fn ending_scan(s: Seq<char>) -> (Seq<Seq<char>>, Seq<char>)
    decreases s.len(),
{
    if s.len() == 0 {
        (Seq::<Seq<char>>::empty(), Seq::<char>::empty())
    } else {
        let (done, cur) = ending_scan(s.drop_last());
        if s.last() == '\n' {
            (done.push(cur.push(s.last())), Seq::<char>::empty())
        } else {
            (done, cur.push(s.last()))
        }
    }
}

/// The lines of `s`, each with its line feed; what follows the last line
/// feed is a line only where it is not empty.
pub open spec fn lines_with_endings(s: Seq<char>) -> Seq<Seq<char>> {
    let (done, cur) = ending_scan(s);
    if cur.len() > 0 {
        done.push(cur)
    } else {
        done
    }
}

/// Splits `v` behind every line feed.
pub fn split_with_endings(v: &Vec<char>) -> (parts: Vec<Vec<char>>)
    ensures
        views(parts@) == lines_with_endings(v@),
{
    let mut parts: Vec<Vec<char>> = Vec::new();
    let mut cur: Vec<char> = Vec::new();
    let mut i: usize = 0;
    assert(views(parts@) =~= ending_scan(v@.take(0)).0);
    while i < v.len()
        invariant
            i <= v.len(),
            (views(parts@), cur@) == ending_scan(v@.take(i as int)),
        decreases v.len() - i,
    {
        let ghost before = views(parts@);
        assert(v@.take(i + 1).drop_last() == v@.take(i as int));
        cur.push(v[i]);
        if v[i] == '\n' {
            let ghost word = cur@;
            parts.push(cur);
            cur = Vec::new();
            assert(views(parts@) =~= before.push(word));
        }
        i += 1;
    }
    assert(v@.take(v@.len() as int) == v@);
    if cur.len() > 0 {
        let ghost before = views(parts@);
        let ghost word = cur@;
        parts.push(cur);
        assert(views(parts@) =~= before.push(word));
    }
    parts
}

/// The texts of the pieces, joined.
pub open spec fn joined(pieces: Seq<Seq<char>>) -> Seq<char>
    decreases pieces.len(),
{
    if pieces.len() == 0 {
        Seq::empty()
    } else {
        joined(pieces.drop_last()) + pieces.last()
    }
}

/// The lines of a text with their endings, joined, are the text.
pub proof fn lemma_lines_with_endings_join(s: Seq<char>)
    ensures
        joined(ending_scan(s).0) + ending_scan(s).1 == s,
        joined(lines_with_endings(s)) == s,
    decreases s.len(),
{
    if s.len() > 0 {
        lemma_lines_with_endings_join(s.drop_last());
        let (done, cur) = ending_scan(s.drop_last());
        assert(joined(done) + cur == s.drop_last());
        assert(s.drop_last().push(s.last()) =~= s);
        assert((joined(done) + cur).push(s.last()) =~= joined(done) + cur.push(s.last()));
        assert(joined(done) + cur.push(s.last()) =~= s);
        if s.last() == '\n' {
            assert(done.push(cur.push(s.last())).drop_last() =~= done);
        }
    }
    let (done, cur) = ending_scan(s);
    if cur.len() > 0 {
        assert(done.push(cur).drop_last() =~= done);
    } else {
        assert(joined(done) + cur =~= joined(done));
    }
}

/// The text of fragments put behind others is put behind theirs.
pub proof fn lemma_fragment_text_concat(a: Seq<(String, Rgb)>, b: Seq<(String, Rgb)>)
    ensures
        fragment_text(a + b) == fragment_text(a) + fragment_text(b),
    decreases b.len(),
{
    if b.len() == 0 {
        assert(a + b =~= a);
        assert(fragment_text(a) + fragment_text(b) =~= fragment_text(a));
    } else {
        lemma_fragment_text_concat(a, b.drop_last());
        assert((a + b).drop_last() =~= a + b.drop_last());
        assert(fragment_text(a) + (fragment_text(b.drop_last()) + b.last().0@) =~= (fragment_text(
            a,
        ) + fragment_text(b.drop_last())) + b.last().0@);
    }
}

/// The name of the theme for what a probe of the terminal found: the light
/// theme on a light background, the dark theme on a dark one or where the
/// probe failed.
pub open spec fn theme_for(probe: Option<TerminalTheme>) -> Seq<char> {
    match probe {
        Some(TerminalTheme::Light) => "base16-ocean.light"@,
        _ => "base16-ocean.dark"@,
    }
}

/// The name of the theme to use.
pub fn detect_theme(probe: Option<TerminalTheme>) -> (name: String)
    ensures
        name@ == theme_for(probe),
{
    match probe {
        Some(TerminalTheme::Light) => owned("base16-ocean.light"),
        _ => owned("base16-ocean.dark"),
    }
}

impl CodeHighlighter {
    /// The name of the theme in use.
    pub closed spec fn theme(&self) -> Seq<char> {
        self.theme_name@
    }

    /// A highlighter with the bundled syntaxes and themes, and the theme that
    /// suits the terminal.
    pub fn new(probe: Option<TerminalTheme>) -> (h: CodeHighlighter)
        ensures
            h.theme() == theme_for(probe),
    {
        CodeHighlighter {
            syntax_set: load_syntaxes(),
            theme_set: load_themes(),
            theme_name: detect_theme(probe),
        }
    }

    /// The name of the theme in use.
    pub fn theme_name(&self) -> (name: &str)
        ensures
            name@ == self.theme(),
    {
        self.theme_name.as_str()
    }

    /// Highlights `code` line by line. The syntax is found by the language as
    /// a token, then as a file extension, else plain text is used; the theme
    /// is the one in use, else the dark one. The fragments of a line are
    /// taken only where their texts, joined, are the line. Else, and where no
    /// syntax or theme can be had or the line cannot be highlighted, the line
    /// comes back whole in the default colour, and so do the lines after it.
    /// So the texts of the fragments, joined, are the code; where they are
    /// cut and what colour they have is the highlighter's.
    pub fn highlight_code(&self, code: &str, language: Option<&str>) -> (out: Vec<(String, Rgb)>)
        ensures
            fragment_text(out@) == code@,
    {
        let by_language = match language {
            Some(l) => match syntax_by_token(&self.syntax_set, l) {
                Some(s) => Some(s),
                None => syntax_by_extension(&self.syntax_set, l),
            },
            None => None,
        };
        let syntax = match by_language {
            Some(s) => Some(s),
            None => syntax_by_name(&self.syntax_set, "Plain Text"),
        };
        let theme = match theme_named(&self.theme_set, self.theme_name.as_str()) {
            Some(t) => Some(t),
            None => theme_named(&self.theme_set, "base16-ocean.dark"),
        };
        let chars = chars_of(code);
        let pieces = split_with_endings(&chars);
        let ghost pv = views(pieces@);
        proof {
            lemma_lines_with_endings_join(code@);
        }
        let mut out: Vec<(String, Rgb)> = Vec::new();
        let mut state = match (syntax, theme) {
            (Some(s), Some(t)) => Some(start_highlighting(s, t)),
            _ => None,
        };
        let mut k: usize = 0;
        assert(pv.take(0) =~= Seq::<Seq<char>>::empty());
        while k < pieces.len()
            invariant
                k <= pieces.len(),
                pv == views(pieces@),
                fragment_text(out@) == joined(pv.take(k as int)),
            decreases pieces.len() - k,
        {
            let line = string_of(&pieces[k]);
            let ghost before = out@;
            assert(pv.take(k + 1).drop_last() =~= pv.take(k as int));
            let highlighted = match &mut state {
                Some(st) => highlight_line(st, line.as_str()),
                None => None,
            };
            let mut taken = false;
            match highlighted {
                Some(mut ranges) => {
                    let whole = joined_text(&ranges);
                    if same_text(whole.as_str(), line.as_str()) {
                        let ghost added = ranges@;
                        out.append(&mut ranges);
                        proof {
                            lemma_fragment_text_concat(before, added);
                        }
                        taken = true;
                    }
                },
                None => {},
            }
            if !taken {
                state = None;
                out.push((line, default_foreground()));
                assert(out@.drop_last() =~= before);
            }
            k += 1;
        }
        assert(pv.take(pv.len() as int) =~= pv);
        out
    }
}

} // verus!
