//! The bookmarks panel.

use vstd::prelude::*;
use vstd::string::*;
use crate::decimal::{decimal, push_decimal};
use crate::text::{chars_of, extend_chars, string_of};
use crate::types::Bookmark;

verus! {

/// What the bookmarks panel shows: the bookmarks, which of them is
/// selected, and whether the panel has the focus.
pub struct BookmarksPanel<'a> {
    bookmarks: &'a [Bookmark],
    selected_idx: Option<usize>,
    focused: bool,
}

/// `n + 1`, kept at the largest number where it would go beyond.
pub open spec fn one_based(n: usize) -> nat {
    if n < usize::MAX {
        (n + 1) as nat
    } else {
        usize::MAX as nat
    }
}

/// The text of a bookmark in the panel: chapter and line, counted from one,
/// and the label.
pub open spec fn item_text(chapter_idx: usize, line: usize, label: Seq<char>) -> Seq<char> {
    "Ch "@ + decimal(one_based(chapter_idx)) + " | Line "@ + decimal(one_based(line)) + " | "@
        + label
}

impl<'a> BookmarksPanel<'a> {
    /// A panel for the given bookmarks.
    pub fn new(bookmarks: &'a [Bookmark], selected_idx: Option<usize>, focused: bool) -> (p: Self)
        ensures
            p.bookmarks()@ == bookmarks@,
            p.selected_idx() == selected_idx,
            p.focused() == focused,
    {
        BookmarksPanel { bookmarks, selected_idx, focused }
    }

    /// The bookmarks shown.
    pub closed spec fn bookmarks(&self) -> &'a [Bookmark] {
        self.bookmarks
    }

    /// The index of the selected bookmark.
    pub closed spec fn selected_idx(&self) -> Option<usize> {
        self.selected_idx
    }

    /// Whether the panel has the focus.
    pub closed spec fn focused(&self) -> bool {
        self.focused
    }

    /// Whether the panel has the focus.
    pub fn is_focused(&self) -> (f: bool)
        ensures
            f == self.focused(),
    {
        self.focused
    }

    /// The index to mark as selected in the list.
    pub fn selection(&self) -> (s: Option<usize>)
        ensures
            s == self.selected_idx(),
    {
        self.selected_idx
    }

    /// Whether the panel shows its empty state instead of a list.
    pub fn is_empty(&self) -> (e: bool)
        ensures
            e == (self.bookmarks()@.len() == 0),
    {
        self.bookmarks.len() == 0
    }

    /// The texts of the list, one per bookmark.
    pub fn item_texts(&self) -> (texts: Vec<String>)
        ensures
            texts.len() == self.bookmarks()@.len(),
            forall|i: int|
                0 <= i < texts.len() ==> (#[trigger] texts[i])@ == item_text(
                    self.bookmarks()@[i].chapter_idx,
                    self.bookmarks()@[i].line,
                    self.bookmarks()@[i].label@,
                ),
    {
        let mut texts: Vec<String> = Vec::new();
        let mut i: usize = 0;
        while i < self.bookmarks.len()
            invariant
                i <= self.bookmarks@.len(),
                texts.len() == i,
                forall|j: int|
                    0 <= j < i ==> (#[trigger] texts[j])@ == item_text(
                        self.bookmarks@[j].chapter_idx,
                        self.bookmarks@[j].line,
                        self.bookmarks@[j].label@,
                    ),
            decreases self.bookmarks@.len() - i,
        {
            let b = &self.bookmarks[i];
            let mut text = chars_of("Ch ");
            push_decimal(&mut text, b.chapter_idx.saturating_add(1));
            extend_chars(&mut text, &chars_of(" | Line "));
            push_decimal(&mut text, b.line.saturating_add(1));
            extend_chars(&mut text, &chars_of(" | "));
            extend_chars(&mut text, &chars_of(b.label.as_str()));
            texts.push(string_of(&text));
            i += 1;
        }
        texts
    }
}

} // verus!
