//! Bookmarks: adding one in position order, and label suggestions.

use vstd::prelude::*;
use vstd::string::*;
use crate::decimal::{decimal, push_decimal};
use crate::text::{
    byte_len, byte_length, chars_of, fitting_prefix, is_blank, owned, string_of, take_fitting,
    trim, trimmed,
};
use crate::types::{bookmark_views, Bookmark, BookmarkView};

verus! {

/// The most bookmarks that a book can have.
pub const MAX_BOOKMARKS: usize = 1000;

/// The most bytes that a label can have.
pub const MAX_LABEL_LENGTH: usize = 100;

/// Whether `a` may stand before `b`: its chapter comes first, or it is in
/// the same chapter at the same line or before it.
pub open spec fn position_le(a: BookmarkView, b: BookmarkView) -> bool {
    a.chapter_idx < b.chapter_idx || (a.chapter_idx == b.chapter_idx && a.line <= b.line)
}

/// `sorted` with `x` put behind the last bookmark that may stand before it.
pub open spec fn inserted(sorted: Seq<BookmarkView>, x: BookmarkView) -> Seq<BookmarkView>
    decreases sorted.len(),
{
    if sorted.len() == 0 {
        seq![x]
    } else if position_le(sorted.last(), x) {
        sorted.push(x)
    } else {
        inserted(sorted.drop_last(), x).push(sorted.last())
    }
}

/// The bookmarks in position order; bookmarks at the same position keep the
/// order they had.
pub open spec fn sorted_by_position(s: Seq<BookmarkView>) -> Seq<BookmarkView>
    decreases s.len(),
{
    if s.len() == 0 {
        s
    } else {
        inserted(sorted_by_position(s.drop_last()), s.last())
    }
}

/// Whether every bookmark may stand before the one behind it.
pub open spec fn in_position_order(s: Seq<BookmarkView>) -> bool {
    forall|i: int, j: int| 0 <= i < j < s.len() ==> position_le(s[i], s[j])
}

/// Where `x` goes: behind position `p - 1`, which may stand before it, and
/// before everything from `p` on, which may not.
proof fn lemma_inserted_at(s: Seq<BookmarkView>, x: BookmarkView, p: int)
    requires
        0 <= p <= s.len(),
        p > 0 ==> position_le(s[p - 1], x),
        forall|j: int| p <= j < s.len() ==> !position_le(s[j], x),
    ensures
        inserted(s, x) == s.insert(p, x),
    decreases s.len(),
{
    if s.len() == 0 {
        assert(seq![x] =~= s.insert(p, x));
    } else if p == s.len() {
        assert(s.push(x) =~= s.insert(p, x));
    } else {
        lemma_inserted_at(s.drop_last(), x, p);
        assert(s.drop_last().insert(p, x).push(s.last()) =~= s.insert(p, x));
    }
}

/// Inserting keeps the length plus one and, into ordered bookmarks, the
/// order.
proof fn lemma_inserted_ordered(s: Seq<BookmarkView>, x: BookmarkView)
    requires
        in_position_order(s),
    ensures
        in_position_order(inserted(s, x)),
        inserted(s, x).len() == s.len() + 1,
        forall|i: int|
            0 <= i < inserted(s, x).len() ==> #[trigger] inserted(s, x)[i] == x || exists|j: int|
                0 <= j < s.len() && s[j] == inserted(s, x)[i],
    decreases s.len(),
{
    if s.len() == 0 {
    } else if position_le(s.last(), x) {
        let r = s.push(x);
        assert forall|i: int, j: int| 0 <= i < j < r.len() implies position_le(r[i], r[j]) by {
            if j == s.len() && i < s.len() - 1 {
                assert(position_le(s[i], s[s.len() - 1]));
            }
        }
        assert forall|i: int| 0 <= i < r.len() implies #[trigger] r[i] == x || exists|j: int|
            0 <= j < s.len() && s[j] == r[i] by {
            if i < s.len() {
                assert(s[i] == r[i]);
            }
        }
    } else {
        let init = s.drop_last();
        assert(in_position_order(init)) by {
            assert forall|i: int, j: int| 0 <= i < j < init.len() implies position_le(
                init[i],
                init[j],
            ) by {
                assert(position_le(s[i], s[j]));
            }
        }
        lemma_inserted_ordered(init, x);
        let mid = inserted(init, x);
        let r = mid.push(s.last());
        assert forall|i: int, j: int| 0 <= i < j < r.len() implies position_le(r[i], r[j]) by {
            if j == mid.len() {
                if mid[i] == x {
                } else {
                    let k = choose|k: int| 0 <= k < init.len() && init[k] == mid[i];
                    assert(position_le(s[k], s[s.len() - 1]));
                }
            } else {
                assert(position_le(mid[i], mid[j]));
            }
        }
        assert forall|i: int| 0 <= i < r.len() implies #[trigger] r[i] == x || exists|j: int|
            0 <= j < s.len() && s[j] == r[i] by {
            if i < mid.len() {
                if mid[i] != x {
                    let k = choose|k: int| 0 <= k < init.len() && init[k] == mid[i];
                    assert(s[k] == r[i]);
                }
            } else {
                assert(s[s.len() - 1] == r[i]);
            }
        }
    }
}

/// Sorting yields as many bookmarks, in position order.
pub proof fn lemma_sorted_in_order(s: Seq<BookmarkView>)
    ensures
        in_position_order(sorted_by_position(s)),
        sorted_by_position(s).len() == s.len(),
    decreases s.len(),
{
    if s.len() > 0 {
        lemma_sorted_in_order(s.drop_last());
        lemma_inserted_ordered(sorted_by_position(s.drop_last()), s.last());
    }
}

/// A label without line breaks, trimmed, and cut to `max_len` bytes: where
/// it is longer, its longest prefix of at most `max_len - 3` bytes, followed
/// by an ellipsis.
pub open spec fn truncated_label(text: Seq<char>, max_len: usize) -> Seq<char> {
    let single_line = Seq::new(
        text.len(),
        |i: int|
            if text[i] == '\n' || text[i] == '\r' {
                ' '
            } else {
                text[i]
            },
    );
    let t = trimmed(single_line);
    if byte_len(t) <= max_len {
        t
    } else {
        fitting_prefix(
            t,
            if max_len >= 3 {
                max_len - 3
            } else {
                0
            },
        ) + "..."@
    }
}

/// The label suggested for a bookmark: the line's text cut to 50 bytes, or
/// the chapter's title where the line is blank; none where both are blank.
pub open spec fn suggested_label(line_text: Seq<char>, chapter_title: Seq<char>) -> Option<
    Seq<char>,
> {
    if !is_blank(line_text) {
        Some(truncated_label(trimmed(line_text), 50))
    } else if !is_blank(chapter_title) {
        Some(truncated_label(trimmed(chapter_title), 50))
    } else {
        None
    }
}

/// What `add_bookmark` says where the label is blank.
pub open spec fn empty_label_message() -> Seq<char> {
    "Bookmark label cannot be empty"@
}

/// What `add_bookmark` says where the label is too long.
pub open spec fn long_label_message() -> Seq<char> {
    "Bookmark label too long (max "@ + decimal(MAX_LABEL_LENGTH as nat) + " characters)"@
}

/// What `add_bookmark` says where the book has all the bookmarks it can
/// have.
pub open spec fn full_message() -> Seq<char> {
    "Maximum bookmarks ("@ + decimal(MAX_BOOKMARKS as nat) + ") reached"@
}

/// Utilities for managing bookmarks.
pub struct BookmarkManager;

impl BookmarkManager {
    fn before_or_at(a: &Bookmark, b: &Bookmark) -> (r: bool)
        ensures
            r == position_le(a@, b@),
    {
        a.chapter_idx < b.chapter_idx || (a.chapter_idx == b.chapter_idx && a.line <= b.line)
    }

    fn duplicate(b: &Bookmark) -> (r: Bookmark)
        ensures
            r@ == b@,
    {
        Bookmark { chapter_idx: b.chapter_idx, line: b.line, label: b.label.clone() }
    }

    fn insert_in_order(sorted: &mut Vec<Bookmark>, x: Bookmark)
        ensures
            bookmark_views(final(sorted)@) == inserted(bookmark_views(old(sorted)@), x@),
    {
        let ghost sv = bookmark_views(sorted@);
        let mut p: usize = sorted.len();
        while p > 0 && !BookmarkManager::before_or_at(&sorted[p - 1], &x)
            invariant
                p <= sorted.len(),
                *sorted == *old(sorted),
                sv == bookmark_views(sorted@),
                forall|j: int| p <= j < sv.len() ==> !position_le(sv[j], x@),
            decreases p,
        {
            p -= 1;
        }
        proof {
            lemma_inserted_at(sv, x@, p as int);
        }
        let ghost xv = x@;
        sorted.insert(p, x);
        assert(bookmark_views(sorted@) =~= sv.insert(p as int, xv));
    }

    /// The bookmarks in position order.
    pub fn sort(bookmarks: &Vec<Bookmark>) -> (sorted: Vec<Bookmark>)
        ensures
            bookmark_views(sorted@) == sorted_by_position(bookmark_views(bookmarks@)),
    {
        let ghost bv = bookmark_views(bookmarks@);
        let mut sorted: Vec<Bookmark> = Vec::new();
        let mut i: usize = 0;
        assert(bookmark_views(sorted@) =~= sorted_by_position(bv.take(0)));
        while i < bookmarks.len()
            invariant
                i <= bookmarks.len(),
                bv == bookmark_views(bookmarks@),
                bookmark_views(sorted@) == sorted_by_position(bv.take(i as int)),
            decreases bookmarks.len() - i,
        {
            assert(bv.take(i + 1).drop_last() == bv.take(i as int));
            BookmarkManager::insert_in_order(&mut sorted, BookmarkManager::duplicate(&bookmarks[i]));
            i += 1;
        }
        assert(bv.take(bv.len() as int) == bv);
        sorted
    }

    /// Adds a bookmark with the trimmed label and puts the bookmarks in
    /// position order. A blank label, a label of more than 100 bytes and a
    /// full collection are refused, in this order, and leave the bookmarks as
    /// they are.
    pub fn add_bookmark(bookmarks: &mut Vec<Bookmark>, chapter_idx: usize, line: usize, label: String) -> (r:
        Result<(), String>)
        ensures
            is_blank(label@) ==> r is Err && r->Err_0@ == empty_label_message() && *final(bookmarks)
                == *old(bookmarks),
            !is_blank(label@) && byte_len(trimmed(label@)) > MAX_LABEL_LENGTH ==> r is Err
                && r->Err_0@ == long_label_message() && *final(bookmarks) == *old(bookmarks),
            !is_blank(label@) && byte_len(trimmed(label@)) <= MAX_LABEL_LENGTH && old(
                bookmarks,
            ).len() >= MAX_BOOKMARKS ==> r is Err && r->Err_0@ == full_message() && *final(bookmarks)
                == *old(bookmarks),
            !is_blank(label@) && byte_len(trimmed(label@)) <= MAX_LABEL_LENGTH && old(
                bookmarks,
            ).len() < MAX_BOOKMARKS ==> r is Ok && bookmark_views(final(bookmarks)@)
                == sorted_by_position(
                bookmark_views(old(bookmarks)@).push(
                    BookmarkView { chapter_idx, line, label: trimmed(label@) },
                ),
            ) && in_position_order(bookmark_views(final(bookmarks)@)) && final(bookmarks).len()
                == old(bookmarks).len() + 1,
    {
        let chars = chars_of(label.as_str());
        let kept = trim(&chars);
        if kept.len() == 0 {
            return Err(owned("Bookmark label cannot be empty"));
        }
        let trimmed_label = string_of(&kept);
        if byte_length(trimmed_label.as_str()) > MAX_LABEL_LENGTH {
            let mut message = chars_of("Bookmark label too long (max ");
            push_decimal(&mut message, MAX_LABEL_LENGTH);
            crate::text::extend_chars(&mut message, &chars_of(" characters)"));
            return Err(string_of(&message));
        }
        if bookmarks.len() >= MAX_BOOKMARKS {
            let mut message = chars_of("Maximum bookmarks (");
            push_decimal(&mut message, MAX_BOOKMARKS);
            crate::text::extend_chars(&mut message, &chars_of(") reached"));
            return Err(string_of(&message));
        }
        let ghost before = bookmark_views(bookmarks@);
        let bookmark = Bookmark { chapter_idx, line, label: trimmed_label };
        let ghost added = bookmark@;
        bookmarks.push(bookmark);
        assert(bookmark_views(bookmarks@) =~= before.push(added));
        let sorted = BookmarkManager::sort(bookmarks);
        proof {
            lemma_sorted_in_order(before.push(added));
        }
        *bookmarks = sorted;
        Ok(())
    }

    /// A label without line breaks, trimmed, and cut to `max_len` bytes with
    /// an ellipsis where it is longer.
    pub fn truncate_label(text: &str, max_len: usize) -> (label: String)
        ensures
            label@ == truncated_label(text@, max_len),
    {
        let chars = chars_of(text);
        let mut single_line: Vec<char> = Vec::new();
        let mut i: usize = 0;
        while i < chars.len()
            invariant
                i <= chars.len(),
                single_line.len() == i,
                forall|k: int|
                    0 <= k < i ==> single_line[k] == (if chars[k] == '\n' || chars[k] == '\r' {
                        ' '
                    } else {
                        chars[k]
                    }),
            decreases chars.len() - i,
        {
            let c = chars[i];
            single_line.push(
                if c == '\n' || c == '\r' {
                    ' '
                } else {
                    c
                },
            );
            i += 1;
        }
        assert(single_line@ =~= Seq::new(
            text@.len(),
            |i: int|
                if text@[i] == '\n' || text@[i] == '\r' {
                    ' '
                } else {
                    text@[i]
                },
        ));
        let kept = trim(&single_line);
        let whole = string_of(&kept);
        if byte_length(whole.as_str()) <= max_len {
            whole
        } else {
            let cut = take_fitting(&kept, max_len.saturating_sub(3));
            let mut label = string_of(&cut);
            label.append("...");
            label
        }
    }

    /// The label suggested for a bookmark at a line.
    pub fn generate_label_suggestion(line_text: &str, chapter_title: &str) -> (r: Option<String>)
        ensures
            crate::types::opt_view(r) == suggested_label(line_text@, chapter_title@),
    {
        let line = trim(&chars_of(line_text));
        if line.len() == 0 {
            let title = trim(&chars_of(chapter_title));
            if title.len() == 0 {
                None
            } else {
                Some(BookmarkManager::truncate_label(string_of(&title).as_str(), 50))
            }
        } else {
            Some(BookmarkManager::truncate_label(string_of(&line).as_str(), 50))
        }
    }
}

} // verus!
