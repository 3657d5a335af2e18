//! What persistence needs besides reading and writing files: validated
//! settings, saved reading positions, and the names of the files.

use vstd::prelude::*;
use vstd::string::*;
use std::collections::hash_map::DefaultHasher;
use std::hash::Hasher;
use vstd::std_specs::hash::DefaultHasherAdditionalSpecFns;
use crate::constants::{
    MAX_BOOKMARKS_PANEL_WIDTH, MAX_TOC_PANEL_WIDTH, MIN_BOOKMARKS_PANEL_WIDTH, MIN_TOC_PANEL_WIDTH,
};
use crate::decimal::digit_char;
use crate::text::{owned, string_of};
use crate::types::Config;

verus! {

/// Reading position and outline state saved for one book.
#[derive(Debug, Clone)]
pub struct ReadingProgress {
    /// Index of the chapter.
    pub chapter_idx: usize,
    /// Line of the cursor.
    pub line: usize,
    /// Index of the first visible line.
    pub scroll_offset: usize,
    /// When the book was last read, in seconds since the epoch.
    pub last_read: i64,
    /// The identities of the expanded outline nodes.
    pub toc_expansion_state: Vec<String>,
}

/// Where the settings, positions and bookmarks are kept.
#[derive(Debug, Clone)]
pub struct PersistenceManager {
    config_dir: String,
}

impl PersistenceManager {
    /// A manager that keeps its files in `config_dir`.
    pub fn new(config_dir: String) -> (m: PersistenceManager)
        ensures
            m.dir() == config_dir@,
    {
        PersistenceManager { config_dir }
    }

    /// The directory of the files.
    pub closed spec fn dir(&self) -> Seq<char> {
        self.config_dir@
    }

    /// The directory of the files.
    pub fn config_dir(&self) -> (dir: &str)
        ensures
            dir@ == self.dir(),
    {
        self.config_dir.as_str()
    }

    /// The name of the settings file.
    pub fn config_file_name() -> (name: String)
        ensures
            name@ == "config.json"@,
    {
        owned("config.json")
    }

    /// The name of the file of reading positions.
    pub fn progress_file_name() -> (name: String)
        ensures
            name@ == "reading_progress.json"@,
    {
        owned("reading_progress.json")
    }

    /// The name of the file of recently opened books.
    pub fn recent_file_name() -> (name: String)
        ensures
            name@ == "recent_books.json"@,
    {
        owned("recent_books.json")
    }

    /// The name of the bookmarks file of the book at `book_path`.
    pub fn bookmarks_file_name(book_path: &str) -> (name: String)
        ensures
            name@ == "bookmarks_"@ + hex_of(path_hash(book_path@) as nat, 16) + ".json"@,
    {
        let mut name = owned("bookmarks_");
        name.append(compute_path_hash(book_path).as_str());
        name.append(".json");
        name
    }
}

/// `value` kept within `low..=high`.
pub open spec fn clamped(value: u16, low: u16, high: u16) -> u16 {
    if value < low {
        low
    } else if value > high {
        high
    } else {
        value
    }
}

/// Settings with the panel widths kept within their limits.
pub open spec fn validated(config: Config) -> Config {
    Config {
        max_width: config.max_width,
        toc_panel_width: clamped(config.toc_panel_width, MIN_TOC_PANEL_WIDTH, MAX_TOC_PANEL_WIDTH),
        bookmarks_panel_width: clamped(
            config.bookmarks_panel_width,
            MIN_BOOKMARKS_PANEL_WIDTH,
            MAX_BOOKMARKS_PANEL_WIDTH,
        ),
    }
}

fn clamp(value: u16, low: u16, high: u16) -> (r: u16)
    ensures
        r == clamped(value, low, high),
{
    if value < low {
        low
    } else if value > high {
        high
    } else {
        value
    }
}

/// Keeps the panel widths of loaded settings within their limits.
pub fn validate_config(config: Config) -> (r: Config)
    ensures
        r == validated(config),
{
    Config {
        max_width: config.max_width,
        toc_panel_width: clamp(config.toc_panel_width, MIN_TOC_PANEL_WIDTH, MAX_TOC_PANEL_WIDTH),
        bookmarks_panel_width: clamp(
            config.bookmarks_panel_width,
            MIN_BOOKMARKS_PANEL_WIDTH,
            MAX_BOOKMARKS_PANEL_WIDTH,
        ),
    }
}

/// The character of a hexadecimal digit, in lower case.
pub open spec fn hex_digit(d: int) -> char {
    if d == 10 {
        'a'
    } else if d == 11 {
        'b'
    } else if d == 12 {
        'c'
    } else if d == 13 {
        'd'
    } else if d == 14 {
        'e'
    } else if d == 15 {
        'f'
    } else {
        digit_char(d)
    }
}

/// The last `digits` hexadecimal digits of `value`, padded with zeros.
pub open spec fn hex_of(value: nat, digits: nat) -> Seq<char>
    decreases digits,
{
    if digits == 0 {
        Seq::empty()
    } else {
        hex_of(value / 16, (digits - 1) as nat).push(hex_digit((value % 16) as int))
    }
}

/// Hexadecimal notation has as many digits as asked for.
pub proof fn lemma_hex_len(value: nat, digits: nat)
    ensures
        hex_of(value, digits).len() == digits,
    decreases digits,
{
    if digits > 0 {
        lemma_hex_len(value / 16, (digits - 1) as nat);
    }
}

fn hex_char(d: u64) -> (c: char)
    requires
        d < 16,
    ensures
        c == hex_digit(d as int),
{
    if d == 10 {
        'a'
    } else if d == 11 {
        'b'
    } else if d == 12 {
        'c'
    } else if d == 13 {
        'd'
    } else if d == 14 {
        'e'
    } else if d == 15 {
        'f'
    } else {
        crate::decimal::digit_to_char(d as usize)
    }
}

fn push_hex(out: &mut Vec<char>, value: u64, digits: usize)
    ensures
        final(out)@ == old(out)@ + hex_of(value as nat, digits as nat),
    decreases digits,
{
    if digits > 0 {
        push_hex(out, value / 16, digits - 1);
        out.push(hex_char(value % 16));
        assert(out@ == old(out)@ + hex_of(value as nat, digits as nat));
    } else {
        assert(out@ == old(out)@ + hex_of(value as nat, digits as nat));
    }
}

/// The hash of a path: that of the standard hasher after it was fed the
/// bytes of the path and one byte `0xff` behind them.
pub open spec fn path_hash(path: Seq<char>) -> u64 {
    DefaultHasher::spec_finish(seq![vstd::utf8::encode_utf8(path), seq![0xffu8]])
}

/// A name for the file of a book's bookmarks: the hash of the book's path
/// as 16 hexadecimal digits.
pub fn compute_path_hash(path: &str) -> (name: String)
    ensures
        name@ == hex_of(path_hash(path@) as nat, 16),
        name@.len() == 16,
{
    let mut hasher = DefaultHasher::new();
    hasher.write(path.as_bytes());
    let mut end: Vec<u8> = Vec::new();
    end.push(0xffu8);
    hasher.write(end.as_slice());
    assert(hasher@ =~= seq![vstd::utf8::encode_utf8(path@), seq![0xffu8]]);
    let hash = hasher.finish();
    let mut digits: Vec<char> = Vec::new();
    push_hex(&mut digits, hash, 16);
    proof {
        lemma_hex_len(hash as nat, 16);
        assert(digits@ =~= hex_of(hash as nat, 16));
    }
    string_of(&digits)
}

} // verus!
