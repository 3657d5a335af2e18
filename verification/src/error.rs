//! Application-level errors.

use vstd::prelude::*;
use vstd::string::*;
use crate::constants::{MIN_TERMINAL_HEIGHT, MIN_TERMINAL_WIDTH};
use crate::decimal::{decimal, push_decimal};
use crate::text::{chars_of, extend_chars, string_of};

verus! {

/// What can go wrong in the application.
#[derive(Debug, Clone, PartialEq)]
pub enum AppError {
    /// The book's file does not exist.
    FileNotFound(String),
    /// The file is no valid book.
    InvalidEpub(String),
    /// A chapter could not be read from the book.
    ChapterExtractionError(String),
    /// Reading or writing failed; the text says how.
    IoError(String),
    /// The terminal is smaller than the minimum size.
    TerminalTooSmall,
    /// Anything else.
    Other(String),
}

/// The text of an error.
pub open spec fn error_message(e: AppError) -> Seq<char> {
    match e {
        AppError::FileNotFound(path) => "EPUB file not found: "@ + path@,
        AppError::InvalidEpub(why) => "Invalid or corrupted EPUB: "@ + why@,
        AppError::ChapterExtractionError(why) => "Failed to extract chapter: "@ + why@,
        AppError::IoError(why) => "IO error: "@ + why@,
        AppError::TerminalTooSmall => "Terminal too small (minimum "@ + decimal(
            MIN_TERMINAL_WIDTH as nat,
        ) + "x"@ + decimal(MIN_TERMINAL_HEIGHT as nat) + ")"@,
        AppError::Other(text) => text@,
    }
}

impl AppError {
    fn prefixed(prefix: &str, detail: &String) -> (text: String)
        ensures
            text@ == prefix@ + detail@,
    {
        let mut text = crate::text::owned(prefix);
        text.append(detail.as_str());
        text
    }

    /// The text of the error, as it is shown to the reader.
    pub fn message(&self) -> (text: String)
        ensures
            text@ == error_message(*self),
    {
        match self {
            AppError::FileNotFound(path) => AppError::prefixed("EPUB file not found: ", path),
            AppError::InvalidEpub(why) => AppError::prefixed("Invalid or corrupted EPUB: ", why),
            AppError::ChapterExtractionError(why) => AppError::prefixed(
                "Failed to extract chapter: ",
                why,
            ),
            AppError::IoError(why) => AppError::prefixed("IO error: ", why),
            AppError::TerminalTooSmall => {
                let mut text = chars_of("Terminal too small (minimum ");
                push_decimal(&mut text, MIN_TERMINAL_WIDTH as usize);
                extend_chars(&mut text, &chars_of("x"));
                push_decimal(&mut text, MIN_TERMINAL_HEIGHT as usize);
                extend_chars(&mut text, &chars_of(")"));
                string_of(&text)
            },
            AppError::Other(text) => text.clone(),
        }
    }
}

} // verus!
