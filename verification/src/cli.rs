//! Command-line arguments and their validation.

use vstd::prelude::*;
use vstd::string::*;
use crate::constants::{MAX_MAX_WIDTH, MIN_MAX_WIDTH};
use crate::decimal::{decimal, push_decimal};
use crate::text::{chars_of, extend_chars, string_of};

verus! {

/// The arguments of the command line.
#[derive(Debug, Clone)]
pub struct Cli {
    /// Path of the book to open.
    pub file: Option<String>,
    /// Maximum text width in columns, 40 to 200.
    pub max_width: Option<usize>,
    /// Path of a file to log to.
    pub log_file: Option<String>,
}

/// What validation says of a width below the minimum.
pub open spec fn too_small_message() -> Seq<char> {
    "Max width too small (minimum "@ + decimal(MIN_MAX_WIDTH as nat) + ")"@
}

/// What validation says of a width above the maximum.
pub open spec fn too_large_message() -> Seq<char> {
    "Max width too large (maximum "@ + decimal(MAX_MAX_WIDTH as nat) + ")"@
}

impl Cli {
    /// Checks the arguments: a maximum width, where given, must lie between
    /// 40 and 200 columns.
    pub fn validate(&self) -> (r: Result<(), String>)
        ensures
            match self.max_width {
                Some(w) => if w < MIN_MAX_WIDTH {
                    r is Err && r->Err_0@ == too_small_message()
                } else if w > MAX_MAX_WIDTH {
                    r is Err && r->Err_0@ == too_large_message()
                } else {
                    r is Ok
                },
                None => r is Ok,
            },
    {
        match self.max_width {
            Some(width) => {
                if width < MIN_MAX_WIDTH {
                    let mut message = chars_of("Max width too small (minimum ");
                    push_decimal(&mut message, MIN_MAX_WIDTH);
                    extend_chars(&mut message, &chars_of(")"));
                    return Err(string_of(&message));
                }
                if width > MAX_MAX_WIDTH {
                    let mut message = chars_of("Max width too large (maximum ");
                    push_decimal(&mut message, MAX_MAX_WIDTH);
                    extend_chars(&mut message, &chars_of(")"));
                    return Err(string_of(&message));
                }
                Ok(())
            },
            None => Ok(()),
        }
    }
}

} // verus!
