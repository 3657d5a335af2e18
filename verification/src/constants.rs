//! Application-wide constants.

use vstd::prelude::*;

verus! {

/// Minimum terminal width required to run the application.
pub const MIN_TERMINAL_WIDTH: u16 = 80;

/// Minimum terminal height required to run the application.
pub const MIN_TERMINAL_HEIGHT: u16 = 24;

/// Terminal width assumed where size detection fails.
pub const DEFAULT_TERMINAL_WIDTH: u16 = 80;

/// Terminal height assumed where size detection fails.
pub const DEFAULT_TERMINAL_HEIGHT: u16 = 24;

/// Maximum length of the search input buffer, in bytes.
pub const MAX_SEARCH_INPUT_LENGTH: usize = 500;

/// Maximum length of the bookmark label input, in bytes.
pub const MAX_BOOKMARK_INPUT_LENGTH: usize = 100;

/// Smallest accepted maximum text width.
pub const MIN_MAX_WIDTH: usize = 40;

/// Largest accepted maximum text width.
pub const MAX_MAX_WIDTH: usize = 200;

/// Columns reserved for margins and interface elements.
pub const UI_MARGIN_WIDTH: usize = 4;

/// First width preset of the cycle.
pub const WIDTH_PRESET_1: usize = 80;

/// Second width preset of the cycle.
pub const WIDTH_PRESET_2: usize = 100;

/// Third width preset of the cycle.
pub const WIDTH_PRESET_3: usize = 120;

/// Minimum width of the outline panel.
pub const MIN_TOC_PANEL_WIDTH: u16 = 15;

/// Maximum width of the outline panel.
pub const MAX_TOC_PANEL_WIDTH: u16 = 60;

/// Minimum width of the bookmarks panel.
pub const MIN_BOOKMARKS_PANEL_WIDTH: u16 = 20;

/// Maximum width of the bookmarks panel.
pub const MAX_BOOKMARKS_PANEL_WIDTH: u16 = 80;

/// Frame duration of the render loop, in milliseconds.
pub const FRAME_DURATION_MS: u64 = 16;

/// Debounce timeout for terminal resize events, in milliseconds.
pub const RESIZE_DEBOUNCE_MS: u64 = 200;

} // verus!
