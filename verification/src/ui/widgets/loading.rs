//! The loading indicator: spinner frames and the progress bar.

use vstd::prelude::*;
use vstd::string::*;
use crate::decimal::{decimal, push_decimal, push_decimal_wide};
use crate::text::{chars_of, extend_chars, owned, string_of};

verus! {

/// Spinner animation styles.
#[derive(Debug, Clone, Copy, PartialEq, Eq, Structural)]
pub enum SpinnerStyle {
    /// Braille dots.
    Dots,
}

/// The columns of the progress bar.
pub const BAR_WIDTH: usize = 40;

/// The milliseconds that one frame of the spinner shows.
pub const FRAME_MILLIS: u128 = 80;

/// Frame `i` of the dots spinner, with the ten frames repeating.
pub open spec fn dots_frame(i: int) -> Seq<char> {
    let k = i % 10;
    if k == 0 {
        "\u{280b}"@
    } else if k == 1 {
        "\u{2819}"@
    } else if k == 2 {
        "\u{2839}"@
    } else if k == 3 {
        "\u{2838}"@
    } else if k == 4 {
        "\u{283c}"@
    } else if k == 5 {
        "\u{2834}"@
    } else if k == 6 {
        "\u{2826}"@
    } else if k == 7 {
        "\u{2827}"@
    } else if k == 8 {
        "\u{2807}"@
    } else {
        "\u{280f}"@
    }
}

impl SpinnerStyle {
    /// The frames of the animation, in order.
    pub fn frames(&self) -> (f: Vec<&'static str>)
        ensures
            f.len() == 10,
            forall|i: int| 0 <= i < 10 ==> (#[trigger] f[i])@ == dots_frame(i),
    {
        let mut f: Vec<&'static str> = Vec::new();
        f.push("\u{280b}");
        f.push("\u{2819}");
        f.push("\u{2839}");
        f.push("\u{2838}");
        f.push("\u{283c}");
        f.push("\u{2834}");
        f.push("\u{2826}");
        f.push("\u{2827}");
        f.push("\u{2807}");
        f.push("\u{280f}");
        f
    }

    /// The frame to show after `elapsed_ms` milliseconds: a new one every 80
    /// milliseconds.
    pub fn current_frame(&self, elapsed_ms: u128) -> (frame: &'static str)
        ensures
            frame@ == dots_frame((elapsed_ms / FRAME_MILLIS) as int),
    {
        let frames = self.frames();
        let idx: usize = ((elapsed_ms / FRAME_MILLIS) % 10) as usize;
        frames[idx]
    }
}

/// The percentage that `current` is of `total`; zero of nothing.
pub open spec fn percentage(current: usize, total: usize) -> nat {
    if total > 0 {
        ((current * 100) / (total as int)) as nat
    } else {
        0
    }
}

/// The filled columns of the bar: the share of `current` in `total`, or in
/// one where nothing is to do, and no more than the bar has.
pub open spec fn filled_columns(current: usize, total: usize) -> nat {
    let share = (BAR_WIDTH * current) / (if total > 0 {
        total as int
    } else {
        1
    });
    if share > BAR_WIDTH {
        BAR_WIDTH as nat
    } else {
        share as nat
    }
}

/// The bar: filled columns, then empty ones, in brackets.
pub open spec fn bar_text(current: usize, total: usize) -> Seq<char> {
    let filled = filled_columns(current, total);
    "["@ + Seq::new(filled, |i: int| '\u{2588}') + Seq::new(
        (BAR_WIDTH - filled) as nat,
        |i: int| '\u{2591}',
    ) + "]"@
}

/// The counter under the bar.
pub open spec fn counter_text(current: usize, total: usize) -> Seq<char> {
    decimal(current as nat) + "/"@ + decimal(total as nat) + " ("@ + decimal(
        percentage(current, total),
    ) + "%)"@
}

/// A loading indicator with a message and, where known, the progress.
pub struct LoadingWidget {
    style: SpinnerStyle,
    message: String,
    progress: Option<(usize, usize)>,
}

impl LoadingWidget {
    /// An indicator with a message and no progress.
    pub fn new(message: &str) -> (w: LoadingWidget)
        ensures
            w.message_text() == message@,
            w.shown_progress() is None,
    {
        LoadingWidget { style: SpinnerStyle::Dots, message: owned(message), progress: None }
    }

    /// The indicator with the progress `current` of `total`.
    pub fn progress(self, current: usize, total: usize) -> (w: LoadingWidget)
        ensures
            w.message_text() == self.message_text(),
            w.shown_progress() == Some((current, total)),
    {
        LoadingWidget { style: self.style, message: self.message, progress: Some((current, total)) }
    }

    /// The message.
    pub closed spec fn message_text(&self) -> Seq<char> {
        self.message@
    }

    /// The progress, where one was given.
    pub closed spec fn shown_progress(&self) -> Option<(usize, usize)> {
        self.progress
    }

    /// The message.
    pub fn message(&self) -> (m: &str)
        ensures
            m@ == self.message_text(),
    {
        self.message.as_str()
    }

    /// The spinner frame after `elapsed_ms` milliseconds.
    pub fn spinner(&self, elapsed_ms: u128) -> (frame: &'static str)
        ensures
            frame@ == dots_frame((elapsed_ms / FRAME_MILLIS) as int),
    {
        self.style.current_frame(elapsed_ms)
    }

    /// The progress bar and the counter under it, where progress is shown.
    pub fn progress_texts(&self) -> (r: Option<(String, String)>)
        ensures
            match self.shown_progress() {
                Some((current, total)) => r is Some && r->Some_0.0@ == bar_text(current, total)
                    && r->Some_0.1@ == counter_text(current, total),
                None => r is None,
            },
    {
        match self.progress {
            Some((current, total)) => {
                let divisor: u128 = if total > 0 {
                    total as u128
                } else {
                    1
                };
                let share: u128 = (BAR_WIDTH as u128 * current as u128) / divisor;
                let filled: usize = if share > BAR_WIDTH as u128 {
                    BAR_WIDTH
                } else {
                    share as usize
                };
                let percent: u128 = if total > 0 {
                    (current as u128 * 100) / (total as u128)
                } else {
                    0
                };
                let mut bar = chars_of("[");
                let ghost open = bar@;
                let mut i: usize = 0;
                while i < filled
                    invariant
                        i <= filled,
                        bar@ == open + Seq::new(i as nat, |j: int| '\u{2588}'),
                    decreases filled - i,
                {
                    bar.push('\u{2588}');
                    assert(bar@ =~= open + Seq::new((i + 1) as nat, |j: int| '\u{2588}'));
                    i += 1;
                }
                let ghost full = bar@;
                let mut k: usize = 0;
                while k < BAR_WIDTH - filled
                    invariant
                        filled <= BAR_WIDTH,
                        k <= BAR_WIDTH - filled,
                        bar@ == full + Seq::new(k as nat, |j: int| '\u{2591}'),
                    decreases BAR_WIDTH - filled - k,
                {
                    bar.push('\u{2591}');
                    assert(bar@ =~= full + Seq::new((k + 1) as nat, |j: int| '\u{2591}'));
                    k += 1;
                }
                extend_chars(&mut bar, &chars_of("]"));
                let mut counter: Vec<char> = Vec::new();
                push_decimal(&mut counter, current);
                extend_chars(&mut counter, &chars_of("/"));
                push_decimal(&mut counter, total);
                extend_chars(&mut counter, &chars_of(" ("));
                push_decimal_wide(&mut counter, percent);
                extend_chars(&mut counter, &chars_of("%)"));
                assert(counter@ =~= counter_text(current, total));
                Some((string_of(&bar), string_of(&counter)))
            },
            None => None,
        }
    }
}

} // verus!
