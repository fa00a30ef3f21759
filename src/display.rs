use vstd::prelude::*;
use crate::text::{decimal, digit, push_decimal, same_text};

verus! {

/// Two decimal digits, a leading zero included, for `n < 100`.
pub open spec fn two_digits(n: nat) -> Seq<char> {
    seq![digit(n / 10), digit(n % 10)]
}

/// A duration as `m:ss`, or `h:mm:ss` from one hour on.
pub open spec fn clock_text(total: nat) -> Seq<char> {
    let h = total / 3600;
    let m = (total % 3600) / 60;
    let sec = total % 60;
    if h > 0 {
        decimal(h) + seq![':'] + two_digits(m) + seq![':'] + two_digits(sec)
    } else {
        decimal(m) + seq![':'] + two_digits(sec)
    }
}

fn push_two_digits(s: &mut String, n: u64)
    requires
        n < 100,
    ensures
        final(s)@ == old(s)@ + two_digits(n as nat),
{
    s.push((48u8 + (n / 10) as u8) as char);
    s.push((48u8 + (n % 10) as u8) as char);
    assert(s@ =~= old(s)@ + two_digits(n as nat));
}

/// A position or length in whole seconds, for display.
pub fn format_time(seconds: u64) -> (r: String)
    ensures
        r@ == clock_text(seconds as nat),
{
    let h = seconds / 3600;
    let m = (seconds % 3600) / 60;
    let sec = seconds % 60;
    let mut out = String::new();
    if h > 0 {
        push_decimal(&mut out, h);
        out.push(':');
        push_two_digits(&mut out, m);
    } else {
        push_decimal(&mut out, m);
    }
    out.push(':');
    push_two_digits(&mut out, sec);
    assert(out@ =~= clock_text(seconds as nat));
    out
}


/// How a grid of book cards is laid out at a window width.
#[derive(Clone, Copy, Debug, PartialEq, Eq, Structural)]
pub struct GridLayout {
    pub min_columns: u32,
    pub max_columns: u32,
    /// Between columns and between rows alike.
    pub spacing: i32,
    pub card_width: i32,
}

pub open spec fn grid_layout_spec(width: i32) -> GridLayout {
    if width < 680 {
        GridLayout { min_columns: 1, max_columns: 2, spacing: 10, card_width: 126 }
    } else if width < 980 {
        GridLayout { min_columns: 2, max_columns: 4, spacing: 12, card_width: 142 }
    } else {
        GridLayout { min_columns: 2, max_columns: 6, spacing: 16, card_width: 160 }
    }
}

/// The card grid for a window `width` pixels wide.
pub fn grid_layout(width: i32) -> (r: GridLayout)
    ensures
        r == grid_layout_spec(width),
{
    if width < 680 {
        GridLayout { min_columns: 1, max_columns: 2, spacing: 10, card_width: 126 }
    } else if width < 980 {
        GridLayout { min_columns: 2, max_columns: 4, spacing: 12, card_width: 142 }
    } else {
        GridLayout { min_columns: 2, max_columns: 6, spacing: 16, card_width: 160 }
    }
}

/// Narrow windows get the compact layout.
pub fn is_compact(width: i32) -> (r: bool)
    ensures
        r == (width < 820),
{
    width < 820
}

/// Side of the cover on the detail page.
pub fn detail_cover_size(compact: bool) -> (r: i32)
    ensures
        r == (if compact { 160i32 } else { 220i32 }),
{
    if compact {
        160
    } else {
        220
    }
}

/// Whether the detail page's play button offers to pause: the item shown is
/// the one playing, and it is playing.
pub fn detail_shows_pause(shown: Option<&str>, current: Option<&str>, playing: bool) -> (r: bool)
    ensures
        r == (shown is Some && current is Some && shown->0@ == current->0@ && playing),
{
    match (shown, current) {
        (Some(a), Some(b)) => same_text(a, b) && playing,
        _ => false,
    }
}


/// Where the listener stands relative to a chapter.
#[derive(Clone, Copy, Debug, PartialEq, Eq, Structural)]
pub enum ChapterStatus {
    /// Listened through (or the whole book is finished).
    Done,
    /// The position lies within it.
    Current,
    /// Not reached yet.
    Ahead,
}

/// Status of the chapter `[start, end)` for a listener at `position`.
pub fn chapter_status(position: u64, start: u64, end: u64, finished: bool) -> (r: ChapterStatus)
    ensures
        r == (if finished || position >= end {
            ChapterStatus::Done
        } else if position < start {
            ChapterStatus::Ahead
        } else {
            ChapterStatus::Current
        }),
{
    if finished || position >= end {
        ChapterStatus::Done
    } else if position < start {
        ChapterStatus::Ahead
    } else {
        ChapterStatus::Current
    }
}

/// A book's length as `H h M min`, or `M min` under an hour.
pub open spec fn length_text(total: nat) -> Seq<char> {
    let h = total / 3600;
    let m = (total % 3600) / 60;
    if h > 0 {
        decimal(h) + " h "@ + decimal(m) + " min"@
    } else {
        decimal(m) + " min"@
    }
}

pub fn format_length(seconds: u64) -> (r: String)
    ensures
        r@ == length_text(seconds as nat),
{
    let h = seconds / 3600;
    let m = (seconds % 3600) / 60;
    let mut out = String::new();
    if h > 0 {
        push_decimal(&mut out, h);
        out.append(" h ");
    }
    push_decimal(&mut out, m);
    out.append(" min");
    assert(out@ =~= length_text(seconds as nat));
    out
}

/// A chapter's length as `M min S sec`.
pub open spec fn chapter_length_text(total: nat) -> Seq<char> {
    decimal(total / 60) + " min "@ + decimal(total % 60) + " sec"@
}

pub fn format_chapter_length(seconds: u64) -> (r: String)
    ensures
        r@ == chapter_length_text(seconds as nat),
{
    let mut out = String::new();
    push_decimal(&mut out, seconds / 60);
    out.append(" min ");
    push_decimal(&mut out, seconds % 60);
    out.append(" sec");
    assert(out@ =~= chapter_length_text(seconds as nat));
    out
}

/// Label of the detail page's play button when it offers to play.
pub fn play_label(has_progress: bool) -> (r: &'static str)
    ensures
        r@ == (if has_progress { "Continue"@ } else { "Start Listening"@ }),
{
    if has_progress {
        "Continue"
    } else {
        "Start Listening"
    }
}

} // verus!
