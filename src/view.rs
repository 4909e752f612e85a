use vstd::prelude::*;
use vstd::string::StringExecFns;

use crate::lyrics::LyricSyncType;

verus! {

/// A key press, as far as the lyrics view cares.
#[derive(Debug, Clone, Copy, PartialEq, Eq, Structural)]
pub enum UiKey {
    Quit,
    ToggleAutoscroll,
    ScrollDown,
    ScrollUp,
    ResetScroll,
    Other,
}

/// The scrolling state of the lyrics view: whether it follows the active
/// line, and the offset that the user scrolled to by hand.
#[derive(Debug, Clone, Copy, PartialEq, Eq, Structural)]
pub struct ScrollState {
    pub autoscroll_enabled: bool,
    pub scroll_amount: u16,
}

impl ScrollState {
    /// Following the active line, not scrolled.
    pub fn new() -> (r: ScrollState)
        ensures
            r.autoscroll_enabled,
            r.scroll_amount == 0,
    {
        ScrollState { autoscroll_enabled: true, scroll_amount: 0 }
    }

    /// Applies a key press; returns whether the view is to close. The
    /// offset moves by one line per press and stays within `0..=u16::MAX`.
    pub fn on_key(&mut self, key: UiKey) -> (quit: bool)
        ensures
            quit == (key == UiKey::Quit),
            final(self).autoscroll_enabled == if key == UiKey::ToggleAutoscroll {
                !old(self).autoscroll_enabled
            } else {
                old(self).autoscroll_enabled
            },
            final(self).scroll_amount == match key {
                UiKey::ScrollDown => if old(self).scroll_amount == u16::MAX {
                    u16::MAX
                } else {
                    (old(self).scroll_amount + 1) as u16
                },
                UiKey::ScrollUp => if old(self).scroll_amount == 0 {
                    0
                } else {
                    (old(self).scroll_amount - 1) as u16
                },
                UiKey::ResetScroll => 0,
                _ => old(self).scroll_amount,
            },
    {
        match key {
            UiKey::Quit => {
                return true;
            },
            UiKey::ToggleAutoscroll => {
                self.autoscroll_enabled = !self.autoscroll_enabled;
            },
            UiKey::ScrollDown => {
                self.scroll_amount = self.scroll_amount.saturating_add(1);
            },
            UiKey::ScrollUp => {
                self.scroll_amount = self.scroll_amount.saturating_sub(1);
            },
            UiKey::ResetScroll => {
                self.scroll_amount = 0;
            },
            UiKey::Other => {},
        }
        false
    }
}

/// `x`, brought within `lo..=hi`.
pub open spec fn clamp_int(x: int, lo: int, hi: int) -> int {
    if x < lo {
        lo
    } else if x > hi {
        hi
    } else {
        x
    }
}

/// The first row of the lyrics view that is shown. Following line-synced
/// lyrics, it keeps the active line `offset` rows below the top, without
/// scrolling before the first row or past the point where the last row
/// reaches the bottom of a view `height` rows high; otherwise it is the
/// offset scrolled to by hand.
pub open spec fn scroll_row(
    s: ScrollState,
    sync: LyricSyncType,
    current_line: int,
    offset: int,
    rows: int,
    height: int,
) -> int {
    if s.autoscroll_enabled && sync == LyricSyncType::LineSynced {
        let top = clamp_int(current_line - offset, 0, if rows - height > 0 { rows - height } else { 0 });
        if top > u16::MAX {
            u16::MAX as int
        } else {
            top
        }
    } else {
        s.scroll_amount as int
    }
}

/// The first row of the lyrics view to show; see `scroll_row`.
pub fn scroll_position(
    state: &ScrollState,
    sync: LyricSyncType,
    current_line: isize,
    offset: u32,
    rows: usize,
    height: u16,
) -> (r: u16)
    ensures
        r as int == scroll_row(*state, sync, current_line as int, offset as int, rows as int, height as int),
{
    if state.autoscroll_enabled && sync == LyricSyncType::LineSynced {
        let hi: i128 = if rows as i128 - height as i128 > 0 {
            rows as i128 - height as i128
        } else {
            0
        };
        let want: i128 = current_line as i128 - offset as i128;
        let top: i128 = if want < 0 {
            0
        } else if want > hi {
            hi
        } else {
            want
        };
        if top > u16::MAX as i128 {
            u16::MAX
        } else {
            top as u16
        }
    } else {
        state.scroll_amount
    }
}

/// Whether line `idx` is drawn as the active one: lyrics that carry timing
/// highlight the line that the tracker marks.
pub fn is_active_line(idx: usize, current_line: isize, sync: LyricSyncType) -> (r: bool)
    ensures
        r == (idx as int == current_line as int && sync != LyricSyncType::Unsynced),
{
    current_line >= 0 && idx == current_line as usize && sync != LyricSyncType::Unsynced
}

/// The decimal digit for `d`.
pub open spec fn digit_char(d: nat) -> char {
    if d == 0 { '0' } else if d == 1 { '1' } else if d == 2 { '2' } else if d == 3 { '3' } else if d == 4 {
        '4'
    } else if d == 5 { '5' } else if d == 6 { '6' } else if d == 7 { '7' } else if d == 8 { '8' } else { '9' }
}

/// The decimal numeral of `n`, without leading zeros.
pub open spec fn decimal(n: nat) -> Seq<char>
    decreases n,
{
    if n < 10 {
        seq![digit_char(n)]
    } else {
        decimal(n / 10).push(digit_char(n % 10))
    }
}

/// The decimal numeral of `n`, padded with a zero to two digits at least.
pub open spec fn two_digits(n: nat) -> Seq<char> {
    if n < 10 {
        seq!['0'] + decimal(n)
    } else {
        decimal(n)
    }
}

/// A duration in milliseconds as `MM:SS`: whole minutes, then the seconds
/// left over, each at least two digits.
pub open spec fn duration_text(ms: nat) -> Seq<char> {
    two_digits(ms / 60000) + seq![':'] + two_digits((ms / 1000) % 60)
}

/// Appends the decimal digit for `d`.
fn push_digit(s: &mut String, d: u32)
    requires
        d < 10,
    ensures
        final(s)@ == old(s)@.push(digit_char(d as nat)),
{
    proof {
        reveal_strlit("0");
        reveal_strlit("1");
        reveal_strlit("2");
        reveal_strlit("3");
        reveal_strlit("4");
        reveal_strlit("5");
        reveal_strlit("6");
        reveal_strlit("7");
        reveal_strlit("8");
        reveal_strlit("9");
    }
    let ghost before = s@;
    match d {
        0 => s.append("0"),
        1 => s.append("1"),
        2 => s.append("2"),
        3 => s.append("3"),
        4 => s.append("4"),
        5 => s.append("5"),
        6 => s.append("6"),
        7 => s.append("7"),
        8 => s.append("8"),
        _ => s.append("9"),
    }
    assert(s@ =~= before.push(digit_char(d as nat)));
}

fn push_decimal(s: &mut String, n: u32)
    ensures
        final(s)@ == old(s)@ + decimal(n as nat),
    decreases n,
{
    if n >= 10 {
        push_decimal(s, n / 10);
    }
    push_digit(s, n % 10);
    assert(n < 10 ==> decimal(n as nat) == seq![digit_char(n as nat)]);
}

fn push_two_digits(s: &mut String, n: u32)
    ensures
        final(s)@ == old(s)@ + two_digits(n as nat),
{
    if n < 10 {
        push_digit(s, 0);
    }
    push_decimal(s, n);
}

/// A duration in milliseconds as the progress label shows it, `MM:SS`.
pub fn fmt_duration(duration_ms: u32) -> (r: String)
    ensures
        r@ == duration_text(duration_ms as nat),
{
    let mut seconds = duration_ms / 1000;
    let minutes = seconds / 60;
    seconds = seconds % 60;
    let mut r = String::new();
    push_two_digits(&mut r, minutes);
    proof {
        reveal_strlit(":");
    }
    r.append(":");
    push_two_digits(&mut r, seconds);
    assert(duration_ms as nat / 60000 == (duration_ms as nat / 1000) / 60);
    assert(r@ =~= duration_text(duration_ms as nat));
    r
}

} // verus!
