//! Rendering of the status line: the decimal countdown field, the per-mode
//! caption, and the per-mode progress-bar colour.

use vstd::prelude::*;
use crate::timer::Mode;

verus! {

/// The decimal digit character for `d` (which must be below ten).
pub open spec fn digit_char(d: int) -> char {
    if d == 0 {
        '0'
    } else if d == 1 {
        '1'
    } else if d == 2 {
        '2'
    } else if d == 3 {
        '3'
    } else if d == 4 {
        '4'
    } else if d == 5 {
        '5'
    } else if d == 6 {
        '6'
    } else if d == 7 {
        '7'
    } else if d == 8 {
        '8'
    } else {
        '9'
    }
}

/// The usual decimal rendering of `n`: most significant digit first, no
/// leading zeros (except for `n == 0` itself).
pub open spec fn spec_decimal(n: int) -> Seq<char>
    decreases n,
{
    if n < 10 {
        seq![digit_char(n)]
    } else {
        spec_decimal(n / 10).push(digit_char(n % 10))
    }
}

/// The countdown field as the display shows it: the decimal value, padded on
/// the left with one space to a minimum width of two.
pub open spec fn spec_padded_remaining(n: int) -> Seq<char> {
    if n < 10 {
        seq![' '] + spec_decimal(n)
    } else {
        spec_decimal(n)
    }
}

fn digit_str(d: u64) -> (s: &'static str)
    requires
        d < 10,
    ensures
        s@ == seq![digit_char(d as int)],
{
    let s = match d {
        0 => "0",
        1 => "1",
        2 => "2",
        3 => "3",
        4 => "4",
        5 => "5",
        6 => "6",
        7 => "7",
        8 => "8",
        _ => "9",
    };
    proof {
        reveal_strlit("0");
        reveal_strlit("1");
        reveal_strlit("2");
        reveal_strlit("3");
        reveal_strlit("4");
        reveal_strlit("5");
        reveal_strlit("6");
        reveal_strlit("7");
        reveal_strlit("8");
        reveal_strlit("9");
        assert(s@ =~= seq![digit_char(d as int)]);
    }
    s
}

/// Renders `n` in decimal, most significant digit first.
pub fn u64_to_decimal(n: u64) -> (s: String)
    ensures
        s@ == spec_decimal(n as int),
    decreases n,
{
    if n < 10 {
        String::from_str(digit_str(n))
    } else {
        let mut s = u64_to_decimal(n / 10);
        s.append(digit_str(n % 10));
        proof {
            assert(s@ =~= spec_decimal(n as int));
        }
        s
    }
}

/// Renders the countdown field: the decimal value of `n`, space-padded on the
/// left to a minimum width of two characters.
pub fn padded_remaining(n: u64) -> (s: String)
    ensures
        s@ == spec_padded_remaining(n as int),
{
    if n < 10 {
        let mut s = String::from_str(" ");
        s.append(digit_str(n));
        proof {
            reveal_strlit(" ");
            assert(s@ =~= spec_padded_remaining(n as int));
        }
        s
    } else {
        u64_to_decimal(n)
    }
}

/// The status-line text for a tick: during work, the wall-clock time and the
/// countdown; during a break, its caption and the countdown.
pub open spec fn spec_status_text(m: Mode, clock: Seq<char>, remaining: int) -> Seq<char> {
    match m {
        Mode::Work => clock + "   "@ + spec_padded_remaining(remaining),
        Mode::ShortBreak => "SHORT  "@ + spec_padded_remaining(remaining),
        Mode::LongBreak => "LONG   "@ + spec_padded_remaining(remaining),
    }
}

/// Builds the status-line text for one tick: `clock` (the wall-clock time to
/// show during work) followed by the countdown in work mode, or the break
/// caption followed by the countdown in either break mode.
pub fn status_text(m: Mode, clock: &str, remaining: u64) -> (s: String)
    ensures
        s@ == spec_status_text(m, clock@, remaining as int),
{
    let field = padded_remaining(remaining);
    match m {
        Mode::Work => {
            let mut s = String::from_str(clock);
            s.append("   ");
            s.append(field.as_str());
            proof {
                assert(s@ =~= spec_status_text(m, clock@, remaining as int));
            }
            s
        },
        Mode::ShortBreak => {
            let mut s = String::from_str("SHORT  ");
            s.append(field.as_str());
            proof {
                assert(s@ =~= spec_status_text(m, clock@, remaining as int));
            }
            s
        },
        Mode::LongBreak => {
            let mut s = String::from_str("LONG   ");
            s.append(field.as_str());
            proof {
                assert(s@ =~= spec_status_text(m, clock@, remaining as int));
            }
            s
        },
    }
}

/// The progress-bar colour shown for each mode.
pub open spec fn spec_progress_color(m: Mode) -> Seq<char> {
    match m {
        Mode::Work => "#00aaff"@,
        Mode::ShortBreak => "#55aa7f"@,
        Mode::LongBreak => "#55007f"@,
    }
}

/// Returns the progress-bar colour for a mode: blue for work, green for a
/// short break, purple for a long break.
pub fn progress_color(m: Mode) -> (s: String)
    ensures
        s@ == spec_progress_color(m),
{
    match m {
        Mode::Work => String::from_str("#00aaff"),
        Mode::ShortBreak => String::from_str("#55aa7f"),
        Mode::LongBreak => String::from_str("#55007f"),
    }
}

} // verus!
