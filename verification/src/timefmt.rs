//! The `HH:MM:SS` read-out of the remaining time: integer seconds,
//! zero-padded, truncated toward zero.

use vstd::prelude::*;
use crate::clock::TimerState;

verus! {

/// The decimal digit character for `d`.
pub open spec fn spec_digit_char(d: int) -> char {
    if d == 0 {
        '0'
    } else if d == 1 {
        '1'
    } else if d == 2 {
        '2'
    } else if d == 3 {
        '3'
    } else if d == 4 {
        '4'
    } else if d == 5 {
        '5'
    } else if d == 6 {
        '6'
    } else if d == 7 {
        '7'
    } else if d == 8 {
        '8'
    } else {
        '9'
    }
}

/// Two zero-padded decimal digits for `n < 100`.
pub open spec fn spec_two_digits(n: int) -> Seq<char> {
    seq![spec_digit_char(n / 10), spec_digit_char(n % 10)]
}

/// `HH:MM:SS` for a whole number of seconds below one hundred hours.
pub open spec fn spec_hms(total_seconds: int) -> Seq<char> {
    spec_two_digits(total_seconds / 3600) + seq![':'] + spec_two_digits(
        (total_seconds % 3600) / 60,
    ) + seq![':'] + spec_two_digits(total_seconds % 60)
}

/// The one-character string for a decimal digit.
fn digit_str(d: u64) -> (s: &'static str)
    requires
        d < 10,
    ensures
        s@ =~= seq![spec_digit_char(d as int)],
{
    proof {
        reveal_strlit("0");
        reveal_strlit("1");
        reveal_strlit("2");
        reveal_strlit("3");
        reveal_strlit("4");
        reveal_strlit("5");
        reveal_strlit("6");
        reveal_strlit("7");
        reveal_strlit("8");
        reveal_strlit("9");
    }
    if d == 0 {
        "0"
    } else if d == 1 {
        "1"
    } else if d == 2 {
        "2"
    } else if d == 3 {
        "3"
    } else if d == 4 {
        "4"
    } else if d == 5 {
        "5"
    } else if d == 6 {
        "6"
    } else if d == 7 {
        "7"
    } else if d == 8 {
        "8"
    } else {
        "9"
    }
}

/// Zero-padded `HH:MM:SS` for a second count below one hundred hours.
pub fn format_hms(total_seconds: u64) -> (out: String)
    requires
        total_seconds < 360_000,
    ensures
        out@ == spec_hms(total_seconds as int),
{
    let hours = total_seconds / 3600;
    let minutes = (total_seconds % 3600) / 60;
    let seconds = total_seconds % 60;
    let mut out = String::from_str(digit_str(hours / 10));
    out.append(digit_str(hours % 10));
    proof {
        reveal_strlit(":");
    }
    out.append(":");
    out.append(digit_str(minutes / 10));
    out.append(digit_str(minutes % 10));
    out.append(":");
    out.append(digit_str(seconds / 10));
    out.append(digit_str(seconds % 10));
    proof {
        assert(out@ =~= spec_hms(total_seconds as int));
    }
    out
}

impl TimerState {
    /// The remaining time as zero-padded `HH:MM:SS`, whole seconds,
    /// truncated toward zero.
    pub fn format_time(&self) -> (out: String)
        requires
            self.wf(),
        ensures
            out@ == spec_hms(self.remaining_ms as int / 1000),
    {
        format_hms(self.remaining_ms / 1000)
    }
}

} // verus!
