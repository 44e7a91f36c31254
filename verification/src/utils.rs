//! Small display helpers over whole-second durations.

use vstd::prelude::*;
use vstd::string::StringExecFns;

verus! {

/// The character for one decimal digit.
pub open spec fn digit_char(d: nat) -> char {
    if d == 0 {
        '0'
    } else if d == 1 {
        '1'
    } else if d == 2 {
        '2'
    } else if d == 3 {
        '3'
    } else if d == 4 {
        '4'
    } else if d == 5 {
        '5'
    } else if d == 6 {
        '6'
    } else if d == 7 {
        '7'
    } else if d == 8 {
        '8'
    } else {
        '9'
    }
}

/// The decimal digits of `n`, most significant first, no leading zeros
/// (except for `n == 0` itself).
pub open spec fn dec_digits(n: nat) -> Seq<char>
    decreases n,
{
    if n < 10 {
        seq![digit_char(n)]
    } else {
        dec_digits(n / 10).push(digit_char(n % 10))
    }
}

/// `n` as at least two decimal digits, zero-padded.
pub open spec fn two_digits(n: nat) -> Seq<char> {
    if n < 10 {
        seq!['0'] + dec_digits(n)
    } else {
        dec_digits(n)
    }
}

fn digit_str(d: u64) -> (s: &'static str)
    requires
        d < 10,
    ensures
        s@ == seq![digit_char(d as nat)],
{
    if d == 0 {
        proof {
            reveal_strlit("0");
            assert("0"@ =~= seq![digit_char(d as nat)]);
        }
        "0"
    } else if d == 1 {
        proof {
            reveal_strlit("1");
            assert("1"@ =~= seq![digit_char(d as nat)]);
        }
        "1"
    } else if d == 2 {
        proof {
            reveal_strlit("2");
            assert("2"@ =~= seq![digit_char(d as nat)]);
        }
        "2"
    } else if d == 3 {
        proof {
            reveal_strlit("3");
            assert("3"@ =~= seq![digit_char(d as nat)]);
        }
        "3"
    } else if d == 4 {
        proof {
            reveal_strlit("4");
            assert("4"@ =~= seq![digit_char(d as nat)]);
        }
        "4"
    } else if d == 5 {
        proof {
            reveal_strlit("5");
            assert("5"@ =~= seq![digit_char(d as nat)]);
        }
        "5"
    } else if d == 6 {
        proof {
            reveal_strlit("6");
            assert("6"@ =~= seq![digit_char(d as nat)]);
        }
        "6"
    } else if d == 7 {
        proof {
            reveal_strlit("7");
            assert("7"@ =~= seq![digit_char(d as nat)]);
        }
        "7"
    } else if d == 8 {
        proof {
            reveal_strlit("8");
            assert("8"@ =~= seq![digit_char(d as nat)]);
        }
        "8"
    } else {
        proof {
            reveal_strlit("9");
            assert("9"@ =~= seq![digit_char(d as nat)]);
        }
        "9"
    }
}

/// `n` in decimal.
pub fn u64_to_string(n: u64) -> (s: String)
    ensures
        s@ == dec_digits(n as nat),
    decreases n,
{
    if n < 10 {
        String::from_str(digit_str(n))
    } else {
        let front = u64_to_string(n / 10);
        let s = front.concat(digit_str(n % 10));
        proof {
            assert(s@ =~= dec_digits((n / 10) as nat).push(digit_char((n % 10) as nat)));
        }
        s
    }
}

/// A duration rendered as `minutes:seconds`, without zero padding.
pub open spec fn minutes_seconds(duration_secs: u64) -> Seq<char> {
    dec_digits((duration_secs / 60) as nat) + seq![':'] + dec_digits((duration_secs % 60) as nat)
}

/// Render a whole-second duration as `minutes:seconds`.
pub fn format_time_from_duration(duration_secs: u64) -> (s: String)
    ensures
        s@ == minutes_seconds(duration_secs),
{
    let minutes = u64_to_string(duration_secs / 60);
    let seconds = u64_to_string(duration_secs % 60);
    let s = minutes.concat(":").concat(seconds.as_str());
    proof {
        reveal_strlit(":");
        assert(":"@ =~= seq![':']);
        assert(s@ =~= minutes_seconds(duration_secs));
    }
    s
}

/// Split a whole-second duration into hours and minutes. For a duration
/// under an hour the minute count is the full duration in minutes; above an
/// hour it is the leftover of the last minute, as the display renders it.
pub fn secs_to_hours_and_minutes(duration_secs: u64) -> (r: (u64, u64))
    ensures
        r.0 == duration_secs / 3600,
        r.0 > 0 ==> r.1 == duration_secs % 60,
        r.0 == 0 ==> r.1 == duration_secs / 60,
{
    let hours = duration_secs / 3600;
    let minutes = if hours > 0 {
        duration_secs % 60
    } else {
        duration_secs / 60
    };
    (hours, minutes)
}

/// A duration rendered as zero-padded `hours:minutes`.
pub open spec fn hh_mm(duration_secs: u64) -> Seq<char> {
    let hours = (duration_secs / 3600) as nat;
    let minutes = if duration_secs / 3600 > 0 {
        (duration_secs % 60) as nat
    } else {
        (duration_secs / 60) as nat
    };
    two_digits(hours) + seq![':'] + two_digits(minutes)
}

/// Render a whole-second duration as zero-padded `hours:minutes`.
pub fn fmt_secs_to_hhmm(duration_secs: u64) -> (s: String)
    ensures
        s@ == hh_mm(duration_secs),
{
    let (hours, minutes) = secs_to_hours_and_minutes(duration_secs);
    let h = pad2(hours);
    let m = pad2(minutes);
    let s = h.concat(":").concat(m.as_str());
    proof {
        reveal_strlit(":");
        assert(":"@ =~= seq![':']);
        assert(s@ =~= hh_mm(duration_secs));
    }
    s
}

/// `n` in decimal, zero-padded to at least two digits.
fn pad2(n: u64) -> (s: String)
    ensures
        s@ == two_digits(n as nat),
{
    let digits = u64_to_string(n);
    if n < 10 {
        let s = String::from_str("0").concat(digits.as_str());
        proof {
            reveal_strlit("0");
            assert("0"@ =~= seq!['0']);
            assert(s@ =~= two_digits(n as nat));
        }
        s
    } else {
        digits
    }
}

} // verus!
