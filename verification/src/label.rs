//! The text labels of the face: the zero-padded `HH:MM` time label and the
//! `DD-MM-YYYY` date label, built and specified character by character.

use vstd::prelude::*;
use vstd::string::StringExecFns;

verus! {

/// The decimal digit character for `d`, for `d` in `0 ..= 9`; anything
/// larger falls to `'9'`, but callers keep `d` in range.
pub open spec fn digit_char(d: int) -> char {
    if d == 0 {
        '0'
    } else if d == 1 {
        '1'
    } else if d == 2 {
        '2'
    } else if d == 3 {
        '3'
    } else if d == 4 {
        '4'
    } else if d == 5 {
        '5'
    } else if d == 6 {
        '6'
    } else if d == 7 {
        '7'
    } else if d == 8 {
        '8'
    } else {
        '9'
    }
}

/// The two zero-padded decimal digits of `n`, most significant first.
pub open spec fn spec_two_digits(n: int) -> Seq<char> {
    seq![digit_char(n / 10), digit_char(n % 10)]
}

/// The four zero-padded decimal digits of `n`, most significant first.
pub open spec fn spec_four_digits(n: int) -> Seq<char> {
    seq![
        digit_char(n / 1000),
        digit_char((n / 100) % 10),
        digit_char((n / 10) % 10),
        digit_char(n % 10),
    ]
}

/// The time label: zero-padded 24-hour hour, a colon, zero-padded minute.
pub open spec fn spec_time_label(hour: int, minute: int) -> Seq<char> {
    spec_two_digits(hour) + seq![':'] + spec_two_digits(minute)
}

/// The date label: zero-padded day, month and four-digit year, dash-joined.
pub open spec fn spec_date_label(day: int, month: int, year: int) -> Seq<char> {
    spec_two_digits(day) + seq!['-'] + spec_two_digits(month) + seq!['-'] + spec_four_digits(year)
}

/// The one-character string of the decimal digit `d`.
fn digit_str(d: u64) -> (r: &'static str)
    requires
        d < 10,
    ensures
        r@ == seq![digit_char(d as int)],
{
    let r: &'static str = if d == 0 {
        "0"
    } else if d == 1 {
        "1"
    } else if d == 2 {
        "2"
    } else if d == 3 {
        "3"
    } else if d == 4 {
        "4"
    } else if d == 5 {
        "5"
    } else if d == 6 {
        "6"
    } else if d == 7 {
        "7"
    } else if d == 8 {
        "8"
    } else {
        "9"
    };
    proof {
        reveal_strlit("0");
        reveal_strlit("1");
        reveal_strlit("2");
        reveal_strlit("3");
        reveal_strlit("4");
        reveal_strlit("5");
        reveal_strlit("6");
        reveal_strlit("7");
        reveal_strlit("8");
        reveal_strlit("9");
        assert(r@ =~= seq![digit_char(d as int)]);
    }
    r
}

/// Appends the two zero-padded decimal digits of `n` to `out`.
fn push_two_digits(out: &mut String, n: u64)
    requires
        n < 100,
    ensures
        final(out)@ == old(out)@ + spec_two_digits(n as int),
{
    out.append(digit_str(n / 10));
    out.append(digit_str(n % 10));
    assert(out@ =~= old(out)@ + spec_two_digits(n as int));
}

/// Appends the four zero-padded decimal digits of `n` to `out`.
fn push_four_digits(out: &mut String, n: u64)
    requires
        n < 10000,
    ensures
        final(out)@ == old(out)@ + spec_four_digits(n as int),
{
    out.append(digit_str(n / 1000));
    out.append(digit_str((n / 100) % 10));
    out.append(digit_str((n / 10) % 10));
    out.append(digit_str(n % 10));
    assert(out@ =~= old(out)@ + spec_four_digits(n as int));
}

/// Builds the `HH:MM` time label.
pub fn time_label(hour: u8, minute: u8) -> (s: String)
    requires
        hour < 24,
        minute < 60,
    ensures
        s@ == spec_time_label(hour as int, minute as int),
{
    let mut s = String::new();
    push_two_digits(&mut s, hour as u64);
    s.append(":");
    push_two_digits(&mut s, minute as u64);
    proof {
        reveal_strlit(":");
        assert(s@ =~= spec_time_label(hour as int, minute as int));
    }
    s
}

/// Builds the `DD-MM-YYYY` date label.
pub fn date_label(day: u8, month: u8, year: u16) -> (s: String)
    requires
        day < 100,
        month < 100,
        year < 10000,
    ensures
        s@ == spec_date_label(day as int, month as int, year as int),
{
    let mut s = String::new();
    push_two_digits(&mut s, day as u64);
    s.append("-");
    push_two_digits(&mut s, month as u64);
    s.append("-");
    push_four_digits(&mut s, year as u64);
    proof {
        reveal_strlit("-");
        assert(s@ =~= spec_date_label(day as int, month as int, year as int));
    }
    s
}

} // verus!
