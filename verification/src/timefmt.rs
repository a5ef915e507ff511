//! Rendering of track positions and durations as "MM:SS": minutes and
//! seconds, each zero-padded to at least two digits.

use vstd::prelude::*;
use vstd::string::StringExecFns;

verus! {

/// The decimal digit character for `d`.
pub open spec fn digit_char(d: int) -> char {
    if d == 0 {
        '0'
    } else if d == 1 {
        '1'
    } else if d == 2 {
        '2'
    } else if d == 3 {
        '3'
    } else if d == 4 {
        '4'
    } else if d == 5 {
        '5'
    } else if d == 6 {
        '6'
    } else if d == 7 {
        '7'
    } else if d == 8 {
        '8'
    } else {
        '9'
    }
}

/// The decimal representation of `n`, most significant digit first, with
/// no leading zero except for zero itself.
pub open spec fn spec_decimal(n: nat) -> Seq<char>
    decreases n,
{
    if n < 10 {
        seq![digit_char(n as int)]
    } else {
        spec_decimal(n / 10).push(digit_char((n % 10) as int))
    }
}

/// The decimal representation of `n`, zero-padded to at least two digits.
pub open spec fn spec_two_pad(n: nat) -> Seq<char> {
    if n < 10 {
        seq!['0', digit_char(n as int)]
    } else {
        spec_decimal(n)
    }
}

/// `total_seconds` rendered as minutes and seconds, both zero-padded to
/// two digits, separated by a colon.
pub open spec fn spec_format_duration(total_seconds: nat) -> Seq<char> {
    spec_two_pad(total_seconds / 60) + seq![':'] + spec_two_pad(total_seconds % 60)
}

/// The one-character string for the digit `d`.
fn digit_str(d: u64) -> (r: &'static str)
    requires
        d < 10,
    ensures
        r@ =~= seq![digit_char(d as int)],
{
    proof {
        reveal_strlit("0");
        reveal_strlit("1");
        reveal_strlit("2");
        reveal_strlit("3");
        reveal_strlit("4");
        reveal_strlit("5");
        reveal_strlit("6");
        reveal_strlit("7");
        reveal_strlit("8");
        reveal_strlit("9");
    }
    match d {
        0 => "0",
        1 => "1",
        2 => "2",
        3 => "3",
        4 => "4",
        5 => "5",
        6 => "6",
        7 => "7",
        8 => "8",
        _ => "9",
    }
}

/// Appends the decimal representation of `n` to `s`.
fn push_decimal(s: &mut String, n: u64)
    ensures
        final(s)@ == old(s)@ + spec_decimal(n as nat),
    decreases n,
{
    if n < 10 {
        s.append(digit_str(n));
    } else {
        push_decimal(s, n / 10);
        s.append(digit_str(n % 10));
        proof {
            assert(s@ =~= old(s)@ + spec_decimal(n as nat));
        }
    }
}

/// Appends the decimal representation of `n`, zero-padded to at least two
/// digits, to `s`.
fn push_two_pad(s: &mut String, n: u64)
    ensures
        final(s)@ == old(s)@ + spec_two_pad(n as nat),
{
    if n < 10 {
        proof {
            reveal_strlit("0");
        }
        s.append("0");
        s.append(digit_str(n));
        proof {
            assert(s@ =~= old(s)@ + spec_two_pad(n as nat));
        }
    } else {
        push_decimal(s, n);
    }
}

/// Renders a duration of `total_seconds` as "MM:SS": zero-padded minutes,
/// a colon, and zero-padded seconds.
pub fn format_duration(total_seconds: u64) -> (r: String)
    ensures
        r@ == spec_format_duration(total_seconds as nat),
{
    let minutes = total_seconds / 60;
    let seconds = total_seconds % 60;
    let mut s = String::new();
    push_two_pad(&mut s, minutes);
    proof {
        reveal_strlit(":");
    }
    s.append(":");
    push_two_pad(&mut s, seconds);
    proof {
        assert(s@ =~= spec_format_duration(total_seconds as nat));
    }
    s
}

} // verus!
