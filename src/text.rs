//! The status line shown for a measurement, written with four decimals.
use vstd::prelude::*;

use crate::frame::Measurement;

verus! {

/// The character of a decimal digit.
pub open spec fn digit_char(d: nat) -> char {
    if d == 0 { '0' }
    else if d == 1 { '1' }
    else if d == 2 { '2' }
    else if d == 3 { '3' }
    else if d == 4 { '4' }
    else if d == 5 { '5' }
    else if d == 6 { '6' }
    else if d == 7 { '7' }
    else if d == 8 { '8' }
    else { '9' }
}

/// The decimal digits of `n`, most significant first, without leading zeros
/// (`0` is written as one digit).
pub open spec fn decimal(n: nat) -> Seq<char>
    decreases n,
{
    if n < 10 {
        seq![digit_char(n)]
    } else {
        decimal(n / 10).push(digit_char(n % 10))
    }
}

/// A value in hundredths written with four decimals: an optional minus sign,
/// the whole part, a point, the two digits of the hundredths and two zeros.
pub open spec fn four_decimals(h: int) -> Seq<char> {
    let a: nat = if h < 0 { (-h) as nat } else { h as nat };
    let sign = if h < 0 { seq!['-'] } else { Seq::<char>::empty() };
    let frac: nat = a % 100;
    sign + decimal(a / 100) + seq!['.', digit_char(frac / 10), digit_char(frac % 10), '0', '0']
}

/// The status line for a measurement: `H2: ` then the percentage with four
/// decimals, then `%`.
pub open spec fn status_line(m: Measurement) -> Seq<char> {
    seq!['H', '2', ':', ' '] + four_decimals(m.hundredths as int) + seq!['%']
}

fn digit_str(d: u32) -> (r: &'static str)
    requires
        d < 10,
    ensures
        r@ == seq![digit_char(d as nat)],
{
    proof {
        reveal_strlit("0");
        reveal_strlit("1");
        reveal_strlit("2");
        reveal_strlit("3");
        reveal_strlit("4");
        reveal_strlit("5");
        reveal_strlit("6");
        reveal_strlit("7");
        reveal_strlit("8");
        reveal_strlit("9");
    }
    match d {
        0 => "0",
        1 => "1",
        2 => "2",
        3 => "3",
        4 => "4",
        5 => "5",
        6 => "6",
        7 => "7",
        8 => "8",
        _ => "9",
    }
}

fn append_decimal(s: &mut String, n: u32)
    ensures
        final(s)@ == old(s)@ + decimal(n as nat),
    decreases n,
{
    if n >= 10 {
        append_decimal(s, n / 10);
    }
    s.append(digit_str(n % 10));
    assert(final(s)@ =~= old(s)@ + decimal(n as nat));
}

/// Writes `h` hundredths with four decimals, as `four_decimals` states.
pub fn write_four_decimals(s: &mut String, h: i32)
    ensures
        final(s)@ == old(s)@ + four_decimals(h as int),
{
    let a: u32 = if h < 0 { (0i64 - h as i64) as u32 } else { h as u32 };
    let ghost start = s@;
    if h < 0 {
        s.append("-");
    }
    append_decimal(s, a / 100);
    s.append(".");
    let frac: u32 = a % 100;
    s.append(digit_str(frac / 10));
    s.append(digit_str(frac % 10));
    s.append("00");
    proof {
        reveal_strlit("-");
        reveal_strlit(".");
        reveal_strlit("00");
    }
    assert(s@ =~= start + four_decimals(h as int));
}

/// The status line for a measurement, e.g. `H2: 0.5000%` for fifty
/// hundredths.
pub fn status_text(m: Measurement) -> (r: String)
    ensures
        r@ == status_line(m),
{
    let mut s = String::new();
    proof {
        reveal_strlit("H2: ");
        reveal_strlit("%");
    }
    s.append("H2: ");
    write_four_decimals(&mut s, m.hundredths);
    s.append("%");
    assert(s@ =~= status_line(m));
    s
}

} // verus!
