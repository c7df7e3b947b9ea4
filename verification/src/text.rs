//! Building the texts that the engine reports.

use vstd::prelude::*;

verus! {

/// The character of a decimal digit.
pub open spec fn digit_char(d: nat) -> char {
    if d == 0 {
        '0'
    } else if d == 1 {
        '1'
    } else if d == 2 {
        '2'
    } else if d == 3 {
        '3'
    } else if d == 4 {
        '4'
    } else if d == 5 {
        '5'
    } else if d == 6 {
        '6'
    } else if d == 7 {
        '7'
    } else if d == 8 {
        '8'
    } else {
        '9'
    }
}

/// The decimal numeral of `n`, without sign or leading zeros.
pub open spec fn decimal(n: nat) -> Seq<char>
    decreases n,
{
    if n < 10 {
        seq![digit_char(n)]
    } else {
        decimal(n / 10).push(digit_char(n % 10))
    }
}

/// The size of a number of thousandths, whatever its sign.
pub open spec fn magnitude(thousandths: int) -> nat {
    if thousandths < 0 {
        (-thousandths) as nat
    } else {
        thousandths as nat
    }
}

/// The minus sign that precedes every negative value.
pub open spec fn sign(thousandths: int) -> Seq<char> {
    if thousandths < 0 {
        seq!['-']
    } else {
        Seq::empty()
    }
}

/// A number of thousandths written as a whole number, rounded half away from
/// zero: 145 500 reads "146".
pub open spec fn whole(thousandths: int) -> Seq<char> {
    sign(thousandths) + decimal((magnitude(thousandths) + 500) / 1000)
}

/// A number of thousandths written with one decimal, rounded half away from
/// zero: 22 450 reads "22.5".
pub open spec fn one_decimal(thousandths: int) -> Seq<char> {
    let tenths: nat = (magnitude(thousandths) + 50) / 100;
    sign(thousandths) + decimal(tenths / 10) + seq!['.'] + decimal(tenths % 10)
}

/// The one-character text of a decimal digit.
pub fn digit_str(d: u8) -> (s: &'static str)
    requires
        d < 10,
    ensures
        s@ == seq![digit_char(d as nat)],
{
    proof {
        reveal_strlit("0");
        reveal_strlit("1");
        reveal_strlit("2");
        reveal_strlit("3");
        reveal_strlit("4");
        reveal_strlit("5");
        reveal_strlit("6");
        reveal_strlit("7");
        reveal_strlit("8");
        reveal_strlit("9");
    }
    let s: &'static str = match d {
        0 => "0",
        1 => "1",
        2 => "2",
        3 => "3",
        4 => "4",
        5 => "5",
        6 => "6",
        7 => "7",
        8 => "8",
        _ => "9",
    };
    s
}

/// Appends the decimal numeral of `n` to `out`.
pub fn push_decimal(out: &mut String, n: u64)
    ensures
        final(out)@ == old(out)@ + decimal(n as nat),
    decreases n,
{
    if n < 10 {
        out.append(digit_str(n as u8));
    } else {
        push_decimal(out, n / 10);
        out.append(digit_str((n % 10) as u8));
    }
}

/// The size of `thousandths`, whatever its sign.
fn magnitude_of(thousandths: i64) -> (size: u64)
    ensures
        size == magnitude(thousandths as int),
{
    if thousandths < 0 {
        (-(thousandths as i128)) as u64
    } else {
        thousandths as u64
    }
}

/// Appends a number of thousandths, written with one decimal, to `out`.
pub fn push_one_decimal(out: &mut String, thousandths: i64)
    ensures
        final(out)@ == old(out)@ + one_decimal(thousandths as int),
{
    let tenths: u64 = (magnitude_of(thousandths) / 100) + (magnitude_of(thousandths) % 100 + 50)
        / 100;
    if thousandths < 0 {
        out.append("-");
    }
    push_decimal(out, tenths / 10);
    out.append(".");
    push_decimal(out, tenths % 10);
    proof {
        reveal_strlit("-");
        reveal_strlit(".");
    }
}

/// Appends a number of thousandths, rounded to a whole number, to `out`.
pub fn push_whole(out: &mut String, thousandths: i64)
    ensures
        final(out)@ == old(out)@ + whole(thousandths as int),
{
    let units: u64 = (magnitude_of(thousandths) / 1000) + (magnitude_of(thousandths) % 1000 + 500)
        / 1000;
    if thousandths < 0 {
        out.append("-");
    }
    push_decimal(out, units);
    proof {
        reveal_strlit("-");
    }
}

/// Whether two texts hold the same characters.
pub fn same_text(a: &str, b: &str) -> (same: bool)
    ensures
        same == (a@ == b@),
{
    let x = a.to_owned();
    let y = b.to_owned();
    x == y
}

} // verus!
