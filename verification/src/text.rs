//! Text building blocks: characters of a string, decimal numerals.

use vstd::prelude::*;
use vstd::string::*;

verus! {

/// The characters of `s`, in order.
pub fn to_chars(s: &str) -> (chars: Vec<char>)
    ensures
        chars@ == s@,
{
    let mut chars: Vec<char> = Vec::new();
    for c in it: s.chars()
        invariant
            it.seq() == s@,
            chars@ =~= s@.take(it.index() as int),
    {
        chars.push(c);
    }
    assert(chars@ =~= s@);
    chars
}

/// Whether two string slices hold the same characters.
pub fn same_text(a: &str, b: &str) -> (same: bool)
    ensures
        same == (a@ == b@),
{
    let left: String = String::from_str(a);
    let right: String = String::from_str(b);
    left == right
}

/// The character that writes the digit `d`.
pub open spec fn digit_char(d: int) -> char {
    if d == 0 {
        '0'
    } else if d == 1 {
        '1'
    } else if d == 2 {
        '2'
    } else if d == 3 {
        '3'
    } else if d == 4 {
        '4'
    } else if d == 5 {
        '5'
    } else if d == 6 {
        '6'
    } else if d == 7 {
        '7'
    } else if d == 8 {
        '8'
    } else {
        '9'
    }
}

/// The decimal numeral of `n`: no sign, no leading zero but for `0` itself.
pub open spec fn decimal(n: nat) -> Seq<char>
    decreases n,
{
    if n < 10 {
        seq![digit_char(n as int)]
    } else {
        decimal(n / 10).push(digit_char((n % 10) as int))
    }
}

/// The numeral of `n` written with at least two digits.
pub open spec fn decimal_pad2(n: nat) -> Seq<char> {
    if n < 10 {
        seq!['0'] + decimal(n)
    } else {
        decimal(n)
    }
}

/// The fraction digits of `frac` thousandths with trailing zeros removed.
pub open spec fn fraction_digits(frac: nat) -> Seq<char>
    recommends
        0 < frac < 1000,
{
    if frac % 100 == 0 {
        seq![digit_char((frac / 100) as int)]
    } else if frac % 10 == 0 {
        seq![digit_char((frac / 100) as int), digit_char(((frac / 10) % 10) as int)]
    } else {
        seq![
            digit_char((frac / 100) as int),
            digit_char(((frac / 10) % 10) as int),
            digit_char((frac % 10) as int),
        ]
    }
}

/// The magnitude part of [`thousandths_text`].
pub open spec fn thousandths_magnitude(m: nat) -> Seq<char> {
    if m % 1000 == 0 {
        decimal(m / 1000)
    } else {
        decimal(m / 1000) + seq!['.'] + fraction_digits(m % 1000)
    }
}

/// A number held in thousandths, written in the shortest way: `16000` is
/// `16`, `18500` is `18.5`, `-4321` is `-4.321`.
pub open spec fn thousandths_text(v: int) -> Seq<char> {
    if v < 0 {
        seq!['-'] + thousandths_magnitude((-v) as nat)
    } else {
        thousandths_magnitude(v as nat)
    }
}

/// A number held in hundredths, written with exactly two fraction digits:
/// `9200` is `92.00`, `5` is `0.05`.
pub open spec fn hundredths_text(v: nat) -> Seq<char> {
    decimal(v / 100) + seq!['.'] + decimal_pad2(v % 100)
}

/// The one-character text of a digit.
pub fn digit_str(d: u64) -> (text: &'static str)
    requires
        d < 10,
    ensures
        text@ == seq![digit_char(d as int)],
{
    proof {
        reveal_strlit("0");
        reveal_strlit("1");
        reveal_strlit("2");
        reveal_strlit("3");
        reveal_strlit("4");
        reveal_strlit("5");
        reveal_strlit("6");
        reveal_strlit("7");
        reveal_strlit("8");
        reveal_strlit("9");
    }
    let text: &'static str = if d == 0 {
        "0"
    } else if d == 1 {
        "1"
    } else if d == 2 {
        "2"
    } else if d == 3 {
        "3"
    } else if d == 4 {
        "4"
    } else if d == 5 {
        "5"
    } else if d == 6 {
        "6"
    } else if d == 7 {
        "7"
    } else if d == 8 {
        "8"
    } else {
        "9"
    };
    assert(text@ =~= seq![digit_char(d as int)]);
    text
}

/// Appends the numeral of `n` to `out`.
pub fn push_decimal(out: &mut String, n: u64)
    ensures
        final(out)@ == old(out)@ + decimal(n as nat),
    decreases n,
{
    if n >= 10 {
        push_decimal(out, n / 10);
    }
    out.append(digit_str(n % 10));
    assert(out@ =~= old(out)@ + decimal(n as nat));
}

/// Appends the numeral of `n`, written with at least two digits, to `out`.
pub fn push_decimal_pad2(out: &mut String, n: u64)
    ensures
        final(out)@ == old(out)@ + decimal_pad2(n as nat),
{
    if n < 10 {
        out.append(digit_str(0));
    }
    push_decimal(out, n);
    assert(out@ =~= old(out)@ + decimal_pad2(n as nat));
}

/// The distance of `n` from zero.
pub fn magnitude(n: i64) -> (m: u64)
    ensures
        m as int == if n < 0 {
            -(n as int)
        } else {
            n as int
        },
{
    if n < 0 {
        let next: i64 = n + 1;
        let below: u64 = (-next) as u64;
        below + 1
    } else {
        n as u64
    }
}

/// The numeral of `n` as a string of its own.
pub fn decimal_string(n: u64) -> (text: String)
    ensures
        text@ == decimal(n as nat),
{
    let mut text: String = String::new();
    push_decimal(&mut text, n);
    assert(text@ =~= decimal(n as nat));
    text
}

/// Appends a number held in thousandths, written in the shortest way.
pub fn push_thousandths(out: &mut String, v: i64)
    ensures
        final(out)@ == old(out)@ + thousandths_text(v as int),
{
    proof {
        reveal_strlit("-");
        reveal_strlit(".");
    }
    if v < 0 {
        out.append("-");
    }
    let m: u64 = magnitude(v);
    let whole: u64 = m / 1000;
    let frac: u64 = m % 1000;
    push_decimal(out, whole);
    if frac != 0 {
        out.append(".");
        out.append(digit_str(frac / 100));
        if frac % 100 != 0 {
            out.append(digit_str((frac / 10) % 10));
            if frac % 10 != 0 {
                out.append(digit_str(frac % 10));
            }
        }
    }
    assert(out@ =~= old(out)@ + thousandths_text(v as int));
}

/// Appends a number held in hundredths, written with two fraction digits.
pub fn push_hundredths(out: &mut String, v: u64)
    ensures
        final(out)@ == old(out)@ + hundredths_text(v as nat),
{
    proof {
        reveal_strlit(".");
    }
    push_decimal(out, v / 100);
    out.append(".");
    push_decimal_pad2(out, v % 100);
    assert(out@ =~= old(out)@ + hundredths_text(v as nat));
}

} // verus!
