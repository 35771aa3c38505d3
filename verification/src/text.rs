//! Decimal numerals, the building block of every number that appears in a notification.

use vstd::prelude::*;
use vstd::string::*;

verus! {

/// The character that writes the decimal digit `d`.
pub open spec fn digit_char(d: int) -> char {
    if d == 0 {
        '0'
    } else if d == 1 {
        '1'
    } else if d == 2 {
        '2'
    } else if d == 3 {
        '3'
    } else if d == 4 {
        '4'
    } else if d == 5 {
        '5'
    } else if d == 6 {
        '6'
    } else if d == 7 {
        '7'
    } else if d == 8 {
        '8'
    } else {
        '9'
    }
}

/// The decimal numeral of `n`: most significant digit first, no leading zero.
pub open spec fn decimal(n: nat) -> Seq<char>
    decreases n,
{
    if n < 10 {
        seq![digit_char(n as int)]
    } else {
        decimal(n / 10).push(digit_char((n % 10) as int))
    }
}

/// The numeral of an integer, with a minus sign in front of a negative one.
pub open spec fn integer(n: int) -> Seq<char> {
    if n < 0 {
        seq!['-'] + decimal((-n) as nat)
    } else {
        decimal(n as nat)
    }
}

/// The numeral of an integer with its sign always written: `+` for zero and above.
pub open spec fn signed_integer(n: int) -> Seq<char> {
    if n < 0 {
        seq!['-'] + decimal((-n) as nat)
    } else {
        seq!['+'] + decimal(n as nat)
    }
}

/// The numeral of an integer filled with zeros up to a width of two characters. A minus
/// sign counts towards the width, so only `0` to `9` receive a zero.
pub open spec fn two_wide(n: int) -> Seq<char> {
    if 0 <= n < 10 {
        seq!['0'] + decimal(n as nat)
    } else {
        integer(n)
    }
}

/// How far `n` lies from zero.
pub open spec fn magnitude(n: int) -> nat {
    if n < 0 {
        (-n) as nat
    } else {
        n as nat
    }
}

fn digit_str(d: u64) -> (s: &'static str)
    requires
        d < 10,
    ensures
        s@ == seq![digit_char(d as int)],
{
    proof {
        reveal_strlit("0");
        reveal_strlit("1");
        reveal_strlit("2");
        reveal_strlit("3");
        reveal_strlit("4");
        reveal_strlit("5");
        reveal_strlit("6");
        reveal_strlit("7");
        reveal_strlit("8");
        reveal_strlit("9");
    }
    if d == 0 {
        "0"
    } else if d == 1 {
        "1"
    } else if d == 2 {
        "2"
    } else if d == 3 {
        "3"
    } else if d == 4 {
        "4"
    } else if d == 5 {
        "5"
    } else if d == 6 {
        "6"
    } else if d == 7 {
        "7"
    } else if d == 8 {
        "8"
    } else {
        "9"
    }
}

/// Appends the decimal numeral of `n` to `out`.
pub fn push_decimal(out: &mut String, n: u64)
    ensures
        final(out)@ == old(out)@ + decimal(n as nat),
    decreases n,
{
    if n >= 10 {
        push_decimal(out, n / 10);
    }
    out.append(digit_str(n % 10));
}

fn magnitude_of(n: i64) -> (m: u64)
    ensures
        m == magnitude(n as int),
{
    if n >= 0 {
        n as u64
    } else if n == i64::MIN {
        9223372036854775808u64
    } else {
        (-n) as u64
    }
}

/// Appends the numeral of `n` to `out`, with a minus sign if `n` is negative.
pub fn push_integer(out: &mut String, n: i64)
    ensures
        final(out)@ == old(out)@ + integer(n as int),
{
    if n < 0 {
        out.append("-");
    }
    push_decimal(out, magnitude_of(n));
    proof {
        reveal_strlit("-");
    }
}

/// Appends the numeral of `n` to `out` with its sign always written.
pub fn push_signed_integer(out: &mut String, n: i64)
    ensures
        final(out)@ == old(out)@ + signed_integer(n as int),
{
    if n < 0 {
        out.append("-");
    } else {
        out.append("+");
    }
    push_decimal(out, magnitude_of(n));
    proof {
        reveal_strlit("-");
        reveal_strlit("+");
    }
}

/// Appends the numeral of `n` to `out`, zero-filled to two characters.
pub fn push_two_wide(out: &mut String, n: i64)
    ensures
        final(out)@ == old(out)@ + two_wide(n as int),
{
    if 0 <= n && n < 10 {
        out.append("0");
    }
    push_integer(out, n);
    proof {
        reveal_strlit("0");
    }
}

/// The decimal numeral of `n` as a string of its own.
pub fn decimal_string(n: u64) -> (s: String)
    ensures
        s@ == decimal(n as nat),
{
    let mut s = String::new();
    push_decimal(&mut s, n);
    s
}

} // verus!
