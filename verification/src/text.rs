//! Numbers as text: whole numbers in decimal, and counts of billionths as
//! decimal fractions.

use vstd::prelude::*;
use vstd::string::*;

verus! {

/// One billion: the number of billionths in a unit.
pub const BILLION: u128 = 1_000_000_000;

/// The character of a decimal digit.
pub open spec fn digit_char(d: nat) -> char {
    if d == 0 {
        '0'
    } else if d == 1 {
        '1'
    } else if d == 2 {
        '2'
    } else if d == 3 {
        '3'
    } else if d == 4 {
        '4'
    } else if d == 5 {
        '5'
    } else if d == 6 {
        '6'
    } else if d == 7 {
        '7'
    } else if d == 8 {
        '8'
    } else {
        '9'
    }
}

/// A whole number in decimal, without leading zeros.
pub open spec fn decimal(n: nat) -> Seq<char>
    decreases n,
{
    if n < 10 {
        seq![digit_char(n)]
    } else {
        decimal(n / 10).push(digit_char(n % 10))
    }
}

/// The last `width` decimal digits of `n`, with leading zeros.
pub open spec fn padded(n: nat, width: nat) -> Seq<char>
    decreases width,
{
    if width == 0 {
        Seq::empty()
    } else {
        padded(n / 10, (width - 1) as nat).push(digit_char(n % 10))
    }
}

/// The last `width` decimal digits of `n` as the digits behind a decimal point:
/// with leading zeros and without trailing ones. Empty where they are all zero.
pub open spec fn fraction(n: nat, width: nat) -> Seq<char>
    decreases width,
{
    if width == 0 {
        Seq::empty()
    } else if n % 10 == 0 {
        fraction(n / 10, (width - 1) as nat)
    } else {
        padded(n, width)
    }
}

/// The size of a number, whatever its sign.
pub open spec fn magnitude(n: int) -> nat {
    if n < 0 {
        (-n) as nat
    } else {
        n as nat
    }
}

/// A count of billionths as a decimal number: a minus sign where it is
/// negative, the whole part, and, where there is a fraction, a point and up to
/// nine digits, the last of which is not zero.
pub open spec fn billionths(n: int) -> Seq<char> {
    let whole = decimal(magnitude(n) / (BILLION as nat));
    let digits = fraction(magnitude(n) % (BILLION as nat), 9);
    let unsigned = if digits.len() == 0 {
        whole
    } else {
        whole + seq!['.'] + digits
    };
    if n < 0 {
        seq!['-'] + unsigned
    } else {
        unsigned
    }
}

/// The text of one decimal digit.
fn digit_str(d: u128) -> (s: &'static str)
    requires
        d < 10,
    ensures
        s@ == seq![digit_char(d as nat)],
{
    proof {
        reveal_strlit("0");
        reveal_strlit("1");
        reveal_strlit("2");
        reveal_strlit("3");
        reveal_strlit("4");
        reveal_strlit("5");
        reveal_strlit("6");
        reveal_strlit("7");
        reveal_strlit("8");
        reveal_strlit("9");
    }
    let s = if d == 0 {
        "0"
    } else if d == 1 {
        "1"
    } else if d == 2 {
        "2"
    } else if d == 3 {
        "3"
    } else if d == 4 {
        "4"
    } else if d == 5 {
        "5"
    } else if d == 6 {
        "6"
    } else if d == 7 {
        "7"
    } else if d == 8 {
        "8"
    } else {
        "9"
    };
    assert(s@ =~= seq![digit_char(d as nat)]);
    s
}

/// Appends `n` in decimal.
pub fn push_decimal(out: &mut String, n: u128)
    ensures
        final(out)@ == old(out)@ + decimal(n as nat),
    decreases n,
{
    if n >= 10 {
        push_decimal(out, n / 10);
    }
    out.append(digit_str(n % 10));
    assert(final(out)@ =~= old(out)@ + decimal(n as nat));
}

/// Appends the last `width` decimal digits of `n`, with leading zeros.
fn push_padded(out: &mut String, n: u128, width: u32)
    ensures
        final(out)@ == old(out)@ + padded(n as nat, width as nat),
    decreases width,
{
    if width > 0 {
        push_padded(out, n / 10, width - 1);
        out.append(digit_str(n % 10));
    }
    assert(final(out)@ =~= old(out)@ + padded(n as nat, width as nat));
}

/// Appends the last `width` decimal digits of `n` as the digits behind a
/// decimal point.
fn push_fraction(out: &mut String, n: u128, width: u32)
    ensures
        final(out)@ == old(out)@ + fraction(n as nat, width as nat),
{
    let mut rest: u128 = n;
    let mut left: u32 = width;
    while left > 0 && rest % 10 == 0
        invariant
            fraction(rest as nat, left as nat) == fraction(n as nat, width as nat),
        decreases left,
    {
        rest = rest / 10;
        left = left - 1;
    }
    if left > 0 {
        push_padded(out, rest, left);
    }
    assert(final(out)@ =~= old(out)@ + fraction(n as nat, width as nat));
}

/// The size of `n` as an unsigned number.
pub fn magnitude_of(n: i128) -> (m: u128)
    ensures
        m as nat == magnitude(n as int),
{
    if n >= 0 {
        n as u128
    } else if n == i128::MIN {
        0x8000_0000_0000_0000_0000_0000_0000_0000u128
    } else {
        (-n) as u128
    }
}

/// Appends a count of billionths as a decimal number.
pub fn push_billionths(out: &mut String, n: i128)
    ensures
        final(out)@ == old(out)@ + billionths(n as int),
{
    let size = magnitude_of(n);
    if n < 0 {
        proof {
            reveal_strlit("-");
        }
        out.append("-");
    }
    push_decimal(out, size / BILLION);
    let part = size % BILLION;
    if part != 0 {
        proof {
            reveal_strlit(".");
            assert(pow10(9) == BILLION) by {
                reveal_with_fuel(pow10, 10);
            }
            lemma_fraction_of_nonzero(part as nat, 9);
        }
        out.append(".");
        push_fraction(out, part, 9);
    } else {
        proof {
            lemma_fraction_of_zero(9);
        }
    }
    assert(final(out)@ =~= old(out)@ + billionths(n as int));
}

/// A number with a nonzero digit among its last `width` has a fraction.
proof fn lemma_fraction_of_nonzero(n: nat, width: nat)
    requires
        0 < n < pow10(width),
    ensures
        fraction(n, width).len() > 0,
    decreases width,
{
    if width == 0 {
    } else if n % 10 == 0 {
        lemma_fraction_of_nonzero(n / 10, (width - 1) as nat);
    } else {
        assert(padded(n, width).len() > 0);
    }
}

/// Zero has no fraction.
proof fn lemma_fraction_of_zero(width: nat)
    ensures
        fraction(0, width).len() == 0,
    decreases width,
{
    if width > 0 {
        lemma_fraction_of_zero((width - 1) as nat);
    }
}

/// Ten to the power of `e`.
spec fn pow10(e: nat) -> nat
    decreases e,
{
    if e == 0 {
        1
    } else {
        10 * pow10((e - 1) as nat)
    }
}

} // verus!
