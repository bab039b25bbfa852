//! Numbers as text, for the crash reports: hexadecimal with the prefix
//! `0x`, and decimal, each padded to a least width.

use vstd::prelude::*;
use vstd::string::StringExecFns;

verus! {

/// The character for the digit `d` of a number in base 10 or 16.
pub open spec fn digit_char(d: int, upper: bool) -> char {
    if d == 0 {
        '0'
    } else if d == 1 {
        '1'
    } else if d == 2 {
        '2'
    } else if d == 3 {
        '3'
    } else if d == 4 {
        '4'
    } else if d == 5 {
        '5'
    } else if d == 6 {
        '6'
    } else if d == 7 {
        '7'
    } else if d == 8 {
        '8'
    } else if d == 9 {
        '9'
    } else if d == 10 {
        if upper {
            'A'
        } else {
            'a'
        }
    } else if d == 11 {
        if upper {
            'B'
        } else {
            'b'
        }
    } else if d == 12 {
        if upper {
            'C'
        } else {
            'c'
        }
    } else if d == 13 {
        if upper {
            'D'
        } else {
            'd'
        }
    } else if d == 14 {
        if upper {
            'E'
        } else {
            'e'
        }
    } else {
        if upper {
            'F'
        } else {
            'f'
        }
    }
}

/// The number of digits of `x` in the base `base`; 1 for 0.
pub open spec fn digit_count(x: int, base: int) -> nat
    decreases x,
{
    if x < base || base < 2 {
        1
    } else {
        proof {
            assert(x / base < x) by (nonlinear_arith)
                requires
                    x >= base,
                    base >= 2,
            ;
        }
        1 + digit_count(x / base, base)
    }
}

/// The `n` lowest digits of `x` in the base `base`, the highest of them
/// first.
pub open spec fn digits_text(x: int, base: int, n: nat, upper: bool) -> Seq<char>
    decreases n,
{
    if n == 0 {
        Seq::empty()
    } else {
        digits_text(x / base, base, (n - 1) as nat, upper).push(digit_char(x % base, upper))
    }
}

/// `n` spaces.
pub open spec fn spaces(n: nat) -> Seq<char> {
    Seq::new(n, |i: int| ' ')
}

/// The larger of the two.
pub open spec fn at_least(n: nat, least: nat) -> nat {
    if n < least {
        least
    } else {
        n
    }
}

/// `x` in hexadecimal after the prefix `0x`, with at least `min_digits`
/// digits: zeros are put before a shorter number.
pub open spec fn hex_text(x: int, upper: bool, min_digits: nat) -> Seq<char> {
    seq!['0', 'x'] + digits_text(x, 16, at_least(digit_count(x, 16), min_digits), upper)
}

/// `x` in decimal, at least `width` characters wide: spaces are put before
/// a shorter number.
pub open spec fn decimal_text(x: int, width: nat) -> Seq<char> {
    spaces((at_least(digit_count(x, 10), width) - digit_count(x, 10)) as nat) + digits_text(
        x,
        10,
        digit_count(x, 10),
        false,
    )
}

/// The text of the digit `d`.
fn digit_str(d: usize, upper: bool) -> (r: &'static str)
    requires
        d < 16,
    ensures
        r@ == seq![digit_char(d as int, upper)],
{
    proof {
        reveal_strlit("0");
        reveal_strlit("1");
        reveal_strlit("2");
        reveal_strlit("3");
        reveal_strlit("4");
        reveal_strlit("5");
        reveal_strlit("6");
        reveal_strlit("7");
        reveal_strlit("8");
        reveal_strlit("9");
        reveal_strlit("A");
        reveal_strlit("B");
        reveal_strlit("C");
        reveal_strlit("D");
        reveal_strlit("E");
        reveal_strlit("F");
        reveal_strlit("a");
        reveal_strlit("b");
        reveal_strlit("c");
        reveal_strlit("d");
        reveal_strlit("e");
        reveal_strlit("f");
    }
    let r = if d == 0 {
        "0"
    } else if d == 1 {
        "1"
    } else if d == 2 {
        "2"
    } else if d == 3 {
        "3"
    } else if d == 4 {
        "4"
    } else if d == 5 {
        "5"
    } else if d == 6 {
        "6"
    } else if d == 7 {
        "7"
    } else if d == 8 {
        "8"
    } else if d == 9 {
        "9"
    } else if d == 10 {
        if upper {
            "A"
        } else {
            "a"
        }
    } else if d == 11 {
        if upper {
            "B"
        } else {
            "b"
        }
    } else if d == 12 {
        if upper {
            "C"
        } else {
            "c"
        }
    } else if d == 13 {
        if upper {
            "D"
        } else {
            "d"
        }
    } else if d == 14 {
        if upper {
            "E"
        } else {
            "e"
        }
    } else {
        if upper {
            "F"
        } else {
            "f"
        }
    };
    assert(r@ =~= seq![digit_char(d as int, upper)]);
    r
}

/// The number of digits of `x` in the base `base`.
fn count_digits(x: usize, base: usize) -> (n: usize)
    requires
        2 <= base,
    ensures
        n == digit_count(x as int, base as int),
        1 <= n <= 64,
{
    let mut n: usize = 1;
    let mut rest: usize = x;
    while rest >= base
        invariant
            2 <= base,
            n + digit_count(rest as int, base as int) == 1 + digit_count(x as int, base as int),
            1 <= n,
            rest as int * pow_of(base as int, (n - 1) as nat) <= x,
            n <= 64,
        decreases rest,
    {
        proof {
            lemma_pow_of_grows(base as int, (n - 1) as nat, rest as int, x as int);
        }
        rest = rest / base;
        n = n + 1;
    }
    n
}

/// `base` to the power `e`.
pub open spec fn pow_of(base: int, e: nat) -> int
    decreases e,
{
    if e == 0 {
        1
    } else {
        base * pow_of(base, (e - 1) as nat)
    }
}

/// A number that fits a machine word has at most 64 digits: as long as
/// `rest`, which is at least `base`, times `base^e` is at most `x`, the
/// exponent is below 63, and the quotient of `rest` by `base` times
/// `base^(e+1)` is at most `x` again.
proof fn lemma_pow_of_grows(base: int, e: nat, rest: int, x: int)
    requires
        2 <= base,
        rest >= base,
        rest * pow_of(base, e) <= x <= usize::MAX,
    ensures
        (rest / base) * pow_of(base, e + 1) <= x,
        e + 2 <= 64,
{
    lemma_pow_of_at_least_pow2(base, e + 1);
    lemma_pow_of_at_least_pow2(base, e);
    assert((rest / base) * (base * pow_of(base, e)) <= rest * pow_of(base, e)) by (nonlinear_arith)
        requires
            base >= 2,
            rest >= 0,
            pow_of(base, e) >= 0,
    ;
    assert(pow_of(base, e + 1) <= rest * pow_of(base, e)) by (nonlinear_arith)
        requires
            rest >= base,
            pow_of(base, e) >= 0,
            pow_of(base, e + 1) == base * pow_of(base, e),
    ;
    if e + 1 >= 64 {
        lemma_pow_of_at_least_pow2(base, 64);
        lemma_pow_of_monotonic(base, 64, e + 1);
        vstd::arithmetic::power2::lemma2_to64();
    }
}

/// A power of a base of at least 2 is at least the power of 2.
proof fn lemma_pow_of_at_least_pow2(base: int, e: nat)
    requires
        2 <= base,
    ensures
        pow_of(base, e) >= vstd::arithmetic::power2::pow2(e),
        pow_of(base, e) >= 1,
    decreases e,
{
    vstd::arithmetic::power2::lemma2_to64();
    if e > 0 {
        lemma_pow_of_at_least_pow2(base, (e - 1) as nat);
        vstd::arithmetic::power2::lemma_pow2_unfold(e);
        assert(base * pow_of(base, (e - 1) as nat) >= 2 * pow_of(base, (e - 1) as nat))
            by (nonlinear_arith)
            requires
                base >= 2,
                pow_of(base, (e - 1) as nat) >= 1,
        ;
    }
}

/// Powers of a base of at least 2 grow with the exponent.
proof fn lemma_pow_of_monotonic(base: int, a: nat, b: nat)
    requires
        2 <= base,
        a <= b,
    ensures
        pow_of(base, a) <= pow_of(base, b),
    decreases b,
{
    if a < b {
        lemma_pow_of_monotonic(base, a, (b - 1) as nat);
        lemma_pow_of_at_least_pow2(base, (b - 1) as nat);
        assert(base * pow_of(base, (b - 1) as nat) >= pow_of(base, (b - 1) as nat))
            by (nonlinear_arith)
            requires
                base >= 2,
                pow_of(base, (b - 1) as nat) >= 1,
        ;
    }
}

/// Appends the `n` lowest digits of `x` in the base `base`, the highest
/// first.
fn append_digits(text: &mut String, x: usize, base: usize, n: usize, upper: bool)
    requires
        2 <= base <= 16,
    ensures
        final(text)@ == old(text)@ + digits_text(x as int, base as int, n as nat, upper),
    decreases n,
{
    if n > 0 {
        append_digits(text, x / base, base, n - 1, upper);
        let digit = digit_str(x % base, upper);
        text.append(digit);
        assert(text@ =~= old(text)@ + digits_text(x as int, base as int, n as nat, upper));
    } else {
        assert(text@ =~= old(text)@ + digits_text(x as int, base as int, n as nat, upper));
    }
}

/// Appends `x` in hexadecimal after the prefix `0x`, with at least
/// `min_digits` digits.
pub fn append_hex(text: &mut String, x: usize, upper: bool, min_digits: usize)
    requires
        min_digits <= 64,
    ensures
        final(text)@ == old(text)@ + hex_text(x as int, upper, min_digits as nat),
{
    proof {
        reveal_strlit("0x");
    }
    let count = count_digits(x, 16);
    let n = if count < min_digits {
        min_digits
    } else {
        count
    };
    text.append("0x");
    append_digits(text, x, 16, n, upper);
    assert(text@ =~= old(text)@ + hex_text(x as int, upper, min_digits as nat));
}

/// Appends `x` in decimal, at least `width` characters wide.
pub fn append_decimal(text: &mut String, x: usize, width: usize)
    ensures
        final(text)@ == old(text)@ + decimal_text(x as int, width as nat),
{
    proof {
        reveal_strlit(" ");
    }
    let count = count_digits(x, 10);
    let mut padding: usize = 0;
    let ghost fill = (at_least(count as nat, width as nat) - count) as nat;
    while padding + count < width
        invariant
            1 <= count <= 64,
            padding <= fill,
            fill == (at_least(count as nat, width as nat) - count) as nat,
            text@ == old(text)@ + spaces(padding as nat),
        decreases width - padding,
    {
        proof {
            reveal_strlit(" ");
        }
        text.append(" ");
        padding = padding + 1;
        assert(text@ =~= old(text)@ + spaces(padding as nat));
    }
    append_digits(text, x, 10, count, false);
    assert(text@ =~= old(text)@ + decimal_text(x as int, width as nat));
}

} // verus!
