//! Powers of two, as the memory-protection unit needs them: region sizes are
//! powers of two and are stored by their exponent.

use vstd::prelude::*;
use vstd::arithmetic::power2::pow2;
use vstd::arithmetic::power2::lemma2_to64;
use vstd::arithmetic::power2::lemma_pow2_strictly_increases;
use vstd::arithmetic::power2::lemma_pow2_unfold;
use vstd::arithmetic::power2::lemma_pow2_pos;

verus! {

/// `n` is `2^e` for some exponent `e` that a 32-bit number can hold.
pub open spec fn is_power_of_two(n: int) -> bool {
    exists|e: nat| e < 32 && n == #[trigger] pow2(e)
}

/// The exponent of the largest power of two that is at most `n`, for `n > 0`;
/// 0 for `n <= 1`.
pub open spec fn log2_floor(n: int) -> nat
    decreases n,
{
    if n <= 1 {
        0
    } else {
        1 + log2_floor(n / 2)
    }
}

/// `log2_floor(n)` is the one exponent `e` with `2^e <= n < 2^(e+1)`.
pub proof fn lemma_log2_floor_bounds(n: int)
    requires
        n > 0,
    ensures
        pow2(log2_floor(n)) <= n < pow2(log2_floor(n) + 1),
    decreases n,
{
    lemma2_to64();
    if n > 1 {
        lemma_log2_floor_bounds(n / 2);
        lemma_pow2_unfold(log2_floor(n / 2) + 1);
        lemma_pow2_unfold(log2_floor(n / 2) + 2);
    }
}

/// An exponent that brackets `n` is `log2_floor(n)`.
pub proof fn lemma_log2_floor_unique(n: int, e: nat)
    requires
        pow2(e) <= n < pow2(e + 1),
    ensures
        log2_floor(n) == e,
{
    lemma2_to64();
    lemma_pow2_pos(e);
    lemma_log2_floor_bounds(n);
    let f = log2_floor(n);
    if f < e {
        if f + 1 < e {
            lemma_pow2_strictly_increases(f + 1, e);
        }
    } else if e < f {
        if e + 1 < f {
            lemma_pow2_strictly_increases(e + 1, f);
        }
    }
}

/// The exponent of a power of two is its `log2_floor`.
pub proof fn lemma_log2_floor_pow2(e: nat)
    ensures
        log2_floor(pow2(e) as int) == e,
{
    lemma_pow2_strictly_increases(e, e + 1);
    lemma_log2_floor_unique(pow2(e) as int, e);
}

/// A 32-bit number with exactly one bit set is a power of two, and the other
/// way round.
pub proof fn lemma_single_bit_is_power_of_two(n: u32)
    ensures
        (n != 0 && n & ((n - 1) as u32) == 0) <==> is_power_of_two(n as int),
{
    lemma2_to64();
    if n != 0 && n & ((n - 1) as u32) == 0 {
        assert(n == 0x1 || n == 0x2 || n == 0x4 || n == 0x8 || n == 0x10 || n == 0x20 || n == 0x40
            || n == 0x80 || n == 0x100 || n == 0x200 || n == 0x400 || n == 0x800 || n == 0x1000
            || n == 0x2000 || n == 0x4000 || n == 0x8000 || n == 0x10000 || n == 0x20000 || n
            == 0x40000 || n == 0x80000 || n == 0x100000 || n == 0x200000 || n == 0x400000 || n
            == 0x800000 || n == 0x1000000 || n == 0x2000000 || n == 0x4000000 || n == 0x8000000
            || n == 0x10000000 || n == 0x20000000 || n == 0x40000000 || n == 0x80000000)
            by (bit_vector)
            requires
                n != 0 && n & ((n - 1) as u32) == 0,
        ;
        lemma_log2_floor_bounds(n as int);
        let e = log2_floor(n as int);
        if e >= 32 {
            lemma_pow2_strictly_increases(31, e);
        }
        assert(n == pow2(0) || n == pow2(1) || n == pow2(2) || n == pow2(3) || n == pow2(4) || n
            == pow2(5) || n == pow2(6) || n == pow2(7) || n == pow2(8) || n == pow2(9) || n
            == pow2(10) || n == pow2(11) || n == pow2(12) || n == pow2(13) || n == pow2(14) || n
            == pow2(15) || n == pow2(16) || n == pow2(17) || n == pow2(18) || n == pow2(19) || n
            == pow2(20) || n == pow2(21) || n == pow2(22) || n == pow2(23) || n == pow2(24) || n
            == pow2(25) || n == pow2(26) || n == pow2(27) || n == pow2(28) || n == pow2(29) || n
            == pow2(30) || n == pow2(31));
    }
    if is_power_of_two(n as int) {
        let e = choose|e: nat| e < 32 && n == #[trigger] pow2(e);
        assert(n == 0x1 || n == 0x2 || n == 0x4 || n == 0x8 || n == 0x10 || n == 0x20 || n == 0x40
            || n == 0x80 || n == 0x100 || n == 0x200 || n == 0x400 || n == 0x800 || n == 0x1000
            || n == 0x2000 || n == 0x4000 || n == 0x8000 || n == 0x10000 || n == 0x20000 || n
            == 0x40000 || n == 0x80000 || n == 0x100000 || n == 0x200000 || n == 0x400000 || n
            == 0x800000 || n == 0x1000000 || n == 0x2000000 || n == 0x4000000 || n == 0x8000000
            || n == 0x10000000 || n == 0x20000000 || n == 0x40000000 || n == 0x80000000);
        assert(n != 0 && n & ((n - 1) as u32) == 0) by (bit_vector)
            requires
                n == 0x1 || n == 0x2 || n == 0x4 || n == 0x8 || n == 0x10 || n == 0x20 || n
                    == 0x40 || n == 0x80 || n == 0x100 || n == 0x200 || n == 0x400 || n == 0x800
                    || n == 0x1000 || n == 0x2000 || n == 0x4000 || n == 0x8000 || n == 0x10000
                    || n == 0x20000 || n == 0x40000 || n == 0x80000 || n == 0x100000 || n
                    == 0x200000 || n == 0x400000 || n == 0x800000 || n == 0x1000000 || n
                    == 0x2000000 || n == 0x4000000 || n == 0x8000000 || n == 0x10000000 || n
                    == 0x20000000 || n == 0x40000000 || n == 0x80000000,
        ;
    }
}

/// Whether `n` has exactly one bit set.
pub fn has_single_bit(n: u32) -> (r: bool)
    ensures
        r == is_power_of_two(n as int),
{
    proof {
        lemma_single_bit_is_power_of_two(n);
    }
    n != 0 && n & (n - 1) == 0
}

/// The smallest power of two that is at least `num`.
pub fn closest_power_of_two(num: u32) -> (r: u32)
    requires
        0 < num <= 0x8000_0000,
    ensures
        is_power_of_two(r as int),
        num <= r,
        r < 2 * num,
        forall|p: int| is_power_of_two(p) && num <= p ==> r <= p,
{
    let mut r: u32 = 1;
    let ghost mut e: nat = 0;
    proof {
        lemma2_to64();
    }
    while r < num
        invariant
            0 < num <= 0x8000_0000,
            r == pow2(e),
            e < 32,
            r < 2 * num,
            e > 0 ==> pow2((e - 1) as nat) < num,
        decreases 32 - e,
    {
        proof {
            lemma2_to64();
            lemma_pow2_unfold(e + 1);
            lemma_pow2_pos(e);
            if e > 31 {
                lemma_pow2_strictly_increases(31, e);
            }
            assert(e < 31);
            assert(r > 0);
        }
        r = r * 2;
        proof {
            e = e + 1;
        }
    }
    proof {
        assert forall|p: int| is_power_of_two(p) && num <= p implies r <= p by {
            let f = choose|f: nat| f < 32 && p == #[trigger] pow2(f);
            if f < e {
                if f < e - 1 {
                    lemma_pow2_strictly_increases(f, (e - 1) as nat);
                }
            }
        }
    }
    r
}

/// The exponent of the largest power of two that is at most `num`; 0 for 0.
pub fn log_base_two(num: u32) -> (e: u32)
    ensures
        e == log2_floor(num as int),
        e < 32,
{
    let mut e: u32 = 0;
    let mut rest: u32 = num;
    proof {
        lemma2_to64();
    }
    while rest > 1
        invariant
            e + log2_floor(rest as int) == log2_floor(num as int),
            e < 32,
            rest as int * pow2(e as nat) <= num,
        decreases rest,
    {
        proof {
            lemma2_to64();
            lemma_pow2_unfold((e + 1) as nat);
            assert((rest / 2) as int * (2 * pow2(e as nat)) <= rest as int * pow2(e as nat))
                by (nonlinear_arith)
                requires
                    rest >= 0,
                    pow2(e as nat) >= 0,
            ;
            if e + 1 >= 32 {
                lemma_pow2_strictly_increases(31, (e + 1) as nat);
                assert((rest / 2) as int * pow2((e + 1) as nat) >= pow2((e + 1) as nat))
                    by (nonlinear_arith)
                    requires
                        rest / 2 >= 1,
                        pow2((e + 1) as nat) >= 0,
                ;
            }
        }
        rest = rest / 2;
        e = e + 1;
    }
    e
}

/// A power of two, held by its exponent.
#[derive(Clone, Copy, Debug, PartialEq, Eq, Structural)]
pub struct PowerOfTwo(pub u32);

impl PowerOfTwo {
    /// The exponent.
    pub open spec fn exponent(self) -> nat {
        self.0 as nat
    }

    /// The exponent fits a 32-bit number.
    pub open spec fn wf(self) -> bool {
        self.exponent() < 32
    }

    /// The number itself, `2^exponent`.
    pub open spec fn value(self) -> nat {
        pow2(self.exponent())
    }

    /// The exponent.
    pub fn exp(self) -> (e: u32)
        ensures
            e == self.exponent(),
    {
        self.0
    }

    /// The largest power of two that is at most `f`; `2^0` for 0.
    pub fn floor(f: u32) -> (p: PowerOfTwo)
        ensures
            p.wf(),
            p.exponent() == log2_floor(f as int),
    {
        PowerOfTwo(log_base_two(f))
    }

    /// The smallest power of two that is at least `f`.
    pub fn ceiling(f: u32) -> (p: PowerOfTwo)
        requires
            0 < f <= 0x8000_0000,
        ensures
            p.wf(),
            p.value() >= f,
            p.value() < 2 * f,
            p.value() == closest_power_of_two_spec(f as int),
    {
        let c = closest_power_of_two(f);
        proof {
            lemma_closest_power_of_two_spec(f as int, c as int);
            let e = choose|e: nat| e < 32 && c == #[trigger] pow2(e);
            lemma_log2_floor_pow2(e);
        }
        PowerOfTwo(log_base_two(c))
    }

    /// The exponent 0, which stands for an empty region.
    pub fn zero() -> (p: PowerOfTwo)
        ensures
            p.wf(),
            p.exponent() == 0,
    {
        PowerOfTwo(0)
    }

    /// The number itself.
    pub fn as_num(self) -> (n: u32)
        requires
            self.wf(),
        ensures
            n == self.value(),
    {
        let e = self.0;
        proof {
            lemma_shift_is_pow2(e);
        }
        1u32 << e
    }
}

/// The smallest power of two that is at least `n`, for `0 < n <= 2^31`.
pub open spec fn closest_power_of_two_spec(n: int) -> int {
    choose|p: int| is_smallest_power_of_two_above(p, n)
}

/// `p` is a power of two, at least `n`, and no smaller power of two is.
pub open spec fn is_smallest_power_of_two_above(p: int, n: int) -> bool {
    &&& is_power_of_two(p)
    &&& n <= p
    &&& forall|q: int| is_power_of_two(q) && n <= q ==> p <= q
}

/// There is one smallest power of two above `n`: whatever meets the
/// description is `closest_power_of_two_spec(n)`.
pub proof fn lemma_closest_power_of_two_spec(n: int, p: int)
    requires
        is_smallest_power_of_two_above(p, n),
    ensures
        closest_power_of_two_spec(n) == p,
{
    let c = closest_power_of_two_spec(n);
    assert(is_smallest_power_of_two_above(c, n));
}

/// Every number from 1 to `2^31` has a smallest power of two above it.
pub proof fn lemma_closest_exists(n: int)
    requires
        0 < n <= 0x8000_0000,
    ensures
        is_smallest_power_of_two_above(closest_power_of_two_spec(n), n),
{
    lemma_log2_floor_bounds(n);
    lemma2_to64();
    let f = log2_floor(n);
    if f >= 32 {
        lemma_pow2_strictly_increases(31, f);
    }
    let e: nat = if pow2(f) == n {
        f
    } else {
        f + 1
    };
    if e >= 32 {
        assert(pow2(32) == 0x1_0000_0000);
        assert(f == 31);
    }
    let p = pow2(e) as int;
    assert(is_power_of_two(p));
    assert forall|q: int| is_power_of_two(q) && n <= q implies p <= q by {
        let g = choose|g: nat| g < 32 && q == #[trigger] pow2(g);
        if g < e {
            if g < f {
                lemma_pow2_strictly_increases(g, f);
            }
        }
    }
    assert(is_smallest_power_of_two_above(p, n));
}

/// Shifting 1 left by `e` gives `2^e`.
pub proof fn lemma_shift_is_pow2(e: u32)
    requires
        e < 32,
    ensures
        (1u32 << e) == pow2(e as nat),
{
    lemma2_to64();
    assert(e < 32 ==> ((e == 0 ==> 1u32 << e == 0x1) && (e == 1 ==> 1u32 << e == 0x2) && (e == 2
        ==> 1u32 << e == 0x4) && (e == 3 ==> 1u32 << e == 0x8) && (e == 4 ==> 1u32 << e == 0x10)
        && (e == 5 ==> 1u32 << e == 0x20) && (e == 6 ==> 1u32 << e == 0x40) && (e == 7 ==> 1u32
        << e == 0x80) && (e == 8 ==> 1u32 << e == 0x100) && (e == 9 ==> 1u32 << e == 0x200) && (e
        == 10 ==> 1u32 << e == 0x400) && (e == 11 ==> 1u32 << e == 0x800) && (e == 12 ==> 1u32
        << e == 0x1000) && (e == 13 ==> 1u32 << e == 0x2000) && (e == 14 ==> 1u32 << e == 0x4000)
        && (e == 15 ==> 1u32 << e == 0x8000) && (e == 16 ==> 1u32 << e == 0x10000) && (e == 17
        ==> 1u32 << e == 0x20000) && (e == 18 ==> 1u32 << e == 0x40000) && (e == 19 ==> 1u32 << e
        == 0x80000) && (e == 20 ==> 1u32 << e == 0x100000) && (e == 21 ==> 1u32 << e == 0x200000)
        && (e == 22 ==> 1u32 << e == 0x400000) && (e == 23 ==> 1u32 << e == 0x800000) && (e == 24
        ==> 1u32 << e == 0x1000000) && (e == 25 ==> 1u32 << e == 0x2000000) && (e == 26 ==> 1u32
        << e == 0x4000000) && (e == 27 ==> 1u32 << e == 0x8000000) && (e == 28 ==> 1u32 << e
        == 0x10000000) && (e == 29 ==> 1u32 << e == 0x20000000) && (e == 30 ==> 1u32 << e
        == 0x40000000) && (e == 31 ==> 1u32 << e == 0x80000000))) by (bit_vector);
}

} // verus!
