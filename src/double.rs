//! IEEE-754 binary64 values held as their bit patterns, with the
//! comparisons that the codec needs stated over integers.
use vstd::arithmetic::power2::{
    lemma2_to64, lemma2_to64_rest, lemma_pow2_strictly_increases, lemma_pow2_unfold, pow2,
};
use vstd::prelude::*;

verus! {

/// Two to the power of the fraction width.
pub const FRACTION_UNIT: u64 = 0x10_0000_0000_0000;

/// The biased exponent field of a bit pattern.
pub open spec fn exponent(b: u64) -> int {
    ((b as int) / (FRACTION_UNIT as int)) % 0x800
}

/// The fraction field of a bit pattern.
pub open spec fn fraction(b: u64) -> int {
    (b as int) % (FRACTION_UNIT as int)
}

pub open spec fn is_negative(b: u64) -> bool {
    b >= 0x8000_0000_0000_0000
}

pub open spec fn is_nan(b: u64) -> bool {
    exponent(b) == 0x7ff && fraction(b) != 0
}

pub open spec fn is_finite(b: u64) -> bool {
    exponent(b) != 0x7ff
}

/// Positive or negative zero.
pub open spec fn is_zero(b: u64) -> bool {
    exponent(b) == 0 && fraction(b) == 0
}

/// Floating-point `==`: NaN equals nothing, the two zeros are equal.
pub open spec fn double_eq(a: u64, b: u64) -> bool {
    !is_nan(a) && !is_nan(b) && (a == b || (is_zero(a) && is_zero(b)))
}

/// The double denotes exactly the integer `n`.
pub open spec fn denotes_int(b: u64, n: int) -> bool {
    if is_zero(b) {
        n == 0
    } else if exponent(b) == 0 || !is_finite(b) {
        false
    } else {
        let m = fraction(b) + FRACTION_UNIT as int;
        let mag = if n < 0 { -n } else { n };
        &&& is_negative(b) == (n < 0)
        &&& if exponent(b) >= 1075 {
            m * pow2((exponent(b) - 1075) as nat) == mag
        } else {
            m == mag * pow2((1075 - exponent(b)) as nat)
        }
    }
}

fn exponent_of(b: u64) -> (r: u64)
    ensures
        r == exponent(b),
        r < 0x800,
{
    (b / FRACTION_UNIT) % 0x800
}

fn fraction_of(b: u64) -> (r: u64)
    ensures
        r == fraction(b),
        r < FRACTION_UNIT,
{
    b % FRACTION_UNIT
}

/// Whether the bit pattern is a NaN.
pub fn nan_bits(b: u64) -> (r: bool)
    ensures
        r == is_nan(b),
{
    exponent_of(b) == 0x7ff && fraction_of(b) != 0
}

/// Whether the bit pattern is a finite number.
pub fn finite_bits(b: u64) -> (r: bool)
    ensures
        r == is_finite(b),
{
    exponent_of(b) != 0x7ff
}

/// Floating-point equality on bit patterns.
pub fn double_eq_bits(a: u64, b: u64) -> (r: bool)
    ensures
        r == double_eq(a, b),
{
    let zero_a = exponent_of(a) == 0 && fraction_of(a) == 0;
    let zero_b = exponent_of(b) == 0 && fraction_of(b) == 0;
    !nan_bits(a) && !nan_bits(b) && (a == b || (zero_a && zero_b))
}

fn pow2_exec(k: u32) -> (r: u128)
    requires
        k <= 64,
    ensures
        r == pow2(k as nat),
{
    let mut p: u128 = 1;
    let mut i: u32 = 0;
    proof {
        lemma2_to64();
    }
    while i < k
        invariant
            i <= k <= 64,
            p == pow2(i as nat),
            p <= pow2(64) == 0x1_0000_0000_0000_0000,
        decreases k - i,
    {
        proof {
            lemma_pow2_unfold((i + 1) as nat);
            if i + 1 < 64 {
                lemma_pow2_strictly_increases((i + 1) as nat, 64);
            }
        }
        p = p * 2;
        i = i + 1;
    }
    p
}

/// Whether the double denotes exactly the integer `n`.
pub fn denotes_int_exec(b: u64, n: i128) -> (r: bool)
    requires
        i64::MIN <= n <= u64::MAX,
    ensures
        r == denotes_int(b, n as int),
{
    let e = exponent_of(b);
    let f = fraction_of(b);
    if e == 0 && f == 0 {
        return n == 0;
    }
    if e == 0 || e == 0x7ff {
        return false;
    }
    let neg = b >= 0x8000_0000_0000_0000;
    if neg != (n < 0) {
        return false;
    }
    let mag: u128 = if n < 0 { (-n) as u128 } else { n as u128 };
    let m: u128 = (f + FRACTION_UNIT) as u128;
    proof {
        lemma2_to64();
        lemma2_to64_rest();
    }
    if e >= 1075 {
        let k: u64 = e - 1075;
        if k > 11 {
            proof {
                if k > 12 {
                    lemma_pow2_strictly_increases(12, k as nat);
                }
                assert(m * pow2(k as nat) >= FRACTION_UNIT * 4096) by (nonlinear_arith)
                    requires
                        m >= FRACTION_UNIT,
                        pow2(k as nat) >= 4096,
                ;
            }
            return false;
        }
        let p = pow2_exec(k as u32);
        assert(m * p <= 0x20_0000_0000_0000 * 2048) by (nonlinear_arith)
            requires
                m < 0x20_0000_0000_0000,
                p <= 2048,
                k <= 11,
                p == pow2(k as nat),
        {
            if k < 11 {
                lemma_pow2_strictly_increases(k as nat, 11);
            }
        }
        m * p == mag
    } else {
        let k: u64 = 1075 - e;
        if k > 53 {
            proof {
                if k > 54 {
                    lemma_pow2_strictly_increases(54, k as nat);
                }
                if mag > 0 {
                    assert(mag * pow2(k as nat) >= pow2(54)) by (nonlinear_arith)
                        requires
                            mag >= 1,
                            pow2(k as nat) >= pow2(54),
                    ;
                } else {
                    assert(mag * pow2(k as nat) == 0) by (nonlinear_arith)
                        requires
                            mag == 0,
                    ;
                }
                assert(m < pow2(54));
            }
            return false;
        }
        let p = pow2_exec(k as u32);
        assert(p == pow2(k as nat));
        proof {
            if k < 53 {
                lemma_pow2_strictly_increases(k as nat, 53);
            }
        }
        assert(mag * p <= 0x1_0000_0000_0000_0000 * 0x20_0000_0000_0000) by (nonlinear_arith)
            requires
                mag <= 0x1_0000_0000_0000_0000,
                p <= 0x20_0000_0000_0000,
        ;
        m == mag * p
    }
}

} // verus!
