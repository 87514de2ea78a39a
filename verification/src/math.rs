use vstd::prelude::*;
use crate::error::PredictionMarketError;

verus! {

/// Number of basis points in one whole.
pub const BPS_DENOMINATOR: u64 = 10000;

/// `floor(a * b / d)`; meaningful for `d > 0`.
pub open spec fn mul_div_floor(a: nat, b: nat, d: nat) -> nat {
    (a * b) / d
}

/// `r` is the integer square root of `n`.
pub open spec fn is_floor_sqrt(n: nat, r: nat) -> bool {
    r * r <= n < (r + 1) * (r + 1)
}

/// The integer square root of `n`.
pub open spec fn floor_sqrt(n: nat) -> nat {
    choose|r: nat| is_floor_sqrt(n, r)
}

/// The multiplier, in basis points, that turns `part` into `total`,
/// saturated at the largest 64-bit value; an empty `part` saturates.
pub open spec fn ratio_bps_saturating(total: nat, part: nat) -> nat {
    if part == 0 || mul_div_floor(total, BPS_DENOMINATOR as nat, part) > u64::MAX {
        u64::MAX as nat
    } else {
        mul_div_floor(total, BPS_DENOMINATOR as nat, part)
    }
}

/// A product grows with each of its factors.
pub proof fn lemma_mul_le(a: nat, b: nat, c: nat, d: nat)
    by (nonlinear_arith)
    requires
        a <= c,
        b <= d,
    ensures
        a * b <= c * d,
{
}

/// A floored quotient brackets the dividend.
pub proof fn lemma_div_bounds(x: nat, d: nat)
    by (nonlinear_arith)
    requires
        d > 0,
    ensures
        (x / d) * d <= x,
        x < (x / d + 1) * d,
        x / d <= x,
{
}

/// Only one number is the integer square root of `n`.
pub proof fn lemma_floor_sqrt_unique(n: nat, r: nat)
    requires
        is_floor_sqrt(n, r),
    ensures
        floor_sqrt(n) == r,
{
    let s = floor_sqrt(n);
    assert(is_floor_sqrt(n, s));
    assert(s == r) by (nonlinear_arith)
        requires
            r * r <= n,
            n < (r + 1) * (r + 1),
            s * s <= n,
            n < (s + 1) * (s + 1),
    {
        if s < r {
            assert((s + 1) * (s + 1) <= r * r);
        } else if r < s {
            assert((r + 1) * (r + 1) <= s * s);
        }
    }
}

/// Overflow-checked addition.
pub fn checked_add(a: u64, b: u64) -> (r: Result<u64, PredictionMarketError>)
    ensures
        r == (if a + b <= u64::MAX {
            Ok::<u64, PredictionMarketError>((a + b) as u64)
        } else {
            Err(PredictionMarketError::ArithmeticOverflow)
        }),
{
    if a <= u64::MAX - b {
        Ok(a + b)
    } else {
        Err(PredictionMarketError::ArithmeticOverflow)
    }
}

/// Underflow-checked subtraction.
pub fn checked_sub(a: u64, b: u64) -> (r: Result<u64, PredictionMarketError>)
    ensures
        r == (if b <= a {
            Ok::<u64, PredictionMarketError>((a - b) as u64)
        } else {
            Err(PredictionMarketError::ArithmeticUnderflow)
        }),
{
    if b <= a {
        Ok(a - b)
    } else {
        Err(PredictionMarketError::ArithmeticUnderflow)
    }
}

/// `floor(a * b / d)`, computed in 128 bits so that the product never wraps.
pub fn mul_div(a: u64, b: u64, d: u64) -> (r: Result<u64, PredictionMarketError>)
    ensures
        r == (if d == 0 {
            Err::<u64, PredictionMarketError>(PredictionMarketError::DivisionByZero)
        } else if mul_div_floor(a as nat, b as nat, d as nat) > u64::MAX {
            Err(PredictionMarketError::ArithmeticOverflow)
        } else {
            Ok(mul_div_floor(a as nat, b as nat, d as nat) as u64)
        }),
{
    if d == 0 {
        return Err(PredictionMarketError::DivisionByZero);
    }
    proof {
        lemma_mul_le(a as nat, b as nat, u64::MAX as nat, u64::MAX as nat);
        assert(u64::MAX * u64::MAX < u128::MAX) by (nonlinear_arith);
    }
    let product: u128 = (a as u128) * (b as u128);
    let quotient: u128 = product / (d as u128);
    if quotient > u64::MAX as u128 {
        Err(PredictionMarketError::ArithmeticOverflow)
    } else {
        Ok(quotient as u64)
    }
}

/// `floor(a * b / d)` on 128-bit operands; the product itself must fit.
pub fn mul_div_wide(a: u128, b: u128, d: u128) -> (r: Result<u128, PredictionMarketError>)
    ensures
        r == (if a * b > u128::MAX {
            Err::<u128, PredictionMarketError>(PredictionMarketError::ArithmeticOverflow)
        } else if d == 0 {
            Err(PredictionMarketError::DivisionByZero)
        } else {
            Ok(mul_div_floor(a as nat, b as nat, d as nat) as u128)
        }),
{
    match a.checked_mul(b) {
        None => Err(PredictionMarketError::ArithmeticOverflow),
        Some(product) => {
            if d == 0 {
                Err(PredictionMarketError::DivisionByZero)
            } else {
                Ok(product / d)
            }
        },
    }
}

/// The share `rate_bps / 10000` of `amount`, rounded down.
pub fn bps_of(amount: u64, rate_bps: u64) -> (r: Result<u64, PredictionMarketError>)
    ensures
        r == (if mul_div_floor(amount as nat, rate_bps as nat, BPS_DENOMINATOR as nat) > u64::MAX {
            Err::<u64, PredictionMarketError>(PredictionMarketError::ArithmeticOverflow)
        } else {
            Ok(mul_div_floor(amount as nat, rate_bps as nat, BPS_DENOMINATOR as nat) as u64)
        }),
{
    mul_div(amount, rate_bps, BPS_DENOMINATOR)
}

/// The multiplier in basis points that turns `part` into `total`, saturated.
pub fn ratio_bps(total: u128, part: u64) -> (r: u64)
    ensures
        r == ratio_bps_saturating(total as nat, part as nat),
{
    if part == 0 {
        return u64::MAX;
    }
    match total.checked_mul(10000) {
        None => {
            proof {
                let scaled = (total as nat) * (BPS_DENOMINATOR as nat);
                lemma_div_bounds(scaled, part as nat);
                assert(scaled / (part as nat) > u64::MAX) by (nonlinear_arith)
                    requires
                        scaled > u128::MAX,
                        0 < part <= u64::MAX,
                        scaled < (scaled / (part as nat) + 1) * part,
                ;
            }
            u64::MAX
        },
        Some(scaled) => {
            let quotient: u128 = scaled / (part as u128);
            if quotient > u64::MAX as u128 {
                u64::MAX
            } else {
                quotient as u64
            }
        },
    }
}

/// The integer square root of `n`.
pub fn isqrt(n: u128) -> (r: u64)
    ensures
        is_floor_sqrt(n as nat, r as nat),
        r == floor_sqrt(n as nat),
{
    let mut lo: u128 = 0;
    let mut hi: u128 = 0x1_0000_0000_0000_0000;
    assert(lo * lo <= n);
    assert(0x1_0000_0000_0000_0000u128 * 0x1_0000_0000_0000_0000u128 > n) by (nonlinear_arith)
        requires n <= u128::MAX;
    while hi - lo > 1
        invariant
            lo < hi <= 0x1_0000_0000_0000_0000,
            lo * lo <= n,
            n < hi * hi,
        decreases hi - lo,
    {
        let mid: u128 = lo + (hi - lo) / 2;
        assert(mid * mid <= 0xffff_ffff_ffff_ffffu128 * 0xffff_ffff_ffff_ffffu128) by (nonlinear_arith)
            requires mid <= 0xffff_ffff_ffff_ffffu128;
        if mid * mid <= n {
            lo = mid;
        } else {
            hi = mid;
        }
    }
    proof {
        assert(hi == lo + 1);
        lemma_floor_sqrt_unique(n as nat, lo as nat);
    }
    lo as u64
}

} // verus!
