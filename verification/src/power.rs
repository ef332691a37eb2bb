//! Checked exponentiation over the signed 64-bit range, proved against the
//! mathematical power function.
//!
//! The computation is the plain repeated product `base * ... * base`; the
//! work here is the proof that a partial product overflowing means the full
//! power cannot fit either, so reporting overflow the moment a
//! multiplication fails is exact.

use vstd::prelude::*;
use vstd::arithmetic::mul::lemma_mul_inequality;
use vstd::arithmetic::power::{lemma0_pow, lemma1_pow, lemma_pow0, lemma_pow1, lemma_pow_adds,
    lemma_pow_increases, pow};
use vstd::math::abs;
use crate::fits_i64;

verus! {

/// The magnitude of a power is the power of the magnitude:
/// `|b^e| == |b|^e`.
proof fn lemma_abs_pow(b: int, e: nat)
    ensures
        abs(pow(b, e)) == pow(abs(b) as int, e),
    decreases e,
{
    if e == 0 {
        assert(pow(b, 0) == 1 && pow(abs(b) as int, 0) == 1) by {
            lemma_pow0(b);
            lemma_pow0(abs(b) as int);
        }
    } else {
        let e1 = (e - 1) as nat;
        lemma_abs_pow(b, e1);
        assert(pow(b, e) == b * pow(b, e1) && pow(abs(b) as int, e) == abs(b) as int * pow(
            abs(b) as int,
            e1,
        )) by {
            reveal(pow);
        }
        assert(abs(b * pow(b, e1)) == abs(b) * abs(pow(b, e1))) by (nonlinear_arith);
    }
}

/// Powers of minus one alternate with the parity of the exponent.
proof fn lemma_neg_one_pow(e: nat)
    ensures
        pow(-1, e) == (if e % 2 == 0 {
            1int
        } else {
            -1int
        }),
    decreases e,
{
    reveal(pow);
    if e > 0 {
        lemma_neg_one_pow((e - 1) as nat);
    }
}

/// Once a partial power has left the signed 64-bit range, every higher power
/// of the same base lies outside it as well: the base's magnitude must be at
/// least two for any power to overflow, and from there the magnitudes only
/// grow.
proof fn lemma_pow_overflow_persists(b: int, j: nat, e: nat)
    requires
        j <= e,
        !fits_i64(pow(b, j)),
    ensures
        !fits_i64(pow(b, e)),
{
    if e > j {
        let m = abs(pow(b, j));
        lemma_abs_pow(b, j);
        assert(abs(b) >= 2) by {
            if abs(b) == 0 {
                if j == 0 {
                    lemma_pow0(b);
                } else {
                    lemma0_pow(j);
                }
            } else if abs(b) == 1 {
                lemma1_pow(j);
            }
        }
        let k = (e - j) as nat;
        lemma_pow_adds(b, j, k);
        lemma_abs_pow(b, e);
        lemma_abs_pow(b, k);
        assert(abs(pow(b, j) * pow(b, k)) == abs(pow(b, j)) * abs(pow(b, k)))
            by (nonlinear_arith);
        assert(pow(abs(b) as int, k) >= 2) by {
            lemma_pow1(abs(b) as int);
            lemma_pow_increases(abs(b), 1, k);
        }
        assert(m * 2 <= m * pow(abs(b) as int, k)) by {
            lemma_mul_inequality(2, pow(abs(b) as int, k), m as int);
            assert(2 * (m as int) == m * 2 && pow(abs(b) as int, k) * (m as int) == m * pow(
                abs(b) as int,
                k,
            )) by (nonlinear_arith);
        }
        assert(abs(pow(b, e)) >= m * 2);
    }
}

/// Computes `base^exp` with checked 64-bit arithmetic: `Some` holding the
/// mathematical power exactly when that power fits in the signed 64-bit
/// range, `None` otherwise.
///
/// Bases of magnitude below two are answered directly, so the product loop
/// only ever runs while the accumulator's magnitude at least doubles per
/// step, which bounds it by the width of the 64-bit range.
pub fn checked_pow_i64(base: i64, exp: u32) -> (r: Option<i64>)
    ensures
        fits_i64(pow(base as int, exp as nat)) ==> r == Some(
            pow(base as int, exp as nat) as i64,
        ),
        !fits_i64(pow(base as int, exp as nat)) ==> r is None,
{
    if exp == 0 {
        proof {
            lemma_pow0(base as int);
        }
        return Some(1);
    }
    if base == 0 {
        proof {
            lemma0_pow(exp as nat);
        }
        return Some(0);
    }
    if base == 1 {
        proof {
            lemma1_pow(exp as nat);
        }
        return Some(1);
    }
    if base == -1 {
        proof {
            lemma_neg_one_pow(exp as nat);
        }
        if exp % 2 == 0 {
            return Some(1);
        } else {
            return Some(-1);
        }
    }
    proof {
        lemma_pow0(base as int);
    }
    let mut acc: i64 = 1;
    let mut i: u32 = 0;
    while i < exp
        invariant
            i <= exp,
            acc as int == pow(base as int, i as nat),
        decreases exp - i,
    {
        proof {
            assert(pow(base as int, (i + 1) as nat) == base as int * pow(base as int, i as nat))
                by {
                reveal(pow);
            }
        }
        match acc.checked_mul(base) {
            Some(v) => {
                acc = v;
                i = i + 1;
            },
            None => {
                proof {
                    lemma_pow_overflow_persists(base as int, (i + 1) as nat, exp as nat);
                }
                return None;
            },
        }
    }
    Some(acc)
}

} // verus!
