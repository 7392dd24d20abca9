//! Fixed-point numeric model.
//!
//! A `Fixed` counts thousandths of a unit: `1500` stands for `1.5`.
//! Division helpers here use floor semantics (round toward negative
//! infinity), which for a positive divisor coincides with the Euclidean
//! `/` and `%` of mathematical integers.

use vstd::prelude::*;
use vstd::arithmetic::div_mod::{lemma_fundamental_div_mod, lemma_fundamental_div_mod_converse};

verus! {

/// Fixed-point quantity: a count of thousandths of a unit.
pub type Fixed = i64;

/// Magnitude bound under which this crate's fixed-point arithmetic is
/// guaranteed not to overflow `i64` (one quadrillion thousandths).
pub const FIXED_LIMIT: i64 = 1_000_000_000_000_000;

/// `v` is small enough for the geometric and scale arithmetic of this crate.
pub open spec fn in_range(v: i64) -> bool {
    -FIXED_LIMIT <= v <= FIXED_LIMIT
}

/// Floor division and remainder of a signed value by a positive divisor.
/// The results agree with the Euclidean `/` and `%` on mathematical
/// integers: `0 <= r < d` and `v == q * d + r`.
pub fn div_mod_floor(v: i64, d: u64) -> (res: (i64, u64))
    requires
        0 < d <= i64::MAX as u64,
        v > i64::MIN,
    ensures
        res.0 == v as int / d as int,
        res.1 == v as int % d as int,
{
    if v >= 0 {
        let m: u64 = v as u64;
        ((m / d) as i64, m % d)
    } else {
        let m: u64 = (-v) as u64;
        let q0: u64 = m / d;
        let r0: u64 = m % d;
        proof {
            lemma_fundamental_div_mod(m as int, d as int);
            assert(m as int == d as int * q0 as int + r0 as int);
            if r0 == 0 {
                assert(v as int == (-(q0 as int)) * d as int + 0) by (nonlinear_arith)
                    requires
                        m as int == d as int * q0 as int + r0 as int,
                        r0 as int == 0,
                        v as int == -(m as int),
                ;
                lemma_fundamental_div_mod_converse(
                    v as int, d as int, -(q0 as int), 0);
            } else {
                assert(v as int == (-(q0 as int) - 1) * d as int + (d as int - r0 as int))
                    by (nonlinear_arith)
                    requires
                        m as int == d as int * q0 as int + r0 as int,
                        v as int == -(m as int),
                ;
                lemma_fundamental_div_mod_converse(
                    v as int, d as int, -(q0 as int) - 1, d as int - r0 as int);
            }
        }
        if r0 == 0 {
            (-(q0 as i64), 0)
        } else {
            (-(q0 as i64) - 1, d - r0)
        }
    }
}

} // verus!
