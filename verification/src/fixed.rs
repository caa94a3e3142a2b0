//! Exact fixed-point scalar arithmetic.
//!
//! Every scalar the library computes with is an `i64` holding a quantity in
//! units of `1 / SCALE`, so the value `SCALE` stands for one model-space
//! unit. All operations round toward zero and are specified exactly, which
//! keeps the camera math deterministic and lets algebraic identities (such
//! as composing with an identity transform) hold with equality.

use vstd::prelude::*;
use vstd::arithmetic::div_mod::{lemma_div_is_ordered, lemma_div_pos_is_pos};

verus! {

/// Number of fixed-point units in one model-space unit.
pub const SCALE: i64 = 1_000_000;

/// Largest magnitude any stored fixed-point scalar may take (4 * 10^15,
/// that is 4 * 10^9 model-space units). Keeping every stored scalar within
/// this bound guarantees that three-term dot products fit in an `i128`.
pub const FIX_MAX: i64 = 4_000_000_000_000_000;

/// A scalar magnitude the library will store and keep computing with.
pub open spec fn fits(x: int) -> bool {
    -(FIX_MAX as int) <= x <= FIX_MAX as int
}

/// Truncating (round-toward-zero) division by a positive divisor.
pub open spec fn tdiv(x: int, d: int) -> int
    recommends
        d > 0,
{
    if x >= 0 {
        x / d
    } else {
        -((-x) / d)
    }
}

/// Fixed-point value of a three-term dot product: the exact integer sum of
/// products is rescaled once, so no precision is lost between the terms.
pub open spec fn scomb3(a1: int, b1: int, a2: int, b2: int, a3: int, b3: int) -> int {
    tdiv(a1 * b1 + a2 * b2 + a3 * b3, SCALE as int)
}

/// Fixed-point product of two scalars.
pub open spec fn smul(a: int, b: int) -> int {
    tdiv(a * b, SCALE as int)
}

/// Product of two scalars that are each bounded in magnitude is bounded by
/// the product of the bounds.
pub proof fn lemma_mul_bound(a: int, b: int, m: int, n: int)
    by (nonlinear_arith)
    requires
        -m <= a <= m,
        -n <= b <= n,
        0 <= m,
        0 <= n,
    ensures
        -(m * n) <= a * b <= m * n,
{
}

/// Truncating division shrinks magnitudes: a bound on the dividend gives a
/// bound on the quotient.
pub proof fn lemma_tdiv_bound(x: int, b: int, d: int)
    requires
        d >= 1,
        -b <= x <= b,
        0 <= b,
    ensures
        -(b / d) <= tdiv(x, d) <= b / d,
{
    if x >= 0 {
        lemma_div_pos_is_pos(x, d);
        lemma_div_is_ordered(x, b, d);
        lemma_div_pos_is_pos(b, d);
    } else {
        lemma_div_pos_is_pos(-x, d);
        lemma_div_is_ordered(-x, b, d);
        lemma_div_pos_is_pos(b, d);
    }
}

/// Truncating division is symmetric under negation of the dividend.
pub proof fn lemma_tdiv_neg(x: int, d: int)
    requires
        d >= 1,
    ensures
        tdiv(-x, d) == -tdiv(x, d),
{
}

/// Exact fixed-point three-term dot product with an overflow check: the
/// result is the mathematical value whenever that value is storable, and
/// `None` exactly when it is not.
pub fn fx_comb3(a1: i64, b1: i64, a2: i64, b2: i64, a3: i64, b3: i64) -> (r: Option<i64>)
    requires
        fits(a1 as int),
        fits(b1 as int),
        fits(a2 as int),
        fits(b2 as int),
        fits(a3 as int),
        fits(b3 as int),
    ensures
        match r {
            Some(v) => v == scomb3(a1 as int, b1 as int, a2 as int, b2 as int, a3 as int, b3 as int)
                && fits(v as int),
            None => !fits(scomb3(a1 as int, b1 as int, a2 as int, b2 as int, a3 as int, b3 as int)),
        },
{
    proof {
        lemma_mul_bound(a1 as int, b1 as int, FIX_MAX as int, FIX_MAX as int);
        lemma_mul_bound(a2 as int, b2 as int, FIX_MAX as int, FIX_MAX as int);
        lemma_mul_bound(a3 as int, b3 as int, FIX_MAX as int, FIX_MAX as int);
    }
    let p1: i128 = (a1 as i128) * (b1 as i128);
    let p2: i128 = (a2 as i128) * (b2 as i128);
    let p3: i128 = (a3 as i128) * (b3 as i128);
    let num: i128 = p1 + p2 + p3;
    proof {
        lemma_tdiv_bound(num as int, 3 * (FIX_MAX as int) * (FIX_MAX as int), SCALE as int);
    }
    let q: i128 = match num.checked_div(SCALE as i128) {
        Some(q) => q,
        None => {
            proof {
                assert(false);
            }
            0
        },
    };
    if q >= -FIX_MAX as i128 && q <= FIX_MAX as i128 {
        Some(q as i64)
    } else {
        None
    }
}

/// Magnitude of a scalar.
pub open spec fn sabs(x: int) -> int {
    if x < 0 {
        -x
    } else {
        x
    }
}

/// The smaller of two scalars, keeping the first on a tie.
pub open spec fn smin2(a: int, b: int) -> int {
    if a <= b {
        a
    } else {
        b
    }
}

/// The larger of two scalars, keeping the first on a tie.
pub open spec fn smax2(a: int, b: int) -> int {
    if a >= b {
        a
    } else {
        b
    }
}

/// Scaling by the divisor and truncating back cancel exactly.
pub proof fn lemma_tdiv_mul_cancel(x: int, d: int)
    requires
        d >= 1,
    ensures
        tdiv(d * x, d) == x,
{
    vstd::arithmetic::div_mod::lemma_div_multiples_vanish(x, d);
    if x >= 0 {
        assert(d * x >= 0) by (nonlinear_arith)
            requires
                d >= 1 && x >= 0,
        {
        }
    } else {
        assert(d * x < 0) by (nonlinear_arith)
            requires
                d >= 1 && x < 0,
        {
        }
        vstd::arithmetic::div_mod::lemma_div_multiples_vanish(-x, d);
        assert(-(d * x) == d * (-x)) by (nonlinear_arith);
    }
}

/// A bounded three-term combination stays within the rescaled product of
/// the bounds.
pub proof fn lemma_scomb3_bound(
    a1: int,
    b1: int,
    a2: int,
    b2: int,
    a3: int,
    b3: int,
    ba: int,
    bb: int,
)
    requires
        -ba <= a1 <= ba,
        -ba <= a2 <= ba,
        -ba <= a3 <= ba,
        -bb <= b1 <= bb,
        -bb <= b2 <= bb,
        -bb <= b3 <= bb,
        0 <= ba,
        0 <= bb,
    ensures
        -((3 * ba * bb) / (SCALE as int)) <= scomb3(a1, b1, a2, b2, a3, b3) <= (3 * ba * bb) / (
        SCALE as int),
{
    lemma_mul_bound(a1, b1, ba, bb);
    lemma_mul_bound(a2, b2, ba, bb);
    lemma_mul_bound(a3, b3, ba, bb);
    assert(3 * ba * bb == (ba * bb) + (ba * bb) + (ba * bb)) by (nonlinear_arith);
    lemma_tdiv_bound(a1 * b1 + a2 * b2 + a3 * b3, 3 * ba * bb, SCALE as int);
}

/// A fixed-point product of bounded factors is storable whenever the
/// product of the bounds stays within `FIX_MAX` after rescaling.
pub proof fn lemma_smul_fits(a: int, b: int, ba: int, bb: int)
    requires
        -ba <= a <= ba,
        -bb <= b <= bb,
        0 <= ba,
        0 <= bb,
        ba * bb <= (FIX_MAX as int) * (SCALE as int),
    ensures
        fits(smul(a, b)),
        -(ba * bb) / (SCALE as int) <= smul(a, b) <= (ba * bb) / (SCALE as int),
{
    lemma_mul_bound(a, b, ba, bb);
    lemma_tdiv_bound(a * b, ba * bb, SCALE as int);
    lemma_div_is_ordered(ba * bb, (FIX_MAX as int) * (SCALE as int), SCALE as int);
    vstd::arithmetic::div_mod::lemma_div_multiples_vanish(FIX_MAX as int, SCALE as int);
    assert((SCALE as int) * (FIX_MAX as int) == (FIX_MAX as int) * (SCALE as int));
}

/// Fixed-point quotient: `a / b` in model-space units, truncated toward
/// zero, for a nonzero divisor.
pub open spec fn sdiv(a: int, b: int) -> int
    recommends
        b != 0,
{
    if b > 0 {
        tdiv(a * (SCALE as int), b)
    } else {
        tdiv(-(a * (SCALE as int)), -b)
    }
}

/// Whether an exec result over `i64` agrees with a spec-level checked
/// scalar result.
pub open spec fn agrees(r: Option<i64>, s: Option<int>) -> bool {
    match (r, s) {
        (Some(a), Some(b)) => a == b,
        (None, None) => true,
        _ => false,
    }
}

/// Exact fixed-point product with an overflow check.
pub fn fx_mul(a: i64, b: i64) -> (r: Option<i64>)
    requires
        fits(a as int),
        fits(b as int),
    ensures
        match r {
            Some(v) => v == smul(a as int, b as int) && fits(v as int),
            None => !fits(smul(a as int, b as int)),
        },
{
    let r = fx_comb3(a, b, 0, 0, 0, 0);
    proof {
        assert(scomb3(a as int, b as int, 0, 0, 0, 0) == smul(a as int, b as int));
    }
    r
}

/// Exact fixed-point quotient with an overflow check: `None` exactly when
/// the divisor is zero or the true quotient is not storable.
pub fn fx_div(a: i64, b: i64) -> (r: Option<i64>)
    requires
        fits(a as int),
        fits(b as int),
    ensures
        match r {
            Some(v) => b != 0 && v == sdiv(a as int, b as int) && fits(v as int),
            None => b == 0 || !fits(sdiv(a as int, b as int)),
        },
{
    if b == 0 {
        return None;
    }
    proof {
        lemma_mul_bound(a as int, SCALE as int, FIX_MAX as int, SCALE as int);
        if b > 0 {
            lemma_tdiv_bound(a * (SCALE as int), (FIX_MAX as int) * (SCALE as int), b as int);
        } else {
            lemma_tdiv_bound(-(a * (SCALE as int)), (FIX_MAX as int) * (SCALE as int), -(b as int));
        }
    }
    let num: i128 = (a as i128) * (SCALE as i128);
    let q: i128 = match num.checked_div(b as i128) {
        Some(q) => q,
        None => {
            proof {
                assert(false);
            }
            0
        },
    };
    if q >= -FIX_MAX as i128 && q <= FIX_MAX as i128 {
        Some(q as i64)
    } else {
        None
    }
}

/// Truncating division of a fixed-point value by a positive integer count.
/// The result always shrinks, so it is always storable.
pub fn fx_divn(a: i64, n: i64) -> (r: i64)
    requires
        fits(a as int),
        1 <= n,
    ensures
        r == tdiv(a as int, n as int),
        fits(r as int),
{
    proof {
        lemma_tdiv_bound(a as int, FIX_MAX as int, n as int);
    }
    match a.checked_div(n) {
        Some(q) => q,
        None => {
            proof {
                assert(false);
            }
            0
        },
    }
}

/// Floor of the square root of a natural number.
pub open spec fn sqrt_floor(n: nat) -> nat
    decreases n,
{
    if n == 0 {
        0
    } else {
        let r = sqrt_floor((n - 1) as nat);
        if (r + 1) * (r + 1) <= n {
            r + 1
        } else {
            r
        }
    }
}

/// What it means for `r` to be the floor of the square root of `n`.
pub open spec fn is_sqrt_floor(n: int, r: int) -> bool {
    0 <= r && r * r <= n && n < (r + 1) * (r + 1)
}

/// `sqrt_floor` is the floor of the square root.
pub proof fn lemma_sqrt_floor(n: nat)
    ensures
        is_sqrt_floor(n as int, sqrt_floor(n) as int),
    decreases n,
{
    if n > 0 {
        lemma_sqrt_floor((n - 1) as nat);
        let r = sqrt_floor((n - 1) as nat) as int;
        assert(r * r <= n - 1 && n - 1 < (r + 1) * (r + 1));
        if (r + 1) * (r + 1) <= n {
            assert(sqrt_floor(n) == r + 1);
            assert(n <= (r + 1) * (r + 1));
            assert((r + 2) * (r + 2) > (r + 1) * (r + 1)) by (nonlinear_arith)
                requires
                    r >= 0,
            {
            }
        } else {
            assert(sqrt_floor(n) == r);
        }
    }
}

/// Any number with the floor-square-root property is `sqrt_floor`.
pub proof fn lemma_sqrt_floor_unique(n: nat, r: int)
    requires
        is_sqrt_floor(n as int, r),
    ensures
        r == sqrt_floor(n),
{
    lemma_sqrt_floor(n);
    let s = sqrt_floor(n) as int;
    if r < s {
        assert((r + 1) * (r + 1) <= s * s) by (nonlinear_arith)
            requires
                r + 1 <= s,
                r >= 0,
        {
        }
    }
    if s < r {
        assert((s + 1) * (s + 1) <= r * r) by (nonlinear_arith)
            requires
                s + 1 <= r,
                s >= 0,
        {
        }
    }
}

/// Floor square root of an unsigned 128-bit value, by bisection.
pub fn isqrt(n: u128) -> (r: u64)
    ensures
        r as nat == sqrt_floor(n as nat),
{
    let mut lo: u128 = 0;
    let mut hi: u128 = 18446744073709551616u128;  // 2^64; its square exceeds any u128
    proof {
        assert((18446744073709551616u128 as int) * (18446744073709551616u128 as int) > n as int)
            by (nonlinear_arith)
            requires
                n <= u128::MAX,
        {
        }
    }
    while lo + 1 < hi
        invariant
            lo < hi <= 18446744073709551616u128,
            (lo as int) * (lo as int) <= n as int,
            (n as int) < (hi as int) * (hi as int),
        decreases hi - lo,
    {
        let mid: u128 = lo + (hi - lo) / 2;
        proof {
            assert((mid as int) * (mid as int) <= (18446744073709551615u128 as int) * (
            18446744073709551615u128 as int)) by (nonlinear_arith)
                requires
                    0 <= mid <= 18446744073709551615u128,
            {
            }
        }
        if mid * mid <= n {
            lo = mid;
        } else {
            hi = mid;
        }
    }
    proof {
        lemma_sqrt_floor_unique(n as nat, lo as int);
    }
    lo as u64
}

/// Fixed-point magnitude of a 3-vector given by its components: the floor
/// square root of the exact sum of squares. Squares of fixed-point values
/// carry the scale twice, so the root carries it once, as a magnitude must.
pub open spec fn smag3(x: int, y: int, z: int) -> int {
    sqrt_floor((x * x + y * y + z * z) as nat) as int
}

/// Exact fixed-point vector magnitude with an overflow check.
pub fn fx_mag3(x: i64, y: i64, z: i64) -> (r: Option<i64>)
    requires
        fits(x as int),
        fits(y as int),
        fits(z as int),
    ensures
        match r {
            Some(v) => v == smag3(x as int, y as int, z as int) && fits(v as int) && v >= 0,
            None => !fits(smag3(x as int, y as int, z as int)),
        },
{
    proof {
        lemma_mul_bound(x as int, x as int, FIX_MAX as int, FIX_MAX as int);
        lemma_mul_bound(y as int, y as int, FIX_MAX as int, FIX_MAX as int);
        lemma_mul_bound(z as int, z as int, FIX_MAX as int, FIX_MAX as int);
        assert((x as int) * (x as int) >= 0) by (nonlinear_arith);
        assert((y as int) * (y as int) >= 0) by (nonlinear_arith);
        assert((z as int) * (z as int) >= 0) by (nonlinear_arith);
    }
    let sx: i128 = (x as i128) * (x as i128);
    let sy: i128 = (y as i128) * (y as i128);
    let sz: i128 = (z as i128) * (z as i128);
    let sum: i128 = sx + sy + sz;
    let root: u64 = isqrt(sum as u128);
    if root <= FIX_MAX as u64 {
        Some(root as i64)
    } else {
        None
    }
}

/// Truncated series for the sine of a fixed-point angle in radians, with
/// every overflow gate of the executable computation made explicit. The
/// series is accurate for the small per-gesture angles input events carry.
pub open spec fn ssin(x: int) -> Option<int> {
    let x2 = smul(x, x);
    if !fits(x2) {
        None
    } else {
        let x3 = smul(x2, x);
        if !fits(x3) {
            None
        } else {
            let x5 = smul(x3, x2);
            if !fits(x5) {
                None
            } else {
                let x7 = smul(x5, x2);
                if !fits(x7) {
                    None
                } else {
                    let v = x - tdiv(x3, 6) + tdiv(x5, 120) - tdiv(x7, 5040);
                    if fits(v) {
                        Some(v)
                    } else {
                        None
                    }
                }
            }
        }
    }
}

/// Truncated series for the cosine of a fixed-point angle in radians; see
/// `ssin` for the conventions.
pub open spec fn scos(x: int) -> Option<int> {
    let x2 = smul(x, x);
    if !fits(x2) {
        None
    } else {
        let x4 = smul(x2, x2);
        if !fits(x4) {
            None
        } else {
            let x6 = smul(x4, x2);
            if !fits(x6) {
                None
            } else {
                let v = (SCALE as int) - tdiv(x2, 2) + tdiv(x4, 24) - tdiv(x6, 720);
                if fits(v) {
                    Some(v)
                } else {
                    None
                }
            }
        }
    }
}

/// Sine of a fixed-point angle by truncated series.
pub fn fx_sin(x: i64) -> (r: Option<i64>)
    requires
        fits(x as int),
    ensures
        agrees(r, ssin(x as int)),
{
    let x2 = match fx_mul(x, x) {
        Some(v) => v,
        None => {
            return None;
        },
    };
    let x3 = match fx_mul(x2, x) {
        Some(v) => v,
        None => {
            return None;
        },
    };
    let x5 = match fx_mul(x3, x2) {
        Some(v) => v,
        None => {
            return None;
        },
    };
    let x7 = match fx_mul(x5, x2) {
        Some(v) => v,
        None => {
            return None;
        },
    };
    let t3 = fx_divn(x3, 6);
    let t5 = fx_divn(x5, 120);
    let t7 = fx_divn(x7, 5040);
    let v: i64 = x - t3 + t5 - t7;
    if v >= -FIX_MAX && v <= FIX_MAX {
        Some(v)
    } else {
        None
    }
}

/// Cosine of a fixed-point angle by truncated series.
pub fn fx_cos(x: i64) -> (r: Option<i64>)
    requires
        fits(x as int),
    ensures
        agrees(r, scos(x as int)),
{
    let x2 = match fx_mul(x, x) {
        Some(v) => v,
        None => {
            return None;
        },
    };
    let x4 = match fx_mul(x2, x2) {
        Some(v) => v,
        None => {
            return None;
        },
    };
    let x6 = match fx_mul(x4, x2) {
        Some(v) => v,
        None => {
            return None;
        },
    };
    let t2 = fx_divn(x2, 2);
    let t4 = fx_divn(x4, 24);
    let t6 = fx_divn(x6, 720);
    let v: i64 = SCALE - t2 + t4 - t6;
    if v >= -FIX_MAX && v <= FIX_MAX {
        Some(v)
    } else {
        None
    }
}

} // verus!
