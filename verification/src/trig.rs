//! Fixed-point square root and trigonometry.
//!
//! `fx_sqrt` is an exact integer square root of the scaled radicand. The
//! sine, cosine and two-argument arctangent reduce their argument to a
//! quarter-period and evaluate a truncated Taylor polynomial there; each
//! executable function is pinned to a spec mirror, so the results are a
//! deterministic function of the raw inputs.

use vstd::prelude::*;

use crate::fixed::Fx;
use crate::fixed::SCALE;
use crate::fixed::fx_add_spec;
use crate::fixed::fx_div_spec;
use crate::fixed::fx_divi_spec;
use crate::fixed::fx_mul_spec;
use crate::fixed::fx_neg_spec;
use crate::fixed::fx_sub_spec;
use crate::fixed::iabs;

verus! {

/// One half turn, `pi` at `SCALE`.
pub const PI_FX: i64 = 3_141_592_654;

/// A quarter turn, `pi / 2` at `SCALE`.
pub const HALF_PI_FX: i64 = 1_570_796_327;

/// Three quarter turns, `3 * pi / 2` at `SCALE`.
pub const THREE_HALF_PI_FX: i64 = 4_712_388_980;

/// A full turn, `2 * pi` at `SCALE`.
pub const TWO_PI_FX: i64 = 6_283_185_307;

/// An eighth turn, `pi / 4` at `SCALE`.
pub const QUARTER_PI_FX: i64 = 785_398_163;

/// `tan(pi / 8)` at `SCALE`, the split point of the arctangent reduction.
pub const TAN_EIGHTH_PI_FX: i64 = 414_213_562;

/// The integer square root, `floor(sqrt(n))`, defined by counting up.
pub open spec fn isqrt_spec(n: nat) -> nat
    decreases n,
{
    if n == 0 {
        0
    } else {
        let p = isqrt_spec((n - 1) as nat);
        if (p + 1) * (p + 1) <= n {
            (p + 1) as nat
        } else {
            p
        }
    }
}

/// `isqrt_spec(n)` is the unique value whose square brackets `n`.
pub proof fn lemma_isqrt_spec_bracket(n: nat)
    ensures
        isqrt_spec(n) * isqrt_spec(n) <= n,
        n < (isqrt_spec(n) + 1) * (isqrt_spec(n) + 1),
    decreases n,
{
    if n == 0 {
        assert(isqrt_spec(0nat) == 0);
        assert(0nat < (0nat + 1) * (0nat + 1)) by (nonlinear_arith);
    } else {
        lemma_isqrt_spec_bracket((n - 1) as nat);
        let p = isqrt_spec((n - 1) as nat);
        if (p + 1) * (p + 1) <= n {
            assert(isqrt_spec(n) == p + 1);
            assert(n < (p + 1 + 1) * (p + 1 + 1)) by (nonlinear_arith)
                requires
                    n <= (p + 1) * (p + 1),
            ;
        } else {
            assert(isqrt_spec(n) == p);
        }
    }
}

pub proof fn lemma_isqrt_unique(n: nat, r: nat)
    requires
        r * r <= n,
        n < (r + 1) * (r + 1),
    ensures
        r == isqrt_spec(n),
{
    lemma_isqrt_spec_bracket(n);
    let s = isqrt_spec(n);
    if r < s {
        assert((r + 1) * (r + 1) <= s * s) by (nonlinear_arith)
            requires
                r + 1 <= s,
        ;
    }
    if s < r {
        assert((s + 1) * (s + 1) <= r * r) by (nonlinear_arith)
            requires
                s + 1 <= r,
        ;
    }
}

/// Integer square root by bisection over the result.
fn isqrt_u128(n: u128) -> (r: u128)
    ensures
        r as nat == isqrt_spec(n as nat),
        r * r <= n,
        n < (r + 1) * (r + 1),
{
    if n == 0 {
        proof {
            assert(isqrt_spec(0nat) == 0);
            assert(0nat * 0nat == 0 && 0nat < (0nat + 1) * (0nat + 1)) by (nonlinear_arith);
        }
        return 0;
    }
    let mut lo: u128 = 0;
    let mut hi: u128 = 0x1_0000_0000_0000_0000u128;
    proof {
        assert((n as int) < (hi as int) * (hi as int)) by (nonlinear_arith)
            requires
                n as int <= u128::MAX as int,
                hi as int == 0x1_0000_0000_0000_0000,
        ;
    }
    while lo + 1 < hi
        invariant
            (lo as int) * (lo as int) <= n as int,
            (n as int) < (hi as int) * (hi as int),
            lo < hi,
            hi <= 0x1_0000_0000_0000_0000u128,
        decreases hi - lo,
    {
        let mid: u128 = lo + (hi - lo) / 2;
        proof {
            assert((mid as int) * (mid as int) <= u128::MAX as int) by (nonlinear_arith)
                requires
                    (mid as int) < 0x1_0000_0000_0000_0000,
            ;
        }
        let sq: u128 = mid * mid;
        if sq <= n {
            lo = mid;
        } else {
            hi = mid;
        }
    }
    proof {
        lemma_isqrt_unique(n as nat, lo as nat);
    }
    lo
}

/// Square root of a fixed-point value; non-positive inputs yield zero.
pub open spec fn fx_sqrt_spec(x: int) -> int {
    if x <= 0 {
        0
    } else {
        isqrt_spec((x * (SCALE as int)) as nat) as int
    }
}

pub fn fx_sqrt(x: Fx) -> (r: Fx)
    ensures
        r@ == fx_sqrt_spec(x@),
        r@ >= 0,
{
    if x.raw <= 0 {
        Fx { raw: 0 }
    } else {
        let v: u128 = (x.raw as u128) * (SCALE as u128);
        let r = isqrt_u128(v);
        proof {
            assert((r as int) < 0x8000_0000_0000_0000) by (nonlinear_arith)
                requires
                    (r as int) * (r as int) <= v as int,
                    (v as int) < 0x2000_0000_0000_0000_0000_0000,
            ;
        }
        Fx { raw: r as i64 }
    }
}

/// Taylor polynomial for the sine on a quarter period:
/// `x - x^3/6 + x^5/120 - x^7/5040 + x^9/362880`.
pub open spec fn sin_poly_spec(x: int) -> int {
    let x2 = fx_mul_spec(x, x);
    let x3 = fx_mul_spec(x2, x);
    let x5 = fx_mul_spec(x3, x2);
    let x7 = fx_mul_spec(x5, x2);
    let x9 = fx_mul_spec(x7, x2);
    fx_add_spec(
        fx_sub_spec(
            fx_add_spec(fx_sub_spec(x, fx_divi_spec(x3, 6)), fx_divi_spec(x5, 120)),
            fx_divi_spec(x7, 5040),
        ),
        fx_divi_spec(x9, 362880),
    )
}

fn sin_poly(x: Fx) -> (r: Fx)
    ensures
        r@ == sin_poly_spec(x@),
{
    let x2 = x.mul(x);
    let x3 = x2.mul(x);
    let x5 = x3.mul(x2);
    let x7 = x5.mul(x2);
    let x9 = x7.mul(x2);
    x.sub(x3.divi(6)).add(x5.divi(120)).sub(x7.divi(5040)).add(x9.divi(362880))
}

/// Reduction of an angle to `[0, 2*pi)`.
pub open spec fn reduce_angle_spec(x: int) -> int {
    let m = iabs(x) % (TWO_PI_FX as int);
    if x < 0 && m != 0 {
        TWO_PI_FX - m
    } else {
        m
    }
}

fn reduce_angle(x: Fx) -> (m: i64)
    ensures
        m as int == reduce_angle_spec(x@),
        0 <= m < TWO_PI_FX,
{
    let a: u64 = if x.raw >= 0 {
        x.raw as u64
    } else {
        let w: i128 = -(x.raw as i128);
        w as u64
    };
    let m0: u64 = a % (TWO_PI_FX as u64);
    let m: u64 = if x.raw < 0 && m0 != 0 {
        (TWO_PI_FX as u64) - m0
    } else {
        m0
    };
    m as i64
}

/// Sine: reduce to `[0, 2*pi)`, fold onto a quarter period, apply the
/// polynomial with the matching sign.
pub open spec fn fx_sin_spec(x: int) -> int {
    let m = reduce_angle_spec(x);
    if m < HALF_PI_FX {
        sin_poly_spec(m)
    } else if m < PI_FX {
        sin_poly_spec(PI_FX - m)
    } else if m < THREE_HALF_PI_FX {
        fx_neg_spec(sin_poly_spec(m - PI_FX))
    } else {
        fx_neg_spec(sin_poly_spec(TWO_PI_FX - m))
    }
}

pub fn fx_sin(x: Fx) -> (r: Fx)
    ensures
        r@ == fx_sin_spec(x@),
{
    let m = reduce_angle(x);
    if m < HALF_PI_FX {
        sin_poly(Fx { raw: m })
    } else if m < PI_FX {
        sin_poly(Fx { raw: PI_FX - m })
    } else if m < THREE_HALF_PI_FX {
        sin_poly(Fx { raw: m - PI_FX }).neg()
    } else {
        sin_poly(Fx { raw: TWO_PI_FX - m }).neg()
    }
}

/// Cosine as the sine shifted by a quarter turn.
pub open spec fn fx_cos_spec(x: int) -> int {
    fx_sin_spec(fx_add_spec(x, HALF_PI_FX as int))
}

pub fn fx_cos(x: Fx) -> (r: Fx)
    ensures
        r@ == fx_cos_spec(x@),
{
    fx_sin(x.add(Fx { raw: HALF_PI_FX }))
}

/// Taylor polynomial for the arctangent near zero:
/// `t - t^3/3 + t^5/5 - t^7/7 + t^9/9`.
pub open spec fn atan_poly_spec(t: int) -> int {
    let t2 = fx_mul_spec(t, t);
    let t3 = fx_mul_spec(t2, t);
    let t5 = fx_mul_spec(t3, t2);
    let t7 = fx_mul_spec(t5, t2);
    let t9 = fx_mul_spec(t7, t2);
    fx_add_spec(
        fx_sub_spec(
            fx_add_spec(fx_sub_spec(t, fx_divi_spec(t3, 3)), fx_divi_spec(t5, 5)),
            fx_divi_spec(t7, 7),
        ),
        fx_divi_spec(t9, 9),
    )
}

fn atan_poly(t: Fx) -> (r: Fx)
    ensures
        r@ == atan_poly_spec(t@),
{
    let t2 = t.mul(t);
    let t3 = t2.mul(t);
    let t5 = t3.mul(t2);
    let t7 = t5.mul(t2);
    let t9 = t7.mul(t2);
    t.sub(t3.divi(3)).add(t5.divi(5)).sub(t7.divi(7)).add(t9.divi(9))
}

/// Arctangent on `[0, 1]`, split at `tan(pi / 8)` through the identity
/// `atan(z) = pi/4 + atan((z - 1) / (z + 1))`.
pub open spec fn atan_unit_spec(z: int) -> int {
    if z <= TAN_EIGHTH_PI_FX {
        atan_poly_spec(z)
    } else {
        fx_add_spec(
            QUARTER_PI_FX as int,
            atan_poly_spec(fx_div_spec(fx_sub_spec(z, SCALE as int), fx_add_spec(z, SCALE as int))),
        )
    }
}

fn atan_unit(z: Fx) -> (r: Fx)
    ensures
        r@ == atan_unit_spec(z@),
{
    if z.raw <= TAN_EIGHTH_PI_FX {
        atan_poly(z)
    } else {
        let one = Fx { raw: SCALE };
        Fx { raw: QUARTER_PI_FX }.add(atan_poly(z.sub(one).div(z.add(one))))
    }
}

/// The quotient of the two magnitudes, clamped onto the unit interval.
pub open spec fn atan2_ratio_spec(num: int, den: int) -> int {
    let z = fx_div_spec(num, den);
    if z > SCALE {
        SCALE as int
    } else {
        z
    }
}

/// Two-argument arctangent in `(-pi, pi]`, with `fx_atan2_spec(0, 0) == 0`.
pub open spec fn fx_atan2_spec(y: int, x: int) -> int {
    if y == 0 && x == 0 {
        0
    } else {
        let ax = crate::fixed::sat64(iabs(x));
        let ay = crate::fixed::sat64(iabs(y));
        let base = if ay <= ax {
            atan_unit_spec(atan2_ratio_spec(ay, ax))
        } else {
            fx_sub_spec(HALF_PI_FX as int, atan_unit_spec(atan2_ratio_spec(ax, ay)))
        };
        let r0 = if x >= 0 {
            base
        } else {
            fx_sub_spec(PI_FX as int, base)
        };
        if y < 0 {
            fx_neg_spec(r0)
        } else {
            r0
        }
    }
}

fn atan2_ratio(num: Fx, den: Fx) -> (r: Fx)
    ensures
        r@ == atan2_ratio_spec(num@, den@),
{
    let z = num.div(den);
    if z.raw > SCALE {
        Fx { raw: SCALE }
    } else {
        z
    }
}

pub fn fx_atan2(y: Fx, x: Fx) -> (r: Fx)
    ensures
        r@ == fx_atan2_spec(y@, x@),
{
    if y.raw == 0 && x.raw == 0 {
        return Fx { raw: 0 };
    }
    let ax = x.abs();
    let ay = y.abs();
    let base = if ay.raw <= ax.raw {
        atan_unit(atan2_ratio(ay, ax))
    } else {
        Fx { raw: HALF_PI_FX }.sub(atan_unit(atan2_ratio(ax, ay)))
    };
    let r0 = if x.raw >= 0 {
        base
    } else {
        Fx { raw: PI_FX }.sub(base)
    };
    if y.raw < 0 {
        r0.neg()
    } else {
        r0
    }
}

} // verus!
