//! Saturating fixed-point scalars.
//!
//! A value is stored as a signed 64-bit integer `raw` and denotes the real
//! number `raw / SCALE`. Addition, subtraction, negation, multiplication and
//! division saturate at the `i64` range instead of wrapping or panicking, and
//! a division by zero yields zero; both policies are stated exactly in the
//! spec mirrors below, so every arithmetic result is pinned down.

use vstd::prelude::*;

verus! {

/// Number of raw units per whole unit: nine fractional decimal digits.
pub const SCALE: i64 = 1_000_000_000;

/// A fixed-point scalar: `raw / SCALE` in real terms.
#[derive(Clone, Copy, Debug, PartialEq, Eq, Structural)]
pub struct Fx {
    pub raw: i64,
}

impl View for Fx {
    type V = int;

    open spec fn view(&self) -> int {
        self.raw as int
    }
}

/// Magnitude of a mathematical integer.
pub open spec fn iabs(a: int) -> int {
    if a < 0 {
        -a
    } else {
        a
    }
}

/// Saturation to the `i64` range.
pub open spec fn sat64(v: int) -> int {
    if v > i64::MAX {
        i64::MAX as int
    } else if v < i64::MIN {
        i64::MIN as int
    } else {
        v
    }
}

/// Division that truncates toward zero (the rounding of a hardware division),
/// defined for `d != 0`.
pub open spec fn tdiv(a: int, d: int) -> int {
    if (a < 0) != (d < 0) {
        -(iabs(a) / iabs(d))
    } else {
        iabs(a) / iabs(d)
    }
}

pub open spec fn fx_add_spec(a: int, b: int) -> int {
    sat64(a + b)
}

pub open spec fn fx_sub_spec(a: int, b: int) -> int {
    sat64(a - b)
}

pub open spec fn fx_neg_spec(a: int) -> int {
    sat64(-a)
}

pub open spec fn fx_mul_spec(a: int, b: int) -> int {
    sat64(tdiv(a * b, SCALE as int))
}

pub open spec fn fx_div_spec(a: int, b: int) -> int {
    if b == 0 {
        0
    } else {
        sat64(tdiv(a * (SCALE as int), b))
    }
}

/// Division of a raw value by a plain positive integer (no rescaling).
pub open spec fn fx_divi_spec(a: int, d: int) -> int {
    if d <= 0 {
        0
    } else {
        sat64(tdiv(a, d))
    }
}

/// Relates the sign and magnitude of a product to those of its factors.
proof fn lemma_mul_sign_abs(a: int, b: int, ma: int, mb: int)
    by (nonlinear_arith)
    requires
        ma == if a < 0 { -a } else { a },
        mb == if b < 0 { -b } else { b },
    ensures
        (if a * b < 0 { -(a * b) } else { a * b }) == ma * mb,
        ((a < 0) != (b < 0)) ==> a * b <= 0,
        ((a < 0) == (b < 0)) ==> a * b >= 0,
{
}

/// Clamps a wide intermediate back into the `i64` range.
fn clamp_i64(v: i128) -> (r: i64)
    ensures
        r as int == sat64(v as int),
{
    if v > i64::MAX as i128 {
        i64::MAX
    } else if v < i64::MIN as i128 {
        i64::MIN
    } else {
        v as i64
    }
}

/// Magnitude of an `i64`, exact even for `i64::MIN`.
fn mag64(x: i64) -> (m: u64)
    ensures
        m as int == iabs(x as int),
{
    if x >= 0 {
        x as u64
    } else {
        let w: i128 = -(x as i128);
        w as u64
    }
}

/// Rebuilds a saturated signed value from a sign and a wide magnitude.
fn sign_mag(neg: bool, q: u128) -> (r: Fx)
    ensures
        r@ == sat64(if neg { -(q as int) } else { q as int }),
{
    if neg {
        if q >= 9_223_372_036_854_775_808u128 {
            Fx { raw: i64::MIN }
        } else {
            Fx { raw: -(q as i64) }
        }
    } else {
        if q > i64::MAX as u128 {
            Fx { raw: i64::MAX }
        } else {
            Fx { raw: q as i64 }
        }
    }
}

impl Fx {
    /// The value `raw / SCALE`.
    pub fn from_raw(raw: i64) -> (r: Fx)
        ensures
            r@ == raw as int,
    {
        Fx { raw }
    }

    /// A whole number of units.
    pub fn from_i32(v: i32) -> (r: Fx)
        ensures
            r@ == v as int * SCALE as int,
    {
        Fx { raw: (v as i64) * SCALE }
    }

    /// A whole number of units, saturating for counts too large to represent.
    pub fn from_usize(v: usize) -> (r: Fx)
        ensures
            r@ == sat64(v as int * SCALE as int),
    {
        if v as u64 > 9_223_372_036u64 {
            proof {
                assert(v as int * SCALE as int > i64::MAX) by (nonlinear_arith)
                    requires
                        v as int >= 9_223_372_037,
                ;
            }
            Fx { raw: i64::MAX }
        } else {
            proof {
                assert(v as int * SCALE as int <= 9_223_372_036 * 1_000_000_000) by (nonlinear_arith)
                    requires
                        v as int <= 9_223_372_036,
                ;
            }
            Fx { raw: (v as i64) * SCALE }
        }
    }

    pub fn add(self, o: Fx) -> (r: Fx)
        ensures
            r@ == fx_add_spec(self@, o@),
    {
        let s: i128 = (self.raw as i128) + (o.raw as i128);
        Fx { raw: clamp_i64(s) }
    }

    pub fn sub(self, o: Fx) -> (r: Fx)
        ensures
            r@ == fx_sub_spec(self@, o@),
    {
        let s: i128 = (self.raw as i128) - (o.raw as i128);
        Fx { raw: clamp_i64(s) }
    }

    pub fn neg(self) -> (r: Fx)
        ensures
            r@ == fx_neg_spec(self@),
    {
        if self.raw == i64::MIN {
            Fx { raw: i64::MAX }
        } else {
            Fx { raw: -self.raw }
        }
    }

    /// Saturated magnitude.
    pub fn abs(self) -> (r: Fx)
        ensures
            r@ == sat64(iabs(self@)),
    {
        if self.raw < 0 {
            self.neg()
        } else {
            self
        }
    }

    pub fn mul(self, o: Fx) -> (r: Fx)
        ensures
            r@ == fx_mul_spec(self@, o@),
    {
        let neg: bool = (self.raw < 0) != (o.raw < 0);
        let ma: u64 = mag64(self.raw);
        let mb: u64 = mag64(o.raw);
        proof {
            lemma_mul_sign_abs(self.raw as int, o.raw as int, ma as int, mb as int);
            assert(ma as int * mb as int <= u128::MAX as int) by (nonlinear_arith)
                requires
                    ma as int <= u64::MAX as int,
                    mb as int <= u64::MAX as int,
            ;
        }
        let p: u128 = (ma as u128) * (mb as u128);
        let q: u128 = p / (SCALE as u128);
        sign_mag(neg, q)
    }

    pub fn div(self, o: Fx) -> (r: Fx)
        ensures
            r@ == fx_div_spec(self@, o@),
    {
        if o.raw == 0 {
            return Fx { raw: 0 };
        }
        let neg: bool = (self.raw < 0) != (o.raw < 0);
        let ma: u64 = mag64(self.raw);
        let mb: u64 = mag64(o.raw);
        proof {
            lemma_mul_sign_abs(self.raw as int, SCALE as int, ma as int, SCALE as int);
        }
        let num: u128 = (ma as u128) * (SCALE as u128);
        let q: u128 = num / (mb as u128);
        sign_mag(neg, q)
    }

    /// Divides the raw value by a plain integer, truncating toward zero;
    /// a non-positive divisor yields zero.
    pub fn divi(self, d: i64) -> (r: Fx)
        ensures
            r@ == fx_divi_spec(self@, d as int),
    {
        if d <= 0 {
            return Fx { raw: 0 };
        }
        let neg: bool = self.raw < 0;
        let m: u64 = mag64(self.raw);
        let q: u64 = m / (d as u64);
        sign_mag(neg, q as u128)
    }
}

} // verus!
