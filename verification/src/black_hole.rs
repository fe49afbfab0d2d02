//! The gravitating source: a static, non-rotating point mass.
//!
//! Masses are measured in units of `10^26` kilograms. The Schwarzschild
//! radius `r_s = 2 * G * m / c^2` then becomes a single fixed-point product
//! with the precomputed constant [`RS_PER_MASS_UNIT`], and is recomputed
//! every time the mass changes so it is never read stale.

use vstd::prelude::*;

use crate::fixed::Fx;
use crate::fixed::fx_mul_spec;
use crate::ray::Point;

verus! {

/// Schwarzschild radius per mass unit: `2 * G / c^2 * 10^26`, at `SCALE`,
/// with `G = 6.6743e-11 m^3 kg^-1 s^-2` and `c = 299792458 m/s`.
pub const RS_PER_MASS_UNIT: i64 = 148_523_205;

/// The reference mass, `3 * 10^28` kilograms, as a raw fixed-point value
/// (300 mass units).
pub const BH_MASS: i64 = 300_000_000_000;

/// The Schwarzschild radius that belongs to a mass.
pub open spec fn rs_of_mass(m: int) -> int {
    fx_mul_spec(m, RS_PER_MASS_UNIT as int)
}

/// The Schwarzschild radius of the reference mass [`BH_MASS`].
pub fn calculate_schwarzschild_radius() -> (r: Fx)
    ensures
        r@ == rs_of_mass(BH_MASS as int),
{
    Fx { raw: BH_MASS }.mul(Fx { raw: RS_PER_MASS_UNIT })
}

/// A black hole: fixed position, runtime-adjustable mass, and the derived
/// event-horizon radius.
#[derive(Clone, Copy, Debug, PartialEq, Eq, Structural)]
pub struct BlackHole {
    pub position: Point,
    pub mass: Fx,
    pub r_s: Fx,
}

/// The derived radius is the current function of the mass.
pub open spec fn bh_wf(bh: BlackHole) -> bool {
    bh.r_s@ == rs_of_mass(bh.mass@)
}

impl BlackHole {
    pub fn new(x: Fx, y: Fx, mass: Fx) -> (bh: BlackHole)
        ensures
            bh.position.x == x,
            bh.position.y == y,
            bh.mass == mass,
            bh_wf(bh),
    {
        let mut bh = BlackHole { position: Point { x, y }, mass, r_s: Fx { raw: 0 } };
        bh.calc_r_s();
        bh
    }

    /// Recomputes the Schwarzschild radius from the current mass.
    pub fn calc_r_s(&mut self)
        ensures
            final(self).position == old(self).position,
            final(self).mass == old(self).mass,
            bh_wf(*final(self)),
    {
        self.r_s = self.mass.mul(Fx { raw: RS_PER_MASS_UNIT });
    }

    /// Replaces the mass and immediately re-derives the radius.
    pub fn set_mass(&mut self, mass: Fx)
        ensures
            final(self).position == old(self).position,
            final(self).mass == mass,
            bh_wf(*final(self)),
    {
        self.mass = mass;
        self.calc_r_s();
    }
}

} // verus!
