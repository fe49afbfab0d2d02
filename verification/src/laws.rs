//! Global properties of the engine, each proved from the public contracts.

use vstd::prelude::*;

use vstd::arithmetic::div_mod::lemma_div_of0;
use vstd::arithmetic::mul::lemma_mul_basics;

use crate::black_hole::BlackHole;
use crate::fixed::fx_add_spec;
use crate::fixed::fx_mul_spec;
use crate::ray::Ray;
use crate::ray::DT;
use crate::ray::energy_term_spec;
use crate::ray::euler_dphi_spec;
use crate::ray::euler_dr_spec;
use crate::ray::euler_phi_spec;
use crate::ray::euler_r_spec;
use crate::ray::is_step;
use crate::ray::polar_phi_spec;
use crate::ray::polar_r_spec;
use crate::ray::ray_captured;
use crate::ray::rhs_d2phi_spec;
use crate::ray::rhs_d2r_spec;
use crate::fixed::Fx;
use crate::simulation::spawn_ok;
use crate::trig::fx_atan2_spec;

verus! {

/// Once a ray is disabled, a step leaves its entire state unchanged: the
/// terminal flag is sticky and freezes position, polar state, energy and
/// trail alike.
pub proof fn lemma_disabled_step_frozen(pre: Ray, post: Ray, bh: BlackHole, w: Fx, h: Fx)
    requires
        is_step(pre, post, bh, w, h),
        pre.disabled,
    ensures
        post == pre,
{
}

/// The radial energy factor is a pure function of `(r, e, r_s)`: two
/// evaluations from the same state are identical.
pub proof fn lemma_energy_term_pure(r: int, e: int, rs: int, first: int, second: int)
    requires
        first == energy_term_spec(r, e, rs),
        second == energy_term_spec(r, e, rs),
    ensures
        first == second,
{
}

/// The two-argument arctangent always lands in the representable range.
proof fn lemma_atan2_bounded(y: int, x: int)
    ensures
        i64::MIN <= fx_atan2_spec(y, x) <= i64::MAX,
{
}

/// With a zero-mass hole (`r_s == 0`) the geodesic right-hand side of a ray
/// with no angular motion vanishes: the radial velocity is conserved
/// exactly, the angle and angular velocity stay put, and the radius advances
/// by exactly `dr * DT` — straight-line motion.
pub proof fn lemma_flat_space_radial(r: int, phi: int, dr: int, e: int)
    requires
        i64::MIN <= dr <= i64::MAX,
        i64::MIN <= phi <= i64::MAX,
    ensures
        rhs_d2phi_spec(r, dr, 0) == 0,
        rhs_d2r_spec(r, dr, 0, e, 0) == 0,
        euler_dr_spec(r, dr, 0, e, 0) == dr,
        euler_dphi_spec(r, dr, 0) == 0,
        euler_r_spec(r, dr, 0, e, 0) == fx_add_spec(r, fx_mul_spec(dr, DT as int)),
        euler_phi_spec(r, phi, dr, 0) == phi,
{
    lemma_mul_basics(dr);
    if r != 0 {
        lemma_div_of0(if r < 0 { -r } else { r });
    }
    let two_r2 = fx_mul_spec(crate::ray::TWO_FX as int, fx_mul_spec(r, r));
    if two_r2 != 0 {
        lemma_div_of0(if two_r2 < 0 { -two_r2 } else { two_r2 });
    }
    let en = energy_term_spec(r, e, 0);
    lemma_mul_basics(en);
    let f = crate::ray::metric_f_spec(r, 0);
    let den2 = fx_mul_spec(two_r2, f);
    if den2 != 0 {
        lemma_div_of0(if den2 < 0 { -den2 } else { den2 });
    }
    let drdr = fx_mul_spec(dr, dr);
    lemma_mul_basics(drdr);
    let rsub = crate::fixed::fx_sub_spec(r, 0);
    lemma_mul_basics(rsub);
}

/// A full surviving step in flat space keeps a radial ray radial: `dphi`
/// stays exactly zero, `dr` is carried over unchanged, the angle is exactly
/// the one read from the Cartesian position, and the radius advances by
/// exactly `dr * DT`.
pub proof fn lemma_flat_space_step_stays_radial(
    pre: Ray,
    post: Ray,
    bh: BlackHole,
    w: Fx,
    h: Fx,
)
    requires
        is_step(pre, post, bh, w, h),
        !pre.disabled,
        !ray_captured(pre, bh, w, h),
        bh.r_s@ == 0,
        pre.dphi@ == 0,
    ensures
        !post.disabled,
        post.dphi@ == 0,
        post.dr@ == pre.dr@,
        post.phi@ == polar_phi_spec(pre.x@, pre.y@, bh.position.x@, bh.position.y@),
        post.r@ == fx_add_spec(
            polar_r_spec(pre.x@, pre.y@, bh.position.x@, bh.position.y@),
            fx_mul_spec(pre.dr@, DT as int),
        ),
{
    let cx = bh.position.x@;
    let cy = bh.position.y@;
    let dx = crate::fixed::fx_sub_spec(pre.x@, cx);
    let dy = crate::fixed::fx_sub_spec(pre.y@, cy);
    lemma_atan2_bounded(dy, dx);
    let r1 = polar_r_spec(pre.x@, pre.y@, cx, cy);
    let phi1 = polar_phi_spec(pre.x@, pre.y@, cx, cy);
    lemma_flat_space_radial(r1, phi1, pre.dr@, pre.e@);
}

/// With a zero-mass hole the horizon has zero radius, so a ray inside the
/// bounding region is never captured: only leaving the bounds can disable
/// it.
pub proof fn lemma_zero_mass_never_captured(pre: Ray, bh: BlackHole, w: Fx, h: Fx)
    requires
        bh.r_s@ == 0,
        pre.x@ <= w@,
        pre.y@ <= h@,
    ensures
        !ray_captured(pre, bh, w, h),
{
}

/// A live, in-bounds ray stepped under a zero-mass hole stays live.
pub proof fn lemma_zero_mass_step_keeps_ray(pre: Ray, post: Ray, bh: BlackHole, w: Fx, h: Fx)
    requires
        is_step(pre, post, bh, w, h),
        !pre.disabled,
        bh.r_s@ == 0,
        pre.x@ <= w@,
        pre.y@ <= h@,
    ensures
        !post.disabled,
{
    lemma_zero_mass_never_captured(pre, bh, w, h);
}

/// The trail policy is bounded: appending to a trail at or under the cap
/// keeps it at or under the cap, so a trail that starts empty can never
/// outgrow [`crate::ray::TRAIL_CAP`].
pub proof fn lemma_trail_stays_bounded(t: Seq<crate::ray::Point>, p: crate::ray::Point)
    requires
        t.len() <= crate::ray::TRAIL_CAP,
    ensures
        crate::ray::trail_push_spec(t, p).len() <= crate::ray::TRAIL_CAP,
{
}

/// The spawn formula is deterministic: two rays spawned for the same index,
/// population size and black hole agree in every observable field, so two
/// consecutive `reset` calls yield the same population both times.
pub proof fn lemma_respawn_deterministic(a: Ray, b: Ray, i: int, n: int, bh: BlackHole)
    requires
        spawn_ok(a, i, n, bh),
        spawn_ok(b, i, n, bh),
    ensures
        a.x == b.x,
        a.y == b.y,
        a.r == b.r,
        a.phi == b.phi,
        a.dr == b.dr,
        a.dphi == b.dphi,
        a.e == b.e,
        a.disabled == b.disabled,
        a.trail@ == b.trail@,
{
}

} // verus!
