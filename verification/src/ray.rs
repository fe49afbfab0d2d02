//! Per-ray state and the geodesic integrator.
//!
//! A ray carries its Cartesian position, its polar state relative to the
//! black hole (`r`, `phi` and their derivatives with respect to the affine
//! parameter), the conserved energy constant `e` fixed at initialization, a
//! terminal `disabled` flag, and a bounded trail of past positions.
//!
//! One `step` runs in a fixed order: a disabled ray is
//! frozen; otherwise the polar state is re-derived from the Cartesian
//! position, the survival check runs *before* any division-bearing
//! computation, and only a surviving ray is advanced by one explicit Euler
//! increment of the Schwarzschild null-geodesic equations and reprojected to
//! Cartesian coordinates.

use vstd::prelude::*;

use crate::black_hole::BlackHole;
use crate::fixed::Fx;
use crate::fixed::SCALE;
use crate::fixed::fx_add_spec;
use crate::fixed::fx_div_spec;
use crate::fixed::fx_mul_spec;
use crate::fixed::fx_neg_spec;
use crate::fixed::fx_sub_spec;
use crate::trig::fx_atan2;
use crate::trig::fx_atan2_spec;
use crate::trig::fx_cos;
use crate::trig::fx_cos_spec;
use crate::trig::fx_sin;
use crate::trig::fx_sin_spec;
use crate::trig::fx_sqrt;
use crate::trig::fx_sqrt_spec;

verus! {

/// The fixed integration increment of the affine parameter, `0.1` at `SCALE`.
pub const DT: i64 = 100_000_000;

/// Twice the unit, `2.0` at `SCALE`.
pub const TWO_FX: i64 = 2_000_000_000;

/// Minus twice the unit, `-2.0` at `SCALE`.
pub const NEG_TWO_FX: i64 = -2_000_000_000;

/// Most trail points a ray keeps; the oldest point is evicted on overflow.
pub const TRAIL_CAP: usize = 200;

/// A Cartesian point.
#[derive(Clone, Copy, Debug, PartialEq, Eq, Structural)]
pub struct Point {
    pub x: Fx,
    pub y: Fx,
}

/// The radial distance from `(cx, cy)` to `(x, y)`.
pub open spec fn polar_r_spec(x: int, y: int, cx: int, cy: int) -> int {
    let dx = fx_sub_spec(x, cx);
    let dy = fx_sub_spec(y, cy);
    fx_sqrt_spec(fx_add_spec(fx_mul_spec(dx, dx), fx_mul_spec(dy, dy)))
}

/// The angle of `(x, y)` as seen from `(cx, cy)`.
pub open spec fn polar_phi_spec(x: int, y: int, cx: int, cy: int) -> int {
    let dx = fx_sub_spec(x, cx);
    let dy = fx_sub_spec(y, cy);
    fx_atan2_spec(dy, dx)
}

/// The Schwarzschild metric factor `f = 1 - r_s / r`.
pub open spec fn metric_f_spec(r: int, rs: int) -> int {
    fx_sub_spec(SCALE as int, fx_div_spec(rs, r))
}

/// The radial energy factor `f * (e / f)^2` of the geodesic equation; a pure
/// function of `(r, e, r_s)`.
pub open spec fn energy_term_spec(r: int, e: int, rs: int) -> int {
    let f = metric_f_spec(r, rs);
    let dt_dl = fx_div_spec(e, f);
    fx_mul_spec(f, fx_mul_spec(dt_dl, dt_dl))
}

/// The radial energy factor, computed exactly as [`energy_term_spec`] says.
pub fn radial_energy_term(r: Fx, e: Fx, rs: Fx) -> (t: Fx)
    ensures
        t@ == energy_term_spec(r@, e@, rs@),
{
    let f = Fx { raw: SCALE }.sub(rs.div(r));
    let dt_dl = e.div(f);
    f.mul(dt_dl.mul(dt_dl))
}

/// Second radial derivative `d^2 r / d lambda^2` of the null geodesic:
/// `-(r_s/(2 r^2)) * f * (e/f)^2 + (r_s/(2 r^2 f)) * dr^2 + (r - r_s) * dphi^2`.
pub open spec fn rhs_d2r_spec(r: int, dr: int, dphi: int, e: int, rs: int) -> int {
    let f = metric_f_spec(r, rs);
    let two_r2 = fx_mul_spec(TWO_FX as int, fx_mul_spec(r, r));
    let term1 = fx_neg_spec(fx_mul_spec(fx_div_spec(rs, two_r2), energy_term_spec(r, e, rs)));
    let term2 = fx_mul_spec(fx_div_spec(rs, fx_mul_spec(two_r2, f)), fx_mul_spec(dr, dr));
    let term3 = fx_mul_spec(fx_sub_spec(r, rs), fx_mul_spec(dphi, dphi));
    fx_add_spec(fx_add_spec(term1, term2), term3)
}

/// Second angular derivative `d^2 phi / d lambda^2 = -2 * dr * dphi / r`.
pub open spec fn rhs_d2phi_spec(r: int, dr: int, dphi: int) -> int {
    fx_div_spec(fx_mul_spec(NEG_TWO_FX as int, fx_mul_spec(dr, dphi)), r)
}

/// The four-component derivative vector of a ray's polar state:
/// `(dr/dl, dphi/dl, d^2r/dl^2, d^2phi/dl^2)`.
pub fn geodesic_rhs(ray: &Ray, rs: Fx) -> (rhs: (Fx, Fx, Fx, Fx))
    ensures
        rhs.0 == ray.dr,
        rhs.1 == ray.dphi,
        rhs.2@ == rhs_d2r_spec(ray.r@, ray.dr@, ray.dphi@, ray.e@, rs@),
        rhs.3@ == rhs_d2phi_spec(ray.r@, ray.dr@, ray.dphi@),
{
    let r = ray.r;
    let dr = ray.dr;
    let dphi = ray.dphi;

    let f = Fx { raw: SCALE }.sub(rs.div(r));
    let two_r2 = Fx { raw: TWO_FX }.mul(r.mul(r));
    let term1 = rs.div(two_r2).mul(radial_energy_term(r, ray.e, rs)).neg();
    let term2 = rs.div(two_r2.mul(f)).mul(dr.mul(dr));
    let term3 = r.sub(rs).mul(dphi.mul(dphi));
    let d2r = term1.add(term2).add(term3);

    let d2phi = Fx { raw: NEG_TWO_FX }.mul(dr.mul(dphi)).div(r);

    (dr, dphi, d2r, d2phi)
}

/// One explicit Euler increment, applied in a fixed order: the
/// derivatives first, then the positions with the *updated* derivatives.
pub open spec fn euler_dr_spec(r: int, dr: int, dphi: int, e: int, rs: int) -> int {
    fx_add_spec(dr, fx_mul_spec(rhs_d2r_spec(r, dr, dphi, e, rs), DT as int))
}

pub open spec fn euler_dphi_spec(r: int, dr: int, dphi: int) -> int {
    fx_add_spec(dphi, fx_mul_spec(rhs_d2phi_spec(r, dr, dphi), DT as int))
}

pub open spec fn euler_r_spec(r: int, dr: int, dphi: int, e: int, rs: int) -> int {
    fx_add_spec(r, fx_mul_spec(euler_dr_spec(r, dr, dphi, e, rs), DT as int))
}

pub open spec fn euler_phi_spec(r: int, phi: int, dr: int, dphi: int) -> int {
    fx_add_spec(phi, fx_mul_spec(euler_dphi_spec(r, dr, dphi), DT as int))
}

/// Appending to a trail that keeps at most [`TRAIL_CAP`] points.
pub open spec fn trail_push_spec(t: Seq<Point>, p: Point) -> Seq<Point> {
    if t.len() >= TRAIL_CAP {
        t.subrange(1, t.len() as int).push(p)
    } else {
        t.push(p)
    }
}

/// A light ray.
#[derive(Clone, Debug)]
pub struct Ray {
    pub x: Fx,
    pub y: Fx,
    pub r: Fx,
    pub phi: Fx,
    pub dr: Fx,
    pub dphi: Fx,
    pub trail: Vec<Point>,
    pub e: Fx,
    pub disabled: bool,
}

/// Whether the survival check disables the ray this step: it has fallen
/// inside the horizon, or it left the bounding region on either axis.
pub open spec fn ray_captured(pre: Ray, bh: BlackHole, w: Fx, h: Fx) -> bool {
    polar_r_spec(pre.x@, pre.y@, bh.position.x@, bh.position.y@) < bh.r_s@ || pre.x@ > w@ || pre.y@
        > h@
}

/// The full input/output relation of one `step` call. Every field of the
/// post-state is pinned as a function of the pre-state, the black hole and
/// the bounds.
pub open spec fn is_step(pre: Ray, post: Ray, bh: BlackHole, w: Fx, h: Fx) -> bool {
    if pre.disabled {
        post == pre
    } else {
        let cx = bh.position.x@;
        let cy = bh.position.y@;
        let r1 = polar_r_spec(pre.x@, pre.y@, cx, cy);
        let phi1 = polar_phi_spec(pre.x@, pre.y@, cx, cy);
        if ray_captured(pre, bh, w, h) {
            &&& post.disabled
            &&& post.x == pre.x
            &&& post.y == pre.y
            &&& post.r@ == r1
            &&& post.phi@ == phi1
            &&& post.dr == pre.dr
            &&& post.dphi == pre.dphi
            &&& post.e == pre.e
            &&& post.trail@ == if pre.trail@.len() > 0 {
                pre.trail@.drop_last()
            } else {
                pre.trail@
            }
        } else {
            let rs = bh.r_s@;
            let dr2 = euler_dr_spec(r1, pre.dr@, pre.dphi@, pre.e@, rs);
            let dphi2 = euler_dphi_spec(r1, pre.dr@, pre.dphi@);
            let r2 = euler_r_spec(r1, pre.dr@, pre.dphi@, pre.e@, rs);
            let phi2 = euler_phi_spec(r1, phi1, pre.dr@, pre.dphi@);
            &&& !post.disabled
            &&& post.r@ == r2
            &&& post.phi@ == phi2
            &&& post.dr@ == dr2
            &&& post.dphi@ == dphi2
            &&& post.e == pre.e
            &&& post.x@ == fx_add_spec(cx, fx_mul_spec(r2, fx_cos_spec(phi2)))
            &&& post.y@ == fx_add_spec(cy, fx_mul_spec(r2, fx_sin_spec(phi2)))
            &&& post.trail@ == trail_push_spec(pre.trail@, Point { x: post.x, y: post.y })
        }
    }
}

impl Ray {
    /// A fresh ray at a Cartesian position, with unit energy and no motion.
    pub fn new(x: Fx, y: Fx) -> (ray: Ray)
        ensures
            ray.x == x,
            ray.y == y,
            ray.r@ == 0,
            ray.phi@ == 0,
            ray.dr@ == 0,
            ray.dphi@ == 0,
            ray.e@ == SCALE,
            !ray.disabled,
            ray.trail@ == Seq::<Point>::empty(),
    {
        Ray {
            x,
            y,
            r: Fx { raw: 0 },
            phi: Fx { raw: 0 },
            dr: Fx { raw: 0 },
            dphi: Fx { raw: 0 },
            trail: Vec::new(),
            e: Fx { raw: SCALE },
            disabled: false,
        }
    }

    /// Re-derives the polar position from the Cartesian one; this is the
    /// authoritative read used by the survival check.
    pub fn get_polar(&mut self, bh: &BlackHole)
        ensures
            final(self).r@ == polar_r_spec(
                old(self).x@,
                old(self).y@,
                bh.position.x@,
                bh.position.y@,
            ),
            final(self).phi@ == polar_phi_spec(
                old(self).x@,
                old(self).y@,
                bh.position.x@,
                bh.position.y@,
            ),
            final(self).x == old(self).x,
            final(self).y == old(self).y,
            final(self).dr == old(self).dr,
            final(self).dphi == old(self).dphi,
            final(self).e == old(self).e,
            final(self).disabled == old(self).disabled,
            final(self).trail@ == old(self).trail@,
    {
        let dx = self.x.sub(bh.position.x);
        let dy = self.y.sub(bh.position.y);
        self.r = fx_sqrt(dx.mul(dx).add(dy.mul(dy)));
        self.phi = fx_atan2(dy, dx);
    }

    /// Appends the current position to the trail, evicting the oldest point
    /// once the trail holds [`TRAIL_CAP`] entries.
    pub fn push_back(&mut self)
        ensures
            final(self).trail@ == trail_push_spec(
                old(self).trail@,
                Point { x: old(self).x, y: old(self).y },
            ),
            final(self).x == old(self).x,
            final(self).y == old(self).y,
            final(self).r == old(self).r,
            final(self).phi == old(self).phi,
            final(self).dr == old(self).dr,
            final(self).dphi == old(self).dphi,
            final(self).e == old(self).e,
            final(self).disabled == old(self).disabled,
    {
        if self.trail.len() >= TRAIL_CAP {
            let _evicted = self.trail.remove(0);
        }
        let p = Point { x: self.x, y: self.y };
        self.trail.push(p);
        proof {
            if old(self).trail@.len() >= TRAIL_CAP {
                assert(final(self).trail@ =~= old(self).trail@.subrange(
                    1,
                    old(self).trail@.len() as int,
                ).push(p));
            }
        }
    }

    /// One explicit Euler increment of the polar state.
    pub fn geodesic(&mut self, bh: &BlackHole)
        ensures
            final(self).dr@ == euler_dr_spec(
                old(self).r@,
                old(self).dr@,
                old(self).dphi@,
                old(self).e@,
                bh.r_s@,
            ),
            final(self).dphi@ == euler_dphi_spec(old(self).r@, old(self).dr@, old(self).dphi@),
            final(self).r@ == euler_r_spec(
                old(self).r@,
                old(self).dr@,
                old(self).dphi@,
                old(self).e@,
                bh.r_s@,
            ),
            final(self).phi@ == euler_phi_spec(
                old(self).r@,
                old(self).phi@,
                old(self).dr@,
                old(self).dphi@,
            ),
            final(self).x == old(self).x,
            final(self).y == old(self).y,
            final(self).e == old(self).e,
            final(self).disabled == old(self).disabled,
            final(self).trail@ == old(self).trail@,
    {
        let rhs = geodesic_rhs(self, bh.r_s);
        let dt = Fx { raw: DT };

        self.dr = self.dr.add(rhs.2.mul(dt));
        self.dphi = self.dphi.add(rhs.3.mul(dt));

        self.r = self.r.add(self.dr.mul(dt));
        self.phi = self.phi.add(self.dphi.mul(dt));
    }

    /// One frame of this ray's life, in a fixed order: frozen if
    /// disabled; otherwise re-derive the polar state, run the survival check
    /// (horizon capture or out of bounds disables the ray and drops the
    /// speculative last trail point), and only then integrate and append the
    /// new position to the trail.
    pub fn step(&mut self, bh: &BlackHole, width: Fx, height: Fx)
        ensures
            is_step(*old(self), *final(self), *bh, width, height),
            old(self).disabled ==> *final(self) == *old(self),
    {
        if self.disabled {
            return ;
        }
        self.get_polar(bh);

        if self.r.raw < bh.r_s.raw || self.x.raw > width.raw || self.y.raw > height.raw {
            self.disabled = true;
            let _dropped = self.trail.pop();
            proof {
                if old(self).trail@.len() > 0 {
                    assert(final(self).trail@ =~= old(self).trail@.drop_last());
                }
            }
            return ;
        }

        self.geodesic(bh);

        let c = fx_cos(self.phi);
        let s = fx_sin(self.phi);
        self.x = bh.position.x.add(self.r.mul(c));
        self.y = bh.position.y.add(self.r.mul(s));

        self.push_back();
    }

    /// Projects a Cartesian velocity onto the local radial/angular basis and
    /// freezes the conserved energy constant `e = 1 - r_s / r` at the ray's
    /// current radius.
    pub fn initialize_velocity(&mut self, bh: &BlackHole, vx: Fx, vy: Fx)
        ensures
            ({
                let r1 = polar_r_spec(old(self).x@, old(self).y@, bh.position.x@, bh.position.y@);
                let phi1 = polar_phi_spec(
                    old(self).x@,
                    old(self).y@,
                    bh.position.x@,
                    bh.position.y@,
                );
                &&& final(self).r@ == r1
                &&& final(self).phi@ == phi1
                &&& final(self).dr@ == init_dr_spec(phi1, vx@, vy@)
                &&& final(self).dphi@ == init_dphi_spec(r1, phi1, vx@, vy@)
                &&& final(self).e@ == metric_f_spec(r1, bh.r_s@)
            }),
            final(self).x == old(self).x,
            final(self).y == old(self).y,
            final(self).disabled == old(self).disabled,
            final(self).trail@ == old(self).trail@,
    {
        self.get_polar(bh);

        let cos_phi = fx_cos(self.phi);
        let sin_phi = fx_sin(self.phi);

        self.dr = vx.mul(cos_phi).add(vy.mul(sin_phi));
        self.dphi = vx.neg().mul(sin_phi).add(vy.mul(cos_phi)).div(self.r);

        self.e = Fx { raw: SCALE }.sub(bh.r_s.div(self.r));
    }
}

/// Radial velocity component: `vx * cos(phi) + vy * sin(phi)`.
pub open spec fn init_dr_spec(phi: int, vx: int, vy: int) -> int {
    fx_add_spec(fx_mul_spec(vx, fx_cos_spec(phi)), fx_mul_spec(vy, fx_sin_spec(phi)))
}

/// Angular velocity component: `(-vx * sin(phi) + vy * cos(phi)) / r`.
pub open spec fn init_dphi_spec(r: int, phi: int, vx: int, vy: int) -> int {
    fx_div_spec(
        fx_add_spec(
            fx_mul_spec(fx_neg_spec(vx), fx_sin_spec(phi)),
            fx_mul_spec(vy, fx_cos_spec(phi)),
        ),
        r,
    )
}

} // verus!
