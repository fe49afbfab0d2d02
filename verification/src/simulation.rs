//! The simulation: one black hole and an ordered ray population.
//!
//! The hole sits at the canvas center with twice the reference mass. Rays
//! are spawned as a fan from a shared origin region with small angular
//! offsets, each aimed at the hole at a fixed speed; the same spawn formula
//! is used by construction, by `reset`, and by `set_ray_count` growth, so a
//! respawned population is a deterministic function of the count and the
//! black hole alone.

use vstd::prelude::*;
use vstd::std_specs::vec::vec_index_mut;

use crate::black_hole::BlackHole;
use crate::black_hole::BH_MASS;
use crate::black_hole::bh_wf;
use crate::fixed::Fx;
use crate::fixed::SCALE;
use crate::fixed::fx_add_spec;
use crate::fixed::fx_div_spec;
use crate::fixed::fx_mul_spec;
use crate::fixed::fx_sub_spec;
use crate::fixed::sat64;
use crate::ray::Point;
use crate::ray::Ray;
use crate::ray::TWO_FX;
use crate::ray::init_dphi_spec;
use crate::ray::init_dr_spec;
use crate::ray::is_step;
use crate::ray::metric_f_spec;
use crate::ray::polar_phi_spec;
use crate::ray::polar_r_spec;
use crate::trig::fx_cos;
use crate::trig::fx_cos_spec;
use crate::trig::fx_sin;
use crate::trig::fx_sin_spec;
use crate::trig::fx_sqrt;
use crate::trig::fx_sqrt_spec;

verus! {

/// Rays spawned by a fresh simulation.
pub const NUM_RAYS: usize = 50;

/// X coordinate of the spawn origin, `50.0` at `SCALE`.
pub const SPAWN_X: i64 = 50_000_000_000;

/// Y coordinate of the spawn origin, `50.0` at `SCALE`.
pub const SPAWN_Y: i64 = 50_000_000_000;

/// Distance of each spawn point from the origin, `120.0` at `SCALE`.
pub const SPAWN_OFFSET: i64 = 120_000_000_000;

/// Initial speed of every ray, `10.0` at `SCALE`.
pub const SPAWN_SPEED: i64 = 10_000_000_000;

/// Spread angle of ray `i` out of `n`: `(i / (n - 1)) * 2.0` radians.
pub open spec fn spawn_angle_spec(i: int, n: int) -> int {
    fx_mul_spec(
        fx_div_spec(sat64(i * (SCALE as int)), sat64((n - 1) * (SCALE as int))),
        TWO_FX as int,
    )
}

/// X coordinate of spawn point `i` of `n`.
pub open spec fn spawn_sx_spec(i: int, n: int) -> int {
    fx_add_spec(SPAWN_X as int, fx_mul_spec(fx_cos_spec(spawn_angle_spec(i, n)), SPAWN_OFFSET as int))
}

/// Y coordinate of spawn point `i` of `n`.
pub open spec fn spawn_sy_spec(i: int, n: int) -> int {
    fx_add_spec(SPAWN_Y as int, fx_mul_spec(fx_sin_spec(spawn_angle_spec(i, n)), SPAWN_OFFSET as int))
}

/// The full state of freshly spawned ray `i` of a population of `n`: placed
/// on the spawn fan, aimed at the hole at [`SPAWN_SPEED`], velocity projected
/// onto the local polar basis, energy frozen, trail empty.
pub open spec fn spawn_ok(ray: Ray, i: int, n: int, bh: BlackHole) -> bool {
    let sx = spawn_sx_spec(i, n);
    let sy = spawn_sy_spec(i, n);
    let dx = fx_sub_spec(bh.position.x@, sx);
    let dy = fx_sub_spec(bh.position.y@, sy);
    let dist = fx_sqrt_spec(fx_add_spec(fx_mul_spec(dx, dx), fx_mul_spec(dy, dy)));
    let vx = fx_mul_spec(fx_div_spec(dx, dist), SPAWN_SPEED as int);
    let vy = fx_mul_spec(fx_div_spec(dy, dist), SPAWN_SPEED as int);
    let r1 = polar_r_spec(sx, sy, bh.position.x@, bh.position.y@);
    let phi1 = polar_phi_spec(sx, sy, bh.position.x@, bh.position.y@);
    &&& ray.x@ == sx
    &&& ray.y@ == sy
    &&& ray.r@ == r1
    &&& ray.phi@ == phi1
    &&& ray.dr@ == init_dr_spec(phi1, vx, vy)
    &&& ray.dphi@ == init_dphi_spec(r1, phi1, vx, vy)
    &&& ray.e@ == metric_f_spec(r1, bh.r_s@)
    &&& !ray.disabled
    &&& ray.trail@ == Seq::<Point>::empty()
}

/// Builds ray `i` of a population of `n` by the shared spawn formula.
fn spawn_ray(i: usize, n: usize, bh: &BlackHole) -> (ray: Ray)
    requires
        1 <= n,
        i < n,
    ensures
        spawn_ok(ray, i as int, n as int, *bh),
{
    let a = Fx::from_usize(i).div(Fx::from_usize(n - 1)).mul(Fx { raw: TWO_FX });
    let sx = Fx { raw: SPAWN_X }.add(fx_cos(a).mul(Fx { raw: SPAWN_OFFSET }));
    let sy = Fx { raw: SPAWN_Y }.add(fx_sin(a).mul(Fx { raw: SPAWN_OFFSET }));

    let mut ray = Ray::new(sx, sy);

    let dx = bh.position.x.sub(sx);
    let dy = bh.position.y.sub(sy);
    let dist = fx_sqrt(dx.mul(dx).add(dy.mul(dy)));

    let vx = dx.div(dist).mul(Fx { raw: SPAWN_SPEED });
    let vy = dy.div(dist).mul(Fx { raw: SPAWN_SPEED });

    ray.initialize_velocity(bh, vx, vy);
    ray
}

/// The bound value handed to the survival check for a canvas extent.
pub open spec fn bound_fx(v: i32) -> Fx {
    Fx { raw: (v as int * SCALE as int) as i64 }
}

/// One black hole and its ray population.
#[derive(Debug)]
pub struct Simulation {
    pub black_hole: BlackHole,
    pub rays: Vec<Ray>,
    pub width: i32,
    pub height: i32,
}

impl Simulation {
    /// A simulation over a `width` by `height` canvas: the hole at the
    /// center with twice the reference mass, and [`NUM_RAYS`] rays spawned
    /// on the fan.
    pub fn new(width: i32, height: i32) -> (sim: Simulation)
        requires
            0 <= width,
            0 <= height,
        ensures
            sim.width == width,
            sim.height == height,
            sim.black_hole.position.x@ == (width as int / 2) * (SCALE as int),
            sim.black_hole.position.y@ == (height as int / 2) * (SCALE as int),
            sim.black_hole.mass@ == 2 * BH_MASS,
            bh_wf(sim.black_hole),
            sim.rays@.len() == NUM_RAYS,
            forall|i: int|
                0 <= i < NUM_RAYS as int ==> spawn_ok(
                    #[trigger] sim.rays@[i],
                    i,
                    NUM_RAYS as int,
                    sim.black_hole,
                ),
    {
        let half_w: i32 = ((width as u32) / 2) as i32;
        let half_h: i32 = ((height as u32) / 2) as i32;
        let black_hole = BlackHole::new(
            Fx::from_i32(half_w),
            Fx::from_i32(half_h),
            Fx { raw: 2 * BH_MASS },
        );

        let mut rays: Vec<Ray> = Vec::new();
        let mut i: usize = 0;
        while i < NUM_RAYS
            invariant
                i <= NUM_RAYS,
                rays@.len() == i as int,
                forall|j: int|
                    0 <= j < i as int ==> spawn_ok(
                        #[trigger] rays@[j],
                        j,
                        NUM_RAYS as int,
                        black_hole,
                    ),
            decreases NUM_RAYS - i,
        {
            let ray = spawn_ray(i, NUM_RAYS, &black_hole);
            rays.push(ray);
            i += 1;
        }

        Simulation { black_hole, rays, width, height }
    }

    pub fn ray_count(&self) -> (n: usize)
        ensures
            n == self.rays@.len(),
    {
        self.rays.len()
    }

    /// One simulated frame: every ray is stepped exactly once against the
    /// read-only black hole and the canvas bounds; rays do not interact.
    pub fn update(&mut self)
        ensures
            final(self).black_hole == old(self).black_hole,
            final(self).width == old(self).width,
            final(self).height == old(self).height,
            final(self).rays@.len() == old(self).rays@.len(),
            forall|i: int|
                0 <= i < old(self).rays@.len() ==> is_step(
                    old(self).rays@[i],
                    #[trigger] final(self).rays@[i],
                    old(self).black_hole,
                    bound_fx(old(self).width),
                    bound_fx(old(self).height),
                ),
    {
        let bh = self.black_hole;
        let w = Fx::from_i32(self.width);
        let h = Fx::from_i32(self.height);
        let n = self.rays.len();
        let mut i: usize = 0;
        while i < n
            invariant
                i <= n,
                n == old(self).rays@.len(),
                self.rays@.len() == n,
                self.black_hole == old(self).black_hole,
                self.width == old(self).width,
                self.height == old(self).height,
                bh == old(self).black_hole,
                w == bound_fx(old(self).width),
                h == bound_fx(old(self).height),
                forall|j: int|
                    0 <= j < i as int ==> is_step(
                        old(self).rays@[j],
                        #[trigger] self.rays@[j],
                        bh,
                        w,
                        h,
                    ),
                forall|j: int| i as int <= j < n ==> self.rays@[j] == old(self).rays@[j],
            decreases n - i,
        {
            let ray = vec_index_mut(&mut self.rays, i);
            ray.step(&bh, w, h);
            i += 1;
        }
    }

    /// Restores the population to a freshly spawned fan of the same size:
    /// same spawn formula as construction, trails cleared, `disabled`
    /// cleared.
    pub fn reset(&mut self)
        ensures
            final(self).black_hole == old(self).black_hole,
            final(self).width == old(self).width,
            final(self).height == old(self).height,
            final(self).rays@.len() == old(self).rays@.len(),
            forall|i: int|
                0 <= i < old(self).rays@.len() ==> spawn_ok(
                    #[trigger] final(self).rays@[i],
                    i,
                    old(self).rays@.len() as int,
                    old(self).black_hole,
                ),
    {
        let n = self.rays.len();
        let bh = self.black_hole;
        let mut fresh: Vec<Ray> = Vec::new();
        let mut i: usize = 0;
        while i < n
            invariant
                i <= n,
                fresh@.len() == i as int,
                bh == old(self).black_hole,
                forall|j: int|
                    0 <= j < i as int ==> spawn_ok(#[trigger] fresh@[j], j, n as int, bh),
            decreases n - i,
        {
            let ray = spawn_ray(i, n, &bh);
            fresh.push(ray);
            i += 1;
        }
        self.rays = fresh;
    }

    /// Grows the population by spawning rays indexed to fit the new total,
    /// or shrinks it by truncating the tail; rays that survive the resize
    /// are not perturbed.
    pub fn set_ray_count(&mut self, n: usize)
        ensures
            final(self).black_hole == old(self).black_hole,
            final(self).width == old(self).width,
            final(self).height == old(self).height,
            final(self).rays@.len() == n,
            n <= old(self).rays@.len() ==> final(self).rays@ == old(self).rays@.subrange(
                0,
                n as int,
            ),
            n > old(self).rays@.len() ==> {
                &&& forall|i: int|
                    0 <= i < old(self).rays@.len() ==> final(self).rays@[i] == old(self).rays@[i]
                &&& forall|i: int|
                    old(self).rays@.len() <= i < n as int ==> spawn_ok(
                        #[trigger] final(self).rays@[i],
                        i,
                        n as int,
                        old(self).black_hole,
                    )
            },
    {
        let current = self.rays.len();
        if n > current {
            let bh = self.black_hole;
            let mut i: usize = current;
            while i < n
                invariant
                    current <= i <= n,
                    current == old(self).rays@.len(),
                    n > current,
                    self.rays@.len() == i as int,
                    self.black_hole == old(self).black_hole,
                    self.width == old(self).width,
                    self.height == old(self).height,
                    bh == old(self).black_hole,
                    forall|j: int| 0 <= j < current as int ==> self.rays@[j] == old(self).rays@[j],
                    forall|j: int|
                        current as int <= j < i as int ==> spawn_ok(
                            #[trigger] self.rays@[j],
                            j,
                            n as int,
                            bh,
                        ),
                decreases n - i,
            {
                let ray = spawn_ray(i, n, &bh);
                self.rays.push(ray);
                i += 1;
            }
        } else if n < current {
            self.rays.truncate(n);
        } else {
            proof {
                assert(final(self).rays@ =~= old(self).rays@.subrange(0, n as int));
            }
        }
    }

    /// Forwards a live mass adjustment to the black hole. Rays keep the
    /// energy constant they were initialized with; a mass change never
    /// rewrites ray state.
    pub fn set_black_hole_mass(&mut self, mass: Fx)
        ensures
            final(self).black_hole.position == old(self).black_hole.position,
            final(self).black_hole.mass == mass,
            bh_wf(final(self).black_hole),
            final(self).rays == old(self).rays,
            final(self).width == old(self).width,
            final(self).height == old(self).height,
    {
        self.black_hole.set_mass(mass);
    }

    /// Read-only snapshot of every ray: position and live flag.
    pub fn get_ray_data(&self) -> (data: Vec<(Fx, Fx, bool)>)
        ensures
            data@.len() == self.rays@.len(),
            forall|i: int|
                0 <= i < self.rays@.len() ==> data@[i] == (
                    self.rays@[i].x,
                    self.rays@[i].y,
                    self.rays@[i].disabled,
                ),
    {
        let n = self.rays.len();
        let mut data: Vec<(Fx, Fx, bool)> = Vec::new();
        let mut i: usize = 0;
        while i < n
            invariant
                i <= n,
                n == self.rays@.len(),
                data@.len() == i as int,
                forall|j: int|
                    0 <= j < i as int ==> data@[j] == (
                        self.rays@[j].x,
                        self.rays@[j].y,
                        self.rays@[j].disabled,
                    ),
            decreases n - i,
        {
            let ray = &self.rays[i];
            data.push((ray.x, ray.y, ray.disabled));
            i += 1;
        }
        data
    }

    /// Read-only snapshot of every ray's trail.
    pub fn get_trail_data(&self) -> (data: Vec<Vec<(Fx, Fx)>>)
        ensures
            data@.len() == self.rays@.len(),
            forall|i: int|
                0 <= i < self.rays@.len() ==> {
                    &&& #[trigger] data@[i]@.len() == self.rays@[i].trail@.len()
                    &&& forall|j: int|
                        0 <= j < self.rays@[i].trail@.len() ==> data@[i]@[j] == (
                            #[trigger] self.rays@[i].trail@[j].x,
                            self.rays@[i].trail@[j].y,
                        )
                },
    {
        let n = self.rays.len();
        let mut data: Vec<Vec<(Fx, Fx)>> = Vec::new();
        let mut i: usize = 0;
        while i < n
            invariant
                i <= n,
                n == self.rays@.len(),
                data@.len() == i as int,
                forall|k: int|
                    0 <= k < i as int ==> {
                        &&& #[trigger] data@[k]@.len() == self.rays@[k].trail@.len()
                        &&& forall|j: int|
                            0 <= j < self.rays@[k].trail@.len() ==> data@[k]@[j] == (
                                #[trigger] self.rays@[k].trail@[j].x,
                                self.rays@[k].trail@[j].y,
                            )
                    },
            decreases n - i,
        {
            let ray = &self.rays[i];
            let m = ray.trail.len();
            let mut t: Vec<(Fx, Fx)> = Vec::new();
            let mut j: usize = 0;
            while j < m
                invariant
                    j <= m,
                    m == ray.trail@.len(),
                    t@.len() == j as int,
                    forall|q: int|
                        0 <= q < j as int ==> t@[q] == (
                            #[trigger] ray.trail@[q].x,
                            ray.trail@[q].y,
                        ),
                decreases m - j,
            {
                let p = ray.trail[j];
                t.push((p.x, p.y));
                j += 1;
            }
            data.push(t);
            i += 1;
        }
        data
    }
}

} // verus!
