use gargantua::calculate_schwarzschild_radius;
use gargantua::geodesic_rhs;
use gargantua::radial_energy_term;
use gargantua::BlackHole;
use gargantua::Fx;
use gargantua::Ray;
use gargantua::SCALE;
use gargantua::TRAIL_CAP;

fn fx(v: i32) -> Fx {
    Fx::from_i32(v)
}

#[test]
fn schwarzschild_radius_of_reference_mass() {
    // 300 mass units (3e28 kg) at 148523205 raw meters per unit.
    assert_eq!(calculate_schwarzschild_radius().raw, 44_556_961_500);
}

#[test]
fn mass_determines_horizon_radius() {
    let mut bh = BlackHole::new(fx(400), fx(400), fx(600));
    assert_eq!(bh.r_s.raw, 89_113_923_000);
    bh.set_mass(fx(0));
    assert_eq!(bh.r_s.raw, 0);
    bh.set_mass(fx(600));
    assert_eq!(bh.r_s.raw, 89_113_923_000);
    bh.calc_r_s();
    assert_eq!(bh.r_s.raw, 89_113_923_000);
}

#[test]
fn radial_energy_term_is_pure() {
    let r = Fx::from_raw(300_000_000_000);
    let e = Fx::from_raw(819_962_688);
    let rs = Fx::from_raw(89_113_923_000);
    let first = radial_energy_term(r, e, rs);
    let second = radial_energy_term(r, e, rs);
    assert_eq!(first.raw, second.raw);
    // f = 1 - rs/r = 0.702953590, so f * (e/f)^2 = 0.956448360.
    assert_eq!(first.raw, 956_448_360);
}

#[test]
fn geodesic_rhs_is_pure_and_echoes_derivatives() {
    let bh = BlackHole::new(fx(400), fx(400), fx(600));
    let mut ray = Ray::new(fx(50), fx(50));
    ray.initialize_velocity(&bh, fx(10), fx(10));
    ray.get_polar(&bh);
    let a = geodesic_rhs(&ray, bh.r_s);
    let b = geodesic_rhs(&ray, bh.r_s);
    assert_eq!(a.0.raw, ray.dr.raw);
    assert_eq!(a.1.raw, ray.dphi.raw);
    assert_eq!(a.2.raw, b.2.raw);
    assert_eq!(a.3.raw, b.3.raw);
}

#[test]
fn aimed_ray_spirals_in_and_is_captured() {
    // Hole at (400, 400) with mass 6e28 kg (600 units), one ray from
    // (50, 50) with velocity (10, 10), aimed straight at the hole.
    let bh = BlackHole::new(fx(400), fx(400), fx(600));
    let mut ray = Ray::new(fx(50), fx(50));
    ray.initialize_velocity(&bh, fx(10), fx(10));
    assert_eq!(ray.r.raw, 494_974_746_830);
    assert_eq!(ray.dr.raw, -14_142_135_650);
    assert_eq!(ray.dphi.raw, 0);
    assert_eq!(ray.e.raw, 819_962_688);

    let mut steps: u32 = 0;
    let mut prev_r = ray.r.raw;
    loop {
        ray.step(&bh, fx(800), fx(800));
        steps += 1;
        if ray.disabled {
            break;
        }
        assert!(ray.r.raw < prev_r, "radius must decrease monotonically");
        prev_r = ray.r.raw;
        assert!(steps < 1000, "ray must be captured");
    }
    assert_eq!(steps, 370);
    assert_eq!(ray.r.raw, 89_056_028_578);
    assert!(ray.r.raw < bh.r_s.raw);
}

#[test]
fn disabled_ray_is_frozen() {
    // A ray beyond the right/bottom bounds is disabled by the very first
    // step; every later step must leave the whole state unchanged.
    let bh = BlackHole::new(fx(400), fx(400), fx(600));
    let mut ray = Ray::new(fx(900), fx(900));
    ray.initialize_velocity(&bh, fx(1), fx(0));
    ray.step(&bh, fx(800), fx(800));
    assert!(ray.disabled);

    let snap = (
        ray.x.raw,
        ray.y.raw,
        ray.r.raw,
        ray.phi.raw,
        ray.dr.raw,
        ray.dphi.raw,
        ray.e.raw,
        ray.trail.len(),
    );
    for _ in 0..5 {
        ray.step(&bh, fx(800), fx(800));
        assert!(ray.disabled);
        let now = (
            ray.x.raw,
            ray.y.raw,
            ray.r.raw,
            ray.phi.raw,
            ray.dr.raw,
            ray.dphi.raw,
            ray.e.raw,
            ray.trail.len(),
        );
        assert_eq!(now, snap);
    }
}

#[test]
fn capture_drops_the_speculative_trail_point() {
    let bh = BlackHole::new(fx(400), fx(400), fx(600));
    let mut ray = Ray::new(fx(50), fx(50));
    ray.initialize_velocity(&bh, fx(10), fx(10));
    let mut last_len = ray.trail.len();
    loop {
        ray.step(&bh, fx(800), fx(800));
        if ray.disabled {
            break;
        }
        last_len = ray.trail.len();
    }
    // The disabling step pops the most recent trail entry.
    assert_eq!(ray.trail.len(), last_len - 1);
}

#[test]
fn zero_mass_hole_gives_straight_rays() {
    // With r_s == 0 the geodesic reduces to straight-line motion: a purely
    // radial ray keeps dphi exactly zero and a constant dr, and is never
    // disabled inside the bounds.
    let bh = BlackHole::new(fx(400), fx(400), fx(0));
    assert_eq!(bh.r_s.raw, 0);
    let mut ray = Ray::new(fx(50), fx(50));
    ray.initialize_velocity(&bh, fx(10), fx(10));
    assert_eq!(ray.dphi.raw, 0);
    assert_eq!(ray.e.raw, SCALE);
    let dr0 = ray.dr.raw;
    assert_eq!(dr0, -14_142_135_650);

    let w = fx(1_000_000);
    let h = fx(1_000_000);
    for _ in 0..300 {
        ray.step(&bh, w, h);
        assert!(!ray.disabled, "no horizon capture with zero mass");
        assert_eq!(ray.dphi.raw, 0);
        assert_eq!(ray.dr.raw, dr0);
    }
    assert_eq!(ray.x.raw, 349_999_889_314);
    assert_eq!(ray.y.raw, 349_999_889_951);
}

#[test]
fn trail_is_bounded_with_fifo_eviction() {
    let bh = BlackHole::new(fx(400), fx(400), fx(0));
    let mut ray = Ray::new(fx(750), fx(50));
    ray.initialize_velocity(&bh, fx(-10), fx(0));

    let w = fx(1_000_000);
    let h = fx(1_000_000);
    let mut positions: Vec<(i64, i64)> = Vec::new();
    for _ in 0..250 {
        ray.step(&bh, w, h);
        assert!(!ray.disabled);
        positions.push((ray.x.raw, ray.y.raw));
        assert!(ray.trail.len() <= TRAIL_CAP);
    }
    assert_eq!(ray.trail.len(), TRAIL_CAP);
    // The oldest 50 entries were evicted; the trail holds the last 200.
    for (k, p) in ray.trail.iter().enumerate() {
        assert_eq!((p.x.raw, p.y.raw), positions[50 + k]);
    }
}
