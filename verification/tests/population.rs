use gargantua::Fx;
use gargantua::Simulation;
use gargantua::NUM_RAYS;
use gargantua::SCALE;
use gargantua::TRAIL_CAP;

type RaySnap = (i64, i64, i64, i64, i64, i64, i64, bool, Vec<(i64, i64)>);

fn snapshot(sim: &Simulation) -> Vec<RaySnap> {
    sim.rays
        .iter()
        .map(|r| {
            (
                r.x.raw,
                r.y.raw,
                r.r.raw,
                r.phi.raw,
                r.dr.raw,
                r.dphi.raw,
                r.e.raw,
                r.disabled,
                r.trail.iter().map(|p| (p.x.raw, p.y.raw)).collect(),
            )
        })
        .collect()
}

#[test]
fn fresh_simulation_spawns_the_fan() {
    let sim = Simulation::new(800, 800);
    assert_eq!(sim.ray_count(), NUM_RAYS);
    assert_eq!(sim.black_hole.position.x.raw, 400 * SCALE);
    assert_eq!(sim.black_hole.position.y.raw, 400 * SCALE);
    assert_eq!(sim.black_hole.mass.raw, 600_000_000_000);
    assert_eq!(sim.black_hole.r_s.raw, 89_113_923_000);

    assert_eq!(sim.rays[0].x.raw, 170_000_425_160);
    assert_eq!(sim.rays[0].y.raw, 50_000_000_000);
    assert_eq!(sim.rays[0].dr.raw, -10_000_000_171);
    assert_eq!(sim.rays[0].dphi.raw, 0);
    assert_eq!(sim.rays[0].e.raw, 787_219_900);
    assert_eq!(sim.rays[25].x.raw, 112_762_173_080);
    assert_eq!(sim.rays[25].y.raw, 152_278_592_000);
    assert_eq!(sim.rays[49].x.raw, 62_379_680);
    assert_eq!(sim.rays[49].y.raw, 159_115_704_080);

    for ray in &sim.rays {
        assert!(!ray.disabled);
        assert!(ray.trail.is_empty());
    }
}

#[test]
fn update_steps_every_ray_once() {
    let mut sim = Simulation::new(800, 800);
    sim.update();
    assert_eq!(sim.rays[0].x.raw, 170_549_427_343);
    assert_eq!(sim.rays[0].y.raw, 50_835_428_183);
    for ray in &sim.rays {
        assert!(!ray.disabled);
        assert_eq!(ray.trail.len(), 1);
        assert_eq!(ray.trail[0].x.raw, ray.x.raw);
        assert_eq!(ray.trail[0].y.raw, ray.y.raw);
    }
}

#[test]
fn reset_is_idempotent_and_matches_construction() {
    let mut sim = Simulation::new(800, 800);
    for _ in 0..10 {
        sim.update();
    }
    sim.reset();
    let first = snapshot(&sim);
    sim.reset();
    let second = snapshot(&sim);
    assert_eq!(first, second);

    let fresh = Simulation::new(800, 800);
    assert_eq!(first, snapshot(&fresh));

    for ray in &sim.rays {
        assert!(!ray.disabled);
        assert!(ray.trail.is_empty());
    }
}

#[test]
fn ray_count_change_preserves_survivors() {
    let mut sim = Simulation::new(800, 800);
    for _ in 0..5 {
        sim.update();
    }
    let before = snapshot(&sim);

    sim.set_ray_count(60);
    assert_eq!(sim.ray_count(), 60);
    let grown = snapshot(&sim);
    assert_eq!(&grown[..50], &before[..]);
    // New rays are spawned on the fan indexed to the new total.
    assert_eq!(sim.rays[55].x.raw, 15_270_794_360);
    assert_eq!(sim.rays[55].y.raw, 164_864_669_720);
    for i in 50..60 {
        assert!(!sim.rays[i].disabled);
        assert!(sim.rays[i].trail.is_empty());
    }

    sim.set_ray_count(30);
    assert_eq!(sim.ray_count(), 30);
    let small = snapshot(&sim);
    assert_eq!(&small[..], &grown[..30]);

    sim.set_ray_count(30);
    assert_eq!(snapshot(&sim), small);

    sim.set_ray_count(0);
    assert_eq!(sim.ray_count(), 0);
    sim.update();
    assert_eq!(sim.ray_count(), 0);

    // A population of one: the spread quotient divides by zero, which the
    // scalar type defines as zero, so the single ray sits at angle zero.
    sim.set_ray_count(1);
    assert_eq!(sim.ray_count(), 1);
    assert_eq!(sim.rays[0].x.raw, 170_000_425_160);
    assert_eq!(sim.rays[0].y.raw, 50_000_000_000);
}

#[test]
fn mass_update_leaves_rays_untouched() {
    let mut sim = Simulation::new(800, 800);
    for _ in 0..3 {
        sim.update();
    }
    let before = snapshot(&sim);
    sim.set_black_hole_mass(Fx::from_i32(0));
    assert_eq!(sim.black_hole.r_s.raw, 0);
    // Rays keep their frozen energy constant; a mass change rewrites no ray.
    assert_eq!(snapshot(&sim), before);
    sim.set_black_hole_mass(Fx::from_raw(600_000_000_000));
    assert_eq!(sim.black_hole.r_s.raw, 89_113_923_000);
    assert_eq!(snapshot(&sim), before);
}

#[test]
fn snapshots_reflect_ray_state() {
    let mut sim = Simulation::new(800, 800);
    sim.update();
    sim.update();

    let data = sim.get_ray_data();
    assert_eq!(data.len(), sim.ray_count());
    for (i, entry) in data.iter().enumerate() {
        assert_eq!(entry.0.raw, sim.rays[i].x.raw);
        assert_eq!(entry.1.raw, sim.rays[i].y.raw);
        assert_eq!(entry.2, sim.rays[i].disabled);
    }

    let trails = sim.get_trail_data();
    assert_eq!(trails.len(), sim.ray_count());
    for (i, trail) in trails.iter().enumerate() {
        assert_eq!(trail.len(), sim.rays[i].trail.len());
        for (j, p) in trail.iter().enumerate() {
            assert_eq!(p.0.raw, sim.rays[i].trail[j].x.raw);
            assert_eq!(p.1.raw, sim.rays[i].trail[j].y.raw);
        }
    }
}

#[test]
fn long_run_disables_every_ray() {
    let mut sim = Simulation::new(800, 800);
    for _ in 0..2000 {
        sim.update();
    }
    for ray in &sim.rays {
        assert!(ray.disabled);
        assert!(ray.trail.len() <= TRAIL_CAP);
    }
}

#[test]
fn zero_mass_population_is_never_horizon_captured() {
    let mut sim = Simulation::new(800, 800);
    sim.set_black_hole_mass(Fx::from_i32(0));
    sim.reset();
    assert_eq!(sim.black_hole.r_s.raw, 0);
    for _ in 0..200 {
        sim.update();
        for ray in &sim.rays {
            // A ray can only be disabled by the bounds check here, which
            // fires solely on positions beyond the canvas.
            if ray.disabled {
                assert!(ray.x.raw > 800 * SCALE || ray.y.raw > 800 * SCALE);
            }
        }
    }
}
