//! A verified engine that propagates light rays around a Schwarzschild
//! (non-rotating) black hole by integrating the null-geodesic equations.
//!
//! All physical quantities are held in a saturating fixed-point scalar type
//! ([`fixed::Fx`]) with nine fractional decimal digits, so every arithmetic
//! step has an exact, machine-checked description. The engine itself consists
//! of the black-hole model, the per-ray state with its polar/Cartesian
//! transforms, the geodesic right-hand side with an explicit Euler
//! integrator, and a `Simulation` that owns and steps a population of rays.

pub mod black_hole;
pub mod fixed;
pub mod laws;
pub mod ray;
pub mod simulation;
pub mod trig;

pub use laws::lemma_disabled_step_frozen;
pub use laws::lemma_energy_term_pure;
pub use laws::lemma_flat_space_radial;
pub use laws::lemma_flat_space_step_stays_radial;
pub use laws::lemma_respawn_deterministic;
pub use laws::lemma_trail_stays_bounded;
pub use laws::lemma_zero_mass_never_captured;
pub use laws::lemma_zero_mass_step_keeps_ray;

pub use black_hole::BlackHole;
pub use black_hole::calculate_schwarzschild_radius;
pub use black_hole::BH_MASS;
pub use black_hole::RS_PER_MASS_UNIT;
pub use fixed::Fx;
pub use fixed::SCALE;
pub use ray::geodesic_rhs;
pub use ray::radial_energy_term;
pub use ray::Point;
pub use ray::Ray;
pub use ray::DT;
pub use ray::TRAIL_CAP;
pub use simulation::Simulation;
pub use simulation::NUM_RAYS;
pub use trig::fx_atan2;
pub use trig::fx_cos;
pub use trig::fx_sin;
pub use trig::fx_sqrt;
