use sim_core::geom::{Aabb, Face, collision_face, overlaps, resolve_collisions};
use sim_core::input::{KeyState, direction};
use sim_core::motion::{integrate, ARENA_BOUND};
use sim_core::sched::FixedTimestep;
use sim_core::world::{Player, Simulation, PLAYER_SPEED, SPAWN_X, SPAWN_Y};

fn no_keys() -> KeyState {
    KeyState { left: false, right: false, up: false, down: false }
}

fn right_key() -> KeyState {
    KeyState { left: false, right: true, up: false, down: false }
}

#[test]
fn integrator_matches_formula() {
    // One tick at 500 units/s moves 500 sixtieths; no clamp in range.
    assert_eq!(integrate(0, 0, 1, 0, 500), (500, 0));
    assert_eq!(integrate(0, 0, 0, -1, 500), (0, -500));
    assert_eq!(integrate(-120, 7, -1, 1, 500), (-620, 507));
}

#[test]
fn integrator_clamps_horizontal_only() {
    // X saturates at the arena bound; Y is free.
    assert_eq!(integrate(21400, 0, 1, 0, 500), (ARENA_BOUND, 0));
    assert_eq!(integrate(-21400, -1000000, -1, -1, 500), (-ARENA_BOUND, -1000500));
}

#[test]
fn opposed_keys_cancel() {
    let both_x = KeyState { left: true, right: true, up: false, down: false };
    assert_eq!(direction(both_x), (0, 0));
    let both_y = KeyState { left: false, right: false, up: true, down: true };
    assert_eq!(direction(both_y), (0, 0));
    let all = KeyState { left: true, right: true, up: true, down: true };
    assert_eq!(direction(all), (0, 0));
}

#[test]
fn direction_maps_single_keys() {
    assert_eq!(direction(KeyState { left: true, right: false, up: false, down: false }), (-1, 0));
    assert_eq!(direction(KeyState { left: false, right: true, up: false, down: false }), (1, 0));
    assert_eq!(direction(KeyState { left: false, right: false, up: true, down: false }), (0, 1));
    assert_eq!(direction(KeyState { left: false, right: false, up: false, down: true }), (0, -1));
}

#[test]
fn overlap_is_symmetric() {
    let a = Aabb::new(0, 0, 900, 900);
    let b = Aabb::new(1200, 300, 900, 900);
    assert_eq!(overlaps(&a, &b), overlaps(&b, &a));
    let c = Aabb::new(5000, 5000, 10, 10);
    assert_eq!(overlaps(&a, &c), overlaps(&c, &a));
    assert!(overlaps(&a, &b));
    assert!(!overlaps(&a, &c));
}

#[test]
fn touching_boxes_do_not_collide() {
    // Edges exactly 0 apart: centers 1800 apart with half-extents 900 + 900.
    let a = Aabb::new(0, 0, 900, 900);
    let touching = Aabb::new(1800, 0, 900, 900);
    assert!(!overlaps(&a, &touching));
    let above = Aabb::new(0, 1800, 900, 900);
    assert!(!overlaps(&a, &above));
    // One sixtieth closer and they interpenetrate.
    let closer = Aabb::new(1799, 0, 900, 900);
    assert!(overlaps(&a, &closer));
}

#[test]
fn left_face_collision_pushes_player_ten_units_right() {
    // Player box at the origin, obstacle 20 units to its right: 4 units of
    // horizontal overlap, a Left-face contact, and a +10 unit correction.
    let player_box = Aabb::new(0, 0, 900, 900);
    let obstacle = Aabb::new(1200, 0, 900, 900);
    assert_eq!(collision_face(&player_box, &obstacle), Some(Face::Left));

    let mut sim = Simulation {
        player: Player { x: 0, y: 0, speed: 0 },
        obstacles: vec![obstacle],
        boundaries: vec![],
        particles: vec![],
    };
    assert!(sim.is_well_formed());
    sim.tick(no_keys());
    assert_eq!(sim.player.x, 600);
    assert_eq!(sim.player.y, 0);
}

#[test]
fn right_face_collision_pushes_player_ten_units_left() {
    let player_box = Aabb::new(0, 0, 900, 900);
    let obstacle = Aabb::new(-1200, 0, 900, 900);
    assert_eq!(collision_face(&player_box, &obstacle), Some(Face::Right));

    let mut sim = Simulation {
        player: Player { x: 0, y: 0, speed: 0 },
        obstacles: vec![obstacle],
        boundaries: vec![],
        particles: vec![],
    };
    assert!(sim.is_well_formed());
    sim.tick(no_keys());
    assert_eq!(sim.player.x, -600);
    assert_eq!(sim.player.y, 0);
}

#[test]
fn corrections_accumulate_over_obstacles() {
    let left_side = Aabb::new(-1200, 0, 900, 900);
    let right_side = Aabb::new(1200, 0, 900, 900);
    // Pushes of the two obstacles cancel.
    assert_eq!(resolve_collisions(0, 0, &vec![left_side, right_side]), (0, 0));
    // A single obstacle pushes alone.
    assert_eq!(resolve_collisions(0, 0, &vec![right_side]), (600, 0));
}

#[test]
fn seeded_spawn_is_deterministic() {
    let first = Simulation::new(42, 1000);
    let second = Simulation::new(42, 1000);
    assert_eq!(first.particles, second.particles);
    assert_eq!(first.particles.len(), 1000);
}

#[test]
fn particles_lie_in_scatter_ranges() {
    let sim = Simulation::new(7, 1000);
    assert_eq!(sim.particles.len(), 1000);
    for p in &sim.particles {
        assert!(-60000 <= p.x && p.x < 60000);
        assert!(-60000 <= p.y && p.y < 300000);
        // Scatter positions are whole world units.
        assert_eq!(p.x % 60, 0);
        assert_eq!(p.y % 60, 0);
    }
    // A real draw scatters: not every particle can coincide.
    let head = sim.particles[0];
    assert!(sim.particles.iter().any(|p| *p != head));
}

#[test]
fn spawn_builds_the_standard_world() {
    let sim = Simulation::new(3, 10);
    assert!(sim.is_well_formed());
    assert_eq!(sim.player, Player { x: SPAWN_X, y: SPAWN_Y, speed: PLAYER_SPEED });
    assert_eq!(sim.obstacles.len(), 1);
    assert_eq!(sim.obstacles[0], Aabb::new(0, 6000, 900, 900));
    assert_eq!(sim.boundaries.len(), 2);
    assert_eq!(sim.boundaries[0], Aabb::new(34200, 0, 12000, 300000));
    assert_eq!(sim.boundaries[1], Aabb::new(-34200, 0, 12000, 300000));
    assert_eq!(sim.particles.len(), 10);
}

#[test]
fn hold_right_for_one_second_reaches_bound() {
    // 60 ticks at 500 units/s from x = 0: 500 units of travel, clamped at
    // the 360-unit arena bound; Y never moves.
    let mut sim = Simulation::new(11, 10);
    sim.run_ticks(right_key(), 60);
    assert_eq!(sim.player.x, ARENA_BOUND);
    assert_eq!(sim.player.y, SPAWN_Y);
}

#[test]
fn well_formedness_check_rejects_edge_obstacles() {
    // An obstacle this close to the bound could push the player outside.
    let sim = Simulation {
        player: Player { x: 0, y: 0, speed: 500 },
        obstacles: vec![Aabb::new(21000, 0, 900, 900)],
        boundaries: vec![],
        particles: vec![],
    };
    assert!(!sim.is_well_formed());
}

#[test]
fn scheduler_accumulates_exact_ticks() {
    let mut steps = FixedTimestep::new();
    // A whole second owes exactly 60 ticks and leaves no carry.
    assert_eq!(steps.advance(1_000_000_000), 60);
    assert_eq!(steps.carry, 0);
    // A frame just short of one tick owes nothing yet...
    assert_eq!(steps.advance(16_666_666), 0);
    assert_eq!(steps.carry, 999_999_960);
    // ...and the next equal frame owes one tick, with the remainder kept.
    assert_eq!(steps.advance(16_666_666), 1);
    assert_eq!(steps.carry, 999_999_920);
}

#[test]
fn scheduler_carry_never_loses_time() {
    let mut steps = FixedTimestep::new();
    let mut total_ticks: u64 = 0;
    for _ in 0..600 {
        total_ticks += steps.advance(16_666_666);
    }
    // 600 * 16_666_666 ns of frames at 60 Hz owe floor(599.99976) ticks.
    assert_eq!(total_ticks, 599);
}

