//! The simulation world: the single player, the static colliders, the
//! decorative particle field, and the per-tick update that runs input
//! mapping, movement integration and collision resolution in that order.

use vstd::prelude::*;
use rand::rngs::StdRng;
use crate::geom::{
    Aabb, Box2, COORD_LIMIT, EXTENT_LIMIT, MAX_OBSTACLES, PLAYER_HALF, PUSH, abs_int, boxes_of,
    correction, lemma_correction_props, overlap, player_box, resolve_collisions,
};
use crate::input::{KeyState, dir_x, dir_y, direction};
use crate::motion::{ARENA_BOUND, SPEED_LIMIT, Y_LIMIT, integrate, moved_x, moved_y};
use crate::rng::{rng_from_seed, rng_range};

verus! {

/// Sixtieths of a world unit per unit: the coordinate scale of the library.
pub const SUB_PER_UNIT: i64 = 60;

/// Player spawn position: `(0, -100)` world units.
pub const SPAWN_X: i64 = 0;

pub const SPAWN_Y: i64 = -6000;

/// Player speed: 500 world units per second, i.e. 500 sixtieths per tick.
pub const PLAYER_SPEED: i64 = 500;

/// The standard obstacle sits at `(0, 100)` world units.
pub const OBSTACLE_X: i64 = 0;

pub const OBSTACLE_Y: i64 = 6000;

/// Boundary slabs sit at `(-570, 0)` and `(570, 0)` world units, far outside
/// the arena, with a 200 by 5000 unit half-extent. They cap the particle
/// scatter; the collision pass never tests them.
pub const BOUNDARY_X: i64 = 34200;

pub const BOUNDARY_HALF_W: i64 = 12000;

pub const BOUNDARY_HALF_H: i64 = 300000;

/// Particle scatter ranges handed to the random source, in world units:
/// X uniform in `[-1000, 1000)`, Y uniform in `[-1000, 5000)`.
pub const PARTICLE_X_LO_UNITS: i32 = -1000;

pub const PARTICLE_X_HI_UNITS: i32 = 1000;

pub const PARTICLE_Y_LO_UNITS: i32 = -1000;

pub const PARTICLE_Y_HI_UNITS: i32 = 5000;

/// The same scatter ranges in sixtieths.
pub const PARTICLE_X_LO: i64 = -60000;

pub const PARTICLE_X_HI: i64 = 60000;

pub const PARTICLE_Y_LO: i64 = -60000;

pub const PARTICLE_Y_HI: i64 = 300000;

/// Largest total push-out one tick can apply on an axis: `PUSH` for each of
/// at most `MAX_OBSTACLES` obstacles.
pub const MAX_TOTAL_PUSH: i64 = 9600;

/// Largest change of the player's Y in one tick.
pub const MAX_TICK_DY: i64 = SPEED_LIMIT + MAX_TOTAL_PUSH;

/// A decorative particle: position only, never part of collision testing.
#[derive(Clone, Copy, PartialEq, Eq, Structural, Debug)]
pub struct Particle {
    pub x: i64,
    pub y: i64,
}

/// The one player: position and the speed fixed at spawn.
#[derive(Clone, Copy, PartialEq, Eq, Structural, Debug)]
pub struct Player {
    pub x: i64,
    pub y: i64,
    pub speed: i64,
}

/// The whole simulation state. Holding the player as a named field makes the
/// exactly-one-player invariant structural. Only `tick` (through the
/// integrator and the collision pass) mutates the player; the static fields
/// never change after spawn.
pub struct Simulation {
    pub player: Player,
    pub obstacles: Vec<Aabb>,
    pub boundaries: Vec<Aabb>,
    pub particles: Vec<Particle>,
}

/// An obstacle the arena can carry: its span, widened by the player's
/// half-extent and the largest total push-out, stays inside the arena bound,
/// so a tick never pushes the player out of the arena.
pub open spec fn obstacle_ok(o: Box2) -> bool {
    abs_int(o.cx) + o.hw + PLAYER_HALF + MAX_TOTAL_PUSH <= ARENA_BOUND as int
}

/// The obstacle list of the standard world: one 30 by 30 box at `(0, 100)`
/// world units.
pub open spec fn canonical_obstacles() -> Seq<Box2> {
    seq![
        (Box2 {
            cx: OBSTACLE_X as int,
            cy: OBSTACLE_Y as int,
            hw: PLAYER_HALF as int,
            hh: PLAYER_HALF as int,
        }),
    ]
}

/// Player position after one tick: integrate the direction intent, then add
/// the accumulated collision correction.
pub open spec fn tick_pos(x: int, y: int, speed: int, obs: Seq<Box2>, k: KeyState) -> (int, int) {
    let mx = moved_x(x, dir_x(k), speed);
    let my = moved_y(y, dir_y(k), speed);
    let c = correction(player_box(mx, my), obs);
    (mx + c.0, my + c.1)
}

/// Player position after `n` ticks under a constant key state.
pub open spec fn run_pos(x: int, y: int, speed: int, obs: Seq<Box2>, k: KeyState, n: nat) -> (
    int,
    int,
)
    decreases n,
{
    if n == 0 {
        (x, y)
    } else {
        let p = tick_pos(x, y, speed, obs, k);
        run_pos(p.0, p.1, speed, obs, k, (n - 1) as nat)
    }
}

impl Simulation {
    /// Well-formedness: the player sits inside the arena at a legal speed,
    /// and every obstacle is a box the arena can carry.
    pub open spec fn wf(&self) -> bool {
        &&& -ARENA_BOUND <= self.player.x <= ARENA_BOUND
        &&& 0 <= self.player.speed <= SPEED_LIMIT
        &&& self.obstacles@.len() <= MAX_OBSTACLES
        &&& forall|i: int| 0 <= i < self.obstacles@.len() ==> (#[trigger] self.obstacles@[i]).wf()
        &&& forall|i: int|
            0 <= i < self.obstacles@.len() ==> obstacle_ok(#[trigger] self.obstacles@[i]@)
    }

    /// Spawns the standard world: two boundary slabs, `particle_count`
    /// randomly scattered particles, the standard obstacle, and the player at
    /// its spawn position. Runs once, before the first tick.
    pub fn new(seed: u64, particle_count: usize) -> (s: Simulation)
        ensures
            s.wf(),
            s.player.x == SPAWN_X,
            s.player.y == SPAWN_Y,
            s.player.speed == PLAYER_SPEED,
            boxes_of(s.obstacles@) == canonical_obstacles(),
            s.boundaries@.len() == 2,
            s.boundaries@[0]@ == (Box2 {
                cx: BOUNDARY_X as int,
                cy: 0int,
                hw: BOUNDARY_HALF_W as int,
                hh: BOUNDARY_HALF_H as int,
            }),
            s.boundaries@[1]@ == (Box2 {
                cx: -BOUNDARY_X as int,
                cy: 0int,
                hw: BOUNDARY_HALF_W as int,
                hh: BOUNDARY_HALF_H as int,
            }),
            s.particles@.len() == particle_count,
            forall|i: int|
                0 <= i < s.particles@.len() ==> PARTICLE_X_LO <= (
                #[trigger] s.particles@[i]).x < PARTICLE_X_HI,
            forall|i: int|
                0 <= i < s.particles@.len() ==> PARTICLE_Y_LO <= (
                #[trigger] s.particles@[i]).y < PARTICLE_Y_HI,
    {
        let mut source: StdRng = rng_from_seed(seed);

        let mut boundaries: Vec<Aabb> = Vec::new();
        boundaries.push(Aabb::new(BOUNDARY_X, 0, BOUNDARY_HALF_W, BOUNDARY_HALF_H));
        boundaries.push(Aabb::new(-BOUNDARY_X, 0, BOUNDARY_HALF_W, BOUNDARY_HALF_H));

        let mut particles: Vec<Particle> = Vec::new();
        let mut i: usize = 0;
        while i < particle_count
            invariant
                0 <= i <= particle_count,
                particles@.len() == i,
                forall|j: int|
                    0 <= j < particles@.len() ==> PARTICLE_X_LO <= (
                    #[trigger] particles@[j]).x < PARTICLE_X_HI,
                forall|j: int|
                    0 <= j < particles@.len() ==> PARTICLE_Y_LO <= (
                    #[trigger] particles@[j]).y < PARTICLE_Y_HI,
            decreases particle_count - i,
        {
            let ux = rng_range(&mut source, PARTICLE_X_LO_UNITS, PARTICLE_X_HI_UNITS);
            let uy = rng_range(&mut source, PARTICLE_Y_LO_UNITS, PARTICLE_Y_HI_UNITS);
            particles.push(
                Particle { x: (ux as i64) * SUB_PER_UNIT, y: (uy as i64) * SUB_PER_UNIT },
            );
            i = i + 1;
        }

        let mut obstacles: Vec<Aabb> = Vec::new();
        obstacles.push(Aabb::new(OBSTACLE_X, OBSTACLE_Y, PLAYER_HALF, PLAYER_HALF));
        let s = Simulation {
            player: Player { x: SPAWN_X, y: SPAWN_Y, speed: PLAYER_SPEED },
            obstacles,
            boundaries,
            particles,
        };
        proof {
            assert(boxes_of(s.obstacles@) =~= canonical_obstacles());
        }
        s
    }

    /// One fixed timestep: input mapping, movement integration, then
    /// collision resolution, in that order. Only the player moves; after the
    /// tick its X still lies inside the arena.
    pub fn tick(&mut self, keys: KeyState)
        requires
            old(self).wf(),
            -Y_LIMIT <= old(self).player.y <= Y_LIMIT,
        ensures
            final(self).wf(),
            final(self).player.x == tick_pos(
                old(self).player.x as int,
                old(self).player.y as int,
                old(self).player.speed as int,
                boxes_of(old(self).obstacles@),
                keys,
            ).0,
            final(self).player.y == tick_pos(
                old(self).player.x as int,
                old(self).player.y as int,
                old(self).player.speed as int,
                boxes_of(old(self).obstacles@),
                keys,
            ).1,
            final(self).player.speed == old(self).player.speed,
            final(self).obstacles == old(self).obstacles,
            final(self).boundaries == old(self).boundaries,
            final(self).particles == old(self).particles,
            abs_int(final(self).player.y - old(self).player.y) <= MAX_TICK_DY,
    {
        let d = direction(keys);
        let m = integrate(self.player.x, self.player.y, d.0, d.1, self.player.speed);
        let c = resolve_collisions(m.0, m.1, &self.obstacles);
        proof {
            let pb = player_box(m.0 as int, m.1 as int);
            let obs = boxes_of(self.obstacles@);
            lemma_correction_props(pb, obs);
            assert(PUSH * obs.len() <= MAX_TOTAL_PUSH) by (nonlinear_arith)
                requires
                    0 <= obs.len() <= 16,
                    PUSH == 600,
                    MAX_TOTAL_PUSH == 9600,
            ;
            if correction(pb, obs).0 != 0 {
                let w = choose|i: int| 0 <= i < obs.len() && overlap(pb, obs[i]);
                assert(obs[w] == self.obstacles@[w]@);
                assert(obstacle_ok(self.obstacles@[w]@));
            }
        }
        self.player.x = m.0 + c.0;
        self.player.y = m.1 + c.1;
    }

    /// Runs `n` ticks under a constant key state; the fixed-timestep
    /// scheduler calls this with however many steps one frame owes.
    pub fn run_ticks(&mut self, keys: KeyState, n: u64)
        requires
            old(self).wf(),
            -Y_LIMIT <= old(self).player.y - n * MAX_TICK_DY,
            old(self).player.y + n * MAX_TICK_DY <= Y_LIMIT,
        ensures
            final(self).wf(),
            final(self).player.x == run_pos(
                old(self).player.x as int,
                old(self).player.y as int,
                old(self).player.speed as int,
                boxes_of(old(self).obstacles@),
                keys,
                n as nat,
            ).0,
            final(self).player.y == run_pos(
                old(self).player.x as int,
                old(self).player.y as int,
                old(self).player.speed as int,
                boxes_of(old(self).obstacles@),
                keys,
                n as nat,
            ).1,
            final(self).player.speed == old(self).player.speed,
            final(self).obstacles == old(self).obstacles,
            final(self).boundaries == old(self).boundaries,
            final(self).particles == old(self).particles,
    {
        let ghost start = *old(self);
        let ghost goal = run_pos(
            start.player.x as int,
            start.player.y as int,
            start.player.speed as int,
            boxes_of(start.obstacles@),
            keys,
            n as nat,
        );
        let mut t: u64 = 0;
        while t < n
            invariant
                t <= n,
                self.wf(),
                self.player.speed == start.player.speed,
                self.obstacles == start.obstacles,
                self.boundaries == start.boundaries,
                self.particles == start.particles,
                goal == run_pos(
                    self.player.x as int,
                    self.player.y as int,
                    self.player.speed as int,
                    boxes_of(self.obstacles@),
                    keys,
                    (n - t) as nat,
                ),
                -Y_LIMIT <= self.player.y - (n - t) * MAX_TICK_DY,
                self.player.y + (n - t) * MAX_TICK_DY <= Y_LIMIT,
            decreases n - t,
        {
            proof {
                let rem = (n - t) as int;
                assert(rem * MAX_TICK_DY == (rem - 1) * MAX_TICK_DY + MAX_TICK_DY)
                    by (nonlinear_arith);
                assert((rem - 1) * MAX_TICK_DY >= 0) by (nonlinear_arith)
                    requires
                        rem >= 1,
                        MAX_TICK_DY >= 0,
                ;
            }
            self.tick(keys);
            t = t + 1;
        }
        proof {
            assert((n - t) as nat == 0);
        }
    }

    /// Runtime check of `wf`, for hosts that assemble a world by hand.
    pub fn is_well_formed(&self) -> (b: bool)
        ensures
            b == self.wf(),
    {
        if !(-ARENA_BOUND <= self.player.x && self.player.x <= ARENA_BOUND) {
            return false;
        }
        if !(0 <= self.player.speed && self.player.speed <= SPEED_LIMIT) {
            return false;
        }
        if self.obstacles.len() > MAX_OBSTACLES {
            return false;
        }
        let mut i: usize = 0;
        while i < self.obstacles.len()
            invariant
                0 <= i <= self.obstacles@.len(),
                forall|j: int| 0 <= j < i ==> (#[trigger] self.obstacles@[j]).wf(),
                forall|j: int| 0 <= j < i ==> obstacle_ok(#[trigger] self.obstacles@[j]@),
            decreases self.obstacles@.len() - i,
        {
            let o = &self.obstacles[i];
            if !(-COORD_LIMIT <= o.cx && o.cx <= COORD_LIMIT && -COORD_LIMIT <= o.cy && o.cy
                <= COORD_LIMIT && 0 <= o.hw && o.hw <= EXTENT_LIMIT && 0 <= o.hh && o.hh
                <= EXTENT_LIMIT) {
                proof {
                    assert(!(self.obstacles@[i as int]).wf());
                }
                return false;
            }
            let acx: i64 = if o.cx >= 0 {
                o.cx
            } else {
                -o.cx
            };
            if !(acx + o.hw + PLAYER_HALF + MAX_TOTAL_PUSH <= ARENA_BOUND) {
                proof {
                    assert(!obstacle_ok(self.obstacles@[i as int]@));
                }
                return false;
            }
            i = i + 1;
        }
        true
    }
}

} // verus!
