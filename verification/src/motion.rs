//! Movement integration: one fixed timestep of player motion. The horizontal
//! axis is clamped to the arena bound; the vertical axis is free.
//!
//! With positions in sixtieths of a world unit and a 60 Hz timestep, the
//! per-tick displacement along an axis is exactly `intent * speed` when
//! `speed` is given in world units per second.

use vstd::prelude::*;

verus! {

/// Horizontal arena bound: 360 world units. The integrator clamps the
/// player's X to `[-ARENA_BOUND, ARENA_BOUND]` every tick.
pub const ARENA_BOUND: i64 = 21600;

/// Largest speed the integrator accepts, in sixtieths per tick.
pub const SPEED_LIMIT: i64 = 1000000;

/// Largest player Y magnitude the integrator accepts; keeps the unclamped
/// vertical axis free of `i64` overflow.
pub const Y_LIMIT: i64 = 0x10_0000_0000_0000;

pub open spec fn clamped(x: int, lo: int, hi: int) -> int {
    if x < lo {
        lo
    } else if x > hi {
        hi
    } else {
        x
    }
}

/// New X after one tick: displace by `dx * speed`, then clamp to the arena.
pub open spec fn moved_x(x: int, dx: int, speed: int) -> int {
    clamped(x + dx * speed, -(ARENA_BOUND as int), ARENA_BOUND as int)
}

/// New Y after one tick: displace by `dy * speed`, unclamped.
pub open spec fn moved_y(y: int, dy: int, speed: int) -> int {
    y + dy * speed
}

/// One integration step of the player position.
pub fn integrate(x: i64, y: i64, dx: i64, dy: i64, speed: i64) -> (p: (i64, i64))
    requires
        -ARENA_BOUND <= x <= ARENA_BOUND,
        -Y_LIMIT <= y <= Y_LIMIT,
        -1 <= dx <= 1,
        -1 <= dy <= 1,
        0 <= speed <= SPEED_LIMIT,
    ensures
        p.0 == moved_x(x as int, dx as int, speed as int),
        p.1 == moved_y(y as int, dy as int, speed as int),
        -ARENA_BOUND <= p.0 <= ARENA_BOUND,
        y - speed <= p.1 <= y + speed,
{
    proof {
        assert(-1000000 <= dx * speed && dx * speed <= 1000000) by (nonlinear_arith)
            requires
                -1 <= dx <= 1,
                0 <= speed <= 1000000,
        ;
        assert(-speed <= dy * speed && dy * speed <= speed) by (nonlinear_arith)
            requires
                -1 <= dy <= 1,
                0 <= speed,
        ;
    }
    let shifted: i64 = x + dx * speed;
    let nx: i64 = if shifted < -ARENA_BOUND {
        -ARENA_BOUND
    } else if shifted > ARENA_BOUND {
        ARENA_BOUND
    } else {
        shifted
    };
    let ny: i64 = y + dy * speed;
    (nx, ny)
}

} // verus!
