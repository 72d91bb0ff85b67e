//! Properties of the simulation that relate several functions: input
//! cancellation, symmetry and strictness of the overlap test, and the
//! end-to-end motion of a player that holds Right with no obstacle in range.

use vstd::prelude::*;
use crate::geom::{Box2, PLAYER_HALF, abs_int, correction, overlap, player_box};
use crate::input::{KeyState, dir_x, dir_y};
use crate::motion::{ARENA_BOUND, clamped, moved_x, moved_y};
use crate::world::{
    PLAYER_SPEED, SPAWN_X, SPAWN_Y, canonical_obstacles, run_pos, tick_pos,
};

verus! {

/// Pressing both keys of an axis at once yields zero net intent on that axis.
pub proof fn lemma_opposed_keys_cancel(k: KeyState)
    ensures
        k.left && k.right ==> dir_x(k) == 0,
        k.up && k.down ==> dir_y(k) == 0,
{
}

/// The overlap test is symmetric in its two boxes.
pub proof fn lemma_overlap_symmetric(a: Box2, b: Box2)
    ensures
        overlap(a, b) == overlap(b, a),
{
}

/// Boxes with zero gap between their edges on some axis — touching, not
/// interpenetrating — do not overlap.
pub proof fn lemma_touching_boxes_do_not_overlap(a: Box2, b: Box2)
    requires
        abs_int(a.cx - b.cx) == a.hw + b.hw || abs_int(a.cy - b.cy) == a.hh + b.hh,
    ensures
        !overlap(a, b),
{
}

/// A player box that overlaps no obstacle receives no collision correction.
pub proof fn lemma_unobstructed_uncorrected(p: Box2, obs: Seq<Box2>)
    requires
        forall|i: int| 0 <= i < obs.len() ==> !overlap(p, #[trigger] obs[i]),
    ensures
        correction(p, obs) == (0int, 0int),
    decreases obs.len(),
{
    if obs.len() > 0 {
        assert forall|i: int|
            0 <= i < obs.drop_last().len() implies !overlap(p, #[trigger] obs.drop_last()[i]) by {
            assert(obs.drop_last()[i] == obs[i]);
        }
        lemma_unobstructed_uncorrected(p, obs.drop_last());
        assert(obs[obs.len() - 1] == obs.last());
        assert(!overlap(p, obs.last()));
    }
}

/// A tick whose integrated position overlaps no obstacle moves the player
/// exactly as the integrator alone says: X to its clamped displacement, Y to
/// its free displacement.
pub proof fn lemma_tick_unobstructed(x: int, y: int, speed: int, obs: Seq<Box2>, k: KeyState)
    requires
        forall|i: int|
            0 <= i < obs.len() ==> !overlap(
                player_box(moved_x(x, dir_x(k), speed), moved_y(y, dir_y(k), speed)),
                #[trigger] obs[i],
            ),
    ensures
        tick_pos(x, y, speed, obs, k) == (
            moved_x(x, dir_x(k), speed),
            moved_y(y, dir_y(k), speed),
        ),
{
    lemma_unobstructed_uncorrected(
        player_box(moved_x(x, dir_x(k), speed), moved_y(y, dir_y(k), speed)),
        obs,
    );
}

/// A player box vertically separated from every obstacle receives no
/// collision correction.
pub proof fn lemma_separated_player_uncorrected(p: Box2, obs: Seq<Box2>)
    requires
        forall|i: int|
            0 <= i < obs.len() ==> abs_int(p.cy - (#[trigger] obs[i]).cy) >= p.hh + obs[i].hh,
    ensures
        correction(p, obs) == (0int, 0int),
{
    assert forall|i: int| 0 <= i < obs.len() implies !overlap(p, #[trigger] obs[i]) by {
        assert(abs_int(p.cy - obs[i].cy) >= p.hh + obs[i].hh);
    }
    lemma_unobstructed_uncorrected(p, obs);
}

/// The key state of a player that holds only Right.
pub open spec fn right_held() -> KeyState {
    KeyState { left: false, right: true, up: false, down: false }
}

/// Holding only Right from a position inside the arena and vertically clear
/// of every obstacle moves X by `speed` per tick, saturating at the arena
/// bound, and never moves Y.
pub proof fn lemma_hold_right(x: int, y: int, speed: int, obs: Seq<Box2>, n: nat)
    requires
        -(ARENA_BOUND as int) <= x <= ARENA_BOUND as int,
        0 <= speed,
        forall|i: int|
            0 <= i < obs.len() ==> abs_int(y - (#[trigger] obs[i]).cy) >= PLAYER_HALF + obs[i].hh,
    ensures
        run_pos(x, y, speed, obs, right_held(), n) == (
            clamped(x + n * speed, -(ARENA_BOUND as int), ARENA_BOUND as int),
            y,
        ),
    decreases n,
{
    let k = right_held();
    let lo = -(ARENA_BOUND as int);
    let hi = ARENA_BOUND as int;
    if n == 0 {
        assert(n * speed == 0) by (nonlinear_arith)
            requires
                n == 0,
        ;
    } else {
        assert(dir_x(k) == 1 && dir_y(k) == 0);
        assert(1 * speed == speed) by (nonlinear_arith);
        assert(0 * speed == 0) by (nonlinear_arith);
        let mx = moved_x(x, 1, speed);
        assert(mx == clamped(x + speed, lo, hi));
        assert(moved_y(y, 0, speed) == y);
        let pb = player_box(mx, y);
        lemma_separated_player_uncorrected(pb, obs);
        assert(tick_pos(x, y, speed, obs, k) == (mx, y));
        lemma_hold_right(mx, y, speed, obs, (n - 1) as nat);
        assert(n * speed == (n - 1) * speed + speed) by (nonlinear_arith)
            requires
                n >= 1,
        ;
        assert((n - 1) * speed >= 0) by (nonlinear_arith)
            requires
                n >= 1,
                speed >= 0,
        ;
        if x + speed <= hi {
            assert(mx == x + speed);
        } else {
            assert(mx == hi);
            assert(clamped(mx + (n - 1) * speed, lo, hi) == hi);
            assert(x + n * speed > hi);
        }
    }
}

/// From the standard spawn, holding Right for one simulated second — 60
/// ticks — drives the player exactly to the arena bound, and Y stays at the
/// spawn height: the standard obstacle is never in range.
pub proof fn lemma_hold_right_one_second()
    ensures
        run_pos(
            SPAWN_X as int,
            SPAWN_Y as int,
            PLAYER_SPEED as int,
            canonical_obstacles(),
            right_held(),
            60,
        ) == (ARENA_BOUND as int, SPAWN_Y as int),
{
    let obs = canonical_obstacles();
    assert forall|i: int|
        0 <= i < obs.len() implies abs_int(SPAWN_Y - (#[trigger] obs[i]).cy) >= PLAYER_HALF
        + obs[i].hh by {
        assert(obs[i] == obs[0]);
    }
    lemma_hold_right(SPAWN_X as int, SPAWN_Y as int, PLAYER_SPEED as int, obs, 60);
}

} // verus!
