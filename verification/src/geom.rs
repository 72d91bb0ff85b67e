//! Axis-aligned boxes, the strict overlap test, collision faces and the
//! push-out correction applied to the player.
//!
//! The model type `Box2` carries a box's center and half-extents as
//! mathematical integers; the executable `Aabb` mirrors it in `i64`
//! sixtieths of a world unit.

use vstd::prelude::*;

verus! {

/// Push-out distance applied on a detected collision face: 10 world units.
pub const PUSH: i64 = 600;

/// Half-extent of the player's square box (the standard obstacle uses the
/// same one): 15 world units, i.e. a 30 by 30 box.
pub const PLAYER_HALF: i64 = 900;

/// Largest magnitude allowed for a box center coordinate. Keeps every sum
/// and difference in the overlap arithmetic well inside `i64`.
pub const COORD_LIMIT: i64 = 0x40_0000_0000_0000;

/// Largest half-extent a box may have.
pub const EXTENT_LIMIT: i64 = 0x1_0000_0000;

/// Most obstacles a world may carry; bounds the total push-out of one tick.
pub const MAX_OBSTACLES: usize = 16;

pub open spec fn abs_int(x: int) -> int {
    if x < 0 { -x } else { x }
}

/// Mathematical model of an axis-aligned box: center and half-extents.
pub ghost struct Box2 {
    pub cx: int,
    pub cy: int,
    pub hw: int,
    pub hh: int,
}

/// An axis-aligned box: center `(cx, cy)` and half-extents `(hw, hh)`, all in
/// sixtieths of a world unit.
#[derive(Clone, Copy, PartialEq, Eq, Structural, Debug)]
pub struct Aabb {
    pub cx: i64,
    pub cy: i64,
    pub hw: i64,
    pub hh: i64,
}

impl View for Aabb {
    type V = Box2;

    open spec fn view(&self) -> Box2 {
        Box2 { cx: self.cx as int, cy: self.cy as int, hw: self.hw as int, hh: self.hh as int }
    }
}

impl Aabb {
    pub open spec fn wf(&self) -> bool {
        &&& -COORD_LIMIT <= self.cx <= COORD_LIMIT
        &&& -COORD_LIMIT <= self.cy <= COORD_LIMIT
        &&& 0 <= self.hw <= EXTENT_LIMIT
        &&& 0 <= self.hh <= EXTENT_LIMIT
    }

    pub fn new(cx: i64, cy: i64, hw: i64, hh: i64) -> (b: Aabb)
        requires
            -COORD_LIMIT <= cx <= COORD_LIMIT,
            -COORD_LIMIT <= cy <= COORD_LIMIT,
            0 <= hw <= EXTENT_LIMIT,
            0 <= hh <= EXTENT_LIMIT,
        ensures
            b.wf(),
            b@ == (Box2 { cx: cx as int, cy: cy as int, hw: hw as int, hh: hh as int }),
    {
        Aabb { cx, cy, hw, hh }
    }
}

/// Two boxes overlap when they interpenetrate strictly on both axes; boxes
/// whose edges merely touch do not overlap.
pub open spec fn overlap(a: Box2, b: Box2) -> bool {
    abs_int(a.cx - b.cx) < a.hw + b.hw && abs_int(a.cy - b.cy) < a.hh + b.hh
}

/// Strict AABB overlap test.
pub fn overlaps(a: &Aabb, b: &Aabb) -> (r: bool)
    requires
        a.wf(),
        b.wf(),
    ensures
        r == overlap(a@, b@),
{
    let dx: i64 = if a.cx >= b.cx { a.cx - b.cx } else { b.cx - a.cx };
    let dy: i64 = if a.cy >= b.cy { a.cy - b.cy } else { b.cy - a.cy };
    dx < a.hw + b.hw && dy < a.hh + b.hh
}

/// The side of an obstacle on which the player's box sits when the two
/// overlap: `Left` means the player entered from the obstacle's left, and so
/// on.
#[derive(Clone, Copy, PartialEq, Eq, Structural, Debug)]
pub enum Face {
    Left,
    Right,
    Top,
    Bottom,
}

/// Face of minimum penetration between an overlapping player box `p` and
/// obstacle box `o`; `None` when they do not overlap. On equal penetration
/// depths the horizontal axis wins, and a box exactly centered on the other's
/// axis counts as `Right` (respectively `Top`).
pub open spec fn contact_face(p: Box2, o: Box2) -> Option<Face> {
    if !overlap(p, o) {
        None
    } else {
        let pen_x = p.hw + o.hw - abs_int(p.cx - o.cx);
        let pen_y = p.hh + o.hh - abs_int(p.cy - o.cy);
        if pen_x <= pen_y {
            if p.cx < o.cx { Some(Face::Left) } else { Some(Face::Right) }
        } else {
            if p.cy < o.cy { Some(Face::Bottom) } else { Some(Face::Top) }
        }
    }
}

/// Executable mirror of `contact_face`.
pub fn collision_face(p: &Aabb, o: &Aabb) -> (f: Option<Face>)
    requires
        p.wf(),
        o.wf(),
    ensures
        f == contact_face(p@, o@),
{
    if !overlaps(p, o) {
        return None;
    }
    let dx: i64 = if p.cx >= o.cx { p.cx - o.cx } else { o.cx - p.cx };
    let dy: i64 = if p.cy >= o.cy { p.cy - o.cy } else { o.cy - p.cy };
    let pen_x: i64 = p.hw + o.hw - dx;
    let pen_y: i64 = p.hh + o.hh - dy;
    if pen_x <= pen_y {
        if p.cx < o.cx { Some(Face::Left) } else { Some(Face::Right) }
    } else {
        if p.cy < o.cy { Some(Face::Bottom) } else { Some(Face::Top) }
    }
}

/// Push-out applied for a detected face: a `Left`-face contact pushes the
/// player `+10` units on X and a `Right`-face contact `-10`; the vertical
/// faces are resolved by the symmetric rule on Y (`Bottom` pushes `+10`,
/// `Top` pushes `-10`).
pub open spec fn nudge(f: Option<Face>) -> (int, int) {
    match f {
        None => (0int, 0int),
        Some(Face::Left) => (PUSH as int, 0int),
        Some(Face::Right) => (-(PUSH as int), 0int),
        Some(Face::Top) => (0int, -(PUSH as int)),
        Some(Face::Bottom) => (0int, PUSH as int),
    }
}

/// The player's box at a given center.
pub open spec fn player_box(cx: int, cy: int) -> Box2 {
    Box2 { cx: cx, cy: cy, hw: PLAYER_HALF as int, hh: PLAYER_HALF as int }
}

/// Views of a sequence of executable boxes.
pub open spec fn boxes_of(s: Seq<Aabb>) -> Seq<Box2> {
    s.map_values(|a: Aabb| a@)
}

/// Accumulated push-out of the player box `p` against every obstacle: the
/// corrections of all overlapping obstacles, each computed against the same
/// pre-correction player position, summed per axis.
pub open spec fn correction(p: Box2, obs: Seq<Box2>) -> (int, int)
    decreases obs.len(),
{
    if obs.len() == 0 {
        (0int, 0int)
    } else {
        let rest = correction(p, obs.drop_last());
        let n = nudge(contact_face(p, obs.last()));
        (rest.0 + n.0, rest.1 + n.1)
    }
}

/// The accumulated correction is at most `PUSH` per obstacle on each axis,
/// and is zero unless some obstacle overlaps the player box.
pub proof fn lemma_correction_props(p: Box2, obs: Seq<Box2>)
    ensures
        abs_int(correction(p, obs).0) <= PUSH * obs.len(),
        abs_int(correction(p, obs).1) <= PUSH * obs.len(),
        correction(p, obs).0 != 0 ==> exists|i: int| 0 <= i < obs.len() && overlap(p, obs[i]),
        correction(p, obs).1 != 0 ==> exists|i: int| 0 <= i < obs.len() && overlap(p, obs[i]),
    decreases obs.len(),
{
    if obs.len() > 0 {
        lemma_correction_props(p, obs.drop_last());
        let rest = correction(p, obs.drop_last());
        let last = obs.last();
        if rest.0 != 0 || rest.1 != 0 {
            let i = choose|i: int|
                0 <= i < obs.drop_last().len() && overlap(p, obs.drop_last()[i]);
            if 0 <= i < obs.drop_last().len() && overlap(p, obs.drop_last()[i]) {
                assert(obs[i] == obs.drop_last()[i]);
                assert(overlap(p, obs[i]));
            }
        }
        if nudge(contact_face(p, last)) != (0int, 0int) {
            assert(overlap(p, last));
            assert(obs[obs.len() - 1] == last);
        }
    }
}

/// Accumulated push-out of the player box centered at `(px, py)` against a
/// vector of obstacle boxes.
pub fn resolve_collisions(px: i64, py: i64, obstacles: &Vec<Aabb>) -> (c: (i64, i64))
    requires
        -COORD_LIMIT <= px <= COORD_LIMIT,
        -COORD_LIMIT <= py <= COORD_LIMIT,
        forall|i: int| 0 <= i < obstacles@.len() ==> (#[trigger] obstacles@[i]).wf(),
        obstacles@.len() <= MAX_OBSTACLES,
    ensures
        c.0 == correction(player_box(px as int, py as int), boxes_of(obstacles@)).0,
        c.1 == correction(player_box(px as int, py as int), boxes_of(obstacles@)).1,
{
    let ghost pb = player_box(px as int, py as int);
    let ghost all = boxes_of(obstacles@);
    let p = Aabb { cx: px, cy: py, hw: PLAYER_HALF, hh: PLAYER_HALF };
    assert(p@ == pb);
    let mut cx: i64 = 0;
    let mut cy: i64 = 0;
    let mut i: usize = 0;
    proof {
        assert(all.take(0int) =~= Seq::<Box2>::empty());
    }
    while i < obstacles.len()
        invariant
            0 <= i <= obstacles@.len(),
            obstacles@.len() <= MAX_OBSTACLES,
            -COORD_LIMIT <= px <= COORD_LIMIT,
            -COORD_LIMIT <= py <= COORD_LIMIT,
            forall|j: int| 0 <= j < obstacles@.len() ==> (#[trigger] obstacles@[j]).wf(),
            p@ == pb,
            p.wf(),
            all == boxes_of(obstacles@),
            pb == player_box(px as int, py as int),
            cx == correction(pb, all.take(i as int)).0,
            cy == correction(pb, all.take(i as int)).1,
            -9600 <= cx <= 9600,
            -9600 <= cy <= 9600,
        decreases obstacles@.len() - i,
    {
        let f = collision_face(&p, &obstacles[i]);
        proof {
            assert(all[i as int] == obstacles@[i as int]@);
            assert(all.take(i as int + 1).drop_last() =~= all.take(i as int));
            assert(all.take(i as int + 1).last() == all[i as int]);
        }
        match f {
            Some(Face::Left) => { cx = cx + PUSH; },
            Some(Face::Right) => { cx = cx - PUSH; },
            Some(Face::Top) => { cy = cy - PUSH; },
            Some(Face::Bottom) => { cy = cy + PUSH; },
            None => {},
        }
        i = i + 1;
        proof {
            lemma_correction_props(pb, all.take(i as int));
            assert(all.take(i as int).len() == i as int);
            assert(PUSH * (i as int) <= 9600) by (nonlinear_arith)
                requires
                    0 < i as int <= 16,
                    PUSH == 600,
            ;
        }
    }
    proof {
        assert(all.take(obstacles@.len() as int) =~= all);
    }
    (cx, cy)
}

} // verus!
