//! Input mapping: the snapshot of the four directional keys becomes a
//! direction intent in `{-1, 0, 1}` per axis. Opposite keys pressed together
//! cancel to zero; diagonal intents are not normalized.

use vstd::prelude::*;

verus! {

/// Snapshot of the directional keys that are currently held down. The host
/// refreshes it once per presentation frame; the simulation only reads it.
#[derive(Clone, Copy, PartialEq, Eq, Structural, Debug)]
pub struct KeyState {
    pub left: bool,
    pub right: bool,
    pub up: bool,
    pub down: bool,
}

/// Horizontal intent: Right contributes `+1`, Left `-1`.
pub open spec fn dir_x(k: KeyState) -> int {
    (if k.right { 1int } else { 0int }) - (if k.left { 1int } else { 0int })
}

/// Vertical intent: Up contributes `+1`, Down `-1`.
pub open spec fn dir_y(k: KeyState) -> int {
    (if k.up { 1int } else { 0int }) - (if k.down { 1int } else { 0int })
}

/// Direction intent of one tick, summed from the held keys.
pub fn direction(k: KeyState) -> (d: (i64, i64))
    ensures
        d.0 == dir_x(k),
        d.1 == dir_y(k),
        -1 <= d.0 <= 1,
        -1 <= d.1 <= 1,
{
    let mut dx: i64 = 0;
    let mut dy: i64 = 0;
    if k.left {
        dx = dx - 1;
    }
    if k.right {
        dx = dx + 1;
    }
    if k.up {
        dy = dy + 1;
    }
    if k.down {
        dy = dy - 1;
    }
    (dx, dy)
}

} // verus!
