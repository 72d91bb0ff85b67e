//! Fixed-timestep accumulator: converts the wall-clock time a frame took
//! into the number of 60 Hz ticks the simulation owes, carrying the
//! remainder so that no fraction of a tick is ever lost or duplicated.
//!
//! One tick lasts a sixtieth of a second, so elapsed nanoseconds are
//! accumulated scaled by 60 and one tick is owed per accumulated second:
//! after any sequence of frames the ticks run are exactly
//! `floor(total_elapsed_ns * 60 / 1e9)`.

use vstd::prelude::*;

verus! {

/// One second in nanoseconds: the accumulator grain worth one tick.
pub const NANOS_PER_SECOND: u64 = 1000000000;

/// Ticks per second of the fixed update rate.
pub const TICKS_PER_SECOND: u64 = 60;

/// Largest elapsed time one call may report, about nine years; keeps the
/// scaled accumulation inside `u64`.
pub const MAX_ELAPSED_NS: u64 = 0x400_0000_0000_0000;

/// The accumulator. `carry` holds the time already reported but not yet worth
/// a whole tick, scaled by `TICKS_PER_SECOND`.
pub struct FixedTimestep {
    pub carry: u64,
}

impl FixedTimestep {
    /// The carry is always less than one whole tick.
    pub open spec fn wf(&self) -> bool {
        self.carry < NANOS_PER_SECOND
    }

    pub fn new() -> (s: FixedTimestep)
        ensures
            s.wf(),
            s.carry == 0,
    {
        FixedTimestep { carry: 0 }
    }

    /// Reports that `elapsed_ns` more nanoseconds have passed and returns how
    /// many whole ticks the simulation now owes; the fractional remainder
    /// stays in the carry.
    pub fn advance(&mut self, elapsed_ns: u64) -> (ticks: u64)
        requires
            old(self).wf(),
            elapsed_ns <= MAX_ELAPSED_NS,
        ensures
            final(self).wf(),
            ticks == (old(self).carry + TICKS_PER_SECOND * elapsed_ns) / (
            NANOS_PER_SECOND as int),
            final(self).carry == (old(self).carry + TICKS_PER_SECOND * elapsed_ns) % (
            NANOS_PER_SECOND as int),
    {
        let total: u64 = self.carry + TICKS_PER_SECOND * elapsed_ns;
        let ticks: u64 = total / NANOS_PER_SECOND;
        self.carry = total % NANOS_PER_SECOND;
        ticks
    }
}

} // verus!
