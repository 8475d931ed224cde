//! Fixed-cadence timers: each subsystem of the simulation runs on its
//! own logical clock (economy twice a second, flight sixty times a
//! second, the AI once every five seconds). A timer accumulates elapsed
//! time and says how many logical steps are due, independent of the
//! frame rate that drives it.

use vstd::prelude::*;

verus! {

/// Milliseconds between economy steps (twice per second).
pub const ECONOMY_PERIOD_MS: u64 = 500;

/// Milliseconds between flight steps (about sixty per second, at the
/// resolution of whole milliseconds).
pub const FLIGHT_PERIOD_MS: u64 = 16;

/// Milliseconds between AI passes (every five seconds).
pub const AI_PERIOD_MS: u64 = 5000;

/// A fixed-cadence timer: fires once per full period of accumulated
/// time.
pub struct Cadence {
    /// The period, in milliseconds; always positive.
    pub period_ms: u64,
    /// Time accumulated toward the next firing; always under the
    /// period.
    pub acc_ms: u64,
}

impl Cadence {
    /// The timer's invariant.
    pub open spec fn wf(self) -> bool {
        0 < self.period_ms && self.acc_ms < self.period_ms
    }

    /// A fresh timer with the given period and nothing accumulated.
    pub fn new(period_ms: u64) -> (c: Cadence)
        requires
            period_ms > 0,
        ensures
            c.wf(),
            c.period_ms == period_ms,
            c.acc_ms == 0,
    {
        Cadence { period_ms, acc_ms: 0 }
    }

    /// Account for `dt_ms` more milliseconds: returns how many steps
    /// are now due and keeps the remainder toward the next one.
    pub fn advance(&mut self, dt_ms: u64) -> (fires: u64)
        requires
            old(self).wf(),
            old(self).acc_ms + dt_ms <= u64::MAX,
        ensures
            final(self).wf(),
            final(self).period_ms == old(self).period_ms,
            fires == (old(self).acc_ms + dt_ms) / (old(self).period_ms as int),
            final(self).acc_ms == (old(self).acc_ms + dt_ms) % (old(self).period_ms as int),
    {
        let total = self.acc_ms + dt_ms;
        let fires = total / self.period_ms;
        self.acc_ms = total % self.period_ms;
        fires
    }
}

} // verus!
