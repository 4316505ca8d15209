//! The cleanup scheduler's decision logic.
//!
//! A single long-lived background task runs for the process lifetime,
//! waking on a fixed interval. The first tick is consumed without action
//! (warm-up); every later tick triggers one sweep of the revocation
//! store. The timer itself and the loop that calls
//! [`crate::auth::JwtAuth::cleanup_blacklist`] live outside the library.

use vstd::prelude::*;

verus! {

/// Sweep interval used when none is configured: ten minutes.
pub const DEFAULT_SWEEP_INTERVAL_SECS: u64 = 600;

/// Decides, tick by tick, whether the background task should sweep.
pub struct CleanupScheduler {
    interval_secs: u64,
    warmed_up: bool,
}

impl CleanupScheduler {
    /// Whether the warm-up tick has already been consumed.
    pub closed spec fn has_warmed_up(&self) -> bool {
        self.warmed_up
    }

    /// The configured pause between ticks.
    pub closed spec fn interval(&self) -> u64 {
        self.interval_secs
    }

    /// A scheduler that will wake every `interval_secs` seconds and has
    /// not seen its warm-up tick yet.
    pub fn new(interval_secs: u64) -> (r: CleanupScheduler)
        ensures
            r.interval() == interval_secs,
            !r.has_warmed_up(),
    {
        CleanupScheduler { interval_secs, warmed_up: false }
    }

    /// The configured pause between ticks, for the timer outside.
    pub fn interval_secs(&self) -> (r: u64)
        ensures
            r == self.interval(),
    {
        self.interval_secs
    }

    /// One timer tick: says whether to sweep now. The warm-up tick
    /// answers no; every tick after it answers yes.
    pub fn on_tick(&mut self) -> (sweep: bool)
        ensures
            sweep == old(self).has_warmed_up(),
            final(self).has_warmed_up(),
            final(self).interval() == old(self).interval(),
    {
        let sweep = self.warmed_up;
        self.warmed_up = true;
        sweep
    }
}

} // verus!
