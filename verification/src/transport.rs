//! Transport state: the mutable values shared between the control API and
//! the pipeline's callback threads.
//!
//! The loop flag is a single independent boolean gate (an atomic with relaxed
//! ordering in the running system) and lives as a plain field on the player.
//! The playback rate needs more: reading the rate and emitting the matching
//! seek event must be observed as a unit, so it sits behind a
//! mutual-exclusion lock that is only ever acquired without blocking.
//! `RateLock` is the model of that lock: `held` says the other side (a
//! pending update on a callback thread) currently owns it.

use vstd::prelude::*;

verus! {

/// The rate a player starts at: real time, in thousandths.
pub const DEFAULT_RATE_MILLI: i64 = 1000;

/// The playback rate, in thousandths, behind its mutual-exclusion lock.
#[derive(Clone, Copy, Debug, PartialEq, Eq, Structural)]
pub struct RateLock {
    /// Whether a pending update on another thread holds the lock right now.
    pub held: bool,
    /// Playback rate in thousandths of real time: 1000 is real time, 500 is
    /// half speed, 2000 is double speed.
    pub rate_milli: i64,
}

impl RateLock {
    /// A fresh lock: free, rate at real time.
    pub fn new() -> (r: Self)
        ensures
            r == (RateLock { held: false, rate_milli: DEFAULT_RATE_MILLI }),
    {
        RateLock { held: false, rate_milli: DEFAULT_RATE_MILLI }
    }

    /// Take the lock without blocking, as a pending update on a callback
    /// thread would.  Returns false, changing nothing, when it is already
    /// owned.
    pub fn acquire(&mut self) -> (r: bool)
        ensures
            r == !old(self).held,
            *final(self) == (RateLock { held: true, ..*old(self) }),
    {
        let was_free = !self.held;
        self.held = true;
        was_free
    }

    /// Give the lock back.
    pub fn release(&mut self)
        ensures
            *final(self) == (RateLock { held: false, ..*old(self) }),
    {
        self.held = false;
    }
}

/// Cached video metadata, recorded once capability negotiation has told the
/// engine what the source decodes to.  The framerate is kept as the exact
/// rational the runtime reports.
#[derive(Clone, Copy, Debug, PartialEq, Eq, Structural)]
pub struct VideoDetails {
    /// Frame width in pixels.
    pub width: i32,
    /// Frame height in pixels.
    pub height: i32,
    /// Numerator of the framerate fraction.
    pub fps_num: i32,
    /// Denominator of the framerate fraction.
    pub fps_den: i32,
}

} // verus!
