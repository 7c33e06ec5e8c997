//! When the track on display is due for a refresh.

use vstd::prelude::*;

verus! {

/// The time between two refreshes, in milliseconds.
pub const REFRESH_INTERVAL_MS: u64 = 2000;

/// The fixed cadence of refreshes. It runs by the clock alone: whether an
/// earlier refresh has been answered plays no part in it.
#[derive(Debug, Clone, Copy, PartialEq, Eq, Structural)]
pub struct Cadence {
    /// The time after which the next refresh is due, in milliseconds.
    pub next_refresh_ms: u64,
}

/// The time after which the refresh that follows the one at `due_ms` is due.
pub open spec fn following(due_ms: u64) -> u64 {
    if due_ms + REFRESH_INTERVAL_MS <= u64::MAX {
        (due_ms + REFRESH_INTERVAL_MS) as u64
    } else {
        u64::MAX
    }
}

impl Default for Cadence {
    /// The cadence whose first refresh is due as soon as time has passed.
    fn default() -> (cadence: Cadence)
        ensures
            cadence.next_refresh_ms == 0,
    {
        Cadence { next_refresh_ms: 0 }
    }
}

impl Cadence {
    /// Whether a refresh is due at `now_ms`. Where it is, the next one is
    /// due one interval after this one was, however late this one is.
    pub fn tick(&mut self, now_ms: u64) -> (due: bool)
        ensures
            due == (now_ms > old(self).next_refresh_ms),
            final(self).next_refresh_ms == if due {
                following(old(self).next_refresh_ms)
            } else {
                old(self).next_refresh_ms
            },
    {
        if now_ms > self.next_refresh_ms {
            self.next_refresh_ms = self.next_refresh_ms.saturating_add(REFRESH_INTERVAL_MS);
            true
        } else {
            false
        }
    }
}

} // verus!
