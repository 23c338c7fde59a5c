//! Debounce gates. A cooldown is a (last-fired timestamp, minimum interval)
//! pair that makes a repeatable action refuse to re-fire faster than the
//! interval. Timestamps and intervals are in microseconds; the caller samples
//! a monotonic clock once per frame and passes the value in explicitly.

use vstd::prelude::*;

verus! {

/// A debounce gate: an action guarded by this cooldown may fire only once at
/// least `interval` microseconds have passed since it last fired. A gate that
/// has never fired is open.
#[derive(Clone, Copy, Debug)]
pub struct Cooldown {
    /// Timestamp of the last successful firing, `None` before the first one.
    pub last_fired: Option<u64>,
    /// Minimum number of microseconds between two firings.
    pub interval: u64,
}

impl Cooldown {
    /// Open at `now`: either this cooldown never fired, or at least
    /// `interval` microseconds have passed since it last fired.
    pub open spec fn ready(self, now: u64) -> bool {
        match self.last_fired {
            None => true,
            Some(t) => now >= t + self.interval,
        }
    }

    /// This cooldown as it stands after firing at `now`.
    pub open spec fn fired(self, now: u64) -> Cooldown {
        Cooldown { last_fired: Some(now), interval: self.interval }
    }

    /// A fresh, open gate with the given minimum interval.
    pub fn new(interval: u64) -> (c: Cooldown)
        ensures
            c == (Cooldown { last_fired: None::<u64>, interval }),
    {
        Cooldown { last_fired: None, interval }
    }

    /// Point-in-time query: may the guarded action fire at `now`?
    pub fn is_ready(&self, now: u64) -> (r: bool)
        ensures
            r == self.ready(now),
    {
        match self.last_fired {
            None => true,
            Some(t) => now >= t && now - t >= self.interval,
        }
    }

    /// Record a successful firing at `now`.
    pub fn fire(&mut self, now: u64)
        ensures
            *final(self) == old(self).fired(now),
    {
        self.last_fired = Some(now);
    }
}

/// Exclusivity of a cooldown gate: once the guarded action fires at `t0`, no
/// attempt succeeds again before `t0 + interval`, and every attempt from
/// `t0 + interval` on finds it open again.
pub proof fn lemma_cooldown_exclusion(c: Cooldown, t0: u64, t1: u64)
    ensures
        c.fired(t0).ready(t1) <==> t1 >= t0 + c.interval,
{
}

} // verus!
