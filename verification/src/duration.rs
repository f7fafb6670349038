//! The burst-window policy: how close together two presses must be to
//! count as part of the same rapid-tap run.

use vstd::prelude::*;

verus! {

/// Smallest accepted burst window: 0.2 s.
pub const MIN_DURATION_MICROS: u64 = 200_000;

/// Largest accepted burst window: 1.0 s.
pub const MAX_DURATION_MICROS: u64 = 1_000_000;

/// Burst window used when none was ever configured: 0.4 s.
pub const DEFAULT_DURATION_MICROS: u64 = 400_000;

/// The burst-window threshold, in microseconds.
///
/// A configured value is accepted only inside `[0.2 s, 1.0 s]`; see
/// [`Duration::valid`].
#[derive(Clone, Copy, Debug, PartialEq, Eq, Structural)]
pub struct Duration {
    pub micros: u64,
}

impl Duration {
    /// An accepted threshold lies between 0.2 s and 1.0 s, both inclusive.
    pub open spec fn valid_spec(micros: u64) -> bool {
        MIN_DURATION_MICROS <= micros <= MAX_DURATION_MICROS
    }

    /// Whether `micros` may be stored as a burst window.
    pub fn valid(micros: u64) -> (r: bool)
        ensures
            r == Self::valid_spec(micros),
    {
        MIN_DURATION_MICROS <= micros && micros <= MAX_DURATION_MICROS
    }

    /// An elapsed time satisfies the window when it is strictly below the
    /// threshold.
    pub open spec fn satisfies_spec(self, elapsed: int) -> bool {
        elapsed < self.micros as int
    }

    /// Whether an elapsed time (possibly negative, when the clock went
    /// backwards) is strictly inside the burst window.
    pub fn satisfies(&self, elapsed: i64) -> (r: bool)
        ensures
            r == self.satisfies_spec(elapsed as int),
    {
        if elapsed < 0 {
            true
        } else {
            (elapsed as u64) < self.micros
        }
    }
}

impl Default for Duration {
    /// The default burst window of 0.4 s.
    fn default() -> (d: Duration)
        ensures
            d.micros == DEFAULT_DURATION_MICROS,
            Duration::valid_spec(d.micros),
    {
        Duration { micros: DEFAULT_DURATION_MICROS }
    }
}

} // verus!
