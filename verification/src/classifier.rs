//! The press classifier: given the time of a new press, updates the run
//! accumulator and the run-length counter of the state.

use vstd::prelude::*;

use crate::state::Data;
use crate::state::StateModel;
use crate::state::MAX_TIME_MICROS;

verus! {

/// What one press at time `t` does to the timing fields of the state.
///
/// The elapsed time since the previous press is added to the accumulator
/// (a negative difference, from a clock that went backwards, is allowed
/// and only helps).  While the accumulator stays inside the burst window
/// the run grows by one; otherwise the accumulator restarts at zero and a
/// new run of length one begins.  Once a run is confirmed (length two or
/// more) the accumulator is cleared, so that from the third press on each
/// gap is judged on its own.
pub open spec fn classify_step(s: StateModel, t: int) -> StateModel {
    let diff = t - s.last_time;
    let summed = s.sum_time + diff;
    let within = summed < s.max_duration;
    let counter = if within { s.counter + 1 } else { 1 };
    let sum_time = if !within || counter >= 2 { 0 } else { summed };
    StateModel { last_time: t, sum_time, counter, ..s }
}

impl Data {
    /// Classifies a press at `press_time` (microseconds since the epoch):
    /// updates `last_time`, `sum_time` and `counter` exactly as
    /// [`classify_step`] says, and touches nothing else.
    pub fn compute_time_and_counter(&mut self, press_time: i64)
        requires
            old(self)@.wf(),
            0 <= press_time <= MAX_TIME_MICROS,
            old(self).counter < u64::MAX,
        ensures
            final(self)@ == classify_step(old(self)@, press_time as int),
            final(self)@.wf(),
            final(self)@.counter >= 1,
    {
        let diff = press_time - self.last_time;
        self.last_time = press_time;

        self.sum_time = self.sum_time + diff;

        if self.max_duration.satisfies(self.sum_time) {
            self.counter = self.counter + 1;
        } else {
            self.sum_time = 0;
            self.counter = 1;
        }

        if self.counter >= 2 {
            self.sum_time = 0;
        }

        proof {
            assert(self@ =~= classify_step(old(self)@, press_time as int));
        }
    }
}

} // verus!
