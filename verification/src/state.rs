//! The persisted entity of the switcher: the layout permutation, the two
//! most-recently-used slots, the run accumulator and the device list,
//! together with its mathematical model and well-formedness invariant.

use vstd::prelude::*;

use crate::duration::Duration;
use crate::duration::MAX_DURATION_MICROS;
use crate::duration::MIN_DURATION_MICROS;

verus! {

/// Largest timestamp (microseconds since the epoch) the engine accepts:
/// 2^60 us, far beyond any realistic wall-clock reading, while leaving
/// room for the accumulator arithmetic inside `i64`.
pub const MAX_TIME_MICROS: i64 = 0x1000_0000_0000_0000;

/// The whole switcher state, as one plain value.
///
/// A host program loads it from durable storage, passes it through the
/// press classifier and the rotation engine, and stores it back.  All
/// times are integer microseconds.
#[derive(Debug)]
pub struct Data {
    /// Devices that layout changes are applied to; insertion order kept.
    pub devices: Vec<String>,
    /// Timestamp of the most recently processed press, microseconds since
    /// the epoch.
    pub last_time: i64,
    /// The current layout ordering: a permutation of `0..layouts.len()`.
    /// `layouts[cur_freq]` is the active layout.
    pub layouts: Vec<usize>,
    /// Slot holding the currently active layout; always `0` or `1`.
    pub cur_freq: usize,
    /// The rotation cursor: the slot visited by a sustained rapid-tap run.
    pub cur_all: usize,
    /// Rolling accumulator (microseconds) for the in-progress tap run.
    pub sum_time: i64,
    /// Length of the current run of presses inside the burst window.
    pub counter: u64,
    /// The configured burst window.
    pub max_duration: Duration,
}

/// The mathematical model of [`Data`]: the same fields over unbounded
/// integers and sequences.
#[verifier::ext_equal]
pub ghost struct StateModel {
    pub devices: Seq<Seq<char>>,
    pub last_time: int,
    pub layouts: Seq<int>,
    pub cur_freq: int,
    pub cur_all: int,
    pub sum_time: int,
    pub counter: int,
    pub max_duration: int,
}

impl View for Data {
    type V = StateModel;

    open spec fn view(&self) -> StateModel {
        StateModel {
            devices: self.devices.deep_view(),
            last_time: self.last_time as int,
            layouts: self.layouts@.map_values(|v: usize| v as int),
            cur_freq: self.cur_freq as int,
            cur_all: self.cur_all as int,
            sum_time: self.sum_time as int,
            counter: self.counter as int,
            max_duration: self.max_duration.micros as int,
        }
    }
}

/// `s` is a permutation of `0..s.len()`: every entry is in range and no
/// two entries are equal.
pub open spec fn is_permutation(s: Seq<int>) -> bool {
    &&& forall|i: int| 0 <= i < s.len() ==> 0 <= #[trigger] s[i] < s.len()
    &&& forall|i: int, j: int| 0 <= i < j < s.len() ==> s[i] != s[j]
}

/// Whether `v` is a permutation of `0..v.len()`.
fn check_permutation(v: &Vec<usize>) -> (r: bool)
    ensures
        r == is_permutation(v@.map_values(|x: usize| x as int)),
{
    let ghost m = v@.map_values(|x: usize| x as int);
    let n = v.len();
    let mut i: usize = 0;
    while i < n
        invariant
            i <= n,
            n == v.len(),
            m == v@.map_values(|x: usize| x as int),
            forall|k: int| 0 <= k < i ==> 0 <= #[trigger] m[k] < n,
            forall|k: int, l: int| 0 <= k < l < i ==> m[k] != m[l],
        decreases n - i,
    {
        if v[i] >= n {
            proof {
                assert(m[i as int] >= n);
            }
            return false;
        }
        let mut j: usize = 0;
        while j < i
            invariant
                j <= i < n,
                n == v.len(),
                m == v@.map_values(|x: usize| x as int),
                forall|k: int| 0 <= k < j ==> m[k] != m[i as int],
            decreases i - j,
        {
            if v[j] == v[i] {
                proof {
                    assert(m[j as int] == m[i as int]);
                }
                return false;
            }
            j += 1;
        }
        i += 1;
    }
    true
}

impl Data {
    /// Whether the whole state is well-formed, exactly as
    /// [`StateModel::wf`] asks: run on a state read from untrusted
    /// storage before handing it to the engine.
    pub fn is_well_formed(&self) -> (r: bool)
        ensures
            r == self@.wf(),
    {
        check_permutation(&self.layouts) && self.cur_freq < 2 && MIN_DURATION_MICROS
            <= self.max_duration.micros && self.max_duration.micros <= MAX_DURATION_MICROS && 0
            <= self.last_time && self.last_time <= MAX_TIME_MICROS && -MAX_TIME_MICROS
            <= self.sum_time && self.sum_time <= MAX_DURATION_MICROS as i64 && (self.counter != 0
            || self.sum_time == 0) && (self.counter < 2 || self.sum_time == 0)
    }
}

impl StateModel {
    /// Well-formedness: established at initialization and preserved by
    /// every operation of the library.
    ///
    /// `cur_freq` stays below 2 because a lone tap only ever toggles it
    /// between the two fast-access slots and a run never moves it.  The
    /// accumulator is zero outside a freshly started run (`counter == 1`),
    /// and even then stays below the largest accepted burst window.
    pub open spec fn wf(self) -> bool {
        &&& is_permutation(self.layouts)
        &&& 0 <= self.cur_freq < 2
        &&& 0 <= self.cur_all
        &&& MIN_DURATION_MICROS <= self.max_duration <= MAX_DURATION_MICROS
        &&& 0 <= self.last_time <= MAX_TIME_MICROS
        &&& -MAX_TIME_MICROS <= self.sum_time <= MAX_DURATION_MICROS
        &&& 0 <= self.counter
        &&& (self.counter == 0 ==> self.sum_time == 0)
        &&& (self.counter >= 2 ==> self.sum_time == 0)
    }
}

} // verus!
