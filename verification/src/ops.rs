//! The operations a host program runs per invocation: initializing the
//! state, processing one press, refreshing the layout list, and
//! configuring the burst window.

use vstd::prelude::*;

use crate::classifier::classify_step;
use crate::devices::contains_device;
use crate::devices::ConfigError;
use crate::duration::Duration;
use crate::duration::DEFAULT_DURATION_MICROS;
use crate::rotation::rotate_step;
use crate::state::Data;
use crate::state::StateModel;
use crate::state::MAX_TIME_MICROS;

verus! {

/// The identity permutation `0, 1, .., n-1`: the layout ordering a fresh
/// or refreshed state starts from.
pub open spec fn identity_layouts(n: int) -> Seq<int> {
    Seq::new(n as nat, |i: int| i)
}

/// The requested devices that the compositor reports as available, in
/// their requested order.
pub open spec fn kept_devices(requested: Seq<Seq<char>>, available: Seq<Seq<char>>) -> Seq<
    Seq<char>,
> {
    requested.filter(|dev: Seq<char>| available.contains(dev))
}

/// Growing a sequence by one element that the predicate of
/// [`kept_devices`] accepts appends it to the filtered sequence; one it
/// rejects leaves the filtered sequence as it was.
proof fn lemma_kept_devices_push(s: Seq<Seq<char>>, available: Seq<Seq<char>>, dev: Seq<char>)
    ensures
        kept_devices(s.push(dev), available) == if available.contains(dev) {
            kept_devices(s, available).push(dev)
        } else {
            kept_devices(s, available)
        },
{
    reveal(Seq::filter);
    assert(s.push(dev).drop_last() =~= s);
    assert(s.push(dev).last() == dev);
}

/// Builds the layout vector `0, 1, .., n-1`.
fn fresh_layouts(n: usize) -> (v: Vec<usize>)
    ensures
        v@.map_values(|x: usize| x as int) == identity_layouts(n as int),
{
    let mut v: Vec<usize> = Vec::new();
    let mut i: usize = 0;
    while i < n
        invariant
            i <= n,
            v@.len() == i,
            forall|k: int| 0 <= k < i ==> v@[k] == k,
        decreases n - i,
    {
        v.push(i);
        i += 1;
    }
    proof {
        let m = v@.map_values(|x: usize| x as int);
        assert forall|k: int| 0 <= k < n implies m[k] == identity_layouts(n as int)[k] by {
            assert(v@[k] == k);
        }
        assert(m =~= identity_layouts(n as int));
    }
    v
}

/// Builds a fresh state at time `time` (microseconds since the epoch) for
/// `layout_count` configured layouts.
///
/// Of the requested `devices`, only those the compositor reports in
/// `available` are kept, in their requested order; the caller may warn
/// about the rest.  The permutation starts as the identity, both
/// fast-access slots at slot 0, with an empty run and the default burst
/// window.
pub fn init(devices: &Vec<String>, available: &Vec<String>, layout_count: usize, time: i64) -> (d:
    Data)
    requires
        0 <= time <= MAX_TIME_MICROS,
    ensures
        d@ == (StateModel {
            devices: kept_devices(devices.deep_view(), available.deep_view()),
            last_time: time as int,
            layouts: identity_layouts(layout_count as int),
            cur_freq: 0,
            cur_all: 0,
            sum_time: 0,
            counter: 0,
            max_duration: DEFAULT_DURATION_MICROS as int,
        }),
        d@.wf(),
{
    let mut used_devices: Vec<String> = Vec::new();
    let mut i: usize = 0;
    while i < devices.len()
        invariant
            i <= devices.len(),
            used_devices.deep_view() == kept_devices(
                devices.deep_view().take(i as int),
                available.deep_view(),
            ),
        decreases devices.len() - i,
    {
        proof {
            lemma_kept_devices_push(
                devices.deep_view().take(i as int),
                available.deep_view(),
                devices.deep_view()[i as int],
            );
            assert(devices.deep_view().take(i as int).push(devices.deep_view()[i as int])
                =~= devices.deep_view().take(i + 1));
        }
        let ghost used_before = used_devices.deep_view();
        if contains_device(available, &devices[i]) {
            used_devices.push(devices[i].clone());
            proof {
                assert(used_devices.deep_view() =~= used_before.push(
                    devices.deep_view()[i as int],
                ));
            }
        }
        i += 1;
    }
    proof {
        assert(devices.deep_view().take(devices.len() as int) =~= devices.deep_view());
    }
    let d = Data {
        devices: used_devices,
        last_time: time,
        layouts: fresh_layouts(layout_count),
        cur_freq: 0,
        cur_all: 0,
        sum_time: 0,
        counter: 0,
        max_duration: Duration { micros: DEFAULT_DURATION_MICROS },
    };
    proof {
        assert(d@ =~= (StateModel {
            devices: kept_devices(devices.deep_view(), available.deep_view()),
            last_time: time as int,
            layouts: identity_layouts(layout_count as int),
            cur_freq: 0,
            cur_all: 0,
            sum_time: 0,
            counter: 0,
            max_duration: DEFAULT_DURATION_MICROS as int,
        }));
    }
    d
}

/// Processes one press at `press_time` (microseconds since the epoch):
/// classifies it against the burst window, rotates the permutation, and
/// returns the layout to apply to every registered device.
pub fn switch(data: &mut Data, press_time: i64) -> (target: usize)
    requires
        old(data)@.wf(),
        old(data).layouts.len() >= 2,
        0 <= press_time <= MAX_TIME_MICROS,
        old(data).counter < u64::MAX,
    ensures
        final(data)@ == rotate_step(classify_step(old(data)@, press_time as int)),
        final(data)@.wf(),
        target == final(data)@.layouts[final(data)@.cur_freq],
{
    data.compute_time_and_counter(press_time);
    data.handle_press()
}

/// Replaces the stored permutation by the identity ordering of
/// `layout_count` layouts, touching nothing else.  Run after the set of
/// configured layouts changed.
pub fn update_layouts(data: &mut Data, layout_count: usize)
    ensures
        final(data)@ == (StateModel {
            layouts: identity_layouts(layout_count as int),
            ..old(data)@
        }),
        old(data)@.wf() ==> final(data)@.wf(),
{
    data.layouts = fresh_layouts(layout_count);
    proof {
        assert(data@ =~= (StateModel {
            layouts: identity_layouts(layout_count as int),
            ..old(data)@
        }));
    }
}

/// Stores `micros` as the burst window when it lies inside the accepted
/// range, and rejects it without touching the state otherwise.
pub fn set_keypress_duration(data: &mut Data, micros: u64) -> (r: Result<(), ConfigError>)
    ensures
        r is Ok <==> Duration::valid_spec(micros),
        match r {
            Ok(()) => final(data)@ == (StateModel {
                max_duration: micros as int,
                ..old(data)@
            }),
            Err(e) => final(data)@ == old(data)@ && e == ConfigError::InvalidDuration,
        },
        old(data)@.wf() ==> final(data)@.wf(),
{
    if !Duration::valid(micros) {
        return Err(ConfigError::InvalidDuration);
    }
    data.max_duration = Duration { micros };
    proof {
        assert(data@ =~= (StateModel { max_duration: micros as int, ..old(data)@ }));
    }
    Ok(())
}

} // verus!
