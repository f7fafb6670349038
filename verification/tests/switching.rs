use kb_switcher::duration::DEFAULT_DURATION_MICROS;
use kb_switcher::ops::{init, switch, update_layouts};
use kb_switcher::Data;
use kb_switcher::Duration;

fn state(layouts: Vec<usize>, cur_freq: usize, cur_all: usize, counter: u64) -> Data {
    Data {
        devices: vec!["kbd0".to_string()],
        last_time: 0,
        layouts,
        cur_freq,
        cur_all,
        sum_time: 0,
        counter,
        max_duration: Duration { micros: 400_000 },
    }
}

#[test]
fn lone_tap_toggles_two_layouts() {
    // A lone tap: the gap is far beyond the window, so the run restarts
    // at length one and the active slot toggles from 0 to 1.
    let mut data = state(vec![0, 1], 0, 1, 0);
    let target = switch(&mut data, 1_000_000);
    assert_eq!(data.counter, 1);
    assert_eq!(data.cur_freq, 1);
    assert_eq!(data.layouts, vec![0, 1]);
    assert_eq!(target, 1);
}

#[test]
fn lone_tap_toggles_back() {
    let mut data = state(vec![0, 1], 0, 1, 0);
    switch(&mut data, 1_000_000);
    let target = switch(&mut data, 2_000_000);
    assert_eq!(data.cur_freq, 0);
    assert_eq!(data.layouts, vec![0, 1]);
    assert_eq!(target, 0);
}

#[test]
fn three_layout_burst() {
    // Presses 50 ms apart on three layouts.  The first press leaves a
    // fresh run of one with 50 ms accumulated; the second confirms the
    // run (cumulative 100 ms inside the 400 ms window), plants the
    // cursor on slot 2 and promotes that layout; the third advances the
    // cursor, which wraps onto the active slot and probes one further.
    let mut data = state(vec![0, 1, 2], 0, 1, 1);
    data.last_time = 50_000;
    data.sum_time = 50_000;

    let target = switch(&mut data, 100_000);
    assert_eq!(data.counter, 2);
    assert_eq!(data.sum_time, 0);
    assert_eq!(data.cur_all, 2);
    assert_eq!(data.layouts, vec![2, 1, 0]);
    assert_eq!(target, 2);

    let target = switch(&mut data, 150_000);
    assert_eq!(data.counter, 3);
    assert_eq!(data.cur_all, 1);
    assert_eq!(data.layouts, vec![1, 2, 0]);
    assert_eq!(target, 1);
}

#[test]
fn long_pause_breaks_run() {
    // A confirmed run, then a press a full window after the last one:
    // the run restarts at length one and the press acts as a lone tap.
    let mut data = state(vec![2, 1, 0], 0, 2, 3);
    data.last_time = 150_000;
    let layouts_before = data.layouts.clone();
    let cur_all_before = data.cur_all;

    let target = switch(&mut data, 150_000 + 400_000);
    assert_eq!(data.counter, 1);
    assert_eq!(data.sum_time, 0);
    assert_eq!(data.layouts, layouts_before);
    assert_eq!(data.cur_all, cur_all_before);
    assert_eq!(data.cur_freq, 1);
    assert_eq!(target, 1);
}

#[test]
fn cumulative_window_rejects_slow_pair() {
    // Two presses whose gaps sum to the window do not form a run: the
    // second press restarts the run instead of confirming it.
    let mut data = state(vec![0, 1, 2], 0, 1, 1);
    data.last_time = 200_000;
    data.sum_time = 200_000;
    switch(&mut data, 400_000);
    assert_eq!(data.counter, 1);
    assert_eq!(data.sum_time, 0);
    // The permutation was not touched; only the active slot toggled.
    assert_eq!(data.layouts, vec![0, 1, 2]);
    assert_eq!(data.cur_freq, 1);
}

#[test]
fn clock_regression_is_tolerated() {
    // A press timestamped before the stored one yields a negative gap,
    // which only helps the press stay inside the window.
    let mut data = state(vec![0, 1], 0, 1, 1);
    data.last_time = 500_000;
    data.sum_time = 0;
    switch(&mut data, 300_000);
    assert_eq!(data.counter, 2);
    assert_eq!(data.last_time, 300_000);
    assert_eq!(data.sum_time, 0);
}

#[test]
fn burst_cursor_skips_active_slot() {
    // The cursor lands on the active slot and probes one slot further.
    let mut data = state(vec![0, 1, 2], 1, 0, 2);
    // A zero gap keeps the run alive: counter 3, cursor steps 0 -> 1,
    // which is the active slot, so it probes on to 2.
    let target = switch(&mut data, 0);
    assert_eq!(data.counter, 3);
    assert_eq!(data.cur_all, 2);
    assert_eq!(data.layouts, vec![0, 2, 1]);
    assert_eq!(target, 2);
}

#[test]
fn burst_probe_wraps_past_last_slot() {
    // With two layouts and the active slot on the last position, the
    // cursor's probe past the active slot would step out of the
    // permutation; it wraps to slot 0 instead.
    let mut data = state(vec![0, 1], 1, 0, 3);
    let target = switch(&mut data, 0);
    // counter 4 > 2: cursor steps 0 -> 1, the active slot; the probe
    // would reach slot 2, one past the end, and wraps to slot 0.
    assert_eq!(data.counter, 4);
    assert_eq!(data.cur_all, 0);
    assert_eq!(data.layouts, vec![1, 0]);
    assert_eq!(target, 0);
}

#[test]
fn burst_visits_every_dormant_slot_before_repeating() {
    // Four layouts, active slot 0: a sustained zero-gap run must visit
    // slots 1, 2, 3 (each exactly once) in the next three presses, and
    // only then revisit one.
    let mut data = state(vec![3, 1, 2, 0], 0, 1, 2);
    let mut visited = Vec::new();
    for _ in 0..3 {
        switch(&mut data, 0);
        assert_eq!(data.cur_freq, 0);
        visited.push(data.cur_all);
    }
    let mut sorted = visited.clone();
    sorted.sort_unstable();
    assert_eq!(sorted, vec![1, 2, 3]);
    // The sweep ends where it started, and only then does the walk
    // begin to repeat slots.
    assert_eq!(*visited.last().unwrap(), 1);
    switch(&mut data, 0);
    assert_eq!(data.cur_all, visited[0]);
}

#[test]
fn counter_keeps_growing_in_burst() {
    let mut data = state(vec![0, 1, 2], 0, 1, 2);
    for expected in 3..40u64 {
        switch(&mut data, 0);
        assert_eq!(data.counter, expected);
    }
}

#[test]
fn init_builds_fresh_state() {
    let requested = vec![
        "kbd0".to_string(),
        "ghost".to_string(),
        "kbd1".to_string(),
    ];
    let available = vec!["kbd1".to_string(), "kbd0".to_string()];
    let data = init(&requested, &available, 3, 1_700_000_000_000_000);
    assert_eq!(data.devices, vec!["kbd0".to_string(), "kbd1".to_string()]);
    assert_eq!(data.last_time, 1_700_000_000_000_000);
    assert_eq!(data.layouts, vec![0, 1, 2]);
    assert_eq!(data.cur_freq, 0);
    assert_eq!(data.cur_all, 0);
    assert_eq!(data.sum_time, 0);
    assert_eq!(data.counter, 0);
    assert_eq!(data.max_duration.micros, DEFAULT_DURATION_MICROS);
}

#[test]
fn update_layouts_resets_permutation_only() {
    let mut data = state(vec![2, 1, 0], 1, 2, 5);
    data.last_time = 42;
    data.sum_time = 7;
    update_layouts(&mut data, 5);
    assert_eq!(data.layouts, vec![0, 1, 2, 3, 4]);
    assert_eq!(data.cur_freq, 1);
    assert_eq!(data.cur_all, 2);
    assert_eq!(data.counter, 5);
    assert_eq!(data.last_time, 42);
    assert_eq!(data.sum_time, 7);
}
