use kb_switcher::devices::{add_device, contains_device, remove_device, ConfigError, DeviceCmd};
use kb_switcher::layouts::layout_count;
use kb_switcher::ops::set_keypress_duration;
use kb_switcher::Data;
use kb_switcher::Duration;

fn state() -> Data {
    Data {
        devices: vec!["kbd0".to_string(), "kbd1".to_string()],
        last_time: 10,
        layouts: vec![1, 0, 2],
        cur_freq: 1,
        cur_all: 2,
        sum_time: 0,
        counter: 2,
        max_duration: Duration { micros: 500_000 },
    }
}

#[test]
fn duration_bounds_are_inclusive() {
    assert!(Duration::valid(200_000));
    assert!(Duration::valid(1_000_000));
    assert!(!Duration::valid(199_999));
    assert!(!Duration::valid(1_000_001));
}

#[test]
fn duration_bounds_from_seconds() {
    // The bounds in seconds, as a host would convert them.
    let micros = |seconds: f64| (seconds * 1_000_000.0).round() as u64;
    assert!(Duration::valid(micros(0.2)));
    assert!(Duration::valid(micros(1.0)));
    assert!(!Duration::valid(micros(0.199999)));
    assert!(!Duration::valid(micros(1.000001)));
}

#[test]
fn duration_satisfies_is_strict() {
    let d = Duration { micros: 400_000 };
    assert!(d.satisfies(399_999));
    assert!(!d.satisfies(400_000));
    assert!(d.satisfies(-1));
    assert!(d.satisfies(0));
}

#[test]
fn default_duration() {
    let d: Duration = Default::default();
    assert_eq!(d.micros, 400_000);
}

#[test]
fn set_duration_accepts_valid_value() {
    let mut data = state();
    let r = set_keypress_duration(&mut data, 300_000);
    assert_eq!(r, Ok(()));
    assert_eq!(data.max_duration.micros, 300_000);
}

#[test]
fn set_duration_rejects_out_of_range() {
    let mut data = state();
    let r = set_keypress_duration(&mut data, 100_000);
    assert_eq!(r, Err(ConfigError::InvalidDuration));
    assert_eq!(data.max_duration.micros, 500_000);
    let r = set_keypress_duration(&mut data, 1_500_000);
    assert_eq!(r, Err(ConfigError::InvalidDuration));
    assert_eq!(data.max_duration.micros, 500_000);
}

#[test]
fn set_duration_with_stored_value_changes_nothing() {
    let mut data = state();
    let r = set_keypress_duration(&mut data, 500_000);
    assert_eq!(r, Ok(()));
    let reference = state();
    assert_eq!(data.devices, reference.devices);
    assert_eq!(data.last_time, reference.last_time);
    assert_eq!(data.layouts, reference.layouts);
    assert_eq!(data.cur_freq, reference.cur_freq);
    assert_eq!(data.cur_all, reference.cur_all);
    assert_eq!(data.sum_time, reference.sum_time);
    assert_eq!(data.counter, reference.counter);
    assert_eq!(data.max_duration, reference.max_duration);
}

#[test]
fn add_device_rejects_unknown_name() {
    let mut data = state();
    let available = vec!["kbd0".to_string()];
    let r = add_device(&mut data, &"ghost".to_string(), &available);
    assert_eq!(r, Err(ConfigError::UnknownDevice));
    assert_eq!(data.devices, vec!["kbd0".to_string(), "kbd1".to_string()]);
}

#[test]
fn add_device_appends_known_name() {
    let mut data = state();
    let available = vec!["kbd2".to_string(), "kbd0".to_string()];
    let r = add_device(&mut data, &"kbd2".to_string(), &available);
    assert_eq!(r, Ok(()));
    assert_eq!(
        data.devices,
        vec!["kbd0".to_string(), "kbd1".to_string(), "kbd2".to_string()]
    );
}

#[test]
fn add_device_allows_duplicates() {
    let mut data = state();
    let available = vec!["kbd0".to_string()];
    let r = add_device(&mut data, &"kbd0".to_string(), &available);
    assert_eq!(r, Ok(()));
    assert_eq!(
        data.devices,
        vec!["kbd0".to_string(), "kbd1".to_string(), "kbd0".to_string()]
    );
}

#[test]
fn remove_device_removes_first_match_only() {
    let mut data = state();
    data.devices = vec![
        "kbd1".to_string(),
        "kbd0".to_string(),
        "kbd1".to_string(),
    ];
    let removed = remove_device(&mut data, &"kbd1".to_string());
    assert!(removed);
    assert_eq!(data.devices, vec!["kbd0".to_string(), "kbd1".to_string()]);
}

#[test]
fn remove_device_absent_is_noop() {
    let mut data = state();
    let removed = remove_device(&mut data, &"ghost".to_string());
    assert!(!removed);
    assert_eq!(data.devices, vec!["kbd0".to_string(), "kbd1".to_string()]);
}

#[test]
fn contains_device_finds_names() {
    let list = vec!["a".to_string(), "b".to_string()];
    assert!(contains_device(&list, &"a".to_string()));
    assert!(contains_device(&list, &"b".to_string()));
    assert!(!contains_device(&list, &"c".to_string()));
    assert!(!contains_device(&Vec::new(), &"a".to_string()));
}

#[test]
fn device_cmd_dispatches() {
    let available = vec!["kbd2".to_string()];
    let mut data = state();

    let r = DeviceCmd::List.handle(&mut data, &available);
    assert_eq!(r, Ok(()));
    assert_eq!(data.devices, vec!["kbd0".to_string(), "kbd1".to_string()]);

    let r = DeviceCmd::Add { device_name: "kbd2".to_string() }.handle(&mut data, &available);
    assert_eq!(r, Ok(()));
    assert_eq!(
        data.devices,
        vec!["kbd0".to_string(), "kbd1".to_string(), "kbd2".to_string()]
    );

    let r = DeviceCmd::Remove { device_name: "kbd0".to_string() }.handle(&mut data, &available);
    assert_eq!(r, Ok(()));
    assert_eq!(data.devices, vec!["kbd1".to_string(), "kbd2".to_string()]);
}

#[test]
fn well_formedness_check() {
    assert!(state().is_well_formed());

    // Not a permutation: a duplicated entry.
    let mut bad = state();
    bad.layouts = vec![1, 1, 2];
    assert!(!bad.is_well_formed());

    // An entry out of range.
    let mut bad = state();
    bad.layouts = vec![0, 1, 3];
    assert!(!bad.is_well_formed());

    // The active slot out of the two fast-access slots.
    let mut bad = state();
    bad.cur_freq = 2;
    assert!(!bad.is_well_formed());

    // A burst window outside the accepted range.
    let mut bad = state();
    bad.max_duration = Duration { micros: 0 };
    assert!(!bad.is_well_formed());

    // A confirmed run must carry a cleared accumulator.
    let mut bad = state();
    bad.counter = 2;
    bad.sum_time = 5;
    assert!(!bad.is_well_formed());
}

#[test]
fn layout_count_splits_on_commas() {
    assert_eq!(layout_count("us,ru,de"), 3);
    assert_eq!(layout_count("us"), 1);
    assert_eq!(layout_count(""), 1);
    assert_eq!(layout_count("a,,b"), 3);
    assert_eq!(layout_count("us,"), 2);
}
