use highway_core::observed::{Cursor, ObservedValue};

#[test]
fn observe_delivers_initial_value_once() {
    let v: ObservedValue<u64> = ObservedValue::new(11);
    let mut c = Cursor::new();
    assert_eq!(v.observe(&mut c), Some(11));
    assert_eq!(c.last_seen, 1);
    // No update since: nothing further is delivered, no duplicate.
    assert_eq!(v.observe(&mut c), None);
    assert_eq!(c.last_seen, 1);
}

#[test]
fn update_strictly_increases_version_and_replaces_value() {
    let mut v: ObservedValue<u64> = ObservedValue::new(1);
    assert_eq!(v.version, 1);
    v.update(2);
    assert_eq!(v.version, 2);
    assert_eq!(v.current, 2);
    v.update(2);
    assert_eq!(v.version, 3);
}

#[test]
fn observe_coalesces_to_last_value() {
    let mut v: ObservedValue<u64> = ObservedValue::new(10);
    let mut c = Cursor::new();
    v.update(20);
    v.update(30);
    v.update(40);
    // A busy observer skips the intermediate values and sees only the latest.
    assert_eq!(v.observe(&mut c), Some(40));
    assert_eq!(c.last_seen, 4);
    assert_eq!(v.observe(&mut c), None);
}

#[test]
fn observed_versions_strictly_increase_and_end_at_last() {
    let mut v: ObservedValue<u64> = ObservedValue::new(100);
    let mut c = Cursor::new();
    let mut seen: Vec<u64> = Vec::new();

    // Interleave updates and observations; record the version of each
    // delivery.
    if v.observe(&mut c).is_some() {
        seen.push(c.last_seen);
    }
    v.update(101);
    v.update(102);
    if v.observe(&mut c).is_some() {
        seen.push(c.last_seen);
    }
    v.update(103);
    if v.observe(&mut c).is_some() {
        seen.push(c.last_seen);
    }
    // Updates have stopped: one final observation drains the tail, then
    // nothing more arrives.
    if v.observe(&mut c).is_some() {
        seen.push(c.last_seen);
    }
    assert_eq!(v.observe(&mut c), None);

    assert_eq!(seen, vec![1, 3, 4]);
    for w in seen.windows(2) {
        assert!(w[0] < w[1]);
    }
    assert_eq!(*seen.last().unwrap(), v.version);
}

#[test]
fn two_cursors_are_independent() {
    let mut v: ObservedValue<u64> = ObservedValue::new(7);
    let mut c1 = Cursor::new();
    let mut c2 = Cursor::new();
    assert_eq!(v.observe(&mut c1), Some(7));
    v.update(8);
    // The second observer never saw 7; it goes straight to the latest value.
    assert_eq!(v.observe(&mut c2), Some(8));
    assert_eq!(v.observe(&mut c1), Some(8));
}
