use sysmon_core::ring::RingHistory;
use sysmon_core::HISTORY_LEN;

#[test]
fn starts_full_of_the_neutral_value() {
    let h: RingHistory<u64> = RingHistory::new(HISTORY_LEN, 0);
    assert_eq!(h.capacity(), HISTORY_LEN);
    assert_eq!(h.len(), HISTORY_LEN);
    for i in 0..HISTORY_LEN {
        assert_eq!(h.get(i), 0);
    }
}

#[test]
fn length_stays_at_capacity_through_every_push() {
    let mut h: RingHistory<u64> = RingHistory::new(HISTORY_LEN, 0);
    for v in 0..200u64 {
        h.push(v);
        assert_eq!(h.len(), HISTORY_LEN);
    }
}

#[test]
fn window_keeps_the_last_capacity_values_in_push_order() {
    let mut h: RingHistory<u64> = RingHistory::new(60, 0);
    for v in 1..=70u64 {
        h.push(v);
    }
    assert_eq!(h.len(), 60);
    for i in 0..60 {
        assert_eq!(h.get(i), 11 + i as u64);
    }
    assert_eq!(h.get(0), 11);
    assert_eq!(h.newest(), 70);
}

#[test]
fn fewer_pushes_than_capacity_evict_only_fill() {
    let mut h: RingHistory<u64> = RingHistory::new(3, 0);
    h.push(1);
    h.push(2);
    assert_eq!(h.len(), 3);
    assert_eq!(h.get(0), 0);
    assert_eq!(h.get(1), 1);
    assert_eq!(h.get(2), 2);
}
