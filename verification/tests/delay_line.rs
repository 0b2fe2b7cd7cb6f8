use synth_core::delay::DelayLine;

#[test]
fn tap_returns_sample_recorded_k_records_ago() {
    // Ring-buffer round trip: write a known sequence, read every offset back.
    let mut dl = DelayLine::new(8);
    let samples: [i64; 6] = [11, 22, 33, 44, 55, 66];
    for s in samples {
        dl.record(s);
    }
    for k in 0..6 {
        assert_eq!(dl.tap(k), samples[5 - k]);
    }
}

#[test]
fn tap_beyond_history_is_silent() {
    let mut dl = DelayLine::new(4);
    dl.record(99);
    assert_eq!(dl.tap(1), 0);
    assert_eq!(dl.tap(3), 0);
}

#[test]
fn tap_wraps_around_capacity() {
    // More records than capacity: the last `cap` samples stay reachable.
    let mut dl = DelayLine::new(4);
    for s in 1..=10i64 {
        dl.record(s);
    }
    assert_eq!(dl.tap(0), 10);
    assert_eq!(dl.tap(1), 9);
    assert_eq!(dl.tap(2), 8);
    assert_eq!(dl.tap(3), 7);
}

#[test]
fn capacity_reports_construction_size() {
    let dl = DelayLine::new(35000);
    assert_eq!(dl.capacity(), 35000);
}
