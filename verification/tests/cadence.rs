use punktfunk_webos::cadence::{frame_age, realtime_ns, CadenceSnapshot, CadenceWindow, Tick};

#[test]
fn a_tick_fires_once_per_interval() {
    let mut t = Tick::new(100, 1_000);
    assert!(!t.due(1_099));
    assert!(t.due(1_100));
    assert!(!t.due(1_199));
    assert!(t.due(1_350));
    assert!(!t.due(1_449));
    // A clock that went back does not fire.
    assert!(!t.due(0));
}

#[test]
fn realtime_fits_or_is_unknown() {
    assert_eq!(realtime_ns(None), None);
    assert_eq!(realtime_ns(Some(5)), Some(5));
    assert_eq!(realtime_ns(Some(i128::MAX as u128)), Some(i128::MAX));
    assert_eq!(realtime_ns(Some(i128::MAX as u128 + 1)), None);
}

#[test]
fn frame_ages() {
    assert_eq!(frame_age(1_000, Some(1_500), 200), Some(700));
    assert_eq!(frame_age(1_000, Some(100), -200), Some(-1_100));
    assert_eq!(frame_age(1_000, Some(1_500), 0), None);
    assert_eq!(frame_age(1_000, None, 200), None);
    assert_eq!(frame_age(0, Some(i64::MAX as i128), 1), None);
    assert_eq!(frame_age(u64::MAX, Some(0), 1), None);
    assert_eq!(frame_age(0, Some(i128::MAX), 1), None);
    assert_eq!(frame_age(1, Some(i128::MIN), -1), None);
    assert_eq!(frame_age(1, Some(i64::MAX as i128), 1), Some(i64::MAX));
}

#[test]
fn a_window_measures_source_and_delivery() {
    let mut w = CadenceWindow::default();
    w.observe(true, 1_000, 50, None, 0);
    w.observe(true, 1_008, 60, None, 0);
    w.observe(true, 1_020, 65, None, 0);
    let s = w.take();
    assert_eq!(
        s,
        CadenceSnapshot {
            aus: 3,
            source_intervals: 2,
            source_ns: 20,
            arrival_intervals: 2,
            arrival_ns: 15,
            delivery_delta_samples: 2,
            delivery_delta_abs_ns: 2 + 7,
            delivery_delta_max_ns: 7,
            max_arrival_gap_ns: 10,
            ..CadenceSnapshot::default()
        }
    );
}

#[test]
fn source_cadence_cancels_out() {
    let mut w = CadenceWindow::default();
    for (pts, now) in [(0, 100), (7, 107), (50, 150), (51, 151)] {
        w.observe(true, pts, now, None, 0);
    }
    let s = w.take();
    assert_eq!((s.delivery_delta_samples, s.delivery_delta_abs_ns, s.delivery_delta_max_ns), (3, 0, 0));
}

#[test]
fn tails_do_not_count() {
    let mut w = CadenceWindow::default();
    w.observe(true, 1, 1, None, 0);
    let before = w;
    w.observe(false, 1, 2, Some(10), 5);
    assert_eq!(w, before);
}

#[test]
fn repeated_and_backward_stamps_are_counted_apart() {
    let mut w = CadenceWindow::default();
    for (pts, now) in [(10, 1), (10, 2), (5, 3), (6, 4)] {
        w.observe(true, pts, now, None, 0);
    }
    let s = w.take();
    assert_eq!((s.repeated_pts, s.backwards_pts, s.source_intervals, s.source_ns), (1, 1, 1, 1));
    assert_eq!((s.arrival_intervals, s.delivery_delta_samples), (3, 1));
}

#[test]
fn closing_a_window_leaves_no_blind_spot() {
    let mut w = CadenceWindow::default();
    w.observe(true, 10, 100, None, 0);
    assert_eq!(w.take().aus, 1);
    w.observe(true, 20, 115, None, 0);
    let s = w.take();
    assert_eq!((s.aus, s.arrival_intervals, s.arrival_ns), (1, 1, 15));
    assert_eq!((s.source_intervals, s.source_ns, s.delivery_delta_abs_ns), (1, 10, 5));
    assert_eq!(w.take(), CadenceSnapshot::default());
}

#[test]
fn ages_are_summed_and_bounded() {
    let mut w = CadenceWindow::default();
    w.observe(true, 100, 1, Some(150), 10);
    w.observe(true, 200, 2, Some(150), 10);
    w.observe(true, 300, 3, Some(150), 0);
    let s = w.take();
    assert_eq!(s.pre_ndl_age_samples, 2);
    assert_eq!(s.pre_ndl_age_sum_ns, 60 - 40);
    assert_eq!((s.pre_ndl_age_min_ns, s.pre_ndl_age_max_ns), (Some(-40), Some(60)));
}

#[test]
fn counters_saturate() {
    let mut w = CadenceWindow { aus: u64::MAX, arrival_ns: u64::MAX - 1, ..CadenceWindow::default() };
    w.last_arrival_ns = Some(0);
    w.pre_ndl_age_sum_ns = i128::MAX;
    w.observe(true, 0, 10, Some(5), 5);
    assert_eq!((w.aus, w.arrival_ns), (u64::MAX, u64::MAX));
    assert_eq!(w.pre_ndl_age_sum_ns, i128::MAX);
    w.pre_ndl_age_sum_ns = i128::MIN;
    w.observe(true, 100, 10, Some(5), 5);
    assert_eq!(w.pre_ndl_age_sum_ns, i128::MIN);
    // The arrival clock went back: an interval of zero.
    let gap = w.max_arrival_gap_ns;
    w.observe(true, 200, 3, None, 0);
    assert_eq!((w.max_arrival_gap_ns, w.last_arrival_ns), (gap, Some(3)));
}

#[test]
fn two_windows_add_up_to_one() {
    let aus: [(u64, u64); 7] = [(10, 100), (20, 115), (30, 121), (30, 140), (25, 150), (50, 155), (61, 190)];
    let mut whole = CadenceWindow::default();
    let mut closed = CadenceWindow::default();
    let mut first = CadenceSnapshot::default();
    for (i, (pts, now)) in aus.into_iter().enumerate() {
        if i == 3 {
            first = closed.take();
        }
        whole.observe(true, pts, now, Some(i128::from(now)), 1);
        closed.observe(true, pts, now, Some(i128::from(now)), 1);
    }
    let (all, second) = (whole.take(), closed.take());
    assert_eq!(all.aus, first.aus + second.aus);
    assert_eq!(all.arrival_intervals, first.arrival_intervals + second.arrival_intervals);
    assert_eq!(all.arrival_ns, first.arrival_ns + second.arrival_ns);
    assert_eq!(all.source_ns, first.source_ns + second.source_ns);
    assert_eq!(all.delivery_delta_abs_ns, first.delivery_delta_abs_ns + second.delivery_delta_abs_ns);
    assert_eq!(all.delivery_delta_max_ns, first.delivery_delta_max_ns.max(second.delivery_delta_max_ns));
    assert_eq!(all.max_arrival_gap_ns, first.max_arrival_gap_ns.max(second.max_arrival_gap_ns));
    assert_eq!(all.pre_ndl_age_sum_ns, first.pre_ndl_age_sum_ns + second.pre_ndl_age_sum_ns);
    assert_eq!(all.pre_ndl_age_min_ns, first.pre_ndl_age_min_ns.min(second.pre_ndl_age_min_ns));
    assert_eq!(all.pre_ndl_age_max_ns, first.pre_ndl_age_max_ns.max(second.pre_ndl_age_max_ns));
}

#[test]
fn counters_agree_with_one_another() {
    let mut w = CadenceWindow::default();
    for (pts, now) in [(10, 100), (20, 115), (20, 120), (15, 121), (40, 170)] {
        w.observe(true, pts, now, Some(i128::from(now)), 3);
    }
    let s = w.take();
    assert_eq!(s.delivery_delta_samples, s.source_intervals);
    assert_eq!(s.source_intervals + s.repeated_pts + s.backwards_pts, s.arrival_intervals);
    assert!(s.delivery_delta_abs_ns <= s.delivery_delta_samples * s.delivery_delta_max_ns);
    assert!(s.arrival_ns <= s.arrival_intervals * s.max_arrival_gap_ns);
    let samples = i128::from(s.pre_ndl_age_samples);
    assert!(samples * i128::from(s.pre_ndl_age_min_ns.unwrap()) <= s.pre_ndl_age_sum_ns);
    assert!(s.pre_ndl_age_sum_ns <= samples * i128::from(s.pre_ndl_age_max_ns.unwrap()));
}
