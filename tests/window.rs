use load_avg_monitor::sample::LoadAvgValue;
use load_avg_monitor::view::Series;
use load_avg_monitor::window::{SlidingWindow, CAPACITY};

fn value(n: u64) -> LoadAvgValue {
    LoadAvgValue { one_m: n, five_m: n + 1, fifteen_m: n + 2 }
}

#[test]
fn fresh_window_holds_sentinels() {
    let w = SlidingWindow::new();
    assert_eq!(w.len(), CAPACITY);
    assert_eq!(w.last(), None);
    let items = w.iterate();
    assert_eq!(items.len(), 200);
    for (k, (i, v)) in items.iter().enumerate() {
        assert_eq!(*i, k);
        assert_eq!(*v, LoadAvgValue::default());
    }
}

#[test]
fn length_stays_fixed_over_pushes() {
    let mut w = SlidingWindow::default();
    for n in 0..1000u64 {
        w.push(value(n));
        assert_eq!(w.len(), CAPACITY);
        assert_eq!(w.iterate().len(), CAPACITY);
    }
}

#[test]
fn keeps_last_capacity_values_in_order() {
    let mut w = SlidingWindow::new();
    let n: u64 = 450;
    for k in 1..=n {
        w.push(value(k));
    }
    let items = w.iterate();
    assert_eq!(items.len(), CAPACITY);
    for (i, (idx, v)) in items.iter().enumerate() {
        assert_eq!(*idx, i);
        assert_eq!(*v, value(n - 200 + 1 + i as u64));
    }
    assert_eq!(w.last(), Some(value(n)));
    assert_eq!(w.get(0), value(251));
}

#[test]
fn two_hundred_one_pushes_evict_the_first() {
    let mut w = SlidingWindow::new();
    for k in 1..=201u64 {
        w.push(value(k));
    }
    let items = w.iterate();
    assert_eq!(items.len(), 200);
    assert!(items.iter().all(|(_, v)| *v != value(1)));
    assert_eq!(items[0].1, value(2));
    assert_eq!(items[199].1, value(201));
}

#[test]
fn iterate_twice_agrees() {
    let mut w = SlidingWindow::new();
    for k in 1..=37u64 {
        w.push(value(k));
    }
    let a = w.iterate();
    let b = w.iterate();
    assert_eq!(a, b);
}

#[test]
fn series_leave_out_zero_readings() {
    let mut w = SlidingWindow::new();
    w.push(LoadAvgValue { one_m: 5, five_m: 0, fifteen_m: 7 });
    w.push(LoadAvgValue { one_m: 0, five_m: 3, fifteen_m: 8 });
    assert_eq!(w.series(Series::OneMinute), vec![(198, 5)]);
    assert_eq!(w.series(Series::FiveMinute), vec![(199, 3)]);
    assert_eq!(w.series(Series::FifteenMinute), vec![(198, 7), (199, 8)]);
}

#[test]
fn y_axis_end_follows_newest_reading() {
    let mut w = SlidingWindow::new();
    assert_eq!(w.y_spec_end(), 100);
    w.push(LoadAvgValue { one_m: 0, five_m: 0, fifteen_m: 0 });
    assert_eq!(w.y_spec_end(), 250);
    w.push(LoadAvgValue { one_m: 42, five_m: 1, fifteen_m: 1 });
    assert_eq!(w.y_spec_end(), 292);
    w.push(LoadAvgValue { one_m: u64::MAX, five_m: 1, fifteen_m: 1 });
    assert_eq!(w.y_spec_end(), u64::MAX as u128 + 250);
}

#[test]
fn chart_data_of_fresh_window() {
    let w = SlidingWindow::new();
    let d = w.chart_data();
    assert_eq!(d.y_end, 100);
    assert_eq!(d.x_end, 199);
    assert!(d.one_m.is_empty());
    assert!(d.five_m.is_empty());
    assert!(d.fifteen_m.is_empty());
}
