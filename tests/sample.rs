use load_avg_monitor::sample::{round_to, LoadAvgValue, RawLoadAvg, SAMPLE_PLACES};

#[test]
fn round_to_drops_extra_places() {
    // 1.23456 -> 1.23
    assert_eq!(round_to(1_234_560, 2), 123);
}

#[test]
fn round_to_half_goes_away_from_zero() {
    // 2.005 -> 2.01
    assert_eq!(round_to(2_005_000, 2), 201);
    // just under the half stays down
    assert_eq!(round_to(2_004_999, 2), 200);
}

#[test]
fn round_to_zero_is_zero() {
    assert_eq!(round_to(0, 2), 0);
}

#[test]
fn round_to_other_places() {
    assert_eq!(round_to(1_500_000, 0), 2);
    assert_eq!(round_to(1_499_999, 0), 1);
    assert_eq!(round_to(1_234_567, 6), 1_234_567);
    assert_eq!(round_to(1_234_567, 5), 123_457);
}

#[test]
fn round_to_largest_reading() {
    assert_eq!(round_to(u64::MAX, 0), u64::MAX / 1_000_000 + 1);
    assert_eq!(round_to(u64::MAX, 6), u64::MAX);
}

#[test]
fn from_raw_rounds_each_field() {
    let v = LoadAvgValue::from_raw(RawLoadAvg { one: 154_000, five: 221_000, fifteen: 301_000 });
    assert_eq!(v, LoadAvgValue { one_m: 15, five_m: 22, fifteen_m: 30 });
    assert_eq!(SAMPLE_PLACES, 2);
}

#[test]
fn default_sample_is_zero() {
    assert_eq!(LoadAvgValue::default(), LoadAvgValue { one_m: 0, five_m: 0, fifteen_m: 0 });
}
