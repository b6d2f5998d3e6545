use done_bot::buckets::{bucket_hourly, bucket_monthly, tally_hour, tally_month};
use done_bot::calendar::CivilTime;
use done_bot::chart::{prepare_annual_data, prepare_hourly_data};

const DAY: i64 = 86_400;
const JAN_1_2024: i64 = 1_704_067_200;
const MAR_1_2024: i64 = 1_709_251_200;

#[test]
fn hourly_counts_same_day() {
    let base = JAN_1_2024;
    let ts = vec![base + 10, base + 3599, base + 5 * 3600, base + 23 * 3600 + 59 * 60];
    let counts = bucket_hourly(&ts);
    let mut expected = [0usize; 24];
    expected[0] = 2;
    expected[5] = 1;
    expected[23] = 1;
    assert_eq!(counts, expected);
}

#[test]
fn hourly_counts_across_days_and_years() {
    let ts = vec![7 * 3600, DAY + 7 * 3600 + 1, JAN_1_2024 + 7 * 3600, MAR_1_2024 + 8 * 3600];
    let counts = bucket_hourly(&ts);
    assert_eq!(counts[7], 3);
    assert_eq!(counts[8], 1);
    assert_eq!(counts.iter().sum::<usize>(), 4);
}

#[test]
fn hourly_before_the_epoch() {
    let counts = bucket_hourly(&vec![-1, -3600, -3601]);
    assert_eq!(counts[23], 2);
    assert_eq!(counts[22], 1);
    assert_eq!(counts.iter().sum::<usize>(), 3);
}

#[test]
fn hourly_drops_what_is_no_instant() {
    let ts = vec![0, i64::MAX, i64::MIN, 3600];
    let counts = bucket_hourly(&ts);
    assert_eq!(counts[0], 1);
    assert_eq!(counts[1], 1);
    assert_eq!(counts.iter().sum::<usize>(), 2);
}

#[test]
fn hourly_empty_is_all_zero() {
    assert_eq!(bucket_hourly(&Vec::new()), [0usize; 24]);
}

#[test]
fn monthly_empty_is_all_zero() {
    assert_eq!(bucket_monthly(&Vec::new(), 2024), [0usize; 12]);
}

#[test]
fn monthly_counts_only_the_year() {
    let ts = vec![
        JAN_1_2024,
        JAN_1_2024 + 30 * DAY,
        MAR_1_2024,
        MAR_1_2024 + DAY,
        MAR_1_2024 + 30 * DAY + 86_399,
        JAN_1_2024 - 1,
    ];
    let counts = bucket_monthly(&ts, 2024);
    let mut expected = [0usize; 12];
    expected[0] = 2;
    expected[2] = 3;
    assert_eq!(counts, expected);
    let earlier = bucket_monthly(&ts, 2023);
    assert_eq!(earlier[11], 1);
    assert_eq!(earlier.iter().sum::<usize>(), 1);
}

#[test]
fn monthly_leap_day_is_february() {
    let feb_29 = JAN_1_2024 + (31 + 28) * DAY;
    let counts = bucket_monthly(&vec![feb_29, feb_29 + DAY], 2024);
    assert_eq!(counts[1], 1);
    assert_eq!(counts[2], 1);
}

#[test]
fn monthly_year_without_events() {
    let counts = bucket_monthly(&vec![JAN_1_2024, i64::MAX], 1999);
    assert_eq!(counts, [0usize; 12]);
}

#[test]
fn monthly_epoch_is_january_1970() {
    let counts = bucket_monthly(&vec![0, -1], 1970);
    assert_eq!(counts[0], 1);
    assert_eq!(bucket_monthly(&vec![0, -1], 1969)[11], 1);
}

#[test]
fn hourly_data_has_no_labels() {
    let data = prepare_hourly_data(vec![JAN_1_2024, JAN_1_2024 + 1, JAN_1_2024 + 12 * 3600]);
    assert_eq!(data.len(), 24);
    assert_eq!(data[0].value, 2);
    assert_eq!(data[12].value, 1);
    assert!(data.iter().all(|d| d.label.is_none()));
    assert_eq!(data.iter().map(|d| d.value).sum::<usize>(), 3);
}

#[test]
fn annual_data_has_twelve_bars() {
    let data = prepare_annual_data(vec![JAN_1_2024, MAR_1_2024, JAN_1_2024 - 1], 2024);
    assert_eq!(data.len(), 12);
    assert_eq!(data[0].value, 1);
    assert_eq!(data[2].value, 1);
    assert!(data.iter().all(|d| d.label.is_none()));
    assert_eq!(data.iter().map(|d| d.value).sum::<usize>(), 2);
}

fn at(year: i32, month: u32, hour: u32) -> Option<CivilTime> {
    Some(CivilTime { year, month, hour })
}

#[test]
fn tally_hour_raises_the_bucket_of_the_hour() {
    let mut expected = [0usize; 24];
    expected[5] = 1;
    let once = tally_hour([0usize; 24], at(2024, 1, 5));
    assert_eq!(once, expected);
    expected[5] = 2;
    expected[23] = 1;
    assert_eq!(tally_hour(tally_hour(once, at(1999, 12, 5)), at(2024, 1, 23)), expected);
}

#[test]
fn tally_hour_leaves_the_counts_without_an_instant() {
    let mut counts = [0usize; 24];
    counts[3] = 7;
    assert_eq!(tally_hour(counts, None), counts);
}

#[test]
fn tally_hour_leaves_the_counts_where_none_can_rise() {
    let mut counts = [1usize; 24];
    assert_eq!(tally_hour(counts, at(2024, 1, 24)), counts);
    counts[0] = usize::MAX;
    assert_eq!(tally_hour(counts, at(2024, 1, 0)), counts);
}

#[test]
fn tally_month_raises_the_bucket_of_the_month() {
    let mut expected = [0usize; 12];
    expected[0] = 1;
    let once = tally_month([0usize; 12], at(2024, 1, 9), 2024);
    assert_eq!(once, expected);
    expected[11] = 1;
    assert_eq!(tally_month(once, at(2024, 12, 0), 2024), expected);
}

#[test]
fn tally_month_leaves_out_other_years() {
    let counts = [2usize; 12];
    assert_eq!(tally_month(counts, at(2023, 3, 9), 2024), counts);
    assert_eq!(tally_month(counts, None, 2024), counts);
}

#[test]
fn tally_month_leaves_the_counts_where_none_can_rise() {
    let mut counts = [0usize; 12];
    assert_eq!(tally_month(counts, at(2024, 0, 1), 2024), counts);
    assert_eq!(tally_month(counts, at(2024, 13, 1), 2024), counts);
    counts[5] = usize::MAX;
    assert_eq!(tally_month(counts, at(2024, 6, 1), 2024), counts);
}
