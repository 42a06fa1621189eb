use solsensor::energy::{
    CalendarDate, compute_energy_stats, daily_stats, day_index, interval_units, sample_le, select_samples, Energy, Ratio, Sample,
    DAILY_LIMIT, LOOKBACK_DAYS,
};
use solsensor::models::Sensor;

const DAY: i64 = 86_400;
const HOUR: i64 = 3_600;
/// 2024-03-01T00:00:00Z, day 19783.
const T0: i64 = 19_783 * DAY;
const NOW: i64 = T0 + 2 * DAY;

fn sample(timestamp: i64, milliwatts: i32) -> Sample {
    Sample { sensor_id: 7, timestamp, peak_power_uw: milliwatts * 1000 }
}

fn value(r: Ratio) -> f64 {
    r.num as f64 / r.den as f64
}

fn close(a: f64, b: f64) -> bool {
    (a - b).abs() <= 1e-2
}

/// Milliwatt-hours of a day, from the capacity factor's numerator.
fn milliwatt_hours(e: &Energy) -> f64 {
    e.cap_factor.num as f64 / 7_200_000.0
}

#[test]
fn no_reading_gives_no_day() {
    let stats = Sensor::energy_stats(7, &vec![], NOW);
    assert!(stats.is_empty());
}

#[test]
fn one_reading_gives_no_day() {
    let stats = Sensor::energy_stats(7, &vec![sample(T0 + HOUR, 100)], NOW);
    assert!(stats.is_empty());
}

#[test]
fn one_reading_in_window_beside_others_outside_gives_no_day() {
    let readings = vec![
        sample(NOW - 11 * DAY, 100),
        sample(T0 + HOUR, 100),
        Sample { sensor_id: 8, timestamp: T0 + 2 * HOUR, peak_power_uw: 5 },
    ];
    assert!(Sensor::energy_stats(7, &readings, NOW).is_empty());
}

#[test]
fn two_readings_make_one_trapezoid() {
    let readings = vec![sample(T0 + HOUR, 100), sample(T0 + 3 * HOUR, 300)];
    let stats = Sensor::energy_stats(7, &readings, NOW);
    assert_eq!(stats.len(), 1);
    let day = stats[0];
    assert_eq!(day.date, 19_783);
    assert!(close(milliwatt_hours(&day), 400.0));
    assert!(close(value(day.equiv_kWh), 3.158));
    assert!(close(value(day.cap_factor), 0.02924));
    assert!(close(value(day.dollars_saved), 0.379));
    assert!(close(value(day.co2_saved), 5.053));
}

#[test]
fn two_readings_give_exact_fractions() {
    let readings = vec![sample(T0 + HOUR, 100), sample(T0 + 3 * HOUR, 300)];
    let stats = Sensor::energy_stats(7, &readings, NOW);
    let daily: i128 = 400 * 7_200_000;
    assert_eq!(
        stats,
        vec![Energy {
            date: 19_783,
            equiv_kWh: Ratio { num: daily * 7_895, den: 7_200_000_000_000 },
            cap_factor: Ratio { num: daily, den: 98_496_000_000 },
            dollars_saved: Ratio { num: daily * 7_895 * 12, den: 720_000_000_000_000 },
            co2_saved: Ratio { num: daily * 7_895 * 16, den: 72_000_000_000_000 },
        }]
    );
}

#[test]
fn falling_power_counts_like_rising_power() {
    let up = Sensor::energy_stats(7, &vec![sample(T0, 100), sample(T0 + 2 * HOUR, 300)], NOW);
    let down = Sensor::energy_stats(7, &vec![sample(T0, 300), sample(T0 + 2 * HOUR, 100)], NOW);
    assert_eq!(up, down);
    assert_eq!(up[0].cap_factor.num, 400 * 7_200_000);
}

#[test]
fn constant_power_is_a_rectangle() {
    let readings = vec![
        sample(T0 + HOUR, 200),
        sample(T0 + 2 * HOUR, 200),
        sample(T0 + 5 * HOUR, 200),
    ];
    let stats = Sensor::energy_stats(7, &readings, NOW);
    assert_eq!(stats.len(), 1);
    assert_eq!(stats[0].cap_factor.num, 200 * 4 * 7_200_000);
    assert!(close(milliwatt_hours(&stats[0]), 800.0));
}

#[test]
fn interval_over_midnight_counts_for_its_first_day() {
    let readings = vec![sample(T0 + 23 * HOUR, 100), sample(T0 + 25 * HOUR, 100)];
    let stats = Sensor::energy_stats(7, &readings, NOW);
    assert_eq!(stats.len(), 1);
    assert_eq!(stats[0].date, 19_783);
    assert_eq!(stats[0].cap_factor.num, 200 * 7_200_000);
}

#[test]
fn reading_before_the_window_opens_no_interval() {
    let old = sample(NOW - 10 * DAY, 500);
    let first = sample(NOW - 10 * DAY + 1, 100);
    let second = sample(NOW - 10 * DAY + 1 + HOUR, 100);
    let with_old = Sensor::energy_stats(7, &vec![old, first, second], NOW);
    let without = Sensor::energy_stats(7, &vec![first, second], NOW);
    assert_eq!(with_old, without);
    assert_eq!(with_old.len(), 1);
    assert_eq!(with_old[0].cap_factor.num, 100 * 7_200_000);
}

#[test]
fn reading_at_the_edge_of_the_window_is_left_out() {
    let edge = sample(NOW - 10 * DAY, 100);
    let inside = sample(NOW - 10 * DAY + HOUR, 100);
    assert!(Sensor::energy_stats(7, &vec![edge, inside], NOW).is_empty());
}

#[test]
fn later_readings_have_no_upper_bound() {
    let readings = vec![sample(NOW + 30 * DAY, 100), sample(NOW + 30 * DAY + HOUR, 100)];
    let stats = Sensor::energy_stats(7, &readings, NOW);
    assert_eq!(stats.len(), 1);
    assert_eq!(stats[0].date, 19_783 + 32);
}

#[test]
fn readings_of_other_sensors_are_ignored() {
    let other = Sample { sensor_id: 8, timestamp: T0 + HOUR + 1, peak_power_uw: 900_000 };
    let mine = vec![sample(T0 + HOUR, 100), sample(T0 + 2 * HOUR, 100)];
    let mixed = vec![mine[0], other, mine[1]];
    assert_eq!(Sensor::energy_stats(7, &mixed, NOW), Sensor::energy_stats(7, &mine, NOW));
    assert!(Sensor::energy_stats(8, &mixed, NOW).is_empty());
}

#[test]
fn order_of_input_does_not_matter() {
    let a = sample(T0 + HOUR, 100);
    let b = sample(T0 + 2 * HOUR, 350);
    let c = sample(T0 + 26 * HOUR, 20);
    let d = sample(T0 + 27 * HOUR, 0);
    let sorted = Sensor::energy_stats(7, &vec![a, b, c, d], NOW);
    assert_eq!(sorted.len(), 2);
    assert_eq!(Sensor::energy_stats(7, &vec![d, c, b, a], NOW), sorted);
    assert_eq!(Sensor::energy_stats(7, &vec![c, a, d, b], NOW), sorted);
}

#[test]
fn order_of_readings_of_one_instant_does_not_matter() {
    let a = sample(T0, 100);
    let b = sample(T0 + HOUR, 50);
    let c = sample(T0 + HOUR, 700);
    let d = sample(T0 + 2 * HOUR, 10);
    let one = Sensor::energy_stats(7, &vec![a, b, c, d], NOW);
    let other = Sensor::energy_stats(7, &vec![a, c, b, d], NOW);
    assert_eq!(one, other);
    // (100 + 50) over the first hour, nothing between the two readings of
    // one instant, (700 + 10) over the second hour
    assert_eq!(one[0].cap_factor.num, (150 + 710) * 1000 * 3600);
}

#[test]
fn readings_of_one_instant_hold_no_energy() {
    let stats = Sensor::energy_stats(7, &vec![sample(T0, 100), sample(T0, 300)], NOW);
    assert_eq!(stats.len(), 1);
    assert_eq!(stats[0].cap_factor.num, 0);
    assert_eq!(stats[0].equiv_kWh.num, 0);
}

#[test]
fn days_come_out_by_rising_date() {
    let readings = vec![
        sample(T0 + DAY + HOUR, 100),
        sample(T0 + HOUR, 100),
        sample(T0 + DAY + 2 * HOUR, 100),
        sample(T0 + 2 * HOUR, 300),
    ];
    let stats = Sensor::energy_stats(7, &readings, NOW);
    let dates: Vec<i64> = stats.iter().map(|e| e.date).collect();
    assert_eq!(dates, vec![19_783, 19_784]);
    // day one: one hour rising from 100 to 300, then the 23 hours falling
    // back to 100 that start on it
    assert_eq!(stats[0].cap_factor.num, (200 + 23 * 200) * 7_200_000);
    assert_eq!(stats[1].cap_factor.num, 100 * 7_200_000);
}

#[test]
fn splitting_at_a_reading_adds_up() {
    let all = vec![
        sample(T0 + HOUR, 100),
        sample(T0 + 2 * HOUR, 300),
        sample(T0 + 5 * HOUR, 50),
        sample(T0 + 6 * HOUR, 70),
    ];
    let whole = daily_stats(&all);
    for cut in 0..all.len() {
        let left = daily_stats(&all[..=cut].to_vec());
        let right = daily_stats(&all[cut..].to_vec());
        let sum: i128 = left.iter().chain(right.iter()).map(|e| e.cap_factor.num).sum();
        assert_eq!(sum, whole[0].cap_factor.num);
    }
}

#[test]
fn lookback_is_ten_days_and_can_be_chosen() {
    assert_eq!(LOOKBACK_DAYS, 10);
    let readings = vec![sample(NOW - 3 * DAY, 100), sample(NOW - 3 * DAY + HOUR, 100)];
    assert_eq!(compute_energy_stats(7, 10, NOW, &readings).len(), 1);
    assert_eq!(compute_energy_stats(7, 3, NOW, &readings).len(), 0);
    assert_eq!(
        compute_energy_stats(7, LOOKBACK_DAYS, NOW, &readings),
        Sensor::energy_stats(7, &readings, NOW)
    );
}

#[test]
fn selection_sorts_and_filters() {
    let a = sample(T0 + 2 * HOUR, 5);
    let b = sample(T0 + HOUR, 9);
    let c = sample(NOW - 20 * DAY, 1);
    let d = Sample { sensor_id: 1, timestamp: T0 + HOUR, peak_power_uw: 3 };
    assert_eq!(select_samples(&vec![a, b, c, d], 7, NOW, 10), vec![b, a]);
    assert_eq!(select_samples(&vec![a, b, c, d], 1, NOW, 10), vec![d]);
}

#[test]
fn day_index_rounds_down() {
    assert_eq!(day_index(0), 0);
    assert_eq!(day_index(86_399), 0);
    assert_eq!(day_index(86_400), 1);
    assert_eq!(day_index(-1), -1);
    assert_eq!(day_index(-86_400), -1);
    assert_eq!(day_index(-86_401), -2);
    assert_eq!(day_index(T0), 19_783);
    assert_eq!(day_index(i64::MIN), -106_751_991_167_301);
    assert_eq!(day_index(i64::MAX), 106_751_991_167_300);
}

#[test]
fn interval_is_a_trapezoid() {
    // 100 mW rising to 300 mW over two hours: 400 mWh
    let e = interval_units(&sample(T0, 100), &sample(T0 + 2 * HOUR, 300));
    assert_eq!(e, 400 * 7_200_000);
    assert_eq!(e, 2 * 100_000 * 7_200 + 200_000 * 7_200);
    // equal powers: the rectangle alone
    assert_eq!(interval_units(&sample(T0, 250), &sample(T0 + HOUR, 250)), 250 * 7_200_000);
    // no time, no energy
    assert_eq!(interval_units(&sample(T0, 250), &sample(T0, 900)), 0);
    // against time the sign turns
    assert_eq!(interval_units(&sample(T0 + HOUR, 250), &sample(T0, 250)), -250 * 7_200_000);
}

#[test]
fn pairing_order_is_by_time_then_power_then_sensor() {
    let a = sample(T0, 100);
    assert!(sample_le(&a, &a));
    assert!(sample_le(&a, &sample(T0 + 1, 0)));
    assert!(!sample_le(&sample(T0 + 1, 0), &a));
    assert!(sample_le(&a, &sample(T0, 101)));
    assert!(!sample_le(&sample(T0, 101), &a));
    let other = Sample { sensor_id: 8, ..a };
    assert!(sample_le(&a, &other));
    assert!(!sample_le(&other, &a));
}

#[test]
fn days_have_calendar_dates() {
    let date = |day: i64| Energy::derive(day, 0).calendar_date();
    assert_eq!(date(19_783), Some(CalendarDate { year: 2024, month: 3, day: 1 }));
    assert_eq!(date(0), Some(CalendarDate { year: 1970, month: 1, day: 1 }));
    assert_eq!(date(-1), Some(CalendarDate { year: 1969, month: 12, day: 31 }));
    assert_eq!(date(13_036), Some(CalendarDate { year: 2005, month: 9, day: 10 }));
    assert_eq!(date(100_000_000), None);
    assert_eq!(date(i64::from(i32::MAX) + 1), None);
    assert_eq!(date(i64::MIN), None);
}

#[test]
fn derive_scales_by_the_constants() {
    let e = Energy::derive(3, 7_200_000);
    assert_eq!(e.date, 3);
    assert_eq!(e.equiv_kWh, Ratio { num: 7_200_000 * 7_895, den: 7_200_000_000_000 });
    assert_eq!(e.cap_factor, Ratio { num: 7_200_000, den: 7_200_000 * 570 * 24 });
    assert!((value(e.equiv_kWh) - 0.007895).abs() < 1e-12);
    assert!((value(e.dollars_saved) - 0.007895 * 0.12).abs() < 1e-12);
    assert!((value(e.co2_saved) - 0.007895 * 1.6).abs() < 1e-12);
    assert!((value(e.cap_factor) - 1.0 / 13_680.0).abs() < 1e-12);
}

#[test]
fn extreme_readings_stay_within_bounds() {
    let a = Sample { sensor_id: 7, timestamp: i64::MIN, peak_power_uw: i32::MAX };
    let b = Sample { sensor_id: 7, timestamp: i64::MAX, peak_power_uw: i32::MAX };
    let stats = daily_stats(&vec![a, b]);
    assert_eq!(stats.len(), 1);
    assert_eq!(stats[0].cap_factor.num, 2 * (i32::MAX as i128) * (u64::MAX as i128));
    assert!(stats[0].cap_factor.num <= DAILY_LIMIT);
    let negative = Sample { sensor_id: 7, timestamp: 0, peak_power_uw: i32::MIN };
    let stats = daily_stats(&vec![negative, Sample { timestamp: 10, ..negative }]);
    assert_eq!(stats[0].cap_factor.num, 2 * (i32::MIN as i128) * 10);
}
