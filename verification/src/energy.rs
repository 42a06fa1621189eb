//! Daily energy statistics from irregular power readings.
//!
//! Readings carry whole seconds and whole microwatts, so every quantity here
//! is an exact integer or an exact fraction. The energy of the span between
//! two readings is counted in half microwatt-seconds, the unit in which the
//! trapezoid between two whole powers over whole seconds is itself whole.

use crate::outside::{date_of_epoch_days, epoch_date};
use vstd::prelude::*;
use vstd::relations::{sorted_by, total_ordering};
use vstd::seq_lib::{lemma_sorted_unique, to_multiset_build, to_multiset_insert};

verus! {

/// Seconds in one calendar day.
pub const SECONDS_PER_DAY: i64 = 86_400;

/// Days that the statistics look back from the present.
pub const LOOKBACK_DAYS: u32 = 10;

/// Half microwatt-seconds in one milliwatt-hour.
pub const UNITS_PER_MWH: i128 = 7_200_000;

/// Factor from the harvest measured to the output of the reference system.
pub const EQUIVALENT_SCALE: i128 = 7_895;

/// Milliwatt-hours in one kilowatt-hour.
pub const MWH_PER_KWH: i128 = 1_000_000;

/// Rated power of the panel, in milliwatts.
pub const RATED_POWER_MW: i128 = 570;

/// Hours in one day.
pub const HOURS_PER_DAY: i128 = 24;

/// Largest magnitude of a day's energy that the statistics are derived from.
pub const DAILY_LIMIT: i128 = 0x1_0000_0000_0000_0000_0000_0000;

/// One power reading of a sensor.
#[derive(Clone, Copy, Debug, PartialEq, Eq)]
pub struct Sample {
    pub sensor_id: i32,
    /// Seconds since 1970-01-01T00:00:00 UTC.
    pub timestamp: i64,
    /// Peak power in microwatts.
    pub peak_power_uw: i32,
}

/// An exact fraction `num / den`.
#[derive(Clone, Copy, Debug, PartialEq, Eq)]
pub struct Ratio {
    pub num: i128,
    pub den: i128,
}

/// A date of the calendar.
#[derive(Clone, Copy, Debug, PartialEq, Eq)]
pub struct CalendarDate {
    pub year: i32,
    pub month: u32,
    pub day: u32,
}

/// The statistics of one sensor on one calendar day.
#[allow(non_snake_case)]
#[derive(Clone, Copy, Debug, PartialEq, Eq)]
pub struct Energy {
    /// Days since 1970-01-01, in UTC.
    pub date: i64,
    /// Output of the reference system, in kilowatt-hours.
    pub equiv_kWh: Ratio,
    /// Energy produced over the energy of a full day at rated power.
    pub cap_factor: Ratio,
    /// Twelve hundredths for each kilowatt-hour of `equiv_kWh`.
    pub dollars_saved: Ratio,
    /// Sixteen tenths for each kilowatt-hour of `equiv_kWh`.
    pub co2_saved: Ratio,
}

/// The calendar day, counted from 1970-01-01, that holds a timestamp.
pub open spec fn day_of(timestamp: int) -> int {
    timestamp / 86_400
}

/// The instant after which a reading counts, `lookback_days` before `now`.
pub open spec fn window_start(now: int, lookback_days: int) -> int {
    now - lookback_days * 86_400
}

/// Whether a reading belongs to the sensor and lies after `start`.
pub open spec fn in_window(s: Sample, sensor_id: i32, start: int) -> bool {
    s.sensor_id == sensor_id && s.timestamp > start
}

/// `in_window` as a predicate on readings.
pub open spec fn window_pred(sensor_id: i32, start: int) -> spec_fn(Sample) -> bool {
    |s: Sample| in_window(s, sensor_id, start)
}

/// The order in which readings are paired: by time, and among readings of
/// one instant by power, then by sensor.
pub open spec fn sample_leq(a: Sample, b: Sample) -> bool {
    a.timestamp < b.timestamp || (a.timestamp == b.timestamp && (a.peak_power_uw
        < b.peak_power_uw || (a.peak_power_uw == b.peak_power_uw && a.sensor_id <= b.sensor_id)))
}

/// `sample_leq` as a relation on readings.
pub open spec fn sample_order() -> spec_fn(Sample, Sample) -> bool {
    |a: Sample, b: Sample| sample_leq(a, b)
}

/// The readings of the sensor after `start`, in pairing order.
pub open spec fn selected(samples: Seq<Sample>, sensor_id: i32, start: int) -> Seq<Sample> {
    samples.filter(window_pred(sensor_id, start)).sort_by(sample_order())
}

/// Energy between two readings in half microwatt-seconds: the rectangle
/// under the lower power plus the triangle up to the higher one.
pub open spec fn interval_energy(a: Sample, b: Sample) -> int {
    let dt = b.timestamp - a.timestamp;
    let p0 = if a.peak_power_uw <= b.peak_power_uw {
        a.peak_power_uw as int
    } else {
        b.peak_power_uw as int
    };
    let dp = if a.peak_power_uw <= b.peak_power_uw {
        b.peak_power_uw - a.peak_power_uw
    } else {
        a.peak_power_uw - b.peak_power_uw
    };
    2 * p0 * dt + dp * dt
}

/// Energy of the first `k` intervals of `s` that start on `day`. Interval
/// `j` runs from `s[j]` to `s[j + 1]` and counts wholly for the day on which
/// it starts.
pub open spec fn energy_before(s: Seq<Sample>, day: int, k: int) -> int
    decreases k,
{
    if k <= 0 {
        0
    } else {
        energy_before(s, day, k - 1) + if k < s.len() && day_of(s[k - 1].timestamp as int) == day {
            interval_energy(s[k - 1], s[k])
        } else {
            0
        }
    }
}

/// Energy of all intervals of `s` that start on `day`.
pub open spec fn day_energy(s: Seq<Sample>, day: int) -> int {
    energy_before(s, day, s.len() - 1)
}

/// Whether the timestamps of `s` never fall.
pub open spec fn time_ordered(s: Seq<Sample>) -> bool {
    forall|i: int, j: int| 0 <= i < j < s.len() ==> s[i].timestamp <= s[j].timestamp
}

/// Whether one of the first `k` intervals of `s` starts on `day`.
pub open spec fn starts_before(s: Seq<Sample>, day: int, k: int) -> bool {
    exists|j: int| 0 <= j < k && j + 1 < s.len() && day_of(#[trigger] s[j].timestamp as int) == day
}

/// Whether an interval of `s` starts on `day`.
pub open spec fn has_interval_on(s: Seq<Sample>, day: int) -> bool {
    starts_before(s, day, s.len() - 1)
}

/// Year, month and day of a day counted from 1970-01-01, where the count
/// fits 32 bits and the calendar reaches it.
pub open spec fn calendar_of(day: int) -> Option<(int, int, int)> {
    if i32::MIN <= day <= i32::MAX {
        epoch_date(day)
    } else {
        None
    }
}

impl Ratio {
    /// Whether `self` is written as `num` over `den`.
    pub open spec fn is(self, num: int, den: int) -> bool {
        self.num == num && self.den == den
    }
}

impl Energy {
    /// Whether `self` is the record of `date` for a day's energy of `daily`
    /// half microwatt-seconds.
    pub open spec fn describes(self, date: int, daily: int) -> bool {
        &&& self.date == date
        &&& self.equiv_kWh.is(daily * EQUIVALENT_SCALE, UNITS_PER_MWH * MWH_PER_KWH)
        &&& self.cap_factor.is(daily, UNITS_PER_MWH * (RATED_POWER_MW * HOURS_PER_DAY))
        &&& self.dollars_saved.is(daily * EQUIVALENT_SCALE * 12, UNITS_PER_MWH * MWH_PER_KWH * 100)
        &&& self.co2_saved.is(daily * EQUIVALENT_SCALE * 16, UNITS_PER_MWH * MWH_PER_KWH * 10)
    }

    /// The date of the record in the calendar, where the calendar reaches
    /// it.
    pub fn calendar_date(&self) -> (date: Option<CalendarDate>)
        ensures
            match date {
                Some(d) => calendar_of(self.date as int) == Some(
                    (d.year as int, d.month as int, d.day as int),
                ),
                None => calendar_of(self.date as int).is_none(),
            },
    {
        if self.date < -2_147_483_648 || self.date > 2_147_483_647 {
            return None;
        }
        match date_of_epoch_days(self.date as i32) {
            Some((year, month, day)) => Some(CalendarDate { year, month, day }),
            None => None,
        }
    }

    /// Derives the record of `date` from the day's energy.
    pub fn derive(date: i64, daily: i128) -> (e: Energy)
        requires
            -DAILY_LIMIT <= daily <= DAILY_LIMIT,
        ensures
            e.describes(date as int, daily as int),
    {
        let scaled: i128 = daily * EQUIVALENT_SCALE;
        let kwh_den: i128 = UNITS_PER_MWH * MWH_PER_KWH;
        Energy {
            date,
            equiv_kWh: Ratio { num: scaled, den: kwh_den },
            cap_factor: Ratio { num: daily, den: UNITS_PER_MWH * (RATED_POWER_MW * HOURS_PER_DAY) },
            dollars_saved: Ratio { num: scaled * 12, den: kwh_den * 100 },
            co2_saved: Ratio { num: scaled * 16, den: kwh_den * 10 },
        }
    }
}

/// The calendar day of a timestamp.
pub fn day_index(timestamp: i64) -> (day: i64)
    ensures
        day == day_of(timestamp as int),
{
    if timestamp >= 0 {
        timestamp / SECONDS_PER_DAY
    } else {
        -((-(timestamp + 1)) / SECONDS_PER_DAY) - 1
    }
}

/// Whether `a` comes no later than `b` in pairing order.
pub fn sample_le(a: &Sample, b: &Sample) -> (le: bool)
    ensures
        le == sample_leq(*a, *b),
{
    a.timestamp < b.timestamp || (a.timestamp == b.timestamp && (a.peak_power_uw
        < b.peak_power_uw || (a.peak_power_uw == b.peak_power_uw && a.sensor_id <= b.sensor_id)))
}

/// Pairing order is a total order on readings.
pub proof fn lemma_sample_order_total()
    ensures
        total_ordering(sample_order()),
{
    let r = sample_order();
    assert(vstd::relations::reflexive(r));
    assert(vstd::relations::antisymmetric(r));
    assert(vstd::relations::transitive(r));
    assert(vstd::relations::strongly_connected(r));
}

/// In a sequence in pairing order the timestamps never fall.
pub proof fn lemma_sorted_is_time_ordered(s: Seq<Sample>)
    requires
        sorted_by(s, sample_order()),
    ensures
        time_ordered(s),
{
    assert forall|i: int, j: int| 0 <= i < j < s.len() implies s[i].timestamp <= s[j].timestamp by {
        assert(sample_order()(s[i], s[j]));
    }
}

/// Where `x` enters `v` so that pairing order is kept.
fn insert_position(v: &Vec<Sample>, x: &Sample) -> (pos: usize)
    requires
        sorted_by(v@, sample_order()),
    ensures
        pos <= v.len(),
        forall|j: int| 0 <= j < pos ==> sample_leq(#[trigger] v@[j], *x),
        forall|j: int| pos <= j < v.len() ==> sample_leq(*x, #[trigger] v@[j]),
{
    let mut pos: usize = v.len();
    while pos > 0 && !sample_le(&v[pos - 1], x)
        invariant
            pos <= v.len(),
            forall|j: int| pos <= j < v.len() ==> sample_leq(*x, #[trigger] v@[j]),
        decreases pos,
    {
        pos -= 1;
    }
    proof {
        assert forall|j: int| 0 <= j < pos implies sample_leq(#[trigger] v@[j], *x) by {
            if j < pos - 1 {
                assert(sample_order()(v@[j], v@[pos - 1]));
            }
        }
    }
    pos
}

/// The readings of `sensor_id` later than `lookback_days` before `now`, in
/// pairing order.
pub fn select_samples(samples: &Vec<Sample>, sensor_id: i32, now: i64, lookback_days: u32) -> (out:
    Vec<Sample>)
    ensures
        out@ == selected(samples@, sensor_id, window_start(now as int, lookback_days as int)),
{
    let span: i128 = (lookback_days as i128) * 86_400;
    let start: i128 = now as i128 - span;
    let ghost pred = window_pred(sensor_id, start as int);
    let mut out: Vec<Sample> = Vec::new();
    let mut i: usize = 0;
    proof {
        assert(samples@.take(0) =~= Seq::<Sample>::empty());
        assert(samples@.take(0).filter(pred) =~= Seq::<Sample>::empty()) by {
            reveal(Seq::filter);
        }
    }
    while i < samples.len()
        invariant
            i <= samples.len(),
            start == window_start(now as int, lookback_days as int),
            pred == window_pred(sensor_id, start as int),
            sorted_by(out@, sample_order()),
            out@.to_multiset() == samples@.take(i as int).filter(pred).to_multiset(),
        decreases samples.len() - i,
    {
        let x: Sample = samples[i];
        let ghost before = out@;
        let ghost seen = samples@.take(i as int);
        if x.sensor_id == sensor_id && (x.timestamp as i128) > start {
            let pos: usize = insert_position(&out, &x);
            out.insert(pos, x);
            proof {
                to_multiset_insert(before, pos as int, x);
                to_multiset_build(seen.filter(pred), x);
                assert forall|a: int, b: int| 0 <= a < b < out@.len() implies sample_order()(
                    out@[a],
                    out@[b],
                ) by {
                    let ia = if a < pos { a } else { a - 1 };
                    let ib = if b < pos { b } else { b - 1 };
                    if a != pos && b != pos {
                        assert(out@[a] == before[ia]);
                        assert(out@[b] == before[ib]);
                        assert(sample_order()(before[ia], before[ib]));
                    } else if a == pos {
                        assert(out@[b] == before[ib]);
                    } else {
                        assert(out@[a] == before[ia]);
                    }
                }
            }
        }
        proof {
            assert(samples@.take(i + 1) =~= seen.push(x));
            seen.lemma_filter_push(x, pred);
        }
        i += 1;
    }
    proof {
        assert(samples@.take(samples.len() as int) =~= samples@);
        let kept = samples@.filter(pred);
        lemma_sample_order_total();
        kept.lemma_sort_by_ensures(sample_order());
        lemma_sorted_unique(out@, kept.sort_by(sample_order()), sample_order());
    }
    out
}

/// The trapezoid between two readings is their summed power times the
/// seconds between them.
pub proof fn lemma_interval_energy_sum(a: Sample, b: Sample)
    ensures
        interval_energy(a, b) == (a.peak_power_uw + b.peak_power_uw) * (b.timestamp - a.timestamp),
{
    let dt = b.timestamp - a.timestamp;
    let pa = a.peak_power_uw as int;
    let pb = b.peak_power_uw as int;
    if pa <= pb {
        assert(2 * pa * dt + (pb - pa) * dt == (pa + pb) * dt) by (nonlinear_arith);
    } else {
        assert(2 * pb * dt + (pa - pb) * dt == (pa + pb) * dt) by (nonlinear_arith);
    }
}

/// Energy between two readings, in half microwatt-seconds. Between
/// readings in order of time it is at most 2^32 for each second.
pub fn interval_units(a: &Sample, b: &Sample) -> (e: i128)
    ensures
        e == interval_energy(*a, *b),
        a.timestamp <= b.timestamp ==> -(0x1_0000_0000 * (b.timestamp - a.timestamp)) <= e
            <= 0x1_0000_0000 * (b.timestamp - a.timestamp),
{
    let power: i64 = a.peak_power_uw as i64 + b.peak_power_uw as i64;
    let dt: i128 = b.timestamp as i128 - a.timestamp as i128;
    proof {
        lemma_interval_energy_sum(*a, *b);
        assert(-0x1_0000_0000_0000_0000_0000_0000 <= power * dt <= 0x1_0000_0000_0000_0000_0000_0000)
            by (nonlinear_arith)
            requires
                -0x1_0000_0000 <= power <= 0x1_0000_0000,
                -0x1_0000_0000_0000_0000 <= dt <= 0x1_0000_0000_0000_0000,
        ;
        if 0 <= dt {
            assert(-(0x1_0000_0000 * dt) <= power * dt <= 0x1_0000_0000 * dt) by (nonlinear_arith)
                requires
                    -0x1_0000_0000 <= power <= 0x1_0000_0000,
                    0 <= dt,
            ;
        }
    }
    (power as i128) * dt
}

/// Intervals that start on other days add nothing to a day's energy.
pub proof fn lemma_energy_before_zero(s: Seq<Sample>, day: int, k: int)
    requires
        forall|j: int| 0 <= j < k && j + 1 < s.len() ==> day_of(#[trigger] s[j].timestamp as int) != day,
    ensures
        energy_before(s, day, k) == 0,
    decreases k,
{
    if k > 0 {
        lemma_energy_before_zero(s, day, k - 1);
    }
}

/// Whether `stats` holds, by rising date, one record for each day on which
/// an interval of `s` starts, derived from the energy of that day's
/// intervals.
pub open spec fn stats_match(stats: Seq<Energy>, s: Seq<Sample>) -> bool {
    &&& forall|i: int, j: int| 0 <= i < j < stats.len() ==> stats[i].date < stats[j].date
    &&& forall|i: int|
        0 <= i < stats.len() ==> has_interval_on(s, (#[trigger] stats[i]).date as int)
            && stats[i].describes(stats[i].date as int, day_energy(s, stats[i].date as int))
    &&& forall|j: int|
        0 <= j < s.len() - 1 ==> exists|i: int|
            0 <= i < stats.len() && (#[trigger] stats[i]).date == day_of(
                #[trigger] s[j].timestamp as int,
            )
}

/// The daily statistics of readings whose timestamps never fall.
///
/// Each pair of neighbours is one interval; its trapezoid counts wholly for
/// the day on which it starts.
pub fn daily_stats(ordered: &Vec<Sample>) -> (stats: Vec<Energy>)
    requires
        time_ordered(ordered@),
    ensures
        stats_match(stats@, ordered@),
        ordered@.len() <= 1 ==> stats@.len() == 0,
{
    let n: usize = ordered.len();
    let mut stats: Vec<Energy> = Vec::new();
    if n < 2 {
        return stats;
    }
    let ghost s = ordered@;
    let mut today: i64 = day_index(ordered[0].timestamp);
    let mut acc: i128 = 0;
    let mut k: usize = 0;
    while k + 1 < n
        invariant
            n == ordered.len(),
            s == ordered@,
            n >= 2,
            k + 1 <= n,
            time_ordered(s),
            today == day_of(s[if k == 0 { 0 } else { k - 1 }].timestamp as int),
            acc == energy_before(s, today as int, k as int),
            -(0x1_0000_0000 * (s[k as int].timestamp - s[0].timestamp)) <= acc <= 0x1_0000_0000 * (
            s[k as int].timestamp - s[0].timestamp),
            forall|i: int, j: int| 0 <= i < j < stats@.len() ==> stats@[i].date < stats@[j].date,
            forall|i: int|
                0 <= i < stats@.len() ==> (#[trigger] stats@[i]).date < today && starts_before(
                    s,
                    stats@[i].date as int,
                    k as int,
                ) && stats@[i].describes(
                    stats@[i].date as int,
                    energy_before(s, stats@[i].date as int, k as int),
                ),
            forall|j: int|
                0 <= j < k ==> day_of(#[trigger] s[j].timestamp as int) == today || exists|i: int|
                    0 <= i < stats@.len() && (#[trigger] stats@[i]).date == day_of(
                        s[j].timestamp as int,
                    ),
        decreases n - k,
    {
        let a: Sample = ordered[k];
        let b: Sample = ordered[k + 1];
        let day: i64 = day_index(a.timestamp);
        let ghost old_stats = stats@;
        let ghost old_today = today;
        if day != today {
            proof {
                assert(k > 0);
                assert(s[k - 1].timestamp <= s[k as int].timestamp);
                assert(today < day);
                assert(s[0].timestamp <= s[k as int].timestamp);
                assert(starts_before(s, today as int, k as int)) by {
                    assert(day_of(s[k - 1].timestamp as int) == today);
                }
                assert forall|j: int| 0 <= j < k && j + 1 < s.len() implies day_of(
                    #[trigger] s[j].timestamp as int,
                ) != day by {
                    if j < k - 1 {
                        assert(s[j].timestamp <= s[k - 1].timestamp);
                    }
                }
                lemma_energy_before_zero(s, day as int, k as int);
            }
            stats.push(Energy::derive(today, acc));
            today = day;
            acc = 0;
            proof {
                assert forall|j: int| 0 <= j < k implies day_of(#[trigger] s[j].timestamp as int)
                    == today || exists|i: int|
                    0 <= i < stats@.len() && (#[trigger] stats@[i]).date == day_of(
                        s[j].timestamp as int,
                    ) by {
                    if day_of(s[j].timestamp as int) == old_today {
                        assert(stats@[old_stats.len() as int].date == old_today);
                    } else {
                        let i = choose|i: int|
                            0 <= i < old_stats.len() && (#[trigger] old_stats[i]).date == day_of(
                                s[j].timestamp as int,
                            );
                        assert(stats@[i].date == day_of(s[j].timestamp as int));
                    }
                }
            }
        }
        proof {
            assert(a.timestamp <= b.timestamp);
            assert(s[0].timestamp <= a.timestamp);
            assert(0x1_0000_0000 * (a.timestamp - s[0].timestamp) + 0x1_0000_0000 * (b.timestamp
                - a.timestamp) == 0x1_0000_0000 * (b.timestamp - s[0].timestamp))
                by (nonlinear_arith);
        }
        let e: i128 = interval_units(&a, &b);
        acc = acc + e;
        proof {
            assert forall|i: int| 0 <= i < stats@.len() implies starts_before(
                s,
                (#[trigger] stats@[i]).date as int,
                k + 1,
            ) by {
                let d = stats@[i].date as int;
                let j = choose|j: int|
                    0 <= j < k && j + 1 < s.len() && day_of(#[trigger] s[j].timestamp as int) == d;
                assert(0 <= j < k + 1 && j + 1 < s.len() && day_of(s[j].timestamp as int) == d);
            }
        }
        k += 1;
    }
    proof {
        assert(starts_before(s, today as int, k as int)) by {
            assert(day_of(s[k - 1].timestamp as int) == today);
        }
        assert(s[0].timestamp <= s[k as int].timestamp);
    }
    let ghost old_stats = stats@;
    let ghost old_today = today;
    stats.push(Energy::derive(today, acc));
    proof {
        assert forall|j: int| 0 <= j < s.len() - 1 implies exists|i: int|
            0 <= i < stats@.len() && (#[trigger] stats@[i]).date == day_of(
                #[trigger] s[j].timestamp as int,
            ) by {
            if day_of(s[j].timestamp as int) == old_today {
                assert(stats@[old_stats.len() as int].date == old_today);
            } else {
                let i = choose|i: int|
                    0 <= i < old_stats.len() && (#[trigger] old_stats[i]).date == day_of(
                        s[j].timestamp as int,
                    );
                assert(stats@[i].date == day_of(s[j].timestamp as int));
            }
        }
    }
    stats
}

/// The daily statistics of sensor `sensor_id` over the `lookback_days`
/// before `now`, from any collection of readings in any order.
pub fn compute_energy_stats(
    sensor_id: i32,
    lookback_days: u32,
    now: i64,
    readings: &Vec<Sample>,
) -> (stats: Vec<Energy>)
    ensures
        stats_match(
            stats@,
            selected(readings@, sensor_id, window_start(now as int, lookback_days as int)),
        ),
        readings@.filter(
            window_pred(sensor_id, window_start(now as int, lookback_days as int)),
        ).len() <= 1 ==> stats@.len() == 0,
{
    let ordered: Vec<Sample> = select_samples(readings, sensor_id, now, lookback_days);
    proof {
        crate::laws::lemma_selected_len(
            readings@,
            sensor_id,
            window_start(now as int, lookback_days as int),
        );
        lemma_sample_order_total();
        readings@.filter(
            window_pred(sensor_id, window_start(now as int, lookback_days as int)),
        ).lemma_sort_by_ensures(sample_order());
        lemma_sorted_is_time_ordered(ordered@);
    }
    daily_stats(&ordered)
}

} // verus!
