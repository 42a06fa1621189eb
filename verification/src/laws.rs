//! Laws of the daily energy statistics.

use crate::energy::{
    day_energy, day_of, energy_before, has_interval_on, in_window, interval_energy,
    lemma_sample_order_total, sample_order, selected, starts_before, stats_match, window_pred,
    Energy, Sample,
};
use vstd::prelude::*;
use vstd::relations::sorted_by;
use vstd::seq_lib::{lemma_sorted_unique, to_multiset_build};

verus! {

/// Between two readings of equal power the trapezoid is the rectangle of
/// that power over the seconds between them (twice the product, in half
/// microwatt-seconds).
pub proof fn lemma_constant_power_is_rectangle(a: Sample, b: Sample)
    requires
        a.peak_power_uw == b.peak_power_uw,
    ensures
        interval_energy(a, b) == 2 * (a.peak_power_uw * (b.timestamp - a.timestamp)),
{
    let dt = b.timestamp - a.timestamp;
    let p = a.peak_power_uw as int;
    assert(2 * p * dt + (p - p) * dt == 2 * (p * dt)) by (nonlinear_arith);
}

/// An interval counts wholly for the day on which it starts, and for no
/// other day, wherever it ends.
pub proof fn lemma_interval_counts_for_start_day(a: Sample, b: Sample, day: int)
    ensures
        day_energy(seq![a, b], day) == if day == day_of(a.timestamp as int) {
            interval_energy(a, b)
        } else {
            0
        },
{
    let s = seq![a, b];
    assert(s.len() == 2);
    assert(s[0] == a && s[1] == b);
    assert(energy_before(s, day, 0) == 0);
    assert(energy_before(s, day, 1) == energy_before(s, day, 0) + if 1 < s.len() && day_of(
        s[0].timestamp as int,
    ) == day {
        interval_energy(s[0], s[1])
    } else {
        0
    });
}

/// A reading counts for a value in the filtered multiset as often as it
/// occurs, where the predicate holds of it, and never where it does not.
proof fn lemma_filter_count(s: Seq<Sample>, pred: spec_fn(Sample) -> bool, x: Sample)
    ensures
        s.filter(pred).to_multiset().count(x) == if pred(x) {
            s.to_multiset().count(x)
        } else {
            0
        },
    decreases s.len(),
{
    broadcast use vstd::multiset::group_multiset_axioms;

    if s.len() == 0 {
        reveal(Seq::filter);
        assert(s.filter(pred) == s);
        s.to_multiset_ensures();
        assert(!s.contains(x));
    } else {
        let init = s.drop_last();
        let last = s.last();
        assert(s =~= init.push(last));
        lemma_filter_count(init, pred, x);
        init.lemma_filter_push(last, pred);
        to_multiset_build(init, last);
        if pred(last) {
            to_multiset_build(init.filter(pred), last);
        }
    }
}

/// The readings that are paired are those of the sensor in the window, each
/// as often as it was given, in pairing order.
pub proof fn lemma_selected_is_sorted_window(samples: Seq<Sample>, sensor_id: i32, start: int)
    ensures
        sorted_by(selected(samples, sensor_id, start), sample_order()),
        selected(samples, sensor_id, start).to_multiset() == samples.filter(
            window_pred(sensor_id, start),
        ).to_multiset(),
{
    lemma_sample_order_total();
    samples.filter(window_pred(sensor_id, start)).lemma_sort_by_ensures(sample_order());
}

/// Every reading that is paired belongs to the sensor and lies after the
/// start of the window: an older reading never opens or closes an interval.
pub proof fn lemma_selected_in_window(samples: Seq<Sample>, sensor_id: i32, start: int, i: int)
    requires
        0 <= i < selected(samples, sensor_id, start).len(),
    ensures
        in_window(selected(samples, sensor_id, start)[i], sensor_id, start),
{
    broadcast use vstd::seq_lib::group_to_multiset_ensures;

    let pred = window_pred(sensor_id, start);
    let kept = samples.filter(pred);
    let x = selected(samples, sensor_id, start)[i];
    lemma_sample_order_total();
    kept.lemma_sort_by_ensures(sample_order());
    assert(kept.sort_by(sample_order()).contains(x));
    assert(kept.contains(x));
    let j = choose|j: int| 0 <= j < kept.len() && kept[j] == x;
    samples.lemma_filter_pred(pred, j);
}

/// The readings that are paired, and their order, depend only on which
/// readings are given and how often, not on the order in which they come.
pub proof fn lemma_order_independent(a: Seq<Sample>, b: Seq<Sample>, sensor_id: i32, start: int)
    requires
        a.to_multiset() == b.to_multiset(),
    ensures
        selected(a, sensor_id, start) == selected(b, sensor_id, start),
{
    let pred = window_pred(sensor_id, start);
    let ka = a.filter(pred);
    let kb = b.filter(pred);
    assert forall|x: Sample| ka.to_multiset().count(x) == kb.to_multiset().count(x) by {
        lemma_filter_count(a, pred, x);
        lemma_filter_count(b, pred, x);
    }
    assert(ka.to_multiset() =~= kb.to_multiset());
    lemma_sample_order_total();
    ka.lemma_sort_by_ensures(sample_order());
    kb.lemma_sort_by_ensures(sample_order());
    lemma_sorted_unique(ka.sort_by(sample_order()), kb.sort_by(sample_order()), sample_order());
}

/// A reading of another sensor, or one not after the start of the window,
/// changes nothing.
pub proof fn lemma_outside_sample_ignored(
    samples: Seq<Sample>,
    x: Sample,
    sensor_id: i32,
    start: int,
)
    requires
        !in_window(x, sensor_id, start),
    ensures
        selected(samples.push(x), sensor_id, start) == selected(samples, sensor_id, start),
{
    samples.lemma_filter_push(x, window_pred(sensor_id, start));
}

/// The first `m` intervals of a prefix are those of the whole.
proof fn lemma_energy_before_prefix(s: Seq<Sample>, day: int, k: int, m: int)
    requires
        0 <= m <= k < s.len(),
    ensures
        energy_before(s.subrange(0, k + 1), day, m) == energy_before(s, day, m),
    decreases m,
{
    if m > 0 {
        lemma_energy_before_prefix(s, day, k, m - 1);
    }
}

/// The first `m` intervals of a suffix are the next `m` of the whole.
proof fn lemma_energy_before_suffix(s: Seq<Sample>, day: int, k: int, m: int)
    requires
        0 <= k < s.len(),
        0 <= m <= s.len() - 1 - k,
    ensures
        energy_before(s.subrange(k, s.len() as int), day, m) == energy_before(s, day, k + m)
            - energy_before(s, day, k),
    decreases m,
{
    if m > 0 {
        lemma_energy_before_suffix(s, day, k, m - 1);
        let t = s.subrange(k, s.len() as int);
        assert(t[m - 1] == s[k + m - 1]);
        assert(t[m] == s[k + m]);
    }
}

/// Cutting a sequence of readings at any reading, which then closes the
/// first part and opens the second, and adding up each day's energy over the
/// two parts gives the day's energy over the whole.
pub proof fn lemma_energy_additive(s: Seq<Sample>, k: int, day: int)
    requires
        0 <= k < s.len(),
    ensures
        day_energy(s, day) == day_energy(s.subrange(0, k + 1), day) + day_energy(
            s.subrange(k, s.len() as int),
            day,
        ),
{
    lemma_energy_before_prefix(s, day, k, k);
    lemma_energy_before_suffix(s, day, k, s.len() - 1 - k);
}

/// Cutting a sequence of readings between two neighbours loses exactly the
/// interval between them: each day's energy over the whole is the sum over
/// the two parts, and on the day on which that interval starts its energy
/// besides.
pub proof fn lemma_energy_split(s: Seq<Sample>, k: int, day: int)
    requires
        0 < k < s.len(),
    ensures
        day_energy(s, day) == day_energy(s.subrange(0, k), day) + day_energy(
            s.subrange(k, s.len() as int),
            day,
        ) + if day_of(s[k - 1].timestamp as int) == day {
            interval_energy(s[k - 1], s[k])
        } else {
            0
        },
{
    lemma_energy_before_prefix(s, day, k - 1, k - 1);
    lemma_energy_before_suffix(s, day, k, s.len() - 1 - k);
    assert(s.subrange(0, k - 1 + 1) == s.subrange(0, k));
}

/// Some record of `y` has the date of record `i` of `x`.
proof fn lemma_date_shared(x: Seq<Energy>, y: Seq<Energy>, s: Seq<Sample>, i: int) -> (m: int)
    requires
        stats_match(x, s),
        stats_match(y, s),
        0 <= i < x.len(),
    ensures
        0 <= m < y.len(),
        y[m].date == x[i].date,
{
    let d = x[i].date as int;
    assert(has_interval_on(s, d));
    assert(starts_before(s, d, s.len() - 1));
    let j = choose|j: int|
        0 <= j < s.len() - 1 && j + 1 < s.len() && day_of(#[trigger] s[j].timestamp as int) == d;
    let m = choose|m: int|
        0 <= m < y.len() && (#[trigger] y[m]).date == day_of(#[trigger] s[j].timestamp as int);
    m
}

/// Two sequences of records that both match `s` agree in the date at `i`.
proof fn lemma_dates_agree(x: Seq<Energy>, y: Seq<Energy>, s: Seq<Sample>, i: int)
    requires
        stats_match(x, s),
        stats_match(y, s),
        0 <= i < x.len(),
    ensures
        i < y.len(),
        x[i].date == y[i].date,
    decreases i,
{
    if i > 0 {
        lemma_dates_agree(x, y, s, i - 1);
    }
    let m = lemma_date_shared(x, y, s, i);
    assert(m >= i) by {
        if i > 0 && m <= i - 1 {
            assert(m == i - 1 || y[m].date < y[i - 1].date);
        }
    }
    assert(y[i].date <= x[i].date) by {
        assert(m == i || y[i].date < y[m].date);
    }
    let w = lemma_date_shared(y, x, s, i);
    assert(w >= i) by {
        if i > 0 && w <= i - 1 {
            assert(w == i - 1 || x[w].date < x[i - 1].date);
        }
    }
    assert(w == i || x[i].date < x[w].date);
}

/// The statistics of a sequence of readings are determined by it: two
/// sequences of records that both match it are equal.
pub proof fn lemma_stats_determined(x: Seq<Energy>, y: Seq<Energy>, s: Seq<Sample>)
    requires
        stats_match(x, s),
        stats_match(y, s),
    ensures
        x == y,
{
    if x.len() > 0 {
        lemma_dates_agree(x, y, s, x.len() - 1);
    }
    if y.len() > 0 {
        lemma_dates_agree(y, x, s, y.len() - 1);
    }
    assert(x.len() == y.len());
    assert forall|i: int| 0 <= i < x.len() implies x[i] == y[i] by {
        lemma_dates_agree(x, y, s, i);
        let d = x[i].date as int;
        assert(x[i].describes(d, day_energy(s, d)));
        assert(y[i].describes(d, day_energy(s, d)));
        assert(x[i].equiv_kWh == y[i].equiv_kWh);
        assert(x[i].cap_factor == y[i].cap_factor);
        assert(x[i].dollars_saved == y[i].dollars_saved);
        assert(x[i].co2_saved == y[i].co2_saved);
    }
    assert(x =~= y);
}

/// Given the same readings in another order, the statistics are the same.
pub proof fn lemma_stats_order_independent(
    a: Seq<Sample>,
    b: Seq<Sample>,
    sensor_id: i32,
    start: int,
    x: Seq<Energy>,
    y: Seq<Energy>,
)
    requires
        a.to_multiset() == b.to_multiset(),
        stats_match(x, selected(a, sensor_id, start)),
        stats_match(y, selected(b, sensor_id, start)),
    ensures
        x == y,
{
    lemma_order_independent(a, b, sensor_id, start);
    lemma_stats_determined(x, y, selected(a, sensor_id, start));
}

/// As many readings are paired as belong to the sensor and lie in the
/// window.
pub proof fn lemma_selected_len(samples: Seq<Sample>, sensor_id: i32, start: int)
    ensures
        selected(samples, sensor_id, start).len() == samples.filter(
            window_pred(sensor_id, start),
        ).len(),
{
    let kept = samples.filter(window_pred(sensor_id, start));
    lemma_sample_order_total();
    kept.lemma_sort_by_ensures(sample_order());
    kept.to_multiset_ensures();
    kept.sort_by(sample_order()).to_multiset_ensures();
}

} // verus!
