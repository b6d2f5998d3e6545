//! Histograms of event timestamps: one count per hour of the day, or one per
//! month of a given year.

use crate::calendar::{civil_from_timestamp, hour_of_day, utc_civil, CivilTime};
use vstd::prelude::*;

verus! {

/// `secs` is an instant with calendar fields.
pub open spec fn is_valid(secs: i64) -> bool {
    utc_civil(secs as int) is Some
}

/// `secs` is a valid instant in hour `hour` of some day: `hour` whole hours
/// have passed since the last midnight.
pub open spec fn in_hour(secs: i64, hour: int) -> bool {
    is_valid(secs) && hour_of_day(secs as int) == hour
}

/// `secs` is a valid instant of the year `year`.
pub open spec fn in_year(secs: i64, year: int) -> bool {
    utc_civil(secs as int) matches Some(c) && c.year == year
}

/// `secs` is a valid instant in the month with zero-based index `month` of
/// the year `year`.
pub open spec fn in_month(secs: i64, year: int, month: int) -> bool {
    utc_civil(secs as int) matches Some(c) && c.year == year && c.month - 1 == month
}

/// What a count asks of a timestamp.
pub enum Pick {
    /// That it is a valid instant.
    Valid,
    /// That it falls in this hour of the day.
    Hour(int),
    /// That it falls in this year.
    Year(int),
    /// That it falls in this year and in this month of it, zero-based.
    Month(int, int),
}

/// `secs` is what `pick` asks for.
pub open spec fn picked(pick: Pick, secs: i64) -> bool {
    match pick {
        Pick::Valid => is_valid(secs),
        Pick::Hour(hour) => in_hour(secs, hour),
        Pick::Year(year) => in_year(secs, year),
        Pick::Month(year, month) => in_month(secs, year, month),
    }
}

/// How many elements of `ts` are what `pick` asks for.
pub open spec fn count_where(ts: Seq<i64>, pick: Pick) -> nat
    decreases ts.len(),
{
    if ts.len() == 0 {
        0
    } else {
        count_where(ts.drop_last(), pick) + if picked(pick, ts.last()) {
            1nat
        } else {
            0nat
        }
    }
}

/// How many timestamps are valid instants.
pub open spec fn valid_count(ts: Seq<i64>) -> nat {
    count_where(ts, Pick::Valid)
}

/// How many timestamps fall in hour `hour`, on whatever day.
pub open spec fn hourly_count(ts: Seq<i64>, hour: int) -> nat {
    count_where(ts, Pick::Hour(hour))
}

/// How many timestamps fall in the year `year`.
pub open spec fn year_count(ts: Seq<i64>, year: int) -> nat {
    count_where(ts, Pick::Year(year))
}

/// How many timestamps fall in month `month` (zero-based) of `year`.
pub open spec fn monthly_count(ts: Seq<i64>, year: int, month: int) -> nat {
    count_where(ts, Pick::Month(year, month))
}

/// Sum of the counts.
pub open spec fn total(counts: Seq<usize>) -> int
    decreases counts.len(),
{
    if counts.len() == 0 {
        0
    } else {
        total(counts.drop_last()) + counts.last()
    }
}

/// No more elements are picked than there are.
pub proof fn lemma_count_bounded(ts: Seq<i64>, pick: Pick)
    ensures
        count_where(ts, pick) <= ts.len(),
    decreases ts.len(),
{
    if ts.len() > 0 {
        lemma_count_bounded(ts.drop_last(), pick);
    }
}

/// Counting one element more adds one where it is picked.
proof fn lemma_count_step(ts: Seq<i64>, i: int, pick: Pick)
    requires
        0 <= i < ts.len(),
    ensures
        count_where(ts.take(i + 1), pick) == count_where(ts.take(i), pick) + if picked(
            pick,
            ts[i],
        ) {
            1nat
        } else {
            0nat
        },
{
    assert(ts.take(i + 1).drop_last() =~= ts.take(i));
}

/// Replacing one count changes the sum by the difference.
proof fn lemma_total_update(counts: Seq<usize>, i: int, v: usize)
    requires
        0 <= i < counts.len(),
    ensures
        total(counts.update(i, v)) == total(counts) - counts[i] + v,
    decreases counts.len(),
{
    let n = counts.len() - 1;
    if i == n {
        assert(counts.update(i, v).drop_last() =~= counts.drop_last());
    } else {
        lemma_total_update(counts.drop_last(), i, v);
        assert(counts.update(i, v).drop_last() =~= counts.drop_last().update(i, v));
    }
}

/// A sequence of zeros sums to zero.
proof fn lemma_total_zero(counts: Seq<usize>)
    requires
        forall|i: int| 0 <= i < counts.len() ==> counts[i] == 0,
    ensures
        total(counts) == 0,
    decreases counts.len(),
{
    if counts.len() > 0 {
        lemma_total_zero(counts.drop_last());
    }
}

/// The hourly counts after one more event with the given calendar fields:
/// the count of its hour rises by one. Nothing changes for an event without
/// calendar fields, for an hour that is none of the buckets, and for a count
/// that cannot rise.
pub open spec fn tallied_hour(counts: Seq<usize>, civil: Option<CivilTime>) -> Seq<usize> {
    if civil is Some && civil.unwrap().hour < counts.len() && counts[civil.unwrap().hour as int]
        < usize::MAX {
        counts.update(
            civil.unwrap().hour as int,
            (counts[civil.unwrap().hour as int] + 1) as usize,
        )
    } else {
        counts
    }
}

/// The monthly counts of the year `year` after one more event with the given
/// calendar fields: where it is of that year, the count of its month rises
/// by one. Nothing changes for an event without calendar fields or of
/// another year, for a month that is none of the buckets, and for a count
/// that cannot rise.
pub open spec fn tallied_month(counts: Seq<usize>, civil: Option<CivilTime>, year: int) -> Seq<
    usize,
> {
    if civil is Some && civil.unwrap().year == year && 1 <= civil.unwrap().month <= counts.len()
        && counts[civil.unwrap().month - 1] < usize::MAX {
        counts.update(
            civil.unwrap().month - 1,
            (counts[civil.unwrap().month - 1] + 1) as usize,
        )
    } else {
        counts
    }
}

/// Counts one event with the given calendar fields in the hourly buckets.
pub fn tally_hour(counts: [usize; 24], civil: Option<CivilTime>) -> (r: [usize; 24])
    ensures
        r@ == tallied_hour(counts@, civil),
{
    let mut r: [usize; 24] = counts;
    match civil {
        Some(c) => {
            if c.hour < 24 {
                let h: usize = c.hour as usize;
                if r[h] < usize::MAX {
                    r[h] = r[h] + 1;
                }
            }
        },
        None => {},
    }
    r
}

/// Counts one event with the given calendar fields in the monthly buckets
/// of the year `year`.
pub fn tally_month(counts: [usize; 12], civil: Option<CivilTime>, year: i32) -> (r: [usize; 12])
    ensures
        r@ == tallied_month(counts@, civil, year as int),
{
    let mut r: [usize; 12] = counts;
    match civil {
        Some(c) => {
            if c.year == year && 1 <= c.month && c.month <= 12 {
                let m: usize = (c.month - 1) as usize;
                if r[m] < usize::MAX {
                    r[m] = r[m] + 1;
                }
            }
        },
        None => {},
    }
    r
}

/// Counts the timestamps by their hour of the day, over all days present.
/// Timestamps that are no valid instant are left out.
pub fn bucket_hourly(timestamps: &Vec<i64>) -> (counts: [usize; 24])
    ensures
        forall|h: int| 0 <= h < 24 ==> counts@[h] == #[trigger] hourly_count(timestamps@, h),
        total(counts@) == valid_count(timestamps@),
        total(counts@) <= timestamps@.len(),
        timestamps@.len() == 0 ==> forall|h: int| 0 <= h < 24 ==> counts@[h] == 0,
{
    let mut counts: [usize; 24] = [0usize; 24];
    let mut i: usize = 0;
    proof {
        lemma_total_zero(counts@);
        assert(timestamps@.take(0).len() == 0);
    }
    while i < timestamps.len()
        invariant
            i <= timestamps@.len(),
            forall|h: int|
                0 <= h < 24 ==> counts@[h] == #[trigger] hourly_count(timestamps@.take(i as int), h),
            total(counts@) == valid_count(timestamps@.take(i as int)),
        decreases timestamps@.len() - i,
    {
        let t: i64 = timestamps[i];
        let ghost before = counts@;
        proof {
            lemma_count_step(timestamps@, i as int, Pick::Valid);
            assert forall|h: int| 0 <= h < 24 implies #[trigger] hourly_count(
                timestamps@.take(i + 1),
                h,
            ) == hourly_count(timestamps@.take(i as int), h) + if in_hour(t, h) {
                1nat
            } else {
                0nat
            } by {
                lemma_count_step(timestamps@, i as int, Pick::Hour(h));
            }
        }
        let civil = civil_from_timestamp(t);
        proof {
            if civil is Some {
                let h = civil.unwrap().hour as int;
                lemma_count_bounded(timestamps@.take(i as int), Pick::Hour(h));
                assert(before[h] == hourly_count(timestamps@.take(i as int), h));
                assert(before[h] <= i);
                lemma_total_update(before, h, (before[h] + 1) as usize);
            }
        }
        counts = tally_hour(counts, civil);
        i += 1;
    }
    proof {
        assert(timestamps@.take(i as int) =~= timestamps@);
        lemma_count_bounded(timestamps@, Pick::Valid);
        if timestamps@.len() == 0 {
            assert forall|k: int| 0 <= k < counts@.len() implies counts@[k] == 0 by {
                assert(hourly_count(timestamps@, k) == 0);
            }
        }
    }
    counts
}

/// Counts the timestamps of the year `year` by their month, January first.
/// Timestamps of other years, and those that are no valid instant, are left
/// out.
pub fn bucket_monthly(timestamps: &Vec<i64>, year: i32) -> (counts: [usize; 12])
    ensures
        forall|m: int|
            0 <= m < 12 ==> counts@[m] == #[trigger] monthly_count(timestamps@, year as int, m),
        total(counts@) == year_count(timestamps@, year as int),
        total(counts@) <= timestamps@.len(),
        timestamps@.len() == 0 ==> forall|m: int| 0 <= m < 12 ==> counts@[m] == 0,
{
    let mut counts: [usize; 12] = [0usize; 12];
    let mut i: usize = 0;
    proof {
        lemma_total_zero(counts@);
        assert(timestamps@.take(0).len() == 0);
    }
    while i < timestamps.len()
        invariant
            i <= timestamps@.len(),
            forall|m: int|
                0 <= m < 12 ==> counts@[m] == #[trigger] monthly_count(
                    timestamps@.take(i as int),
                    year as int,
                    m,
                ),
            total(counts@) == year_count(timestamps@.take(i as int), year as int),
        decreases timestamps@.len() - i,
    {
        let t: i64 = timestamps[i];
        let ghost before = counts@;
        proof {
            lemma_count_step(timestamps@, i as int, Pick::Year(year as int));
            assert forall|m: int| 0 <= m < 12 implies #[trigger] monthly_count(
                timestamps@.take(i + 1),
                year as int,
                m,
            ) == monthly_count(timestamps@.take(i as int), year as int, m) + if in_month(
                t,
                year as int,
                m,
            ) {
                1nat
            } else {
                0nat
            } by {
                lemma_count_step(timestamps@, i as int, Pick::Month(year as int, m));
            }
        }
        let civil = civil_from_timestamp(t);
        proof {
            if civil is Some && civil.unwrap().year == year {
                let m = civil.unwrap().month - 1;
                lemma_count_bounded(timestamps@.take(i as int), Pick::Month(year as int, m));
                assert(before[m] == monthly_count(timestamps@.take(i as int), year as int, m));
                assert(before[m] <= i);
                lemma_total_update(before, m, (before[m] + 1) as usize);
            }
        }
        counts = tally_month(counts, civil, year);
        i += 1;
    }
    proof {
        assert(timestamps@.take(i as int) =~= timestamps@);
        lemma_count_bounded(timestamps@, Pick::Year(year as int));
        if timestamps@.len() == 0 {
            assert forall|k: int| 0 <= k < counts@.len() implies counts@[k] == 0 by {
                assert(monthly_count(timestamps@, year as int, k) == 0);
            }
        }
    }
    counts
}

} // verus!
