//! A user's statistics, summed up from the counters of the last days.

use crate::types::{CountModel, DailyStat, DailyStatModel, StatisticsResponse, SupabaseWillCount};
use vstd::prelude::*;

verus! {

/// The sum of the counts.
pub open spec fn total_of(counts: Seq<CountModel>) -> int
    decreases counts.len(),
{
    if counts.len() == 0 {
        0
    } else {
        total_of(counts.drop_last()) + counts.last().count
    }
}

/// The count of the first counter of the day `today`; zero where there
/// is none.
pub open spec fn today_count_of(counts: Seq<CountModel>, today: Seq<char>) -> int
    decreases counts.len(),
{
    if counts.len() == 0 {
        0
    } else if counts[0].date == today {
        counts[0].count
    } else {
        today_count_of(counts.drop_first(), today)
    }
}

/// By how many days the total is divided for the weekly average: the
/// days asked for, but seven at most, and none where none were asked for.
pub open spec fn weekly_days_of(days: int) -> int {
    if days <= 0 {
        0
    } else if days < 7 {
        days
    } else {
        7
    }
}

/// One counter as a day of the statistics.
pub open spec fn daily_of(count: CountModel) -> DailyStatModel {
    DailyStatModel { date: count.date, count: count.count, sessions: count.timestamps.len() }
}

/// The days of the statistics of a history, one for each counter, in
/// the order of the history.
pub open spec fn daily_stats_of(counts: Seq<CountModel>) -> Seq<DailyStatModel> {
    Seq::new(counts.len(), |i: int| daily_of(counts[i]))
}

/// Whether the total of a history fits the width of a count.
pub open spec fn statistics_total_fits(counts: Seq<CountModel>) -> bool {
    i32::MIN <= total_of(counts) <= i32::MAX
}

/// Sums a history up. The result is `None` where the total does not
/// fit the width of a count.
pub fn build_statistics_response(counts: Vec<SupabaseWillCount>, days: i32, today: &str) -> (r:
    Option<StatisticsResponse>)
    ensures
        r is Some == statistics_total_fits(counts.deep_view()),
        r matches Some(s) ==> {
            &&& s.total_count == total_of(counts.deep_view())
            &&& s.today_count == today_count_of(counts.deep_view(), today@)
            &&& s.weekly_days == weekly_days_of(days as int)
            &&& s.daily_counts.deep_view() == daily_stats_of(counts.deep_view())
        },
{
    let ghost all = counts.deep_view();
    let wanted = today.to_owned();
    let mut total: i128 = 0;
    let mut today_count: i32 = 0;
    let mut seen_today = false;
    let mut daily_counts: Vec<DailyStat> = Vec::new();
    let mut i: usize = 0;
    assert(all.take(0) =~= Seq::empty());
    assert(all.skip(0) =~= all);
    while i < counts.len()
        invariant
            i <= counts.len(),
            all == counts.deep_view(),
            wanted@ == today@,
            total == total_of(all.take(i as int)),
            i * i32::MIN <= total <= i * i32::MAX,
            seen_today ==> today_count == today_count_of(all, today@),
            !seen_today ==> today_count == 0 && today_count_of(all, today@) == today_count_of(
                all.skip(i as int),
                today@,
            ),
            daily_counts.len() == i,
            forall|j: int| 0 <= j < i ==> (#[trigger] daily_counts[j])@ == daily_of(all[j]),
        decreases counts.len() - i,
    {
        let count = &counts[i];
        proof {
            assert(all.take(i + 1).drop_last() =~= all.take(i as int));
            assert(all.take(i + 1).last() == count@);
            assert(all.skip(i as int)[0] == count@);
            assert(all.skip(i as int).drop_first() =~= all.skip(i + 1));
        }
        total = total + count.count as i128;
        if !seen_today && count.date == wanted {
            today_count = count.count;
            seen_today = true;
        }
        daily_counts.push(
            DailyStat { date: count.date.clone(), count: count.count, sessions: count.timestamps.len() },
        );
        i += 1;
    }
    proof {
        assert(all.take(counts.len() as int) =~= all);
        assert(all.skip(counts.len() as int) =~= Seq::empty());
        assert(daily_counts.deep_view() =~= daily_stats_of(all));
    }
    if total < i32::MIN as i128 || total > i32::MAX as i128 {
        return None;
    }
    let weekly_days = if days <= 0 {
        0
    } else if days < 7 {
        days
    } else {
        7
    };
    Some(StatisticsResponse { total_count: total as i32, today_count, weekly_days, daily_counts })
}

} // verus!
