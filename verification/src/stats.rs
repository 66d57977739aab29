//! The activity analytics engine.
//!
//! Three pure computations over values fetched for one user from the event
//! store:
//!
//! * the streak calculator: how many consecutive calendar days, anchored at
//!   today, have at least one completed activity;
//! * the rolling window aggregator: the per-day activity totals of the
//!   trailing week, oldest first, today last;
//! * the stats assembler: composing both with two scalar aggregates into the
//!   dashboard snapshot, degrading every failed query to its zero value.
//!
//! Dates reach the engine either as `Date` values or as raw `YYYY-MM-DD`
//! strings from the store; a string that does not parse is skipped silently,
//! never treated as a gap and never an error.

use vstd::prelude::*;

use crate::date::{parse_date, parse_date_spec, Date};

verus! {

/// The dashboard snapshot, rebuilt from scratch on every read.
#[derive(Clone, Copy, Debug, PartialEq, Eq, Structural)]
pub struct DashboardStats {
    pub sessions_today: i64,
    pub streak: i64,
    pub total_minutes: i64,
}

impl Default for DashboardStats {
    fn default() -> (r: Self)
        ensures
            r == (DashboardStats { sessions_today: 0, streak: 0, total_minutes: 0 }),
    {
        DashboardStats { sessions_today: 0, streak: 0, total_minutes: 0 }
    }
}

/// Minutes of activity for each of the last 7 days, index 0 = 6 days ago,
/// index 6 = today.
pub type WeeklyMinutes = [i64; 7];

// ── Streak calculator ──────────────────────────────────────────────────────

/// What it means for `n` to be the streak of the day list `dates` anchored
/// at day number `anchor`: the first `n` entries are exactly `anchor`,
/// `anchor - 1`, ..., and the entry after them (if any) breaks the run.
/// At most one `n` satisfies this for given inputs.
pub open spec fn is_streak(dates: Seq<Date>, anchor: int, n: int) -> bool {
    &&& 0 <= n <= dates.len()
    &&& forall|i: int| 0 <= i < n ==> (#[trigger] dates[i]).days == anchor - i
    &&& n < dates.len() ==> dates[n as int].days != anchor - n
}

/// The streak of a day list, walked front to back: count while each entry
/// equals the expected day, stop at the first that does not.
pub open spec fn streak_of(dates: Seq<Date>, anchor: int) -> int
    decreases dates.len(),
{
    if dates.len() == 0 {
        0
    } else if dates[0].days == anchor {
        1 + streak_of(dates.drop_first(), anchor - 1)
    } else {
        0
    }
}

/// The walk computes the (unique) streak.
pub proof fn lemma_streak_of_is_streak(dates: Seq<Date>, anchor: int)
    ensures
        is_streak(dates, anchor, streak_of(dates, anchor)),
    decreases dates.len(),
{
    if dates.len() > 0 && dates[0].days == anchor {
        lemma_streak_of_is_streak(dates.drop_first(), anchor - 1);
        let sub = dates.drop_first();
        let m = streak_of(sub, anchor - 1);
        assert forall|i: int| 0 <= i < m + 1 implies (#[trigger] dates[i]).days == anchor - i by {
            if i > 0 {
                assert(sub[i - 1].days == (anchor - 1) - (i - 1));
            }
        }
        if m + 1 < dates.len() {
            assert(sub[m as int].days != (anchor - 1) - m);
        }
    }
}

/// Law: the streak is uniquely determined by its inputs — two results that
/// both satisfy the streak characterization for the same day list and the
/// same anchor are equal.  With the ensures of `compute_streak`, identical
/// inputs therefore always yield identical outputs.
pub proof fn lemma_streak_unique(dates: Seq<Date>, anchor: int, n1: int, n2: int)
    requires
        is_streak(dates, anchor, n1),
        is_streak(dates, anchor, n2),
    ensures
        n1 == n2,
{
    if n1 < n2 {
        assert(dates[n1 as int].days == anchor - n1);
    }
    if n2 < n1 {
        assert(dates[n2 as int].days == anchor - n2);
    }
}

/// Law: the streak of an empty day list is 0, whatever today is.
pub proof fn lemma_streak_empty(anchor: int)
    ensures
        streak_of(Seq::<Date>::empty(), anchor) == 0,
{
}

/// Law: if the most recent logged day is not today, the streak is 0 — a run
/// that ends yesterday does not count.
pub proof fn lemma_streak_needs_today(dates: Seq<Date>, anchor: int)
    requires
        dates.len() > 0,
        dates[0].days != anchor,
    ensures
        streak_of(dates, anchor) == 0,
{
}

/// Count the consecutive run of days in `dates` that starts at `today` and
/// steps backwards one day at a time; the first entry that is not the
/// expected day ends the count.
pub fn compute_streak(dates: &Vec<Date>, today: Date) -> (n: i64)
    requires
        today.wf(),
        forall|i: int| 0 <= i < dates@.len() ==> (#[trigger] dates@[i]).wf(),
    ensures
        is_streak(dates@, today.days as int, n as int),
        n == streak_of(dates@, today.days as int),
{
    let mut streak: i64 = 0;
    let mut expected: i64 = today.days;
    let mut idx: usize = 0;
    proof {
        assert(dates@.skip(0) =~= dates@);
    }
    while idx < dates.len()
        invariant
            today.wf(),
            forall|i: int| 0 <= i < dates@.len() ==> (#[trigger] dates@[i]).wf(),
            0 <= idx <= dates@.len(),
            streak as int == idx as int,
            expected as int == today.days - streak,
            -1 <= expected as int <= today.days,
            forall|i: int| 0 <= i < idx ==> (#[trigger] dates@[i]).days == today.days - i,
            streak_of(dates@, today.days as int) == streak + streak_of(
                dates@.skip(idx as int),
                expected as int,
            ),
        decreases dates@.len() - idx,
    {
        proof {
            let suf = dates@.skip(idx as int);
            assert(suf[0] == dates@[idx as int]);
            assert(suf.drop_first() =~= dates@.skip(idx as int + 1));
        }
        if dates[idx].days != expected {
            proof {
                assert(streak_of(dates@.skip(idx as int), expected as int) == 0);
            }
            return streak;
        }
        streak = streak + 1;
        expected = expected - 1;
        idx = idx + 1;
    }
    proof {
        assert(dates@.skip(idx as int) =~= Seq::<Date>::empty());
    }
    streak
}

// ── Parse-and-skip composition for the streak ──────────────────────────────

/// The dates of the parseable strings in `strs`, in order; unparseable
/// entries simply do not appear.
pub open spec fn parsed_dates(strs: Seq<Seq<char>>) -> Seq<Date>
    decreases strs.len(),
{
    if strs.len() == 0 {
        Seq::empty()
    } else {
        match parse_date_spec(strs[0]) {
            Some(d) => seq![d] + parsed_dates(strs.drop_first()),
            None => parsed_dates(strs.drop_first()),
        }
    }
}

/// The streak of a list of raw date strings: parseable entries are walked
/// as in `streak_of`, unparseable entries are skipped silently and do not
/// advance or break the run.
pub open spec fn streak_of_strs(strs: Seq<Seq<char>>, anchor: int) -> int
    decreases strs.len(),
{
    if strs.len() == 0 {
        0
    } else {
        match parse_date_spec(strs[0]) {
            Some(d) => if d.days == anchor {
                1 + streak_of_strs(strs.drop_first(), anchor - 1)
            } else {
                0
            },
            None => streak_of_strs(strs.drop_first(), anchor),
        }
    }
}

/// Skipping unparseable strings first and then walking the streak gives the
/// same answer as walking with inline skips.
pub proof fn lemma_streak_of_strs_parsed(strs: Seq<Seq<char>>, anchor: int)
    ensures
        streak_of_strs(strs, anchor) == streak_of(parsed_dates(strs), anchor),
    decreases strs.len(),
{
    if strs.len() > 0 {
        match parse_date_spec(strs[0]) {
            Some(d) => {
                let rest = parsed_dates(strs.drop_first());
                assert(parsed_dates(strs) == seq![d] + rest);
                assert((seq![d] + rest)[0] == d);
                assert((seq![d] + rest).drop_first() =~= rest);
                if d.days == anchor {
                    lemma_streak_of_strs_parsed(strs.drop_first(), anchor - 1);
                }
            },
            None => {
                lemma_streak_of_strs_parsed(strs.drop_first(), anchor);
            },
        }
    }
}

/// The streak of a list of raw `YYYY-MM-DD` strings, newest first, anchored
/// at `today`.  Strings that do not parse as dates are skipped silently.
pub fn calculate_streak(dates: &Vec<String>, today: Date) -> (n: i64)
    requires
        today.wf(),
    ensures
        n == streak_of_strs(dates@.map_values(|s: String| s@), today.days as int),
        is_streak(
            parsed_dates(dates@.map_values(|s: String| s@)),
            today.days as int,
            n as int,
        ),
{
    let ghost views = dates@.map_values(|s: String| s@);
    let mut streak: i64 = 0;
    let mut expected: i64 = today.days;
    let mut idx: usize = 0;
    proof {
        assert(views.skip(0) =~= views);
    }
    while idx < dates.len()
        invariant
            today.wf(),
            0 <= idx <= dates@.len(),
            views == dates@.map_values(|s: String| s@),
            expected as int == today.days - streak,
            -1 <= expected as int <= today.days,
            streak_of_strs(views, today.days as int) == streak + streak_of_strs(
                views.skip(idx as int),
                expected as int,
            ),
        decreases dates@.len() - idx,
    {
        proof {
            let suf = views.skip(idx as int);
            assert(suf[0] == views[idx as int]);
            assert(views[idx as int] == dates@[idx as int]@);
            assert(suf.drop_first() =~= views.skip(idx as int + 1));
        }
        match parse_date(dates[idx].as_str()) {
            Some(d) => {
                if d.days != expected {
                    proof {
                        assert(streak_of_strs(views.skip(idx as int), expected as int) == 0);
                        lemma_streak_of_strs_parsed(views, today.days as int);
                        lemma_streak_of_is_streak(parsed_dates(views), today.days as int);
                        lemma_streak_unique(
                            parsed_dates(views),
                            today.days as int,
                            streak_of(parsed_dates(views), today.days as int),
                            streak as int,
                        );
                    }
                    return streak;
                }
                streak = streak + 1;
                expected = expected - 1;
            },
            None => {},
        }
        idx = idx + 1;
    }
    proof {
        assert(views.skip(idx as int) =~= Seq::<Seq<char>>::empty());
        lemma_streak_of_strs_parsed(views, today.days as int);
        lemma_streak_of_is_streak(parsed_dates(views), today.days as int);
        lemma_streak_unique(
            parsed_dates(views),
            today.days as int,
            streak_of(parsed_dates(views), today.days as int),
            streak as int,
        );
    }
    streak
}

// ── Rolling window aggregator ──────────────────────────────────────────────

/// The minutes placed in window slot `j` (0 = six days ago, 6 = today) by
/// the day/minutes pairs: the latest pair whose day lies in the trailing
/// week and maps to slot `j`, or 0 when no pair does.
pub open spec fn weekly_slot(pairs: Seq<(Date, i64)>, today: Date, j: int) -> i64
    decreases pairs.len(),
{
    if pairs.len() == 0 {
        0
    } else {
        let ago = today.days - pairs.last().0.days;
        if 0 <= ago <= 6 && 6 - ago == j {
            pairs.last().1
        } else {
            weekly_slot(pairs.drop_last(), today, j)
        }
    }
}

/// Law: an empty set of per-day totals yields an all-zero week, whatever
/// today is.
pub proof fn lemma_weekly_empty(today: Date, j: int)
    ensures
        weekly_slot(Seq::<(Date, i64)>::empty(), today, j) == 0,
{
}

/// Law: pairs whose day lies outside the trailing week contribute nothing —
/// every slot is as if they were absent.
pub proof fn lemma_weekly_ignores_out_of_window(pairs: Seq<(Date, i64)>, today: Date, j: int)
    requires
        forall|i: int|
            0 <= i < pairs.len() ==> !(0 <= today.days - (#[trigger] pairs[i]).0.days <= 6),
    ensures
        weekly_slot(pairs, today, j) == 0,
    decreases pairs.len(),
{
    if pairs.len() > 0 {
        assert(pairs.last() == pairs[pairs.len() - 1]);
        lemma_weekly_ignores_out_of_window(pairs.drop_last(), today, j);
    }
}

/// Law: a pair whose day is outside the trailing week is ignored — adding
/// it changes no slot.
pub proof fn lemma_weekly_out_of_window_pair_is_ignored(
    pairs: Seq<(Date, i64)>,
    today: Date,
    p: (Date, i64),
    j: int,
)
    requires
        !(0 <= today.days - p.0.days <= 6),
    ensures
        weekly_slot(pairs.push(p), today, j) == weekly_slot(pairs, today, j),
{
    assert(pairs.push(p).last() == p);
    assert(pairs.push(p).drop_last() =~= pairs);
}

/// Law: the weekly window is uniquely determined by its inputs — two
/// 7-element results whose slots both satisfy the `weekly_slot`
/// characterization for the same pairs and today are equal.
pub proof fn lemma_weekly_unique(pairs: Seq<(Date, i64)>, today: Date, w1: Seq<i64>, w2: Seq<i64>)
    requires
        w1.len() == 7,
        w2.len() == 7,
        forall|j: int| 0 <= j < 7 ==> w1[j] == weekly_slot(pairs, today, j),
        forall|j: int| 0 <= j < 7 ==> w2[j] == weekly_slot(pairs, today, j),
    ensures
        w1 == w2,
{
    assert(w1 =~= w2);
}

/// Place each day's total minutes into the 7-slot trailing week, oldest
/// first, today last; days outside the window are ignored and unmatched
/// slots stay 0.
pub fn compute_weekly(daily_totals: &Vec<(Date, i64)>, today: Date) -> (w: WeeklyMinutes)
    requires
        today.wf(),
        forall|i: int| 0 <= i < daily_totals@.len() ==> (#[trigger] daily_totals@[i]).0.wf(),
    ensures
        forall|j: int| 0 <= j < 7 ==> w@[j] == weekly_slot(daily_totals@, today, j),
{
    let mut w: WeeklyMinutes = [0, 0, 0, 0, 0, 0, 0];
    let mut i: usize = 0;
    proof {
        assert(daily_totals@.take(0) =~= Seq::<(Date, i64)>::empty());
    }
    while i < daily_totals.len()
        invariant
            today.wf(),
            forall|k: int| 0 <= k < daily_totals@.len() ==> (#[trigger] daily_totals@[k]).0.wf(),
            0 <= i <= daily_totals@.len(),
            w@.len() == 7,
            forall|j: int| 0 <= j < 7 ==> w@[j] == weekly_slot(daily_totals@.take(i as int), today, j),
        decreases daily_totals@.len() - i,
    {
        proof {
            let prefix = daily_totals@.take(i as int);
            let next = daily_totals@.take(i as int + 1);
            assert(next.drop_last() =~= prefix);
            assert(next.last() == daily_totals@[i as int]);
        }
        let (day, minutes) = daily_totals[i];
        let ago = today.days - day.days;
        if 0 <= ago && ago <= 6 {
            let slot = (6 - ago) as usize;
            w[slot] = minutes;
        }
        i = i + 1;
    }
    proof {
        assert(daily_totals@.take(daily_totals@.len() as int) =~= daily_totals@);
    }
    w
}

// ── Parse-and-skip composition for the weekly window ───────────────────────

/// The day/minutes pairs of the rows whose date string parses, in order;
/// rows with unparseable dates simply do not appear.
pub open spec fn parsed_rows(rows: Seq<(Seq<char>, i64)>) -> Seq<(Date, i64)>
    decreases rows.len(),
{
    if rows.len() == 0 {
        Seq::empty()
    } else {
        let head = parsed_rows(rows.drop_last());
        match parse_date_spec(rows.last().0) {
            Some(d) => head.push((d, rows.last().1)),
            None => head,
        }
    }
}

/// The weekly window of raw `(date string, minutes)` rows: rows whose date
/// does not parse are skipped silently.
pub fn weekly_from_rows(rows: &Vec<(String, i64)>, today: Date) -> (w: WeeklyMinutes)
    requires
        today.wf(),
    ensures
        forall|j: int|
            0 <= j < 7 ==> w@[j] == weekly_slot(
                parsed_rows(rows@.map_values(|r: (String, i64)| (r.0@, r.1))),
                today,
                j,
            ),
{
    let ghost views = rows@.map_values(|r: (String, i64)| (r.0@, r.1));
    let mut w: WeeklyMinutes = [0, 0, 0, 0, 0, 0, 0];
    let mut i: usize = 0;
    proof {
        assert(views.take(0) =~= Seq::<(Seq<char>, i64)>::empty());
    }
    while i < rows.len()
        invariant
            today.wf(),
            0 <= i <= rows@.len(),
            views == rows@.map_values(|r: (String, i64)| (r.0@, r.1)),
            w@.len() == 7,
            forall|j: int|
                0 <= j < 7 ==> w@[j] == weekly_slot(parsed_rows(views.take(i as int)), today, j),
        decreases rows@.len() - i,
    {
        proof {
            let prefix = views.take(i as int);
            let next = views.take(i as int + 1);
            assert(next.drop_last() =~= prefix);
            assert(next.last() == views[i as int]);
            assert(views[i as int] == (rows@[i as int].0@, rows@[i as int].1));
        }
        match parse_date(rows[i].0.as_str()) {
            Some(day) => {
                proof {
                    let pr = parsed_rows(views.take(i as int + 1));
                    assert(pr == parsed_rows(views.take(i as int)).push((day, rows@[i as int].1)));
                    assert(pr.last() == (day, rows@[i as int].1));
                    assert(pr.drop_last() =~= parsed_rows(views.take(i as int)));
                }
                let minutes = rows[i].1;
                let ago = today.days - day.days;
                if 0 <= ago && ago <= 6 {
                    let slot = (6 - ago) as usize;
                    w[slot] = minutes;
                }
            },
            None => {},
        }
        i = i + 1;
    }
    proof {
        assert(views.take(rows@.len() as int) =~= views);
    }
    w
}

// ── Stats assembler ────────────────────────────────────────────────────────

/// Assemble the dashboard snapshot from the outcomes of the three read-only
/// store queries.  A query that failed is handed in as `None` and degrades
/// to that metric's zero value; the dashboard always renders.
pub fn assemble_stats(
    sessions_today: Option<i64>,
    total_minutes: Option<i64>,
    dates: Option<Vec<String>>,
    today: Date,
) -> (stats: DashboardStats)
    requires
        today.wf(),
    ensures
        stats.sessions_today == (match sessions_today {
            Some(c) => c,
            None => 0,
        }),
        stats.total_minutes == (match total_minutes {
            Some(t) => t,
            None => 0,
        }),
        stats.streak == (match dates {
            Some(ds) => streak_of_strs(ds@.map_values(|s: String| s@), today.days as int),
            None => 0,
        }),
        dates matches Some(ds) ==> is_streak(
            parsed_dates(ds@.map_values(|s: String| s@)),
            today.days as int,
            stats.streak as int,
        ),
{
    let streak = match dates {
        Some(ds) => calculate_streak(&ds, today),
        None => 0,
    };
    DashboardStats {
        sessions_today: match sessions_today {
            Some(c) => c,
            None => 0,
        },
        streak,
        total_minutes: match total_minutes {
            Some(t) => t,
            None => 0,
        },
    }
}

/// Assemble the weekly window from the outcome of the per-day sums query.
/// A failed query is handed in as `None` and yields the all-zero week.
pub fn assemble_weekly(rows: Option<Vec<(String, i64)>>, today: Date) -> (w: WeeklyMinutes)
    requires
        today.wf(),
    ensures
        forall|j: int|
            0 <= j < 7 ==> w@[j] == (match rows {
                Some(rs) => weekly_slot(
                    parsed_rows(rs@.map_values(|r: (String, i64)| (r.0@, r.1))),
                    today,
                    j,
                ),
                None => 0,
            }),
{
    match rows {
        Some(rs) => weekly_from_rows(&rs, today),
        None => [0, 0, 0, 0, 0, 0, 0],
    }
}

} // verus!
