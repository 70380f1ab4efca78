//! Time windows and per-bucket series of the trace dashboard.
use vstd::prelude::*;

use crate::trace::LlmTraceDashboardRange;

verus! {

pub const HOUR_MS: u64 = 3_600_000;

pub const DAY_MS: u64 = 86_400_000;

pub const YEAR_DAYS: u64 = 365;

/// A time window `[start_ms, end_ms)` cut into buckets of `bucket_ms`.
#[derive(Clone, Copy, Debug, PartialEq, Eq)]
pub struct DashboardWindow {
    pub start_ms: u64,
    pub end_ms: u64,
    pub bucket_ms: u64,
    pub span_ms: u64,
}

/// `a - b`, or 0 when `b > a`.
pub open spec fn sat_sub(a: int, b: int) -> int {
    if a >= b {
        a - b
    } else {
        0
    }
}

/// `a + b`, capped at `u64::MAX`.
pub open spec fn sat_add(a: int, b: int) -> int {
    if a + b > u64::MAX {
        u64::MAX as int
    } else {
        a + b
    }
}

/// `value` rounded down to a multiple of `bucket_ms`.
pub open spec fn aligned(value: int, bucket_ms: int) -> int {
    (value / bucket_ms) * bucket_ms
}

/// Rounds `value` down to a multiple of `bucket_ms`.
pub fn align_timestamp(value: u64, bucket_ms: u64) -> (r: u64)
    requires
        bucket_ms > 0,
    ensures
        r == aligned(value as int, bucket_ms as int),
{
    let q: u64 = value / bucket_ms;
    assert(q * bucket_ms <= value) by (nonlinear_arith)
        requires
            q == value / bucket_ms,
            bucket_ms > 0,
    ;
    q * bucket_ms
}

/// The window a dashboard range covers at time `now_ms`: the last day in
/// hourly buckets, or the last seven or thirty days in daily buckets, each
/// starting on a bucket boundary.
pub open spec fn window_for(range: LlmTraceDashboardRange, now_ms: u64) -> DashboardWindow {
    match range {
        LlmTraceDashboardRange::Today => DashboardWindow {
            start_ms: aligned(sat_sub(now_ms as int, DAY_MS as int), HOUR_MS as int) as u64,
            end_ms: now_ms,
            bucket_ms: HOUR_MS,
            span_ms: DAY_MS,
        },
        LlmTraceDashboardRange::Week => DashboardWindow {
            start_ms: aligned(sat_sub(now_ms as int, 7 * DAY_MS as int), DAY_MS as int) as u64,
            end_ms: now_ms,
            bucket_ms: DAY_MS,
            span_ms: (7 * DAY_MS) as u64,
        },
        LlmTraceDashboardRange::Month => DashboardWindow {
            start_ms: aligned(sat_sub(now_ms as int, 30 * DAY_MS as int), DAY_MS as int) as u64,
            end_ms: now_ms,
            bucket_ms: DAY_MS,
            span_ms: (30 * DAY_MS) as u64,
        },
    }
}

/// The window of a dashboard range at time `now_ms`.
pub fn dashboard_window(range: LlmTraceDashboardRange, now_ms: u64) -> (r: DashboardWindow)
    ensures
        r == window_for(range, now_ms),
        r.bucket_ms > 0,
        r.start_ms <= r.end_ms,
{
    match range {
        LlmTraceDashboardRange::Today => DashboardWindow {
            start_ms: align_timestamp(now_ms.saturating_sub(DAY_MS), HOUR_MS),
            end_ms: now_ms,
            bucket_ms: HOUR_MS,
            span_ms: DAY_MS,
        },
        LlmTraceDashboardRange::Week => DashboardWindow {
            start_ms: align_timestamp(now_ms.saturating_sub(7 * DAY_MS), DAY_MS),
            end_ms: now_ms,
            bucket_ms: DAY_MS,
            span_ms: 7 * DAY_MS,
        },
        LlmTraceDashboardRange::Month => DashboardWindow {
            start_ms: align_timestamp(now_ms.saturating_sub(30 * DAY_MS), DAY_MS),
            end_ms: now_ms,
            bucket_ms: DAY_MS,
            span_ms: 30 * DAY_MS,
        },
    }
}

/// The window of the same length that ends where `current` starts.
pub fn previous_window(current: &DashboardWindow) -> (r: DashboardWindow)
    ensures
        r.start_ms == sat_sub(current.start_ms as int, current.span_ms as int),
        r.end_ms == current.start_ms,
        r.bucket_ms == current.bucket_ms,
        r.span_ms == current.span_ms,
{
    DashboardWindow {
        start_ms: current.start_ms.saturating_sub(current.span_ms),
        end_ms: current.start_ms,
        bucket_ms: current.bucket_ms,
        span_ms: current.span_ms,
    }
}

/// Request and token totals of one bucket of the dashboard trend.
#[derive(Clone, Copy, Debug, PartialEq, Eq)]
pub struct LlmTraceDashboardTrendPoint {
    pub bucket_start_ms: u64,
    pub total_requests: u64,
    pub failed_requests: u64,
    pub partial_requests: u64,
    pub total_input_tokens: u64,
    pub total_output_tokens: u64,
    pub total_cached_tokens: u64,
    pub total_tokens: u64,
}

/// Field `field` (0 requests, 1 failed, 2 partial, 3 input tokens, 4 output
/// tokens, 5 cached tokens, otherwise total tokens) of a trend point.
pub open spec fn trend_field(p: LlmTraceDashboardTrendPoint, field: int) -> u64 {
    if field == 0 {
        p.total_requests
    } else if field == 1 {
        p.failed_requests
    } else if field == 2 {
        p.partial_requests
    } else if field == 3 {
        p.total_input_tokens
    } else if field == 4 {
        p.total_output_tokens
    } else if field == 5 {
        p.total_cached_tokens
    } else {
        p.total_tokens
    }
}

/// The sum of field `field` over the rows of bucket `bucket`.
pub open spec fn trend_sum(rows: Seq<LlmTraceDashboardTrendPoint>, bucket: u64, field: int) -> int
    decreases rows.len(),
{
    if rows.len() == 0 {
        0
    } else {
        trend_sum(rows.drop_last(), bucket, field) + if rows.last().bucket_start_ms == bucket {
            trend_field(rows.last(), field) as int
        } else {
            0
        }
    }
}

/// `v` capped at `u64::MAX`.
pub open spec fn capped(v: int) -> u64 {
    if v > u64::MAX {
        u64::MAX
    } else {
        v as u64
    }
}

/// The trend point of bucket `bucket`: the totals of its rows, each capped at `u64::MAX`.
pub open spec fn trend_point_for(rows: Seq<LlmTraceDashboardTrendPoint>, bucket: u64) -> LlmTraceDashboardTrendPoint {
    LlmTraceDashboardTrendPoint {
        bucket_start_ms: bucket,
        total_requests: capped(trend_sum(rows, bucket, 0)),
        failed_requests: capped(trend_sum(rows, bucket, 1)),
        partial_requests: capped(trend_sum(rows, bucket, 2)),
        total_input_tokens: capped(trend_sum(rows, bucket, 3)),
        total_output_tokens: capped(trend_sum(rows, bucket, 4)),
        total_cached_tokens: capped(trend_sum(rows, bucket, 5)),
        total_tokens: capped(trend_sum(rows, bucket, 6)),
    }
}

proof fn lemma_trend_sum_nonneg(rows: Seq<LlmTraceDashboardTrendPoint>, bucket: u64, field: int)
    ensures
        trend_sum(rows, bucket, field) >= 0,
    decreases rows.len(),
{
    if rows.len() > 0 {
        lemma_trend_sum_nonneg(rows.drop_last(), bucket, field);
    }
}

/// The sum of `f` over the rows of bucket `bucket`.
pub open spec fn bucket_total(
    rows: Seq<LlmTraceDashboardTrendPoint>,
    bucket: u64,
    f: spec_fn(LlmTraceDashboardTrendPoint) -> u64,
) -> int
    decreases rows.len(),
{
    if rows.len() == 0 {
        0
    } else {
        bucket_total(rows.drop_last(), bucket, f) + if rows.last().bucket_start_ms == bucket {
            f(rows.last()) as int
        } else {
            0
        }
    }
}

proof fn lemma_trend_sum_is_bucket_total(
    rows: Seq<LlmTraceDashboardTrendPoint>,
    bucket: u64,
    field: int,
    f: spec_fn(LlmTraceDashboardTrendPoint) -> u64,
)
    requires
        forall|p: LlmTraceDashboardTrendPoint| #[trigger] f(p) == trend_field(p, field),
    ensures
        trend_sum(rows, bucket, field) == bucket_total(rows, bucket, f),
    decreases rows.len(),
{
    if rows.len() > 0 {
        lemma_trend_sum_is_bucket_total(rows.drop_last(), bucket, field, f);
        assert(f(rows.last()) == trend_field(rows.last(), field));
    }
}

/// Law: each figure of a trend point is the total of that same figure over
/// the rows of its bucket, capped at `u64::MAX`: requests with requests,
/// input tokens with input tokens, and so on; rows of other buckets add
/// nothing.
pub proof fn law_trend_point_sums_each_figure(rows: Seq<LlmTraceDashboardTrendPoint>, bucket: u64)
    ensures
        trend_point_for(rows, bucket).bucket_start_ms == bucket,
        trend_point_for(rows, bucket).total_requests == capped(
            bucket_total(rows, bucket, |p: LlmTraceDashboardTrendPoint| p.total_requests),
        ),
        trend_point_for(rows, bucket).failed_requests == capped(
            bucket_total(rows, bucket, |p: LlmTraceDashboardTrendPoint| p.failed_requests),
        ),
        trend_point_for(rows, bucket).partial_requests == capped(
            bucket_total(rows, bucket, |p: LlmTraceDashboardTrendPoint| p.partial_requests),
        ),
        trend_point_for(rows, bucket).total_input_tokens == capped(
            bucket_total(rows, bucket, |p: LlmTraceDashboardTrendPoint| p.total_input_tokens),
        ),
        trend_point_for(rows, bucket).total_output_tokens == capped(
            bucket_total(rows, bucket, |p: LlmTraceDashboardTrendPoint| p.total_output_tokens),
        ),
        trend_point_for(rows, bucket).total_cached_tokens == capped(
            bucket_total(rows, bucket, |p: LlmTraceDashboardTrendPoint| p.total_cached_tokens),
        ),
        trend_point_for(rows, bucket).total_tokens == capped(
            bucket_total(rows, bucket, |p: LlmTraceDashboardTrendPoint| p.total_tokens),
        ),
{
    lemma_trend_sum_is_bucket_total(rows, bucket, 0, |p: LlmTraceDashboardTrendPoint| p.total_requests);
    lemma_trend_sum_is_bucket_total(rows, bucket, 1, |p: LlmTraceDashboardTrendPoint| p.failed_requests);
    lemma_trend_sum_is_bucket_total(rows, bucket, 2, |p: LlmTraceDashboardTrendPoint| p.partial_requests);
    lemma_trend_sum_is_bucket_total(rows, bucket, 3, |p: LlmTraceDashboardTrendPoint| p.total_input_tokens);
    lemma_trend_sum_is_bucket_total(rows, bucket, 4, |p: LlmTraceDashboardTrendPoint| p.total_output_tokens);
    lemma_trend_sum_is_bucket_total(rows, bucket, 5, |p: LlmTraceDashboardTrendPoint| p.total_cached_tokens);
    lemma_trend_sum_is_bucket_total(rows, bucket, 6, |p: LlmTraceDashboardTrendPoint| p.total_tokens);
}

fn trend_point(rows: &Vec<LlmTraceDashboardTrendPoint>, bucket: u64) -> (r: LlmTraceDashboardTrendPoint)
    ensures
        r == trend_point_for(rows@, bucket),
{
    let mut p = LlmTraceDashboardTrendPoint {
        bucket_start_ms: bucket,
        total_requests: 0,
        failed_requests: 0,
        partial_requests: 0,
        total_input_tokens: 0,
        total_output_tokens: 0,
        total_cached_tokens: 0,
        total_tokens: 0,
    };
    let mut i: usize = 0;
    while i < rows.len()
        invariant
            i <= rows.len(),
            p == trend_point_for(rows@.take(i as int), bucket),
        decreases rows.len() - i,
    {
        let row = rows[i];
        assert(rows@.take(i + 1).drop_last() =~= rows@.take(i as int));
        proof {
            lemma_trend_sum_nonneg(rows@.take(i as int), bucket, 0);
            lemma_trend_sum_nonneg(rows@.take(i as int), bucket, 1);
            lemma_trend_sum_nonneg(rows@.take(i as int), bucket, 2);
            lemma_trend_sum_nonneg(rows@.take(i as int), bucket, 3);
            lemma_trend_sum_nonneg(rows@.take(i as int), bucket, 4);
            lemma_trend_sum_nonneg(rows@.take(i as int), bucket, 5);
            lemma_trend_sum_nonneg(rows@.take(i as int), bucket, 6);
        }
        if row.bucket_start_ms == bucket {
            p.total_requests = p.total_requests.saturating_add(row.total_requests);
            p.failed_requests = p.failed_requests.saturating_add(row.failed_requests);
            p.partial_requests = p.partial_requests.saturating_add(row.partial_requests);
            p.total_input_tokens = p.total_input_tokens.saturating_add(row.total_input_tokens);
            p.total_output_tokens = p.total_output_tokens.saturating_add(row.total_output_tokens);
            p.total_cached_tokens = p.total_cached_tokens.saturating_add(row.total_cached_tokens);
            p.total_tokens = p.total_tokens.saturating_add(row.total_tokens);
        }
        i = i + 1;
    }
    assert(rows@.take(rows.len() as int) =~= rows@);
    p
}

/// The trend of a window: one point per bucket from the window's start while
/// before its end, each holding the capped totals of the rows of that bucket.
pub fn fill_trend(window: &DashboardWindow, rows: &Vec<LlmTraceDashboardTrendPoint>) -> (r: Vec<
    LlmTraceDashboardTrendPoint,
>)
    requires
        window.bucket_ms > 0,
    ensures
        window.start_ms + r.len() * window.bucket_ms >= window.end_ms,
        forall|k: int|
            0 <= k < r.len() ==> #[trigger] (k * window.bucket_ms) < window.end_ms - window.start_ms,
        forall|k: int|
            0 <= k < r.len() ==> #[trigger] r@[k] == trend_point_for(
                rows@,
                (window.start_ms + k * window.bucket_ms) as u64,
            ),
{
    let mut trend: Vec<LlmTraceDashboardTrendPoint> = Vec::new();
    let mut bucket: u64 = window.start_ms;
    assert(0 * window.bucket_ms == 0) by (nonlinear_arith);
    while bucket < window.end_ms
        invariant
            window.bucket_ms > 0,
            bucket == window.start_ms + trend.len() * window.bucket_ms || (bucket == u64::MAX
                && window.start_ms + trend.len() * window.bucket_ms >= window.end_ms),
            forall|k: int|
                0 <= k < trend.len() ==> #[trigger] (k * window.bucket_ms) < window.end_ms
                    - window.start_ms,
            forall|k: int|
                0 <= k < trend.len() ==> #[trigger] trend@[k] == trend_point_for(
                    rows@,
                    (window.start_ms + k * window.bucket_ms) as u64,
                ),
        decreases (if bucket < window.end_ms { window.end_ms - bucket } else { 0 }),
    {
        let ghost k = trend.len() as int;
        let ghost b = window.bucket_ms as int;
        assert((k + 1) * b == k * b + b) by (nonlinear_arith);
        assert(bucket == window.start_ms + k * b);
        let point = trend_point(rows, bucket);
        trend.push(point);
        bucket = bucket.saturating_add(window.bucket_ms);
        assert(trend@[k] == trend_point_for(rows@, (window.start_ms + k * b) as u64));
    }
    trend
}

/// One day of the activity calendar, with its cost in micro-dollars.
#[derive(Clone, Copy, Debug, PartialEq, Eq)]
pub struct DashboardActivityRow {
    pub day_start_ms: u64,
    pub total_requests: u64,
    pub total_sessions: u64,
    pub total_cost_micros: u64,
    pub total_tokens: u64,
    pub total_lines_changed: u64,
}

/// The last row of day `day`, if any.
pub open spec fn last_row_of_day(rows: Seq<DashboardActivityRow>, day: u64) -> Option<
    DashboardActivityRow,
>
    decreases rows.len(),
{
    if rows.len() == 0 {
        None
    } else if rows.last().day_start_ms == day {
        Some(rows.last())
    } else {
        last_row_of_day(rows.drop_last(), day)
    }
}

/// The activity of day `day`: its last row, or zero totals.
pub open spec fn activity_for(rows: Seq<DashboardActivityRow>, day: u64) -> DashboardActivityRow {
    match last_row_of_day(rows, day) {
        Some(row) => row,
        None => DashboardActivityRow {
            day_start_ms: day,
            total_requests: 0,
            total_sessions: 0,
            total_cost_micros: 0,
            total_tokens: 0,
            total_lines_changed: 0,
        },
    }
}

/// The span of the activity calendar at `now_ms`: from the start of the day
/// a year before to one day after `now_ms`.
pub fn activity_window(now_ms: u64) -> (r: (u64, u64))
    ensures
        r.0 == aligned(sat_sub(now_ms as int, YEAR_DAYS * DAY_MS), DAY_MS as int),
        r.1 == sat_add(now_ms as int, DAY_MS as int),
{
    (align_timestamp(now_ms.saturating_sub(YEAR_DAYS * DAY_MS), DAY_MS), now_ms.saturating_add(DAY_MS))
}

fn activity_point(rows: &Vec<DashboardActivityRow>, day: u64) -> (r: DashboardActivityRow)
    ensures
        r == activity_for(rows@, day),
{
    let mut found: Option<DashboardActivityRow> = None;
    let mut i: usize = 0;
    while i < rows.len()
        invariant
            i <= rows.len(),
            found == last_row_of_day(rows@.take(i as int), day),
        decreases rows.len() - i,
    {
        assert(rows@.take(i + 1).drop_last() =~= rows@.take(i as int));
        if rows[i].day_start_ms == day {
            found = Some(rows[i]);
        }
        i = i + 1;
    }
    assert(rows@.take(rows.len() as int) =~= rows@);
    match found {
        Some(row) => row,
        None => DashboardActivityRow {
            day_start_ms: day,
            total_requests: 0,
            total_sessions: 0,
            total_cost_micros: 0,
            total_tokens: 0,
            total_lines_changed: 0,
        },
    }
}

/// The activity calendar over `[start_ms, end_ms)`: one point per day from
/// `start_ms`, each the last row of that day or zero totals.
pub fn fill_activity(start_ms: u64, end_ms: u64, rows: &Vec<DashboardActivityRow>) -> (r: Vec<
    DashboardActivityRow,
>)
    ensures
        start_ms + r.len() * DAY_MS >= end_ms,
        forall|k: int| 0 <= k < r.len() ==> #[trigger] (k * DAY_MS) < end_ms - start_ms,
        forall|k: int|
            0 <= k < r.len() ==> #[trigger] r@[k] == activity_for(rows@, (start_ms + k * DAY_MS) as u64),
{
    let mut activity: Vec<DashboardActivityRow> = Vec::new();
    let mut day: u64 = start_ms;
    assert(0 * DAY_MS == 0);
    while day < end_ms
        invariant
            day == start_ms + activity.len() * DAY_MS || (day == u64::MAX && start_ms
                + activity.len() * DAY_MS >= end_ms),
            forall|k: int| 0 <= k < activity.len() ==> #[trigger] (k * DAY_MS) < end_ms - start_ms,
            forall|k: int|
                0 <= k < activity.len() ==> #[trigger] activity@[k] == activity_for(
                    rows@,
                    (start_ms + k * DAY_MS) as u64,
                ),
        decreases (if day < end_ms { end_ms - day } else { 0 }),
    {
        let ghost k = activity.len() as int;
        assert((k + 1) * DAY_MS == k * DAY_MS + DAY_MS);
        assert(day == start_ms + k * DAY_MS);
        let point = activity_point(rows, day);
        activity.push(point);
        day = day.saturating_add(DAY_MS);
        assert(activity@[k] == activity_for(rows@, (start_ms + k * DAY_MS) as u64));
    }
    activity
}

} // verus!
