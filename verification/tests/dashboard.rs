use aia::dashboard::{
    activity_window, align_timestamp, dashboard_window, fill_activity, fill_trend, previous_window,
    DashboardActivityRow, LlmTraceDashboardTrendPoint, DAY_MS, HOUR_MS, YEAR_DAYS,
};
use aia::trace::LlmTraceDashboardRange;

fn point(bucket_start_ms: u64, total_requests: u64, total_tokens: u64) -> LlmTraceDashboardTrendPoint {
    LlmTraceDashboardTrendPoint {
        bucket_start_ms,
        total_requests,
        failed_requests: 0,
        partial_requests: 0,
        total_input_tokens: 0,
        total_output_tokens: 0,
        total_cached_tokens: 0,
        total_tokens,
    }
}

fn activity(day_start_ms: u64, total_requests: u64) -> DashboardActivityRow {
    DashboardActivityRow {
        day_start_ms,
        total_requests,
        total_sessions: 1,
        total_cost_micros: 10,
        total_tokens: 100,
        total_lines_changed: 2,
    }
}

#[test]
fn timestamps_align_down_to_bucket_boundaries() {
    assert_eq!(align_timestamp(0, HOUR_MS), 0);
    assert_eq!(align_timestamp(HOUR_MS - 1, HOUR_MS), 0);
    assert_eq!(align_timestamp(5 * HOUR_MS + 7, HOUR_MS), 5 * HOUR_MS);
    assert_eq!(align_timestamp(3 * DAY_MS + HOUR_MS, DAY_MS), 3 * DAY_MS);
}

#[test]
fn dashboard_windows_cover_the_selected_range() {
    let now = 40 * DAY_MS + 5 * HOUR_MS + 123;
    let today = dashboard_window(LlmTraceDashboardRange::Today, now);
    assert_eq!(today.start_ms, 39 * DAY_MS + 5 * HOUR_MS);
    assert_eq!(today.end_ms, now);
    assert_eq!(today.bucket_ms, HOUR_MS);
    assert_eq!(today.span_ms, DAY_MS);

    let week = dashboard_window(LlmTraceDashboardRange::Week, now);
    assert_eq!(week.start_ms, 33 * DAY_MS);
    assert_eq!(week.bucket_ms, DAY_MS);
    assert_eq!(week.span_ms, 7 * DAY_MS);

    let month = dashboard_window(LlmTraceDashboardRange::Month, now);
    assert_eq!(month.start_ms, 10 * DAY_MS);
    assert_eq!(month.span_ms, 30 * DAY_MS);

    let early = dashboard_window(LlmTraceDashboardRange::Month, 5);
    assert_eq!(early.start_ms, 0);
}

#[test]
fn previous_window_ends_where_the_current_one_starts() {
    let now = 40 * DAY_MS;
    let week = dashboard_window(LlmTraceDashboardRange::Week, now);
    let previous = previous_window(&week);
    assert_eq!(previous.end_ms, week.start_ms);
    assert_eq!(previous.start_ms, week.start_ms - 7 * DAY_MS);
    assert_eq!(previous.bucket_ms, DAY_MS);
    let first = previous_window(&dashboard_window(LlmTraceDashboardRange::Month, DAY_MS));
    assert_eq!(first.start_ms, 0);
}

#[test]
fn trend_has_one_point_per_bucket_with_summed_rows() {
    let window = dashboard_window(LlmTraceDashboardRange::Today, 2 * DAY_MS);
    let rows = vec![
        point(window.start_ms, 2, 20),
        point(window.start_ms + 3 * HOUR_MS, 1, 5),
        point(window.start_ms + 3 * HOUR_MS, 4, 7),
        point(window.start_ms + 99 * HOUR_MS, 9, 9),
    ];
    let trend = fill_trend(&window, &rows);
    assert_eq!(trend.len(), 24);
    assert_eq!(trend[0], point(window.start_ms, 2, 20));
    assert_eq!(trend[1], point(window.start_ms + HOUR_MS, 0, 0));
    assert_eq!(trend[3], point(window.start_ms + 3 * HOUR_MS, 5, 12));
    assert_eq!(trend[23].bucket_start_ms, window.start_ms + 23 * HOUR_MS);
}

#[test]
fn trend_totals_saturate() {
    let window = dashboard_window(LlmTraceDashboardRange::Today, DAY_MS);
    let rows = vec![point(0, u64::MAX, 1), point(0, 1, 1)];
    let trend = fill_trend(&window, &rows);
    assert_eq!(trend[0].total_requests, u64::MAX);
    assert_eq!(trend[0].total_tokens, 2);
}

#[test]
fn activity_calendar_spans_a_year_and_a_day() {
    let now = 400 * DAY_MS + 7;
    let (start, end) = activity_window(now);
    assert_eq!(start, (400 - YEAR_DAYS) * DAY_MS);
    assert_eq!(end, now + DAY_MS);
    let rows = vec![activity(start + DAY_MS, 3), activity(start + 10 * DAY_MS, 1), activity(start + 10 * DAY_MS, 2)];
    let calendar = fill_activity(start, end, &rows);
    assert_eq!(calendar.len() as u64, YEAR_DAYS + 2);
    assert_eq!(calendar[0].total_requests, 0);
    assert_eq!(calendar[0].day_start_ms, start);
    assert_eq!(calendar[1], activity(start + DAY_MS, 3));
    assert_eq!(calendar[10], activity(start + 10 * DAY_MS, 2));
}

#[test]
fn activity_window_near_the_epoch_starts_at_zero() {
    let (start, end) = activity_window(DAY_MS / 2);
    assert_eq!(start, 0);
    assert_eq!(end, DAY_MS / 2 + DAY_MS);
    assert_eq!(fill_activity(start, end, &Vec::new()).len(), 2);
}
