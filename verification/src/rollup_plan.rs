//! Which stored summaries a changed loop touches, and the bookkeeping kept
//! beside them: the latest start time, the per-model loop counts and the
//! duration buckets from which the 95th percentile is read.
use vstd::prelude::*;

use crate::error::AiaStoreError;
use crate::text::{
    decimal, opt_str, opt_text, owned, padded_decimal, push_padded_decimal, push_text, text_eq,
};

verus! {

/// One stored summary to update, and which sides of the change it sees:
/// the global summary has no request kind.
#[derive(Debug)]
pub struct RollupTarget {
    pub request_kind: Option<String>,
    pub include_previous: bool,
    pub include_current: bool,
}

/// A target as plain values: (request kind, sees previous, sees current).
pub open spec fn target_view(t: RollupTarget) -> (Option<Seq<char>>, bool, bool) {
    (opt_text(t.request_kind), t.include_previous, t.include_current)
}

/// The summaries touched when a loop of kind `previous` (absent for a new
/// loop) becomes one of kind `current` (absent for a removed loop): the
/// global summary sees both sides; the summary of the old kind sees the old
/// side, and the new side too when the kind is unchanged; the summary of a
/// new kind sees only the new side.
pub open spec fn rollup_plan(previous: Option<Seq<char>>, current: Option<Seq<char>>) -> Seq<
    (Option<Seq<char>>, bool, bool),
> {
    let same = previous is Some && current is Some && previous->0 == current->0;
    let global = seq![(None::<Seq<char>>, previous is Some, current is Some)];
    let with_previous = match previous {
        Some(kind) => global.push((Some(kind), true, same)),
        None => global,
    };
    match current {
        Some(kind) => if same {
            with_previous
        } else {
            with_previous.push((Some(kind), false, true))
        },
        None => with_previous,
    }
}

fn opt_owned(o: Option<&str>) -> (r: Option<String>)
    ensures
        opt_text(r) == opt_str(o),
{
    match o {
        Some(s) => Some(owned(s)),
        None => None,
    }
}

/// The summaries to update, in order, when a loop whose request kind was
/// `previous_kind` now has request kind `current_kind`.
pub fn summary_rollup_targets(previous_kind: Option<&str>, current_kind: Option<&str>) -> (r: Vec<
    RollupTarget,
>)
    ensures
        r@.map_values(|t: RollupTarget| target_view(t)) == rollup_plan(
            opt_str(previous_kind),
            opt_str(current_kind),
        ),
{
    let ghost p = opt_str(previous_kind);
    let ghost c = opt_str(current_kind);
    let mut out: Vec<RollupTarget> = Vec::new();
    out.push(
        RollupTarget {
            request_kind: None,
            include_previous: previous_kind.is_some(),
            include_current: current_kind.is_some(),
        },
    );
    let same = match (previous_kind, current_kind) {
        (Some(a), Some(b)) => text_eq(a, b),
        _ => false,
    };
    assert(same == (p is Some && c is Some && p->0 == c->0));
    if let Some(kind) = previous_kind {
        out.push(
            RollupTarget { request_kind: Some(owned(kind)), include_previous: true, include_current: same },
        );
    }
    if let Some(kind) = current_kind {
        if !same {
            out.push(
                RollupTarget {
                    request_kind: Some(owned(kind)),
                    include_previous: false,
                    include_current: true,
                },
            );
        }
    }
    assert(out@.map_values(|t: RollupTarget| target_view(t)) =~= rollup_plan(p, c));
    out
}

/// Whether some target of `plan` is the summary of kind `kind` and sees the
/// previous side (`side_current` false) or the current side (true).
pub open spec fn kind_sees(
    plan: Seq<(Option<Seq<char>>, bool, bool)>,
    kind: Seq<char>,
    side_current: bool,
) -> bool {
    exists|i: int|
        0 <= i < plan.len() && (#[trigger] plan[i]).0 == Some(kind) && (if side_current {
            plan[i].2
        } else {
            plan[i].1
        })
}

/// Law: a changed loop touches each summary at most once, the global summary
/// first with both sides as they are, and the summary of each request kind
/// sees a side of the change exactly when that side has this kind, so every
/// loop is counted once in the global summary and once under its own kind.
pub proof fn law_rollup_plan_counts_each_kind_once(
    previous: Option<Seq<char>>,
    current: Option<Seq<char>>,
    kind: Seq<char>,
)
    ensures
        rollup_plan(previous, current)[0] == (None::<Seq<char>>, previous is Some, current is Some),
        forall|i: int, j: int|
            0 <= i < j < rollup_plan(previous, current).len() ==> (#[trigger] rollup_plan(
                previous,
                current,
            )[i]).0 != (#[trigger] rollup_plan(previous, current)[j]).0,
        kind_sees(rollup_plan(previous, current), kind, false) <==> previous == Some(kind),
        kind_sees(rollup_plan(previous, current), kind, true) <==> current == Some(kind),
{
    let plan = rollup_plan(previous, current);
    if previous == Some(kind) {
        assert(plan[1].0 == Some(kind) && plan[1].1);
    }
    if current == Some(kind) {
        if previous == Some(kind) {
            assert(plan[1].0 == Some(kind) && plan[1].2);
        } else if previous is Some {
            assert(plan[2].0 == Some(kind) && plan[2].2);
        } else {
            assert(plan[1].0 == Some(kind) && plan[1].2);
        }
    }
}

/// What becomes of the latest start time of a summary.
#[derive(Debug, PartialEq, Eq)]
pub enum LatestStartedUpdate {
    /// The new latest start time is known from the change alone.
    Known(Option<u64>),
    /// The loop that held the latest start moved earlier or went away: it
    /// must be read again from the stored loops.
    Recalculate,
}

/// The later of two optional times.
pub open spec fn later(a: Option<u64>, b: Option<u64>) -> Option<u64> {
    match (a, b) {
        (Some(x), Some(y)) => Some(if x >= y { x } else { y }),
        (Some(x), None) => Some(x),
        (None, Some(y)) => Some(y),
        (None, None) => None,
    }
}

/// Whether the stored latest start `current_max` was held by the changed
/// loop (`previous_latest`) and the loop now starts earlier or is gone.
pub open spec fn must_recalculate(
    current_max: Option<u64>,
    previous_latest: Option<u64>,
    current_latest: Option<u64>,
) -> bool {
    match (current_max, previous_latest) {
        (Some(m), Some(p)) => p == m && match current_latest {
            Some(c) => c < p,
            None => true,
        },
        _ => false,
    }
}

/// The latest start time of a summary after one of its loops changes from
/// starting at `previous_latest` to starting at `current_latest`.
pub fn next_latest_started_at_ms(
    current_max: Option<u64>,
    previous_latest: Option<u64>,
    current_latest: Option<u64>,
) -> (r: LatestStartedUpdate)
    ensures
        r == (if must_recalculate(current_max, previous_latest, current_latest) {
            LatestStartedUpdate::Recalculate
        } else {
            LatestStartedUpdate::Known(later(current_max, current_latest))
        }),
{
    let should_recalculate = match (current_max, previous_latest, current_latest) {
        (Some(max_value), Some(previous_value), Some(current_value)) => previous_value == max_value
            && current_value < previous_value,
        (Some(max_value), Some(previous_value), None) => previous_value == max_value,
        _ => false,
    };
    if should_recalculate {
        return LatestStartedUpdate::Recalculate;
    }
    let next = match (current_max, current_latest) {
        (Some(existing), Some(next)) => Some(
            if existing >= next {
                existing
            } else {
                next
            },
        ),
        (Some(existing), None) => Some(existing),
        (None, Some(next)) => Some(next),
        (None, None) => None,
    };
    LatestStartedUpdate::Known(next)
}

/// The stored count after `delta`: absent when it drops to zero (the row is
/// deleted), `None` as a whole when it would drop below zero.
pub open spec fn next_count(existing: Option<i64>, delta: i64) -> Option<Option<i64>> {
    let next = match existing {
        Some(n) => n + delta,
        None => delta as int,
    };
    if next < 0 {
        None
    } else if next == 0 {
        Some(None)
    } else {
        Some(Some(next as i64))
    }
}

/// Whether `existing + delta` fits in 64 bits.
pub open spec fn count_fits(existing: Option<i64>, delta: i64) -> bool {
    match existing {
        Some(n) => i64::MIN <= n + delta <= i64::MAX,
        None => true,
    }
}

fn step_count(existing: Option<i64>, delta: i64) -> (r: Option<Option<i64>>)
    requires
        count_fits(existing, delta),
    ensures
        r == next_count(existing, delta),
{
    let next: i64 = match existing {
        Some(n) => n + delta,
        None => delta,
    };
    if next < 0 {
        None
    } else if next == 0 {
        Some(None)
    } else {
        Some(Some(next))
    }
}

/// The loop count of `model` under summary `request_kind_key` after
/// `delta`: `Ok(None)` deletes the row, `Ok(Some(n))` stores `n`.
pub fn adjust_model_count(
    request_kind_key: &str,
    model: &str,
    existing: Option<i64>,
    delta: i64,
) -> (r: Result<Option<i64>, AiaStoreError>)
    requires
        count_fits(existing, delta),
    ensures
        match r {
            Ok(n) => next_count(existing, delta) == Some(n),
            Err(e) => next_count(existing, delta) is None && e@ == "summary model count underflow: "@
                + request_kind_key@ + "/"@ + model@,
        },
{
    match step_count(existing, delta) {
        Some(n) => Ok(n),
        None => {
            let mut message = owned("summary model count underflow: ");
            push_text(&mut message, request_kind_key);
            push_text(&mut message, "/");
            push_text(&mut message, model);
            Err(AiaStoreError::new(message))
        },
    }
}

/// The sample count of the `duration_ms` bucket under summary
/// `request_kind_key` after `delta`: `Ok(None)` deletes the row,
/// `Ok(Some(n))` stores `n`.
pub fn adjust_duration_bucket(
    request_kind_key: &str,
    duration_ms: u64,
    existing: Option<i64>,
    delta: i64,
) -> (r: Result<Option<i64>, AiaStoreError>)
    requires
        count_fits(existing, delta),
    ensures
        match r {
            Ok(n) => next_count(existing, delta) == Some(n),
            Err(e) => next_count(existing, delta) is None && e@
                == "summary duration bucket underflow: "@ + request_kind_key@ + "/"@ + decimal(
                duration_ms as nat,
            ),
        },
{
    match step_count(existing, delta) {
        Some(n) => Ok(n),
        None => {
            let mut message = owned("summary duration bucket underflow: ");
            push_text(&mut message, request_kind_key);
            push_text(&mut message, "/");
            push_padded_decimal(&mut message, duration_ms, 0);
            assert(padded_decimal(duration_ms as nat, 0) == decimal(duration_ms as nat));
            Err(AiaStoreError::new(message))
        },
    }
}

/// The count adjustments for a loop whose model changes from `previous` to
/// `current`: the old model loses one loop and the new one gains one, and
/// nothing changes when the model stays.
pub fn update_model_count(previous_model: Option<&str>, current_model: Option<&str>) -> (r: (
    Option<String>,
    Option<String>,
))
    ensures
        opt_str(previous_model) == opt_str(current_model) ==> r.0 is None && r.1 is None,
        opt_str(previous_model) != opt_str(current_model) ==> opt_text(r.0) == opt_str(
            previous_model,
        ) && opt_text(r.1) == opt_str(current_model),
{
    let same = match (previous_model, current_model) {
        (Some(a), Some(b)) => text_eq(a, b),
        (None, None) => true,
        _ => false,
    };
    if same {
        return (None, None);
    }
    (opt_owned(previous_model), opt_owned(current_model))
}

/// The bucket adjustments for a loop whose duration changes from `previous`
/// to `current`: the old bucket loses one sample and the new one gains one,
/// and nothing changes when the duration stays.
pub fn update_duration_bucket(previous_duration: Option<u64>, current_duration: Option<u64>) -> (r: (
    Option<u64>,
    Option<u64>,
))
    ensures
        r == (if previous_duration == current_duration {
            (None, None)
        } else {
            (previous_duration, current_duration)
        }),
{
    if previous_duration == current_duration {
        return (None, None);
    }
    (previous_duration, current_duration)
}

/// The samples counted in the first `n` buckets, saturating at `u64::MAX`.
pub open spec fn samples_seen(buckets: Seq<(u64, u64)>, n: int) -> u64
    decreases n,
{
    if n <= 0 {
        0
    } else {
        let before = samples_seen(buckets, n - 1);
        let added = before + buckets[n - 1].1;
        if added > u64::MAX {
            u64::MAX
        } else {
            added as u64
        }
    }
}

/// The duration of the first bucket, in the given order, by which at least
/// `target` samples have been seen; none when there are no samples at all.
pub fn p95_duration_from_buckets(total_samples: u64, target: u64, buckets: &Vec<(u64, u64)>) -> (r:
    Option<u64>)
    ensures
        total_samples == 0 ==> r is None,
        total_samples != 0 ==> match r {
            Some(d) => exists|i: int|
                0 <= i < buckets@.len() && buckets@[i].0 == d && #[trigger] samples_seen(
                    buckets@,
                    i + 1,
                ) >= target && forall|j: int| 0 <= j < i ==> #[trigger] samples_seen(buckets@, j + 1) < target,
            None => forall|j: int|
                0 <= j < buckets@.len() ==> #[trigger] samples_seen(buckets@, j + 1) < target,
        },
{
    if total_samples == 0 {
        return None;
    }
    let mut seen: u64 = 0;
    let mut i: usize = 0;
    while i < buckets.len()
        invariant
            i <= buckets@.len(),
            total_samples != 0,
            seen == samples_seen(buckets@, i as int),
            forall|j: int| 0 <= j < i ==> #[trigger] samples_seen(buckets@, j + 1) < target,
        decreases buckets@.len() - i,
    {
        let (duration_ms, sample_count) = buckets[i];
        seen = seen.saturating_add(sample_count);
        assert(seen == samples_seen(buckets@, i + 1));
        if seen >= target {
            return Some(duration_ms);
        }
        i = i + 1;
    }
    None
}

/// Whether the stored summaries must be rebuilt from the stored loops:
/// there are loops, and the global summary, the model counts, or the
/// duration buckets that some loop with a duration needs, are missing.
pub fn summary_rollup_state_needs_rebuild(
    has_loops: bool,
    has_global_summary: bool,
    has_model_counts: bool,
    needs_duration_buckets: bool,
    has_duration_buckets: bool,
) -> (r: bool)
    ensures
        r == (has_loops && !(has_global_summary && has_model_counts && (!needs_duration_buckets
            || has_duration_buckets))),
{
    if !has_loops {
        return false;
    }
    !(has_global_summary && has_model_counts && (!needs_duration_buckets || has_duration_buckets))
}

} // verus!
