//! The poll filter: the pure policy that decides, for one sample, whether a
//! position is delivered now, buffered, or dropped.

use crate::coord::{l1_distance, spec_l1_distance, MousePos};
use vstd::prelude::*;

verus! {

/// What the filter decides for one sample.
#[derive(Clone, Copy, Debug, PartialEq, Eq, Structural)]
pub enum PollDecision {
    /// Deliver the sampled position at once; throttling is disabled.
    EmitNow(MousePos),
    /// Keep the sampled position as the pending one; the throttle window is still open.
    BufferPending(MousePos),
    /// Deliver the pending position; the throttle window has closed.
    EmitPending(MousePos),
    /// Nothing to deliver and nothing to buffer.
    NoAction,
}

/// Whether `cur` is far enough from the last delivered position to count as
/// movement. Before the first delivery every position counts.
pub open spec fn spec_moved_enough(last_sent: Option<MousePos>, cur: MousePos, min_move: u32) -> bool {
    match last_sent {
        Some(sent) => spec_l1_distance(cur, sent) >= min_move,
        None => true,
    }
}

/// Time that has passed at `now_ms` since `last_emit_ms`; zero if the clock
/// reads earlier than the last delivery.
pub open spec fn spec_elapsed_ms(now_ms: u64, last_emit_ms: u64) -> int {
    if now_ms >= last_emit_ms {
        now_ms - last_emit_ms
    } else {
        0
    }
}

/// Whether the throttle window that opened at `last_emit_ms` has closed at `now_ms`.
pub open spec fn spec_window_closed(now_ms: u64, last_emit_ms: u64, throttle_ms: u64) -> bool {
    spec_elapsed_ms(now_ms, last_emit_ms) >= throttle_ms
}

/// The filter's decision, as a function of its seven inputs.
pub open spec fn spec_poll_filter(
    last_sent: Option<MousePos>,
    cur: MousePos,
    pending: Option<MousePos>,
    now_ms: u64,
    last_emit_ms: u64,
    min_move: u32,
    throttle_ms: u64,
) -> PollDecision {
    if spec_moved_enough(last_sent, cur, min_move) {
        if throttle_ms == 0 {
            PollDecision::EmitNow(cur)
        } else if spec_window_closed(now_ms, last_emit_ms, throttle_ms) {
            PollDecision::EmitPending(cur)
        } else {
            PollDecision::BufferPending(cur)
        }
    } else {
        match pending {
            Some(stale) if throttle_ms > 0 && spec_window_closed(now_ms, last_emit_ms, throttle_ms) =>
                PollDecision::EmitPending(stale),
            _ => PollDecision::NoAction,
        }
    }
}

/// Decides whether `cur` counts as movement away from the last delivered position.
pub fn moved_enough(last_sent: Option<MousePos>, cur: MousePos, min_move: u32) -> (moved: bool)
    ensures
        moved == spec_moved_enough(last_sent, cur, min_move),
{
    match last_sent {
        Some(sent) => l1_distance(cur, sent) >= min_move as u64,
        None => true,
    }
}

/// Decides whether the throttle window that opened at `last_emit_ms` has closed at `now_ms`.
pub fn window_closed(now_ms: u64, last_emit_ms: u64, throttle_ms: u64) -> (closed: bool)
    ensures
        closed == spec_window_closed(now_ms, last_emit_ms, throttle_ms),
{
    let elapsed: u64 = if now_ms >= last_emit_ms {
        now_ms - last_emit_ms
    } else {
        0
    };
    elapsed >= throttle_ms
}

/// The poll filter.
///
/// Given the last delivered position, the current sample, the pending
/// position, the current time, the time of the last delivery, the movement
/// threshold and the throttle, it decides what to do with the sample:
///
/// * the sample moved enough and throttling is disabled: deliver it now;
/// * the sample moved enough and throttling is enabled: it becomes the pending
///   position, which is delivered if the throttle window has closed and
///   buffered otherwise;
/// * the sample did not move enough, throttling is enabled, a position is
///   pending and the window has closed: deliver the pending position;
/// * otherwise: nothing.
///
/// The decision depends on the arguments alone.
pub fn poll_filter(
    last_sent: Option<MousePos>,
    cur: MousePos,
    pending: Option<MousePos>,
    now_ms: u64,
    last_emit_ms: u64,
    min_move: u32,
    throttle_ms: u64,
) -> (decision: PollDecision)
    ensures
        decision == spec_poll_filter(
            last_sent,
            cur,
            pending,
            now_ms,
            last_emit_ms,
            min_move,
            throttle_ms,
        ),
{
    if moved_enough(last_sent, cur, min_move) {
        if throttle_ms == 0 {
            PollDecision::EmitNow(cur)
        } else if window_closed(now_ms, last_emit_ms, throttle_ms) {
            PollDecision::EmitPending(cur)
        } else {
            PollDecision::BufferPending(cur)
        }
    } else if throttle_ms > 0 && window_closed(now_ms, last_emit_ms, throttle_ms) {
        match pending {
            Some(stale) => PollDecision::EmitPending(stale),
            None => PollDecision::NoAction,
        }
    } else {
        PollDecision::NoAction
    }
}

} // verus!
