//! What a worker does over a whole session: the positions it sends to the
//! sink and the deliveries that succeed, as functions of the events it is
//! given, and the laws that hold of them.

use crate::coord::{spec_l1_distance, MousePos};
use crate::filter::{spec_moved_enough, spec_poll_filter, PollDecision};
use crate::config::PollConfig;
use crate::worker::{
    spec_worker_time, WorkerCommand, WorkerEvent, WorkerModel, WorkerPhase,
    INITIAL_BACKDATE_MS,
};
use vstd::prelude::*;

verus! {

/// A delivery that the sink accepted.
pub enum Delivery {
    /// A delivery in the course of the session, decided on when the driver's
    /// clock read `decided_ms` and completed when it read `completed_ms`.
    Regular { pos: MousePos, decided_ms: u64, completed_ms: u64 },
    /// The final delivery of the pending position after cancellation.
    Flush { pos: MousePos, completed_ms: u64 },
}

impl Delivery {
    /// The position that was delivered.
    pub open spec fn pos(self) -> MousePos {
        match self {
            Delivery::Regular { pos, .. } => pos,
            Delivery::Flush { pos, .. } => pos,
        }
    }
}

/// The sequence that holds `item` if there is one, and nothing otherwise.
pub open spec fn spec_optional<T>(item: Option<T>) -> Seq<T> {
    match item {
        Some(x) => seq![x],
        None => Seq::empty(),
    }
}

impl WorkerModel {
    /// The position that the worker sends to the sink in answer to `event`, if any.
    pub open spec fn emitted_by(self, event: WorkerEvent) -> Option<MousePos> {
        match self.reply(event) {
            Some(WorkerCommand::Emit(pos)) => Some(pos),
            _ => None,
        }
    }

    /// The delivery that `event` reports as accepted by the sink, if any.
    pub open spec fn delivered_by(self, event: WorkerEvent) -> Option<Delivery> {
        match (self.phase, event) {
            (
                WorkerPhase::Emitting { pos, decided_ms, .. },
                WorkerEvent::EmitDone { ok: true, now_ms },
            ) => Some(Delivery::Regular { pos, decided_ms, completed_ms: now_ms }),
            (WorkerPhase::Flushing { pos }, WorkerEvent::EmitDone { ok: true, now_ms }) => Some(
                Delivery::Flush { pos, completed_ms: now_ms },
            ),
            _ => None,
        }
    }

    /// The worker after all of `events`, in order.
    pub open spec fn run(self, events: Seq<WorkerEvent>) -> WorkerModel
        decreases events.len(),
    {
        if events.len() == 0 {
            self
        } else {
            self.step(events[0]).run(events.drop_first())
        }
    }

    /// The positions that the worker sends to the sink while it takes `events`, in order.
    pub open spec fn emissions(self, events: Seq<WorkerEvent>) -> Seq<MousePos>
        decreases events.len(),
    {
        if events.len() == 0 {
            Seq::empty()
        } else {
            spec_optional(self.emitted_by(events[0])) + self.step(events[0]).emissions(
                events.drop_first(),
            )
        }
    }

    /// The deliveries that `events` report as accepted by the sink, in order.
    pub open spec fn deliveries(self, events: Seq<WorkerEvent>) -> Seq<Delivery>
        decreases events.len(),
    {
        if events.len() == 0 {
            Seq::empty()
        } else {
            spec_optional(self.delivered_by(events[0])) + self.step(events[0]).deliveries(
                events.drop_first(),
            )
        }
    }
}

/// A step keeps the invariant of the worker.
pub proof fn lemma_step_keeps_wf(w: WorkerModel, event: WorkerEvent)
    requires
        w.wf(),
    ensures
        w.step(event).wf(),
{
}

/// A whole run keeps the invariant of the worker.
pub proof fn lemma_run_keeps_wf(w: WorkerModel, events: Seq<WorkerEvent>)
    requires
        w.wf(),
    ensures
        w.run(events).wf(),
    decreases events.len(),
{
    if events.len() > 0 {
        lemma_step_keeps_wf(w, events[0]);
        lemma_run_keeps_wf(w.step(events[0]), events.drop_first());
    }
}

/// Without movement the filter stays quiet: a sample closer than the
/// threshold to the last delivered position, with nothing pending, leads to
/// no action, whatever the clock and the throttle say. In particular, under a
/// threshold above zero, a sample equal to the last delivered position is
/// never delivered again.
pub proof fn lemma_filter_idle_without_movement(
    sent: MousePos,
    cur: MousePos,
    now_ms: u64,
    last_emit_ms: u64,
    min_move: u32,
    throttle_ms: u64,
)
    requires
        spec_l1_distance(cur, sent) < min_move,
    ensures
        spec_poll_filter(Some(sent), cur, None, now_ms, last_emit_ms, min_move, throttle_ms)
            == PollDecision::NoAction,
        min_move > 0 ==> spec_poll_filter(
            Some(sent),
            sent,
            None,
            now_ms,
            last_emit_ms,
            min_move,
            throttle_ms,
        ) == PollDecision::NoAction,
{
}

/// What the filter delivers is the sample itself, or else the pending
/// position: a delivery at once and a buffered position are always the
/// newest sample, and so is a throttled delivery whenever the sample moved
/// enough. Nothing is ever made up or averaged.
pub proof fn lemma_filter_delivers_sample_or_pending(
    last_sent: Option<MousePos>,
    cur: MousePos,
    pending: Option<MousePos>,
    now_ms: u64,
    last_emit_ms: u64,
    min_move: u32,
    throttle_ms: u64,
)
    ensures
        match spec_poll_filter(
            last_sent,
            cur,
            pending,
            now_ms,
            last_emit_ms,
            min_move,
            throttle_ms,
        ) {
            PollDecision::EmitNow(pos) => pos == cur && throttle_ms == 0,
            PollDecision::BufferPending(pos) => pos == cur && throttle_ms > 0,
            PollDecision::EmitPending(pos) => throttle_ms > 0 && if spec_moved_enough(
                last_sent,
                cur,
                min_move,
            ) {
                pos == cur
            } else {
                pending == Some(pos)
            },
            PollDecision::NoAction => !spec_moved_enough(last_sent, cur, min_move),
        },
{
}

/// The first sample passes: whatever the driver's clock reads at the start
/// and at the first sample, a new worker under no throttle, or under one of
/// up to [`INITIAL_BACKDATE_MS`], sends its first sample to the sink at once.
/// Under a longer throttle it does so exactly once the throttle, less that
/// hour, has passed since the start.
pub proof fn lemma_first_sample(config: PollConfig, start_ms: u64, cur: MousePos, now_ms: u64)
    ensures
        WorkerModel::initial(config, start_ms).wf(),
        config.throttle_ms <= INITIAL_BACKDATE_MS ==> WorkerModel::initial(config, start_ms).reply(
            WorkerEvent::Sampled { cur, now_ms },
        ) == Some(WorkerCommand::Emit(cur)),
        WorkerModel::initial(config, start_ms).reply(WorkerEvent::Sampled { cur, now_ms }) == Some(
            if spec_worker_time(start_ms, now_ms) >= config.throttle_ms {
                WorkerCommand::Emit(cur)
            } else {
                WorkerCommand::Sleep(config.interval_ms)
            },
        ),
        spec_worker_time(start_ms, now_ms) < config.throttle_ms ==> WorkerModel::initial(
            config,
            start_ms,
        ).step(WorkerEvent::Sampled { cur, now_ms }).state.pending == Some(cur),
{
}

/// The worker's clock runs no faster than the driver's: if it shows at least
/// `gap_ms` more at one reading than at another, with `gap_ms` above zero,
/// the readings themselves lie at least that far apart.
pub proof fn lemma_worker_time_gap(start_ms: u64, earlier_ms: u64, later_ms: u64, gap_ms: u64)
    requires
        gap_ms > 0,
        spec_worker_time(start_ms, later_ms) >= spec_worker_time(start_ms, earlier_ms) + gap_ms,
    ensures
        later_ms >= earlier_ms + gap_ms,
{
}

/// Once the worker is flushing or has exited, it sends nothing more to the
/// sink, whatever events follow.
pub proof fn lemma_silent_after_cancel(w: WorkerModel, events: Seq<WorkerEvent>)
    requires
        w.phase is Flushing || w.phase is Exited,
    ensures
        w.emissions(events) == Seq::<MousePos>::empty(),
    decreases events.len(),
{
    if events.len() > 0 {
        lemma_silent_after_cancel(w.step(events[0]), events.drop_first());
        assert(w.emitted_by(events[0]) is None);
    }
}

/// Final flush: a worker that learns of the cancellation while a position is
/// pending sends exactly that position to the sink, once, and nothing after
/// it, whatever events follow.
pub proof fn lemma_final_flush(w: WorkerModel, pos: MousePos, rest: Seq<WorkerEvent>)
    requires
        w.phase is Sampling,
        w.state.pending == Some(pos),
    ensures
        w.reply(WorkerEvent::Cancelled) == Some(WorkerCommand::Emit(pos)),
        w.emissions(seq![WorkerEvent::Cancelled] + rest) == seq![pos],
{
    let events = seq![WorkerEvent::Cancelled] + rest;
    assert(events[0] == WorkerEvent::Cancelled);
    assert(events.drop_first() == rest);
    lemma_silent_after_cancel(w.step(WorkerEvent::Cancelled), rest);
}

/// A worker that learns of the cancellation with nothing pending exits at
/// once and sends nothing to the sink, whatever events follow.
pub proof fn lemma_cancel_with_nothing_pending(w: WorkerModel, rest: Seq<WorkerEvent>)
    requires
        w.phase is Sampling,
        w.state.pending is None,
    ensures
        w.reply(WorkerEvent::Cancelled) == Some(WorkerCommand::Exit),
        w.emissions(seq![WorkerEvent::Cancelled] + rest) == Seq::<MousePos>::empty(),
{
    let events = seq![WorkerEvent::Cancelled] + rest;
    assert(events[0] == WorkerEvent::Cancelled);
    assert(events.drop_first() == rest);
    lemma_silent_after_cancel(w.step(WorkerEvent::Cancelled), rest);
}

/// After a flush no delivery follows, and an exited worker has none at all.
proof fn lemma_deliveries_end_with_flush(w: WorkerModel, events: Seq<WorkerEvent>)
    requires
        w.phase is Flushing || w.phase is Exited,
    ensures
        w.deliveries(events).len() <= 1,
        w.phase is Exited ==> w.deliveries(events).len() == 0,
        w.deliveries(events).len() == 1 ==> w.deliveries(events)[0] is Flush && w.phase is Flushing
            && w.deliveries(events)[0].pos() == w.phase->Flushing_pos,
    decreases events.len(),
{
    if events.len() > 0 {
        lemma_deliveries_end_with_flush(w.step(events[0]), events.drop_first());
    }
}

/// The first delivery of a run, if there is one, lies far enough from the
/// position that was delivered last before the run, and every later one far
/// enough from the one before it.
proof fn lemma_deliveries_keep_distance_from(w: WorkerModel, events: Seq<WorkerEvent>)
    requires
        w.wf(),
    ensures
        w.deliveries(events).len() > 0 ==> spec_moved_enough(
            w.state.last_sent,
            w.deliveries(events)[0].pos(),
            w.config.min_move,
        ),
        forall|i: int|
            0 < i < w.deliveries(events).len() ==> spec_l1_distance(
                #[trigger] w.deliveries(events)[i].pos(),
                w.deliveries(events)[i - 1].pos(),
            ) >= w.config.min_move,
    decreases events.len(),
{
    if events.len() > 0 {
        let next = w.step(events[0]);
        let tail = next.deliveries(events.drop_first());
        let log = w.deliveries(events);
        lemma_step_keeps_wf(w, events[0]);
        lemma_deliveries_keep_distance_from(next, events.drop_first());
        match w.delivered_by(events[0]) {
            Some(first) => {
                assert(log == seq![first] + tail);
                if w.phase is Flushing {
                    lemma_deliveries_end_with_flush(next, events.drop_first());
                } else {
                    assert(next.state.last_sent == Some(first.pos()));
                }
                assert forall|i: int| 0 < i < log.len() implies spec_l1_distance(
                    #[trigger] log[i].pos(),
                    log[i - 1].pos(),
                ) >= w.config.min_move by {
                    assert(log[i] == tail[i - 1]);
                    if i > 1 {
                        assert(log[i - 1] == tail[i - 2]);
                    }
                }
            },
            None => {
                assert(log == tail);
                assert(next.state.last_sent == w.state.last_sent);
            },
        }
    }
}

/// Deliveries keep their distance: in any run of a worker, each delivered
/// position lies at an L1 distance of at least the movement threshold from
/// the one delivered before it. Under a threshold above zero, then, no two
/// consecutive deliveries carry the same position.
pub proof fn lemma_deliveries_keep_distance(w: WorkerModel, events: Seq<WorkerEvent>)
    requires
        w.wf(),
    ensures
        forall|i: int|
            0 < i < w.deliveries(events).len() ==> spec_l1_distance(
                #[trigger] w.deliveries(events)[i].pos(),
                w.deliveries(events)[i - 1].pos(),
            ) >= w.config.min_move,
        w.config.min_move > 0 ==> forall|i: int|
            0 < i < w.deliveries(events).len() ==> #[trigger] w.deliveries(events)[i].pos()
                != w.deliveries(events)[i - 1].pos(),
{
    lemma_deliveries_keep_distance_from(w, events);
}

/// Under a throttle, the first regular delivery of a run, if the run starts
/// with one, was decided on no sooner than the throttle after the delivery
/// that came last before the run, and every later regular delivery no sooner
/// than the throttle after the one before it was completed.
proof fn lemma_throttle_spacing_from(w: WorkerModel, events: Seq<WorkerEvent>)
    requires
        w.wf(),
        w.config.throttle_ms > 0,
    ensures
        w.deliveries(events).len() > 0 ==> (w.deliveries(events)[0] matches Delivery::Regular {
            decided_ms,
            ..
        } ==> w.clock(decided_ms) >= w.state.last_emit_ms + w.config.throttle_ms),
        forall|i: int|
            0 < i < w.deliveries(events).len() ==> spec_spaced(
                w.deliveries(events)[i - 1],
                #[trigger] w.deliveries(events)[i],
                w.config.throttle_ms,
            ),
    decreases events.len(),
{
    if events.len() > 0 {
        let next = w.step(events[0]);
        let tail = next.deliveries(events.drop_first());
        let log = w.deliveries(events);
        lemma_step_keeps_wf(w, events[0]);
        lemma_throttle_spacing_from(next, events.drop_first());
        match w.delivered_by(events[0]) {
            Some(first) => {
                assert(log == seq![first] + tail);
                if w.phase is Flushing {
                    lemma_deliveries_end_with_flush(next, events.drop_first());
                } else {
                    assert(first is Regular);
                    assert(next.state.last_emit_ms == w.clock(first->Regular_completed_ms));
                    if tail.len() > 0 && tail[0] is Regular {
                        lemma_worker_time_gap(
                            w.start_ms,
                            first->Regular_completed_ms,
                            tail[0]->Regular_decided_ms,
                            w.config.throttle_ms,
                        );
                    }
                }
                assert forall|i: int| 0 < i < log.len() implies spec_spaced(
                    log[i - 1],
                    #[trigger] log[i],
                    w.config.throttle_ms,
                ) by {
                    assert(log[i] == tail[i - 1]);
                    if i > 1 {
                        assert(log[i - 1] == tail[i - 2]);
                    }
                }
            },
            None => {
                assert(log == tail);
                assert(next.state.last_emit_ms == w.state.last_emit_ms);
            },
        }
    }
}

/// Whether `later`, if it is a regular delivery, follows a regular delivery
/// `earlier` and was decided on at least `throttle_ms` after `earlier` was
/// completed, by the readings of the driver's clock. The final flush is
/// exempt.
pub open spec fn spec_spaced(earlier: Delivery, later: Delivery, throttle_ms: u64) -> bool {
    later matches Delivery::Regular { decided_ms, .. } ==> (earlier matches Delivery::Regular {
        completed_ms,
        ..
    } && decided_ms >= completed_ms + throttle_ms)
}

/// Throttle spacing: in any run of a worker with a throttle above zero, every
/// delivery but the final flush was decided on at least the throttle after
/// the delivery before it was completed, by the readings of the driver's
/// clock.
pub proof fn lemma_throttle_spacing(w: WorkerModel, events: Seq<WorkerEvent>)
    requires
        w.wf(),
        w.config.throttle_ms > 0,
    ensures
        forall|i: int|
            0 < i < w.deliveries(events).len() ==> spec_spaced(
                w.deliveries(events)[i - 1],
                #[trigger] w.deliveries(events)[i],
                w.config.throttle_ms,
            ),
{
    lemma_throttle_spacing_from(w, events);
}

} // verus!
