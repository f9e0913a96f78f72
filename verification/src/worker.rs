//! The polling worker as a state machine.
//!
//! The worker owns the decisions of one polling session. Whoever drives it
//! performs the outside work that each [`WorkerCommand`] asks for (reading the
//! cursor, delivering an event, sleeping) and reports the outcome as a
//! [`WorkerEvent`]; [`PollWorker::step`] answers with the next command.

use crate::config::PollConfig;
use crate::coord::MousePos;
use crate::filter::{
    poll_filter, spec_moved_enough, spec_poll_filter, spec_window_closed, PollDecision,
};
use vstd::prelude::*;

verus! {

/// The name under which every position is delivered to the event sink.
pub const POSITION_EVENT: &'static str = "mouse:position";

/// How far before its start a worker dates its last delivery, in milliseconds,
/// so that the first sample is not held back by a throttle of up to an hour.
/// It is also what the worker's own clock reads when the session starts.
pub const INITIAL_BACKDATE_MS: u64 = 3_600_000;

/// What a worker remembers between samples.
#[derive(Clone, Copy, Debug, PartialEq, Eq, Structural)]
pub struct SampleState {
    /// The last position that was delivered, if any.
    pub last_sent: Option<MousePos>,
    /// The newest position that waits for the throttle window to close, if any.
    pub pending: Option<MousePos>,
    /// When the last delivery took place, in milliseconds of the worker's
    /// own clock (see [`spec_worker_time`]). Zero before the first delivery:
    /// [`INITIAL_BACKDATE_MS`] before the session started.
    pub last_emit_ms: u64,
}

/// Where a worker stands in its cycle.
#[derive(Clone, Copy, Debug, PartialEq, Eq, Structural)]
pub enum WorkerPhase {
    /// Waiting for the next sample, or for word that the session was cancelled.
    Sampling,
    /// Waiting for the outcome of a delivery that the filter decided on when
    /// the driver's clock read `decided_ms`. `immediate` tells an unthrottled
    /// delivery from one of the pending position.
    Emitting { pos: MousePos, decided_ms: u64, immediate: bool },
    /// Sleeping after the sample was buffered as the pending position.
    Buffering,
    /// Sleeping with nothing buffered by the last sample.
    Idle,
    /// Waiting for the outcome of the final delivery of the pending position.
    Flushing { pos: MousePos },
    /// The session is over.
    Exited,
}

/// What the driver reports to the worker.
#[derive(Clone, Copy, Debug, PartialEq, Eq, Structural)]
pub enum WorkerEvent {
    /// The cancellation flag was clear and the cursor was read as `cur` at `now_ms`.
    Sampled { cur: MousePos, now_ms: u64 },
    /// The cancellation flag was found set.
    Cancelled,
    /// The delivery that the worker asked for ended, successfully or not, at `now_ms`.
    EmitDone { ok: bool, now_ms: u64 },
    /// The sleep that the worker asked for is over.
    Woke,
}

/// What the worker asks its driver to do next.
#[derive(Clone, Copy, Debug, PartialEq, Eq, Structural)]
pub enum WorkerCommand {
    /// Check the cancellation flag; report `Cancelled` if it is set, else read
    /// the cursor and report `Sampled`.
    Sample,
    /// Deliver this position to the event sink and report `EmitDone`.
    Emit(MousePos),
    /// Sleep for this many milliseconds and report `Woke`.
    Sleep(u64),
    /// Stop: the session is over.
    Exit,
}

/// The mathematical state of a worker: its settings, the reading of the
/// driver's clock at its start, its memory and its phase.
pub struct WorkerModel {
    pub config: PollConfig,
    pub start_ms: u64,
    pub state: SampleState,
    pub phase: WorkerPhase,
}

/// The time on the worker's own clock at which the driver's clock reads
/// `reading_ms`.
///
/// The worker's clock reads [`INITIAL_BACKDATE_MS`] when the session starts
/// and runs with the driver's clock from there, so that time zero lies that
/// long before the start, whatever the driver's clock read then. A reading
/// from before the start counts as the start, and the clock stops at the
/// largest time it can show.
pub open spec fn spec_worker_time(start_ms: u64, reading_ms: u64) -> u64 {
    let since_start: int = if reading_ms >= start_ms {
        reading_ms - start_ms
    } else {
        0
    };
    if since_start + INITIAL_BACKDATE_MS <= u64::MAX {
        (since_start + INITIAL_BACKDATE_MS) as u64
    } else {
        u64::MAX
    }
}

/// Reads the worker's own clock: see [`spec_worker_time`].
pub fn worker_time(start_ms: u64, reading_ms: u64) -> (time_ms: u64)
    ensures
        time_ms == spec_worker_time(start_ms, reading_ms),
{
    let since_start: u64 = if reading_ms >= start_ms {
        reading_ms - start_ms
    } else {
        0
    };
    if since_start <= u64::MAX - INITIAL_BACKDATE_MS {
        since_start + INITIAL_BACKDATE_MS
    } else {
        u64::MAX
    }
}

impl WorkerModel {
    /// The model of a worker that starts at `start_ms`.
    pub open spec fn initial(config: PollConfig, start_ms: u64) -> WorkerModel {
        WorkerModel {
            config,
            start_ms,
            state: SampleState { last_sent: None, pending: None, last_emit_ms: 0 },
            phase: WorkerPhase::Sampling,
        }
    }

    /// The time on the worker's own clock at which the driver's clock reads
    /// `reading_ms`.
    pub open spec fn clock(self, reading_ms: u64) -> u64 {
        spec_worker_time(self.start_ms, reading_ms)
    }

    /// Whether `pos` may be delivered next: it lies far enough from the last
    /// delivered position.
    pub open spec fn deliverable(self, pos: MousePos) -> bool {
        spec_moved_enough(self.state.last_sent, pos, self.config.min_move)
    }

    /// The invariant of a worker.
    ///
    /// A position is only ever pending under a throttle, and whatever is
    /// pending or on its way to the sink lies far enough from the last
    /// delivered position. A throttled delivery is under way only if its
    /// window had closed when it was decided on.
    pub open spec fn wf(self) -> bool {
        &&& self.state.pending matches Some(p) ==> self.config.throttle_ms > 0 && self.deliverable(p)
        &&& self.phase matches WorkerPhase::Emitting { pos, decided_ms, immediate } ==> {
            &&& self.state.pending is None
            &&& self.deliverable(pos)
            &&& immediate <==> self.config.throttle_ms == 0
            &&& spec_window_closed(
                self.clock(decided_ms),
                self.state.last_emit_ms,
                self.config.throttle_ms,
            )
        }
        &&& self.phase matches WorkerPhase::Flushing { pos } ==> {
            &&& self.state.pending is None
            &&& self.deliverable(pos)
        }
        &&& self.phase is Exited ==> self.state.pending is None
    }

    /// The command that the worker is waiting on in its present phase.
    pub open spec fn outstanding(self) -> WorkerCommand {
        match self.phase {
            WorkerPhase::Sampling => WorkerCommand::Sample,
            WorkerPhase::Emitting { pos, .. } => WorkerCommand::Emit(pos),
            WorkerPhase::Buffering => WorkerCommand::Sleep(self.config.interval_ms),
            WorkerPhase::Idle => WorkerCommand::Sleep(self.config.interval_ms),
            WorkerPhase::Flushing { pos } => WorkerCommand::Emit(pos),
            WorkerPhase::Exited => WorkerCommand::Exit,
        }
    }

    /// Whether the present phase waits for `event`.
    pub open spec fn awaits(self, event: WorkerEvent) -> bool {
        match self.phase {
            WorkerPhase::Sampling => event is Sampled || event is Cancelled,
            WorkerPhase::Emitting { .. } => event is EmitDone,
            WorkerPhase::Buffering => event is Woke,
            WorkerPhase::Idle => event is Woke,
            WorkerPhase::Flushing { .. } => event is EmitDone,
            WorkerPhase::Exited => false,
        }
    }

    /// The worker after a sample: the filter decides, the pending position is
    /// replaced or handed over, and the phase follows the decision.
    pub open spec fn after_sample(self, cur: MousePos, now_ms: u64) -> WorkerModel {
        let decision = spec_poll_filter(
            self.state.last_sent,
            cur,
            self.state.pending,
            self.clock(now_ms),
            self.state.last_emit_ms,
            self.config.min_move,
            self.config.throttle_ms,
        );
        match decision {
            PollDecision::EmitNow(pos) => WorkerModel {
                state: SampleState { pending: None, ..self.state },
                phase: WorkerPhase::Emitting { pos, decided_ms: now_ms, immediate: true },
                ..self
            },
            PollDecision::EmitPending(pos) => WorkerModel {
                state: SampleState { pending: None, ..self.state },
                phase: WorkerPhase::Emitting { pos, decided_ms: now_ms, immediate: false },
                ..self
            },
            PollDecision::BufferPending(pos) => WorkerModel {
                state: SampleState { pending: Some(pos), ..self.state },
                phase: WorkerPhase::Buffering,
                ..self
            },
            PollDecision::NoAction => WorkerModel { phase: WorkerPhase::Idle, ..self },
        }
    }

    /// The worker after it learned of the cancellation: the pending position,
    /// if there is one, goes out in a final delivery.
    pub open spec fn after_cancel(self) -> WorkerModel {
        match self.state.pending {
            Some(pos) => WorkerModel {
                state: SampleState { pending: None, ..self.state },
                phase: WorkerPhase::Flushing { pos },
                ..self
            },
            None => WorkerModel { phase: WorkerPhase::Exited, ..self },
        }
    }

    /// The worker after the delivery of `pos` ended. A successful delivery is
    /// remembered: at the time of the decision if it was immediate, at the
    /// time it ended if it was throttled, both on the worker's own clock. A
    /// failed one leaves no trace.
    pub open spec fn after_emit(
        self,
        pos: MousePos,
        decided_ms: u64,
        immediate: bool,
        ok: bool,
        now_ms: u64,
    ) -> WorkerModel {
        if ok {
            WorkerModel {
                state: SampleState {
                    last_sent: Some(pos),
                    last_emit_ms: if immediate {
                        self.clock(decided_ms)
                    } else {
                        self.clock(now_ms)
                    },
                    ..self.state
                },
                phase: WorkerPhase::Idle,
                ..self
            }
        } else {
            WorkerModel { phase: WorkerPhase::Idle, ..self }
        }
    }

    /// The worker after `event`. An event that the present phase does not
    /// wait for changes nothing.
    pub open spec fn step(self, event: WorkerEvent) -> WorkerModel {
        match (self.phase, event) {
            (WorkerPhase::Sampling, WorkerEvent::Sampled { cur, now_ms }) => self.after_sample(
                cur,
                now_ms,
            ),
            (WorkerPhase::Sampling, WorkerEvent::Cancelled) => self.after_cancel(),
            (
                WorkerPhase::Emitting { pos, decided_ms, immediate },
                WorkerEvent::EmitDone { ok, now_ms },
            ) => self.after_emit(pos, decided_ms, immediate, ok, now_ms),
            (WorkerPhase::Buffering, WorkerEvent::Woke) => WorkerModel {
                phase: WorkerPhase::Sampling,
                ..self
            },
            (WorkerPhase::Idle, WorkerEvent::Woke) => WorkerModel {
                phase: WorkerPhase::Sampling,
                ..self
            },
            (WorkerPhase::Flushing { .. }, WorkerEvent::EmitDone { .. }) => WorkerModel {
                phase: WorkerPhase::Exited,
                ..self
            },
            _ => self,
        }
    }

    /// The worker's answer to `event`: the command of the phase it moved to,
    /// or `None` if it did not wait for the event.
    pub open spec fn reply(self, event: WorkerEvent) -> Option<WorkerCommand> {
        if self.awaits(event) {
            Some(self.step(event).outstanding())
        } else {
            None
        }
    }
}

/// The worker of one polling session.
pub struct PollWorker {
    config: PollConfig,
    start_ms: u64,
    state: SampleState,
    phase: WorkerPhase,
}

impl View for PollWorker {
    type V = WorkerModel;

    closed spec fn view(&self) -> WorkerModel {
        WorkerModel {
            config: self.config,
            start_ms: self.start_ms,
            state: self.state,
            phase: self.phase,
        }
    }
}

impl PollWorker {
    #[verifier::type_invariant]
    spec fn inv(self) -> bool {
        self@.wf()
    }

    /// Creates the worker of a session that starts when the driver's clock
    /// reads `start_ms`. Nothing was delivered yet and nothing is pending.
    ///
    /// The last delivery is dated [`INITIAL_BACKDATE_MS`] before the start,
    /// whatever the driver's clock reads: the worker keeps time on a clock of
    /// its own, which read zero that long before the start. So the first
    /// sample is delivered at once under every throttle of up to that length.
    pub fn new(config: PollConfig, start_ms: u64) -> (worker: PollWorker)
        ensures
            worker@ == WorkerModel::initial(config, start_ms),
            worker@.wf(),
    {
        PollWorker {
            config,
            start_ms,
            state: SampleState { last_sent: None, pending: None, last_emit_ms: 0 },
            phase: WorkerPhase::Sampling,
        }
    }

    /// The reading of the driver's clock at the start of the session.
    pub fn start_ms(&self) -> (start_ms: u64)
        ensures
            start_ms == self@.start_ms,
    {
        self.start_ms
    }

    /// The worker's settings.
    pub fn config(&self) -> (config: &PollConfig)
        ensures
            *config == self@.config,
    {
        &self.config
    }

    /// What the worker remembers.
    pub fn state(&self) -> (state: SampleState)
        ensures
            state == self@.state,
    {
        self.state
    }

    /// The worker's phase.
    pub fn phase(&self) -> (phase: WorkerPhase)
        ensures
            phase == self@.phase,
    {
        self.phase
    }

    /// The command that the worker is waiting on.
    pub fn command(&self) -> (command: WorkerCommand)
        ensures
            command == self@.outstanding(),
    {
        match self.phase {
            WorkerPhase::Sampling => WorkerCommand::Sample,
            WorkerPhase::Emitting { pos, .. } => WorkerCommand::Emit(pos),
            WorkerPhase::Buffering => WorkerCommand::Sleep(self.config.interval_ms),
            WorkerPhase::Idle => WorkerCommand::Sleep(self.config.interval_ms),
            WorkerPhase::Flushing { pos } => WorkerCommand::Emit(pos),
            WorkerPhase::Exited => WorkerCommand::Exit,
        }
    }

    /// Whether the session is over.
    pub fn exited(&self) -> (done: bool)
        ensures
            done == (self@.phase is Exited),
    {
        match self.phase {
            WorkerPhase::Exited => true,
            _ => false,
        }
    }

    /// Takes one event and answers with the next command.
    ///
    /// If the worker was not waiting for the event, nothing changes and the
    /// answer is `None`.
    pub fn step(&mut self, event: WorkerEvent) -> (reply: Option<WorkerCommand>)
        ensures
            final(self)@ == old(self)@.step(event),
            reply == old(self)@.reply(event),
            final(self)@.wf(),
    {
        proof {
            use_type_invariant(&*self);
        }
        match (self.phase, event) {
            (WorkerPhase::Sampling, WorkerEvent::Sampled { cur, now_ms }) => {
                let decision = poll_filter(
                    self.state.last_sent,
                    cur,
                    self.state.pending,
                    worker_time(self.start_ms, now_ms),
                    self.state.last_emit_ms,
                    self.config.min_move,
                    self.config.throttle_ms,
                );
                match decision {
                    PollDecision::EmitNow(pos) => {
                        self.state.pending = None;
                        self.phase = WorkerPhase::Emitting { pos, decided_ms: now_ms, immediate: true };
                    },
                    PollDecision::EmitPending(pos) => {
                        self.state.pending = None;
                        self.phase = WorkerPhase::Emitting { pos, decided_ms: now_ms, immediate: false };
                    },
                    PollDecision::BufferPending(pos) => {
                        self.state.pending = Some(pos);
                        self.phase = WorkerPhase::Buffering;
                    },
                    PollDecision::NoAction => {
                        self.phase = WorkerPhase::Idle;
                    },
                }
            },
            (WorkerPhase::Sampling, WorkerEvent::Cancelled) => {
                match self.state.pending {
                    Some(pos) => {
                        self.state.pending = None;
                        self.phase = WorkerPhase::Flushing { pos };
                    },
                    None => {
                        self.phase = WorkerPhase::Exited;
                    },
                }
            },
            (
                WorkerPhase::Emitting { pos, decided_ms, immediate },
                WorkerEvent::EmitDone { ok, now_ms },
            ) => {
                self.phase = WorkerPhase::Idle;
                if ok {
                    let last_emit_ms: u64 = if immediate {
                        worker_time(self.start_ms, decided_ms)
                    } else {
                        worker_time(self.start_ms, now_ms)
                    };
                    self.state = SampleState { last_sent: Some(pos), pending: None, last_emit_ms };
                }
            },
            (WorkerPhase::Buffering, WorkerEvent::Woke) => {
                self.phase = WorkerPhase::Sampling;
            },
            (WorkerPhase::Idle, WorkerEvent::Woke) => {
                self.phase = WorkerPhase::Sampling;
            },
            (WorkerPhase::Flushing { .. }, WorkerEvent::EmitDone { .. }) => {
                self.phase = WorkerPhase::Exited;
            },
            _ => {
                return None;
            },
        }
        Some(self.command())
    }
}

} // verus!
