//! The poller controller: the lifecycle of at most one polling worker.

use crate::config::PollConfig;
use vstd::prelude::*;

verus! {

/// The outcome of a start or stop request. None of them is an error: a
/// request that finds the poller in the wrong state changes nothing and says so.
#[derive(Clone, Copy, Debug, PartialEq, Eq, Structural)]
pub enum ControlStatus {
    /// A worker was spawned and recorded.
    Started,
    /// A worker was already recorded; none was spawned.
    AlreadyRunning,
    /// The recorded worker was taken out to be cancelled.
    Stopping,
    /// No worker was recorded.
    NotRunning,
}

impl ControlStatus {
    /// The text by which the status is reported.
    pub open spec fn spec_text(self) -> Seq<char> {
        match self {
            ControlStatus::Started => "started"@,
            ControlStatus::AlreadyRunning => "already running"@,
            ControlStatus::Stopping => "stopping"@,
            ControlStatus::NotRunning => "not running"@,
        }
    }

    /// The text by which the status is reported: `"started"`,
    /// `"already running"`, `"stopping"` or `"not running"`.
    pub fn as_str(&self) -> (text: &'static str)
        ensures
            text@ == self.spec_text(),
    {
        match self {
            ControlStatus::Started => "started",
            ControlStatus::AlreadyRunning => "already running",
            ControlStatus::Stopping => "stopping",
            ControlStatus::NotRunning => "not running",
        }
    }
}

/// The slot after a start request that would record `fresh`, and the status
/// that the request reports. An occupied slot is left as it is.
pub open spec fn spec_start<W>(slot: Option<W>, fresh: W) -> (Option<W>, ControlStatus) {
    match slot {
        Some(_) => (slot, ControlStatus::AlreadyRunning),
        None => (Some(fresh), ControlStatus::Started),
    }
}

/// The slot after a stop request, the status that the request reports, and
/// the worker that was taken out to be cancelled.
pub open spec fn spec_stop<W>(slot: Option<W>) -> (Option<W>, ControlStatus, Option<W>) {
    match slot {
        Some(worker) => (None, ControlStatus::Stopping, Some(worker)),
        None => (None, ControlStatus::NotRunning, None),
    }
}

/// Owner of the one slot that records the running worker.
///
/// `W` is whatever stands for a running worker to the caller, such as its
/// cancellation flag together with the handle to join it. The worker is
/// running exactly when the slot is occupied.
pub struct PollerController<W> {
    slot: Option<W>,
}

impl<W> View for PollerController<W> {
    type V = Option<W>;

    closed spec fn view(&self) -> Option<W> {
        self.slot
    }
}

impl<W> PollerController<W> {
    /// A controller with no worker.
    pub fn new() -> (controller: Self)
        ensures
            controller@ is None,
    {
        PollerController { slot: None }
    }

    /// Whether a worker is recorded.
    pub fn is_running(&self) -> (running: bool)
        ensures
            running == (self@ is Some),
    {
        self.slot.is_some()
    }

    /// Handles a start request.
    ///
    /// If a worker is recorded, nothing happens: `spawn` is not called and
    /// the status is `AlreadyRunning`. Otherwise `spawn` is called once, the
    /// worker it returns is recorded, and the status is `Started`.
    pub fn start<F: FnOnce() -> W>(&mut self, spawn: F) -> (status: ControlStatus)
        requires
            spawn.requires(()),
        ensures
            old(self)@ is Some ==> status == ControlStatus::AlreadyRunning && final(self)@ == old(
                self,
            )@,
            old(self)@ is None ==> status == ControlStatus::Started && final(self)@ is Some
                && spawn.ensures((), final(self)@->0),
            final(self)@ is Some,
            (final(self)@, status) == spec_start(old(self)@, final(self)@->0),
    {
        if self.slot.is_some() {
            ControlStatus::AlreadyRunning
        } else {
            let worker = spawn();
            self.slot = Some(worker);
            ControlStatus::Started
        }
    }

    /// Handles a stop request.
    ///
    /// If a worker is recorded, it is taken out of the slot and handed to the
    /// caller, who signals the cancellation and sees to the join; the status
    /// is `Stopping`. Otherwise the status is `NotRunning`.
    pub fn stop(&mut self) -> (outcome: (ControlStatus, Option<W>))
        ensures
            (final(self)@, outcome.0, outcome.1) == spec_stop(old(self)@),
    {
        match self.slot.take() {
            Some(worker) => (ControlStatus::Stopping, Some(worker)),
            None => (ControlStatus::NotRunning, None),
        }
    }
}

/// Handles one control request for the mouse poller.
///
/// With `start` set this is a start request: if no worker is recorded, the
/// settings are built from the optional fields (see
/// [`PollConfig::from_request`]), `spawn` is called once with them, and the
/// worker it returns is recorded; if one is recorded, nothing happens. With
/// `start` clear this is a stop request, and the other arguments are ignored:
/// the recorded worker, if any, is taken out and handed to the caller to be
/// cancelled.
///
/// The status says which of the four cases applied.
pub fn control_mouse_poller<W, F: FnOnce(PollConfig) -> W>(
    controller: &mut PollerController<W>,
    start: bool,
    interval_ms: Option<u64>,
    window_label: Option<String>,
    min_move: Option<i32>,
    throttle_ms: Option<u64>,
    spawn: F,
) -> (outcome: (ControlStatus, Option<W>))
    requires
        spawn.requires(
            (PollConfig::spec_from_request(interval_ms, min_move, throttle_ms, window_label),),
        ),
    ensures
        start && old(controller)@ is Some ==> outcome == (ControlStatus::AlreadyRunning, None::<W>)
            && final(controller)@ == old(controller)@,
        start && old(controller)@ is None ==> outcome == (ControlStatus::Started, None::<W>)
            && final(controller)@ is Some && spawn.ensures(
            (PollConfig::spec_from_request(interval_ms, min_move, throttle_ms, window_label),),
            final(controller)@->0,
        ),
        !start ==> (final(controller)@, outcome.0, outcome.1) == spec_stop(old(controller)@),
{
    if start {
        if controller.is_running() {
            (ControlStatus::AlreadyRunning, None)
        } else {
            let config = PollConfig::from_request(interval_ms, min_move, throttle_ms, window_label);
            let worker = spawn(config);
            controller.slot = Some(worker);
            (ControlStatus::Started, None)
        }
    } else {
        controller.stop()
    }
}

/// Starting twice in a row: whatever the slot held before, the second of two
/// start requests reports `AlreadyRunning` and leaves in the slot the one
/// worker that was there after the first.
pub proof fn lemma_start_twice<W>(slot: Option<W>, first: W, second: W)
    ensures
        spec_start(slot, first).0 is Some,
        spec_start(spec_start(slot, first).0, second).1 == ControlStatus::AlreadyRunning,
        spec_start(spec_start(slot, first).0, second).0 == spec_start(slot, first).0,
        slot is None ==> spec_start(slot, first) == (Some(first), ControlStatus::Started),
{
}

/// Stopping twice in a row: with a worker recorded, the first of two stop
/// requests reports `Stopping` and hands out that worker, the second reports
/// `NotRunning` and hands out nothing.
pub proof fn lemma_stop_twice<W>(worker: W)
    ensures
        spec_stop(Some(worker)) == (None::<W>, ControlStatus::Stopping, Some(worker)),
        spec_stop(spec_stop(Some(worker)).0) == (None::<W>, ControlStatus::NotRunning, None::<W>),
{
}

/// A stop request always leaves the slot empty, so that a start request
/// after it spawns a worker again.
pub proof fn lemma_start_after_stop<W>(slot: Option<W>, fresh: W)
    ensures
        spec_start(spec_stop(slot).0, fresh) == (Some(fresh), ControlStatus::Started),
{
}

} // verus!
