//! The watcher: one check at start, then a check after every interval, and
//! a notification whenever a check finds divergence.
//!
//! The watcher itself neither sleeps nor talks to a store. It is a state
//! machine: the host reports what happened, the watcher answers what to do
//! next.

use vstd::prelude::*;
use crate::diff::{Diffs, DiffsView};
use crate::store::StoreError;

verus! {

/// Seconds between two checks.
pub const WATCH_INTERVAL_SECS: u64 = 30;

/// Where the watcher stands.
#[derive(Clone, Copy, Debug, PartialEq, Eq, Structural)]
pub enum Phase {
    /// Not started yet.
    Idle,
    /// A check is under way.
    Checking,
    /// Waiting for the interval to pass.
    Sleeping,
    /// Cancelled. The watcher never leaves this phase.
    Stopped,
}

/// What the host reports.
pub enum WatcherEvent {
    /// The host asks the watcher to start.
    Start,
    /// The check that the watcher asked for has ended.
    Checked(Result<Diffs, StoreError>),
    /// The interval has passed.
    Woke,
    /// The host shuts down.
    Cancel,
}

/// What the host is to do next.
pub enum WatcherAction {
    /// Run a check and report it with `Checked`.
    Check,
    /// Publish the report, then sleep for the interval and report `Woke`.
    PublishThenSleep(Diffs),
    /// Sleep for the interval and report `Woke`.
    Sleep,
    /// Nothing: the event does not fit the phase.
    Ignore,
    /// Stop for good.
    Stop,
}

/// An event as a plain value.
pub ghost enum EventView {
    Start,
    /// The report of a check that succeeded, or the failure of one that
    /// failed.
    Checked(Result<DiffsView, StoreError>),
    Woke,
    Cancel,
}

/// An action as a plain value.
pub ghost enum ActionView {
    Check,
    PublishThenSleep(DiffsView),
    Sleep,
    Ignore,
    Stop,
}

impl View for WatcherEvent {
    type V = EventView;

    open spec fn view(&self) -> EventView {
        match *self {
            WatcherEvent::Start => EventView::Start,
            WatcherEvent::Checked(Ok(diffs)) => EventView::Checked(Ok(diffs@)),
            WatcherEvent::Checked(Err(e)) => EventView::Checked(Err(e)),
            WatcherEvent::Woke => EventView::Woke,
            WatcherEvent::Cancel => EventView::Cancel,
        }
    }
}

impl View for WatcherAction {
    type V = ActionView;

    open spec fn view(&self) -> ActionView {
        match *self {
            WatcherAction::Check => ActionView::Check,
            WatcherAction::PublishThenSleep(diffs) => ActionView::PublishThenSleep(diffs@),
            WatcherAction::Sleep => ActionView::Sleep,
            WatcherAction::Ignore => ActionView::Ignore,
            WatcherAction::Stop => ActionView::Stop,
        }
    }
}

/// The phase after an event.
pub open spec fn next_phase(phase: Phase, event: EventView) -> Phase {
    match (phase, event) {
        (_, EventView::Cancel) => Phase::Stopped,
        (Phase::Idle, EventView::Start) => Phase::Checking,
        (Phase::Checking, EventView::Checked(_)) => Phase::Sleeping,
        (Phase::Sleeping, EventView::Woke) => Phase::Checking,
        _ => phase,
    }
}

/// What the host is told after an event.
pub open spec fn action_for(phase: Phase, event: EventView) -> ActionView {
    match (phase, event) {
        (_, EventView::Cancel) => ActionView::Stop,
        (Phase::Stopped, _) => ActionView::Stop,
        (Phase::Idle, EventView::Start) => ActionView::Check,
        (Phase::Checking, EventView::Checked(Ok(diffs))) => if diffs.is_empty() {
            ActionView::Sleep
        } else {
            ActionView::PublishThenSleep(diffs)
        },
        (Phase::Checking, EventView::Checked(Err(_))) => ActionView::Sleep,
        (Phase::Sleeping, EventView::Woke) => ActionView::Check,
        _ => ActionView::Ignore,
    }
}

/// The watcher's state.
#[derive(Debug)]
pub struct Watcher {
    phase: Phase,
}

impl Watcher {
    /// Where the watcher stands.
    pub closed spec fn phase(&self) -> Phase {
        self.phase
    }

    /// The watcher was started at some time.
    pub open spec fn armed(&self) -> bool {
        self.phase() != Phase::Idle
    }

    /// A watcher that has not been started.
    pub fn new() -> (w: Watcher)
        ensures
            w.phase() == Phase::Idle,
    {
        Watcher { phase: Phase::Idle }
    }

    /// Where the watcher stands.
    pub fn current_phase(&self) -> (p: Phase)
        ensures
            p == self.phase(),
    {
        self.phase
    }

    /// Whether the watcher was started at some time.
    pub fn is_armed(&self) -> (r: bool)
        ensures
            r == self.armed(),
    {
        match self.phase {
            Phase::Idle => false,
            _ => true,
        }
    }

    /// Seconds that the host sleeps between two checks.
    pub fn interval_secs(&self) -> (secs: u64)
        ensures
            secs == WATCH_INTERVAL_SECS,
    {
        WATCH_INTERVAL_SECS
    }

    /// Takes one event and says what to do next.
    pub fn step(&mut self, event: WatcherEvent) -> (action: WatcherAction)
        ensures
            final(self).phase() == next_phase(old(self).phase(), event@),
            action@ == action_for(old(self).phase(), event@),
    {
        match event {
            WatcherEvent::Cancel => {
                self.phase = Phase::Stopped;
                WatcherAction::Stop
            },
            WatcherEvent::Start => match self.phase {
                Phase::Idle => {
                    self.phase = Phase::Checking;
                    WatcherAction::Check
                },
                Phase::Stopped => WatcherAction::Stop,
                _ => WatcherAction::Ignore,
            },
            WatcherEvent::Checked(outcome) => match self.phase {
                Phase::Checking => {
                    self.phase = Phase::Sleeping;
                    match outcome {
                        Ok(diffs) => {
                            if diffs.is_empty() {
                                WatcherAction::Sleep
                            } else {
                                WatcherAction::PublishThenSleep(diffs)
                            }
                        },
                        Err(_) => WatcherAction::Sleep,
                    }
                },
                Phase::Stopped => WatcherAction::Stop,
                _ => WatcherAction::Ignore,
            },
            WatcherEvent::Woke => match self.phase {
                Phase::Sleeping => {
                    self.phase = Phase::Checking;
                    WatcherAction::Check
                },
                Phase::Stopped => WatcherAction::Stop,
                _ => WatcherAction::Ignore,
            },
        }
    }
}

/// Starts the watcher and confirms it. A watcher that was started before
/// is left as it is; the host is told to run the first check only where
/// this call started it.
pub fn start_sync_watcher(watcher: &mut Watcher) -> (r: (String, WatcherAction))
    ensures
        r.0@ == "sync_watcher_started"@,
        final(watcher).phase() == next_phase(old(watcher).phase(), EventView::Start),
        r.1@ == action_for(old(watcher).phase(), EventView::Start),
{
    let action = watcher.step(WatcherEvent::Start);
    (watcher_started_message(), action)
}

/// The name under which a report is published.
pub fn sync_needed_event() -> (name: String)
    ensures
        name@ == "sync:needed"@,
{
    "sync:needed".to_owned()
}

/// What `start_sync_watcher` answers once the watcher is started.
pub fn watcher_started_message() -> (text: String)
    ensures
        text@ == "sync_watcher_started"@,
{
    "sync_watcher_started".to_owned()
}

/// The event reports a check that succeeded and found divergence.
pub open spec fn found_divergence(event: EventView) -> bool {
    match event {
        EventView::Checked(Ok(diffs)) => !diffs.is_empty(),
        _ => false,
    }
}

/// The watcher stops only when it is cancelled, and a started watcher is
/// never idle again.
pub proof fn watcher_runs_until_cancelled(phase: Phase, event: EventView)
    ensures
        phase != Phase::Stopped && !(event is Cancel) ==> next_phase(phase, event) != Phase::Stopped,
        phase != Phase::Idle ==> next_phase(phase, event) != Phase::Idle,
        phase == Phase::Stopped ==> next_phase(phase, event) == Phase::Stopped,
{
}

/// A check that failed costs one cycle and no more: the watcher sleeps, and
/// on waking it asks for the next check.
pub proof fn failed_check_does_not_stop_the_watcher(failure: StoreError)
    ensures
        next_phase(Phase::Checking, EventView::Checked(Err(failure))) == Phase::Sleeping,
        action_for(Phase::Checking, EventView::Checked(Err(failure))) == ActionView::Sleep,
        action_for(Phase::Sleeping, EventView::Woke) == ActionView::Check,
        next_phase(Phase::Sleeping, EventView::Woke) == Phase::Checking,
{
}

/// A report is published exactly when a check that the watcher asked for
/// succeeded and found divergence, and it is that check's report.
pub proof fn only_divergence_is_published(phase: Phase, event: EventView)
    ensures
        action_for(phase, event) is PublishThenSleep <==> (phase == Phase::Checking
            && found_divergence(event)),
        action_for(phase, event) matches ActionView::PublishThenSleep(report) ==> event
            == EventView::Checked(Ok(report)),
{
}

} // verus!
