//! The acquisition session: whether a polling loop is running, which run
//! of the loop is the current one, and what each of its events leads to.
//!
//! The session never waits. The layer that handles commands holds it
//! behind its lock, asks it what to do, and does the waiting itself: it
//! launches the loop, builds the device, polls on every tick under a
//! deadline, and reports back. Every launch gets a run number; whatever
//! an earlier run reports after it was stopped is told to halt.

use vstd::prelude::*;
use crate::config::Config;
use crate::devices::{select_device, selected, DeviceKind};
use crate::error::AcquisitionError;
use crate::reading::{Snapshot, SnapshotView};

verus! {

/// Seconds between two ticks of the polling loop.
pub const TICK_INTERVAL_SECS: u64 = 2;

/// Seconds one poll may take, all its transfers together.
pub const POLL_DEADLINE_SECS: u64 = 10;

/// The phases of a session.
#[derive(Clone, Copy, Debug, PartialEq, Eq, Structural)]
pub enum Phase {
    /// No loop is running.
    Idle,
    /// A loop was launched and is building its device.
    Starting,
    /// The loop is ticking.
    Running,
}

/// A session as contracts see it.
pub struct SessionState {
    pub phase: Phase,
    /// The number of the latest run.
    pub run: u64,
    /// The device a new run would poll.
    pub kind: DeviceKind,
}

/// What a start command leads to.
#[derive(Clone, Copy, Debug, PartialEq, Eq, Structural)]
pub enum StartAction {
    /// Launch a loop under this run number: build a device of this kind,
    /// report whether that worked, then poll on every tick.
    Launch { run: u64, kind: DeviceKind },
    /// A loop is active already: warn and do nothing.
    AlreadyActive,
}

/// What a stop command leads to.
#[derive(Clone, Copy, Debug, PartialEq, Eq, Structural)]
pub enum StopAction {
    /// Cancel the loop of this run at once, whatever it is waiting for.
    Cancel { run: u64 },
    /// No loop is active: warn and do nothing.
    NotRunning,
}

/// How one poll ended.
#[derive(Debug)]
pub enum PollOutcome {
    /// The device completed the poll.
    Completed(Snapshot),
    /// The device abandoned the poll.
    Failed(AcquisitionError),
    /// The deadline passed before the device was done.
    DeadlineExceeded,
}

/// How one poll ended, as contracts see it.
pub enum PollOutcomeView {
    Completed(SnapshotView),
    Failed(AcquisitionError),
    DeadlineExceeded,
}

impl View for PollOutcome {
    type V = PollOutcomeView;

    open spec fn view(&self) -> PollOutcomeView {
        match *self {
            PollOutcome::Completed(snapshot) => PollOutcomeView::Completed(snapshot@),
            PollOutcome::Failed(error) => PollOutcomeView::Failed(error),
            PollOutcome::DeadlineExceeded => PollOutcomeView::DeadlineExceeded,
        }
    }
}

/// What the loop does with a poll that ended.
#[derive(Debug)]
pub enum TickAction {
    /// Publish the snapshot and wait for the next tick.
    Publish(Snapshot),
    /// Log the error, publish nothing, and wait for the next tick.
    Skip(AcquisitionError),
    /// This run was stopped: publish nothing and end the loop.
    Halt,
}

/// What the loop does with a poll that ended, as contracts see it.
pub enum TickActionView {
    Publish(SnapshotView),
    Skip(AcquisitionError),
    Halt,
}

impl View for TickAction {
    type V = TickActionView;

    open spec fn view(&self) -> TickActionView {
        match *self {
            TickAction::Publish(snapshot) => TickActionView::Publish(snapshot@),
            TickAction::Skip(error) => TickActionView::Skip(error),
            TickAction::Halt => TickActionView::Halt,
        }
    }
}

/// The run number after `run`. It differs from `run`.
pub open spec fn next_run(run: u64) -> u64 {
    if run == u64::MAX {
        0
    } else {
        (run + 1) as u64
    }
}

impl SessionState {
    /// Whether a loop is active, be it building its device or ticking.
    pub open spec fn is_active(self) -> bool {
        self.phase != Phase::Idle
    }

    /// Whether `run` is the loop that is active now.
    pub open spec fn is_current(self, run: u64) -> bool {
        self.is_active() && run == self.run
    }

    /// Whether the loop of `run` is to poll on a tick.
    pub open spec fn polls(self, run: u64) -> bool {
        self.phase == Phase::Running && run == self.run
    }

    /// A start command. Only an idle session launches a loop.
    pub open spec fn started(self) -> (SessionState, StartAction) {
        if self.is_active() {
            (self, StartAction::AlreadyActive)
        } else {
            let run = next_run(self.run);
            (SessionState { phase: Phase::Starting, run, ..self }, StartAction::Launch { run, kind: self.kind })
        }
    }

    /// The loop of `run` has built its device. If it is the loop being
    /// started, it starts ticking.
    pub open spec fn device_built(self, run: u64) -> (SessionState, bool) {
        if self.phase == Phase::Starting && run == self.run {
            (SessionState { phase: Phase::Running, ..self }, true)
        } else {
            (self, self.polls(run))
        }
    }

    /// The loop of `run` could not build its device. If it is the loop
    /// being started, the session is idle again and the error is to be
    /// shown once.
    pub open spec fn device_refused(self, run: u64, error: AcquisitionError) -> (
        SessionState,
        Option<AcquisitionError>,
    ) {
        if self.phase == Phase::Starting && run == self.run {
            (SessionState { phase: Phase::Idle, ..self }, Some(error))
        } else {
            (self, None)
        }
    }

    /// What the loop of `run` does with a poll that ended. The session
    /// stays as it is, so the loop goes on to its next tick.
    pub open spec fn after_poll(self, run: u64, outcome: PollOutcomeView) -> TickActionView {
        if !self.polls(run) {
            TickActionView::Halt
        } else {
            match outcome {
                PollOutcomeView::Completed(snapshot) => TickActionView::Publish(snapshot),
                PollOutcomeView::Failed(error) => TickActionView::Skip(error),
                PollOutcomeView::DeadlineExceeded => TickActionView::Skip(AcquisitionError::Timeout),
            }
        }
    }

    /// A stop command. An active loop is cancelled.
    pub open spec fn stopped(self) -> (SessionState, StopAction) {
        if self.is_active() {
            (SessionState { phase: Phase::Idle, ..self }, StopAction::Cancel { run: self.run })
        } else {
            (self, StopAction::NotRunning)
        }
    }
}

/// The session.
#[derive(Debug)]
pub struct Session {
    config: Config,
    phase: Phase,
    run: u64,
}

impl View for Session {
    type V = SessionState;

    closed spec fn view(&self) -> SessionState {
        SessionState { phase: self.phase, run: self.run, kind: selected(self.config) }
    }
}

impl Session {
    /// The configuration of this session.
    pub closed spec fn configuration(&self) -> Config {
        self.config
    }

    /// An idle session with a blank configuration.
    pub fn new() -> (session: Session)
        ensures
            session.configuration().is_blank(),
            session@ == (SessionState { phase: Phase::Idle, run: 0, kind: DeviceKind::Http }),
    {
        Session { config: Config::new(), phase: Phase::Idle, run: 0 }
    }

    /// An idle session for a configuration.
    pub fn with_config(config: Config) -> (session: Session)
        ensures
            session.configuration() == config,
            session@ == (SessionState { phase: Phase::Idle, run: 0, kind: selected(config) }),
    {
        Session { config, phase: Phase::Idle, run: 0 }
    }

    /// The configuration of this session.
    pub fn config(&self) -> (config: &Config)
        ensures
            *config == self.configuration(),
    {
        &self.config
    }

    /// The phase of this session.
    pub fn phase(&self) -> (phase: Phase)
        ensures
            phase == self@.phase,
    {
        self.phase
    }

    /// Handles a start command.
    pub fn start(&mut self) -> (action: StartAction)
        ensures
            (final(self)@, action) == old(self)@.started(),
            final(self).configuration() == old(self).configuration(),
    {
        match self.phase {
            Phase::Idle => {
                let run: u64 = if self.run == u64::MAX {
                    0
                } else {
                    self.run + 1
                };
                self.run = run;
                self.phase = Phase::Starting;
                StartAction::Launch { run, kind: select_device(&self.config) }
            },
            _ => StartAction::AlreadyActive,
        }
    }

    /// Takes note that the loop of `run` has built its device, and says
    /// whether that loop is to tick.
    pub fn device_ready(&mut self, run: u64) -> (go: bool)
        ensures
            (final(self)@, go) == old(self)@.device_built(run),
            final(self).configuration() == old(self).configuration(),
    {
        if run != self.run {
            return false;
        }
        match self.phase {
            Phase::Starting => {
                self.phase = Phase::Running;
                true
            },
            Phase::Running => true,
            Phase::Idle => false,
        }
    }

    /// Takes note that the loop of `run` could not build its device, and
    /// says which error, if any, is to be shown.
    pub fn device_failed(&mut self, run: u64, error: AcquisitionError) -> (shown: Option<AcquisitionError>)
        ensures
            (final(self)@, shown) == old(self)@.device_refused(run, error),
            final(self).configuration() == old(self).configuration(),
    {
        if run != self.run {
            return None;
        }
        match self.phase {
            Phase::Starting => {
                self.phase = Phase::Idle;
                Some(error)
            },
            _ => None,
        }
    }

    /// Whether the loop of `run` is to poll on this tick.
    pub fn tick(&self, run: u64) -> (go: bool)
        ensures
            go == self@.polls(run),
    {
        match self.phase {
            Phase::Running => run == self.run,
            _ => false,
        }
    }

    /// Says what the loop of `run` does with a poll that ended.
    pub fn poll_finished(&self, run: u64, outcome: PollOutcome) -> (action: TickAction)
        ensures
            action@ == self@.after_poll(run, outcome@),
    {
        if !self.tick(run) {
            return TickAction::Halt;
        }
        match outcome {
            PollOutcome::Completed(snapshot) => TickAction::Publish(snapshot),
            PollOutcome::Failed(error) => TickAction::Skip(error),
            PollOutcome::DeadlineExceeded => TickAction::Skip(AcquisitionError::Timeout),
        }
    }

    /// Handles a stop command.
    pub fn stop(&mut self) -> (action: StopAction)
        ensures
            (final(self)@, action) == old(self)@.stopped(),
            final(self).configuration() == old(self).configuration(),
    {
        match self.phase {
            Phase::Idle => StopAction::NotRunning,
            _ => {
                self.phase = Phase::Idle;
                StopAction::Cancel { run: self.run }
            },
        }
    }
}

/// At most one loop is active: of two different runs, one at most is
/// current, whatever the session went through.
pub proof fn lemma_one_loop_at_most(session: SessionState, first: u64, second: u64)
    requires
        first != second,
    ensures
        !(session.is_current(first) && session.is_current(second)),
{
}

/// Two start commands in a row leave one loop: the second launches
/// nothing and leaves the session as the first left it, and the loop that
/// is current after the first is current after the second.
pub proof fn lemma_second_start_changes_nothing(session: SessionState)
    ensures
        session.started().0.is_active(),
        session.started().0.started() == (session.started().0, StartAction::AlreadyActive),
        !session.is_active() ==> session.started().1 == (StartAction::Launch {
            run: session.started().0.run,
            kind: session.kind,
        }),
{
}

/// A start after a stop launches a new run, whose device is to be built
/// anew. The run that was stopped is current no more: it builds nothing,
/// polls nothing and publishes nothing.
pub proof fn lemma_start_after_stop_is_fresh(session: SessionState, outcome: PollOutcomeView)
    requires
        session.is_active(),
    ensures
        session.stopped().1 == (StopAction::Cancel { run: session.run }),
        !session.stopped().0.is_active(),
        session.stopped().0.started().1 == (StartAction::Launch { run: next_run(session.run), kind: session.kind }),
        next_run(session.run) != session.run,
        ({
            let restarted = session.stopped().0.started().0;
            &&& restarted.phase == Phase::Starting
            &&& !restarted.is_current(session.run)
            &&& !restarted.polls(session.run)
            &&& restarted.device_built(session.run) == (restarted, false)
            &&& restarted.after_poll(session.run, outcome) == TickActionView::Halt
        }),
{
}

/// A poll that passes its deadline gives a timeout for that tick and no
/// more: nothing is published, and the loop is still the one to poll on
/// the next tick.
pub proof fn lemma_deadline_skips_one_tick(session: SessionState, run: u64)
    requires
        session.polls(run),
    ensures
        session.after_poll(run, PollOutcomeView::DeadlineExceeded) == TickActionView::Skip(
            AcquisitionError::Timeout,
        ),
        AcquisitionError::Timeout.is_recoverable(),
{
}

/// A poll that the device abandoned is skipped: nothing is published, and
/// the loop is still the one to poll on the next tick. No error of a poll
/// ends the loop.
pub proof fn lemma_failed_poll_skips_one_tick(session: SessionState, run: u64, error: AcquisitionError)
    requires
        session.polls(run),
    ensures
        session.after_poll(run, PollOutcomeView::Failed(error)) == TickActionView::Skip(error),
        !(session.after_poll(run, PollOutcomeView::Failed(error)) is Halt),
        !(session.after_poll(run, PollOutcomeView::Failed(error)) is Publish),
{
}

} // verus!
