use vstd::prelude::*;

verus! {

/// How the locker ended: with an exit code, or by a signal (then it has no code).
#[derive(Clone, Copy, Debug, PartialEq, Eq, Structural)]
pub struct ExitOutcome {
    pub code: Option<i32>,
    pub signaled: bool,
}

impl ExitOutcome {
    /// The locker exited by itself with code zero.
    pub open spec fn spec_is_clean(self) -> bool {
        self.code == Some(0i32) && !self.signaled
    }

    /// Whether the locker exited by itself with code zero.
    pub fn is_clean(&self) -> (r: bool)
        ensures
            r == self.spec_is_clean(),
    {
        match self.code {
            Some(c) => c == 0 && !self.signaled,
            None => false,
        }
    }
}

/// Where the supervisor stands: each phase waits for the outcome of one step.
#[derive(Clone, Copy, Debug, PartialEq, Eq, Structural)]
pub enum Phase {
    /// Waiting for the session manager to appear on the bus.
    AwaitService,
    /// Asking for the object of the caller's session.
    Resolving,
    /// Reading the session's properties.
    Reading,
    /// Starting the locker.
    Spawning,
    /// Asserting the hint; the locker runs.
    Asserting,
    /// Waiting for the locker to end.
    Waiting,
    /// Clearing the hint after a clean exit.
    Clearing,
    /// Done or failed; nothing more happens.
    Finished,
}

/// What the outside world reports back after an action.
#[derive(Clone, Copy, Debug, PartialEq, Eq, Structural)]
pub enum Event {
    /// The session manager is on the bus.
    ServiceFound,
    /// The caller's session object is known.
    SessionFound,
    /// The session's properties were read; this is its `LockedHint`.
    StateRead(bool),
    /// The locker was started.
    Spawned,
    /// The hint was written as asked.
    HintWritten,
    /// The locker ended.
    ChildExited(ExitOutcome),
    /// The step asked for failed, or the service vanished.
    Failed,
}

/// What a finished run writes to standard output.
#[derive(Clone, Copy, Debug, PartialEq, Eq, Structural)]
pub enum Report {
    /// Nothing.
    Silent,
    /// The hint that was found, in check mode.
    Hint(bool),
    /// The refusal to run while the hint is already asserted.
    AlreadyLocked,
}

/// The next thing to do.
#[derive(Clone, Copy, Debug, PartialEq, Eq, Structural)]
pub enum Action {
    /// Ask the session manager for the caller's session object.
    ResolveSession,
    /// Read the session's properties.
    ReadState,
    /// Start the locker.
    SpawnLocker,
    /// Write the session's `LockedHint`.
    SetHint(bool),
    /// Wait for the locker to end.
    AwaitChild,
    /// Stop, print the report, and exit with this status.
    Finish { status: u8, report: Report },
}

/// The decisions of one run: which step comes next, given what the last one gave.
#[derive(Clone, Copy, Debug, PartialEq, Eq, Structural)]
pub struct Supervisor {
    /// Only report the hint; start nothing.
    pub check: bool,
    /// Go on even where the hint is already asserted.
    pub force: bool,
    pub phase: Phase,
    /// The exit status, once the phase is `Finished`.
    pub status: u8,
}

impl Report {
    /// The line that goes to standard output, if any.
    pub fn stdout_line(&self) -> (r: Option<&'static str>)
        ensures
            match *self {
                Report::Silent => r is None,
                Report::Hint(true) => r == Some("TRUE"),
                Report::Hint(false) => r == Some("FALSE"),
                Report::AlreadyLocked => r == Some("This session already has LockedHint set."),
            },
    {
        match self {
            Report::Silent => None,
            Report::Hint(true) => Some("TRUE"),
            Report::Hint(false) => Some("FALSE"),
            Report::AlreadyLocked => Some("This session already has LockedHint set."),
        }
    }
}

/// The state a run starts in.
pub open spec fn initial(check: bool, force: bool) -> Supervisor {
    Supervisor { check, force, phase: Phase::AwaitService, status: 0 }
}

/// The state that ends a run with `status`, and the action that says so.
pub open spec fn finish(s: Supervisor, status: u8, report: Report) -> (Supervisor, Action) {
    (Supervisor { phase: Phase::Finished, status, ..s }, Action::Finish { status, report })
}

/// One transition: from a state and the event that answers its last action,
/// the next state and the next action. An event that does not answer the
/// phase's step counts as a failure.
pub open spec fn next(s: Supervisor, e: Event) -> (Supervisor, Action) {
    let failed = finish(s, 1, Report::Silent);
    match s.phase {
        Phase::AwaitService => match e {
            Event::ServiceFound => (Supervisor { phase: Phase::Resolving, ..s }, Action::ResolveSession),
            _ => failed,
        },
        Phase::Resolving => match e {
            Event::SessionFound => (Supervisor { phase: Phase::Reading, ..s }, Action::ReadState),
            _ => failed,
        },
        Phase::Reading => match e {
            Event::StateRead(hint) => if s.check {
                finish(s, if hint { 1 } else { 0 }, Report::Hint(hint))
            } else if hint && !s.force {
                finish(s, 1, Report::AlreadyLocked)
            } else {
                (Supervisor { phase: Phase::Spawning, ..s }, Action::SpawnLocker)
            },
            _ => failed,
        },
        Phase::Spawning => match e {
            Event::Spawned => (Supervisor { phase: Phase::Asserting, ..s }, Action::SetHint(true)),
            _ => failed,
        },
        Phase::Asserting => match e {
            Event::HintWritten => (Supervisor { phase: Phase::Waiting, ..s }, Action::AwaitChild),
            _ => failed,
        },
        Phase::Waiting => match e {
            Event::ChildExited(o) => if o.spec_is_clean() {
                (Supervisor { phase: Phase::Clearing, ..s }, Action::SetHint(false))
            } else {
                finish(s, 0, Report::Silent)
            },
            _ => failed,
        },
        Phase::Clearing => match e {
            Event::HintWritten => finish(s, 0, Report::Silent),
            _ => failed,
        },
        Phase::Finished => (s, Action::Finish { status: s.status, report: Report::Silent }),
    }
}

impl Supervisor {
    /// A supervisor about to wait for the session manager.
    pub fn new(check: bool, force: bool) -> (r: Supervisor)
        ensures
            r == initial(check, force),
    {
        Supervisor { check, force, phase: Phase::AwaitService, status: 0 }
    }

    /// Whether the run is over.
    pub fn is_finished(&self) -> (r: bool)
        ensures
            r == (self.phase == Phase::Finished),
    {
        match self.phase {
            Phase::Finished => true,
            _ => false,
        }
    }

    fn finish_with(&mut self, status: u8, report: Report) -> (a: Action)
        ensures
            (*final(self), a) == finish(*old(self), status, report),
    {
        self.phase = Phase::Finished;
        self.status = status;
        Action::Finish { status, report }
    }

    /// Takes the outcome of the last action and decides the next one.
    pub fn step(&mut self, event: Event) -> (a: Action)
        ensures
            (*final(self), a) == next(*old(self), event),
    {
        match self.phase {
            Phase::AwaitService => match event {
                Event::ServiceFound => {
                    self.phase = Phase::Resolving;
                    Action::ResolveSession
                },
                _ => self.finish_with(1, Report::Silent),
            },
            Phase::Resolving => match event {
                Event::SessionFound => {
                    self.phase = Phase::Reading;
                    Action::ReadState
                },
                _ => self.finish_with(1, Report::Silent),
            },
            Phase::Reading => match event {
                Event::StateRead(hint) => {
                    if self.check {
                        let status: u8 = if hint { 1 } else { 0 };
                        self.finish_with(status, Report::Hint(hint))
                    } else if hint && !self.force {
                        self.finish_with(1, Report::AlreadyLocked)
                    } else {
                        self.phase = Phase::Spawning;
                        Action::SpawnLocker
                    }
                },
                _ => self.finish_with(1, Report::Silent),
            },
            Phase::Spawning => match event {
                Event::Spawned => {
                    self.phase = Phase::Asserting;
                    Action::SetHint(true)
                },
                _ => self.finish_with(1, Report::Silent),
            },
            Phase::Asserting => match event {
                Event::HintWritten => {
                    self.phase = Phase::Waiting;
                    Action::AwaitChild
                },
                _ => self.finish_with(1, Report::Silent),
            },
            Phase::Waiting => match event {
                Event::ChildExited(o) => {
                    if o.is_clean() {
                        self.phase = Phase::Clearing;
                        Action::SetHint(false)
                    } else {
                        self.finish_with(0, Report::Silent)
                    }
                },
                _ => self.finish_with(1, Report::Silent),
            },
            Phase::Clearing => match event {
                Event::HintWritten => self.finish_with(0, Report::Silent),
                _ => self.finish_with(1, Report::Silent),
            },
            Phase::Finished => Action::Finish { status: self.status, report: Report::Silent },
        }
    }
}

} // verus!
