//! One run of a startup command, from the start of its process to the success of its ready check.
//!
//! [`StartupRun`] holds how far the run has come. [`StartupRun::action`] says what is to be done
//! next in the guest or on the clock, and [`StartupRun::advance`] takes what came of it.

use crate::cold_start::{
    ensure_start_command_still_running_or_success, last_attempt_error, last_attempt_message,
    next_wake, shell, shell_request, timeout_error, timeout_message, wake_time, AttemptOutcome,
    AttemptView, ProcessRequest, ProcessView, StartStatus, StartupCommand, StartupView, StatusView,
    READY_TIMEOUT,
};
use crate::text::{blank, is_blank};
use vstd::prelude::*;
use vstd::string::*;

verus! {

broadcast use group_string_axioms;

/// How far a startup has come. `watching` says whether the start command runs in the background
/// and is to be looked at; `deadline` is when the ready command must have succeeded.
#[derive(Debug)]
pub enum StartupState {
    /// The start command is to be started.
    Starting { request: ProcessRequest },
    /// The clock is to be read, for the deadline.
    Arming { watching: bool },
    /// The clock is to be read, before a run of the ready command.
    Checking { watching: bool, deadline: u64 },
    /// The start command is to be looked at, before a run of the ready command.
    Polling { deadline: u64, timeout: u64 },
    /// The ready command is to be run.
    Attempting { watching: bool, deadline: u64, request: ProcessRequest },
    /// The clock is to be read, after a run of the ready command that did not succeed.
    Judging { watching: bool, deadline: u64, last: AttemptOutcome },
    /// The clock is to be read, before sleeping.
    Scheduling { watching: bool, deadline: u64 },
    /// Nothing is to be done until the wake time.
    Sleeping { watching: bool, deadline: u64, wake: u64 },
    /// The start command is to be looked at for the last time.
    Closing,
    /// The startup has succeeded.
    Finished,
    /// The startup has failed.
    Failed { message: String },
}

/// What a [`StartupState`] holds.
pub enum StateView {
    Starting { request: ProcessView },
    Arming { watching: bool },
    Checking { watching: bool, deadline: u64 },
    Polling { deadline: u64, timeout: u64 },
    Attempting { watching: bool, deadline: u64, request: ProcessView },
    Judging { watching: bool, deadline: u64, last: AttemptView },
    Scheduling { watching: bool, deadline: u64 },
    Sleeping { watching: bool, deadline: u64, wake: u64 },
    Closing,
    Finished,
    Failed { message: Seq<char> },
}

impl View for StartupState {
    type V = StateView;

    open spec fn view(&self) -> StateView {
        match *self {
            StartupState::Starting { request } => StateView::Starting { request: request@ },
            StartupState::Arming { watching } => StateView::Arming { watching },
            StartupState::Checking { watching, deadline } => StateView::Checking {
                watching,
                deadline,
            },
            StartupState::Polling { deadline, timeout } => StateView::Polling { deadline, timeout },
            StartupState::Attempting { watching, deadline, request } => StateView::Attempting {
                watching,
                deadline,
                request: request@,
            },
            StartupState::Judging { watching, deadline, last } => StateView::Judging {
                watching,
                deadline,
                last: last@,
            },
            StartupState::Scheduling { watching, deadline } => StateView::Scheduling {
                watching,
                deadline,
            },
            StartupState::Sleeping { watching, deadline, wake } => StateView::Sleeping {
                watching,
                deadline,
                wake,
            },
            StartupState::Closing => StateView::Closing,
            StartupState::Finished => StateView::Finished,
            StartupState::Failed { message } => StateView::Failed { message: message@ },
        }
    }
}

/// What came of an action.
#[derive(Debug)]
pub enum StartupEvent {
    /// The start command was started.
    Started,
    /// The start command could not be started.
    StartFailed { reason: String },
    /// The clock was read.
    Clock { now: u64 },
    /// The start command was looked at.
    Status(StartStatus),
    /// The ready command was run.
    Attempted(AttemptOutcome),
    /// The wake time has come.
    Woke,
}

/// What a [`StartupEvent`] holds.
pub enum EventView {
    Started,
    StartFailed(Seq<char>),
    Clock(u64),
    Status(StatusView),
    Attempted(AttemptView),
    Woke,
}

impl View for StartupEvent {
    type V = EventView;

    open spec fn view(&self) -> EventView {
        match *self {
            StartupEvent::Started => EventView::Started,
            StartupEvent::StartFailed { reason } => EventView::StartFailed(reason@),
            StartupEvent::Clock { now } => EventView::Clock(now),
            StartupEvent::Status(status) => EventView::Status(status@),
            StartupEvent::Attempted(outcome) => EventView::Attempted(outcome@),
            StartupEvent::Woke => EventView::Woke,
        }
    }
}

/// What is to be done next.
#[derive(Debug)]
pub enum StartupAction<'a> {
    /// Start this process in the background.
    Start(&'a ProcessRequest),
    /// Read the clock.
    ReadClock,
    /// Look at the start command, for a millisecond at most.
    PollStart,
    /// Run this process to its end.
    RunReady(&'a ProcessRequest),
    /// Sleep until this point in time.
    SleepUntil(u64),
    /// Nothing: the startup has succeeded.
    Finish,
    /// Nothing: the startup has failed.
    Fail(&'a String),
}

/// Whether `event` is what can come of the action of `state`. The clock's first reading leaves
/// room for the deadline.
pub open spec fn expects(state: StateView, event: EventView) -> bool {
    match state {
        StateView::Starting { .. } => event is Started || event is StartFailed,
        StateView::Arming { .. } => event matches EventView::Clock(now) && now + READY_TIMEOUT
            <= u64::MAX,
        StateView::Checking { .. } => event is Clock,
        StateView::Polling { .. } => event is Status,
        StateView::Attempting { .. } => event is Attempted,
        StateView::Judging { .. } => event is Clock,
        StateView::Scheduling { .. } => event is Clock,
        StateView::Sleeping { .. } => event is Woke,
        StateView::Closing => event is Status,
        StateView::Finished => false,
        StateView::Failed { .. } => false,
    }
}

/// Where a startup begins: at its start command, unless that is blank.
pub open spec fn begun(startup: StartupView) -> StateView {
    if !blank(startup.start_cmd) {
        StateView::Starting { request: shell(startup, startup.start_cmd, None) }
    } else if !blank(startup.ready_cmd) {
        StateView::Arming { watching: false }
    } else {
        StateView::Finished
    }
}

/// Where a startup is once its services are up: done, after a last look at the start command if
/// that was last seen running.
pub open spec fn up(watching: bool) -> StateView {
    if watching {
        StateView::Closing
    } else {
        StateView::Finished
    }
}

/// What `state` turns into by `event`, where it expects it.
pub open spec fn next(startup: StartupView, state: StateView, event: EventView) -> StateView {
    match (state, event) {
        (StateView::Starting { .. }, EventView::Started) => if blank(startup.ready_cmd) {
            StateView::Closing
        } else {
            StateView::Arming { watching: true }
        },
        (StateView::Starting { .. }, EventView::StartFailed(reason)) => StateView::Failed {
            message: "execute cold-boot startup command '"@ + startup.start_cmd + "': "@ + reason,
        },
        (StateView::Arming { watching }, EventView::Clock(now)) => StateView::Checking {
            watching,
            deadline: (now + READY_TIMEOUT) as u64,
        },
        (StateView::Checking { watching, deadline }, EventView::Clock(now)) => if now >= deadline {
            StateView::Failed { message: timeout_error(startup.ready_cmd) }
        } else if watching {
            StateView::Polling { deadline, timeout: (deadline - now) as u64 }
        } else {
            StateView::Attempting {
                watching: false,
                deadline,
                request: shell(startup, startup.ready_cmd, Some((deadline - now) as u64)),
            }
        },
        (StateView::Polling { deadline, timeout }, EventView::Status(status)) =>
            if status.healthy() {
                StateView::Attempting {
                    watching: status is StillRunning,
                    deadline,
                    request: shell(startup, startup.ready_cmd, Some(timeout)),
                }
            } else {
                StateView::Failed { message: status.error() }
            },
        (StateView::Attempting { watching, deadline, .. }, EventView::Attempted(outcome)) =>
            if outcome.ready() {
                up(watching)
            } else {
                StateView::Judging { watching, deadline, last: outcome }
            },
        (StateView::Judging { watching, deadline, last }, EventView::Clock(now)) => if now
            >= deadline {
            StateView::Failed { message: last_attempt_error(startup.ready_cmd, last) }
        } else {
            StateView::Scheduling { watching, deadline }
        },
        (StateView::Scheduling { watching, deadline }, EventView::Clock(now)) =>
            StateView::Sleeping { watching, deadline, wake: wake_time(now, deadline) },
        (StateView::Sleeping { watching, deadline, .. }, EventView::Woke) => StateView::Checking {
            watching,
            deadline,
        },
        (StateView::Closing, EventView::Status(status)) => if status.healthy() {
            StateView::Finished
        } else {
            StateView::Failed { message: status.error() }
        },
        _ => state,
    }
}

/// A startup command and how far its run has come.
#[derive(Debug)]
pub struct StartupRun {
    pub startup: StartupCommand,
    pub state: StartupState,
}

impl StartupRun {
    /// A run of `startup` from the beginning.
    pub fn begin(startup: StartupCommand) -> (r: StartupRun)
        ensures
            r.startup == startup,
            r.state@ == begun(startup@),
    {
        let state = if !is_blank(startup.start_cmd.as_str()) {
            StartupState::Starting {
                request: shell_request(&startup, startup.start_cmd.as_str(), None),
            }
        } else if !is_blank(startup.ready_cmd.as_str()) {
            StartupState::Arming { watching: false }
        } else {
            StartupState::Finished
        };
        StartupRun { startup, state }
    }

    /// What is to be done next.
    pub fn action(&self) -> (r: StartupAction<'_>)
        ensures
            match self.state {
                StartupState::Starting { request } => r == StartupAction::Start(&request),
                StartupState::Arming { .. } => r is ReadClock,
                StartupState::Checking { .. } => r is ReadClock,
                StartupState::Polling { .. } => r is PollStart,
                StartupState::Attempting { request, .. } => r == StartupAction::RunReady(&request),
                StartupState::Judging { .. } => r is ReadClock,
                StartupState::Scheduling { .. } => r is ReadClock,
                StartupState::Sleeping { wake, .. } => r == StartupAction::SleepUntil(wake),
                StartupState::Closing => r is PollStart,
                StartupState::Finished => r is Finish,
                StartupState::Failed { message } => r == StartupAction::Fail(&message),
            },
    {
        match &self.state {
            StartupState::Starting { request } => StartupAction::Start(request),
            StartupState::Arming { .. } => StartupAction::ReadClock,
            StartupState::Checking { .. } => StartupAction::ReadClock,
            StartupState::Polling { .. } => StartupAction::PollStart,
            StartupState::Attempting { request, .. } => StartupAction::RunReady(request),
            StartupState::Judging { .. } => StartupAction::ReadClock,
            StartupState::Scheduling { .. } => StartupAction::ReadClock,
            StartupState::Sleeping { wake, .. } => StartupAction::SleepUntil(*wake),
            StartupState::Closing => StartupAction::PollStart,
            StartupState::Finished => StartupAction::Finish,
            StartupState::Failed { message } => StartupAction::Fail(message),
        }
    }

    /// The run after `event`, which came of the run's action.
    pub fn advance(self, event: StartupEvent) -> (r: StartupRun)
        requires
            expects(self.state@, event@),
        ensures
            r.startup == self.startup,
            r.state@ == next(self.startup@, self.state@, event@),
    {
        let startup = self.startup;
        let state: StartupState = match (self.state, event) {
            (StartupState::Starting { .. }, StartupEvent::Started) => if is_blank(
                startup.ready_cmd.as_str(),
            ) {
                StartupState::Closing
            } else {
                StartupState::Arming { watching: true }
            },
            (StartupState::Starting { .. }, StartupEvent::StartFailed { reason }) =>
                StartupState::Failed {
                    message: "execute cold-boot startup command '".to_owned().concat(
                        startup.start_cmd.as_str(),
                    ).concat("': ").concat(reason.as_str()),
                },
            (StartupState::Arming { watching }, StartupEvent::Clock { now }) =>
                StartupState::Checking { watching, deadline: now + READY_TIMEOUT },
            (StartupState::Checking { watching, deadline }, StartupEvent::Clock { now }) => if now
                >= deadline {
                StartupState::Failed { message: timeout_message(startup.ready_cmd.as_str()) }
            } else if watching {
                StartupState::Polling { deadline, timeout: deadline - now }
            } else {
                StartupState::Attempting {
                    watching: false,
                    deadline,
                    request: shell_request(
                        &startup,
                        startup.ready_cmd.as_str(),
                        Some(deadline - now),
                    ),
                }
            },
            (StartupState::Polling { deadline, timeout }, StartupEvent::Status(status)) =>
                match ensure_start_command_still_running_or_success(&status) {
                    Ok(exited) => StartupState::Attempting {
                        watching: !exited,
                        deadline,
                        request: shell_request(&startup, startup.ready_cmd.as_str(), Some(timeout)),
                    },
                    Err(message) => StartupState::Failed { message },
                },
            (
                StartupState::Attempting { watching, deadline, .. },
                StartupEvent::Attempted(outcome),
            ) => {
                let ready: bool = match &outcome {
                    AttemptOutcome::Exited(output) => output.exit_code == 0,
                    AttemptOutcome::Failed { .. } => false,
                };
                if !ready {
                    StartupState::Judging { watching, deadline, last: outcome }
                } else if watching {
                    StartupState::Closing
                } else {
                    StartupState::Finished
                }
            },
            (StartupState::Judging { watching, deadline, last }, StartupEvent::Clock { now }) =>
                if now >= deadline {
                    StartupState::Failed {
                        message: last_attempt_message(startup.ready_cmd.as_str(), &last),
                    }
                } else {
                    StartupState::Scheduling { watching, deadline }
                },
            (StartupState::Scheduling { watching, deadline }, StartupEvent::Clock { now }) =>
                StartupState::Sleeping { watching, deadline, wake: next_wake(now, deadline) },
            (StartupState::Sleeping { watching, deadline, .. }, StartupEvent::Woke) =>
                StartupState::Checking { watching, deadline },
            (StartupState::Closing, StartupEvent::Status(status)) =>
                match ensure_start_command_still_running_or_success(&status) {
                    Ok(_) => StartupState::Finished,
                    Err(message) => StartupState::Failed { message },
                },
            (state, _) => state,
        };
        StartupRun { startup, state }
    }
}

} // verus!
