//! What a run of a startup command does and why it ends, told by what has happened in it.

use crate::cold_start::{
    normalized, optional_startup_view, output_suffix, shell, wake_time, AttemptOutcome, AttemptView,
    CommandOutput, OutputView, ProcessRequest, StartStatus, StartupCommand, StartupView,
    StatusView,
};
use crate::startup_laws::{after, fits};
use crate::startup_run::{
    begun, expects, next, EventView, StartupEvent, StartupState, StateView,
};
use crate::text::{blank, optional_view, signed_decimal, trimmed, views};
use vstd::prelude::*;

verus! {

/// Whether the start command was seen to have exited.
spec fn seen_exit(events: Seq<EventView>) -> bool {
    exists|i: int|
        0 <= i < events.len() && (#[trigger] events[i] matches EventView::Status(
            StatusView::Exited(_),
        ))
}

/// Whether the clock's first reading was `t`.
spec fn first_reading(events: Seq<EventView>, t: int) -> bool {
    exists|i: int|
        0 <= i < events.len() && (#[trigger] events[i] matches EventView::Clock(now) && now == t)
            && (forall|k: int| 0 <= k < i ==> !(#[trigger] events[k] is Clock))
}

/// Whether the clock was never read.
spec fn no_reading(events: Seq<EventView>) -> bool {
    forall|i: int| 0 <= i < events.len() ==> !(#[trigger] events[i] is Clock)
}

/// The deadline of a state that has one.
spec fn held_deadline(state: StateView) -> Option<u64> {
    match state {
        StateView::Checking { deadline, .. } => Some(deadline),
        StateView::Polling { deadline, .. } => Some(deadline),
        StateView::Attempting { deadline, .. } => Some(deadline),
        StateView::Judging { deadline, .. } => Some(deadline),
        StateView::Scheduling { deadline, .. } => Some(deadline),
        StateView::Sleeping { deadline, .. } => Some(deadline),
        _ => None,
    }
}

/// Whether the start command is watched in a state that tells.
spec fn held_watch(state: StateView) -> Option<bool> {
    match state {
        StateView::Arming { watching } => Some(watching),
        StateView::Checking { watching, .. } => Some(watching),
        StateView::Polling { .. } => Some(true),
        StateView::Attempting { watching, .. } => Some(watching),
        StateView::Judging { watching, .. } => Some(watching),
        StateView::Scheduling { watching, .. } => Some(watching),
        StateView::Sleeping { watching, .. } => Some(watching),
        StateView::Closing => Some(true),
        _ => None,
    }
}

/// What one more event adds to what has happened.
proof fn lemma_longer(events: Seq<EventView>, event: EventView, t: int)
    ensures
        seen_exit(events.push(event)) <==> seen_exit(events) || (event matches EventView::Status(
            StatusView::Exited(_),
        )),
        first_reading(events, t) ==> first_reading(events.push(event), t),
        no_reading(events) && event is Clock ==> first_reading(
            events.push(event),
            event->Clock_0 as int,
        ),
        no_reading(events.push(event)) <==> no_reading(events) && !(event is Clock),
{
    let later = events.push(event);
    assert(forall|i: int| 0 <= i < events.len() ==> #[trigger] later[i] == events[i]);
    assert(later[events.len() as int] == event);
    if seen_exit(events) {
        let i = choose|i: int|
            0 <= i < events.len() && (#[trigger] events[i] matches EventView::Status(
                StatusView::Exited(_),
            ));
        assert(later[i] == events[i]);
    }
    if first_reading(events, t) {
        let i = choose|i: int|
            0 <= i < events.len() && (#[trigger] events[i] matches EventView::Clock(now) && now
                == t) && (forall|k: int| 0 <= k < i ==> !(#[trigger] events[k] is Clock));
        assert(later[i] == events[i]);
    }
    if no_reading(events.push(event)) {
        assert forall|i: int| 0 <= i < events.len() implies !(#[trigger] events[i] is Clock) by {
            assert(later[i] == events[i]);
        }
    }
}

/// What each state has to do with the events before it.
spec fn told_by(startup: StartupView, state: StateView, events: Seq<EventView>) -> bool {
    &&& held_watch(state) matches Some(watching) ==> watching == (!blank(startup.start_cmd)
        && !seen_exit(events))
    &&& held_deadline(state) matches Some(deadline) ==> first_reading(
        events,
        deadline - 600_000_000_000,
    )
    &&& state is Starting || state is Arming ==> no_reading(events)
    &&& state is Starting ==> events.len() == 0
    &&& events.len() == 0 ==> state is Starting || state is Arming || state is Finished
}

/// What each state has to do with the last event before it.
spec fn told_by_last(
    startup: StartupView,
    before: StateView,
    event: EventView,
    state: StateView,
) -> bool {
    match state {
        StateView::Starting { .. } => false,
        StateView::Arming { .. } => event is Started,
        StateView::Checking { deadline, .. } => (before is Arming && event is Clock) || event
            is Woke,
        StateView::Polling { deadline, timeout } => event matches EventView::Clock(now) && now
            < deadline && timeout == deadline - now,
        StateView::Attempting { watching, deadline, request } => (event matches EventView::Status(
            status,
        ) && status.healthy()) || (event matches EventView::Clock(now) && now < deadline
            && !watching),
        StateView::Judging { last, .. } => event == EventView::Attempted(last) && !last.ready(),
        StateView::Scheduling { deadline, .. } => before is Judging && (event matches
            EventView::Clock(now) && now < deadline),
        StateView::Sleeping { deadline, wake, .. } => before is Scheduling && (event matches
            EventView::Clock(now) && wake == wake_time(now, deadline)),
        StateView::Closing => (event is Started && blank(startup.ready_cmd)) || (event matches
            EventView::Attempted(outcome) && outcome.ready()),
        StateView::Finished => (event matches EventView::Status(status) && status.healthy()) || (
        event matches EventView::Attempted(outcome) && outcome.ready()),
        StateView::Failed { .. } => event is StartFailed || (event matches EventView::Status(
            status,
        ) && !status.healthy()) || (event matches EventView::Clock(now)
            && held_deadline(before) is Some && now >= held_deadline(before)->0),
    }
}

proof fn lemma_step_told(
    startup: StartupView,
    state: StateView,
    before: Seq<EventView>,
    event: EventView,
)
    requires
        expects(state, event),
        told_by(startup, state, before),
        held_watch(state) is Some || state is Starting,
        state is Arming ==> !blank(startup.ready_cmd),
        state is Starting ==> !blank(startup.start_cmd),
    ensures
        told_by(startup, next(startup, state, event), before.push(event)),
        told_by_last(startup, state, event, next(startup, state, event)),
{
    lemma_longer(before, event, 0);
    if held_deadline(state) is Some {
        lemma_longer(before, event, held_deadline(state)->0 - 600_000_000_000);
    }
    if state is Starting {
        assert(!seen_exit(before));
    }
}

/// The state before the last event.
spec fn previous(startup: StartupView, events: Seq<EventView>) -> StateView {
    after(startup, events.drop_last())
}

proof fn lemma_told(startup: StartupView, events: Seq<EventView>)
    requires
        fits(startup, events),
    ensures
        told_by(startup, after(startup, events), events),
        after(startup, events) is Arming ==> !blank(startup.ready_cmd),
        after(startup, events) is Starting ==> !blank(startup.start_cmd),
        events.len() > 0 ==> told_by_last(
            startup,
            previous(startup, events),
            events.last(),
            after(startup, events),
        ),
        events.len() > 0 ==> events == events.drop_last().push(events.last()),
    decreases events.len(),
{
    if events.len() > 0 {
        let before = events.drop_last();
        lemma_told(startup, before);
        assert(before.push(events.last()) =~= events);
        lemma_step_told(startup, after(startup, before), before, events.last());
    } else {
        assert(!seen_exit(events));
    }
}

/// A startup fails for a reason: its start command could not be started, was seen to have failed,
/// or the ready command had not succeeded ten minutes after the clock's first reading. A ready
/// command that has not succeeded yet is no reason while there is time.
pub proof fn law_startup_fails_for_a_reason(startup: StartupView, events: Seq<EventView>)
    requires
        fits(startup, events),
        after(startup, events) is Failed,
    ensures
        events.len() > 0,
        match events.last() {
            EventView::StartFailed(_) => true,
            EventView::Status(StatusView::Exited(output)) => output.exit_code != 0,
            EventView::Status(StatusView::WaitFailed(_)) => true,
            EventView::Clock(now) => exists|i: int|
                0 <= i < events.len() && (#[trigger] events[i] matches EventView::Clock(first)
                    && now >= first + 600_000_000_000) && (forall|k: int|
                    0 <= k < i ==> !(#[trigger] events[k] is Clock)),
            _ => false,
        },
{
    lemma_told(startup, events);
    if events.last() is Clock {
        let before = events.drop_last();
        let now = events.last()->Clock_0;
        lemma_told(startup, before);
        let t = held_deadline(after(startup, before))->0 - 600_000_000_000;
        lemma_longer(before, events.last(), t);
        let i = choose|i: int|
            0 <= i < events.len() && (#[trigger] events[i] matches EventView::Clock(n) && n == t)
                && (forall|k: int| 0 <= k < i ==> !(#[trigger] events[k] is Clock));
        assert(events[i] is Clock);
    }
}

/// A startup is not over while nothing has gone wrong, nothing has succeeded and there is time: it
/// goes on to try.
pub proof fn law_startup_goes_on(startup: StartupView, events: Seq<EventView>, first: int)
    requires
        fits(startup, events),
        !blank(startup.ready_cmd),
        forall|i: int|
            0 <= i < events.len() ==> match #[trigger] events[i] {
                EventView::StartFailed(_) => false,
                EventView::Status(StatusView::StillRunning) => true,
                EventView::Status(StatusView::Exited(output)) => output.exit_code == 0,
                EventView::Status(StatusView::WaitFailed(_)) => false,
                EventView::Attempted(AttemptView::Exited(output)) => output.exit_code != 0,
                EventView::Attempted(AttemptView::Failed(_)) => true,
                EventView::Clock(now) => first <= now < first + 600_000_000_000,
                _ => true,
            },
    ensures
        !(after(startup, events) is Failed),
        !(after(startup, events) is Finished),
        !(after(startup, events) is Closing),
    decreases events.len(),
{
    if events.len() > 0 {
        let before = events.drop_last();
        assert forall|i: int| 0 <= i < before.len() implies match #[trigger] before[i] {
            EventView::StartFailed(_) => false,
            EventView::Status(StatusView::StillRunning) => true,
            EventView::Status(StatusView::Exited(output)) => output.exit_code == 0,
            EventView::Status(StatusView::WaitFailed(_)) => false,
            EventView::Attempted(AttemptView::Exited(output)) => output.exit_code != 0,
            EventView::Attempted(AttemptView::Failed(_)) => true,
            EventView::Clock(now) => first <= now < first + 600_000_000_000,
            _ => true,
        } by {
            assert(before[i] == events[i]);
        }
        law_startup_goes_on(startup, before, first);
        assert(events[events.len() - 1] == events.last());
        if after(startup, events) is Failed {
            law_startup_fails_for_a_reason(startup, events);
        }
        lemma_told(startup, events);
        lemma_told(startup, before);
    }
}

/// The deadline is ten minutes after the clock's first reading, and the start command is watched
/// from when it was started until it was seen to have exited. While it is watched it is looked at
/// before each run of the ready command.
pub proof fn law_deadline_and_watch_follow_from_history(
    startup: StartupView,
    events: Seq<EventView>,
)
    requires
        fits(startup, events),
    ensures
        after(startup, events) matches StateView::Attempting { deadline, watching, .. } ==> {
            &&& exists|i: int|
                0 <= i < events.len() && (#[trigger] events[i] matches EventView::Clock(first)
                    && deadline == first + 600_000_000_000) && (forall|k: int|
                    0 <= k < i ==> !(#[trigger] events[k] is Clock))
            &&& watching <==> !blank(startup.start_cmd) && !exists|i: int|
                0 <= i < events.len() && (#[trigger] events[i] matches EventView::Status(
                    StatusView::Exited(_),
                ))
            &&& watching ==> events.last() is Status
        },
        after(startup, events) matches StateView::Sleeping { deadline, wake, .. } ==> {
            &&& events.last() is Clock
            &&& wake == if events.last()->Clock_0 + 2_000_000_000 < deadline {
                events.last()->Clock_0 + 2_000_000_000
            } else {
                deadline as int
            }
            &&& exists|i: int|
                0 <= i < events.len() && (#[trigger] events[i] matches EventView::Clock(first)
                    && deadline == first + 600_000_000_000) && (forall|k: int|
                    0 <= k < i ==> !(#[trigger] events[k] is Clock))
        },
{
    lemma_told(startup, events);
}

/// How a run goes on from its last event: an attempt that did not succeed is judged by the clock;
/// where there is time the clock is read again and the run sleeps; when it wakes it reads the clock;
/// and where there still is time it tries again, after a look at the start command if that is
/// watched.
pub proof fn law_attempts_are_repeated(startup: StartupView, events: Seq<EventView>)
    requires
        fits(startup, events),
        events.len() > 0,
    ensures
        match (after(startup, events.drop_last()), events.last(), after(startup, events)) {
            (StateView::Attempting { .. }, EventView::Attempted(outcome), state) => match outcome {
                AttemptView::Exited(output) => if output.exit_code == 0 {
                    state is Closing || state is Finished
                } else {
                    state is Judging
                },
                AttemptView::Failed(_) => state is Judging,
            },
            (StateView::Judging { deadline, .. }, EventView::Clock(now), state) => if now < deadline {
                state is Scheduling
            } else {
                state is Failed
            },
            (StateView::Scheduling { .. }, EventView::Clock(_), state) => state is Sleeping,
            (StateView::Sleeping { .. }, EventView::Woke, state) => state is Checking,
            (StateView::Checking { deadline, watching }, EventView::Clock(now), state) => if now
                >= deadline {
                state is Failed
            } else if watching {
                state is Polling
            } else {
                state is Attempting
            },
            (StateView::Polling { .. }, EventView::Status(status), state) => match status {
                StatusView::StillRunning => state is Attempting,
                StatusView::Exited(output) => if output.exit_code == 0 {
                    state is Attempting
                } else {
                    state is Failed
                },
                StatusView::WaitFailed(_) => state is Failed,
            },
            (StateView::Arming { .. }, EventView::Clock(_), state) => state is Checking,
            (StateView::Starting { .. }, EventView::Started, state) => if blank(
                startup.ready_cmd,
            ) {
                state is Closing
            } else {
                state is Arming
            },
            (StateView::Starting { .. }, EventView::StartFailed(_), state) => state is Failed,
            (StateView::Closing, EventView::Status(status), state) => match status {
                StatusView::StillRunning => state is Finished,
                StatusView::Exited(output) => if output.exit_code == 0 {
                    state is Finished
                } else {
                    state is Failed
                },
                StatusView::WaitFailed(_) => state is Failed,
            },
            _ => false,
        },
{
    lemma_told(startup, events.drop_last());
}

/// A ready command that succeeds ends the startup: at once where the start command need not be
/// looked at, because there is none or it was seen to have exited, and otherwise after one more
/// look at it.
pub proof fn law_ready_command_decides(startup: StartupView, events: Seq<EventView>)
    requires
        fits(startup, events),
        events.len() > 0,
        events.last() matches EventView::Attempted(AttemptView::Exited(output)) && output.exit_code
            == 0,
    ensures
        blank(startup.start_cmd) || (exists|i: int|
            0 <= i < events.len() && (#[trigger] events[i] matches EventView::Status(
                StatusView::Exited(_),
            ))) ==> after(startup, events) is Finished,
        !blank(startup.start_cmd) && !(exists|i: int|
            0 <= i < events.len() && (#[trigger] events[i] matches EventView::Status(
                StatusView::Exited(_),
            ))) ==> after(startup, events) is Closing,
{
    let before = events.drop_last();
    lemma_told(startup, before);
    lemma_told(startup, events);
    lemma_longer(before, events.last(), 0);
}

/// Where a startup begins: with its start command, in the background and without a limit of time;
/// with the clock where it has a ready command only; and it is over at once where it has neither.
pub proof fn law_startup_begins_with_its_start_command(startup: StartupView)
    ensures
        !blank(startup.start_cmd) ==> (begun(startup) matches StateView::Starting { request }
            && request.program == "/bin/bash"@ && request.args.len() == 2 && request.args[0]
            == "-lc"@ && request.args[1] == startup.start_cmd && request.envs == startup.env_vars
            && request.cwd == Some(startup.workdir) && request.timeout is None),
        blank(startup.start_cmd) && !blank(startup.ready_cmd) ==> (begun(startup) is Arming),
        blank(startup.start_cmd) && blank(startup.ready_cmd) ==> (begun(startup) is Finished),
{
}

/// The ready command is run in a login shell with the startup's environment and directory, and may
/// take what is left of the ten minutes by the clock's last reading.
pub proof fn law_ready_command_is_run_as_given(startup: StartupView, events: Seq<EventView>)
    requires
        fits(startup, events),
    ensures
        after(startup, events) matches StateView::Attempting { deadline, request, .. } ==> {
            &&& request.program == "/bin/bash"@
            &&& request.args.len() == 2 && request.args[0] == "-lc"@
            &&& request.args[1] == startup.ready_cmd
            &&& request.envs == startup.env_vars
            &&& request.cwd == Some(startup.workdir)
            &&& request.timeout is Some
            &&& events.last() matches EventView::Clock(now) ==> request.timeout->0 == deadline - now
        },
        after(startup, events) matches StateView::Polling { deadline, timeout } ==> (events.last()
            matches EventView::Clock(now) && timeout == deadline - now),
        events.len() > 0 ==> (after(startup, events.drop_last()) matches StateView::Polling {
            timeout,
            ..
        } ==> (after(startup, events) matches StateView::Attempting { request, .. }
            ==> request.timeout == Some(timeout))),
{
    lemma_told(startup, events);
    if events.len() > 0 {
        lemma_told(startup, events.drop_last());
    }
}

/// Why a startup failed is told in words: what could not be started and why, how the start command
/// ended, or that time ran out, with what the last run of the ready command left behind if time ran
/// out during it.
pub proof fn law_failure_is_told_in_words(
    startup: StartupView,
    events: Seq<EventView>,
    message: Seq<char>,
)
    requires
        fits(startup, events),
        after(startup, events) == (StateView::Failed { message }),
    ensures
        events.len() > 0,
        match events.last() {
            EventView::StartFailed(reason) => message == "execute cold-boot startup command '"@
                + startup.start_cmd + "': "@ + reason,
            EventView::Status(StatusView::Exited(output)) => message
                == "cold-boot startup command exited with status "@ + signed_decimal(
                output.exit_code as int,
            ) + output_suffix(output.stdout, output.stderr),
            EventView::Status(StatusView::WaitFailed(reason)) => message
                == "cold-boot startup command failed while waiting for it: "@ + reason,
            EventView::Clock(_) => {
                let told = "cold-boot ready command timed out after 600s: cmd='"@ + startup.ready_cmd
                    + "'"@;
                &&& events.len() >= 2
                &&& match events[events.len() - 2] {
                    EventView::Attempted(AttemptView::Exited(output)) => message == told
                        + ", exit_code="@ + signed_decimal(output.exit_code as int)
                        + output_suffix(output.stdout, output.stderr),
                    EventView::Attempted(AttemptView::Failed(reason)) => message == told + ": "@
                        + reason,
                    _ => message == told,
                }
            },
            _ => false,
        },
{
    lemma_told(startup, events);
    let before = events.drop_last();
    lemma_told(startup, before);
    if before.len() > 0 {
        assert(events[events.len() - 2] == before.last());
    }
}

/// A command's output is quoted stream by stream, trimmed, and not at all where it is blank.
pub proof fn law_output_is_quoted_trimmed(stdout: Seq<char>, stderr: Seq<char>)
    ensures
        blank(stdout) && blank(stderr) ==> output_suffix(stdout, stderr).len() == 0,
        !blank(stdout) && blank(stderr) ==> output_suffix(stdout, stderr) == ", stdout: "@
            + trimmed(stdout),
        blank(stdout) && !blank(stderr) ==> output_suffix(stdout, stderr) == ", stderr: "@
            + trimmed(stderr),
        !blank(stdout) && !blank(stderr) ==> output_suffix(stdout, stderr) == ", stdout: "@
            + trimmed(stdout) + ", stderr: "@ + trimmed(stderr),
{
    assert(Seq::<char>::empty() + (", stderr: "@ + trimmed(stderr)) =~= ", stderr: "@ + trimmed(
        stderr,
    ));
    assert(", stdout: "@ + trimmed(stdout) + Seq::<char>::empty() =~= ", stdout: "@ + trimmed(
        stdout,
    ));
    assert(", stdout: "@ + trimmed(stdout) + (", stderr: "@ + trimmed(stderr)) =~= ", stdout: "@
        + trimmed(stdout) + ", stderr: "@ + trimmed(stderr));
}

/// A startup is made ready for a cold boot by dropping it where both commands are blank, and by the
/// default ready command where only that one is; nothing else of it changes.
pub proof fn law_normalizing_fills_in_the_ready_command(s: StartupView)
    ensures
        blank(s.start_cmd) && blank(s.ready_cmd) ==> normalized(Some(s)) is None,
        !blank(s.ready_cmd) ==> normalized(Some(s)) == Some(s),
        !blank(s.start_cmd) && blank(s.ready_cmd) ==> (normalized(Some(s)) matches Some(r)
            && r.ready_cmd == "sleep 20"@ && r.start_cmd == s.start_cmd && r.env_vars == s.env_vars
            && r.workdir == s.workdir),
        normalized(None) is None,
{
}

/// A start command is well while it runs or where it exited with status zero; a ready command has
/// succeeded where it exited with status zero.
pub proof fn law_status_zero_is_success(output: OutputView, reason: Seq<char>)
    ensures
        StatusView::StillRunning.healthy(),
        StatusView::Exited(output).healthy() <==> output.exit_code == 0,
        !StatusView::WaitFailed(reason).healthy(),
        AttemptView::Exited(output).ready() <==> output.exit_code == 0,
        !AttemptView::Failed(reason).ready(),
{
}

/// The error of a start command that is not well tells how it ended.
pub proof fn law_start_error_tells_how_it_ended(output: OutputView, reason: Seq<char>)
    ensures
        StatusView::Exited(output).error() == "cold-boot startup command exited with status "@
            + signed_decimal(output.exit_code as int) + output_suffix(output.stdout, output.stderr),
        StatusView::WaitFailed(reason).error()
            == "cold-boot startup command failed while waiting for it: "@ + reason,
{
}

/// The run wakes two seconds from now, or at the deadline if that comes first.
pub proof fn law_wake_is_two_seconds_off(now: u64, deadline: u64)
    ensures
        now + 2_000_000_000 <= deadline ==> wake_time(now, deadline) == now + 2_000_000_000,
        now + 2_000_000_000 > deadline ==> wake_time(now, deadline) == deadline,
{
}

/// A command is run in a login shell, in the context of the startup.
pub proof fn law_shell_runs_the_command(
    startup: StartupView,
    command: Seq<char>,
    timeout: Option<u64>,
)
    ensures
        shell(startup, command, timeout).program == "/bin/bash"@,
        shell(startup, command, timeout).args.len() == 2,
        shell(startup, command, timeout).args[0] == "-lc"@,
        shell(startup, command, timeout).args[1] == command,
        shell(startup, command, timeout).envs == startup.env_vars,
        shell(startup, command, timeout).cwd == Some(startup.workdir),
        shell(startup, command, timeout).timeout == timeout,
{
}

/// The views of commands and their outcomes show what they hold.
pub proof fn law_command_views_show_what_they_hold(
    startup: StartupCommand,
    output: CommandOutput,
    request: ProcessRequest,
    reason: String,
)
    ensures
        startup@.start_cmd == startup.start_cmd@,
        startup@.ready_cmd == startup.ready_cmd@,
        startup@.env_vars == startup.context.env_vars@,
        startup@.workdir == startup.context.workdir@,
        optional_startup_view(Some(startup)) == Some(startup@),
        optional_startup_view(None) is None,
        output@.exit_code == output.exit_code,
        output@.stdout == output.stdout@,
        output@.stderr == output.stderr@,
        request@.program == request.program@,
        request@.args == views(request.args@),
        request@.envs == request.envs@,
        request@.cwd == optional_view(request.cwd),
        request@.timeout == request.timeout,
        StartStatus::StillRunning@ is StillRunning,
        StartStatus::Exited(output)@ == StatusView::Exited(output@),
        (StartStatus::WaitFailed { reason })@ == StatusView::WaitFailed(reason@),
        AttemptOutcome::Exited(output)@ == AttemptView::Exited(output@),
        (AttemptOutcome::Failed { reason })@ == AttemptView::Failed(reason@),
{
}

/// The views of events show what they hold.
pub proof fn law_startup_event_views_show_what_they_hold(
    reason: String,
    now: u64,
    status: StartStatus,
    outcome: AttemptOutcome,
)
    ensures
        StartupEvent::Started@ is Started,
        (StartupEvent::StartFailed { reason })@ == EventView::StartFailed(reason@),
        (StartupEvent::Clock { now })@ == EventView::Clock(now),
        StartupEvent::Status(status)@ == EventView::Status(status@),
        StartupEvent::Attempted(outcome)@ == EventView::Attempted(outcome@),
        StartupEvent::Woke@ is Woke,
{
}

/// The views of states show what they hold.
pub proof fn law_startup_state_views_show_what_they_hold(
    request: ProcessRequest,
    watching: bool,
    deadline: u64,
    time: u64,
    last: AttemptOutcome,
    message: String,
)
    ensures
        (StartupState::Starting { request })@ == (StateView::Starting { request: request@ }),
        (StartupState::Arming { watching })@ == (StateView::Arming { watching }),
        (StartupState::Checking { watching, deadline })@ == (StateView::Checking {
            watching,
            deadline,
        }),
        (StartupState::Polling { deadline, timeout: time })@ == (StateView::Polling {
            deadline,
            timeout: time,
        }),
        (StartupState::Attempting { watching, deadline, request })@ == (StateView::Attempting {
            watching,
            deadline,
            request: request@,
        }),
        (StartupState::Judging { watching, deadline, last })@ == (StateView::Judging {
            watching,
            deadline,
            last: last@,
        }),
        (StartupState::Scheduling { watching, deadline })@ == (StateView::Scheduling {
            watching,
            deadline,
        }),
        (StartupState::Sleeping { watching, deadline, wake: time })@ == (StateView::Sleeping {
            watching,
            deadline,
            wake: time,
        }),
        StartupState::Closing@ is Closing,
        StartupState::Finished@ is Finished,
        (StartupState::Failed { message })@ == (StateView::Failed { message: message@ }),
{
}

} // verus!
