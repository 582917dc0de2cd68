//! What holds of every run of a startup command, whatever happens in the guest.

use crate::cold_start::{
    shell, wake_time, StartupView, StatusView, READY_RETRY_INTERVAL, READY_TIMEOUT,
};
use crate::startup_run::{begun, expects, next, EventView, StateView};
use crate::text::blank;
use vstd::prelude::*;

verus! {

/// Where a run of `startup` is after the given events.
pub open spec fn after(startup: StartupView, events: Seq<EventView>) -> StateView
    decreases events.len(),
{
    if events.len() == 0 {
        begun(startup)
    } else {
        next(startup, after(startup, events.drop_last()), events.last())
    }
}

/// Whether each event is what can come of the action before it.
pub open spec fn fits(startup: StartupView, events: Seq<EventView>) -> bool
    decreases events.len(),
{
    events.len() > 0 ==> fits(startup, events.drop_last()) && expects(
        after(startup, events.drop_last()),
        events.last(),
    )
}

/// A point in time that has passed after the given events: the last reading of the clock, or a
/// wake time that has come since.
pub open spec fn passed(startup: StartupView, events: Seq<EventView>) -> int
    decreases events.len(),
{
    if events.len() == 0 {
        0
    } else {
        let before = passed(startup, events.drop_last());
        match (events.last(), after(startup, events.drop_last())) {
            (EventView::Clock(now), _) => now as int,
            (EventView::Woke, StateView::Sleeping { wake, .. }) => if before < wake {
                wake as int
            } else {
                before
            },
            _ => before,
        }
    }
}

/// Whether the clock never goes back, and sleeping lasts until the wake time.
pub open spec fn timely(startup: StartupView, events: Seq<EventView>) -> bool
    decreases events.len(),
{
    events.len() > 0 ==> timely(startup, events.drop_last()) && (events.last() matches
        EventView::Clock(now) ==> passed(startup, events.drop_last()) <= now)
}

/// How often the ready command was run.
pub open spec fn attempts(events: Seq<EventView>) -> nat
    decreases events.len(),
{
    if events.len() == 0 {
        0
    } else if events.last() is Attempted {
        attempts(events.drop_last()) + 1
    } else {
        attempts(events.drop_last())
    }
}

/// Whether `n` retry intervals lie between `READY_TIMEOUT` before `deadline` and `time`.
spec fn spaced(n: int, time: int, deadline: int) -> bool {
    n * READY_RETRY_INTERVAL <= time - (deadline - READY_TIMEOUT)
}

/// What time and the number of attempts are in each state.
spec fn paced(startup: StartupView, state: StateView, time: int, n: int) -> bool {
    match state {
        StateView::Starting { .. } => n == 0,
        StateView::Arming { .. } => n == 0,
        StateView::Checking { deadline, .. } => time >= deadline - READY_TIMEOUT && (time
            >= deadline || spaced(n, time, deadline as int)) && n * READY_RETRY_INTERVAL
            <= READY_TIMEOUT,
        StateView::Polling { deadline, timeout } => timeout == deadline - time && 0 < timeout
            <= READY_TIMEOUT && spaced(n, time, deadline as int),
        StateView::Attempting { deadline, request, .. } => request == shell(
            startup,
            startup.ready_cmd,
            Some((deadline - time) as u64),
        ) && 0 < deadline - time <= READY_TIMEOUT && spaced(n, time, deadline as int),
        StateView::Judging { deadline, .. } => spaced(n - 1, time, deadline as int) && n
            * READY_RETRY_INTERVAL <= READY_TIMEOUT && time >= deadline - READY_TIMEOUT,
        StateView::Scheduling { deadline, .. } => spaced(n - 1, time, deadline as int) && n
            * READY_RETRY_INTERVAL <= READY_TIMEOUT && time >= deadline - READY_TIMEOUT,
        StateView::Sleeping { deadline, wake, .. } => spaced(n - 1, time, deadline as int) && n
            * READY_RETRY_INTERVAL <= READY_TIMEOUT && time >= deadline - READY_TIMEOUT && (wake
            == deadline || wake == time + READY_RETRY_INTERVAL && wake < deadline),
        StateView::Closing => n * READY_RETRY_INTERVAL <= READY_TIMEOUT,
        StateView::Finished => n * READY_RETRY_INTERVAL <= READY_TIMEOUT,
        StateView::Failed { .. } => n * READY_RETRY_INTERVAL <= READY_TIMEOUT,
    }
}

proof fn lemma_paced(startup: StartupView, events: Seq<EventView>)
    requires
        fits(startup, events),
        timely(startup, events),
    ensures
        passed(startup, events) >= 0,
        paced(
            startup,
            after(startup, events),
            passed(startup, events),
            attempts(events) as int,
        ),
    decreases events.len(),
{
    if events.len() > 0 {
        lemma_paced(startup, events.drop_last());
    }
}

/// The ready command is run within a bounded window: however the guest behaves, it is run no more
/// often than there are retry intervals in the timeout.
pub proof fn law_attempts_are_bounded(startup: StartupView, events: Seq<EventView>)
    requires
        fits(startup, events),
        timely(startup, events),
    ensures
        attempts(events) * READY_RETRY_INTERVAL <= READY_TIMEOUT,
{
    lemma_paced(startup, events);
}

/// How many events can have led to a state, with `n` runs of the ready command among them.
spec fn most_events(state: StateView, n: int) -> int {
    match state {
        StateView::Starting { .. } => 0,
        StateView::Arming { .. } => 1,
        StateView::Checking { .. } => 6 * n + 2,
        StateView::Polling { .. } => 6 * n + 3,
        StateView::Attempting { .. } => 6 * n + 4,
        StateView::Judging { .. } => 6 * n - 1,
        StateView::Scheduling { .. } => 6 * n,
        StateView::Sleeping { .. } => 6 * n + 1,
        StateView::Closing => 6 * n + 1,
        StateView::Finished => 6 * n + 2,
        StateView::Failed { .. } => 6 * n + 4,
    }
}

proof fn lemma_most_events(startup: StartupView, events: Seq<EventView>)
    requires
        fits(startup, events),
    ensures
        events.len() <= most_events(after(startup, events), attempts(events) as int),
        after(startup, events) is Judging ==> attempts(events) > 0,
    decreases events.len(),
{
    if events.len() > 0 {
        lemma_most_events(startup, events.drop_last());
    }
}

/// Every startup ends: however the guest behaves, it is over once there was time for as many runs
/// of the ready command as there are retry intervals in the timeout.
pub proof fn law_startup_ends(startup: StartupView, events: Seq<EventView>)
    requires
        fits(startup, events),
        timely(startup, events),
    ensures
        events.len() <= 6 * (READY_TIMEOUT / READY_RETRY_INTERVAL) + 4,
{
    lemma_paced(startup, events);
    lemma_most_events(startup, events);
}

/// A run of the ready command is started before the deadline only, in a login shell and in the
/// startup's context, and may take exactly the time that is left until the deadline.
pub proof fn law_attempt_ends_by_deadline(startup: StartupView, events: Seq<EventView>)
    requires
        fits(startup, events),
        timely(startup, events),
    ensures
        after(startup, events) matches StateView::Attempting { deadline, request, .. } ==> {
            let left = deadline - passed(startup, events);
            &&& 0 < left <= READY_TIMEOUT
            &&& request == shell(startup, startup.ready_cmd, Some(left as u64))
        },
{
    lemma_paced(startup, events);
}

/// Sleeping between two runs of the ready command never lasts beyond the deadline.
pub proof fn law_sleep_ends_by_deadline(now: u64, deadline: u64)
    requires
        now <= deadline,
    ensures
        now <= wake_time(now, deadline) <= deadline,
        now < deadline ==> now < wake_time(now, deadline),
        wake_time(now, deadline) <= now + READY_RETRY_INTERVAL,
{
}

/// Whether nothing went wrong with the start command so far.
pub open spec fn start_went_well(events: Seq<EventView>) -> bool {
    forall|i: int|
        0 <= i < events.len() ==> !(#[trigger] events[i] is StartFailed) && (
        events[i] matches EventView::Status(status) ==> status.healthy())
}

/// Whether the start command was looked at.
pub open spec fn start_was_seen(events: Seq<EventView>) -> bool {
    exists|i: int| 0 <= i < events.len() && #[trigger] events[i] is Status
}

/// Whether the ready command has succeeded.
pub open spec fn ready_succeeded(events: Seq<EventView>) -> bool {
    exists|i: int|
        0 <= i < events.len() && (#[trigger] events[i] matches EventView::Attempted(outcome)
            && outcome.ready())
}

/// Whether `state` is one in which the start command is not watched any more.
spec fn unwatched(state: StateView) -> bool {
    match state {
        StateView::Arming { watching } => !watching,
        StateView::Checking { watching, .. } => !watching,
        StateView::Attempting { watching, .. } => !watching,
        StateView::Judging { watching, .. } => !watching,
        StateView::Scheduling { watching, .. } => !watching,
        StateView::Sleeping { watching, .. } => !watching,
        StateView::Finished => true,
        _ => false,
    }
}

proof fn lemma_progress(startup: StartupView, events: Seq<EventView>)
    requires
        fits(startup, events),
    ensures
        ({
            let state = after(startup, events);
            &&& !(state is Failed) ==> start_went_well(events)
            &&& !(state is Starting) && !blank(startup.start_cmd) && !(state is Failed) ==> events.len()
                > 0 && events[0] is Started
            &&& unwatched(state) && !blank(startup.start_cmd) ==> start_was_seen(events)
            &&& (state is Closing || state is Finished) && !blank(startup.ready_cmd)
                ==> ready_succeeded(events)
            &&& state is Arming ==> !blank(startup.ready_cmd)
            &&& state is Starting ==> events.len() == 0
        }),
    decreases events.len(),
{
    if events.len() > 0 {
        let before = events.drop_last();
        lemma_progress(startup, before);
        let state = after(startup, events);
        assert forall|i: int| 0 <= i < before.len() implies events[i] == #[trigger] before[i] by {}
        if start_was_seen(before) {
            let i = choose|i: int| 0 <= i < before.len() && #[trigger] before[i] is Status;
            assert(events[i] is Status);
        }
        if ready_succeeded(before) {
            let i = choose|i: int|
                0 <= i < before.len() && (#[trigger] before[i] matches EventView::Attempted(outcome)
                    && outcome.ready());
            assert(events[i] == before[i]);
        }
        let last = events.len() - 1;
        assert(events[last] == events.last());
        if !(state is Failed) {
            assert forall|i: int| 0 <= i < events.len() implies !(#[trigger] events[i] is StartFailed)
                && (events[i] matches EventView::Status(status) ==> status.healthy()) by {
                if i < last {
                    assert(before[i] == events[i]);
                }
            }
        }
        if before.len() > 0 {
            assert(events[0] == before[0]);
        }
    }
}

/// A startup succeeds only where it should: its start command, if it has one, was started and
/// never found to have failed, and its ready command, if it has one, has succeeded.
pub proof fn law_success_is_earned(startup: StartupView, events: Seq<EventView>)
    requires
        fits(startup, events),
        after(startup, events) is Finished,
    ensures
        start_went_well(events),
        !blank(startup.start_cmd) ==> events[0] is Started && start_was_seen(events),
        !blank(startup.ready_cmd) ==> ready_succeeded(events),
{
    lemma_progress(startup, events);
}

/// A start command that is found to have failed fails the startup at once, with its own error.
pub proof fn law_failed_start_fails_startup(
    startup: StartupView,
    events: Seq<EventView>,
    status: StatusView,
)
    requires
        fits(startup, events),
        events.len() > 0,
        events.last() == EventView::Status(status),
        !status.healthy(),
    ensures
        after(startup, events) == (StateView::Failed { message: status.error() }),
{
}

/// A startup with a normalized command is never over before it has begun.
pub proof fn law_normalized_startup_does_something(startup: Option<StartupView>)
    ensures
        crate::cold_start::normalized(startup) matches Some(s) ==> !(begun(s) is Finished),
{
}

} // verus!
