use agentenv_snapshot::cold_start::{
    command_output_suffix, ensure_start_command_still_running_or_success, next_wake,
    normalize_startup, AttemptOutcome, CommandContext, CommandOutput, EnvVar, StartStatus,
    StartupCommand, DEFAULT_READY_WITH_START_CMD, READY_RETRY_INTERVAL, READY_TIMEOUT,
};
use agentenv_snapshot::startup_run::{StartupAction, StartupEvent, StartupRun, StartupState};

fn startup(start_cmd: &str, ready_cmd: &str) -> StartupCommand {
    StartupCommand {
        start_cmd: start_cmd.to_string(),
        ready_cmd: ready_cmd.to_string(),
        context: CommandContext::default(),
    }
}

fn output(exit_code: i32, stdout: &str, stderr: &str) -> CommandOutput {
    CommandOutput { exit_code, stdout: stdout.to_string(), stderr: stderr.to_string() }
}

fn failure(run: &StartupRun) -> String {
    match run.action() {
        StartupAction::Fail(message) => message.clone(),
        other => panic!("not failed: {:?}", other),
    }
}

fn clock(run: StartupRun, now: u64) -> StartupRun {
    assert!(matches!(run.action(), StartupAction::ReadClock));
    run.advance(StartupEvent::Clock { now })
}

/// A run up to its first attempt at the ready command, started at `now`.
fn first_attempt(startup: StartupCommand, now: u64) -> StartupRun {
    let watched = !startup.start_cmd.trim().is_empty();
    let mut run = StartupRun::begin(startup);
    if watched {
        assert!(matches!(run.action(), StartupAction::Start(_)));
        run = run.advance(StartupEvent::Started);
    }
    run = clock(run, now);
    run = clock(run, now);
    if watched {
        assert!(matches!(run.action(), StartupAction::PollStart));
        run = run.advance(StartupEvent::Status(StartStatus::StillRunning));
    }
    assert!(matches!(run.action(), StartupAction::RunReady(_)));
    run
}

#[test]
fn normalize_drops_empty_startup() {
    assert!(normalize_startup(None).is_none());
    assert!(normalize_startup(Some(startup("", ""))).is_none());
    assert!(normalize_startup(Some(startup("  ", "\t"))).is_none());
}

#[test]
fn normalize_defaults_ready_when_start_cmd_is_set() {
    let normalized =
        normalize_startup(Some(startup("./server &", ""))).expect("startup should survive");
    assert_eq!(normalized.start_cmd, "./server &");
    assert_eq!(normalized.ready_cmd, DEFAULT_READY_WITH_START_CMD);
}

#[test]
fn normalize_preserves_explicit_ready_cmd() {
    let normalized = normalize_startup(Some(startup("./server", "curl -sf localhost:3000")))
        .expect("startup should survive");
    assert_eq!(normalized.ready_cmd, "curl -sf localhost:3000");
}

#[test]
fn normalizing_twice_is_normalizing_once() {
    for (start, ready) in [("", ""), ("a", ""), ("", "b"), ("a", "b"), (" ", "b"), ("a", "\n")] {
        let once = normalize_startup(Some(startup(start, ready)));
        assert_eq!(normalize_startup(once.clone()), once);
    }
}

#[test]
fn ready_command_alone_is_kept() {
    let normalized = normalize_startup(Some(startup(" ", "true"))).unwrap();
    assert_eq!(normalized, startup(" ", "true"));
}

#[test]
fn default_ready_command_and_times() {
    assert_eq!(DEFAULT_READY_WITH_START_CMD, "sleep 20");
    assert_eq!(READY_RETRY_INTERVAL, 2_000_000_000);
    assert_eq!(READY_TIMEOUT, 600_000_000_000);
}

#[test]
fn output_suffix_quotes_streams_that_are_not_blank() {
    assert_eq!(command_output_suffix("", " \n"), "");
    assert_eq!(command_output_suffix(" out\n", ""), ", stdout: out");
    assert_eq!(command_output_suffix("", "\terr x "), ", stderr: err x");
    assert_eq!(command_output_suffix("a", "b"), ", stdout: a, stderr: b");
}

#[test]
fn start_command_is_judged_by_its_status() {
    let judge = ensure_start_command_still_running_or_success;
    assert_eq!(judge(&StartStatus::StillRunning), Ok(false));
    assert_eq!(judge(&StartStatus::Exited(output(0, "x", "y"))), Ok(true));
    assert_eq!(
        judge(&StartStatus::Exited(output(-7, "x", ""))),
        Err("cold-boot startup command exited with status -7, stdout: x".to_string())
    );
    assert_eq!(
        judge(&StartStatus::WaitFailed { reason: "gone".to_string() }),
        Err("cold-boot startup command failed while waiting for it: gone".to_string())
    );
}

#[test]
fn blank_startup_finishes_at_once() {
    let run = StartupRun::begin(startup(" ", ""));
    assert!(matches!(run.action(), StartupAction::Finish));
}

#[test]
fn start_command_runs_in_a_login_shell_with_the_context() {
    let mut command = startup("./server", "true");
    command.context.workdir = "/app".to_string();
    command.context.env_vars.push(EnvVar { name: "A".to_string(), value: "1".to_string() });
    let run = StartupRun::begin(command);
    match run.action() {
        StartupAction::Start(request) => {
            assert_eq!(request.program, "/bin/bash");
            assert_eq!(request.args, vec!["-lc".to_string(), "./server".to_string()]);
            assert_eq!(request.cwd, Some("/app".to_string()));
            assert_eq!(request.envs.len(), 1);
            assert_eq!(request.envs[0].name, "A");
            assert_eq!(request.timeout, None);
        }
        other => panic!("unexpected action: {:?}", other),
    }
}

#[test]
fn start_that_fails_fails_the_startup() {
    let run = StartupRun::begin(startup("./server", "true"));
    let run = run.advance(StartupEvent::StartFailed { reason: "no shell".to_string() });
    assert_eq!(failure(&run), "execute cold-boot startup command './server': no shell");
}

#[test]
fn ready_command_gets_the_time_that_is_left() {
    let run = StartupRun::begin(startup("", "true"));
    let run = clock(run, 1_000);
    let run = clock(run, 5_000);
    match run.action() {
        StartupAction::RunReady(request) => {
            assert_eq!(request.args[1], "true");
            assert_eq!(request.timeout, Some(READY_TIMEOUT - 4_000));
        }
        other => panic!("unexpected action: {:?}", other),
    }
    let run = run.advance(StartupEvent::Attempted(AttemptOutcome::Exited(output(0, "", ""))));
    assert!(matches!(run.action(), StartupAction::Finish));
}

#[test]
fn start_command_is_looked_at_once_more_after_success() {
    let run = first_attempt(startup("./server", "true"), 0);
    let run = run.advance(StartupEvent::Attempted(AttemptOutcome::Exited(output(0, "", ""))));
    assert!(matches!(run.action(), StartupAction::PollStart));
    let run = run.advance(StartupEvent::Status(StartStatus::Exited(output(1, "", "boom"))));
    assert_eq!(failure(&run), "cold-boot startup command exited with status 1, stderr: boom");
}

#[test]
fn start_command_that_exited_well_is_not_looked_at_again() {
    let run = StartupRun::begin(startup("./server &", "true")).advance(StartupEvent::Started);
    let run = clock(run, 0);
    let run = clock(run, 0);
    let run = run.advance(StartupEvent::Status(StartStatus::Exited(output(0, "", ""))));
    let run = run.advance(StartupEvent::Attempted(AttemptOutcome::Exited(output(0, "", ""))));
    assert!(matches!(run.action(), StartupAction::Finish));
}

#[test]
fn start_command_without_ready_command_is_looked_at_once() {
    let run = StartupRun::begin(startup("./server", "")).advance(StartupEvent::Started);
    assert!(matches!(run.action(), StartupAction::PollStart));
    let run = run.advance(StartupEvent::Status(StartStatus::StillRunning));
    assert!(matches!(run.action(), StartupAction::Finish));
}

#[test]
fn start_command_that_dies_while_waiting_fails_the_startup() {
    let run = StartupRun::begin(startup("./server", "true")).advance(StartupEvent::Started);
    let run = clock(run, 0);
    let run = clock(run, 0);
    let run =
        run.advance(StartupEvent::Status(StartStatus::WaitFailed { reason: "lost".to_string() }));
    assert_eq!(failure(&run), "cold-boot startup command failed while waiting for it: lost");
}

#[test]
fn ready_command_is_retried_after_the_interval() {
    let run = first_attempt(startup("", "check"), 10);
    let run = run.advance(StartupEvent::Attempted(AttemptOutcome::Exited(output(1, "", ""))));
    let run = clock(run, 20);
    let run = clock(run, 30);
    match run.action() {
        StartupAction::SleepUntil(wake) => assert_eq!(wake, 30 + READY_RETRY_INTERVAL),
        other => panic!("unexpected action: {:?}", other),
    }
    let run = run.advance(StartupEvent::Woke);
    assert!(matches!(run.state, StartupState::Checking { .. }));
}

#[test]
fn sleep_ends_at_the_deadline_at_the_latest() {
    assert_eq!(next_wake(0, 10), 10);
    assert_eq!(next_wake(0, READY_RETRY_INTERVAL), READY_RETRY_INTERVAL);
    assert_eq!(next_wake(0, READY_RETRY_INTERVAL + 1), READY_RETRY_INTERVAL);
    assert_eq!(next_wake(u64::MAX - 1, u64::MAX), u64::MAX);
}

#[test]
fn time_runs_out_before_an_attempt() {
    let run = StartupRun::begin(startup("", "check"));
    let run = clock(run, 0);
    let run = clock(run, READY_TIMEOUT);
    assert_eq!(failure(&run), "cold-boot ready command timed out after 600s: cmd='check'");
}

#[test]
fn time_runs_out_during_an_attempt_that_exits() {
    let run = first_attempt(startup("", "check"), 0);
    let run = run.advance(StartupEvent::Attempted(AttemptOutcome::Exited(output(3, " o ", "e\n"))));
    let run = clock(run, READY_TIMEOUT);
    assert_eq!(
        failure(&run),
        "cold-boot ready command timed out after 600s: cmd='check', exit_code=3, stdout: o, stderr: e"
    );
}

#[test]
fn time_runs_out_during_an_attempt_that_cannot_be_run() {
    let run = first_attempt(startup("", "check"), 0);
    let run =
        run.advance(StartupEvent::Attempted(AttemptOutcome::Failed { reason: "cut off".to_string() }));
    let run = clock(run, READY_TIMEOUT + 1);
    assert_eq!(failure(&run), "cold-boot ready command timed out after 600s: cmd='check': cut off");
}

#[test]
fn attempts_are_bounded_by_the_deadline() {
    let mut run = first_attempt(startup("", "check"), 0);
    let mut now = 0;
    let mut attempts = 0;
    let mut events = 2;
    loop {
        let event = match run.action() {
            StartupAction::RunReady(_) => {
                attempts += 1;
                StartupEvent::Attempted(AttemptOutcome::Exited(output(1, "", "")))
            }
            StartupAction::ReadClock => StartupEvent::Clock { now },
            StartupAction::SleepUntil(wake) => {
                now = wake;
                StartupEvent::Woke
            }
            StartupAction::Fail(_) => break,
            other => panic!("unexpected action: {:?}", other),
        };
        run = run.advance(event);
        events += 1;
    }
    assert_eq!(now, READY_TIMEOUT);
    assert_eq!(attempts, 300);
    assert!(events <= 6 * (READY_TIMEOUT / READY_RETRY_INTERVAL) + 4);
}
