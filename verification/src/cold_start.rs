//! The startup command of a sandbox that boots fresh from a disk-only snapshot.
//!
//! Resuming a full snapshot restores the processes in its memory image. A cold boot starts a new
//! kernel over the captured disk, so what the snapshot's startup command had started is gone and
//! is run again: the start command in the background, then the ready command again and again
//! until it succeeds within a bounded time.
//!
//! This module holds the rules for the single steps; [`crate::startup_run`] puts them in order.
//! Points in time are nanoseconds of a monotonic clock.

use crate::text::{
    blank, is_blank, signed_decimal, signed_decimal_text, trim, trimmed, views,
};
use vstd::prelude::*;
use vstd::string::*;

verus! {

broadcast use group_string_axioms;

/// The ready command where a startup has a start command and no ready command.
pub const DEFAULT_READY_WITH_START_CMD: &'static str = "sleep 20";

/// How long to wait between two runs of the ready command: two seconds.
pub const READY_RETRY_INTERVAL: u64 = 2_000_000_000;

/// How long the ready command may take to succeed: ten minutes.
pub const READY_TIMEOUT: u64 = 600_000_000_000;

/// An environment variable.
#[derive(Clone, Debug, PartialEq, Eq)]
pub struct EnvVar {
    pub name: String,
    pub value: String,
}

/// The environment and working directory of a command.
#[derive(Clone, Debug, PartialEq, Eq)]
pub struct CommandContext {
    pub env_vars: Vec<EnvVar>,
    pub workdir: String,
}

/// How a sandbox's services are started.
#[derive(Clone, Debug, PartialEq, Eq)]
pub struct StartupCommand {
    /// Runs in the background.
    pub start_cmd: String,
    /// Succeeds once the services are up.
    pub ready_cmd: String,
    pub context: CommandContext,
}

/// What a [`StartupCommand`] holds.
#[verifier::ext_equal]
pub struct StartupView {
    pub start_cmd: Seq<char>,
    pub ready_cmd: Seq<char>,
    pub env_vars: Seq<EnvVar>,
    pub workdir: Seq<char>,
}

impl View for StartupCommand {
    type V = StartupView;

    open spec fn view(&self) -> StartupView {
        StartupView {
            start_cmd: self.start_cmd@,
            ready_cmd: self.ready_cmd@,
            env_vars: self.context.env_vars@,
            workdir: self.context.workdir@,
        }
    }
}

impl Default for CommandContext {
    fn default() -> (r: CommandContext)
        ensures
            r.env_vars@ == Seq::<EnvVar>::empty(),
            r.workdir@ == Seq::<char>::empty(),
    {
        CommandContext { env_vars: Vec::new(), workdir: String::new() }
    }
}

/// A startup made ready for a cold boot: none where both commands are blank, and with the default
/// ready command where only that one is.
pub open spec fn normalized(startup: Option<StartupView>) -> Option<StartupView> {
    match startup {
        None => None,
        Some(s) => if blank(s.start_cmd) && blank(s.ready_cmd) {
            None
        } else if blank(s.ready_cmd) {
            Some(StartupView { ready_cmd: DEFAULT_READY_WITH_START_CMD@, ..s })
        } else {
            Some(s)
        },
    }
}

/// The view of an optional startup command.
pub open spec fn optional_startup_view(s: Option<StartupCommand>) -> Option<StartupView> {
    match s {
        Some(s) => Some(s@),
        None => None,
    }
}

/// Makes a persisted startup command ready for a cold boot.
pub fn normalize_startup(startup: Option<StartupCommand>) -> (r: Option<StartupCommand>)
    ensures
        optional_startup_view(r) == normalized(optional_startup_view(startup)),
{
    let mut startup: StartupCommand = match startup {
        Some(startup) => startup,
        None => {
            return None;
        },
    };
    let start_cmd_empty: bool = is_blank(startup.start_cmd.as_str());
    let ready_cmd_empty: bool = is_blank(startup.ready_cmd.as_str());
    if start_cmd_empty && ready_cmd_empty {
        return None;
    }
    if !start_cmd_empty && ready_cmd_empty {
        startup.ready_cmd = DEFAULT_READY_WITH_START_CMD.to_owned();
    }
    Some(startup)
}

/// Normalizing twice is normalizing once.
pub proof fn law_normalizing_is_idempotent(startup: Option<StartupView>)
    ensures
        normalized(normalized(startup)) == normalized(startup),
{
    lemma_default_ready_is_not_blank();
}

/// A normalized startup always has a ready command, and keeps all else of what it was made from.
pub proof fn law_normalized_startup_has_ready_command(startup: StartupView)
    ensures
        normalized(Some(startup)) is None <==> blank(startup.start_cmd) && blank(startup.ready_cmd),
        normalized(Some(startup)) matches Some(s) ==> !blank(s.ready_cmd) && s == (StartupView {
            ready_cmd: s.ready_cmd,
            ..startup
        }) && (!blank(startup.ready_cmd) ==> s == startup),
{
    lemma_default_ready_is_not_blank();
}

proof fn lemma_default_ready_is_not_blank()
    ensures
        !blank(DEFAULT_READY_WITH_START_CMD@),
{
    reveal_strlit("sleep 20");
    assert(DEFAULT_READY_WITH_START_CMD@[0] == 's');
    assert(!crate::text::white_space(DEFAULT_READY_WITH_START_CMD@[0]));
}

/// What a finished command left behind.
#[derive(Clone, Debug, PartialEq, Eq)]
pub struct CommandOutput {
    pub exit_code: i32,
    pub stdout: String,
    pub stderr: String,
}

/// What a [`CommandOutput`] holds.
#[verifier::ext_equal]
pub struct OutputView {
    pub exit_code: i32,
    pub stdout: Seq<char>,
    pub stderr: Seq<char>,
}

impl View for CommandOutput {
    type V = OutputView;

    open spec fn view(&self) -> OutputView {
        OutputView { exit_code: self.exit_code, stdout: self.stdout@, stderr: self.stderr@ }
    }
}

/// What an error message quotes of a command's output: each stream that is not blank, trimmed.
pub open spec fn output_suffix(stdout: Seq<char>, stderr: Seq<char>) -> Seq<char> {
    let out = if blank(stdout) {
        Seq::empty()
    } else {
        ", stdout: "@ + trimmed(stdout)
    };
    let err = if blank(stderr) {
        Seq::empty()
    } else {
        ", stderr: "@ + trimmed(stderr)
    };
    out + err
}

/// What an error message quotes of a command's output.
pub fn command_output_suffix(stdout: &str, stderr: &str) -> (r: String)
    ensures
        r@ == output_suffix(stdout@, stderr@),
{
    proof {
        crate::text::law_blank_trims_to_nothing(stdout@);
        crate::text::law_blank_trims_to_nothing(stderr@);
    }
    let mut suffix: String = String::new();
    let out: &str = trim(stdout);
    let err: &str = trim(stderr);
    if !out.is_empty() {
        suffix.append(", stdout: ");
        suffix.append(out);
    }
    if !err.is_empty() {
        suffix.append(", stderr: ");
        suffix.append(err);
    }
    assert(suffix@ =~= output_suffix(stdout@, stderr@));
    suffix
}

/// What a look at the background start command found.
#[derive(Clone, Debug, PartialEq, Eq)]
pub enum StartStatus {
    /// It is still running.
    StillRunning,
    /// It has exited.
    Exited(CommandOutput),
    /// Waiting for it failed.
    WaitFailed { reason: String },
}

/// What a [`StartStatus`] holds.
pub enum StatusView {
    StillRunning,
    Exited(OutputView),
    WaitFailed(Seq<char>),
}

impl View for StartStatus {
    type V = StatusView;

    open spec fn view(&self) -> StatusView {
        match *self {
            StartStatus::StillRunning => StatusView::StillRunning,
            StartStatus::Exited(output) => StatusView::Exited(output@),
            StartStatus::WaitFailed { reason } => StatusView::WaitFailed(reason@),
        }
    }
}

impl StatusView {
    /// Whether the start command is well: running, or exited with status zero.
    pub open spec fn healthy(self) -> bool {
        match self {
            StatusView::StillRunning => true,
            StatusView::Exited(output) => output.exit_code == 0,
            StatusView::WaitFailed(_) => false,
        }
    }

    /// The error of a start command that is not well.
    pub open spec fn error(self) -> Seq<char> {
        match self {
            StatusView::StillRunning => Seq::empty(),
            StatusView::Exited(output) => "cold-boot startup command exited with status "@
                + signed_decimal(output.exit_code as int) + output_suffix(
                output.stdout,
                output.stderr,
            ),
            StatusView::WaitFailed(reason) =>
                "cold-boot startup command failed while waiting for it: "@ + reason,
        }
    }
}

/// Judges the background start command: `Ok(true)` where it has exited with status zero and need
/// not be watched any more, `Ok(false)` where it is running, and an error otherwise.
pub fn ensure_start_command_still_running_or_success(status: &StartStatus) -> (r: Result<
    bool,
    String,
>)
    ensures
        r is Ok <==> status@.healthy(),
        r matches Ok(exited) ==> exited == status@ is Exited,
        r matches Err(message) ==> message@ == status@.error(),
{
    match status {
        StartStatus::StillRunning => Ok(false),
        StartStatus::Exited(output) => if output.exit_code == 0 {
            Ok(true)
        } else {
            Err(
                "cold-boot startup command exited with status ".to_owned().concat(
                    signed_decimal_text(output.exit_code as i64).as_str(),
                ).concat(
                    command_output_suffix(output.stdout.as_str(), output.stderr.as_str()).as_str(),
                ),
            )
        },
        StartStatus::WaitFailed { reason } => Err(
            "cold-boot startup command failed while waiting for it: ".to_owned().concat(
                reason.as_str(),
            ),
        ),
    }
}

/// What came of one run of the ready command.
#[derive(Clone, Debug, PartialEq, Eq)]
pub enum AttemptOutcome {
    /// It ran to its end.
    Exited(CommandOutput),
    /// It could not be run.
    Failed { reason: String },
}

/// What an [`AttemptOutcome`] holds.
pub enum AttemptView {
    Exited(OutputView),
    Failed(Seq<char>),
}

impl View for AttemptOutcome {
    type V = AttemptView;

    open spec fn view(&self) -> AttemptView {
        match *self {
            AttemptOutcome::Exited(output) => AttemptView::Exited(output@),
            AttemptOutcome::Failed { reason } => AttemptView::Failed(reason@),
        }
    }
}

impl AttemptView {
    /// Whether the services are up.
    pub open spec fn ready(self) -> bool {
        self matches AttemptView::Exited(output) && output.exit_code == 0
    }
}

/// The error of a ready command that did not succeed in time.
pub open spec fn timeout_error(ready_cmd: Seq<char>) -> Seq<char> {
    "cold-boot ready command timed out after 600s: cmd='"@ + ready_cmd + "'"@
}

/// The error of a ready command that did not succeed in time, with its last run.
pub open spec fn last_attempt_error(ready_cmd: Seq<char>, last: AttemptView) -> Seq<char> {
    match last {
        AttemptView::Exited(output) => timeout_error(ready_cmd) + ", exit_code="@ + signed_decimal(
            output.exit_code as int,
        ) + output_suffix(output.stdout, output.stderr),
        AttemptView::Failed(reason) => timeout_error(ready_cmd) + ": "@ + reason,
    }
}

/// The error of a ready command that did not succeed in time.
pub fn timeout_message(ready_cmd: &str) -> (r: String)
    ensures
        r@ == timeout_error(ready_cmd@),
{
    "cold-boot ready command timed out after 600s: cmd='".to_owned().concat(ready_cmd).concat("'")
}

/// The error of a ready command that did not succeed in time, with its last run.
pub fn last_attempt_message(ready_cmd: &str, last: &AttemptOutcome) -> (r: String)
    ensures
        r@ == last_attempt_error(ready_cmd@, last@),
{
    match last {
        AttemptOutcome::Exited(output) => timeout_message(ready_cmd).concat(", exit_code=").concat(
            signed_decimal_text(output.exit_code as i64).as_str(),
        ).concat(command_output_suffix(output.stdout.as_str(), output.stderr.as_str()).as_str()),
        AttemptOutcome::Failed { reason } => timeout_message(ready_cmd).concat(": ").concat(
            reason.as_str(),
        ),
    }
}

/// A process to run in the guest.
#[derive(Clone, Debug, PartialEq, Eq)]
pub struct ProcessRequest {
    pub program: String,
    pub args: Vec<String>,
    pub envs: Vec<EnvVar>,
    pub cwd: Option<String>,
    /// How long it may run, in nanoseconds; without limit where `None`.
    pub timeout: Option<u64>,
}

/// What a [`ProcessRequest`] holds.
#[verifier::ext_equal]
pub struct ProcessView {
    pub program: Seq<char>,
    pub args: Seq<Seq<char>>,
    pub envs: Seq<EnvVar>,
    pub cwd: Option<Seq<char>>,
    pub timeout: Option<u64>,
}

impl View for ProcessRequest {
    type V = ProcessView;

    open spec fn view(&self) -> ProcessView {
        ProcessView {
            program: self.program@,
            args: views(self.args@),
            envs: self.envs@,
            cwd: crate::text::optional_view(self.cwd),
            timeout: self.timeout,
        }
    }
}

/// The process that runs `command` in a login shell, in the context of the startup.
pub open spec fn shell(startup: StartupView, command: Seq<char>, timeout: Option<u64>) -> ProcessView {
    ProcessView {
        program: "/bin/bash"@,
        args: seq!["-lc"@, command],
        envs: startup.env_vars,
        cwd: Some(startup.workdir),
        timeout,
    }
}

/// The process that runs `command` in a login shell, in the context of the startup.
pub fn shell_request(startup: &StartupCommand, command: &str, timeout: Option<u64>) -> (r:
    ProcessRequest)
    ensures
        r@ == shell(startup@, command@, timeout),
{
    let mut args: Vec<String> = Vec::new();
    args.push("-lc".to_owned());
    args.push(command.to_owned());
    let mut envs: Vec<EnvVar> = Vec::new();
    let mut i: usize = 0;
    while i < startup.context.env_vars.len()
        invariant
            i <= startup.context.env_vars@.len(),
            envs@ =~= startup.context.env_vars@.take(i as int),
        decreases startup.context.env_vars@.len() - i,
    {
        let variable = &startup.context.env_vars[i];
        envs.push(EnvVar { name: variable.name.clone(), value: variable.value.clone() });
        i += 1;
    }
    let r = ProcessRequest {
        program: "/bin/bash".to_owned(),
        args,
        envs,
        cwd: Some(startup.context.workdir.clone()),
        timeout,
    };
    assert(r@.args =~= shell(startup@, command@, timeout).args);
    assert(r@.envs =~= startup@.env_vars);
    r
}

/// When to run the ready command again: after the retry interval, but at the deadline at the
/// latest.
pub open spec fn wake_time(now: u64, deadline: u64) -> u64 {
    if now + READY_RETRY_INTERVAL < deadline {
        (now + READY_RETRY_INTERVAL) as u64
    } else {
        deadline
    }
}

/// When to run the ready command again.
pub fn next_wake(now: u64, deadline: u64) -> (r: u64)
    ensures
        r == wake_time(now, deadline),
{
    if deadline > READY_RETRY_INTERVAL && now < deadline - READY_RETRY_INTERVAL {
        now + READY_RETRY_INTERVAL
    } else {
        deadline
    }
}

} // verus!
