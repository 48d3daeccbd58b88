//! Dry runs of proposed commands in an ephemeral, network-less container: the
//! choice of engine, the checks made before anything runs, the container
//! invocation, and the verdict drawn from how the run ended.
use vstd::prelude::*;
use vstd::string::*;
use vstd::utf8::*;

use crate::models::{strings_view, ValidateVerdict, VerdictView};
use crate::text::{
    joined, decimal, has_prefix, render_decimal, render_signed_decimal, signed_decimal, starts_with,
    str_eq, truncate_log, truncated_log, truncation_splits_char,
};

verus! {

/// The container engine the sandbox uses, and whether one was found.
pub struct SandboxEvaluator {
    engine: String,
    available: bool,
}

pub struct SandboxEvaluatorView {
    pub engine: Seq<char>,
    pub available: bool,
}

impl View for SandboxEvaluator {
    type V = SandboxEvaluatorView;

    closed spec fn view(&self) -> SandboxEvaluatorView {
        SandboxEvaluatorView { engine: self.engine@, available: self.available }
    }
}

/// Podman is preferred; Docker is the fallback; without either the sandbox is unavailable.
pub open spec fn detected_engine(podman_ok: bool, docker_ok: bool) -> SandboxEvaluatorView {
    if podman_ok {
        SandboxEvaluatorView { engine: "podman"@, available: true }
    } else if docker_ok {
        SandboxEvaluatorView { engine: "docker"@, available: true }
    } else {
        SandboxEvaluatorView { engine: "none"@, available: false }
    }
}

/// The seconds a dry run may take before it is abandoned.
pub const SANDBOX_TIMEOUT_SECS: u64 = 5;

/// Host paths that are never mounted into a container, by prefix.
pub open spec fn forbidden_prefixes() -> Seq<Seq<char>> {
    seq!["/etc"@, "/var/run"@, "/root"@, "/sys"@, "/dev"@, "/proc"@, "/boot"@]
}

/// Mounting `cwd` would expose the host root or a sensitive system directory.
pub open spec fn is_forbidden_mount(cwd: Seq<char>) -> bool {
    cwd == "/"@ || exists|i: int|
        0 <= i < forbidden_prefixes().len() && has_prefix(cwd, #[trigger] forbidden_prefixes()[i])
}

/// Action kinds that the sandbox knows how to dry-run.
pub open spec fn sandboxable(action_type: Seq<char>) -> bool {
    action_type == "bash"@ || action_type == "script"@
}

/// The engine arguments of a dry run: an ephemeral container without network,
/// with the working directory mounted read-only and a scratch `/tmp`.
pub open spec fn container_args(cwd: Seq<char>, payload: Seq<char>) -> Seq<Seq<char>> {
    seq![
        "run"@,
        "--rm"@,
        "--network=none"@,
        "-v="@ + cwd + ":/workspace:ro"@,
        "--tmpfs=/tmp"@,
        "-w=/workspace"@,
        "alpine:latest"@,
        "sh"@,
        "-c"@,
        payload,
    ]
}

/// A container invocation: the engine program, its arguments and the time it may take.
pub struct ContainerRun {
    pub program: String,
    pub args: Vec<String>,
    pub timeout_secs: u64,
}

pub struct ContainerRunView {
    pub program: Seq<char>,
    pub args: Seq<Seq<char>>,
    pub timeout_secs: u64,
}

impl View for ContainerRun {
    type V = ContainerRunView;

    open spec fn view(&self) -> ContainerRunView {
        ContainerRunView { program: self.program@, args: strings_view(self.args@), timeout_secs: self.timeout_secs }
    }
}

/// What the sandbox does with an action: answer at once, or dry-run it.
pub enum SandboxStep {
    Verdict(ValidateVerdict),
    Run(ContainerRun),
}

pub enum SandboxStepView {
    Verdict(VerdictView),
    Run(ContainerRunView),
}

impl View for SandboxStep {
    type V = SandboxStepView;

    open spec fn view(&self) -> SandboxStepView {
        match self {
            SandboxStep::Verdict(v) => SandboxStepView::Verdict(v@),
            SandboxStep::Run(r) => SandboxStepView::Run(r@),
        }
    }
}

/// Why the sandbox could not evaluate an action.
#[derive(Debug, PartialEq, Eq)]
pub enum SandboxError {
    /// The working directory could not be resolved to a canonical path.
    InvalidCwd,
}

/// The warning of the fail-open approval given when no container engine was
/// found; it tells the user how to install Podman.
pub open spec fn unavailable_warning() -> Seq<char> {
    "No container engine (Podman/Docker) available. Failing open without a sandbox dry run. Install Podman, the recommended rootless engine, to enable full security: https://podman.io/docs/installation (for example `sudo apt-get install podman`, `sudo dnf install podman` or `brew install podman`)."@
}

pub open spec fn forbidden_mount_reason(cwd: Seq<char>) -> Seq<char> {
    "Security violation: Attempted to mount forbidden host path "@ + cwd
}

pub open spec fn forbidden_mount_constraint() -> Seq<char> {
    "Never attempt to interact with or mount sensitive host system paths."@
}

pub open spec fn unsupported_action_reason(action_type: Seq<char>) -> Seq<char> {
    "Sandbox evaluation not supported for action_type: "@ + action_type
}

/// What the sandbox decides before anything runs, given the canonical working
/// directory (`None` when it could not be resolved).
pub open spec fn planned_step(
    sandbox: SandboxEvaluatorView,
    action_type: Seq<char>,
    payload: Seq<char>,
    canonical_cwd: Option<Seq<char>>,
) -> Result<SandboxStepView, SandboxError> {
    if !sandbox.available {
        Ok(SandboxStepView::Verdict(VerdictView::ApprovedFailOpen { warning: unavailable_warning() }))
    } else {
        match canonical_cwd {
            None => Err(SandboxError::InvalidCwd),
            Some(cwd) => if is_forbidden_mount(cwd) {
                Ok(SandboxStepView::Verdict(VerdictView::DeterministicReject {
                    reasons: seq![forbidden_mount_reason(cwd)],
                    constraints: seq![forbidden_mount_constraint()],
                }))
            } else if !sandboxable(action_type) {
                Ok(SandboxStepView::Verdict(VerdictView::DeterministicReject {
                    reasons: seq![unsupported_action_reason(action_type)],
                    constraints: seq![],
                }))
            } else {
                Ok(SandboxStepView::Run(ContainerRunView {
                    program: sandbox.engine,
                    args: container_args(cwd, payload),
                    timeout_secs: SANDBOX_TIMEOUT_SECS,
                }))
            },
        }
    }
}

/// `res` is the executable form of the planned `spec`.
pub open spec fn step_result_matches(
    res: Result<SandboxStep, SandboxError>,
    spec: Result<SandboxStepView, SandboxError>,
) -> bool {
    match res {
        Ok(step) => spec == Ok::<SandboxStepView, SandboxError>(step@),
        Err(e) => spec == Err::<SandboxStepView, SandboxError>(e),
    }
}

fn is_forbidden_cwd(cwd: &str) -> (res: bool)
    ensures
        res == is_forbidden_mount(cwd@),
{
    if str_eq(cwd, "/") {
        return true;
    }
    let prefixes: [&str; 7] = ["/etc", "/var/run", "/root", "/sys", "/dev", "/proc", "/boot"];
    assert(forall|i: int| 0 <= i < 7 ==> prefixes@[i]@ == forbidden_prefixes()[i]);
    let mut i: usize = 0;
    while i < 7
        invariant
            0 <= i <= 7,
            cwd@ != "/"@,
            forall|k: int| 0 <= k < 7 ==> prefixes@[k]@ == forbidden_prefixes()[k],
            forall|k: int| 0 <= k < i ==> !has_prefix(cwd@, #[trigger] forbidden_prefixes()[k]),
        decreases 7 - i,
    {
        if starts_with(cwd, prefixes[i]) {
            assert(has_prefix(cwd@, forbidden_prefixes()[i as int]));
            return true;
        }
        i = i + 1;
    }
    false
}

fn string_vec1(a: &str) -> (res: Vec<String>)
    ensures
        strings_view(res@) == seq![a@],
{
    let mut v: Vec<String> = Vec::new();
    v.push(a.to_owned());
    assert(strings_view(v@) =~= seq![a@]);
    v
}

fn reject(reason: String, constraint: Option<&str>) -> (res: ValidateVerdict)
    ensures
        res@ == (VerdictView::DeterministicReject {
            reasons: seq![reason@],
            constraints: match constraint {
                Some(c) => seq![c@],
                None => seq![],
            },
        }),
{
    let reasons = string_vec1(reason.as_str());
    let constraints = match constraint {
        Some(c) => string_vec1(c),
        None => {
            let v: Vec<String> = Vec::new();
            assert(strings_view(v@) =~= seq![]);
            v
        },
    };
    ValidateVerdict::DeterministicReject { reasons, constraints }
}

fn container_args_for(cwd: &str, payload: &str) -> (res: Vec<String>)
    ensures
        strings_view(res@) == container_args(cwd@, payload@),
{
    let mut mount = joined("-v=", cwd);
    mount.append(":/workspace:ro");
    let mut v: Vec<String> = Vec::new();
    v.push("run".to_owned());
    v.push("--rm".to_owned());
    v.push("--network=none".to_owned());
    v.push(mount);
    v.push("--tmpfs=/tmp".to_owned());
    v.push("-w=/workspace".to_owned());
    v.push("alpine:latest".to_owned());
    v.push("sh".to_owned());
    v.push("-c".to_owned());
    v.push(payload.to_owned());
    assert(strings_view(v@) =~= container_args(cwd@, payload@));
    v
}

impl SandboxEvaluator {
    /// Chooses the container engine from whether `podman --version` and
    /// `docker --version` succeeded.
    pub fn new(podman_ok: bool, docker_ok: bool) -> (res: Self)
        ensures
            res@ == detected_engine(podman_ok, docker_ok),
            podman_ok ==> res@.engine == "podman"@ && res@.available,
            !podman_ok && docker_ok ==> res@.engine == "docker"@ && res@.available,
            !podman_ok && !docker_ok ==> !res@.available,
    {
        if podman_ok {
            SandboxEvaluator { engine: "podman".to_owned(), available: true }
        } else if docker_ok {
            SandboxEvaluator { engine: "docker".to_owned(), available: true }
        } else {
            SandboxEvaluator { engine: "none".to_owned(), available: false }
        }
    }

    /// The engine program used for dry runs ("podman", "docker" or "none").
    pub fn engine(&self) -> (res: &str)
        ensures
            res@ == self@.engine,
    {
        self.engine.as_str()
    }

    /// Whether a container engine was found.
    pub fn available(&self) -> (res: bool)
        ensures
            res == self@.available,
    {
        self.available
    }

    /// Decides what to do with an action before anything runs. `canonical_cwd`
    /// is the canonical form of the working directory, or `None` when it could
    /// not be resolved. Without a container engine the action is approved
    /// (failing open) with guidance on installing Podman, whatever the working
    /// directory. A forbidden host path is never mounted, and a dry run always
    /// goes to an ephemeral container without network access.
    pub fn evaluate(&self, action_type: &str, payload: &str, canonical_cwd: Option<&str>) -> (res:
        Result<SandboxStep, SandboxError>)
        ensures
            step_result_matches(
                res,
                planned_step(
                    self@,
                    action_type@,
                    payload@,
                    match canonical_cwd {
                        Some(c) => Some(c@),
                        None => None,
                    },
                ),
            ),
            !self@.available ==> res matches Ok(
                SandboxStep::Verdict(ValidateVerdict::ApprovedFailOpen { .. }),
            ),
            res matches Ok(SandboxStep::Run(run)) ==> canonical_cwd matches Some(cwd)
                && !is_forbidden_mount(cwd@) && run@.args.contains("--network=none"@)
                && run@.args.contains("--rm"@) && run@.args.contains(
                "-v="@ + cwd@ + ":/workspace:ro"@,
            ),
    {
        if !self.available {
            let warning = "No container engine (Podman/Docker) available. Failing open without a sandbox dry run. Install Podman, the recommended rootless engine, to enable full security: https://podman.io/docs/installation (for example `sudo apt-get install podman`, `sudo dnf install podman` or `brew install podman`).".to_owned();
            return Ok(SandboxStep::Verdict(ValidateVerdict::ApprovedFailOpen { warning }));
        }
        let cwd = match canonical_cwd {
            Some(c) => c,
            None => return Err(SandboxError::InvalidCwd),
        };
        if is_forbidden_cwd(cwd) {
            let reason = joined("Security violation: Attempted to mount forbidden host path ", cwd);
            return Ok(SandboxStep::Verdict(reject(
                reason,
                Some("Never attempt to interact with or mount sensitive host system paths."),
            )));
        }
        if !str_eq(action_type, "bash") && !str_eq(action_type, "script") {
            let reason = joined("Sandbox evaluation not supported for action_type: ", action_type);
            return Ok(SandboxStep::Verdict(reject(reason, None)));
        }
        let args = container_args_for(cwd, payload);
        proof {
            let a = container_args(cwd@, payload@);
            assert(a[1] == "--rm"@);
            assert(a[2] == "--network=none"@);
            assert(a[3] == "-v="@ + cwd@ + ":/workspace:ro"@);
        }
        Ok(SandboxStep::Run(ContainerRun { program: self.engine.clone(), args, timeout_secs: SANDBOX_TIMEOUT_SECS }))
    }
}


/// How a dry run ended.
pub enum RunOutcome {
    /// The container ran to completion; the streams are the decoded bytes it wrote.
    Exited { success: bool, exit_code: Option<i32>, stdout: String, stderr: String },
    /// The engine program could not be started.
    SpawnFailed { error: String },
    /// The engine could not be waited on.
    LaunchFailed { error: String },
    /// The run took longer than its timeout.
    TimedOut,
}

pub enum RunOutcomeView {
    Exited { success: bool, exit_code: Option<i32>, stdout: Seq<char>, stderr: Seq<char> },
    SpawnFailed { error: Seq<char> },
    LaunchFailed { error: Seq<char> },
    TimedOut,
}

impl View for RunOutcome {
    type V = RunOutcomeView;

    open spec fn view(&self) -> RunOutcomeView {
        match self {
            RunOutcome::Exited { success, exit_code, stdout, stderr } => RunOutcomeView::Exited {
                success: *success,
                exit_code: *exit_code,
                stdout: stdout@,
                stderr: stderr@,
            },
            RunOutcome::SpawnFailed { error } => RunOutcomeView::SpawnFailed { error: error@ },
            RunOutcome::LaunchFailed { error } => RunOutcomeView::LaunchFailed { error: error@ },
            RunOutcome::TimedOut => RunOutcomeView::TimedOut,
        }
    }
}

/// How an optional exit code is written in a rejection: `Some(<code>)` or `None`.
pub open spec fn exit_code_text(code: Option<i32>) -> Seq<char> {
    match code {
        Some(c) => "Some("@ + signed_decimal(c as int) + ")"@,
        None => "None"@,
    }
}

pub open spec fn success_note(duration_ms: u64) -> Seq<char> {
    "Execution succeeded in "@ + decimal(duration_ms as nat) + "ms"@
}

/// The logs of a failed run: both streams, each truncated to its last 500 bytes.
pub open spec fn run_logs(stdout: Seq<char>, stderr: Seq<char>) -> Seq<char> {
    "STDOUT:\n"@ + truncated_log(stdout) + "\nSTDERR:\n"@ + truncated_log(stderr)
}

/// A stream that can be truncated without cutting a character in two.
pub open spec fn loggable(s: Seq<char>) -> bool {
    encode_utf8(s).len() <= usize::MAX && !truncation_splits_char(s)
}

/// The streams of a finished run can be truncated without cutting a character.
pub open spec fn outcome_loggable(outcome: RunOutcomeView) -> bool {
    match outcome {
        RunOutcomeView::Exited { stdout, stderr, .. } => loggable(stdout) && loggable(stderr),
        _ => true,
    }
}

/// The warning of the fail-open approval given when the engine could not be started.
pub open spec fn spawn_failure_warning(error: Seq<char>) -> Seq<char> {
    "Sandbox engine could not be started: "@ + error + ". Failing open without a sandbox dry run."@
}

/// The warning of the fail-open approval given when a dry run outlived its timeout.
pub open spec fn timeout_warning() -> Seq<char> {
    "Sandbox timed out after "@ + decimal(SANDBOX_TIMEOUT_SECS as nat)
        + " seconds. Failing open without a sandbox verdict."@
}

/// The verdict of a dry run that ended with `outcome` after `duration_ms`.
pub open spec fn run_verdict(outcome: RunOutcomeView, duration_ms: u64) -> VerdictView {
    match outcome {
        RunOutcomeView::Exited { success, exit_code, stdout, stderr } => if success {
            VerdictView::SandboxPassLowFidelity { notes: seq![success_note(duration_ms)] }
        } else {
            VerdictView::SandboxReject {
                reasons: seq!["Sandbox returned exit code: "@ + exit_code_text(exit_code)],
                logs: run_logs(stdout, stderr),
                constraints: seq![],
            }
        },
        RunOutcomeView::LaunchFailed { error } => VerdictView::SandboxReject {
            reasons: seq!["Sandbox execution error: "@ + error],
            logs: seq![],
            constraints: seq![],
        },
        RunOutcomeView::SpawnFailed { error } => VerdictView::ApprovedFailOpen {
            warning: spawn_failure_warning(error),
        },
        RunOutcomeView::TimedOut => VerdictView::ApprovedFailOpen { warning: timeout_warning() },
    }
}

fn render_exit_code(code: Option<i32>) -> (res: String)
    ensures
        res@ == exit_code_text(code),
{
    match code {
        Some(c) => {
            let mut s = joined("Some(", render_signed_decimal(c).as_str());
            s.append(")");
            s
        },
        None => "None".to_owned(),
    }
}

fn sandbox_reject(reason: String, logs: String) -> (res: ValidateVerdict)
    ensures
        res@ == (VerdictView::SandboxReject {
            reasons: seq![reason@],
            logs: logs@,
            constraints: seq![],
        }),
{
    let reasons = string_vec1(reason.as_str());
    let constraints: Vec<String> = Vec::new();
    assert(strings_view(constraints@) =~= seq![]);
    ValidateVerdict::SandboxReject { reasons, logs, constraints }
}

/// The verdict of a dry run: a pass note with its duration, or a rejection that
/// carries the exit code and both streams, each cut to its last 500 bytes. A
/// run that times out or whose engine cannot be started fails open.
pub fn run_verdict_of(outcome: RunOutcome, duration_ms: u64) -> (res: ValidateVerdict)
    requires
        outcome_loggable(outcome@),
    ensures
        res@ == run_verdict(outcome@, duration_ms),
        outcome matches RunOutcome::Exited { success, .. } ==> (success <==> res is SandboxPassLowFidelity),
        outcome matches RunOutcome::Exited { success, .. } ==> (!success <==> res is SandboxReject),
{
    match outcome {
        RunOutcome::Exited { success, exit_code, stdout, stderr } => {
            let stdout = truncate_log(stdout);
            let stderr = truncate_log(stderr);
            if success {
                let mut note = joined("Execution succeeded in ", render_decimal(duration_ms).as_str());
                note.append("ms");
                ValidateVerdict::SandboxPassLowFidelity { notes: string_vec1(note.as_str()) }
            } else {
                let reason = joined("Sandbox returned exit code: ", render_exit_code(exit_code).as_str());
                let mut logs = joined("STDOUT:\n", stdout.as_str());
                logs.append("\nSTDERR:\n");
                logs.append(stderr.as_str());
                sandbox_reject(reason, logs)
            }
        },
        RunOutcome::LaunchFailed { error } => {
            let reason = joined("Sandbox execution error: ", error.as_str());
            sandbox_reject(reason, String::new())
        },
        RunOutcome::SpawnFailed { error } => {
            let mut warning = joined("Sandbox engine could not be started: ", error.as_str());
            warning.append(". Failing open without a sandbox dry run.");
            ValidateVerdict::ApprovedFailOpen { warning }
        },
        RunOutcome::TimedOut => {
            let mut warning = joined("Sandbox timed out after ", render_decimal(SANDBOX_TIMEOUT_SECS).as_str());
            warning.append(" seconds. Failing open without a sandbox verdict.");
            ValidateVerdict::ApprovedFailOpen { warning }
        },
    }
}


/// Podman is used whenever it answers; Docker only when Podman does not and
/// Docker does; without either the sandbox is unavailable.
pub proof fn law_engine_preference(podman_ok: bool, docker_ok: bool)
    ensures
        podman_ok ==> detected_engine(podman_ok, docker_ok).engine == "podman"@
            && detected_engine(podman_ok, docker_ok).available,
        !podman_ok && docker_ok ==> detected_engine(podman_ok, docker_ok).engine == "docker"@
            && detected_engine(podman_ok, docker_ok).available,
        !podman_ok && !docker_ok ==> !detected_engine(podman_ok, docker_ok).available,
{
}

/// A canonical working directory is refused exactly when it is the root or
/// starts with one of the sensitive system directories; a path that merely
/// contains such a name further in is not refused.
pub proof fn law_forbidden_mounts_are_root_or_system_prefixes(cwd: Seq<char>)
    ensures
        is_forbidden_mount(cwd) <==> (cwd == "/"@ || has_prefix(cwd, "/etc"@) || has_prefix(cwd, "/var/run"@)
            || has_prefix(cwd, "/root"@) || has_prefix(cwd, "/sys"@) || has_prefix(cwd, "/dev"@)
            || has_prefix(cwd, "/proc"@) || has_prefix(cwd, "/boot"@)),
{
    let ps = forbidden_prefixes();
    assert(ps[0] == "/etc"@);
    assert(ps[1] == "/var/run"@);
    assert(ps[2] == "/root"@);
    assert(ps[3] == "/sys"@);
    assert(ps[4] == "/dev"@);
    assert(ps[5] == "/proc"@);
    assert(ps[6] == "/boot"@);
}

/// With an engine, a resolved working directory that is neither the root nor
/// under a sensitive system directory, and a bash or script action, the
/// sandbox always plans a dry run: the engine runs the payload with `sh -c` in
/// an ephemeral, network-less container with the directory mounted read-only.
/// Under a forbidden directory it always refuses, naming the path.
pub proof fn law_plan_runs_exactly_outside_forbidden_mounts(
    sandbox: SandboxEvaluatorView,
    action_type: Seq<char>,
    payload: Seq<char>,
    cwd: Seq<char>,
)
    requires
        sandbox.available,
        action_type == "bash"@ || action_type == "script"@,
    ensures
        !(cwd == "/"@ || has_prefix(cwd, "/etc"@) || has_prefix(cwd, "/var/run"@) || has_prefix(cwd, "/root"@)
            || has_prefix(cwd, "/sys"@) || has_prefix(cwd, "/dev"@) || has_prefix(cwd, "/proc"@)
            || has_prefix(cwd, "/boot"@)) ==> planned_step(sandbox, action_type, payload, Some(cwd)) == Ok::<
            SandboxStepView,
            SandboxError,
        >(
            SandboxStepView::Run(
                ContainerRunView {
                    program: sandbox.engine,
                    args: seq![
                        "run"@,
                        "--rm"@,
                        "--network=none"@,
                        "-v="@ + cwd + ":/workspace:ro"@,
                        "--tmpfs=/tmp"@,
                        "-w=/workspace"@,
                        "alpine:latest"@,
                        "sh"@,
                        "-c"@,
                        payload,
                    ],
                    timeout_secs: 5,
                },
            ),
        ),
        (cwd == "/"@ || has_prefix(cwd, "/etc"@) || has_prefix(cwd, "/var/run"@) || has_prefix(cwd, "/root"@)
            || has_prefix(cwd, "/sys"@) || has_prefix(cwd, "/dev"@) || has_prefix(cwd, "/proc"@)
            || has_prefix(cwd, "/boot"@)) ==> planned_step(sandbox, action_type, payload, Some(cwd)) == Ok::<
            SandboxStepView,
            SandboxError,
        >(
            SandboxStepView::Verdict(
                VerdictView::DeterministicReject {
                    reasons: seq!["Security violation: Attempted to mount forbidden host path "@ + cwd],
                    constraints: seq!["Never attempt to interact with or mount sensitive host system paths."@],
                },
            ),
        ),
{
    law_forbidden_mounts_are_root_or_system_prefixes(cwd);
}

/// Only the exit status decides a finished run: a successful run passes,
/// whatever it wrote to either stream, with a note of its duration; a failed
/// run is rejected with its exit code, whatever it wrote.
pub proof fn law_exit_status_decides(
    exit_code: Option<i32>,
    stdout: Seq<char>,
    stderr: Seq<char>,
    duration_ms: u64,
)
    ensures
        run_verdict(
            RunOutcomeView::Exited { success: true, exit_code, stdout, stderr },
            duration_ms,
        ) == (VerdictView::SandboxPassLowFidelity {
            notes: seq!["Execution succeeded in "@ + decimal(duration_ms as nat) + "ms"@],
        }),
        run_verdict(
            RunOutcomeView::Exited { success: false, exit_code, stdout, stderr },
            duration_ms,
        ) matches VerdictView::SandboxReject { reasons, .. } && reasons == seq![
            "Sandbox returned exit code: "@ + exit_code_text(exit_code),
        ],
{
}

} // verus!
