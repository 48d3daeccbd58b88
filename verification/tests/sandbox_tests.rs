use neurocortex::models::ValidateVerdict;
use neurocortex::sandbox::{run_verdict_of, RunOutcome, SandboxError, SandboxEvaluator, SandboxStep};

#[test]
fn engine_prefers_podman() {
    let s = SandboxEvaluator::new(true, true);
    assert_eq!(s.engine(), "podman");
    assert!(s.available());
}

#[test]
fn engine_falls_back_to_docker() {
    let s = SandboxEvaluator::new(false, true);
    assert_eq!(s.engine(), "docker");
    assert!(s.available());
}

#[test]
fn engine_missing() {
    let s = SandboxEvaluator::new(false, false);
    assert_eq!(s.engine(), "none");
    assert!(!s.available());
}

fn rejection(step: Result<SandboxStep, SandboxError>) -> (Vec<String>, Vec<String>) {
    match step {
        Ok(SandboxStep::Verdict(ValidateVerdict::DeterministicReject { reasons, constraints })) => {
            (reasons, constraints)
        }
        _ => panic!("expected a deterministic rejection"),
    }
}

#[test]
fn unavailable_engine_fails_open_with_install_guidance() {
    let s = SandboxEvaluator::new(false, false);
    for cwd in [Some("/home/u"), Some("/etc"), None] {
        match s.evaluate("bash", "ls", cwd) {
            Ok(SandboxStep::Verdict(ValidateVerdict::ApprovedFailOpen { warning })) => {
                assert_eq!(warning, "No container engine (Podman/Docker) available. Failing open without a sandbox dry run. Install Podman, the recommended rootless engine, to enable full security: https://podman.io/docs/installation (for example `sudo apt-get install podman`, `sudo dnf install podman` or `brew install podman`).");
            }
            _ => panic!("expected a fail-open approval"),
        }
    }
}

#[test]
fn unresolved_cwd_is_an_error() {
    let s = SandboxEvaluator::new(true, false);
    assert!(matches!(s.evaluate("bash", "ls", None), Err(SandboxError::InvalidCwd)));
}

#[test]
fn forbidden_paths_are_never_mounted() {
    let s = SandboxEvaluator::new(true, false);
    for cwd in ["/", "/etc", "/etc/nginx", "/var/run/x", "/root", "/sys/kernel", "/dev", "/proc/1", "/boot", "/etcetera"] {
        let (reasons, constraints) = rejection(s.evaluate("bash", "ls", Some(cwd)));
        assert_eq!(
            reasons,
            vec![format!("Security violation: Attempted to mount forbidden host path {}", cwd)]
        );
        assert_eq!(
            constraints,
            vec!["Never attempt to interact with or mount sensitive host system paths.".to_string()]
        );
    }
}

#[test]
fn unsupported_action_type_rejects() {
    let s = SandboxEvaluator::new(true, false);
    let (reasons, constraints) = rejection(s.evaluate("write_file", "x", Some("/home/u/p")));
    assert_eq!(reasons, vec!["Sandbox evaluation not supported for action_type: write_file".to_string()]);
    assert!(constraints.is_empty());
}

#[test]
fn bash_action_runs_in_isolated_container() {
    let s = SandboxEvaluator::new(false, true);
    for action in ["bash", "script"] {
        match s.evaluate(action, "echo hi", Some("/home/u/project")) {
            Ok(SandboxStep::Run(run)) => {
                assert_eq!(run.program, "docker");
                assert_eq!(run.timeout_secs, 5);
                assert_eq!(
                    run.args,
                    vec![
                        "run", "--rm", "--network=none", "-v=/home/u/project:/workspace:ro",
                        "--tmpfs=/tmp", "-w=/workspace", "alpine:latest", "sh", "-c", "echo hi",
                    ]
                );
            }
            _ => panic!("expected a dry run"),
        }
    }
}

#[test]
fn successful_run_passes_with_duration() {
    let v = run_verdict_of(
        RunOutcome::Exited { success: true, exit_code: Some(0), stdout: "ok".into(), stderr: String::new() },
        42,
    );
    match v {
        ValidateVerdict::SandboxPassLowFidelity { notes } => {
            assert_eq!(notes, vec!["Execution succeeded in 42ms".to_string()])
        }
        _ => panic!("expected a pass"),
    }
}

#[test]
fn failed_run_rejects_with_code_and_logs() {
    let v = run_verdict_of(
        RunOutcome::Exited {
            success: false,
            exit_code: Some(2),
            stdout: "out".into(),
            stderr: "sh: syntax error".into(),
        },
        10,
    );
    match v {
        ValidateVerdict::SandboxReject { reasons, logs, constraints } => {
            assert_eq!(reasons, vec!["Sandbox returned exit code: Some(2)".to_string()]);
            assert_eq!(logs, "STDOUT:\nout\nSTDERR:\nsh: syntax error");
            assert!(constraints.is_empty());
        }
        _ => panic!("expected a rejection"),
    }
}

#[test]
fn killed_run_has_no_exit_code() {
    let v = run_verdict_of(
        RunOutcome::Exited { success: false, exit_code: None, stdout: String::new(), stderr: String::new() },
        10,
    );
    match v {
        ValidateVerdict::SandboxReject { reasons, logs, .. } => {
            assert_eq!(reasons, vec!["Sandbox returned exit code: None".to_string()]);
            assert_eq!(logs, "STDOUT:\n\nSTDERR:\n");
        }
        _ => panic!("expected a rejection"),
    }
}

#[test]
fn negative_exit_code_is_written_with_sign() {
    let v = run_verdict_of(
        RunOutcome::Exited { success: false, exit_code: Some(-1), stdout: String::new(), stderr: String::new() },
        0,
    );
    match v {
        ValidateVerdict::SandboxReject { reasons, .. } => {
            assert_eq!(reasons, vec!["Sandbox returned exit code: Some(-1)".to_string()])
        }
        _ => panic!("expected a rejection"),
    }
}

#[test]
fn failed_run_logs_are_truncated() {
    let stderr = format!("{}{}", "e".repeat(600), "z".repeat(500));
    let v = run_verdict_of(
        RunOutcome::Exited { success: false, exit_code: Some(1), stdout: String::new(), stderr },
        0,
    );
    match v {
        ValidateVerdict::SandboxReject { logs, .. } => {
            assert_eq!(
                logs,
                format!("STDOUT:\n\nSTDERR:\n...[TRUNCATED 600 chars]...\n{}", "z".repeat(500))
            );
        }
        _ => panic!("expected a rejection"),
    }
}

#[test]
fn launch_failure_rejects() {
    let v = run_verdict_of(RunOutcome::LaunchFailed { error: "broken pipe".into() }, 0);
    match v {
        ValidateVerdict::SandboxReject { reasons, logs, constraints } => {
            assert_eq!(reasons, vec!["Sandbox execution error: broken pipe".to_string()]);
            assert_eq!(logs, "");
            assert!(constraints.is_empty());
        }
        _ => panic!("expected a rejection"),
    }
}

#[test]
fn timeout_fails_open() {
    match run_verdict_of(RunOutcome::TimedOut, 5000) {
        ValidateVerdict::ApprovedFailOpen { warning } => {
            assert_eq!(warning, "Sandbox timed out after 5 seconds. Failing open without a sandbox verdict.");
        }
        _ => panic!("expected a fail-open approval"),
    }
}

#[test]
fn engine_that_cannot_start_fails_open() {
    match run_verdict_of(RunOutcome::SpawnFailed { error: "No such file or directory".into() }, 0) {
        ValidateVerdict::ApprovedFailOpen { warning } => {
            assert_eq!(
                warning,
                "Sandbox engine could not be started: No such file or directory. Failing open without a sandbox dry run."
            );
        }
        _ => panic!("expected a fail-open approval"),
    }
}
