use neurocortex::guard::{has_secrets, ChurnTracker, GuardAction, GuardEvent, GuardPhase, GuardSession};
use neurocortex::models::{BehavioralRule, ValidateRequest, ValidateResponse, ValidateVerdict};

fn request(action_type: &str, payload: &str) -> ValidateRequest {
    ValidateRequest {
        action_type: action_type.into(),
        payload: payload.into(),
        orchestrator_id: "orch".into(),
        trace_id: "trace-7".into(),
    }
}

fn rule(id: &str, text: &str) -> BehavioralRule {
    BehavioralRule {
        id: id.into(),
        version: 1,
        rule_class: "general".into(),
        trigger_pattern: "*".into(),
        constraint_text: text.into(),
        hit_count: 0,
        status: "active".into(),
    }
}

fn respond(action: GuardAction) -> ValidateResponse {
    match action {
        GuardAction::Respond(r) => r,
        _ => panic!("expected a response"),
    }
}

#[test]
fn churn_tracker_counts_per_payload() {
    let mut t = ChurnTracker::new();
    assert_eq!(t.attempts("ls"), 0);
    assert_eq!(t.record_attempt("ls"), 1);
    assert_eq!(t.record_attempt("ls"), 2);
    assert_eq!(t.record_attempt("pwd"), 1);
    assert_eq!(t.record_attempt("ls"), 3);
    assert_eq!(t.attempts("ls"), 3);
    assert_eq!(t.attempts("pwd"), 1);
    assert_eq!(t.attempts("cat"), 0);
}

#[test]
fn fourth_identical_submission_fails_open() {
    let mut t = ChurnTracker::new();
    let mut last = 0;
    for _ in 0..4 {
        last = t.record_attempt("rm -rf build");
    }
    assert_eq!(last, 4);
    let (session, action) = GuardSession::start(request("bash", "rm -rf build"), last);
    assert_eq!(session.phase(), GuardPhase::AwaitingSandbox);
    match action {
        GuardAction::RunSandbox { action_type, payload } => {
            assert_eq!(action_type, "bash");
            assert_eq!(payload, "rm -rf build");
        }
        _ => panic!("expected a dry run"),
    }
    // a passing dry run answers with the sandbox verdict itself
    let (session, action) = session.step(GuardEvent::SandboxEvaluated(ValidateVerdict::SandboxPassLowFidelity {
        notes: vec!["Execution succeeded in 3ms".into()],
    }));
    assert_eq!(session.phase(), GuardPhase::Finished);
    let r = respond(action);
    assert_eq!(r.trace_id, "trace-7");
    assert!(r.rule_ids_triggered.is_empty());
    assert!(matches!(r.verdict, ValidateVerdict::SandboxPassLowFidelity { .. }));
}

#[test]
fn churned_rejection_has_no_constraints() {
    let (session, _) = GuardSession::start(request("bash", "ls"), 9);
    let (_, action) = session.step(GuardEvent::SandboxEvaluated(ValidateVerdict::SandboxReject {
        reasons: vec!["Sandbox timed out".into()],
        logs: String::new(),
        constraints: vec!["ignored".into()],
    }));
    match respond(action).verdict {
        ValidateVerdict::SandboxReject { reasons, constraints, .. } => {
            assert_eq!(reasons, vec!["Sandbox timed out".to_string()]);
            assert!(constraints.is_empty());
        }
        _ => panic!("expected a rejection"),
    }
}

#[test]
fn churn_warning_names_attempts() {
    let (session, _) = GuardSession::start(request("bash", "ls"), 4);
    let (_, action) = session.step(GuardEvent::SandboxEvaluated(ValidateVerdict::ApprovedFailOpen {
        warning: "kept".into(),
    }));
    match respond(action).verdict {
        ValidateVerdict::ApprovedFailOpen { warning } => assert_eq!(warning, "kept"),
        _ => panic!("expected the sandbox verdict"),
    }
}

#[test]
fn every_secret_marker_is_detected() {
    for p in ["sk-ant-", "sk-proj-", "ghp_", "xoxb-", "Bearer eyJ", "AKIA"] {
        assert!(has_secrets(&format!("curl -H '{}abc' x", p)));
    }
    assert!(!has_secrets("curl -H 'Bearer abc' x"));
    assert!(!has_secrets(""));
}

#[test]
fn secret_payload_is_rejected_at_once() {
    let (session, action) = GuardSession::start(request("bash", "export K=ghp_abcdef"), 1);
    assert_eq!(session.phase(), GuardPhase::Finished);
    let r = respond(action);
    assert_eq!(r.trace_id, "trace-7");
    assert!(r.rule_ids_triggered.is_empty());
    match r.verdict {
        ValidateVerdict::DeterministicReject { reasons, constraints } => {
            assert_eq!(reasons, vec!["Active Secret Scrubbing (LLM06): High-entropy secret detected in payload. Redaction Loop triggered.".to_string()]);
            assert_eq!(constraints, vec!["Never include raw API keys, passwords, or JWTs in tool payloads. Use environment variables instead.".to_string()]);
        }
        _ => panic!("expected a rejection"),
    }
}

#[test]
fn secret_past_churn_limit_fails_open() {
    let (_, action) = GuardSession::start(request("bash", "export K=ghp_abcdef"), 4);
    assert!(matches!(action, GuardAction::RunSandbox { .. }));
}

fn through_intent(semantic: Option<ValidateVerdict>) -> (GuardSession, GuardAction) {
    let (session, action) = GuardSession::start(request("bash", "make test"), 1);
    match action {
        GuardAction::MatchConstraints { payload } => assert_eq!(payload, "make test"),
        _ => panic!("expected rule matching first"),
    }
    let event = GuardEvent::ConstraintsMatched(Some(vec![rule("r1", "Run tests in CI."), rule("r2", "No sudo.")]));
    assert!(session.awaits(&event));
    let (session, action) = session.step(event);
    match action {
        GuardAction::EvaluateIntent { payload, user_intent } => {
            assert_eq!(payload, "make test");
            assert_eq!(user_intent, "Unknown Intent");
        }
        _ => panic!("expected the semantic check"),
    }
    session.step(GuardEvent::IntentEvaluated(semantic))
}

#[test]
fn semantic_rejection_carries_matched_constraints() {
    let (session, action) = through_intent(Some(ValidateVerdict::DeterministicReject {
        reasons: vec!["Semantic mismatch: no".into()],
        constraints: vec![],
    }));
    assert_eq!(session.phase(), GuardPhase::Finished);
    let r = respond(action);
    assert_eq!(r.rule_ids_triggered, vec!["r1".to_string(), "r2".to_string()]);
    match r.verdict {
        ValidateVerdict::DeterministicReject { reasons, constraints } => {
            assert_eq!(reasons, vec!["Semantic mismatch: no".to_string()]);
            assert_eq!(constraints, vec!["Run tests in CI.".to_string(), "No sudo.".to_string()]);
        }
        _ => panic!("expected a rejection"),
    }
}

#[test]
fn approved_intent_is_dry_run_and_failure_carries_constraints() {
    let (session, action) = through_intent(Some(ValidateVerdict::SandboxPassHighFidelity {
        notes: vec!["Semantic intent aligned".into()],
    }));
    assert!(matches!(action, GuardAction::RunSandbox { .. }));
    let (_, action) = session.step(GuardEvent::SandboxEvaluated(ValidateVerdict::SandboxReject {
        reasons: vec!["Sandbox returned exit code: Some(2)".into()],
        logs: "STDOUT:\n\nSTDERR:\nboom".into(),
        constraints: vec![],
    }));
    let r = respond(action);
    assert_eq!(r.rule_ids_triggered, vec!["r1".to_string(), "r2".to_string()]);
    match r.verdict {
        ValidateVerdict::SandboxReject { reasons, logs, constraints } => {
            assert_eq!(reasons, vec!["Sandbox returned exit code: Some(2)".to_string()]);
            assert_eq!(logs, "STDOUT:\n\nSTDERR:\nboom");
            assert_eq!(constraints, vec!["Run tests in CI.".to_string(), "No sudo.".to_string()]);
        }
        _ => panic!("expected a rejection"),
    }
}

#[test]
fn failed_semantic_check_fails_open_into_dry_run() {
    let (session, action) = through_intent(None);
    assert!(matches!(action, GuardAction::RunSandbox { .. }));
    let event = GuardEvent::SandboxEvaluated(ValidateVerdict::SandboxPassLowFidelity { notes: vec![] });
    assert!(session.awaits(&event));
    let (_, action) = session.step(event);
    assert!(matches!(respond(action).verdict, ValidateVerdict::SandboxPassLowFidelity { .. }));
}

#[test]
fn failed_matching_gives_no_constraints() {
    let (session, _) = GuardSession::start(request("bash", "ls"), 2);
    let (session, _) = session.step(GuardEvent::ConstraintsMatched(None));
    let (_, action) = session.step(GuardEvent::IntentEvaluated(Some(ValidateVerdict::DeterministicReject {
        reasons: vec!["Semantic mismatch: x".into()],
        constraints: vec!["dropped".into()],
    })));
    let r = respond(action);
    assert!(r.rule_ids_triggered.is_empty());
    match r.verdict {
        ValidateVerdict::DeterministicReject { constraints, .. } => assert!(constraints.is_empty()),
        _ => panic!("expected a rejection"),
    }
}

#[test]
fn session_only_awaits_its_event() {
    let (session, _) = GuardSession::start(request("bash", "ls"), 1);
    assert!(session.awaits(&GuardEvent::ConstraintsMatched(None)));
    assert!(!session.awaits(&GuardEvent::IntentEvaluated(None)));
    assert!(!session.awaits(&GuardEvent::SandboxEvaluated(ValidateVerdict::ApprovedFailOpen {
        warning: String::new()
    })));
}
