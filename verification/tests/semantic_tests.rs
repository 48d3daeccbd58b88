use neurocortex::models::{BehavioralRule, ValidateVerdict};
use neurocortex::semantic::{
    choose_embedders, default_embedder_list, embedders_config_subdir, embedding_text,
    reply_verdict_of, rules_table, upsert_filter, model_cache_subdir, AcceptableEmbedder, IntentReply,
    SemanticEvaluator, MATCH_LIMIT,
};

fn names(v: &[AcceptableEmbedder]) -> Vec<(String, usize)> {
    v.iter().map(|e| (e.model_name.clone(), e.dimensions)).collect()
}

#[test]
fn defaults_are_nomic_then_bge() {
    assert_eq!(
        names(&default_embedder_list()),
        vec![("NomicEmbedTextV15".to_string(), 768), ("BGEBaseENV15".to_string(), 768)]
    );
}

#[test]
fn missing_config_uses_and_persists_defaults() {
    let c = choose_embedders(None);
    assert!(c.persist_defaults);
    assert_eq!(names(&c.embedders), names(&default_embedder_list()));
}

#[test]
fn empty_config_uses_defaults() {
    let c = choose_embedders(Some(vec![]));
    assert!(c.persist_defaults);
    assert_eq!(c.embedders.len(), 2);
}

#[test]
fn configured_list_is_kept() {
    let list = vec![AcceptableEmbedder { model_name: "AllMiniLML6V2".into(), dimensions: 384 }];
    let c = choose_embedders(Some(list));
    assert!(!c.persist_defaults);
    assert_eq!(names(&c.embedders), vec![("AllMiniLML6V2".to_string(), 384)]);
}

#[test]
fn config_dir_depends_on_home() {
    assert_eq!(embedders_config_subdir(true), ".config/neurostrata");
    assert_eq!(embedders_config_subdir(false), ".neurostrata");
}

#[test]
fn model_cache_is_the_shared_neuro_cache() {
    assert_eq!(model_cache_subdir(), ".cache/neuro/models/fastembed");
}

fn rule() -> BehavioralRule {
    BehavioralRule {
        id: "r1".into(),
        version: 1,
        rule_class: "general".into(),
        trigger_pattern: "rm -rf".into(),
        constraint_text: "Never delete the repository.".into(),
        hit_count: 0,
        status: "active".into(),
    }
}

#[test]
fn embedding_text_joins_trigger_and_constraint() {
    assert_eq!(embedding_text(&rule()), "rm -rf Never delete the repository.");
}

#[test]
fn upsert_filter_quotes_id() {
    assert_eq!(upsert_filter("r1"), "id = 'r1'");
}

#[test]
fn store_names() {
    assert_eq!(rules_table(), "behavioral_rules");
    assert_eq!(MATCH_LIMIT, 3);
}

fn high(v: ValidateVerdict) -> Vec<String> {
    match v {
        ValidateVerdict::SandboxPassHighFidelity { notes } => notes,
        other => panic!("expected a high-fidelity pass, got {:?}", other),
    }
}

fn mismatch(v: ValidateVerdict) -> Vec<String> {
    match v {
        ValidateVerdict::DeterministicReject { reasons, constraints } => {
            assert!(constraints.is_empty());
            reasons
        }
        other => panic!("expected a rejection, got {:?}", other),
    }
}

fn fail_open(v: ValidateVerdict) -> String {
    match v {
        ValidateVerdict::ApprovedFailOpen { warning } => warning,
        other => panic!("expected a fail-open, got {:?}", other),
    }
}

fn evaluator() -> SemanticEvaluator {
    SemanticEvaluator::new(".neurostrata".to_string(), &default_embedder_list())
}

#[test]
fn evaluator_uses_first_acceptable_model() {
    let e = evaluator();
    assert_eq!(e.db_uri(), ".neurostrata");
    assert_eq!(e.model_name(), "NomicEmbedTextV15");
    assert_eq!(e.dimensions(), 768);
    let list = vec![
        AcceptableEmbedder { model_name: "AllMiniLML6V2".into(), dimensions: 384 },
        AcceptableEmbedder { model_name: "BGEBaseENV15".into(), dimensions: 768 },
    ];
    let e = SemanticEvaluator::new("db".to_string(), &list);
    assert_eq!(e.model_name(), "AllMiniLML6V2");
    assert_eq!(e.dimensions(), 384);
}

#[test]
fn approved_reply_passes() {
    let v = evaluator().evaluate_intent(Ok(r#"{"approved": true, "reason": "fine"}"#.to_string()));
    assert_eq!(high(v), vec!["Semantic intent aligned".to_string()]);
}

#[test]
fn rejected_reply_reports_reason() {
    let v = evaluator().evaluate_intent(Ok(r#"{"approved": false, "reason": "deletes files"}"#.to_string()));
    assert_eq!(mismatch(v), vec!["Semantic mismatch: deletes files".to_string()]);
}

#[test]
fn non_boolean_approval_is_a_mismatch() {
    let v = evaluator().evaluate_intent(Ok(r#"{"approved": "yes"}"#.to_string()));
    assert_eq!(mismatch(v), vec!["Semantic mismatch: ".to_string()]);
    let v = evaluator().evaluate_intent(Ok("[1, 2]".to_string()));
    assert_eq!(mismatch(v), vec!["Semantic mismatch: ".to_string()]);
}

#[test]
fn unparseable_reply_fails_open() {
    let v = evaluator().evaluate_intent(Ok("approved: yes".to_string()));
    assert_eq!(fail_open(v), "Semantic validation API error: invalid format returned");
}

#[test]
fn model_failure_fails_open() {
    let v = evaluator().evaluate_intent(Err("model missing".to_string()));
    assert_eq!(fail_open(v), "Semantic validation unavailable. Failing open.");
}

#[test]
fn reply_verdict_reads_fields() {
    let v = reply_verdict_of(Some(IntentReply { approved: Some(true), reason: None }));
    assert_eq!(high(v).len(), 1);
    let v = reply_verdict_of(Some(IntentReply { approved: None, reason: Some("why".into()) }));
    assert_eq!(mismatch(v), vec!["Semantic mismatch: why".to_string()]);
    let v = reply_verdict_of(None);
    assert_eq!(fail_open(v), "Semantic validation API error: invalid format returned");
}
