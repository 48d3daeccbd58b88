use neurocortex::protocol::{
    learn_behavioral_rule, learned_rule_with_id, route_line, route_request, sync_reply, McpRoute,
};

#[test]
fn routes_tool_calls() {
    assert_eq!(route_request("tools/call", "local_guard_validate"), McpRoute::Validate);
    assert_eq!(route_request("tools/call", "learn_behavioral_rule"), McpRoute::LearnRule);
    assert_eq!(route_request("tools/call", "other"), McpRoute::Ignore);
    assert_eq!(route_request("initialize", ""), McpRoute::Initialize);
    assert_eq!(route_request("tools/list", ""), McpRoute::ListTools);
    assert_eq!(route_request("", "local_guard_validate"), McpRoute::Ignore);
    assert_eq!(route_request("notifications/initialized", ""), McpRoute::Ignore);
}

#[test]
fn learned_rule_defaults() {
    let r = learned_rule_with_id("id-1".into(), None, None, None);
    assert_eq!(r.id, "id-1");
    assert_eq!(r.version, 1);
    assert_eq!(r.rule_class, "general");
    assert_eq!(r.trigger_pattern, "*");
    assert_eq!(r.constraint_text, "");
    assert_eq!(r.hit_count, 0);
    assert_eq!(r.status, "active");
}

#[test]
fn learned_rule_keeps_arguments() {
    let r = learned_rule_with_id("x".into(), Some("safety".into()), Some("rm".into()), Some("No rm.".into()));
    assert_eq!(r.rule_class, "safety");
    assert_eq!(r.trigger_pattern, "rm");
    assert_eq!(r.constraint_text, "No rm.");
}

#[test]
fn learned_rules_get_fresh_uuid_v4_ids() {
    let a = learn_behavioral_rule(None, Some("curl".into()), Some("No network.".into()));
    let b = learn_behavioral_rule(None, None, None);
    assert_ne!(a.id, b.id);
    for id in [&a.id, &b.id] {
        let c: Vec<char> = id.chars().collect();
        assert_eq!(c.len(), 36);
        for (i, ch) in c.iter().enumerate() {
            if [8, 13, 18, 23].contains(&i) {
                assert_eq!(*ch, '-');
            } else {
                assert!(ch.is_ascii_hexdigit() && !ch.is_ascii_uppercase());
            }
        }
        assert_eq!(c[14], '4');
        assert!(['8', '9', 'a', 'b'].contains(&c[19]));
    }
    assert_eq!(a.trigger_pattern, "curl");
    assert_eq!(a.constraint_text, "No network.");
    assert_eq!(a.rule_class, "general");
}

#[test]
fn sync_replies() {
    assert_eq!(
        sync_reply(Ok(())),
        "Successfully synchronized new behavioral rule to NeuroCortex local LanceDB."
    );
    assert_eq!(sync_reply(Err("disk full".into())), "Failed to sync rule: disk full");
}

#[test]
fn route_line_reads_validate_request() {
    let line = r#"{"jsonrpc":"2.0","id":7,"method":"tools/call","params":{"name":"local_guard_validate","arguments":{"action_type":"bash","payload":"ls"}}}"#;
    let (route, f) = route_line(&format!("{}\n", line)).expect("a JSON line");
    assert_eq!(route, McpRoute::Validate);
    assert_eq!(f.method.as_deref(), Some("tools/call"));
    assert_eq!(f.tool_name.as_deref(), Some("local_guard_validate"));
    assert_eq!(f.id_json, "7");
    assert_eq!(f.arguments_json.as_deref(), Some(r#"{"action_type":"bash","payload":"ls"}"#));
    assert_eq!(f.rule_class, None);
}

#[test]
fn route_line_reads_rule_arguments() {
    let line = r#"{"id":"a","method":"tools/call","params":{"name":"learn_behavioral_rule","arguments":{"rule_class":"safety","trigger_pattern":"rm","constraint_text":"No rm.","extra":1}}}"#;
    let (route, f) = route_line(line).expect("a JSON line");
    assert_eq!(route, McpRoute::LearnRule);
    assert_eq!(f.id_json, "\"a\"");
    assert_eq!(f.rule_class.as_deref(), Some("safety"));
    assert_eq!(f.trigger_pattern.as_deref(), Some("rm"));
    assert_eq!(f.constraint_text.as_deref(), Some("No rm."));
}

#[test]
fn route_line_handles_other_requests() {
    let (route, f) = route_line(r#"{"id":1,"method":"initialize"}"#).expect("a JSON line");
    assert_eq!(route, McpRoute::Initialize);
    assert_eq!(f.tool_name, None);
    assert_eq!(f.arguments_json, None);
    let (route, _) = route_line(r#"{"id":2,"method":"tools/list","params":{}}"#).expect("a JSON line");
    assert_eq!(route, McpRoute::ListTools);
    let (route, f) = route_line(r#"{"method":"tools/call","params":{"name":5,"arguments":{"rule_class":3}}}"#)
        .expect("a JSON line");
    assert_eq!(route, McpRoute::Ignore);
    assert_eq!(f.id_json, "null");
    assert_eq!(f.rule_class, None);
    let (route, _) = route_line("[1, 2]").expect("a JSON line");
    assert_eq!(route, McpRoute::Ignore);
}

#[test]
fn route_line_skips_non_json() {
    assert!(route_line("not json").is_none());
    assert!(route_line("").is_none());
}
