//! The MCP tool surface of the guard: routing of requests, the rules it learns,
//! and its replies to rule synchronisation.
use vstd::prelude::*;
use vstd::string::*;

use crate::models::{BehavioralRule, BehavioralRuleView};
use crate::text::{joined, str_eq};

verus! {

/// What the server does with an incoming JSON-RPC request.
#[derive(Clone, Copy, PartialEq, Eq, Structural, Debug)]
pub enum McpRoute {
    /// `tools/call` of `local_guard_validate`.
    Validate,
    /// `tools/call` of `learn_behavioral_rule`.
    LearnRule,
    /// `initialize`.
    Initialize,
    /// `tools/list`.
    ListTools,
    /// Anything else, which gets no reply.
    Ignore,
}

/// The route of a request with the given method and tool name (each empty when absent).
pub open spec fn route_of(method: Seq<char>, tool_name: Seq<char>) -> McpRoute {
    if method == "tools/call"@ {
        if tool_name == "local_guard_validate"@ {
            McpRoute::Validate
        } else if tool_name == "learn_behavioral_rule"@ {
            McpRoute::LearnRule
        } else {
            McpRoute::Ignore
        }
    } else if method == "initialize"@ {
        McpRoute::Initialize
    } else if method == "tools/list"@ {
        McpRoute::ListTools
    } else {
        McpRoute::Ignore
    }
}

pub open spec fn text_or(v: Option<Seq<char>>, default: Seq<char>) -> Seq<char> {
    match v {
        Some(t) => t,
        None => default,
    }
}

pub open spec fn opt_view(v: Option<String>) -> Option<Seq<char>> {
    match v {
        Some(s) => Some(s@),
        None => None,
    }
}

/// The parts of a JSON-RPC request line that the server reads. Each string
/// field is `None` when the member is absent or not a string.
pub struct RpcFields {
    /// `method`.
    pub method: Option<String>,
    /// `params.name`.
    pub tool_name: Option<String>,
    /// `id`, as JSON text (`null` when absent).
    pub id_json: String,
    /// `params.arguments`, as JSON text, `None` when absent.
    pub arguments_json: Option<String>,
    /// `params.arguments.rule_class`.
    pub rule_class: Option<String>,
    /// `params.arguments.trigger_pattern`.
    pub trigger_pattern: Option<String>,
    /// `params.arguments.constraint_text`.
    pub constraint_text: Option<String>,
}

pub struct RpcFieldsView {
    pub method: Option<Seq<char>>,
    pub tool_name: Option<Seq<char>>,
    pub id_json: Seq<char>,
    pub arguments_json: Option<Seq<char>>,
    pub rule_class: Option<Seq<char>>,
    pub trigger_pattern: Option<Seq<char>>,
    pub constraint_text: Option<Seq<char>>,
}

impl View for RpcFields {
    type V = RpcFieldsView;

    open spec fn view(&self) -> RpcFieldsView {
        RpcFieldsView {
            method: opt_view(self.method),
            tool_name: opt_view(self.tool_name),
            id_json: self.id_json@,
            arguments_json: opt_view(self.arguments_json),
            rule_class: opt_view(self.rule_class),
            trigger_pattern: opt_view(self.trigger_pattern),
            constraint_text: opt_view(self.constraint_text),
        }
    }
}

/// What `serde_json` reads from a request line: `None` when the line is not
/// JSON, and otherwise the members listed in `RpcFields`.
pub uninterp spec fn json_rpc_fields(line: Seq<char>) -> Option<RpcFieldsView>;

/// Parses `line` with `serde_json::from_str::<serde_json::Value>` and reads
/// `method`, `params.name`, `id`, `params.arguments` and the string members
/// `rule_class`, `trigger_pattern` and `constraint_text` of the arguments
/// (through `Index`, `get`, `as_str` and `to_string`). The contract only ties
/// the result to `line` through the name `json_rpc_fields`; what JSON
/// `serde_json` accepts is not stated.
#[verifier::external_body]
fn read_rpc_request(line: &str) -> (res: Option<RpcFields>)
    ensures
        match res {
            Some(f) => json_rpc_fields(line@) == Some(f@),
            None => json_rpc_fields(line@) is None,
        },
{
    let v = match serde_json::from_str::<serde_json::Value>(line) {
        Ok(v) => v,
        Err(_) => return None,
    };
    let args = &v["params"]["arguments"];
    Some(RpcFields {
        method: v["method"].as_str().map(String::from),
        tool_name: v["params"]["name"].as_str().map(String::from),
        id_json: v["id"].to_string(),
        arguments_json: v["params"].get("arguments").map(|a| a.to_string()),
        rule_class: args["rule_class"].as_str().map(String::from),
        trigger_pattern: args["trigger_pattern"].as_str().map(String::from),
        constraint_text: args["constraint_text"].as_str().map(String::from),
    })
}

/// Reads a request line and routes it: `None` when the line is not JSON (it
/// gets no reply); otherwise its route, by method and tool name (each empty when
/// absent), and the fields it was read into.
pub fn route_line(line: &str) -> (res: Option<(McpRoute, RpcFields)>)
    ensures
        match json_rpc_fields(line@) {
            None => res is None,
            Some(f) => res matches Some((r, g)) && g@ == f && r == route_of(
                text_or(f.method, ""@),
                text_or(f.tool_name, ""@),
            ),
        },
{
    match read_rpc_request(line) {
        None => None,
        Some(fields) => {
            let route = {
                let method: &str = match &fields.method {
                    Some(m) => m.as_str(),
                    None => "",
                };
                let tool_name: &str = match &fields.tool_name {
                    Some(t) => t.as_str(),
                    None => "",
                };
                route_request(method, tool_name)
            };
            Some((route, fields))
        },
    }
}

/// Routes a request by its method and tool name (each empty when absent).
pub fn route_request(method: &str, tool_name: &str) -> (res: McpRoute)
    ensures
        res == route_of(method@, tool_name@),
{
    if str_eq(method, "tools/call") {
        if str_eq(tool_name, "local_guard_validate") {
            McpRoute::Validate
        } else if str_eq(tool_name, "learn_behavioral_rule") {
            McpRoute::LearnRule
        } else {
            McpRoute::Ignore
        }
    } else if str_eq(method, "initialize") {
        McpRoute::Initialize
    } else if str_eq(method, "tools/list") {
        McpRoute::ListTools
    } else {
        McpRoute::Ignore
    }
}


/// A newly learned rule: version 1, never hit, active, of class "general" and
/// trigger "*" unless given, and with an empty constraint unless given.
pub open spec fn learned_rule(
    id: Seq<char>,
    rule_class: Option<Seq<char>>,
    trigger_pattern: Option<Seq<char>>,
    constraint_text: Option<Seq<char>>,
) -> BehavioralRuleView {
    BehavioralRuleView {
        id,
        version: 1,
        rule_class: text_or(rule_class, "general"@),
        trigger_pattern: text_or(trigger_pattern, "*"@),
        constraint_text: text_or(constraint_text, ""@),
        hit_count: 0,
        status: "active"@,
    }
}

fn string_or(v: Option<String>, default: &str) -> (res: String)
    ensures
        res@ == text_or(opt_view(v), default@),
{
    match v {
        Some(s) => s,
        None => default.to_owned(),
    }
}

/// The rule learned under `id` from the tool arguments (each `None` when absent
/// or not a string).
pub fn learned_rule_with_id(
    id: String,
    rule_class: Option<String>,
    trigger_pattern: Option<String>,
    constraint_text: Option<String>,
) -> (res: BehavioralRule)
    ensures
        res@ == learned_rule(id@, opt_view(rule_class), opt_view(trigger_pattern), opt_view(constraint_text)),
{
    BehavioralRule {
        id,
        version: 1,
        rule_class: string_or(rule_class, "general"),
        trigger_pattern: string_or(trigger_pattern, "*"),
        constraint_text: string_or(constraint_text, ""),
        hit_count: 0,
        status: "active".to_owned(),
    }
}

pub open spec fn is_lower_hex(c: char) -> bool {
    ('0' <= c && c <= '9') || ('a' <= c && c <= 'f')
}

/// The text of a random (version 4, RFC 4122 variant) UUID in lower-case
/// hyphenated form.
pub open spec fn is_uuid_v4_text(s: Seq<char>) -> bool {
    &&& s.len() == 36
    &&& forall|i: int|
        0 <= i < 36 ==> if i == 8 || i == 13 || i == 18 || i == 23 {
            s[i] == '-'
        } else {
            is_lower_hex(#[trigger] s[i])
        }
    &&& s[14] == '4'
    &&& (s[19] == '8' || s[19] == '9' || s[19] == 'a' || s[19] == 'b')
}

/// Calls `uuid::Uuid::new_v4` and renders it with `to_string`. The contract
/// states the shape that `new_v4` (version and variant bits fixed, the rest
/// random) and the hyphenated lower-case `Display` of `Uuid` give every
/// result; which random value comes back is not stated. `new_v4` panics when
/// the operating system's random source fails.
#[verifier::external_body]
fn new_rule_id() -> (res: String)
    ensures
        is_uuid_v4_text(res@),
{
    uuid::Uuid::new_v4().to_string()
}

/// A rule learned from the tool arguments, under a fresh random identifier.
pub fn learn_behavioral_rule(
    rule_class: Option<String>,
    trigger_pattern: Option<String>,
    constraint_text: Option<String>,
) -> (res: BehavioralRule)
    ensures
        is_uuid_v4_text(res@.id),
        res@ == learned_rule(res@.id, opt_view(rule_class), opt_view(trigger_pattern), opt_view(constraint_text)),
{
    let id = new_rule_id();
    learned_rule_with_id(id, rule_class, trigger_pattern, constraint_text)
}

/// The reply to a rule synchronisation: success, or the store's error message.
pub open spec fn sync_reply_text(result: Result<(), Seq<char>>) -> Seq<char> {
    match result {
        Ok(_) => "Successfully synchronized new behavioral rule to NeuroCortex local LanceDB."@,
        Err(e) => "Failed to sync rule: "@ + e,
    }
}

/// The reply to a rule synchronisation, given the store's error message on failure.
pub fn sync_reply(result: Result<(), String>) -> (res: String)
    ensures
        res@ == sync_reply_text(
            match result {
                Ok(_) => Ok(()),
                Err(e) => Err(e@),
            },
        ),
{
    match result {
        Ok(_) => "Successfully synchronized new behavioral rule to NeuroCortex local LanceDB.".to_owned(),
        Err(e) => joined("Failed to sync rule: ", e.as_str()),
    }
}

} // verus!
