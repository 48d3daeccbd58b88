//! The guard's decisions on a proposed action: how often the same payload was
//! already tried, whether it carries a secret, and the session that takes an
//! action through rule matching, the semantic check and the sandbox to a
//! response.
use vstd::prelude::*;
use vstd::string::*;

use crate::models::{
    clone_strings, strings_view, BehavioralRule, BehavioralRuleView, ValidateRequest,
    ValidateRequestView, ValidateResponse, ValidateResponseView, ValidateVerdict, VerdictView,
};
use crate::text::{chars_contain, chars_of, joined, decimal, has_substring, render_decimal, str_eq};

verus! {

struct ChurnEntry {
    payload: String,
    count: u32,
}

/// How many times each payload was submitted for validation.
///
/// The counts are kept as a list of distinct payloads with their counts rather
/// than in a `HashMap<String, u32>`: vstd specifies `HashMap` lookups only for
/// key types whose hashing and equality it models, which `String` is not, so
/// nothing could be proved of a count read back by payload. The list has a
/// `Map` view, and lookups compare payloads character by character.
pub struct ChurnTracker {
    entries: Vec<ChurnEntry>,
}

/// The count recorded for `payload` in `counts`, zero when it was never seen.
pub open spec fn attempts_of(counts: Map<Seq<char>, u32>, payload: Seq<char>) -> nat {
    if counts.contains_key(payload) {
        counts[payload] as nat
    } else {
        0
    }
}

impl ChurnTracker {
    #[verifier::type_invariant]
    closed spec fn distinct_payloads(self) -> bool {
        forall|i: int, j: int|
            0 <= i < j < self.entries.len() ==> self.entries@[i].payload@
                != self.entries@[j].payload@
    }

    closed spec fn holds(self, payload: Seq<char>) -> bool {
        exists|i: int| 0 <= i < self.entries.len() && self.entries@[i].payload@ == payload
    }

    closed spec fn slot(self, payload: Seq<char>) -> int {
        choose|i: int| 0 <= i < self.entries.len() && self.entries@[i].payload@ == payload
    }
}

impl View for ChurnTracker {
    type V = Map<Seq<char>, u32>;

    closed spec fn view(&self) -> Map<Seq<char>, u32> {
        Map::new(|k: Seq<char>| self.holds(k), |k: Seq<char>| self.entries@[self.slot(k)].count)
    }
}

impl ChurnTracker {
    /// A tracker that has seen no payload.
    pub fn new() -> (res: Self)
        ensures
            res@ == Map::<Seq<char>, u32>::empty(),
    {
        let res = ChurnTracker { entries: Vec::new() };
        assert(res@ =~= Map::<Seq<char>, u32>::empty());
        res
    }

    fn find(&self, payload: &str) -> (res: Option<usize>)
        ensures
            match res {
                Some(i) => i < self.entries.len() && self.entries@[i as int].payload@ == payload@,
                None => !self.holds(payload@),
            },
    {
        let mut i: usize = 0;
        while i < self.entries.len()
            invariant
                0 <= i <= self.entries.len(),
                forall|j: int| 0 <= j < i ==> self.entries@[j].payload@ != payload@,
            decreases self.entries.len() - i,
        {
            if str_eq(self.entries[i].payload.as_str(), payload) {
                return Some(i);
            }
            i = i + 1;
        }
        None
    }

    /// How many times `payload` was recorded.
    pub fn attempts(&self, payload: &str) -> (res: u32)
        ensures
            res == attempts_of(self@, payload@),
    {
        proof {
            use_type_invariant(self);
        }
        match self.find(payload) {
            Some(i) => {
                proof {
                    assert(self.holds(payload@));
                    let k = self.slot(payload@);
                    assert(k == i);
                }
                self.entries[i].count
            },
            None => 0,
        }
    }

    /// Records one more submission of `payload` and returns how many there were.
    pub fn record_attempt(&mut self, payload: &str) -> (res: u32)
        requires
            attempts_of(old(self)@, payload@) < u32::MAX,
        ensures
            res == attempts_of(old(self)@, payload@) + 1,
            final(self)@ == old(self)@.insert(payload@, res),
    {
        proof {
            use_type_invariant(&*self);
        }
        match self.find(payload) {
            Some(i) => {
                proof {
                    assert(self.holds(payload@));
                    assert(self.slot(payload@) == i);
                }
                let count = self.entries[i].count + 1;
                let ghost before = *self;
                let entry = ChurnEntry { payload: self.entries[i].payload.clone(), count };
                let mut entries: Vec<ChurnEntry> = Vec::new();
                std::mem::swap(&mut entries, &mut self.entries);
                entries.set(i, entry);
                proof {
                    assert forall|a: int, b: int| 0 <= a < b < entries.len() implies entries@[a].payload@
                        != entries@[b].payload@ by {
                        assert(before.entries@[a].payload@ == entries@[a].payload@);
                        assert(before.entries@[b].payload@ == entries@[b].payload@);
                    }
                }
                self.entries = entries;
                proof {
                    assert forall|k: Seq<char>| #[trigger] self.holds(k) == before.holds(k) by {
                        if before.holds(k) {
                            let j = before.slot(k);
                            assert(self.entries@[j].payload@ == k);
                        }
                        if self.holds(k) {
                            let j = self.slot(k);
                            assert(before.entries@[j].payload@ == k);
                        }
                    }
                    assert forall|k: Seq<char>| self.holds(k) implies self.entries@[self.slot(k)].count
                        == (if k == payload@ { count } else { before.entries@[before.slot(k)].count }) by {
                        let j = self.slot(k);
                        let jb = before.slot(k);
                        assert(before.entries@[jb].payload@ == k);
                        assert(self.entries@[j].payload@ == k);
                        if j != jb {
                            if j < jb {
                                assert(before.entries@[j].payload@ == self.entries@[j].payload@);
                            } else {
                                assert(before.entries@[j].payload@ == self.entries@[j].payload@);
                            }
                        }
                    }
                    assert(self@ =~= before@.insert(payload@, count));
                }
                count
            },
            None => {
                let ghost before = *self;
                let mut entries: Vec<ChurnEntry> = Vec::new();
                std::mem::swap(&mut entries, &mut self.entries);
                entries.push(ChurnEntry { payload: payload.to_owned(), count: 1 });
                proof {
                    let n = before.entries.len() as int;
                    assert forall|a: int, b: int| 0 <= a < b < entries.len() implies entries@[a].payload@
                        != entries@[b].payload@ by {
                        assert(before.entries@[a].payload@ == entries@[a].payload@);
                        if b < n {
                            assert(before.entries@[b].payload@ == entries@[b].payload@);
                        } else {
                            assert(!(before.entries@[a].payload@ == payload@));
                        }
                    }
                }
                self.entries = entries;
                proof {
                    let n = before.entries.len() as int;
                    assert(self.entries@[n].payload@ == payload@);
                    assert forall|k: Seq<char>| #[trigger] self.holds(k) == (before.holds(k) || k == payload@) by {
                        if before.holds(k) {
                            let j = before.slot(k);
                            assert(self.entries@[j].payload@ == k);
                        }
                        if self.holds(k) {
                            let j = self.slot(k);
                            if j < n {
                                assert(before.entries@[j].payload@ == k);
                            }
                        }
                    }
                    assert forall|k: Seq<char>| self.holds(k) implies self.entries@[self.slot(k)].count
                        == (if k == payload@ { 1u32 } else { before.entries@[before.slot(k)].count }) by {
                        let j = self.slot(k);
                        if k == payload@ {
                            if j < n {
                                assert(before.entries@[j].payload@ == payload@);
                                assert(before.holds(payload@));
                            }
                        } else {
                            let jb = before.slot(k);
                            assert(before.entries@[jb].payload@ == k);
                            assert(self.entries@[jb].payload@ == k);
                            if j != jb {
                                assert(self.entries@[j].payload@ == k);
                            }
                        }
                    }
                    assert(self@ =~= before@.insert(payload@, 1u32));
                }
                1
            },
        }
    }
}


/// Markers of credentials that must never travel in a tool payload.
pub open spec fn secret_markers() -> Seq<Seq<char>> {
    seq!["sk-ant-"@, "sk-proj-"@, "ghp_"@, "xoxb-"@, "Bearer eyJ"@, "AKIA"@]
}

/// The payload holds one of the credential markers.
pub open spec fn contains_secret(payload: Seq<char>) -> bool {
    exists|i: int| 0 <= i < secret_markers().len() && has_substring(payload, #[trigger] secret_markers()[i])
}

/// Whether the payload holds an API key, token or similar credential marker.
pub fn has_secrets(payload: &str) -> (res: bool)
    ensures
        res == contains_secret(payload@),
        res == (occurs_anywhere(payload@, "sk-ant-"@) || occurs_anywhere(payload@, "sk-proj-"@)
            || occurs_anywhere(payload@, "ghp_"@) || occurs_anywhere(payload@, "xoxb-"@)
            || occurs_anywhere(payload@, "Bearer eyJ"@) || occurs_anywhere(payload@, "AKIA"@)),
{
    proof {
        law_secret_scan_covers_whole_payload(payload@);
    }
    let hay = chars_of(payload);
    let markers: [&str; 6] = ["sk-ant-", "sk-proj-", "ghp_", "xoxb-", "Bearer eyJ", "AKIA"];
    assert(forall|k: int| 0 <= k < 6 ==> markers@[k]@ == secret_markers()[k]);
    let mut i: usize = 0;
    while i < 6
        invariant
            0 <= i <= 6,
            hay@ == payload@,
            forall|k: int| 0 <= k < 6 ==> markers@[k]@ == secret_markers()[k],
            forall|k: int| 0 <= k < i ==> !has_substring(payload@, #[trigger] secret_markers()[k]),
        decreases 6 - i,
    {
        if chars_contain(&hay, markers[i]) {
            assert(has_substring(payload@, secret_markers()[i as int]));
            return true;
        }
        i = i + 1;
    }
    false
}

/// The number of submissions of one payload after which the guard stops
/// re-validating it and fails open.
pub open spec fn churn_limit() -> nat {
    3
}

pub open spec fn churn_warning(attempts: nat) -> Seq<char> {
    "Churn limit reached ("@ + decimal(attempts)
        + " attempts for identical payload). Bypassing ReCognition sandbox to prevent orchestrator lockup."@
}

pub open spec fn secret_reason() -> Seq<char> {
    "Active Secret Scrubbing (LLM06): High-entropy secret detected in payload. Redaction Loop triggered."@
}

pub open spec fn secret_constraint() -> Seq<char> {
    "Never include raw API keys, passwords, or JWTs in tool payloads. Use environment variables instead."@
}

/// The rejection of a payload that carries a credential.
pub open spec fn secret_verdict() -> VerdictView {
    VerdictView::DeterministicReject { reasons: seq![secret_reason()], constraints: seq![secret_constraint()] }
}

/// The intent the semantic check is asked about.
pub open spec fn unknown_intent() -> Seq<char> {
    "Unknown Intent"@
}

/// Verdicts that still go through a sandbox dry run.
pub open spec fn needs_sandbox(v: VerdictView) -> bool {
    v is SandboxPassHighFidelity || v is ApprovedFailOpen
}

/// The semantic verdict, or a fail-open warning when the check itself failed.
pub open spec fn semantic_or_fail_open(v: Option<VerdictView>) -> VerdictView {
    match v {
        Some(v) => v,
        None => VerdictView::ApprovedFailOpen { warning: "Semantic failed"@ },
    }
}

/// A semantic rejection carries the constraints of the matched rules.
pub open spec fn with_semantic_constraints(v: VerdictView, constraints: Seq<Seq<char>>) -> VerdictView {
    match v {
        VerdictView::DeterministicReject { reasons, .. } => VerdictView::DeterministicReject {
            reasons,
            constraints,
        },
        other => other,
    }
}

/// A sandbox rejection carries the constraints of the matched rules.
pub open spec fn with_sandbox_constraints(v: VerdictView, constraints: Seq<Seq<char>>) -> VerdictView {
    match v {
        VerdictView::SandboxReject { reasons, logs, .. } => VerdictView::SandboxReject {
            reasons,
            logs,
            constraints,
        },
        other => other,
    }
}

/// The matched rules, none when matching failed.
pub open spec fn matched_or_none(rules: Option<Seq<BehavioralRuleView>>) -> Seq<BehavioralRuleView> {
    match rules {
        Some(r) => r,
        None => Seq::empty(),
    }
}

pub open spec fn rule_constraints(rules: Seq<BehavioralRuleView>) -> Seq<Seq<char>> {
    rules.map_values(|r: BehavioralRuleView| r.constraint_text)
}

pub open spec fn rule_ids(rules: Seq<BehavioralRuleView>) -> Seq<Seq<char>> {
    rules.map_values(|r: BehavioralRuleView| r.id)
}

/// The answer the guard gives to `req`, submitted for the `attempts`-th time,
/// when rule matching gives `matched` (`None`: it failed), the semantic check
/// gives `semantic` (`None`: it failed) and the dry run gives `sandbox`:
/// a payload past the churn limit fails open, one with a credential is
/// rejected, and otherwise the semantic verdict stands, with the matched
/// rules' constraints on a rejection; what still passes is dry-run, and a
/// failing dry run carries the same constraints.
pub open spec fn guard_response(
    req: ValidateRequestView,
    attempts: nat,
    matched: Option<Seq<BehavioralRuleView>>,
    semantic: Option<VerdictView>,
    sandbox: VerdictView,
) -> ValidateResponseView {
    let churned = attempts > churn_limit();
    let screened = !churned && !contains_secret(req.payload);
    let rules = matched_or_none(matched);
    let constraints = if screened { rule_constraints(rules) } else { Seq::empty() };
    let ids = if screened { rule_ids(rules) } else { Seq::empty() };
    let first = if churned {
        VerdictView::ApprovedFailOpen { warning: churn_warning(attempts) }
    } else if contains_secret(req.payload) {
        secret_verdict()
    } else {
        with_semantic_constraints(semantic_or_fail_open(semantic), constraints)
    };
    let verdict = if needs_sandbox(first) {
        with_sandbox_constraints(sandbox, constraints)
    } else {
        first
    };
    ValidateResponseView { trace_id: req.trace_id, verdict, rule_ids_triggered: ids }
}

/// Where a validation session stands.
#[derive(Clone, Copy, PartialEq, Eq, Structural, Debug)]
pub enum GuardPhase {
    AwaitingMatch,
    AwaitingIntent,
    AwaitingSandbox,
    Finished,
}

/// One action under validation, between the outside steps it waits on.
pub struct GuardSession {
    request: ValidateRequest,
    phase: GuardPhase,
    constraints: Vec<String>,
    rule_ids: Vec<String>,
    verdict: Option<ValidateVerdict>,
}

pub struct GuardSessionView {
    pub request: ValidateRequestView,
    pub phase: GuardPhase,
    pub constraints: Seq<Seq<char>>,
    pub rule_ids: Seq<Seq<char>>,
    pub verdict: Option<VerdictView>,
}

impl View for GuardSession {
    type V = GuardSessionView;

    closed spec fn view(&self) -> GuardSessionView {
        GuardSessionView {
            request: self.request@,
            phase: self.phase,
            constraints: strings_view(self.constraints@),
            rule_ids: strings_view(self.rule_ids@),
            verdict: match self.verdict {
                Some(v) => Some(v@),
                None => None,
            },
        }
    }
}

/// What the outside world reports back to a session.
pub enum GuardEvent {
    /// The nearest behavioral rules, `None` when matching failed.
    ConstraintsMatched(Option<Vec<BehavioralRule>>),
    /// The semantic verdict, `None` when the check failed.
    IntentEvaluated(Option<ValidateVerdict>),
    /// The verdict of the sandbox dry run.
    SandboxEvaluated(ValidateVerdict),
}

pub enum GuardEventView {
    ConstraintsMatched(Option<Seq<BehavioralRuleView>>),
    IntentEvaluated(Option<VerdictView>),
    SandboxEvaluated(VerdictView),
}

pub open spec fn rules_view(rules: Seq<BehavioralRule>) -> Seq<BehavioralRuleView> {
    rules.map_values(|r: BehavioralRule| r@)
}

impl View for GuardEvent {
    type V = GuardEventView;

    open spec fn view(&self) -> GuardEventView {
        match self {
            GuardEvent::ConstraintsMatched(r) => GuardEventView::ConstraintsMatched(
                match r {
                    Some(v) => Some(rules_view(v@)),
                    None => None,
                },
            ),
            GuardEvent::IntentEvaluated(v) => GuardEventView::IntentEvaluated(
                match v {
                    Some(v) => Some(v@),
                    None => None,
                },
            ),
            GuardEvent::SandboxEvaluated(v) => GuardEventView::SandboxEvaluated(v@),
        }
    }
}

/// What a session asks the outside world to do next.
pub enum GuardAction {
    /// Find the behavioral rules nearest to the payload.
    MatchConstraints { payload: String },
    /// Ask the local model whether the payload fits the intent.
    EvaluateIntent { payload: String, user_intent: String },
    /// Dry-run the action in the sandbox.
    RunSandbox { action_type: String, payload: String },
    /// Send this response; the session is over.
    Respond(ValidateResponse),
}

pub enum GuardActionView {
    MatchConstraints { payload: Seq<char> },
    EvaluateIntent { payload: Seq<char>, user_intent: Seq<char> },
    RunSandbox { action_type: Seq<char>, payload: Seq<char> },
    Respond(ValidateResponseView),
}

impl View for GuardAction {
    type V = GuardActionView;

    open spec fn view(&self) -> GuardActionView {
        match self {
            GuardAction::MatchConstraints { payload } => GuardActionView::MatchConstraints {
                payload: payload@,
            },
            GuardAction::EvaluateIntent { payload, user_intent } => GuardActionView::EvaluateIntent {
                payload: payload@,
                user_intent: user_intent@,
            },
            GuardAction::RunSandbox { action_type, payload } => GuardActionView::RunSandbox {
                action_type: action_type@,
                payload: payload@,
            },
            GuardAction::Respond(r) => GuardActionView::Respond(r@),
        }
    }
}

/// The session settles on `verdict`: it is dry-run when it still passes, and
/// answered otherwise.
pub open spec fn settle(
    req: ValidateRequestView,
    verdict: VerdictView,
    constraints: Seq<Seq<char>>,
    ids: Seq<Seq<char>>,
) -> (GuardSessionView, GuardActionView) {
    if needs_sandbox(verdict) {
        (
            GuardSessionView {
                request: req,
                phase: GuardPhase::AwaitingSandbox,
                constraints,
                rule_ids: ids,
                verdict: Some(verdict),
            },
            GuardActionView::RunSandbox { action_type: req.action_type, payload: req.payload },
        )
    } else {
        answer(req, verdict, constraints, ids)
    }
}

/// The session answers with `verdict`.
pub open spec fn answer(
    req: ValidateRequestView,
    verdict: VerdictView,
    constraints: Seq<Seq<char>>,
    ids: Seq<Seq<char>>,
) -> (GuardSessionView, GuardActionView) {
    (
        GuardSessionView {
            request: req,
            phase: GuardPhase::Finished,
            constraints,
            rule_ids: ids,
            verdict: None,
        },
        GuardActionView::Respond(
            ValidateResponseView { trace_id: req.trace_id, verdict, rule_ids_triggered: ids },
        ),
    )
}

/// How a session opens on the `attempts`-th submission of a request.
pub open spec fn guard_start(req: ValidateRequestView, attempts: nat) -> (GuardSessionView, GuardActionView) {
    if attempts > churn_limit() {
        settle(
            req,
            VerdictView::ApprovedFailOpen { warning: churn_warning(attempts) },
            Seq::empty(),
            Seq::empty(),
        )
    } else if contains_secret(req.payload) {
        answer(req, secret_verdict(), Seq::empty(), Seq::empty())
    } else {
        (
            GuardSessionView {
                request: req,
                phase: GuardPhase::AwaitingMatch,
                constraints: Seq::empty(),
                rule_ids: Seq::empty(),
                verdict: None,
            },
            GuardActionView::MatchConstraints { payload: req.payload },
        )
    }
}

/// The event is the one the session waits for.
pub open spec fn awaits(s: GuardSessionView, e: GuardEventView) -> bool {
    match e {
        GuardEventView::ConstraintsMatched(_) => s.phase == GuardPhase::AwaitingMatch,
        GuardEventView::IntentEvaluated(_) => s.phase == GuardPhase::AwaitingIntent,
        GuardEventView::SandboxEvaluated(_) => s.phase == GuardPhase::AwaitingSandbox,
    }
}

/// How a session moves on when the event it waits for arrives.
pub open spec fn guard_step(s: GuardSessionView, e: GuardEventView) -> (GuardSessionView, GuardActionView) {
    match e {
        GuardEventView::ConstraintsMatched(found) => {
            let rules = matched_or_none(found);
            (
                GuardSessionView {
                    request: s.request,
                    phase: GuardPhase::AwaitingIntent,
                    constraints: rule_constraints(rules),
                    rule_ids: rule_ids(rules),
                    verdict: None,
                },
                GuardActionView::EvaluateIntent { payload: s.request.payload, user_intent: unknown_intent() },
            )
        },
        GuardEventView::IntentEvaluated(v) => settle(
            s.request,
            with_semantic_constraints(semantic_or_fail_open(v), s.constraints),
            s.constraints,
            s.rule_ids,
        ),
        GuardEventView::SandboxEvaluated(v) => answer(
            s.request,
            with_sandbox_constraints(v, s.constraints),
            s.constraints,
            s.rule_ids,
        ),
    }
}


fn churn_warning_text(attempts: u32) -> (res: String)
    ensures
        res@ == churn_warning(attempts as nat),
{
    let mut s = joined("Churn limit reached (", render_decimal(attempts as u64).as_str());
    s.append(" attempts for identical payload). Bypassing ReCognition sandbox to prevent orchestrator lockup.");
    s
}

fn one_string(a: &str) -> (res: Vec<String>)
    ensures
        strings_view(res@) == seq![a@],
{
    let mut v: Vec<String> = Vec::new();
    v.push(a.to_owned());
    assert(strings_view(v@) =~= seq![a@]);
    v
}

fn no_strings() -> (res: Vec<String>)
    ensures
        strings_view(res@) == Seq::<Seq<char>>::empty(),
{
    let v: Vec<String> = Vec::new();
    assert(strings_view(v@) =~= Seq::<Seq<char>>::empty());
    v
}

fn secret_rejection() -> (res: ValidateVerdict)
    ensures
        res@ == secret_verdict(),
{
    ValidateVerdict::DeterministicReject {
        reasons: one_string("Active Secret Scrubbing (LLM06): High-entropy secret detected in payload. Redaction Loop triggered."),
        constraints: one_string("Never include raw API keys, passwords, or JWTs in tool payloads. Use environment variables instead."),
    }
}

fn constraints_and_ids(rules: &Vec<BehavioralRule>) -> (res: (Vec<String>, Vec<String>))
    ensures
        strings_view(res.0@) == rule_constraints(rules_view(rules@)),
        strings_view(res.1@) == rule_ids(rules_view(rules@)),
{
    let mut constraints: Vec<String> = Vec::new();
    let mut ids: Vec<String> = Vec::new();
    let mut i: usize = 0;
    while i < rules.len()
        invariant
            0 <= i <= rules.len(),
            strings_view(constraints@) == rule_constraints(rules_view(rules@.take(i as int))),
            strings_view(ids@) == rule_ids(rules_view(rules@.take(i as int))),
        decreases rules.len() - i,
    {
        let ghost c0 = constraints@;
        let ghost i0 = ids@;
        constraints.push(rules[i].constraint_text.clone());
        ids.push(rules[i].id.clone());
        proof {
            let t = rules@.take(i as int);
            let t1 = rules@.take(i + 1);
            assert(t1 =~= t.push(rules@[i as int]));
            assert(rules_view(t1) =~= rules_view(t).push(rules@[i as int]@));
            assert(strings_view(constraints@) =~= strings_view(c0).push(rules@[i as int]@.constraint_text));
            assert(strings_view(ids@) =~= strings_view(i0).push(rules@[i as int]@.id));
            assert(rule_constraints(rules_view(t1)) =~= rule_constraints(rules_view(t)).push(
                rules@[i as int]@.constraint_text,
            ));
            assert(rule_ids(rules_view(t1)) =~= rule_ids(rules_view(t)).push(rules@[i as int]@.id));
        }
        i = i + 1;
    }
    assert(rules@.take(rules.len() as int) =~= rules@);
    (constraints, ids)
}

fn attach_semantic_constraints(v: ValidateVerdict, constraints: &Vec<String>) -> (res: ValidateVerdict)
    ensures
        res@ == with_semantic_constraints(v@, strings_view(constraints@)),
{
    match v {
        ValidateVerdict::DeterministicReject { reasons, .. } => ValidateVerdict::DeterministicReject {
            reasons,
            constraints: clone_strings(constraints),
        },
        other => other,
    }
}

fn attach_sandbox_constraints(v: ValidateVerdict, constraints: &Vec<String>) -> (res: ValidateVerdict)
    ensures
        res@ == with_sandbox_constraints(v@, strings_view(constraints@)),
{
    match v {
        ValidateVerdict::SandboxReject { reasons, logs, .. } => ValidateVerdict::SandboxReject {
            reasons,
            logs,
            constraints: clone_strings(constraints),
        },
        other => other,
    }
}

fn verdict_needs_sandbox(v: &ValidateVerdict) -> (res: bool)
    ensures
        res == needs_sandbox(v@),
{
    match v {
        ValidateVerdict::SandboxPassHighFidelity { .. } => true,
        ValidateVerdict::ApprovedFailOpen { .. } => true,
        _ => false,
    }
}

impl GuardSession {
    fn settle_on(
        request: ValidateRequest,
        verdict: ValidateVerdict,
        constraints: Vec<String>,
        rule_ids: Vec<String>,
    ) -> (res: (GuardSession, GuardAction))
        ensures
            (res.0@, res.1@) == settle(
                request@,
                verdict@,
                strings_view(constraints@),
                strings_view(rule_ids@),
            ),
    {
        if verdict_needs_sandbox(&verdict) {
            let action = GuardAction::RunSandbox {
                action_type: request.action_type.clone(),
                payload: request.payload.clone(),
            };
            let session = GuardSession {
                request,
                phase: GuardPhase::AwaitingSandbox,
                constraints,
                rule_ids,
                verdict: Some(verdict),
            };
            (session, action)
        } else {
            Self::answer_with(request, verdict, constraints, rule_ids)
        }
    }

    fn answer_with(
        request: ValidateRequest,
        verdict: ValidateVerdict,
        constraints: Vec<String>,
        rule_ids: Vec<String>,
    ) -> (res: (GuardSession, GuardAction))
        ensures
            (res.0@, res.1@) == answer(
                request@,
                verdict@,
                strings_view(constraints@),
                strings_view(rule_ids@),
            ),
    {
        let response = ValidateResponse {
            trace_id: request.trace_id.clone(),
            verdict,
            rule_ids_triggered: clone_strings(&rule_ids),
        };
        let session = GuardSession {
            request,
            phase: GuardPhase::Finished,
            constraints,
            rule_ids,
            verdict: None,
        };
        (session, GuardAction::Respond(response))
    }

    /// Opens the validation of `request`, submitted for the `attempts`-th time
    /// (as counted by a `ChurnTracker`), and says what to do first.
    pub fn start(request: ValidateRequest, attempts: u32) -> (res: (GuardSession, GuardAction))
        ensures
            (res.0@, res.1@) == guard_start(request@, attempts as nat),
    {
        if attempts > 3 {
            let warning = churn_warning_text(attempts);
            Self::settle_on(
                request,
                ValidateVerdict::ApprovedFailOpen { warning },
                no_strings(),
                no_strings(),
            )
        } else if has_secrets(request.payload.as_str()) {
            Self::answer_with(request, secret_rejection(), no_strings(), no_strings())
        } else {
            let action = GuardAction::MatchConstraints { payload: request.payload.clone() };
            let session = GuardSession {
                request,
                phase: GuardPhase::AwaitingMatch,
                constraints: no_strings(),
                rule_ids: no_strings(),
                verdict: None,
            };
            (session, action)
        }
    }

    /// Where the session stands.
    pub fn phase(&self) -> (res: GuardPhase)
        ensures
            res == self@.phase,
    {
        self.phase
    }

    /// Whether `event` is the one the session waits for.
    pub fn awaits(&self, event: &GuardEvent) -> (res: bool)
        ensures
            res == awaits(self@, event@),
    {
        match event {
            GuardEvent::ConstraintsMatched(_) => self.phase == GuardPhase::AwaitingMatch,
            GuardEvent::IntentEvaluated(_) => self.phase == GuardPhase::AwaitingIntent,
            GuardEvent::SandboxEvaluated(_) => self.phase == GuardPhase::AwaitingSandbox,
        }
    }

    /// Moves the session on with the event it waits for, and says what to do next.
    pub fn step(self, event: GuardEvent) -> (res: (GuardSession, GuardAction))
        requires
            awaits(self@, event@),
        ensures
            (res.0@, res.1@) == guard_step(self@, event@),
    {
        match event {
            GuardEvent::ConstraintsMatched(found) => {
                let (constraints, rule_ids) = match found {
                    Some(rules) => constraints_and_ids(&rules),
                    None => {
                        let none: Vec<BehavioralRule> = Vec::new();
                        let r = constraints_and_ids(&none);
                        assert(rules_view(none@) =~= Seq::<BehavioralRuleView>::empty());
                        r
                    },
                };
                let action = GuardAction::EvaluateIntent {
                    payload: self.request.payload.clone(),
                    user_intent: "Unknown Intent".to_owned(),
                };
                let session = GuardSession {
                    request: self.request,
                    phase: GuardPhase::AwaitingIntent,
                    constraints,
                    rule_ids,
                    verdict: None,
                };
                (session, action)
            },
            GuardEvent::IntentEvaluated(v) => {
                let semantic = match v {
                    Some(v) => v,
                    None => ValidateVerdict::ApprovedFailOpen { warning: "Semantic failed".to_owned() },
                };
                let verdict = attach_semantic_constraints(semantic, &self.constraints);
                Self::settle_on(self.request, verdict, self.constraints, self.rule_ids)
            },
            GuardEvent::SandboxEvaluated(v) => {
                let verdict = attach_sandbox_constraints(v, &self.constraints);
                Self::answer_with(self.request, verdict, self.constraints, self.rule_ids)
            },
        }
    }
}


/// The event that answers `action`, out of the reports of the outside steps.
pub open spec fn event_for(
    action: GuardActionView,
    matched: Option<Seq<BehavioralRuleView>>,
    semantic: Option<VerdictView>,
    sandbox: VerdictView,
) -> GuardEventView {
    match action {
        GuardActionView::MatchConstraints { .. } => GuardEventView::ConstraintsMatched(matched),
        GuardActionView::EvaluateIntent { .. } => GuardEventView::IntentEvaluated(semantic),
        _ => GuardEventView::SandboxEvaluated(sandbox),
    }
}

/// Runs a session for at most `fuel` more steps, answering each action with its
/// report; the result is the last action and whether each event was awaited.
pub open spec fn drive(
    s: GuardSessionView,
    action: GuardActionView,
    fuel: nat,
    matched: Option<Seq<BehavioralRuleView>>,
    semantic: Option<VerdictView>,
    sandbox: VerdictView,
) -> (GuardActionView, bool)
    decreases fuel,
{
    if fuel == 0 || action is Respond {
        (action, true)
    } else {
        let e = event_for(action, matched, semantic, sandbox);
        let next = guard_step(s, e);
        let rest = drive(next.0, next.1, (fuel - 1) as nat, matched, semantic, sandbox);
        (rest.0, awaits(s, e) && rest.1)
    }
}

/// A validation session, fed with the reports it asks for, answers within three
/// steps, only ever receives the event it waits for, and answers exactly what
/// the guard's pipeline prescribes.
pub proof fn law_session_follows_pipeline(
    req: ValidateRequestView,
    attempts: nat,
    matched: Option<Seq<BehavioralRuleView>>,
    semantic: Option<VerdictView>,
    sandbox: VerdictView,
)
    ensures
        ({
            let (s, a) = guard_start(req, attempts);
            drive(s, a, 3, matched, semantic, sandbox) == (
                GuardActionView::Respond(guard_response(req, attempts, matched, semantic, sandbox)),
                true,
            )
        }),
{
    reveal_with_fuel(drive, 4);
    let (s, a) = guard_start(req, attempts);
    if attempts > churn_limit() {
        let v = VerdictView::ApprovedFailOpen { warning: churn_warning(attempts) };
        assert(needs_sandbox(v));
        let (s1, a1) = guard_step(s, event_for(a, matched, semantic, sandbox));
        assert(a1 is Respond);
    } else if contains_secret(req.payload) {
    } else {
        let (s1, a1) = guard_step(s, event_for(a, matched, semantic, sandbox));
        let (s2, a2) = guard_step(s1, event_for(a1, matched, semantic, sandbox));
        if a2 is Respond {
        } else {
            let (s3, a3) = guard_step(s2, event_for(a2, matched, semantic, sandbox));
            assert(a3 is Respond);
        }
    }
}

/// A payload that carries a credential, within the churn limit, is rejected at
/// once: no rule matching, no model call and no dry run.
pub proof fn law_secret_rejected_at_once(req: ValidateRequestView, attempts: nat)
    requires
        attempts <= churn_limit(),
        contains_secret(req.payload),
    ensures
        guard_start(req, attempts).1 == GuardActionView::Respond(
            ValidateResponseView {
                trace_id: req.trace_id,
                verdict: secret_verdict(),
                rule_ids_triggered: Seq::empty(),
            },
        ),
{
}

/// Past the churn limit a payload skips secret scrubbing and the semantic
/// check, fails open, and goes straight to the dry run.
pub proof fn law_churn_fails_open_to_dry_run(req: ValidateRequestView, attempts: nat)
    requires
        attempts > churn_limit(),
    ensures
        guard_start(req, attempts).1 == (GuardActionView::RunSandbox {
            action_type: req.action_type,
            payload: req.payload,
        }),
        guard_start(req, attempts).0.verdict == Some(
            VerdictView::ApprovedFailOpen { warning: churn_warning(attempts) },
        ),
{
}

/// A semantic rejection is final: it is answered at once, without a dry run,
/// and carries the matched rules' constraints.
pub proof fn law_semantic_rejection_is_final(
    s: GuardSessionView,
    reasons: Seq<Seq<char>>,
    constraints: Seq<Seq<char>>,
)
    requires
        s.phase == GuardPhase::AwaitingIntent,
    ensures
        guard_step(
            s,
            GuardEventView::IntentEvaluated(
                Some(VerdictView::DeterministicReject { reasons, constraints }),
            ),
        ).1 == GuardActionView::Respond(
            ValidateResponseView {
                trace_id: s.request.trace_id,
                verdict: VerdictView::DeterministicReject { reasons, constraints: s.constraints },
                rule_ids_triggered: s.rule_ids,
            },
        ),
{
}

/// A dry run is only ever requested for an action whose verdict so far still
/// passes (a high-fidelity pass or a fail-open approval).
pub proof fn law_dry_run_only_when_passing(s: GuardSessionView, e: GuardEventView, req: ValidateRequestView, attempts: nat)
    ensures
        guard_step(s, e).1 is RunSandbox ==> (guard_step(s, e).0.verdict matches Some(v)
            && needs_sandbox(v)),
        guard_start(req, attempts).1 is RunSandbox ==> (guard_start(req, attempts).0.verdict matches Some(
            v,
        ) && needs_sandbox(v)),
{
}

/// A session keeps its request, and every answer carries the request's trace id.
pub proof fn law_answers_keep_trace_id(s: GuardSessionView, e: GuardEventView, req: ValidateRequestView, attempts: nat)
    ensures
        guard_step(s, e).0.request == s.request,
        guard_step(s, e).1 matches GuardActionView::Respond(r) ==> r.trace_id == s.request.trace_id,
        guard_start(req, attempts).0.request == req,
        guard_start(req, attempts).1 matches GuardActionView::Respond(r) ==> r.trace_id == req.trace_id,
{
}

/// The count a tracker holds after one more submission of `payload`.
pub open spec fn recorded(counts: Map<Seq<char>, u32>, payload: Seq<char>) -> Map<Seq<char>, u32> {
    counts.insert(payload, (attempts_of(counts, payload) + 1) as u32)
}

/// The fourth submission of a payload that was never seen before passes the
/// churn limit, while the first three do not; other payloads keep their counts.
pub proof fn law_fourth_identical_submission_fails_open(
    counts: Map<Seq<char>, u32>,
    payload: Seq<char>,
    other: Seq<char>,
)
    requires
        !counts.contains_key(payload),
        other != payload,
    ensures
        attempts_of(recorded(counts, payload), payload) == 1,
        attempts_of(recorded(recorded(counts, payload), payload), payload) == 2,
        attempts_of(recorded(recorded(recorded(counts, payload), payload), payload), payload) == 3,
        attempts_of(recorded(recorded(recorded(recorded(counts, payload), payload), payload), payload), payload)
            == 4 > churn_limit(),
        attempts_of(recorded(recorded(recorded(recorded(counts, payload), payload), payload), payload), other)
            == attempts_of(counts, other),
{
}


/// `m` occurs in `s` starting at some position, anywhere in `s`.
pub open spec fn occurs_anywhere(s: Seq<char>, m: Seq<char>) -> bool {
    exists|i: int| 0 <= i && i + m.len() <= s.len() && #[trigger] s.subrange(i, i + m.len()) == m
}

/// Secret scrubbing looks at the whole payload: a payload is flagged exactly
/// when one of the credential markers occurs in it at some position, however
/// far into the payload that is.
pub proof fn law_secret_scan_covers_whole_payload(payload: Seq<char>)
    ensures
        contains_secret(payload) <==> (occurs_anywhere(payload, "sk-ant-"@) || occurs_anywhere(
            payload,
            "sk-proj-"@,
        ) || occurs_anywhere(payload, "ghp_"@) || occurs_anywhere(payload, "xoxb-"@)
            || occurs_anywhere(payload, "Bearer eyJ"@) || occurs_anywhere(payload, "AKIA"@)),
{
    let ms = secret_markers();
    assert forall|k: int| 0 <= k < ms.len() implies has_substring(payload, #[trigger] ms[k])
        == occurs_anywhere(payload, ms[k]) by {
        if has_substring(payload, ms[k]) {
            let i = choose|i: int| crate::text::occurs_at(payload, ms[k], i);
            assert(payload.subrange(i, i + ms[k].len()) == ms[k]);
        }
        if occurs_anywhere(payload, ms[k]) {
            let i = choose|i: int|
                0 <= i && i + ms[k].len() <= payload.len() && #[trigger] payload.subrange(
                    i,
                    i + ms[k].len(),
                ) == ms[k];
            assert(crate::text::occurs_at(payload, ms[k], i));
        }
    }
    assert(ms[0] == "sk-ant-"@);
    assert(ms[1] == "sk-proj-"@);
    assert(ms[2] == "ghp_"@);
    assert(ms[3] == "xoxb-"@);
    assert(ms[4] == "Bearer eyJ"@);
    assert(ms[5] == "AKIA"@);
    if occurs_anywhere(payload, "sk-ant-"@) { assert(has_substring(payload, ms[0])); }
    if occurs_anywhere(payload, "sk-proj-"@) { assert(has_substring(payload, ms[1])); }
    if occurs_anywhere(payload, "ghp_"@) { assert(has_substring(payload, ms[2])); }
    if occurs_anywhere(payload, "xoxb-"@) { assert(has_substring(payload, ms[3])); }
    if occurs_anywhere(payload, "Bearer eyJ"@) { assert(has_substring(payload, ms[4])); }
    if occurs_anywhere(payload, "AKIA"@) { assert(has_substring(payload, ms[5])); }
}

/// Every matched rule is carried, in order: after matching, the session holds
/// one constraint and one id per matched rule, the i-th from the i-th rule;
/// when matching failed it holds none. A semantic rejection then answers with
/// exactly those constraints and ids.
pub proof fn law_every_matched_rule_is_carried(
    s: GuardSessionView,
    rules: Seq<BehavioralRuleView>,
    reasons: Seq<Seq<char>>,
    given: Seq<Seq<char>>,
)
    requires
        s.phase == GuardPhase::AwaitingMatch,
    ensures
        ({
            let n = guard_step(s, GuardEventView::ConstraintsMatched(Some(rules))).0;
            &&& n.constraints.len() == rules.len()
            &&& n.rule_ids.len() == rules.len()
            &&& forall|i: int|
                0 <= i < rules.len() ==> n.constraints[i] == rules[i].constraint_text && n.rule_ids[i]
                    == rules[i].id
            &&& guard_step(
                n,
                GuardEventView::IntentEvaluated(
                    Some(VerdictView::DeterministicReject { reasons, constraints: given }),
                ),
            ).1 == GuardActionView::Respond(
                ValidateResponseView {
                    trace_id: s.request.trace_id,
                    verdict: VerdictView::DeterministicReject {
                        reasons,
                        constraints: n.constraints,
                    },
                    rule_ids_triggered: n.rule_ids,
                },
            )
        }),
        guard_step(s, GuardEventView::ConstraintsMatched(None)).0.constraints.len() == 0,
        guard_step(s, GuardEventView::ConstraintsMatched(None)).0.rule_ids.len() == 0,
{
    let n = guard_step(s, GuardEventView::ConstraintsMatched(Some(rules))).0;
    assert(n.constraints.len() == rules.len());
    assert(n.rule_ids.len() == rules.len());
}

} // verus!
