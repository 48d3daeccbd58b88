//! The guard's request, verdict, response and behavioral-rule types, with their
//! mathematical views.
use vstd::prelude::*;

verus! {

/// The characters of each string, in order.
pub open spec fn strings_view(v: Seq<String>) -> Seq<Seq<char>> {
    v.map_values(|s: String| s@)
}

/// A copy of `v`, string by string.
pub fn clone_strings(v: &Vec<String>) -> (res: Vec<String>)
    ensures
        strings_view(res@) == strings_view(v@),
{
    let mut res: Vec<String> = Vec::new();
    let mut i: usize = 0;
    while i < v.len()
        invariant
            0 <= i <= v.len(),
            strings_view(res@) == strings_view(v@.take(i as int)),
        decreases v.len() - i,
    {
        let ghost before = res@;
        res.push(v[i].clone());
        proof {
            assert(v@.take(i + 1) =~= v@.take(i as int).push(v@[i as int]));
            assert(strings_view(res@) =~= strings_view(before).push(v@[i as int]@));
            assert(strings_view(v@.take(i + 1)) =~= strings_view(v@.take(i as int)).push(
                v@[i as int]@,
            ));
        }
        i = i + 1;
    }
    assert(v@.take(v.len() as int) =~= v@);
    res
}

/// A proposed action that the guard is asked to validate.
#[derive(Debug)]
pub struct ValidateRequest {
    /// The kind of action, e.g. "bash" or "write_file".
    pub action_type: String,
    /// The command or file content.
    pub payload: String,
    pub orchestrator_id: String,
    pub trace_id: String,
}

pub struct ValidateRequestView {
    pub action_type: Seq<char>,
    pub payload: Seq<char>,
    pub orchestrator_id: Seq<char>,
    pub trace_id: Seq<char>,
}

impl View for ValidateRequest {
    type V = ValidateRequestView;

    open spec fn view(&self) -> ValidateRequestView {
        ValidateRequestView {
            action_type: self.action_type@,
            payload: self.payload@,
            orchestrator_id: self.orchestrator_id@,
            trace_id: self.trace_id@,
        }
    }
}

/// The guard's judgement of an action.
#[derive(Debug)]
pub enum ValidateVerdict {
    DeterministicReject { reasons: Vec<String>, constraints: Vec<String> },
    SandboxReject { reasons: Vec<String>, logs: String, constraints: Vec<String> },
    SandboxPassHighFidelity { notes: Vec<String> },
    SandboxPassLowFidelity { notes: Vec<String> },
    ApprovedFailOpen { warning: String },
}

pub enum VerdictView {
    DeterministicReject { reasons: Seq<Seq<char>>, constraints: Seq<Seq<char>> },
    SandboxReject { reasons: Seq<Seq<char>>, logs: Seq<char>, constraints: Seq<Seq<char>> },
    SandboxPassHighFidelity { notes: Seq<Seq<char>> },
    SandboxPassLowFidelity { notes: Seq<Seq<char>> },
    ApprovedFailOpen { warning: Seq<char> },
}

impl View for ValidateVerdict {
    type V = VerdictView;

    open spec fn view(&self) -> VerdictView {
        match self {
            ValidateVerdict::DeterministicReject { reasons, constraints } =>
                VerdictView::DeterministicReject {
                    reasons: strings_view(reasons@),
                    constraints: strings_view(constraints@),
                },
            ValidateVerdict::SandboxReject { reasons, logs, constraints } =>
                VerdictView::SandboxReject {
                    reasons: strings_view(reasons@),
                    logs: logs@,
                    constraints: strings_view(constraints@),
                },
            ValidateVerdict::SandboxPassHighFidelity { notes } =>
                VerdictView::SandboxPassHighFidelity { notes: strings_view(notes@) },
            ValidateVerdict::SandboxPassLowFidelity { notes } =>
                VerdictView::SandboxPassLowFidelity { notes: strings_view(notes@) },
            ValidateVerdict::ApprovedFailOpen { warning } =>
                VerdictView::ApprovedFailOpen { warning: warning@ },
        }
    }
}

/// The guard's answer to a request.
#[derive(Debug)]
pub struct ValidateResponse {
    pub trace_id: String,
    pub verdict: ValidateVerdict,
    pub rule_ids_triggered: Vec<String>,
}

pub struct ValidateResponseView {
    pub trace_id: Seq<char>,
    pub verdict: VerdictView,
    pub rule_ids_triggered: Seq<Seq<char>>,
}

impl View for ValidateResponse {
    type V = ValidateResponseView;

    open spec fn view(&self) -> ValidateResponseView {
        ValidateResponseView {
            trace_id: self.trace_id@,
            verdict: self.verdict@,
            rule_ids_triggered: strings_view(self.rule_ids_triggered@),
        }
    }
}

/// A learned constraint on agent behavior.
#[derive(Debug)]
pub struct BehavioralRule {
    pub id: String,
    pub version: u32,
    pub rule_class: String,
    pub trigger_pattern: String,
    pub constraint_text: String,
    pub hit_count: u32,
    /// "active" or "deprecated".
    pub status: String,
}

pub struct BehavioralRuleView {
    pub id: Seq<char>,
    pub version: u32,
    pub rule_class: Seq<char>,
    pub trigger_pattern: Seq<char>,
    pub constraint_text: Seq<char>,
    pub hit_count: u32,
    pub status: Seq<char>,
}

impl View for BehavioralRule {
    type V = BehavioralRuleView;

    open spec fn view(&self) -> BehavioralRuleView {
        BehavioralRuleView {
            id: self.id@,
            version: self.version,
            rule_class: self.rule_class@,
            trigger_pattern: self.trigger_pattern@,
            constraint_text: self.constraint_text@,
            hit_count: self.hit_count,
            status: self.status@,
        }
    }
}

impl Clone for BehavioralRule {
    fn clone(&self) -> (res: Self)
        ensures
            res@ == self@,
    {
        BehavioralRule {
            id: self.id.clone(),
            version: self.version,
            rule_class: self.rule_class.clone(),
            trigger_pattern: self.trigger_pattern.clone(),
            constraint_text: self.constraint_text.clone(),
            hit_count: self.hit_count,
            status: self.status.clone(),
        }
    }
}

} // verus!
