//! The semantic layer of the guard: which embedding models are acceptable,
//! where the model cache lives, how a rule is keyed and embedded in the rule
//! store, and the verdict drawn from the local model's reply on an action's intent.
use vstd::prelude::*;
use vstd::string::*;

use crate::models::{strings_view, BehavioralRule, ValidateVerdict, VerdictView};
use crate::text::joined;

verus! {

/// An embedding model that the rule store accepts, and the length of its vectors.
#[derive(Debug)]
pub struct AcceptableEmbedder {
    pub model_name: String,
    pub dimensions: usize,
}

pub struct AcceptableEmbedderView {
    pub model_name: Seq<char>,
    pub dimensions: usize,
}

impl View for AcceptableEmbedder {
    type V = AcceptableEmbedderView;

    open spec fn view(&self) -> AcceptableEmbedderView {
        AcceptableEmbedderView { model_name: self.model_name@, dimensions: self.dimensions }
    }
}

impl Clone for AcceptableEmbedder {
    fn clone(&self) -> (res: Self)
        ensures
            res@ == self@,
    {
        AcceptableEmbedder { model_name: self.model_name.clone(), dimensions: self.dimensions }
    }
}

pub open spec fn embedders_view(v: Seq<AcceptableEmbedder>) -> Seq<AcceptableEmbedderView> {
    v.map_values(|e: AcceptableEmbedder| e@)
}

/// The models used when no usable list is configured.
pub open spec fn default_embedders() -> Seq<AcceptableEmbedderView> {
    seq![
        AcceptableEmbedderView { model_name: "NomicEmbedTextV15"@, dimensions: 768 },
        AcceptableEmbedderView { model_name: "BGEBaseENV15"@, dimensions: 768 },
    ]
}

/// The models used when no usable list is configured.
pub fn default_embedder_list() -> (res: Vec<AcceptableEmbedder>)
    ensures
        embedders_view(res@) == default_embedders(),
        res.len() == 2,
{
    let mut v: Vec<AcceptableEmbedder> = Vec::new();
    v.push(AcceptableEmbedder { model_name: "NomicEmbedTextV15".to_owned(), dimensions: 768 });
    v.push(AcceptableEmbedder { model_name: "BGEBaseENV15".to_owned(), dimensions: 768 });
    assert(embedders_view(v@) =~= default_embedders());
    v
}

/// The acceptable models, and whether the default list is to be written back to
/// the configuration file.
pub struct EmbedderChoice {
    pub embedders: Vec<AcceptableEmbedder>,
    pub persist_defaults: bool,
}

/// A configured list that was read and is not empty is used as it is; otherwise
/// the defaults are used and written back.
pub open spec fn chosen_embedders(configured: Option<Seq<AcceptableEmbedderView>>) -> (
    Seq<AcceptableEmbedderView>,
    bool,
) {
    match configured {
        Some(list) => if list.len() > 0 {
            (list, false)
        } else {
            (default_embedders(), true)
        },
        None => (default_embedders(), true),
    }
}

/// Chooses the acceptable models from the configured list (`None` when the
/// configuration file is missing or does not hold a list of models).
pub fn choose_embedders(configured: Option<Vec<AcceptableEmbedder>>) -> (res: EmbedderChoice)
    ensures
        (embedders_view(res.embedders@), res.persist_defaults) == chosen_embedders(
            match configured {
                Some(v) => Some(embedders_view(v@)),
                None => None,
            },
        ),
        res.embedders.len() > 0,
{
    match configured {
        Some(list) => {
            if list.len() > 0 {
                EmbedderChoice { embedders: list, persist_defaults: false }
            } else {
                EmbedderChoice { embedders: default_embedder_list(), persist_defaults: true }
            }
        },
        None => EmbedderChoice { embedders: default_embedder_list(), persist_defaults: true },
    }
}

/// The directory, relative to the home directory when it is known and to the
/// working directory otherwise, that holds the list of acceptable models.
pub fn embedders_config_subdir(home_known: bool) -> (res: String)
    ensures
        res@ == (if home_known {
            ".config/neurostrata"@
        } else {
            ".neurostrata"@
        }),
{
    if home_known {
        ".config/neurostrata".to_owned()
    } else {
        ".neurostrata".to_owned()
    }
}

/// The shared model cache, under the home directory, that the embedding model
/// is loaded from.
pub fn model_cache_subdir() -> (res: String)
    ensures
        res@ == ".cache/neuro/models/fastembed"@,
{
    ".cache/neuro/models/fastembed".to_owned()
}

/// The name of the table of the rule store.
pub fn rules_table() -> (res: String)
    ensures
        res@ == "behavioral_rules"@,
{
    "behavioral_rules".to_owned()
}

/// How many of the nearest rules a match returns.
pub const MATCH_LIMIT: usize = 3;

/// The text embedded for a rule: its trigger pattern, a space, and its constraint.
pub fn embedding_text(rule: &BehavioralRule) -> (res: String)
    ensures
        res@ == rule@.trigger_pattern + " "@ + rule@.constraint_text,
{
    let mut s = joined(rule.trigger_pattern.as_str(), " ");
    s.append(rule.constraint_text.as_str());
    s
}

/// The store filter that removes the earlier version of a rule before it is added again.
pub fn upsert_filter(rule_id: &str) -> (res: String)
    ensures
        res@ == "id = '"@ + rule_id@ + "'"@,
{
    let mut s = joined("id = '", rule_id);
    s.append("'");
    s
}

/// The fields of the local model's reply that the verdict reads.
pub struct IntentReply {
    pub approved: Option<bool>,
    pub reason: Option<String>,
}

pub struct IntentReplyView {
    pub approved: Option<bool>,
    pub reason: Option<Seq<char>>,
}

impl View for IntentReply {
    type V = IntentReplyView;

    open spec fn view(&self) -> IntentReplyView {
        IntentReplyView {
            approved: self.approved,
            reason: match self.reason {
                Some(r) => Some(r@),
                None => None,
            },
        }
    }
}

/// What `serde_json` reads from a reply: `None` when the text is not JSON, and
/// otherwise the boolean field `approved` and the string field `reason`, each
/// `None` when absent or of another type.
pub uninterp spec fn json_intent_fields(text: Seq<char>) -> Option<IntentReplyView>;

/// Parses `text` with `serde_json::from_str::<serde_json::Value>` and reads
/// `value["approved"].as_bool()` and `value["reason"].as_str()`. The contract
/// only ties the result to `text` through the name `json_intent_fields`; what
/// JSON `serde_json` accepts is not stated.
#[verifier::external_body]
fn read_intent_reply(text: &str) -> (res: Option<IntentReply>)
    ensures
        match res {
            Some(r) => json_intent_fields(text@) == Some(r@),
            None => json_intent_fields(text@) is None,
        },
{
    match serde_json::from_str::<serde_json::Value>(text) {
        Ok(value) => Some(IntentReply {
            approved: value["approved"].as_bool(),
            reason: value["reason"].as_str().map(|s| s.to_string()),
        }),
        Err(_) => None,
    }
}

/// The verdict on a model reply: approved intents pass, anything else is a
/// semantic mismatch, and a reply that is not JSON fails open.
pub open spec fn reply_verdict(reply: Option<IntentReplyView>) -> VerdictView {
    match reply {
        Some(r) => if r.approved == Some(true) {
            VerdictView::SandboxPassHighFidelity { notes: seq!["Semantic intent aligned"@] }
        } else {
            VerdictView::DeterministicReject {
                reasons: seq![
                    "Semantic mismatch: "@ + match r.reason {
                        Some(text) => text,
                        None => Seq::<char>::empty(),
                    },
                ],
                constraints: seq![],
            }
        },
        None => VerdictView::ApprovedFailOpen {
            warning: "Semantic validation API error: invalid format returned"@,
        },
    }
}

/// The verdict of the semantic check when the local model could not be run.
pub open spec fn model_failure_verdict() -> VerdictView {
    VerdictView::ApprovedFailOpen { warning: "Semantic validation unavailable. Failing open."@ }
}

/// The verdict on a model reply, already read as JSON (`None` when it was not JSON).
pub fn reply_verdict_of(reply: Option<IntentReply>) -> (res: ValidateVerdict)
    ensures
        res@ == reply_verdict(
            match reply {
                Some(r) => Some(r@),
                None => None,
            },
        ),
{
    match reply {
        Some(r) => {
            if r.approved == Some(true) {
                let mut notes: Vec<String> = Vec::new();
                notes.push("Semantic intent aligned".to_owned());
                assert(strings_view(notes@) =~= seq!["Semantic intent aligned"@]);
                ValidateVerdict::SandboxPassHighFidelity { notes }
            } else {
                let reason = match r.reason {
                    Some(text) => joined("Semantic mismatch: ", text.as_str()),
                    None => {
                        let s = "Semantic mismatch: ".to_owned();
                        assert(s@ =~= "Semantic mismatch: "@ + Seq::<char>::empty());
                        s
                    },
                };
                let mut reasons: Vec<String> = Vec::new();
                reasons.push(reason);
                let constraints: Vec<String> = Vec::new();
                assert(strings_view(constraints@) =~= seq![]);
                assert(strings_view(reasons@) =~= seq![reasons@[0]@]);
                ValidateVerdict::DeterministicReject { reasons, constraints }
            }
        },
        None => ValidateVerdict::ApprovedFailOpen {
            warning: "Semantic validation API error: invalid format returned".to_owned(),
        },
    }
}

/// The semantic layer's configuration: where the rule store lives, and the
/// embedding model in use with the length of its vectors.
pub struct SemanticEvaluator {
    db_uri: String,
    model_name: String,
    dimensions: usize,
}

pub struct SemanticEvaluatorView {
    pub db_uri: Seq<char>,
    pub model_name: Seq<char>,
    pub dimensions: usize,
}

impl View for SemanticEvaluator {
    type V = SemanticEvaluatorView;

    closed spec fn view(&self) -> SemanticEvaluatorView {
        SemanticEvaluatorView {
            db_uri: self.db_uri@,
            model_name: self.model_name@,
            dimensions: self.dimensions,
        }
    }
}

impl SemanticEvaluator {
    /// Sets up the semantic layer on the rule store at `db_uri`, with the first
    /// of the acceptable models.
    pub fn new(db_uri: String, acceptable: &Vec<AcceptableEmbedder>) -> (res: Self)
        requires
            acceptable.len() > 0,
        ensures
            res@ == (SemanticEvaluatorView {
                db_uri: db_uri@,
                model_name: acceptable@[0]@.model_name,
                dimensions: acceptable@[0]@.dimensions,
            }),
    {
        let target = &acceptable[0];
        SemanticEvaluator { db_uri, model_name: target.model_name.clone(), dimensions: target.dimensions }
    }

    /// Where the rule store lives.
    pub fn db_uri(&self) -> (res: &str)
        ensures
            res@ == self@.db_uri,
    {
        self.db_uri.as_str()
    }

    /// The name of the embedding model in use.
    pub fn model_name(&self) -> (res: &str)
        ensures
            res@ == self@.model_name,
    {
        self.model_name.as_str()
    }

    /// The length of the model's vectors.
    pub fn dimensions(&self) -> (res: usize)
        ensures
            res == self@.dimensions,
    {
        self.dimensions
    }

    /// The verdict of the semantic check of an action's intent, from the local
    /// model's reply (`Err` when the model could not be run).
    pub fn evaluate_intent(&self, model_reply: Result<String, String>) -> (res: ValidateVerdict)
        ensures
            res@ == match model_reply {
                Ok(text) => reply_verdict(json_intent_fields(text@)),
                Err(_) => model_failure_verdict(),
            },
    {
        match model_reply {
            Ok(text) => {
                let reply = read_intent_reply(text.as_str());
                reply_verdict_of(reply)
            },
            Err(_) => ValidateVerdict::ApprovedFailOpen {
                warning: "Semantic validation unavailable. Failing open.".to_owned(),
            },
        }
    }
}

} // verus!
