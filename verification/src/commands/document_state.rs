//! Whether Rhino has an active document, probed through `rhino.run_python`.
use vstd::prelude::*;

use crate::json::{lookup, object_insert, Json, Number};
use crate::json_text::{json_denotes, json_text_parts, parse_json_text};
use crate::text::owned;

verus! {

/// The Python source that reports the document state.
pub const PROBE_SOURCE: &'static str = "import Rhino, json\n\
opens = list(Rhino.RhinoDoc.OpenDocuments(True))\n\
active = Rhino.RhinoDoc.ActiveDoc\n\
state = {\n\
  'active_doc': active is not None,\n\
  'open_count': len(opens),\n\
}";

/// The expression whose value the probe returns.
pub const PROBE_RESULT_EXPRESSION: &'static str = "json.dumps(state)";

/// The warning shown when Rhino has no active document.
pub const ACTIVE_DOC_MISSING_WARNING: &'static str = "warning: Rhino.RhinoDoc.ActiveDoc is None. \
The start window (recent/template picker) is likely still up; plugin panel/python operations will silently fail until a document is active. \
Dismiss it in Rhino, or relaunch with `rhino-cli launch --restart` (the default opens a new model and avoids this state).";

/// Whether Rhino has an active document, and how many documents are open.
#[derive(Debug, Clone, Copy, PartialEq, Eq)]
pub struct DocumentState {
    pub active_doc: bool,
    pub open_count: u32,
}

impl DocumentState {
    /// True when Rhino has no active document. The usual cause is Rhino's
    /// start window (recent/template picker) still being up — panel/python
    /// operations from the plugin will silently fail until ActiveDoc is set.
    /// OpenDocuments may be 0 or 1 in this state depending on the Rhino
    /// build and template configuration; the load-bearing signal is
    /// ActiveDoc itself, not the count.
    pub fn active_doc_missing(&self) -> (r: bool)
        ensures
            r == !self.active_doc,
    {
        !self.active_doc
    }
}

/// The parameters of the probe call: the source and the result expression.
pub fn probe_params() -> (r: Json)
    ensures
        r matches Json::Object(es) && es@.len() == 2 && r.str_field("source"@) == Some(PROBE_SOURCE@)
            && r.str_field("result_expression"@) == Some(PROBE_RESULT_EXPRESSION@),
{
    let mut es: Vec<(String, Json)> = Vec::new();
    proof {
        reveal_strlit("source");
        reveal_strlit("result_expression");
        assert("source"@.len() != "result_expression"@.len());
    }
    object_insert(&mut es, owned("result_expression"), Json::string(PROBE_RESULT_EXPRESSION));
    assert(es@.len() == 1 && es@[0].0@ == "result_expression"@);
    assert(!crate::json::has_key(es@, "source"@));
    object_insert(&mut es, owned("source"), Json::string(PROBE_SOURCE));
    Json::Object(es)
}

/// The text the probe returned under `result`, if it is a text.
pub fn payload_text(result: &Json) -> (r: Option<&str>)
    ensures
        r is Some <==> result.str_field("result"@) is Some,
        r matches Some(t) ==> result.str_field("result"@) == Some(t@),
{
    result.get_str("result")
}

/// A `u32` read from a JSON number.
pub open spec fn count_from(v: Json) -> Option<u32> {
    match v {
        Json::Number(Number::Unsigned(n)) => if n <= u32::MAX {
            Some(n as u32)
        } else {
            None
        },
        _ => None,
    }
}

/// The state a decoded payload denotes: an object with a boolean `active_doc`
/// and a `u32` `open_count`, or the array of those two in that order.
pub open spec fn state_from(v: Json) -> Option<DocumentState> {
    let (a, c) = match v {
        Json::Object(es) => (lookup(es@, "active_doc"@), lookup(es@, "open_count"@)),
        Json::Array(xs) => if xs@.len() == 2 {
            (Some(xs@[0]), Some(xs@[1]))
        } else {
            (None, None)
        },
        _ => (None, None),
    };
    match (a, c) {
        (Some(Json::Bool(b)), Some(n)) => match count_from(n) {
            Some(k) => Some(DocumentState { active_doc: b, open_count: k }),
            None => None,
        },
        _ => None,
    }
}

/// A payload object whose `active_doc` is the boolean `b` and whose
/// `open_count` is the `u32` `k` reports exactly that: an active document
/// when `b` holds, whatever `k` is, and `k` open documents.
pub proof fn lemma_payload_fields_give_state(v: Json, b: bool, k: u32)
    requires
        v.field("active_doc"@) == Some(Json::Bool(b)),
        v.field("open_count"@) == Some(Json::Number(Number::Unsigned(k as u64))),
    ensures
        state_from(v) == Some(DocumentState { active_doc: b, open_count: k }),
{
}

fn count_of(v: Option<&Json>) -> (r: Option<u32>)
    ensures
        r == match v {
            Some(x) => count_from(*x),
            None => None,
        },
{
    match v {
        Some(Json::Number(Number::Unsigned(n))) => if *n <= 4294967295 {
            Some(*n as u32)
        } else {
            None
        },
        _ => None,
    }
}

impl DocumentState {
    /// The state that the decoded probe payload denotes.
    pub fn from_payload(payload: &Json) -> (r: Option<DocumentState>)
        ensures
            r == state_from(*payload),
    {
        let (a, c): (Option<&Json>, Option<&Json>) = match payload {
            Json::Object(_) => (payload.get("active_doc"), payload.get("open_count")),
            Json::Array(xs) => if xs.len() == 2 {
                (Some(&xs[0]), Some(&xs[1]))
            } else {
                (None, None)
            },
            _ => (None, None),
        };
        match a {
            Some(Json::Bool(b)) => match count_of(c) {
                Some(k) => Some(DocumentState { active_doc: *b, open_count: k }),
                None => None,
            },
            _ => None,
        }
    }

    /// The state from the probe payload, given what parsing its text gave:
    /// no state when it is not JSON or does not fit.
    pub fn from_parsed_payload(parsed: Result<Json, String>) -> (r: Option<DocumentState>)
        ensures
            parsed matches Ok(v) ==> r == state_from(v),
            parsed is Err ==> r is None,
    {
        match parsed {
            Ok(v) => DocumentState::from_payload(&v),
            Err(_) => None,
        }
    }
}

/// The state a probe result reports: the text under `result`, read as
/// JSON; none when it is missing, not JSON, or does not fit.
pub fn parse(result: &Json) -> (r: Option<DocumentState>)
    ensures
        result.str_field("result"@) is None ==> r is None,
        result.str_field("result"@) matches Some(t) ==> match json_text_parts(t) {
            Ok(_) => exists|v: Json| #[trigger] json_denotes(v, t, 256) && r == state_from(v),
            Err(_) => r is None,
        },
{
    match payload_text(result) {
        Some(t) => {
            let parsed = parse_json_text(t);
            let ghost value: Json = if parsed is Ok { parsed->Ok_0 } else { Json::Null };
            let r = DocumentState::from_parsed_payload(parsed);
            proof {
                if json_text_parts(t@) is Ok {
                    assert(json_denotes(value, t@, 256));
                }
            }
            r
        },
        None => None,
    }
}

} // verus!
