//! Actions: the units of work that the cloud platform requests from the
//! device, identified by name and dispatched to a registered handler.

use crate::json::{obj_get, obj_lookup, parse_json, spec_parse_json, Json};
use vstd::prelude::*;

verus! {

/// An action sent by the cloud: an opaque identifier, a kind, the name the
/// registry is keyed by, and an optional JSON-encoded payload that is opaque
/// to the core (handlers parse it themselves).
pub struct Action {
    pub id: String,
    pub kind: String,
    pub name: String,
    pub payload: Option<String>,
}

/// The mathematical value of an [`Action`]: its four fields as sequences.
pub struct ActionView {
    pub id: Seq<char>,
    pub kind: Seq<char>,
    pub name: Seq<char>,
    pub payload: Option<Seq<char>>,
}

impl View for Action {
    type V = ActionView;

    open spec fn view(&self) -> ActionView {
        ActionView {
            id: self.id@,
            kind: self.kind@,
            name: self.name@,
            payload: match self.payload {
                Some(p) => Some(p@),
                None => None,
            },
        }
    }
}

/// The action carried by a decoded JSON document, if any: an object whose
/// `id`, `kind` and `name` are strings, with an optional string `payload`
/// (absent and `null` mean the same; any other shape is no action). Other
/// fields are ignored.
pub open spec fn spec_action_of(j: Json) -> Option<ActionView> {
    match j {
        Json::Obj(entries) => match (
            obj_lookup(entries@, "id"@),
            obj_lookup(entries@, "kind"@),
            obj_lookup(entries@, "name"@),
        ) {
            (Some(Json::Str(id)), Some(Json::Str(kind)), Some(Json::Str(name))) => match obj_lookup(
                entries@,
                "payload"@,
            ) {
                None => Some(
                    ActionView { id: id@, kind: kind@, name: name@, payload: None },
                ),
                Some(Json::Null) => Some(
                    ActionView { id: id@, kind: kind@, name: name@, payload: None },
                ),
                Some(Json::Str(p)) => Some(
                    ActionView { id: id@, kind: kind@, name: name@, payload: Some(p@) },
                ),
                Some(_) => None,
            },
            _ => None,
        },
        _ => None,
    }
}

/// Reads an [`Action`] out of a decoded JSON document.
pub fn action_from_json(j: &Json) -> (r: Option<Action>)
    ensures
        match r {
            Some(a) => spec_action_of(*j) == Some(a@),
            None => spec_action_of(*j) is None,
        },
{
    let entries = match j {
        Json::Obj(entries) => entries,
        _ => {
            return None;
        },
    };
    let id = match obj_get(entries, "id") {
        Some(Json::Str(s)) => s.clone(),
        _ => {
            return None;
        },
    };
    let kind = match obj_get(entries, "kind") {
        Some(Json::Str(s)) => s.clone(),
        _ => {
            return None;
        },
    };
    let name = match obj_get(entries, "name") {
        Some(Json::Str(s)) => s.clone(),
        _ => {
            return None;
        },
    };
    let payload = match obj_get(entries, "payload") {
        None => None,
        Some(Json::Null) => None,
        Some(Json::Str(p)) => Some(p.clone()),
        Some(_) => {
            return None;
        },
    };
    Some(Action { id, kind, name, payload })
}

/// Decodes one inbound frame into an [`Action`]: the frame must be one
/// complete JSON document of the shape [`spec_action_of`] accepts. Anything
/// else yields nothing — the ingress loop drops such frames silently.
pub fn decode_action(frame: &[u8]) -> (r: Option<Action>)
    ensures
        match spec_parse_json(frame@) {
            Some(j) => match r {
                Some(a) => spec_action_of(j) == Some(a@),
                None => spec_action_of(j) is None,
            },
            None => r is None,
        },
{
    match parse_json(frame) {
        Some(j) => action_from_json(&j),
        None => None,
    }
}

} // verus!
