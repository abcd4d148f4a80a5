//! JSON documents carried through records untouched.

use vstd::prelude::*;

verus! {

/// `serde_json::Value`, opaque to the verifier: records carry such documents
/// (browser information, connector metadata, routing algorithms) without
/// looking inside.
#[verifier::external_type_specification]
#[verifier::external_body]
pub struct ExJsonValue(serde_json::Value);

/// `Clone` of `serde_json::Value` is derived, so the copy is the same
/// document as the one copied.
pub assume_specification[ <serde_json::Value as Clone>::clone ](
    v: &serde_json::Value,
) -> (r: serde_json::Value)
    ensures
        r == *v,
;

/// Copies an optional document.
pub fn clone_json(v: &Option<serde_json::Value>) -> (r: Option<serde_json::Value>)
    ensures
        r == *v,
{
    match v {
        Some(doc) => Some(doc.clone()),
        None => None,
    }
}

} // verus!
