//! JSON values, which travel with peers as free-form metadata.
use serde_json::Value;
use vstd::prelude::*;

verus! {

/// `serde_json::Value`: carried from peer to peer, never looked into but for
/// `is_object`.
#[verifier::external_type_specification]
#[verifier::external_body]
pub struct ExValue(serde_json::Value);

/// Whether a JSON value is an object, as `serde_json::Value::is_object` answers.
pub uninterp spec fn json_is_object(value: Value) -> bool;

/// `serde_json::Value::is_object`: true for the variant `Object` alone, so the
/// answer depends on nothing but the value.
pub assume_specification[ Value::is_object ](value: &Value) -> (answer: bool)
    ensures
        answer == json_is_object(*value),
;

/// The derived `Clone` of `serde_json::Value`: the copy is the same JSON value.
pub assume_specification[ <Value as Clone>::clone ](value: &Value) -> (copy: Value)
    ensures
        copy == *value,
;

} // verus!
