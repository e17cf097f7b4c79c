//! The JSON value type of `serde_json`, carried through the library's types
//! for the parts of the wire format that the library does not interpret.

use vstd::prelude::*;

verus! {

/// Declares `serde_json::Value` to the verifier as an opaque type.
#[verifier::external_type_specification]
#[verifier::external_body]
pub struct ExJsonValue(serde_json::Value);

/// `Clone` of `serde_json::Value`, which is derived in `serde_json`: the copy
/// is the same value.
pub assume_specification[ <serde_json::Value as Clone>::clone ](v: &serde_json::Value) -> (r: serde_json::Value)
    ensures
        r == *v,
;

} // verus!
