//! Raw JSON fragments, carried through the library without being read.

use vstd::prelude::*;

verus! {

/// `serde_json::Value`: a JSON value. The library never looks inside one; it
/// keeps and copies the fragments that the source document was made of.
#[verifier::external_type_specification]
#[verifier::external_body]
pub struct ExJsonValue(serde_json::Value);

/// Trusted: the `Clone` impl of `serde_json::Value`, which the crate derives
/// for the enum, makes a value equal to the one it was given.
pub assume_specification[ <serde_json::Value as Clone>::clone ](
    value: &serde_json::Value,
) -> (copy: serde_json::Value)
    ensures
        copy == *value,
;

} // verus!
