//! What the library takes from `serde_json`.
use vstd::prelude::*;

verus! {

/// The error that `serde_json` reports when a text is not the JSON of the
/// value it is read as.
#[verifier::external_type_specification]
#[verifier::external_body]
pub struct ExJsonError(serde_json::Error);

} // verus!
