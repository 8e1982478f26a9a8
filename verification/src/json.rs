//! The opaque workspace-configuration blob: a JSON value read from host
//! settings and passed through this component verbatim, never interpreted.

use vstd::prelude::*;

verus! {

/// Declares `serde_json::Value` so settings blobs can be carried through;
/// the component never looks inside one, so the type stays opaque.
#[verifier::external_type_specification]
#[verifier::external_body]
pub struct ExValue(serde_json::Value);

/// Relies on `serde_json::Map::new` and `serde_json::Value::Object`: builds
/// the empty JSON object, the default reported when no settings are
/// configured.
#[verifier::external_body]
pub(crate) fn empty_object() -> serde_json::Value {
    serde_json::Value::Object(serde_json::Map::new())
}

} // verus!
