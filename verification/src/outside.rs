//! Types and functions of other crates that the library carries or calls.
use vstd::prelude::*;

verus! {

/// `uuid::Uuid`: identifiers of MCP servers, carried through unchanged.
#[verifier::external_type_specification]
#[verifier::external_body]
pub struct ExUuid(uuid::Uuid);

/// `serde_json::Value`: the free-form `extra` document of an MCP server,
/// carried through unchanged.
#[verifier::external_type_specification]
#[verifier::external_body]
pub struct ExJsonValue(serde_json::Value);

/// Calls `uuid::Uuid::new_v4`, which draws a fresh random version-4
/// identifier. Nothing is stated of the value: it comes from the random
/// number generator.
#[verifier::external_body]
pub(crate) fn new_v4_uuid() -> uuid::Uuid {
    uuid::Uuid::new_v4()
}

} // verus!
