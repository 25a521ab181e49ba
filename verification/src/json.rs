//! JSON documents, as `serde_json` parses them.

use vstd::prelude::*;

verus! {

/// A parsed JSON document; opaque here, carried through to the caller.
#[verifier::external_type_specification]
#[verifier::external_body]
pub struct ExJsonValue(serde_json::Value);

/// Why a text is not JSON.
#[verifier::external_type_specification]
#[verifier::external_body]
pub struct ExJsonError(serde_json::Error);

/// Whether `serde_json` accepts a text as one JSON document (surrounding
/// whitespace allowed). Its grammar is not restated here.
pub uninterp spec fn json_accepts(text: Seq<char>) -> bool;

/// `serde_json::from_str::<Value>`: succeeds exactly on the texts it
/// accepts. Which document comes back is left unsaid.
#[verifier::external_body]
pub(crate) fn parse_json_value(text: &str) -> (r: Result<serde_json::Value, serde_json::Error>)
    ensures
        r is Ok <==> json_accepts(text@),
{
    serde_json::from_str::<serde_json::Value>(text)
}

} // verus!
