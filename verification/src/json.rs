//! The bridge to `serde_json` for `Json` tokens and attachment blobs.  The
//! parsed value is opaque to the verified code; only whether parsing
//! succeeds is reasoned about, and that depends on the text alone.

use vstd::prelude::*;

verus! {

#[verifier::external_type_specification]
#[verifier::external_body]
pub struct ExJsonValue(serde_json::Value);

#[verifier::external_type_specification]
#[verifier::external_body]
pub struct ExJsonError(serde_json::Error);

/// Whether `serde_json` accepts `s` as a JSON document.
pub uninterp spec fn json_parse_ok(s: Seq<char>) -> bool;

/// Relies on `serde_json::from_str::<serde_json::Value>`: whether it
/// returns `Ok` is a function of the text alone.
#[verifier::external_body]
pub fn parse_json_value(s: &str) -> (r: Result<serde_json::Value, serde_json::Error>)
    ensures
        r is Ok <==> json_parse_ok(s@),
{
    serde_json::from_str(s)
}

} // verus!
