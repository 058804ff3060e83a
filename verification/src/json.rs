//! The library's use of serde_json: JSON reply bodies are parsed into a
//! `serde_json::Value` and written back out as compact JSON text.
use vstd::prelude::*;

verus! {

/// serde_json's error type, carried through opaquely.
#[verifier::external_type_specification]
#[verifier::external_body]
pub struct ExJsonError(serde_json::Error);

/// serde_json's dynamically typed JSON value, carried through opaquely.
#[verifier::external_type_specification]
#[verifier::external_body]
pub struct ExJsonValue(serde_json::Value);

/// What `reformat_json` gives for a text: `Some` of the compact JSON text of
/// the value that serde_json parses from it, `None` when serde_json rejects it.
pub uninterp spec fn compact_json(text: Seq<char>) -> Option<Seq<char>>;

/// Calls `serde_json::from_str::<serde_json::Value>` on `text` and, when that
/// succeeds, `serde_json::to_string` on the parsed value. Trusted to give
/// `Ok` exactly when `compact_json(text)` is `Some`, holding that text:
/// `to_string` of a `Value` does not fail, since its object keys are strings.
/// What the compact text is, and which error comes back, is left to serde_json.
#[verifier::external_body]
pub(crate) fn reformat_json(text: &str) -> (r: Result<String, serde_json::Error>)
    ensures
        r is Ok <==> compact_json(text@) is Some,
        r matches Ok(s) ==> compact_json(text@) == Some(s@),
{
    match serde_json::from_str::<serde_json::Value>(text) {
        Ok(v) => serde_json::to_string(&v),
        Err(e) => Err(e),
    }
}

/// Calls `Display::fmt` of `serde_json::Error` (through `to_string`). Nothing is
/// promised of the text, which serde_json composes from the error's kind and position.
#[verifier::external_body]
pub(crate) fn json_error_text(e: &serde_json::Error) -> String {
    e.to_string()
}

} // verus!
