//! JSON parsing, delegated to `serde_json`.
//!
//! A response body is handed to the parser as text and comes back either
//! as a `serde_json::Value` or as the parser's error description. Both
//! are functions of the characters alone, so the whole outcome is named
//! by [`json_doc`] and every caller's contract speaks of that name.

use vstd::prelude::*;

verus! {

#[verifier::external_type_specification]
#[verifier::external_body]
pub struct ExValue(serde_json::Value);

/// What `serde_json::from_str::<serde_json::Value>` makes of a text:
/// the parsed document, or the parser's error description.
pub uninterp spec fn json_doc(s: Seq<char>) -> Result<serde_json::Value, Seq<char>>;

/// Relies on serde_json::from_str: it parses the whole text as one JSON
/// document, and both the resulting value and the error description
/// depend on the characters alone.
#[verifier::external_body]
pub(crate) fn parse_json(s: &str) -> (r: Result<serde_json::Value, String>)
    ensures
        (r matches Ok(v) ==> json_doc(s@) matches Ok(w) && v == w),
        (r matches Err(m) ==> json_doc(s@) matches Err(d) && m@ == d),
{
    match serde_json::from_str::<serde_json::Value>(s) {
        Ok(v) => Ok(v),
        Err(e) => Err(format!("{}", e)),
    }
}

} // verus!
