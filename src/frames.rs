use vstd::prelude::*;

verus! {

/// A JSON value as serde_json holds it; carried through unread.
#[verifier::external_type_specification]
#[verifier::external_body]
pub struct ExJsonValue(serde_json::Value);

/// Relies on `Clone` of `serde_json::Value`: a copy of the value, which the
/// library carries through unread; nothing is claimed of it.
pub assume_specification[ <serde_json::Value as std::clone::Clone>::clone ](
    v: &serde_json::Value,
) -> serde_json::Value;

/// Whether a text is one JSON document, as serde_json's parser decides it.
pub uninterp spec fn is_json_document(text: Seq<char>) -> bool;

/// Relies on `serde_json::from_str::<serde_json::Value>`: it succeeds exactly
/// on the texts that hold one JSON document, and depends on the text alone.
/// Its error is handed on as the text that serde_json's `Display` gives it.
#[verifier::external_body]
pub(crate) fn parse_json(text: &str) -> (r: Result<serde_json::Value, String>)
    ensures
        r.is_ok() == is_json_document(text@),
{
    match serde_json::from_str::<serde_json::Value>(text) {
        Ok(value) => Ok(value),
        Err(e) => Err(e.to_string()),
    }
}

} // verus!
