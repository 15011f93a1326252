//! The history document: a JSON value parsed and encoded by `serde_json`.
//!
//! The document value itself is opaque here; the names below give the
//! contracts their vocabulary over it. Reading is deliberately lenient:
//! missing or malformed content stands for "no history yet" and becomes the
//! empty array.

use vstd::prelude::*;

verus! {

#[verifier::external_type_specification]
#[verifier::external_body]
pub struct ExValue(serde_json::Value);

/// What `serde_json::Value::is_array` returns for a value.
pub uninterp spec fn is_json_array(v: serde_json::Value) -> bool;

/// What `serde_json::from_str::<Value>` returns for a text: the parsed value,
/// or `None` when the text is not valid JSON.
pub uninterp spec fn json_parsed(text: Seq<char>) -> Option<serde_json::Value>;

/// What `serde_json::to_vec_pretty` returns for a value: its pretty-printed
/// encoding, or `None` when the value cannot be encoded.
pub uninterp spec fn json_pretty(v: serde_json::Value) -> Option<Seq<u8>>;

/// Relies on `serde_json::Value::is_array`: true exactly when the value is a
/// JSON array.
pub assume_specification[ serde_json::Value::is_array ](v: &serde_json::Value) -> (r: bool)
    ensures
        r == is_json_array(*v),
;

/// Relies on `serde_json::from_str`: whether and how a text parses depends on
/// the text alone.
#[verifier::external_body]
fn parse_json_text(text: &str) -> (r: Option<serde_json::Value>)
    ensures
        r == json_parsed(text@),
{
    serde_json::from_str::<serde_json::Value>(text).ok()
}

/// Relies on `serde_json::to_vec_pretty`: the encoding of a value depends on
/// the value alone.
#[verifier::external_body]
pub(crate) fn encode_json_pretty(document: &serde_json::Value) -> (r: Option<Vec<u8>>)
    ensures
        r matches Some(bytes) ==> json_pretty(*document) == Some(bytes@),
        r is None ==> json_pretty(*document) is None,
{
    serde_json::to_vec_pretty(document).ok()
}

/// Relies on `serde_json::from_str`: the two-character text "[]" parses
/// successfully, and the value it yields is a JSON array.
#[verifier::external_body]
pub fn empty_history_document() -> (r: serde_json::Value)
    ensures
        is_json_array(r),
        json_parsed("[]"@) == Some(r),
{
    serde_json::from_str::<serde_json::Value>("[]").unwrap_or(serde_json::Value::Array(Vec::new()))
}

/// The effective history for given on-disk content: the parsed value when the
/// content is present and parses, and the empty array when the file was
/// missing (`None`) or held invalid JSON. Reading never surfaces an error.
pub fn interpret_history(content: &Option<String>) -> (r: serde_json::Value)
    ensures
        match content {
            Some(text) => {
                if json_parsed(text@) is Some {
                    Some(r) == json_parsed(text@)
                } else {
                    Some(r) == json_parsed("[]"@) && is_json_array(r)
                }
            },
            None => Some(r) == json_parsed("[]"@) && is_json_array(r),
        },
{
    match content {
        Some(text) => match parse_json_text(text.as_str()) {
            Some(v) => v,
            None => empty_history_document(),
        },
        None => empty_history_document(),
    }
}

} // verus!
