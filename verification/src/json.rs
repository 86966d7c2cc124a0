//! The boundary to the JSON serializer.

use serde_json::Value;
use vstd::prelude::*;
use vstd::utf8::encode_utf8;

verus! {

/// A JSON document, as `serde_json` holds it. The verifier sees nothing inside
/// it: the store only carries a document to the serializer.
#[verifier::external_type_specification]
#[verifier::external_body]
pub struct ExValue(Value);

/// What the serializer reports when it cannot encode a document.
#[verifier::external_type_specification]
#[verifier::external_body]
pub struct ExJsonError(serde_json::Error);

/// The compact JSON text of a document, or `None` where the serializer refuses
/// the document.
pub uninterp spec fn json_text(doc: Value) -> Option<Seq<char>>;

/// The bytes that stand for a document in the backing file: its JSON text in
/// UTF-8, with nothing before or after it.
pub open spec fn encoding(doc: Value) -> Option<Seq<u8>> {
    match json_text(doc) {
        Some(text) => Some(encode_utf8(text)),
        None => None,
    }
}

/// Calls `serde_json::to_string`. Nothing is proved of it. The contract claims
/// that the outcome depends on the document alone: the text of a success is
/// `json_text` of the document, and a failure comes exactly where `json_text`
/// is `None`.
#[verifier::external_body]
pub(crate) fn to_json_text(doc: &Value) -> (r: Result<String, serde_json::Error>)
    ensures
        match r {
            Ok(text) => json_text(*doc) == Some(text@),
            Err(_) => json_text(*doc).is_none(),
        },
{
    serde_json::to_string(doc)
}

} // verus!
