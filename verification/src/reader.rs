//! Reading documents from JSON text.

use vstd::prelude::*;
use crate::document::{Json, Tree};

verus! {

/// `serde_json::Value`, which the verified code only hands on.
#[verifier::external_type_specification]
#[verifier::external_body]
pub struct ExValue(serde_json::Value);

/// The document that a text denotes: the value of what `serde_json::from_str`
/// reads from it as a `serde_json::Value`, and `None` where it reports an
/// error. Nothing more is said of it than the contract of `read_document`
/// says: which texts are JSON, and what they denote, is for `serde_json` to
/// decide.
pub uninterp spec fn parsed_text(text: Seq<char>) -> Option<Tree>;

/// Copies a `serde_json::Value` into a document of this library, variant by
/// variant. Of a number it keeps what `serde_json::Number::as_u64` gives; the
/// members of an object come in the order of `serde_json::Map::iter`. Nothing
/// is claimed of the result.
#[verifier::external_body]
fn document_of(value: &serde_json::Value) -> Json {
    match value {
        serde_json::Value::Null => Json::Null,
        serde_json::Value::Bool(b) => Json::Bool(*b),
        serde_json::Value::Number(n) => Json::Number(n.as_u64()),
        serde_json::Value::String(s) => Json::Text(s.clone()),
        serde_json::Value::Array(items) => Json::Array(items.iter().map(document_of).collect()),
        serde_json::Value::Object(members) => Json::Object(
            members.iter().map(|(name, inner)| (name.clone(), document_of(inner))).collect(),
        ),
    }
}

/// Reads a document with `serde_json::from_str`. The contract claims one thing
/// of the call: that what comes back depends on the text alone. The result is
/// `None` exactly where `serde_json::from_str` reports an error.
#[verifier::external_body]
pub(crate) fn read_document(text: &str) -> (doc: Option<Json>)
    ensures
        match doc {
            Some(read) => parsed_text(text@) == Some(read@),
            None => parsed_text(text@) is None,
        },
{
    match serde_json::from_str::<serde_json::Value>(text) {
        Ok(value) => Some(document_of(&value)),
        Err(_) => None,
    }
}

} // verus!
