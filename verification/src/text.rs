//! The text boundary: JSON text is parsed into the document tree through
//! serde_json, and either decoding strategy runs straight from text.
use vstd::prelude::*;

use crate::closed::{decode_build, spec_decode_closed, Build};
use crate::error::DecodeError;
use crate::open::{decode_common_build, open_decoded, open_ok, open_wf, CommonBuild};
use crate::value::JsonValue;

verus! {

#[verifier::external_type_specification]
#[verifier::external_body]
pub struct ExSerdeValue(serde_json::Value);

#[verifier::external_type_specification]
#[verifier::external_body]
pub struct ExSerdeNumber(serde_json::Number);

/// The document a JSON text parses to, if any: a name for what
/// `parse_document` returns, which depends on the text alone.
pub uninterp spec fn doc_of_text(s: Seq<char>) -> Option<JsonValue>;

/// Relies on serde_json::Number::as_i64 and its display form: a parsed
/// number is a signed 64-bit integer where one holds it, else it is kept
/// by its literal spelling.
#[verifier::external_body]
fn number_to_document(n: serde_json::Number) -> (r: JsonValue) {
    match n.as_i64() {
        Some(i) => JsonValue::Int(i),
        None => JsonValue::BigNum(n.to_string()),
    }
}

/// Relies on serde_json::Value: converts the parsed tree one node for one.
#[verifier::external_body]
fn value_to_document(v: serde_json::Value) -> (r: Option<JsonValue>) {
    match v {
        serde_json::Value::Null => Some(JsonValue::Null),
        serde_json::Value::Bool(b) => Some(JsonValue::Bool(b)),
        serde_json::Value::Number(n) => Some(number_to_document(n)),
        serde_json::Value::String(s) => Some(JsonValue::Str(s)),
        serde_json::Value::Array(a) => a.into_iter().map(value_to_document).collect::<Option<
            Vec<_>,
        >>().map(JsonValue::Arr),
        serde_json::Value::Object(m) => m.into_iter().map(
            |p: (String, serde_json::Value)| value_to_document(p.1).map(|d| (p.0, d)),
        ).collect::<Option<Vec<_>>>().map(JsonValue::Obj),
    }
}

/// Relies on serde_json::from_str: parses one JSON document from text; the
/// result depends on the text alone. Empty exactly when the text is not a
/// single JSON document.
#[verifier::external_body]
pub fn parse_document(s: &str) -> (r: Option<JsonValue>)
    ensures
        r == doc_of_text(s@),
{
    match serde_json::from_str::<serde_json::Value>(s) {
        Ok(v) => value_to_document(v),
        Err(_) => None,
    }
}

/// Decode one build from JSON text under the closed strategy.
pub fn decode_build_text(s: &str) -> (r: Result<Build, DecodeError>)
    ensures
        doc_of_text(s@) is None ==> r == Err::<Build, DecodeError>(DecodeError::Syntax),
        doc_of_text(s@) matches Some(doc) ==> {
            &&& (r is Ok <==> spec_decode_closed(doc) is Some)
            &&& (r matches Ok(b) ==> Some(b@) == spec_decode_closed(doc))
            &&& (r matches Err(e) ==> e is StructuralDecodeError)
        },
{
    match parse_document(s) {
        Some(doc) => decode_build(doc),
        None => Err(DecodeError::Syntax),
    }
}

/// Decode one common record from JSON text under the open strategy.
pub fn decode_common_build_text(s: &str) -> (r: Result<CommonBuild, DecodeError>)
    ensures
        doc_of_text(s@) is None ==> r == Err::<CommonBuild, DecodeError>(DecodeError::Syntax),
        doc_of_text(s@) matches Some(doc) ==> {
            &&& (r is Ok <==> (doc is Obj && open_ok(doc->Obj_0@)))
            &&& (r matches Ok(b) ==> open_decoded(doc, b@) && open_wf(b@))
            &&& (r matches Err(e) ==> e is StructuralDecodeError)
        },
{
    match parse_document(s) {
        Some(doc) => decode_common_build(doc),
        None => Err(DecodeError::Syntax),
    }
}

} // verus!
