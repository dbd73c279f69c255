//! Trusted boundary to the JSON codec. The bridge carries command
//! payloads and error payloads as opaque `serde_json::Value`s; the one
//! thing it asks of the codec is the JSON text of such a value, when
//! serializing a command outcome into a response body.

use vstd::prelude::*;

verus! {

#[verifier::external_type_specification]
#[verifier::external_body]
pub struct ExJsonValue(serde_json::Value);

#[verifier::external_type_specification]
#[verifier::external_body]
pub struct ExJsonError(serde_json::Error);

/// The JSON text of a value, or `None` where the codec cannot render
/// it. Uninterpreted: the text is fixed by the value alone, and nothing
/// more is assumed of it.
pub uninterp spec fn json_text(v: serde_json::Value) -> Option<Seq<char>>;

/// Relies on `serde_json::to_string`: the JSON text of a value, a
/// function of the value alone (the crate's default map representation
/// is ordered, so equal values render equally); it errs only where the
/// value cannot be rendered.
#[verifier::external_body]
pub(crate) fn to_json_text(v: &serde_json::Value) -> (r: Result<String, serde_json::Error>)
    ensures
        r matches Ok(s) ==> json_text(*v) == Some(s@),
        r is Err <==> json_text(*v) is None,
{
    serde_json::to_string(v)
}

} // verus!
