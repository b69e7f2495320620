//! JSON bodies, as far as the engine handles them: a value is written out
//! to be sent, and a received body is read into a value.

use vstd::prelude::*;

verus! {

/// A JSON value of `serde_json`. The engine hands it through unread.
#[verifier::external_type_specification]
#[verifier::external_body]
pub struct ExValue(serde_json::Value);

/// Whether `serde_json::from_slice` reads the bytes as a JSON value.
pub uninterp spec fn is_json(data: Seq<u8>) -> bool;

/// The bytes of the empty JSON object, `{}`.
pub open spec fn empty_object() -> Seq<u8> {
    seq![123u8, 125u8]
}

/// Reads bytes as a JSON value. Trusted: whether `serde_json::from_slice`
/// succeeds depends on the bytes alone, and it does succeed on `{}`.
#[verifier::external_body]
pub(crate) fn json_from_slice(data: &[u8]) -> (r: Option<serde_json::Value>)
    ensures
        r is Some <==> is_json(data@),
        data@ == empty_object() ==> r is Some,
{
    serde_json::from_slice(data).ok()
}

/// Writes a JSON value out as text, through the `Display` of
/// `serde_json::Value`. Nothing is claimed of the text.
#[verifier::external_body]
pub(crate) fn json_to_string(value: &serde_json::Value) -> String {
    value.to_string()
}

} // verus!
