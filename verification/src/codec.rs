//! Decompression and JSON reading, as far as the corpus loader relies on
//! them: contracts on the `brotli` and `serde_json` crates that are taken
//! on trust.

use brotli::Decompressor;
use serde_json::Value;
use std::io::Read;
use vstd::prelude::*;

verus! {

/// `serde_json::Value`, carried through as an opaque value.
#[verifier::external_type_specification]
#[verifier::external_body]
pub struct ExValue(Value);

/// The bytes that brotli's `Decompressor`, reading through a buffer of
/// `buffer_size` bytes, gets out of a compressed stream, or `None` where it
/// reports an error.
pub uninterp spec fn brotli_decoded(compressed: Seq<u8>, buffer_size: usize) -> Option<Seq<u8>>;

/// The value that `serde_json::from_slice` reads from a JSON text, or
/// `None` where it reports an error.
pub uninterp spec fn parsed_json(text: Seq<u8>) -> Option<Value>;

/// The values of a JSON object's members, in the order in which the object
/// hands them out, or `None` where the value is not an object.
pub uninterp spec fn object_members(value: Value) -> Option<Seq<Value>>;

/// The text of a JSON string, or `None` where the value is not a string.
pub uninterp spec fn string_text(value: Value) -> Option<Seq<char>>;

/// Runs `Decompressor::new` over the bytes and reads it to the end.
/// Trusted: the outcome depends on the stream and the buffer size alone. An
/// error becomes its message.
#[verifier::external_body]
pub(crate) fn brotli_decompress(compressed: &[u8], buffer_size: usize) -> (r: Result<
    Vec<u8>,
    String,
>)
    ensures
        r is Ok <==> brotli_decoded(compressed@, buffer_size) is Some,
        r matches Ok(bytes) ==> brotli_decoded(compressed@, buffer_size) == Some(bytes@),
{
    let mut decompressed = Vec::new();
    match Decompressor::new(compressed, buffer_size).read_to_end(&mut decompressed) {
        Ok(_) => Ok(decompressed),
        Err(e) => Err(e.to_string()),
    }
}

/// Calls `serde_json::from_slice` for a `Value`.
/// Trusted: the outcome depends on the text alone. An error becomes its
/// message.
#[verifier::external_body]
pub(crate) fn parse_json(text: &[u8]) -> (r: Result<Value, String>)
    ensures
        r is Ok <==> parsed_json(text@) is Some,
        r matches Ok(value) ==> parsed_json(text@) == Some(value),
{
    match serde_json::from_slice::<Value>(text) {
        Ok(value) => Ok(value),
        Err(e) => Err(e.to_string()),
    }
}

/// Calls `Value::as_object` and, on an object, collects what `Map::values`
/// iterates over.
/// Trusted: the references come in the object's own order, one per member.
#[verifier::external_body]
pub(crate) fn member_values(value: &Value) -> (r: Option<Vec<&Value>>)
    ensures
        r is Some <==> object_members(*value) is Some,
        r matches Some(members) ==> {
            &&& members@.len() == object_members(*value).unwrap().len()
            &&& forall|i: int|
                0 <= i < members@.len() ==> *members@[i] == object_members(*value).unwrap()[i]
        },
{
    match value.as_object() {
        Some(map) => Some(map.values().collect()),
        None => None,
    }
}

/// `Value::as_str` hands out the text of a JSON string and `None` for every
/// other kind of value.
pub assume_specification[ Value::as_str ](value: &Value) -> (r: Option<&str>)
    ensures
        r is Some <==> string_text(*value) is Some,
        r matches Some(text) ==> string_text(*value) == Some(text@),
;

} // verus!
