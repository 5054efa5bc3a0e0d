//! JSON text codec for the two payload shapes the packet layer carries:
//! character strings and byte vectors.
//!
//! Encoding and parsing are outside calls to `serde_json`, made behind
//! trusted wrappers whose contracts name their results; parsing an encoder
//! output always gives the original value back.

use vstd::prelude::*;
use crate::errors::ChannelError;

verus! {

/// The JSON text (as bytes) of a character string: a function of the string
/// alone.
pub uninterp spec fn json_of_text(s: Seq<char>) -> Seq<u8>;

/// What JSON parsing into a character string yields on a byte sequence, if
/// anything: a function of the input alone.
pub uninterp spec fn json_text_parse(data: Seq<u8>) -> Option<Seq<char>>;

/// The JSON text (as bytes) of a byte vector, an array of numbers: a function
/// of the bytes alone.
pub uninterp spec fn json_of_bytes(b: Seq<u8>) -> Seq<u8>;

/// What JSON parsing into a byte vector yields on a byte sequence, if
/// anything: a function of the input alone.
pub uninterp spec fn json_bytes_parse(data: Seq<u8>) -> Option<Seq<u8>>;

/// Relies on `serde_json::to_vec` for `str`: deterministic JSON text that
/// `serde_json::from_slice` parses back to the input string; serializing a
/// string slice itself never fails.
#[verifier::external_body]
pub fn json_encode_text(s: &str) -> (r: Vec<u8>)
    ensures
        r@ == json_of_text(s@),
        json_text_parse(r@) == Some(s@),
{
    serde_json::to_vec(s).unwrap()
}

/// Relies on `serde_json::from_slice` for `String`: a deterministic partial
/// function of the input.
#[verifier::external_body]
pub fn json_decode_text(data: &[u8]) -> (r: Result<String, ChannelError>)
    ensures
        match r {
            Ok(v) => json_text_parse(data@) == Some(v@),
            Err(e) => json_text_parse(data@) is None && e == ChannelError::SerializationError,
        },
{
    match serde_json::from_slice::<String>(data) {
        Ok(s) => Ok(s),
        Err(_) => Err(ChannelError::SerializationError),
    }
}

/// Relies on `serde_json::to_vec` for `[u8]`: deterministic JSON text (an
/// array of numbers) that `serde_json::from_slice` parses back to the input
/// bytes; serializing a byte slice itself never fails.
#[verifier::external_body]
pub fn json_encode_bytes(b: &[u8]) -> (r: Vec<u8>)
    ensures
        r@ == json_of_bytes(b@),
        json_bytes_parse(r@) == Some(b@),
{
    serde_json::to_vec(b).unwrap()
}

/// Relies on `serde_json::from_slice` for `Vec<u8>`: a deterministic partial
/// function of the input.
#[verifier::external_body]
pub fn json_decode_bytes(data: &[u8]) -> (r: Result<Vec<u8>, ChannelError>)
    ensures
        match r {
            Ok(v) => json_bytes_parse(data@) == Some(v@),
            Err(e) => json_bytes_parse(data@) is None && e == ChannelError::SerializationError,
        },
{
    match serde_json::from_slice::<Vec<u8>>(data) {
        Ok(v) => Ok(v),
        Err(_) => Err(ChannelError::SerializationError),
    }
}

} // verus!
