//! Transport-safe text encoding.
//!
//! Wire payloads and state blobs travel as url-safe, unpadded base64 text.
//! Both directions are outside calls to the `base64` crate, made behind
//! trusted wrappers whose contracts name their results; decoding an encoder
//! output always gives the original bytes back.

use vstd::prelude::*;
use base64::{decode_config, encode_config, URL_SAFE_NO_PAD};
use crate::errors::ChannelError;

verus! {

/// Whether a byte belongs to the url-safe base64 alphabet: the letters,
/// the digits, `-` and `_`. Every byte the encoder emits is one of these,
/// which is what makes the encoding text-safe.
pub open spec fn is_b64url_byte(c: u8) -> bool {
    (0x41 <= c && c <= 0x5a) || (0x61 <= c && c <= 0x7a) || (0x30 <= c && c <= 0x39) || c == 0x2d
        || c == 0x5f
}

/// The url-safe, unpadded base64 text (as ASCII bytes) of a byte sequence:
/// a function of the input alone.
pub uninterp spec fn b64_of(data: Seq<u8>) -> Seq<u8>;

/// What url-safe, unpadded base64 decoding yields on a byte sequence, if
/// anything: a function of the input alone. The decoder also accepts some
/// inputs the encoder never produces (a padded suffix), so this is not simply
/// the inverse image of `b64_of`.
pub uninterp spec fn b64_decode_of(data: Seq<u8>) -> Option<Seq<u8>>;

/// Relies on `base64::encode_config` with `URL_SAFE_NO_PAD`: deterministic
/// text that `base64::decode_config` maps back to the input, four characters
/// for every three bytes (and two or three for a trailing one or two), all
/// of them in the url-safe alphabet.
#[verifier::external_body]
pub fn b64_encode(data: &[u8]) -> (r: Vec<u8>)
    ensures
        r@ == b64_of(data@),
        b64_decode_of(r@) == Some(data@),
        r@.len() == (4 * data@.len() + 2) / 3,
        forall|i: int| 0 <= i < r@.len() ==> is_b64url_byte(#[trigger] r@[i]),
{
    encode_config(data, URL_SAFE_NO_PAD).into_bytes()
}

/// Relies on `base64::decode_config` with `URL_SAFE_NO_PAD`: a deterministic
/// partial function of the input that inverts `base64::encode_config`.
#[verifier::external_body]
pub fn b64_decode(data: &[u8]) -> (r: Result<Vec<u8>, ChannelError>)
    ensures
        match r {
            Ok(v) => b64_decode_of(data@) == Some(v@) && (forall|d: Seq<u8>|
                data@ == b64_of(d) ==> d == v@),
            Err(e) => b64_decode_of(data@) is None && e == ChannelError::SerializationError && (
            forall|d: Seq<u8>| data@ != b64_of(d)),
        },
{
    match decode_config(data, URL_SAFE_NO_PAD) {
        Ok(v) => Ok(v),
        Err(_) => Err(ChannelError::SerializationError),
    }
}

} // verus!
