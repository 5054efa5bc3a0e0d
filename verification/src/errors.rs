use vstd::prelude::*;

verus! {

/// Failure taxonomy of the channel layer.
///
/// `CryptoError` covers encryption or decryption failure (wrong key material
/// or corrupted ciphertext, never distinguished to the caller).
/// `SerializationError` covers malformed hex, malformed binary framing,
/// malformed JSON, or a type mismatch on typed decode.
/// `StateError` covers any step of a state-blob decode failing (base64,
/// decryption, or deserialization), reported as one undifferentiated failure
/// so that the cause does not leak.
/// `NoStateFound` means an expected genesis-state message was absent or
/// malformed. `TransportError` passes through an opaque transport failure.
#[derive(Clone, Copy, Debug, PartialEq, Eq, Structural)]
pub enum ChannelError {
    CryptoError,
    SerializationError,
    StateError,
    NoStateFound,
    TransportError,
}

impl ChannelError {
    /// A short human-readable description of the failure.
    pub fn description(&self) -> (r: &'static str)
        ensures
            r@.len() > 0,
    {
        proof {
            reveal_strlit("encryption or decryption failed");
            reveal_strlit("malformed data during serialization or deserialization");
            reveal_strlit("could not decode the state blob");
            reveal_strlit("there is no state in the channel");
            reveal_strlit("transport failure");
        }
        match self {
            ChannelError::CryptoError => "encryption or decryption failed",
            ChannelError::SerializationError => "malformed data during serialization or deserialization",
            ChannelError::StateError => "could not decode the state blob",
            ChannelError::NoStateFound => "there is no state in the channel",
            ChannelError::TransportError => "transport failure",
        }
    }
}

} // verus!
