//! Packets and the serializer strategy they are parameterized by.
//!
//! A packet wraps a public field and a masked field, each independently
//! serialized by a pluggable strategy to hex text; the masked field may
//! additionally be symmetrically encrypted. The wire form of either field is
//! url-safe base64 text, the masked wire being ciphertext when a key/nonce
//! pair is present. The fixed pipeline is: value, serializer text, optional
//! encryption of the masked side, base64.

use core::marker::PhantomData;
use vstd::prelude::*;
use vstd::slice::slice_to_vec;
use crate::b64::{b64_decode, b64_encode, b64_of, b64_decode_of};
use crate::errors::ChannelError;
use crate::utility::{aead_len_ok, decrypt_data, encrypt_data, xchacha_seal};

verus! {

/// Serializer strategy: encodes the two payload shapes (byte vectors and
/// character strings) to opaque text bytes and decodes them back. Every
/// strategy round-trips: deserializing a serializer output gives the value
/// back, and that is part of the serialization contract itself.
pub trait StreamsPacketSerializer: Sized {
    /// The text bytes this strategy produces for a byte-vector payload.
    spec fn spec_ser_bytes(data: Seq<u8>) -> Seq<u8>;

    /// The text bytes this strategy produces for a string payload.
    spec fn spec_ser_text(data: Seq<char>) -> Seq<u8>;

    /// Whether text decodes as a byte-vector payload.
    spec fn spec_bytes_ok(data: Seq<u8>) -> bool;

    /// The byte-vector payload the text decodes to.
    spec fn spec_de_bytes(data: Seq<u8>) -> Seq<u8>;

    /// Whether text decodes as a string payload.
    spec fn spec_text_ok(data: Seq<u8>) -> bool;

    /// The string payload the text decodes to.
    spec fn spec_de_text(data: Seq<u8>) -> Seq<char>;

    /// Serialize a byte-vector payload; the output decodes back to the input.
    fn serialize_bytes(data: &[u8]) -> (r: Vec<u8>)
        ensures
            r@ == Self::spec_ser_bytes(data@),
            Self::spec_bytes_ok(r@),
            Self::spec_de_bytes(r@) == data@,
    ;

    /// Serialize a string payload; the output decodes back to the input.
    fn serialize_text(data: &str) -> (r: Vec<u8>)
        ensures
            r@ == Self::spec_ser_text(data@),
            Self::spec_text_ok(r@),
            Self::spec_de_text(r@) == data@,
    ;

    /// Decode text as a byte-vector payload; fails exactly on text this
    /// strategy cannot decode as one.
    fn deserialize_bytes(data: &[u8]) -> (r: Result<Vec<u8>, ChannelError>)
        ensures
            match r {
                Ok(v) => Self::spec_bytes_ok(data@) && v@ == Self::spec_de_bytes(data@),
                Err(e) => !Self::spec_bytes_ok(data@) && e == ChannelError::SerializationError,
            },
    ;

    /// Decode text as a string payload; fails exactly on text this strategy
    /// cannot decode as one.
    fn deserialize_text(data: &[u8]) -> (r: Result<String, ChannelError>)
        ensures
            match r {
                Ok(v) => Self::spec_text_ok(data@) && v@ == Self::spec_de_text(data@),
                Err(e) => !Self::spec_text_ok(data@) && e == ChannelError::SerializationError,
            },
    ;
}

/// The view of an optional key/nonce pair as byte sequences.
pub open spec fn kn_view(kn: Option<([u8; 32], [u8; 24])>) -> Option<(Seq<u8>, Seq<u8>)> {
    match kn {
        None => None,
        Some((k, n)) => Some((k@, n@)),
    }
}

/// The wire form of a serialized public field: its base64 text.
pub open spec fn spec_public_wire(p: Seq<u8>) -> Seq<u8> {
    b64_of(p)
}

/// The wire form of a serialized masked field: base64 text of either the text
/// itself or, under a key/nonce pair, of its ciphertext.
pub open spec fn spec_masked_wire(m: Seq<u8>, kn: Option<(Seq<u8>, Seq<u8>)>) -> Seq<u8> {
    match kn {
        None => b64_of(m),
        Some((k, n)) => b64_of(xchacha_seal(m, k, n)),
    }
}

/// Whether the masked side can be put on the wire: unencrypted always, and
/// under a key/nonce pair whenever the cipher accepts the length.
pub open spec fn spec_masked_fits(m: Seq<u8>, kn: Option<(Seq<u8>, Seq<u8>)>) -> bool {
    kn is Some ==> aead_len_ok(m.len())
}

/// An immutable packet: the two serialized payload fields held in decoded
/// (pre-base64, post-strategy) form, plus the optional key/nonce pair the
/// masked field is encrypted under on the wire.
pub struct StreamsPacket<P> {
    p_data: Vec<u8>,
    m_data: Vec<u8>,
    key_nonce: Option<([u8; 32], [u8; 24])>,
    _marker: PhantomData<P>,
}

impl<P: StreamsPacketSerializer> StreamsPacket<P> {
    /// The serialized public field.
    pub closed spec fn p_view(self) -> Seq<u8> {
        self.p_data@
    }

    /// The serialized masked field.
    pub closed spec fn m_view(self) -> Seq<u8> {
        self.m_data@
    }

    /// The key/nonce pair, if any.
    pub closed spec fn kn(self) -> Option<(Seq<u8>, Seq<u8>)> {
        kn_view(self.key_nonce)
    }

    /// Build a packet directly from its serialized fields.
    pub fn new(p_data: &[u8], m_data: &[u8], key_nonce: Option<([u8; 32], [u8; 24])>) -> (r:
        StreamsPacket<P>)
        ensures
            r.p_view() == p_data@,
            r.m_view() == m_data@,
            r.kn() == kn_view(key_nonce),
    {
        StreamsPacket {
            p_data: slice_to_vec(p_data),
            m_data: slice_to_vec(m_data),
            key_nonce,
            _marker: PhantomData,
        }
    }

    /// Decode a packet from its two wire fields. The public wire is base64
    /// text; the masked wire is base64 text of either the masked field or,
    /// when a key/nonce pair is supplied, of its ciphertext. Fails with
    /// `SerializationError` on malformed base64 and `CryptoError` when the
    /// ciphertext does not verify under the pair. Decoding any pair of wires
    /// that a packet with this key/nonce pair produced gives that packet's
    /// fields back.
    pub fn from_streams_response(
        p_data: &[u8],
        m_data: &[u8],
        key_nonce: &Option<([u8; 32], [u8; 24])>,
    ) -> (r: Result<StreamsPacket<P>, ChannelError>)
        ensures
            match r {
                Ok(pk) => {
                    &&& b64_decode_of(p_data@) == Some(pk.p_view())
                    &&& match kn_view(*key_nonce) {
                        None => b64_decode_of(m_data@) == Some(pk.m_view()),
                        Some((k, n)) => b64_decode_of(m_data@) == Some(
                            xchacha_seal(pk.m_view(), k, n),
                        ),
                    }
                    &&& pk.kn() == kn_view(*key_nonce)
                },
                Err(e) => {
                    &&& (e == ChannelError::SerializationError || e == ChannelError::CryptoError)
                    &&& match kn_view(*key_nonce) {
                        None => b64_decode_of(p_data@) is None || b64_decode_of(m_data@) is None,
                        Some((k, n)) => b64_decode_of(p_data@) is None || b64_decode_of(
                            m_data@,
                        ) is None || (forall|d: Seq<u8>|
                            aead_len_ok(d.len()) ==> b64_decode_of(m_data@) != Some(
                                xchacha_seal(d, k, n),
                            )),
                    }
                },
            },
            forall|p: Seq<u8>, m: Seq<u8>|
                (p_data@ == spec_public_wire(p) && m_data@ == spec_masked_wire(
                    m,
                    kn_view(*key_nonce),
                ) && spec_masked_fits(m, kn_view(*key_nonce))) ==> (r matches Ok(pk) && pk.p_view()
                    == p && pk.m_view() == m),
    {
        let p = match b64_decode(p_data) {
            Ok(v) => v,
            Err(e) => {
                return Err(e);
            },
        };
        let m1 = match b64_decode(m_data) {
            Ok(v) => v,
            Err(e) => {
                return Err(e);
            },
        };
        let m = match key_nonce {
            None => m1,
            Some((key, nonce)) => {
                match decrypt_data(m1.as_slice(), key, nonce) {
                    Ok(v) => v,
                    Err(e) => {
                        return Err(e);
                    },
                }
            },
        };
        Ok(
            StreamsPacket {
                p_data: p,
                m_data: m,
                key_nonce: *key_nonce,
                _marker: PhantomData,
            },
        )
    }

    /// The public wire field: base64 text of the serialized public field.
    pub fn public_data(&self) -> (r: Vec<u8>)
        ensures
            r@ == spec_public_wire(self.p_view()),
            b64_decode_of(r@) == Some(self.p_view()),
            r@.len() == (4 * self.p_view().len() + 2) / 3,
    {
        b64_encode(self.p_data.as_slice())
    }

    /// The masked wire field: base64 text of the serialized masked field,
    /// encrypted first when this packet carries a key/nonce pair. Fails only
    /// when the cipher rejects the masked field's length.
    pub fn masked_data(&self) -> (r: Result<Vec<u8>, ChannelError>)
        ensures
            match r {
                Ok(v) => {
                    &&& v@ == spec_masked_wire(self.m_view(), self.kn())
                    &&& spec_masked_fits(self.m_view(), self.kn())
                    &&& match self.kn() {
                        None => b64_decode_of(v@) == Some(self.m_view()) && v@.len() == (4
                            * self.m_view().len() + 2) / 3,
                        Some((k, n)) => b64_decode_of(v@) == Some(
                            xchacha_seal(self.m_view(), k, n),
                        ) && v@.len() == (4 * (self.m_view().len() + 16) + 2) / 3,
                    }
                },
                Err(e) => !spec_masked_fits(self.m_view(), self.kn()) && e
                    == ChannelError::CryptoError,
            },
    {
        match &self.key_nonce {
            None => Ok(b64_encode(self.m_data.as_slice())),
            Some((key, nonce)) => {
                let enc = match encrypt_data(self.m_data.as_slice(), key, nonce) {
                    Ok(v) => v,
                    Err(e) => {
                        return Err(e);
                    },
                };
                Ok(b64_encode(enc.as_slice()))
            },
        }
    }

    /// Decode the public field as a string payload.
    pub fn deserialize_public_text(&self) -> (r: Result<String, ChannelError>)
        ensures
            match r {
                Ok(v) => P::spec_text_ok(self.p_view()) && v@ == P::spec_de_text(self.p_view()),
                Err(e) => !P::spec_text_ok(self.p_view()) && e == ChannelError::SerializationError,
            },
    {
        P::deserialize_text(self.p_data.as_slice())
    }

    /// Decode the public field as a byte-vector payload.
    pub fn deserialize_public_bytes(&self) -> (r: Result<Vec<u8>, ChannelError>)
        ensures
            match r {
                Ok(v) => P::spec_bytes_ok(self.p_view()) && v@ == P::spec_de_bytes(self.p_view()),
                Err(e) => !P::spec_bytes_ok(self.p_view()) && e == ChannelError::SerializationError,
            },
    {
        P::deserialize_bytes(self.p_data.as_slice())
    }

    /// Decode the masked field as a string payload.
    pub fn deserialize_masked_text(&self) -> (r: Result<String, ChannelError>)
        ensures
            match r {
                Ok(v) => P::spec_text_ok(self.m_view()) && v@ == P::spec_de_text(self.m_view()),
                Err(e) => !P::spec_text_ok(self.m_view()) && e == ChannelError::SerializationError,
            },
    {
        P::deserialize_text(self.m_data.as_slice())
    }

    /// Decode the masked field as a byte-vector payload.
    pub fn deserialize_masked_bytes(&self) -> (r: Result<Vec<u8>, ChannelError>)
        ensures
            match r {
                Ok(v) => P::spec_bytes_ok(self.m_view()) && v@ == P::spec_de_bytes(self.m_view()),
                Err(e) => !P::spec_bytes_ok(self.m_view()) && e == ChannelError::SerializationError,
            },
    {
        P::deserialize_bytes(self.m_data.as_slice())
    }

    /// Decode the public field as a string and the masked field as bytes in
    /// one step.
    pub fn deserialize(&self) -> (r: Result<(String, Vec<u8>), ChannelError>)
        ensures
            match r {
                Ok((p, m)) => {
                    &&& P::spec_text_ok(self.p_view())
                    &&& p@ == P::spec_de_text(self.p_view())
                    &&& P::spec_bytes_ok(self.m_view())
                    &&& m@ == P::spec_de_bytes(self.m_view())
                },
                Err(e) => (!P::spec_text_ok(self.p_view()) || !P::spec_bytes_ok(self.m_view()))
                    && e == ChannelError::SerializationError,
            },
    {
        let p = match P::deserialize_text(self.p_data.as_slice()) {
            Ok(v) => v,
            Err(e) => {
                return Err(e);
            },
        };
        let m = match P::deserialize_bytes(self.m_data.as_slice()) {
            Ok(v) => v,
            Err(e) => {
                return Err(e);
            },
        };
        Ok((p, m))
    }
}

/// Builder for a packet: set the public and masked values (each serialized on
/// the spot), optionally a key/nonce pair, then build.
pub struct StreamsPacketBuilder<P> {
    public: Vec<u8>,
    masked: Vec<u8>,
    key_nonce: Option<([u8; 32], [u8; 24])>,
    _marker: PhantomData<P>,
}

impl<P: StreamsPacketSerializer> StreamsPacketBuilder<P> {
    /// The serialized public field set so far.
    pub closed spec fn public_view(self) -> Seq<u8> {
        self.public@
    }

    /// The serialized masked field set so far.
    pub closed spec fn masked_view(self) -> Seq<u8> {
        self.masked@
    }

    /// The key/nonce pair set so far, if any.
    pub closed spec fn kn(self) -> Option<(Seq<u8>, Seq<u8>)> {
        kn_view(self.key_nonce)
    }

    /// A fresh builder: both fields empty, no key/nonce pair.
    pub fn new() -> (r: StreamsPacketBuilder<P>)
        ensures
            r.public_view() == Seq::<u8>::empty(),
            r.masked_view() == Seq::<u8>::empty(),
            r.kn() is None,
    {
        StreamsPacketBuilder {
            public: Vec::new(),
            masked: Vec::new(),
            key_nonce: None,
            _marker: PhantomData,
        }
    }

    /// Set the public field from a byte-vector value.
    pub fn public_bytes(&mut self, data: &[u8])
        ensures
            final(self).public_view() == P::spec_ser_bytes(data@),
            P::spec_bytes_ok(final(self).public_view()),
            P::spec_de_bytes(final(self).public_view()) == data@,
            final(self).masked_view() == old(self).masked_view(),
            final(self).kn() == old(self).kn(),
    {
        self.public = P::serialize_bytes(data);
    }

    /// Set the public field from a string value.
    pub fn public_text(&mut self, data: &str)
        ensures
            final(self).public_view() == P::spec_ser_text(data@),
            P::spec_text_ok(final(self).public_view()),
            P::spec_de_text(final(self).public_view()) == data@,
            final(self).masked_view() == old(self).masked_view(),
            final(self).kn() == old(self).kn(),
    {
        self.public = P::serialize_text(data);
    }

    /// Set the masked field from a byte-vector value.
    pub fn masked_bytes(&mut self, data: &[u8])
        ensures
            final(self).masked_view() == P::spec_ser_bytes(data@),
            P::spec_bytes_ok(final(self).masked_view()),
            P::spec_de_bytes(final(self).masked_view()) == data@,
            final(self).public_view() == old(self).public_view(),
            final(self).kn() == old(self).kn(),
    {
        self.masked = P::serialize_bytes(data);
    }

    /// Set the masked field from a string value.
    pub fn masked_text(&mut self, data: &str)
        ensures
            final(self).masked_view() == P::spec_ser_text(data@),
            P::spec_text_ok(final(self).masked_view()),
            P::spec_de_text(final(self).masked_view()) == data@,
            final(self).public_view() == old(self).public_view(),
            final(self).kn() == old(self).kn(),
    {
        self.masked = P::serialize_text(data);
    }

    /// Set the key/nonce pair the masked field will be encrypted under.
    pub fn key_nonce(&mut self, key: &[u8; 32], nonce: &[u8; 24])
        ensures
            final(self).kn() == Some((key@, nonce@)),
            final(self).public_view() == old(self).public_view(),
            final(self).masked_view() == old(self).masked_view(),
    {
        self.key_nonce = Some((*key, *nonce));
    }

    /// Build the packet from what has been set.
    pub fn build(&self) -> (r: StreamsPacket<P>)
        ensures
            r.p_view() == self.public_view(),
            r.m_view() == self.masked_view(),
            r.kn() == self.kn(),
    {
        StreamsPacket::new(self.public.as_slice(), self.masked.as_slice(), self.key_nonce)
    }
}

} // verus!
