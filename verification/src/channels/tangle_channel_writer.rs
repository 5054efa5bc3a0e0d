//! The channel writer.
//!
//! A writer owns the authoring side of one channel: it records the channel
//! announcement, prepares signed packets addressed to its publish pointer,
//! and advances that pointer as the transport confirms each publish, so that
//! every new message links to the previous one in an append chain. The
//! application's transport loop performs the sends and hands back the
//! returned message ids; every value that crosses the wire, and every pointer
//! move, is computed and verified here. The writer's full state travels as
//! the encrypted portable blob of `ChannelState`.

use vstd::prelude::*;
use vstd::string::StringSliceAdditionalSpecFns;
use vstd::utf8::encode_utf8;
use crate::b64::{b64_decode_of, is_b64url_byte};
use crate::channels::channel_state::{
    genesis_marker, record_bytes, spec_state_blob, state_marker, state_wf, ChannelState,
    ChannelStateView,
};
use crate::channels::messages::TransportMessage;
use crate::channels::tangle_channel_reader::is_state_entry;
use crate::errors::ChannelError;
use crate::hexcode::hex_decodable;
use crate::payload::payload_serializers::{RawPacket, RawPacketBuilder, RawSerializer};
use crate::payload::payload_types::{
    kn_view, spec_masked_fits, spec_masked_wire, spec_public_wire, StreamsPacketSerializer,
};
use crate::utility::{
    aead_len_ok, create_link, spec_msg_index, spec_state_key, spec_state_nonce, xchacha_seal, Link,
};

verus! {

/// Whether a fetched message is a channel's genesis-state message: a signed
/// packet whose public field deserializes (raw strategy, no key material) to
/// the channel's genesis marker and whose masked field deserializes as bytes.
pub open spec fn spec_state_msg_ok(
    m: Option<TransportMessage>,
    cid: Seq<char>,
    aid: Seq<char>,
) -> bool {
    match m {
        Some(TransportMessage::SignedPacket { public, masked, .. }) => {
            match (b64_decode_of(public@), b64_decode_of(masked@)) {
                (Some(p), Some(mm)) => {
                    &&& RawSerializer::spec_text_ok(p)
                    &&& RawSerializer::spec_de_text(p) == genesis_marker(cid, aid)
                    &&& RawSerializer::spec_bytes_ok(mm)
                },
                _ => false,
            }
        },
        _ => false,
    }
}

/// The encrypted state blob a genesis-state message carries in its masked
/// field.
pub open spec fn spec_state_payload(m: Option<TransportMessage>) -> Seq<u8> {
    match m {
        Some(TransportMessage::SignedPacket { masked, .. }) => {
            match b64_decode_of(masked@) {
                Some(mm) => RawSerializer::spec_de_bytes(mm),
                None => vstd::pervasive::arbitrary(),
            }
        },
        _ => vstd::pervasive::arbitrary(),
    }
}

/// A writer of one channel: the channel address, the announcement id, and
/// the publish pointer - the id of the most recently published (or replayed)
/// message, which the next publish links to.
pub struct ChannelWriter {
    channel_address: String,
    announcement_id: String,
    last_msg_id: String,
}

impl ChannelWriter {
    /// The channel id.
    pub closed spec fn addr(self) -> Seq<char> {
        self.channel_address@
    }

    /// The announcement id.
    pub closed spec fn ann_id(self) -> Seq<char> {
        self.announcement_id@
    }

    /// The publish pointer.
    pub closed spec fn last_msg(self) -> Seq<char> {
        self.last_msg_id@
    }

    /// The state record an export of this writer around the given
    /// credentials yields.
    pub open spec fn spec_export_record(self, credentials: Seq<u8>) -> ChannelStateView {
        ChannelStateView {
            user_state: credentials,
            channel_id: self.addr(),
            announcement_id: self.ann_id(),
            last_msg_id: self.last_msg(),
        }
    }

    /// A fresh writer bound to the channel address its session reports; not
    /// yet opened, so both ids are empty.
    pub fn new(channel_address: &str) -> (r: ChannelWriter)
        ensures
            r.addr() == channel_address@,
            r.ann_id() == Seq::<char>::empty(),
            r.last_msg() == Seq::<char>::empty(),
    {
        proof {
            reveal_strlit("");
        }
        let r = ChannelWriter {
            channel_address: channel_address.to_owned(),
            announcement_id: "".to_owned(),
            last_msg_id: "".to_owned(),
        };
        proof {
            assert(r.ann_id() =~= Seq::<char>::empty());
            assert(r.last_msg() =~= Seq::<char>::empty());
        }
        r
    }

    /// Rebuild a writer from a restored state record and the channel address
    /// the transport reports for the restored credentials.
    pub fn import(state: &ChannelState, channel_address: &str) -> (r: ChannelWriter)
        ensures
            r.addr() == channel_address@,
            r.ann_id() == state@.announcement_id,
            r.last_msg() == state@.last_msg_id,
    {
        ChannelWriter {
            channel_address: channel_address.to_owned(),
            announcement_id: state.announcement_id(),
            last_msg_id: state.last_msg_id(),
        }
    }

    /// Record the announcement the transport has sent for this channel: its
    /// message id becomes both the announcement id and the initial publish
    /// pointer. Returns the channel address and the announcement id.
    pub fn record_announcement(&mut self, announce_msg_id: &str) -> (r: (String, String))
        ensures
            final(self).addr() == old(self).addr(),
            final(self).ann_id() == announce_msg_id@,
            final(self).last_msg() == announce_msg_id@,
            r.0@ == old(self).addr(),
            r.1@ == announce_msg_id@,
    {
        self.announcement_id = announce_msg_id.to_owned();
        self.last_msg_id = announce_msg_id.to_owned();
        (self.channel_address.clone(), self.announcement_id.clone())
    }

    /// Advance the publish pointer to the id the transport returned for a
    /// successful publish. A failed publish hands nothing back, so the
    /// pointer never moves for one.
    pub fn confirm_publish(&mut self, msg_id: &str)
        ensures
            final(self).addr() == old(self).addr(),
            final(self).ann_id() == old(self).ann_id(),
            final(self).last_msg() == msg_id@,
    {
        self.last_msg_id = msg_id.to_owned();
    }

    /// Resynchronize the publish pointer against one replayed batch of the
    /// transport's pending messages: the pointer moves to the last replayed
    /// id, and stays put on an empty batch.
    pub fn advance_to_latest(&mut self, replayed: &Vec<String>)
        ensures
            final(self).addr() == old(self).addr(),
            final(self).ann_id() == old(self).ann_id(),
            final(self).last_msg() == if replayed@.len() > 0 {
                replayed@.last()@
            } else {
                old(self).last_msg()
            },
    {
        if replayed.len() > 0 {
            self.last_msg_id = replayed[replayed.len() - 1].clone();
        }
    }

    /// Prepare a signed packet publish from raw payload values: the link it
    /// must be addressed to (the current publish pointer) and the two wire
    /// fields, the masked one encrypted when a key/nonce pair is given.
    /// Rejected with `TransportError` when the channel coordinates are not
    /// hex text, and with `CryptoError` when the cipher rejects the masked
    /// field's length.
    pub fn prepare_signed_raw(
        &self,
        p_data: &[u8],
        m_data: &[u8],
        key_nonce: &Option<([u8; 32], [u8; 24])>,
    ) -> (r: Result<(Link, Vec<u8>, Vec<u8>), ChannelError>)
        ensures
            match r {
                Ok((link, pw, mw)) => {
                    &&& link.channel_id@ == self.addr()
                    &&& link.msg_id@ == self.last_msg()
                    &&& pw@ == spec_public_wire(RawSerializer::spec_ser_bytes(p_data@))
                    &&& mw@ == spec_masked_wire(
                        RawSerializer::spec_ser_bytes(m_data@),
                        kn_view(*key_nonce),
                    )
                    &&& spec_masked_fits(RawSerializer::spec_ser_bytes(m_data@), kn_view(*key_nonce))
                    &&& pw@.len() > 0
                    &&& mw@.len() > 0
                },
                Err(e) => (!(hex_decodable(encode_utf8(self.addr())) && hex_decodable(
                    encode_utf8(self.last_msg()),
                )) && e == ChannelError::TransportError) || (!spec_masked_fits(
                    RawSerializer::spec_ser_bytes(m_data@),
                    kn_view(*key_nonce),
                ) && e == ChannelError::CryptoError),
            },
    {
        let link = match create_link(self.channel_address.as_str(), self.last_msg_id.as_str()) {
            Ok(l) => l,
            Err(e) => {
                return Err(e);
            },
        };
        let mut builder = RawPacketBuilder::new();
        builder.public_bytes(p_data);
        builder.masked_bytes(m_data);
        match key_nonce {
            Some((key, nonce)) => {
                builder.key_nonce(key, nonce);
            },
            None => {},
        }
        let packet = builder.build();
        let pw = packet.public_data();
        let mw = match packet.masked_data() {
            Ok(v) => v,
            Err(e) => {
                return Err(e);
            },
        };
        Ok((link, pw, mw))
    }

    /// Prepare the publish of an already-built packet: the link it must be
    /// addressed to and its two wire fields. Rejected with `TransportError`
    /// exactly when the channel coordinates are not hex text, and with
    /// `CryptoError` exactly when the cipher rejects the masked field's
    /// length.
    pub fn prepare_signed_packet(&self, packet: &RawPacket) -> (r: Result<
        (Link, Vec<u8>, Vec<u8>),
        ChannelError,
    >)
        ensures
            match r {
                Ok((link, pw, mw)) => {
                    &&& link.channel_id@ == self.addr()
                    &&& link.msg_id@ == self.last_msg()
                    &&& pw@ == spec_public_wire(packet.p_view())
                    &&& mw@ == spec_masked_wire(packet.m_view(), packet.kn())
                    &&& spec_masked_fits(packet.m_view(), packet.kn())
                },
                Err(e) => (!(hex_decodable(encode_utf8(self.addr())) && hex_decodable(
                    encode_utf8(self.last_msg()),
                )) && e == ChannelError::TransportError) || (!spec_masked_fits(
                    packet.m_view(),
                    packet.kn(),
                ) && e == ChannelError::CryptoError),
            },
    {
        let link = match create_link(self.channel_address.as_str(), self.last_msg_id.as_str()) {
            Ok(l) => l,
            Err(e) => {
                return Err(e);
            },
        };
        let pw = packet.public_data();
        let mw = match packet.masked_data() {
            Ok(v) => v,
            Err(e) => {
                return Err(e);
            },
        };
        Ok((link, pw, mw))
    }

    /// Prepare the genesis-state publish for an opened channel: a packet
    /// whose public field is the channel's genesis marker and whose masked
    /// field is the encrypted state blob, unencrypted at the packet layer
    /// (the blob's own encryption already provides confidentiality).
    /// Rejected exactly when the channel coordinates are not hex text.
    pub fn prepare_state_msg(&self, state_blob: &[u8]) -> (r: Result<
        (Link, Vec<u8>, Vec<u8>),
        ChannelError,
    >)
        ensures
            match r {
                Ok((link, pw, mw)) => {
                    &&& link.channel_id@ == self.addr()
                    &&& link.msg_id@ == self.last_msg()
                    &&& pw@ == spec_public_wire(
                        RawSerializer::spec_ser_text(genesis_marker(self.addr(), self.ann_id())),
                    )
                    &&& mw@ == spec_masked_wire(RawSerializer::spec_ser_bytes(state_blob@), None)
                    &&& forall|id: String|
                        is_state_entry((id, pw, mw), self.addr(), self.ann_id())
                    &&& pw@.len() > 0
                    &&& mw@.len() > 0
                },
                Err(e) => !(hex_decodable(encode_utf8(self.addr())) && hex_decodable(
                    encode_utf8(self.last_msg()),
                )) && e == ChannelError::TransportError,
            },
    {
        let link = match create_link(self.channel_address.as_str(), self.last_msg_id.as_str()) {
            Ok(l) => l,
            Err(e) => {
                return Err(e);
            },
        };
        let marker = state_marker(self.channel_address.as_str(), self.announcement_id.as_str());
        let mut builder = RawPacketBuilder::new();
        builder.public_text(marker.as_str());
        builder.masked_bytes(state_blob);
        let packet = builder.build();
        let pw = packet.public_data();
        let mw = match packet.masked_data() {
            Ok(v) => v,
            Err(_) => {
                return Err(ChannelError::TransportError);
            },
        };
        Ok((link, pw, mw))
    }

    /// Pull the encrypted state blob out of a channel's expected genesis
    /// message: the first fetched message must be a signed packet whose
    /// public field deserializes to the channel's genesis marker; its masked
    /// field is the blob. Fails with `NoStateFound` exactly when the message
    /// is absent, is not a signed packet, or does not carry the marker.
    pub fn extract_state_payload(
        channel_id: &str,
        announce_id: &str,
        first_msg: &Option<TransportMessage>,
    ) -> (r: Result<Vec<u8>, ChannelError>)
        ensures
            match r {
                Ok(blob) => spec_state_msg_ok(*first_msg, channel_id@, announce_id@) && blob@
                    == spec_state_payload(*first_msg),
                Err(e) => !spec_state_msg_ok(*first_msg, channel_id@, announce_id@) && e
                    == ChannelError::NoStateFound,
            },
    {
        let (public, masked) = match first_msg {
            Some(TransportMessage::SignedPacket { public, masked, .. }) => (public, masked),
            _ => {
                return Err(ChannelError::NoStateFound);
            },
        };
        let packet = match RawPacket::from_streams_response(
            public.as_slice(),
            masked.as_slice(),
            &None,
        ) {
            Ok(p) => p,
            Err(_) => {
                return Err(ChannelError::NoStateFound);
            },
        };
        let (text, blob) = match packet.deserialize() {
            Ok(v) => v,
            Err(_) => {
                return Err(ChannelError::NoStateFound);
            },
        };
        let marker = state_marker(channel_id, announce_id);
        if text == marker {
            Ok(blob)
        } else {
            Err(ChannelError::NoStateFound)
        }
    }

    /// The channel id and the announcement id.
    pub fn channel_address(&self) -> (r: (String, String))
        ensures
            r.0@ == self.addr(),
            r.1@ == self.ann_id(),
    {
        (self.channel_address.clone(), self.announcement_id.clone())
    }

    /// The transport-addressable index of one of this channel's messages; a
    /// pure function of the channel id and the message id, no transport call.
    pub fn msg_index(&self, msg_id: &str) -> (r: Result<String, ChannelError>)
        ensures
            match r {
                Ok(s) => {
                    &&& hex_decodable(encode_utf8(self.addr()))
                    &&& hex_decodable(encode_utf8(msg_id@))
                    &&& encode_utf8(s@) == spec_msg_index(
                        encode_utf8(self.addr()),
                        encode_utf8(msg_id@),
                    )
                    &&& s@.len() == 64
                },
                Err(e) => {
                    &&& !(hex_decodable(encode_utf8(self.addr())) && hex_decodable(
                        encode_utf8(msg_id@),
                    ))
                    &&& e == ChannelError::TransportError
                },
            },
    {
        let link = match create_link(self.channel_address.as_str(), msg_id) {
            Ok(l) => l,
            Err(e) => {
                return Err(e);
            },
        };
        Ok(crate::utility::msg_index(&link))
    }

    /// Snapshot this writer into a state record around the given exported
    /// session credentials.
    pub fn export(&self, credentials: &Vec<u8>) -> (r: ChannelState)
        ensures
            r@ == self.spec_export_record(credentials@),
    {
        ChannelState::new(
            credentials,
            self.channel_address.as_str(),
            self.announcement_id.as_str(),
            self.last_msg_id.as_str(),
        )
    }

    /// Export this writer as a portable encrypted blob: the state record
    /// around the given credentials, encrypted under the passphrase. Fails
    /// only when the framed record overruns the cipher's length limit; any
    /// blob this returns is text-safe and decrypts back to the exported
    /// record under the same passphrase.
    pub fn export_to_bytes(&self, credentials: &Vec<u8>, psw: &str) -> (r: Result<
        Vec<u8>,
        ChannelError,
    >)
        ensures
            match r {
                Ok(blob) => {
                    &&& blob@ == spec_state_blob(
                        self.spec_export_record(credentials@),
                        psw.spec_bytes(),
                    )
                    &&& b64_decode_of(blob@) == Some(
                        xchacha_seal(
                            record_bytes(self.spec_export_record(credentials@)),
                            spec_state_key(psw.spec_bytes()),
                            spec_state_nonce(psw.spec_bytes()),
                        ),
                    )
                    &&& state_wf(self.spec_export_record(credentials@))
                    &&& aead_len_ok(record_bytes(self.spec_export_record(credentials@)).len())
                    &&& forall|i: int| 0 <= i < blob@.len() ==> is_b64url_byte(#[trigger] blob@[i])
                },
                Err(e) => !aead_len_ok(record_bytes(self.spec_export_record(credentials@)).len())
                    && e == ChannelError::CryptoError,
            },
    {
        let state = self.export(credentials);
        state.encrypt(psw)
    }
}

} // verus!
