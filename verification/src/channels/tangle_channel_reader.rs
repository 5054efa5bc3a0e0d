//! The channel reader.
//!
//! A reader attaches to a channel announcement and replays the transport's
//! history into an internal unread-message queue: every fetched batch is
//! classified, signed packets with content are queued in delivery order, and
//! everything else is discarded. The application's transport loop pulls
//! batches from the ledger and hands them in as plain values; all decisions
//! about them are made, and verified, here. Popping decodes the oldest entry
//! on demand; an entry whose masked wire cannot be read comes back as an
//! explicit unreadable marker rather than halting enumeration.

use vstd::prelude::*;
use vstd::string::StringSliceAdditionalSpecFns;
use vstd::utf8::encode_utf8;
use crate::b64::{b64_decode_of, is_b64url_byte};
use crate::channels::channel_state::{
    genesis_marker, record_bytes, spec_state_blob, state_marker, state_wf, ChannelState,
    ChannelStateView,
};
use crate::channels::messages::{kept_entries, PoppedMessage, TransportMessage};
use crate::errors::ChannelError;
use crate::hexcode::hex_decodable;
use crate::payload::payload_serializers::{RawPacket, RawSerializer};
use crate::payload::payload_types::{
    kn_view, spec_masked_fits, spec_masked_wire, spec_public_wire, StreamsPacketSerializer,
};
use crate::utility::{
    aead_len_ok, create_link, spec_msg_index, spec_state_key, spec_state_nonce, xchacha_seal,
};

verus! {

/// Whether a queue entry is this channel's genesis-state message: both wire
/// fields decode as base64, and the public field deserializes (raw strategy,
/// no key material) to the channel's genesis marker.
pub open spec fn is_state_entry(
    e: (String, Vec<u8>, Vec<u8>),
    cid: Seq<char>,
    aid: Seq<char>,
) -> bool {
    match (b64_decode_of(e.1@), b64_decode_of(e.2@)) {
        (Some(p), Some(_)) => RawSerializer::spec_text_ok(p) && RawSerializer::spec_de_text(p)
            == genesis_marker(cid, aid),
        _ => false,
    }
}

/// A reader of one channel: the channel coordinates plus the FIFO queue of
/// unread messages in transport delivery order.
pub struct ChannelReader {
    channel_address: String,
    announcement_id: String,
    unread_msgs: Vec<(String, Vec<u8>, Vec<u8>)>,
}

impl ChannelReader {
    /// The channel id.
    pub closed spec fn addr(self) -> Seq<char> {
        self.channel_address@
    }

    /// The announcement id.
    pub closed spec fn ann_id(self) -> Seq<char> {
        self.announcement_id@
    }

    /// The unread-message queue, oldest first.
    pub closed spec fn queue(self) -> Seq<(String, Vec<u8>, Vec<u8>)> {
        self.unread_msgs@
    }

    /// The state record an export of this reader around the given
    /// credentials yields; a reader keeps no publish pointer, so the record's
    /// last-message id is empty.
    pub open spec fn spec_export_record(self, credentials: Seq<u8>) -> ChannelStateView {
        ChannelStateView {
            user_state: credentials,
            channel_id: self.addr(),
            announcement_id: self.ann_id(),
            last_msg_id: Seq::<char>::empty(),
        }
    }

    /// A fresh reader bound to a channel, with an empty queue.
    pub fn new(channel_address: &str, announcement_id: &str) -> (r: ChannelReader)
        ensures
            r.addr() == channel_address@,
            r.ann_id() == announcement_id@,
            r.queue() == Seq::<(String, Vec<u8>, Vec<u8>)>::empty(),
    {
        ChannelReader {
            channel_address: channel_address.to_owned(),
            announcement_id: announcement_id.to_owned(),
            unread_msgs: Vec::new(),
        }
    }

    /// Rebuild a reader from a restored state record and the channel address
    /// the transport reports for the restored credentials (the transport, not
    /// the record, is the source of truth for the address).
    pub fn import(state: &ChannelState, channel_address: &str) -> (r: ChannelReader)
        ensures
            r.addr() == channel_address@,
            r.ann_id() == state@.announcement_id,
            r.queue() == Seq::<(String, Vec<u8>, Vec<u8>)>::empty(),
    {
        let announcement_id = state.announcement_id();
        ChannelReader {
            channel_address: channel_address.to_owned(),
            announcement_id,
            unread_msgs: Vec::new(),
        }
    }

    /// Classify one fetched batch and append what it keeps to the queue:
    /// every signed packet with at least one non-empty field, in delivery
    /// order; every other event is discarded. Returns whether anything was
    /// newly queued. A batch with nothing to keep - in particular an empty
    /// one - leaves the queue exactly as it was.
    pub fn process_fetched(&mut self, msgs: Vec<TransportMessage>) -> (found: bool)
        ensures
            final(self).queue() == old(self).queue() + kept_entries(msgs@),
            final(self).addr() == old(self).addr(),
            final(self).ann_id() == old(self).ann_id(),
            found == (kept_entries(msgs@).len() > 0),
    {
        let ghost orig = msgs@;
        let mut msgs = msgs;
        let mut found = false;
        proof {
            assert(orig.take(0) =~= Seq::<TransportMessage>::empty());
            assert(self.queue() =~= old(self).queue() + kept_entries(orig.take(0)));
        }
        while msgs.len() > 0
            invariant
                msgs@.len() <= orig.len(),
                msgs@ == orig.skip(orig.len() - msgs@.len()),
                self.queue() == old(self).queue() + kept_entries(
                    orig.take(orig.len() - msgs@.len()),
                ),
                self.addr() == old(self).addr(),
                self.ann_id() == old(self).ann_id(),
                found == (kept_entries(orig.take(orig.len() - msgs@.len())).len() > 0),
            decreases msgs@.len(),
        {
            let ghost k = orig.len() - msgs@.len();
            let m = msgs.remove(0);
            proof {
                assert(m == orig[k]);
                assert(msgs@ =~= orig.skip(k + 1));
                assert(orig.take(k + 1).drop_last() =~= orig.take(k));
                assert(orig.take(k + 1).last() == orig[k]);
            }
            match m {
                TransportMessage::SignedPacket { msg_id, public, masked } => {
                    if public.len() > 0 || masked.len() > 0 {
                        self.unread_msgs.push((msg_id, public, masked));
                        found = true;
                    }
                },
                TransportMessage::Other { .. } => {},
            }
            proof {
                assert(self.queue() =~= old(self).queue() + kept_entries(orig.take(k + 1)));
            }
        }
        proof {
            assert(orig.take(orig.len() as int) =~= orig);
        }
        found
    }

    /// How many unread messages are queued.
    pub fn unread_count(&self) -> (r: usize)
        ensures
            r == self.queue().len(),
    {
        self.unread_msgs.len()
    }

    /// Whether any unread message is queued.
    pub fn has_next_msg(&self) -> (r: bool)
        ensures
            r == (self.queue().len() > 0),
    {
        self.unread_msgs.len() > 0
    }

    /// Pop the oldest queued message and decode it, under a key/nonce pair if
    /// one is given. `None` exactly when the queue is empty. A message whose
    /// wires cannot be read under the given key material comes back as
    /// `Unreadable` with its id; one whose wires were produced by a packet
    /// under the same key material always comes back `Decoded` with that
    /// packet's fields.
    pub fn pop_msg(&mut self, key_nonce: &Option<([u8; 32], [u8; 24])>) -> (r: Option<
        PoppedMessage,
    >)
        ensures
            final(self).addr() == old(self).addr(),
            final(self).ann_id() == old(self).ann_id(),
            match r {
                None => old(self).queue().len() == 0 && final(self).queue() == old(self).queue(),
                Some(pm) => {
                    &&& old(self).queue().len() > 0
                    &&& final(self).queue() == old(self).queue().drop_first()
                    &&& match pm {
                        PoppedMessage::Decoded { msg_id, packet } => {
                            &&& msg_id@ == old(self).queue()[0].0@
                            &&& b64_decode_of(old(self).queue()[0].1@) == Some(packet.p_view())
                            &&& match kn_view(*key_nonce) {
                                None => b64_decode_of(old(self).queue()[0].2@) == Some(
                                    packet.m_view(),
                                ),
                                Some((k, n)) => b64_decode_of(old(self).queue()[0].2@) == Some(
                                    xchacha_seal(packet.m_view(), k, n),
                                ),
                            }
                            &&& packet.kn() == kn_view(*key_nonce)
                        },
                        PoppedMessage::Unreadable { msg_id } => {
                            &&& msg_id@ == old(self).queue()[0].0@
                            &&& forall|p: Seq<u8>, m: Seq<u8>|
                                !(old(self).queue()[0].1@ == spec_public_wire(p) && old(
                                    self,
                                ).queue()[0].2@ == spec_masked_wire(m, kn_view(*key_nonce))
                                    && spec_masked_fits(m, kn_view(*key_nonce)))
                        },
                    }
                },
            },
    {
        if self.unread_msgs.len() == 0 {
            return None;
        }
        let (msg_id, public, masked) = self.unread_msgs.remove(0);
        proof {
            assert(self.unread_msgs@ =~= old(self).queue().drop_first());
        }
        match RawPacket::from_streams_response(public.as_slice(), masked.as_slice(), key_nonce) {
            Ok(packet) => Some(PoppedMessage::Decoded { msg_id, packet }),
            Err(_) => Some(PoppedMessage::Unreadable { msg_id }),
        }
    }

    /// Drop the channel's genesis-state message if it is first in the queue:
    /// when the first queued entry decodes to the genesis marker it is
    /// removed, and nothing else ever is. Any decode failure counts as "not a
    /// state message" and leaves the queue alone.
    pub fn strip_state_msg(&mut self) -> (removed: bool)
        ensures
            final(self).addr() == old(self).addr(),
            final(self).ann_id() == old(self).ann_id(),
            ({
                if old(self).queue().len() > 0 && is_state_entry(
                    old(self).queue()[0],
                    old(self).addr(),
                    old(self).ann_id(),
                ) {
                    removed && final(self).queue() == old(self).queue().drop_first()
                } else {
                    !removed && final(self).queue() == old(self).queue()
                }
            }),
    {
        if self.unread_msgs.len() == 0 {
            return false;
        }
        let marker = state_marker(self.channel_address.as_str(), self.announcement_id.as_str());
        let entry = &self.unread_msgs[0];
        let packet = match RawPacket::from_streams_response(
            entry.1.as_slice(),
            entry.2.as_slice(),
            &None,
        ) {
            Ok(p) => p,
            Err(_) => {
                return false;
            },
        };
        let text = match packet.deserialize_public_text() {
            Ok(t) => t,
            Err(_) => {
                return false;
            },
        };
        if text == marker {
            self.unread_msgs.remove(0);
            proof {
                assert(self.unread_msgs@ =~= old(self).queue().drop_first());
            }
            true
        } else {
            false
        }
    }

    /// Hand out everything queued, oldest first, and leave the queue empty.
    pub fn fetch_raw_msgs(&mut self) -> (r: Vec<(String, Vec<u8>, Vec<u8>)>)
        ensures
            r@ == old(self).queue(),
            final(self).queue() == Seq::<(String, Vec<u8>, Vec<u8>)>::empty(),
            final(self).addr() == old(self).addr(),
            final(self).ann_id() == old(self).ann_id(),
    {
        let mut out: Vec<(String, Vec<u8>, Vec<u8>)> = Vec::new();
        core::mem::swap(&mut out, &mut self.unread_msgs);
        out
    }

    /// The channel id and the announcement id.
    pub fn channel_address(&self) -> (r: (String, String))
        ensures
            r.0@ == self.addr(),
            r.1@ == self.ann_id(),
    {
        (self.channel_address.clone(), self.announcement_id.clone())
    }

    /// The transport-addressable index of one of this channel's messages; a
    /// pure function of the channel id and the message id, no transport call.
    /// Rejected when either id is not hex text.
    pub fn msg_index(&self, msg_id: &str) -> (r: Result<String, ChannelError>)
        ensures
            match r {
                Ok(s) => {
                    &&& hex_decodable(encode_utf8(self.addr()))
                    &&& hex_decodable(encode_utf8(msg_id@))
                    &&& encode_utf8(s@) == spec_msg_index(
                        encode_utf8(self.addr()),
                        encode_utf8(msg_id@),
                    )
                    &&& s@.len() == 64
                },
                Err(e) => {
                    &&& !(hex_decodable(encode_utf8(self.addr())) && hex_decodable(
                        encode_utf8(msg_id@),
                    ))
                    &&& e == ChannelError::TransportError
                },
            },
    {
        let link = match create_link(self.channel_address.as_str(), msg_id) {
            Ok(l) => l,
            Err(e) => {
                return Err(e);
            },
        };
        Ok(crate::utility::msg_index(&link))
    }

    /// Snapshot this reader into a state record around the given exported
    /// session credentials. A reader keeps no publish pointer, so the record's
    /// last-message id is empty.
    pub fn export(&self, credentials: &Vec<u8>) -> (r: ChannelState)
        ensures
            r@ == self.spec_export_record(credentials@),
    {
        proof {
            reveal_strlit("");
        }
        let r = ChannelState::new(
            credentials,
            self.channel_address.as_str(),
            self.announcement_id.as_str(),
            "",
        );
        proof {
            assert(r@.last_msg_id =~= Seq::<char>::empty());
        }
        r
    }

    /// Export this reader as a portable encrypted blob: the state record
    /// around the given credentials, encrypted under the passphrase. Fails
    /// only when the framed record overruns the cipher's length limit; any
    /// blob this returns is text-safe and decrypts back to the exported
    /// record under the same passphrase.
    pub fn export_to_bytes(&self, credentials: &Vec<u8>, psw: &str) -> (r: Result<
        Vec<u8>,
        ChannelError,
    >)
        ensures
            match r {
                Ok(blob) => {
                    &&& blob@ == spec_state_blob(
                        self.spec_export_record(credentials@),
                        psw.spec_bytes(),
                    )
                    &&& b64_decode_of(blob@) == Some(
                        xchacha_seal(
                            record_bytes(self.spec_export_record(credentials@)),
                            spec_state_key(psw.spec_bytes()),
                            spec_state_nonce(psw.spec_bytes()),
                        ),
                    )
                    &&& state_wf(self.spec_export_record(credentials@))
                    &&& aead_len_ok(record_bytes(self.spec_export_record(credentials@)).len())
                    &&& forall|i: int| 0 <= i < blob@.len() ==> is_b64url_byte(#[trigger] blob@[i])
                },
                Err(e) => !aead_len_ok(record_bytes(self.spec_export_record(credentials@)).len())
                    && e == ChannelError::CryptoError,
            },
    {
        let state = self.export(credentials);
        state.encrypt(psw)
    }
}

} // verus!
