//! Plain message values exchanged with the application and the transport
//! loop: fetched transport events, popped packets, channel coordinates, and
//! user-supplied key/nonce pairs.

use vstd::prelude::*;
use crate::payload::payload_serializers::RawPacket;
use crate::utility::{create_encryption_key, create_encryption_nonce, spec_hash_text};
use vstd::string::StringSliceAdditionalSpecFns;

verus! {

/// One event handed back by the transport while fetching: a signed packet
/// with its message id and two wire fields, or any other event, identified
/// only by its id.
pub enum TransportMessage {
    SignedPacket { msg_id: String, public: Vec<u8>, masked: Vec<u8> },
    Other { msg_id: String },
}

/// Whether a transport event is kept by a fetch: only signed packets with at
/// least one non-empty field are queued.
pub open spec fn keeps(m: TransportMessage) -> bool {
    match m {
        TransportMessage::SignedPacket { public, masked, .. } => public@.len() > 0
            || masked@.len() > 0,
        TransportMessage::Other { .. } => false,
    }
}

/// The queue entry a kept transport event becomes.
pub open spec fn entry_of(m: TransportMessage) -> (String, Vec<u8>, Vec<u8>)
    recommends
        keeps(m),
{
    match m {
        TransportMessage::SignedPacket { msg_id, public, masked } => (msg_id, public, masked),
        TransportMessage::Other { .. } => vstd::pervasive::arbitrary(),
    }
}

/// The queue entries a batch of transport events contributes, in delivery
/// order.
pub open spec fn kept_entries(msgs: Seq<TransportMessage>) -> Seq<(String, Vec<u8>, Vec<u8>)>
    decreases msgs.len(),
{
    if msgs.len() == 0 {
        Seq::empty()
    } else {
        let rest = kept_entries(msgs.drop_last());
        if keeps(msgs.last()) {
            rest.push(entry_of(msgs.last()))
        } else {
            rest
        }
    }
}

/// What a fetch queues is a function of the delivered events alone, not of
/// how they were cut into batches: the entries of a concatenation are the
/// concatenated entries.
pub proof fn lemma_kept_entries_append(a: Seq<TransportMessage>, b: Seq<TransportMessage>)
    ensures
        kept_entries(a + b) == kept_entries(a) + kept_entries(b),
    decreases b.len(),
{
    if b.len() == 0 {
        assert(a + b =~= a);
        assert(kept_entries(a) + kept_entries(b) =~= kept_entries(a));
    } else {
        assert((a + b).drop_last() =~= a + b.drop_last());
        assert((a + b).last() == b.last());
        lemma_kept_entries_append(a, b.drop_last());
        if keeps(b.last()) {
            assert(kept_entries(a) + kept_entries(b) =~= (kept_entries(a) + kept_entries(
                b.drop_last(),
            )).push(entry_of(b.last())));
        }
    }
}

/// A message popped from the unread queue: either the decoded packet or, when
/// its masked wire cannot be read (absent or wrong key material), an explicit
/// unreadable marker carrying the message id, so enumeration can continue.
pub enum PoppedMessage {
    Decoded { msg_id: String, packet: RawPacket },
    Unreadable { msg_id: String },
}

/// A decoded message handed over the binding boundary: the message id and the
/// two decoded payload fields.
pub struct ResponseMessage {
    msg_id: String,
    public: Vec<u8>,
    masked: Vec<u8>,
}

impl ResponseMessage {
    /// The message id.
    pub closed spec fn spec_msg_id(self) -> Seq<char> {
        self.msg_id@
    }

    /// The decoded public field.
    pub closed spec fn spec_public(self) -> Seq<u8> {
        self.public@
    }

    /// The decoded masked field.
    pub closed spec fn spec_masked(self) -> Seq<u8> {
        self.masked@
    }

    /// Bundle a decoded message.
    pub fn new(msg_id: String, public: Vec<u8>, masked: Vec<u8>) -> (r: ResponseMessage)
        ensures
            r.spec_msg_id() == msg_id@,
            r.spec_public() == public@,
            r.spec_masked() == masked@,
    {
        ResponseMessage { msg_id, public, masked }
    }

    /// The message id.
    pub fn msg_id(&self) -> (r: String)
        ensures
            r@ == self.spec_msg_id(),
    {
        self.msg_id.clone()
    }

    /// The decoded public field.
    pub fn public(&self) -> (r: Vec<u8>)
        ensures
            r@ == self.spec_public(),
    {
        self.public.clone()
    }

    /// The decoded masked field.
    pub fn masked(&self) -> (r: Vec<u8>)
        ensures
            r@ == self.spec_masked(),
    {
        self.masked.clone()
    }
}

/// The coordinates of a channel: its id and the id of its announcement.
pub struct ChannelInfo {
    channel_id: String,
    announce_id: String,
}

impl ChannelInfo {
    /// The channel id.
    pub closed spec fn spec_channel_id(self) -> Seq<char> {
        self.channel_id@
    }

    /// The announcement id.
    pub closed spec fn spec_announce_id(self) -> Seq<char> {
        self.announce_id@
    }

    /// Bundle the two ids.
    pub fn new(channel_id: &str, announce_id: &str) -> (r: ChannelInfo)
        ensures
            r.spec_channel_id() == channel_id@,
            r.spec_announce_id() == announce_id@,
    {
        ChannelInfo { channel_id: channel_id.to_owned(), announce_id: announce_id.to_owned() }
    }

    /// The channel id.
    pub fn channel_id(&self) -> (r: String)
        ensures
            r@ == self.spec_channel_id(),
    {
        self.channel_id.clone()
    }

    /// The announcement id.
    pub fn announce_id(&self) -> (r: String)
        ensures
            r@ == self.spec_announce_id(),
    {
        self.announce_id.clone()
    }
}

/// A symmetric key and nonce pair derived from two passphrases, for the
/// optional encryption of a packet's masked field.
#[derive(Clone, Copy)]
pub struct KeyNonce {
    key: [u8; 32],
    nonce: [u8; 24],
}

impl KeyNonce {
    /// The key bytes.
    pub closed spec fn spec_key(self) -> Seq<u8> {
        self.key@
    }

    /// The nonce bytes.
    pub closed spec fn spec_nonce(self) -> Seq<u8> {
        self.nonce@
    }

    /// Derive a pair from two passphrases: each is hashed and the hash text
    /// truncated to the raw material's size.
    pub fn new(key: &str, nonce: &str) -> (r: KeyNonce)
        ensures
            r.spec_key() == spec_hash_text(key.spec_bytes()).take(32),
            r.spec_nonce() == spec_hash_text(nonce.spec_bytes()).take(24),
    {
        KeyNonce { key: create_encryption_key(key), nonce: create_encryption_nonce(nonce) }
    }

    /// The key bytes, copied out.
    pub fn key(&self) -> (r: Vec<u8>)
        ensures
            r@ == self.spec_key(),
    {
        let mut v: Vec<u8> = Vec::new();
        v.extend_from_slice(self.key.as_slice());
        proof {
            assert(v@ =~= self.key@);
        }
        v
    }

    /// The nonce bytes, copied out.
    pub fn nonce(&self) -> (r: Vec<u8>)
        ensures
            r@ == self.spec_nonce(),
    {
        let mut v: Vec<u8> = Vec::new();
        v.extend_from_slice(self.nonce.as_slice());
        proof {
            assert(v@ =~= self.nonce@);
        }
        v
    }

    /// The key, borrowed.
    pub fn key_ref(&self) -> (r: &[u8; 32])
        ensures
            r@ == self.spec_key(),
    {
        &self.key
    }

    /// The nonce, borrowed.
    pub fn nonce_ref(&self) -> (r: &[u8; 24])
        ensures
            r@ == self.spec_nonce(),
    {
        &self.nonce
    }
}

} // verus!
