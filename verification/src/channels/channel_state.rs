//! The serializable snapshot of a channel session.
//!
//! A state record holds the opaque session credentials together with the
//! channel id, the announcement id and the last published message id. At
//! rest it is framed field by field, encrypted under key material derived
//! from a passphrase, and base64-encoded into a portable text-safe blob.
//! Decoding collapses every failure - malformed base64, failed decryption,
//! malformed record - into one undifferentiated `StateError`, so the blob
//! does not leak which step failed.

use vstd::prelude::*;
use vstd::string::{StringExecFns, StringSliceAdditionalSpecFns};
use vstd::utf8::{decode_utf8, encode_utf8, valid_utf8};
use crate::b64::{b64_decode, b64_decode_of, b64_encode, b64_of, is_b64url_byte};
use crate::errors::ChannelError;
use crate::framing::{
    field_at, field_at_end, field_at_ok, frame_of, lemma_field_at_frame, push_frame, read_field,
};
use crate::strbytes::string_from_utf8;
use crate::utility::{
    aead_len_ok, decrypt_data, encrypt_data, get_key_nonce, spec_state_key, spec_state_nonce,
    xchacha_seal,
};

verus! {

/// The mathematical view of a state record.
pub ghost struct ChannelStateView {
    pub user_state: Seq<u8>,
    pub channel_id: Seq<char>,
    pub announcement_id: Seq<char>,
    pub last_msg_id: Seq<char>,
}

/// Every field of the record fits its 8-byte length prefix.
pub open spec fn state_wf(v: ChannelStateView) -> bool {
    &&& v.user_state.len() <= u64::MAX
    &&& encode_utf8(v.channel_id).len() <= u64::MAX
    &&& encode_utf8(v.announcement_id).len() <= u64::MAX
    &&& encode_utf8(v.last_msg_id).len() <= u64::MAX
}

/// The framed record: the four fields framed and laid out back to back, the
/// string fields as their UTF-8 bytes.
pub open spec fn record_bytes(v: ChannelStateView) -> Seq<u8> {
    frame_of(v.user_state) + frame_of(encode_utf8(v.channel_id)) + frame_of(
        encode_utf8(v.announcement_id),
    ) + frame_of(encode_utf8(v.last_msg_id))
}

/// Whether a byte sequence is a well-formed framed record: four fields that
/// fill it exactly, the last three valid UTF-8.
pub open spec fn record_ok(s: Seq<u8>) -> bool {
    &&& field_at_ok(s, 0)
    &&& field_at_ok(s, field_at_end(s, 0))
    &&& field_at_ok(s, field_at_end(s, field_at_end(s, 0)))
    &&& field_at_ok(s, field_at_end(s, field_at_end(s, field_at_end(s, 0))))
    &&& field_at_end(s, field_at_end(s, field_at_end(s, field_at_end(s, 0)))) == s.len()
    &&& valid_utf8(field_at(s, field_at_end(s, 0)))
    &&& valid_utf8(field_at(s, field_at_end(s, field_at_end(s, 0))))
    &&& valid_utf8(field_at(s, field_at_end(s, field_at_end(s, field_at_end(s, 0)))))
}

/// The record a well-formed byte sequence denotes.
pub open spec fn record_of(s: Seq<u8>) -> ChannelStateView {
    let o1 = field_at_end(s, 0);
    let o2 = field_at_end(s, o1);
    let o3 = field_at_end(s, o2);
    ChannelStateView {
        user_state: field_at(s, 0),
        channel_id: decode_utf8(field_at(s, o1)),
        announcement_id: decode_utf8(field_at(s, o2)),
        last_msg_id: decode_utf8(field_at(s, o3)),
    }
}

/// The portable encrypted blob for a record under a passphrase (given as the
/// passphrase's UTF-8 bytes): the framed record, sealed under the derived key
/// and nonce, as base64 text.
pub open spec fn spec_state_blob(v: ChannelStateView, pw: Seq<u8>) -> Seq<u8> {
    b64_of(xchacha_seal(record_bytes(v), spec_state_key(pw), spec_state_nonce(pw)))
}

/// Framing then parsing gives the record back.
pub proof fn lemma_record_round_trip(v: ChannelStateView)
    requires
        state_wf(v),
    ensures
        record_ok(record_bytes(v)),
        record_of(record_bytes(v)) == v,
{
    broadcast use vstd::utf8::encode_utf8_valid_utf8;
    broadcast use vstd::utf8::encode_utf8_decode_utf8;

    let x0 = v.user_state;
    let x1 = encode_utf8(v.channel_id);
    let x2 = encode_utf8(v.announcement_id);
    let x3 = encode_utf8(v.last_msg_id);
    let s = record_bytes(v);
    let o1 = 8 + x0.len() as int;
    let o2 = o1 + 8 + x1.len();
    let o3 = o2 + 8 + x2.len();
    let o4 = o3 + 8 + x3.len();
    vstd::bytes::lemma_auto_spec_u64_to_from_le_bytes();
    assert(s.len() == o4);
    assert(s.subrange(0, o1) =~= frame_of(x0));
    lemma_field_at_frame(s, 0, x0);
    assert(s.subrange(o1, o2) =~= frame_of(x1));
    lemma_field_at_frame(s, o1, x1);
    assert(s.subrange(o2, o3) =~= frame_of(x2));
    lemma_field_at_frame(s, o2, x2);
    assert(s.subrange(o3, o4) =~= frame_of(x3));
    lemma_field_at_frame(s, o3, x3);
    assert(record_of(s) == v);
}

/// Parsing then re-framing gives the bytes back: a well-formed record byte
/// sequence is exactly the framed form of the record it denotes.
pub proof fn lemma_record_reencode(s: Seq<u8>)
    requires
        record_ok(s),
    ensures
        state_wf(record_of(s)),
        record_bytes(record_of(s)) == s,
{
    broadcast use vstd::utf8::decode_utf8_encode_utf8;

    vstd::bytes::lemma_auto_spec_u64_to_from_le_bytes();
    let o1 = field_at_end(s, 0);
    let o2 = field_at_end(s, o1);
    let o3 = field_at_end(s, o2);
    let f0 = field_at(s, 0);
    let f1 = field_at(s, o1);
    let f2 = field_at(s, o2);
    let f3 = field_at(s, o3);
    let v = record_of(s);
    assert(encode_utf8(v.channel_id) == f1);
    assert(encode_utf8(v.announcement_id) == f2);
    assert(encode_utf8(v.last_msg_id) == f3);
    assert(frame_of(f0) =~= s.subrange(0, o1));
    assert(frame_of(f1) =~= s.subrange(o1, o2));
    assert(frame_of(f2) =~= s.subrange(o2, o3));
    assert(frame_of(f3) =~= s.subrange(o3, s.len() as int));
    assert(record_bytes(v) =~= s);
}

/// The public-field literal that marks a channel's genesis-state message:
/// the channel id, a colon, the announcement id, and the suffix `.state`.
pub open spec fn genesis_marker(cid: Seq<char>, aid: Seq<char>) -> Seq<char> {
    cid + ":"@ + aid + ".state"@
}

/// Build the genesis-state marker string for a channel.
pub fn state_marker(channel_id: &str, announcement_id: &str) -> (r: String)
    ensures
        r@ == genesis_marker(channel_id@, announcement_id@),
{
    let mut s = channel_id.to_owned();
    s.append(":");
    s.append(announcement_id);
    s.append(".state");
    proof {
        assert(s@ =~= genesis_marker(channel_id@, announcement_id@));
    }
    s
}

/// A snapshot of a channel session: opaque session credentials plus the ids
/// that locate the channel and its newest message. Created by exporting a
/// live session; replaced wholesale on import.
pub struct ChannelState {
    user_state: Vec<u8>,
    channel_id: String,
    announcement_id: String,
    last_msg_id: String,
}

impl View for ChannelState {
    type V = ChannelStateView;

    closed spec fn view(&self) -> ChannelStateView {
        ChannelStateView {
            user_state: self.user_state@,
            channel_id: self.channel_id@,
            announcement_id: self.announcement_id@,
            last_msg_id: self.last_msg_id@,
        }
    }
}

impl ChannelState {
    /// Build a record from its four fields.
    pub fn new(
        author_state: &Vec<u8>,
        channel_id: &str,
        announcement_id: &str,
        last_public_msg: &str,
    ) -> (r: ChannelState)
        ensures
            r@.user_state == author_state@,
            r@.channel_id == channel_id@,
            r@.announcement_id == announcement_id@,
            r@.last_msg_id == last_public_msg@,
    {
        ChannelState {
            user_state: author_state.clone(),
            channel_id: channel_id.to_owned(),
            announcement_id: announcement_id.to_owned(),
            last_msg_id: last_public_msg.to_owned(),
        }
    }

    /// The opaque session credentials.
    pub fn user_state(&self) -> (r: Vec<u8>)
        ensures
            r@ == self@.user_state,
    {
        self.user_state.clone()
    }

    /// The channel id.
    pub fn channel_id(&self) -> (r: String)
        ensures
            r@ == self@.channel_id,
    {
        self.channel_id.clone()
    }

    /// The announcement id.
    pub fn announcement_id(&self) -> (r: String)
        ensures
            r@ == self@.announcement_id,
    {
        self.announcement_id.clone()
    }

    /// The id of the most recently published message.
    pub fn last_msg_id(&self) -> (r: String)
        ensures
            r@ == self@.last_msg_id,
    {
        self.last_msg_id.clone()
    }

    /// Frame the record into its binary form.
    fn encode(&self) -> (r: Vec<u8>)
        ensures
            r@ == record_bytes(self@),
            state_wf(self@),
    {
        let mut out: Vec<u8> = Vec::new();
        let n0 = self.user_state.len();
        push_frame(&mut out, self.user_state.as_slice());
        let b1 = self.channel_id.as_str().as_bytes();
        let n1 = b1.len();
        push_frame(&mut out, b1);
        let b2 = self.announcement_id.as_str().as_bytes();
        let n2 = b2.len();
        push_frame(&mut out, b2);
        let b3 = self.last_msg_id.as_str().as_bytes();
        let n3 = b3.len();
        push_frame(&mut out, b3);
        proof {
            assert(out@ =~= record_bytes(self@));
        }
        out
    }

    /// Parse a framed record; `None` unless the bytes are exactly a
    /// well-formed record.
    fn decode(bytes: &[u8]) -> (r: Option<ChannelState>)
        ensures
            match r {
                Some(st) => record_ok(bytes@) && st@ == record_of(bytes@),
                None => !record_ok(bytes@),
            },
    {
        let (f0, o1) = match read_field(bytes, 0) {
            Some(v) => v,
            None => {
                return None;
            },
        };
        let (f1, o2) = match read_field(bytes, o1) {
            Some(v) => v,
            None => {
                return None;
            },
        };
        let (f2, o3) = match read_field(bytes, o2) {
            Some(v) => v,
            None => {
                return None;
            },
        };
        let (f3, o4) = match read_field(bytes, o3) {
            Some(v) => v,
            None => {
                return None;
            },
        };
        if o4 != bytes.len() {
            return None;
        }
        let channel_id = match string_from_utf8(f1) {
            Some(s) => s,
            None => {
                return None;
            },
        };
        let announcement_id = match string_from_utf8(f2) {
            Some(s) => s,
            None => {
                return None;
            },
        };
        let last_msg_id = match string_from_utf8(f3) {
            Some(s) => s,
            None => {
                return None;
            },
        };
        Some(ChannelState { user_state: f0, channel_id, announcement_id, last_msg_id })
    }

    /// Encrypt the record into its portable blob under a passphrase. Fails
    /// only when the framed record overruns the cipher's length limit; any
    /// blob this returns is text-safe (every byte in the url-safe base64
    /// alphabet) and decrypts back to this record under the same passphrase.
    pub fn encrypt(&self, psw: &str) -> (r: Result<Vec<u8>, ChannelError>)
        ensures
            match r {
                Ok(blob) => {
                    &&& blob@ == spec_state_blob(self@, psw.spec_bytes())
                    &&& b64_decode_of(blob@) == Some(
                        xchacha_seal(
                            record_bytes(self@),
                            spec_state_key(psw.spec_bytes()),
                            spec_state_nonce(psw.spec_bytes()),
                        ),
                    )
                    &&& state_wf(self@)
                    &&& aead_len_ok(record_bytes(self@).len())
                    &&& forall|i: int| 0 <= i < blob@.len() ==> is_b64url_byte(#[trigger] blob@[i])
                },
                Err(e) => !aead_len_ok(record_bytes(self@).len()) && e
                    == ChannelError::CryptoError,
            },
    {
        let (key, nonce) = get_key_nonce(psw);
        let bytes = self.encode();
        let sealed = match encrypt_data(bytes.as_slice(), &key, &nonce) {
            Ok(v) => v,
            Err(e) => {
                return Err(e);
            },
        };
        Ok(b64_encode(sealed.as_slice()))
    }

    /// Decrypt a portable blob under a passphrase. Succeeds exactly on input
    /// whose base64 decoding is a record sealed under the passphrase's derived
    /// key and nonce - in particular on anything `encrypt` produced under the
    /// same passphrase - and fails with the one undifferentiated `StateError`
    /// otherwise.
    pub fn decrypt(input: &[u8], psw: &str) -> (r: Result<ChannelState, ChannelError>)
        ensures
            match r {
                Ok(st) => {
                    &&& b64_decode_of(input@) == Some(
                        xchacha_seal(
                            record_bytes(st@),
                            spec_state_key(psw.spec_bytes()),
                            spec_state_nonce(psw.spec_bytes()),
                        ),
                    )
                    &&& state_wf(st@)
                    &&& aead_len_ok(record_bytes(st@).len())
                },
                Err(e) => e == ChannelError::StateError,
            },
            forall|v: ChannelStateView|
                (state_wf(v) && aead_len_ok(record_bytes(v).len()) && b64_decode_of(input@)
                    == Some(
                    xchacha_seal(
                        record_bytes(v),
                        spec_state_key(psw.spec_bytes()),
                        spec_state_nonce(psw.spec_bytes()),
                    ),
                )) ==> (r matches Ok(st) && st@ == v),
    {
        let unb64 = match b64_decode(input) {
            Ok(v) => v,
            Err(_) => {
                return Err(ChannelError::StateError);
            },
        };
        let (key, nonce) = get_key_nonce(psw);
        let opened = match decrypt_data(unb64.as_slice(), &key, &nonce) {
            Ok(v) => v,
            Err(_) => {
                proof {
                    assert forall|v: ChannelStateView|
                        (state_wf(v) && aead_len_ok(record_bytes(v).len()) && b64_decode_of(input@)
                            == Some(
                            xchacha_seal(
                                record_bytes(v),
                                spec_state_key(psw.spec_bytes()),
                                spec_state_nonce(psw.spec_bytes()),
                            ),
                        )) implies false by {
                        assert(unb64@ == xchacha_seal(
                            record_bytes(v),
                            spec_state_key(psw.spec_bytes()),
                            spec_state_nonce(psw.spec_bytes()),
                        ));
                    }
                }
                return Err(ChannelError::StateError);
            },
        };
        let st = match ChannelState::decode(opened.as_slice()) {
            Some(v) => v,
            None => {
                proof {
                    assert forall|v: ChannelStateView|
                        (state_wf(v) && aead_len_ok(record_bytes(v).len()) && b64_decode_of(input@)
                            == Some(
                            xchacha_seal(
                                record_bytes(v),
                                spec_state_key(psw.spec_bytes()),
                                spec_state_nonce(psw.spec_bytes()),
                            ),
                        )) implies false by {
                        assert(unb64@ == xchacha_seal(
                            record_bytes(v),
                            spec_state_key(psw.spec_bytes()),
                            spec_state_nonce(psw.spec_bytes()),
                        ));
                        assert(opened@ == record_bytes(v));
                        lemma_record_round_trip(v);
                    }
                }
                return Err(ChannelError::StateError);
            },
        };
        proof {
            lemma_record_reencode(opened@);
            assert forall|v: ChannelStateView|
                (state_wf(v) && aead_len_ok(record_bytes(v).len()) && b64_decode_of(input@)
                    == Some(
                    xchacha_seal(
                        record_bytes(v),
                        spec_state_key(psw.spec_bytes()),
                        spec_state_nonce(psw.spec_bytes()),
                    ),
                )) implies st@ == v by {
                lemma_record_round_trip(v);
            }
        }
        Ok(st)
    }
}

} // verus!
