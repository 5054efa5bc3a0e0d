//! Cryptographic and addressing utilities.
//!
//! Hashing goes through BLAKE2b-256, authenticated encryption through
//! XChaCha20-Poly1305; both are outside calls made behind trusted wrappers
//! whose contracts name their results. Key material is derived
//! deterministically from passphrases by hashing, so the same passphrase
//! always yields the same key and nonce.

use vstd::prelude::*;
use vstd::string::StringSliceAdditionalSpecFns;
use vstd::pervasive::unreached;
use vstd::utf8::{decode_utf8, encode_utf8, valid_utf8};
use crypto::hashes::blake2b::Blake2b256;
use crypto::hashes::Digest;
use chacha20poly1305::XChaCha20Poly1305;
use chacha20poly1305::aead::{Aead, NewAead};
use chacha20poly1305::aead::generic_array::GenericArray;
use rand::Rng;
use crate::errors::ChannelError;
use crate::hexcode::{hex_decodable, hex_decode, hex_decoded, hex_encode, hex_of, lemma_hex_of_ascii};
use crate::strbytes::{lemma_ascii_bytes_valid_utf8, string_from_utf8};

verus! {

/// The BLAKE2b-256 digest of a byte sequence: a function of the input alone.
pub uninterp spec fn blake2b_of(data: Seq<u8>) -> Seq<u8>;

/// The XChaCha20-Poly1305 ciphertext (with its appended tag) for a plaintext
/// under a 32-byte key and 24-byte nonce: a function of the inputs alone.
pub uninterp spec fn xchacha_seal(data: Seq<u8>, key: Seq<u8>, nonce: Seq<u8>) -> Seq<u8>;

/// Whether a plaintext is short enough for the cipher; encryption fails
/// exactly when the plaintext spills past the 32-bit block counter.
pub open spec fn aead_len_ok(len: nat) -> bool {
    len < 0x3f_ffff_ffc0
}

/// Relies on `crypto::hashes::blake2b::Blake2b256` (through `Digest::digest`):
/// a deterministic 32-byte digest of the input.
#[verifier::external_body]
fn blake2b256_digest(data: &[u8]) -> (r: Vec<u8>)
    ensures
        r@ == blake2b_of(data@),
        r@.len() == 32,
{
    Blake2b256::digest(data).to_vec()
}

/// Relies on `XChaCha20Poly1305::encrypt` of `chacha20poly1305`: deterministic
/// for a fixed key and nonce, appends the 16-byte tag, and fails exactly when
/// the plaintext overruns the cipher's block counter.
#[verifier::external_body]
pub fn encrypt_data(data: &[u8], key: &[u8; 32], nonce: &[u8; 24]) -> (r: Result<
    Vec<u8>,
    ChannelError,
>)
    ensures
        match r {
            Ok(v) => aead_len_ok(data@.len()) && v@ == xchacha_seal(data@, key@, nonce@)
                && v@.len() == data@.len() + 16,
            Err(e) => !aead_len_ok(data@.len()) && e == ChannelError::CryptoError,
        },
{
    let key_arr = GenericArray::from_slice(key);
    let nonce_arr = GenericArray::from_slice(nonce);
    let chacha = XChaCha20Poly1305::new(key_arr);
    match chacha.encrypt(nonce_arr, data) {
        Ok(enc) => Ok(enc),
        Err(_) => Err(ChannelError::CryptoError),
    }
}

/// Relies on `XChaCha20Poly1305::decrypt` of `chacha20poly1305`: succeeds
/// exactly on ciphertexts the cipher produces under the same key and nonce
/// (the Poly1305 tag is recomputed and compared), and inverts encryption.
#[verifier::external_body]
pub fn decrypt_data(data: &[u8], key: &[u8; 32], nonce: &[u8; 24]) -> (r: Result<
    Vec<u8>,
    ChannelError,
>)
    ensures
        match r {
            Ok(v) => data@ == xchacha_seal(v@, key@, nonce@) && aead_len_ok(v@.len()) && (forall|
                d: Seq<u8>,
            |
                data@ == xchacha_seal(d, key@, nonce@) ==> d == v@),
            Err(e) => e == ChannelError::CryptoError && (forall|d: Seq<u8>|
                aead_len_ok(d.len()) ==> data@ != xchacha_seal(d, key@, nonce@)),
        },
{
    let key_arr = GenericArray::from_slice(key);
    let nonce_arr = GenericArray::from_slice(nonce);
    let chacha = XChaCha20Poly1305::new(key_arr);
    match chacha.decrypt(nonce_arr, data) {
        Ok(dec) => Ok(dec),
        Err(_) => Err(ChannelError::CryptoError),
    }
}

/// Relies on `rand::Rng::gen_range` over `rand::thread_rng`: a value below the
/// bound; nothing more can be promised of a random draw.
#[verifier::external_body]
fn random_below(bound: usize) -> (r: usize)
    requires
        0 < bound,
    ensures
        r < bound,
{
    rand::thread_rng().gen_range(0..bound)
}

/// The lowercase hex text of the BLAKE2b-256 digest, as ASCII bytes.
pub open spec fn spec_hash_text(data: Seq<u8>) -> Seq<u8> {
    hex_of(blake2b_of(data))
}

/// Whether a seed character is allowed: the letters `A` to `Z` and the digit 9.
pub open spec fn seed_char_ok(c: char) -> bool {
    ('A' <= c && c <= 'Z') || c == '9'
}

/// Generates a new random string of 81 chars of A..Z and 9.
pub fn random_seed() -> (r: String)
    ensures
        r@.len() == 81,
        forall|i: int| 0 <= i < r@.len() ==> seed_char_ok(#[trigger] r@[i]),
{
    let mut bytes: Vec<u8> = Vec::new();
    let mut i: usize = 0;
    while i < 81
        invariant
            i <= 81,
            bytes@.len() == i,
            forall|j: int|
                0 <= j < i ==> ((0x41 <= #[trigger] bytes@[j] && bytes@[j] <= 0x5a) || bytes@[j]
                    == 0x39),
        decreases 81 - i,
    {
        let idx = random_below(27);
        let b: u8 = if idx < 26 {
            0x41 + (idx as u8)
        } else {
            0x39
        };
        bytes.push(b);
        i = i + 1;
    }
    proof {
        lemma_ascii_bytes_valid_utf8(bytes@);
    }
    match string_from_utf8(bytes) {
        Some(s) => s,
        None => unreached(),
    }
}

/// The hex text of the BLAKE2b-256 digest of a string's bytes.
pub fn hash_string(string: &str) -> (r: String)
    ensures
        encode_utf8(r@) == spec_hash_text(string.spec_bytes()),
        r@ == decode_utf8(spec_hash_text(string.spec_bytes())),
        r@.len() == 64,
{
    broadcast use vstd::utf8::decode_utf8_encode_utf8;

    let digest = blake2b256_digest(string.as_bytes());
    let hex = hex_encode(digest.as_slice());
    proof {
        lemma_hex_of_ascii(digest@);
        lemma_ascii_bytes_valid_utf8(hex@);
    }
    match string_from_utf8(hex) {
        Some(s) => s,
        None => unreached(),
    }
}

/// The first 32 bytes of the passphrase's hash text, as raw key material.
pub fn create_encryption_key(string_key: &str) -> (r: [u8; 32])
    ensures
        r@ == spec_hash_text(string_key.spec_bytes()).take(32),
{
    let digest = blake2b256_digest(string_key.as_bytes());
    let hex = hex_encode(digest.as_slice());
    let mut key: [u8; 32] = [0; 32];
    let mut i: usize = 0;
    while i < 32
        invariant
            i <= 32,
            hex@ == spec_hash_text(string_key.spec_bytes()),
            hex@.len() == 64,
            key@.len() == 32,
            forall|j: int| 0 <= j < i ==> key@[j] == hex@[j],
        decreases 32 - i,
    {
        key[i] = hex[i];
        i = i + 1;
    }
    proof {
        assert(key@ =~= spec_hash_text(string_key.spec_bytes()).take(32));
    }
    key
}

/// The first 24 bytes of the passphrase's hash text, as raw nonce material.
pub fn create_encryption_nonce(string_nonce: &str) -> (r: [u8; 24])
    ensures
        r@ == spec_hash_text(string_nonce.spec_bytes()).take(24),
{
    let digest = blake2b256_digest(string_nonce.as_bytes());
    let hex = hex_encode(digest.as_slice());
    let mut nonce: [u8; 24] = [0; 24];
    let mut i: usize = 0;
    while i < 24
        invariant
            i <= 24,
            hex@ == spec_hash_text(string_nonce.spec_bytes()),
            hex@.len() == 64,
            nonce@.len() == 24,
            forall|j: int| 0 <= j < i ==> nonce@[j] == hex@[j],
        decreases 24 - i,
    {
        nonce[i] = hex[i];
        i = i + 1;
    }
    proof {
        assert(nonce@ =~= spec_hash_text(string_nonce.spec_bytes()).take(24));
    }
    nonce
}

/// The key derived from a passphrase: the first 32 bytes of its hash text.
pub open spec fn spec_state_key(pw: Seq<u8>) -> Seq<u8> {
    spec_hash_text(pw).take(32)
}

/// The nonce derived from a passphrase: the key material is hashed once more
/// and the first 24 bytes of that hash text are taken.
pub open spec fn spec_state_nonce(pw: Seq<u8>) -> Seq<u8> {
    spec_hash_text(spec_hash_text(pw).take(32)).take(24)
}

/// Derive the state-blob key and nonce from a passphrase: hash the passphrase
/// for the key material, hash that key material again for the nonce material.
/// Deliberately deterministic and saltless, so the same passphrase always
/// rederives the same pair.
pub fn get_key_nonce(psw: &str) -> (r: ([u8; 32], [u8; 24]))
    ensures
        r.0@ == spec_state_key(psw.spec_bytes()),
        r.1@ == spec_state_nonce(psw.spec_bytes()),
{
    let key = create_encryption_key(psw);
    let digest = blake2b256_digest(key.as_slice());
    let hex = hex_encode(digest.as_slice());
    let mut nonce: [u8; 24] = [0; 24];
    let mut i: usize = 0;
    while i < 24
        invariant
            i <= 24,
            hex@ == hex_of(blake2b_of(key@)),
            hex@.len() == 64,
            nonce@.len() == 24,
            forall|j: int| 0 <= j < i ==> nonce@[j] == hex@[j],
        decreases 24 - i,
    {
        nonce[i] = hex[i];
        i = i + 1;
    }
    proof {
        assert(nonce@ =~= spec_state_nonce(psw.spec_bytes()));
    }
    (key, nonce)
}

/// A link: the pair of channel id and message id that addresses one message
/// inside a channel. Both parts are hex text.
pub struct Link {
    pub channel_id: String,
    pub msg_id: String,
}

impl Link {
    /// Both parts decode as hex text.
    pub open spec fn wf(self) -> bool {
        hex_decodable(encode_utf8(self.channel_id@)) && hex_decodable(encode_utf8(self.msg_id@))
    }
}

/// Build a link from its two hex-text parts; rejected when either part is not
/// well-formed hex.
pub fn create_link(channel_address: &str, msg_id: &str) -> (r: Result<Link, ChannelError>)
    ensures
        match r {
            Ok(link) => {
                &&& link.wf()
                &&& link.channel_id@ == channel_address@
                &&& link.msg_id@ == msg_id@
            },
            Err(e) => {
                &&& !(hex_decodable(channel_address.spec_bytes()) && hex_decodable(
                    msg_id.spec_bytes(),
                ))
                &&& e == ChannelError::TransportError
            },
        },
{
    let cid_ok = hex_decode(channel_address.as_bytes());
    let mid_ok = hex_decode(msg_id.as_bytes());
    match (cid_ok, mid_ok) {
        (Some(_), Some(_)) => Ok(
            Link { channel_id: channel_address.to_owned(), msg_id: msg_id.to_owned() },
        ),
        _ => Err(ChannelError::TransportError),
    }
}

/// The transport-addressable index of a linked message: the hex text of the
/// BLAKE2b-256 digest of the decoded channel id followed by the decoded
/// message id.
pub open spec fn spec_msg_index(cid: Seq<u8>, mid: Seq<u8>) -> Seq<u8> {
    hex_of(blake2b_of(hex_decoded(cid) + hex_decoded(mid)))
}

/// Compute the index under which a linked message can be looked up; a pure
/// function of the link, no transport call. The index is always 64 hex
/// characters: the hex text of a 32-byte digest.
pub fn msg_index(address: &Link) -> (r: String)
    requires
        address.wf(),
    ensures
        encode_utf8(r@) == spec_msg_index(
            encode_utf8(address.channel_id@),
            encode_utf8(address.msg_id@),
        ),
        r@.len() == 64,
{
    broadcast use vstd::utf8::decode_utf8_encode_utf8;

    let cid = match hex_decode(address.channel_id.as_str().as_bytes()) {
        Some(v) => v,
        None => unreached(),
    };
    let mut total = cid;
    let mid = match hex_decode(address.msg_id.as_str().as_bytes()) {
        Some(v) => v,
        None => unreached(),
    };
    total.extend_from_slice(mid.as_slice());
    proof {
        assert(total@ =~= hex_decoded(encode_utf8(address.channel_id@)) + hex_decoded(
            encode_utf8(address.msg_id@),
        ));
    }
    let digest = blake2b256_digest(total.as_slice());
    let hex = hex_encode(digest.as_slice());
    proof {
        lemma_hex_of_ascii(digest@);
        lemma_ascii_bytes_valid_utf8(hex@);
    }
    match string_from_utf8(hex) {
        Some(s) => s,
        None => unreached(),
    }
}

} // verus!
