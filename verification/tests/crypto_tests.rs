use chacha20poly1305::aead::generic_array::GenericArray;
use chacha20poly1305::aead::{Aead, NewAead};
use chacha20poly1305::XChaCha20Poly1305;
use crypto::hashes::blake2b::Blake2b256;
use crypto::hashes::Digest;
use streams_channels::hexcode::hex_encode;
use streams_channels::utility::{
    create_encryption_key, create_encryption_nonce, create_link, decrypt_data, encrypt_data,
    get_key_nonce, hash_string, msg_index, random_seed,
};

#[test]
fn hash_string_of_empty_is_known_digest() {
    assert_eq!(
        hash_string(""),
        "0e5751c026e543b2e8ab2eb06099daa1d1e5df47778f7787faab45cdf12fe3a8"
    );
}

#[test]
fn hash_string_agrees_with_digest_crate() {
    let direct = Blake2b256::digest("some input".as_bytes());
    let expected = String::from_utf8(hex_encode(&direct)).unwrap();
    assert_eq!(hash_string("some input"), expected);
}

#[test]
fn encryption_key_and_nonce_are_hash_prefixes() {
    let h = hash_string("passphrase");
    assert_eq!(create_encryption_key("passphrase"), h.as_bytes()[..32]);
    assert_eq!(create_encryption_nonce("passphrase"), h.as_bytes()[..24]);
}

#[test]
fn key_nonce_derivation_hashes_twice() {
    let (key, nonce) = get_key_nonce("pw");
    let h1 = hash_string("pw");
    assert_eq!(key, h1.as_bytes()[..32]);
    let h2 = hash_string(&h1[..32]);
    assert_eq!(nonce, h2.as_bytes()[..24]);
}

#[test]
fn same_password_rederives_same_pair() {
    assert_eq!(get_key_nonce("pw"), get_key_nonce("pw"));
    assert_ne!(get_key_nonce("pw").0, get_key_nonce("other").0);
}

#[test]
fn encrypt_decrypt_round_trip() {
    let key = create_encryption_key("k");
    let nonce = create_encryption_nonce("n");
    let data = b"attack at dawn".to_vec();
    let sealed = encrypt_data(&data, &key, &nonce).unwrap();
    assert_ne!(sealed, data);
    assert_eq!(sealed.len(), data.len() + 16);
    assert_eq!(decrypt_data(&sealed, &key, &nonce).unwrap(), data);
}

#[test]
fn encrypt_matches_cipher_crate() {
    let key = create_encryption_key("k");
    let nonce = create_encryption_nonce("n");
    let data = b"payload".to_vec();
    let ours = encrypt_data(&data, &key, &nonce).unwrap();
    let cipher = XChaCha20Poly1305::new(GenericArray::from_slice(&key));
    let theirs = cipher
        .encrypt(GenericArray::from_slice(&nonce), data.as_slice())
        .unwrap();
    assert_eq!(ours, theirs);
}

#[test]
fn decrypt_rejects_wrong_key() {
    let key = create_encryption_key("k");
    let nonce = create_encryption_nonce("n");
    let sealed = encrypt_data(b"secret", &key, &nonce).unwrap();
    let wrong = create_encryption_key("other");
    assert!(decrypt_data(&sealed, &wrong, &nonce).is_err());
}

#[test]
fn decrypt_rejects_tampering() {
    let key = create_encryption_key("k");
    let nonce = create_encryption_nonce("n");
    let mut sealed = encrypt_data(b"secret", &key, &nonce).unwrap();
    sealed[0] ^= 1;
    assert!(decrypt_data(&sealed, &key, &nonce).is_err());
}

#[test]
fn random_seed_shape() {
    let seed = random_seed();
    assert_eq!(seed.chars().count(), 81);
    assert!(seed
        .chars()
        .all(|c| c == '9' || (c.is_ascii_uppercase() && c.is_ascii_alphabetic())));
}

#[test]
fn random_seeds_differ() {
    assert_ne!(random_seed(), random_seed());
}

#[test]
fn create_link_requires_hex_text() {
    assert!(create_link("aabb", "ccdd").is_ok());
    assert!(create_link("not hex", "ccdd").is_err());
    assert!(create_link("aabb", "xyz").is_err());
}

#[test]
fn msg_index_matches_digest_of_decoded_parts() {
    let link = create_link("aabb01", "ccdd02").unwrap();
    let index = msg_index(&link);
    let mut concatenated = vec![0xaa, 0xbb, 0x01];
    concatenated.extend_from_slice(&[0xcc, 0xdd, 0x02]);
    let digest = Blake2b256::digest(&concatenated);
    let expected = String::from_utf8(hex_encode(&digest)).unwrap();
    assert_eq!(index, expected);
}
