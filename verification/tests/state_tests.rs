use base64::{decode_config, URL_SAFE_NO_PAD};
use streams_channels::channels::channel_state::{state_marker, ChannelState};
use streams_channels::errors::ChannelError;
use streams_channels::utility::{decrypt_data, get_key_nonce};

fn sample_state() -> ChannelState {
    ChannelState::new(&vec![1, 2, 3, 4, 5], "aabbcc", "ddeeff", "00112233")
}

#[test]
fn state_getters() {
    let st = sample_state();
    assert_eq!(st.user_state(), vec![1, 2, 3, 4, 5]);
    assert_eq!(st.channel_id(), "aabbcc");
    assert_eq!(st.announcement_id(), "ddeeff");
    assert_eq!(st.last_msg_id(), "00112233");
}

#[test]
fn state_round_trip() {
    let st = sample_state();
    let blob = st.encrypt("hunter2").unwrap();
    let back = ChannelState::decrypt(&blob, "hunter2").unwrap();
    assert_eq!(back.user_state(), st.user_state());
    assert_eq!(back.channel_id(), st.channel_id());
    assert_eq!(back.announcement_id(), st.announcement_id());
    assert_eq!(back.last_msg_id(), st.last_msg_id());
}

#[test]
fn state_round_trip_empty_fields() {
    let st = ChannelState::new(&vec![], "", "", "");
    let blob = st.encrypt("").unwrap();
    let back = ChannelState::decrypt(&blob, "").unwrap();
    assert_eq!(back.user_state(), Vec::<u8>::new());
    assert_eq!(back.channel_id(), "");
    assert_eq!(back.announcement_id(), "");
    assert_eq!(back.last_msg_id(), "");
}

#[test]
fn wrong_password_fails_with_state_error() {
    let st = sample_state();
    let blob = st.encrypt("first password").unwrap();
    let outcome = ChannelState::decrypt(&blob, "second password");
    assert_eq!(outcome.err(), Some(ChannelError::StateError));
}

#[test]
fn corrupted_blob_fails_with_state_error() {
    let st = sample_state();
    let mut blob = st.encrypt("pw").unwrap();
    let last = blob.len() - 1;
    blob[last] = if blob[last] == b'A' { b'B' } else { b'A' };
    assert_eq!(ChannelState::decrypt(&blob, "pw").err(), Some(ChannelError::StateError));
}

#[test]
fn garbage_blob_fails_with_state_error() {
    assert_eq!(
        ChannelState::decrypt(b"!!! not base64 !!!", "pw").err(),
        Some(ChannelError::StateError)
    );
    assert_eq!(
        ChannelState::decrypt(b"YWJjZA", "pw").err(),
        Some(ChannelError::StateError)
    );
}

#[test]
fn blob_format_is_base64_of_aead_of_bincode_record() {
    // The persisted form must be url-safe unpadded base64 of the encrypted
    // record, and the record itself must follow the fixed-width framing that
    // bincode gives a (bytes, string, string, string) tuple.
    let st = sample_state();
    let blob = st.encrypt("pw").unwrap();
    let ciphertext = decode_config(&blob, URL_SAFE_NO_PAD).unwrap();
    let (key, nonce) = get_key_nonce("pw");
    let plain = decrypt_data(&ciphertext, &key, &nonce).unwrap();
    let (user_state, channel_id, announcement_id, last_msg_id): (
        Vec<u8>,
        String,
        String,
        String,
    ) = bincode::deserialize(&plain).unwrap();
    assert_eq!(user_state, vec![1, 2, 3, 4, 5]);
    assert_eq!(channel_id, "aabbcc");
    assert_eq!(announcement_id, "ddeeff");
    assert_eq!(last_msg_id, "00112233");
}

#[test]
fn genesis_marker_format() {
    assert_eq!(state_marker("abcd", "0123"), "abcd:0123.state");
    assert_eq!(state_marker("", ""), ":.state");
}

#[test]
fn blob_is_text_safe() {
    // Every byte of the portable blob lies in the url-safe base64 alphabet.
    let blob = sample_state().encrypt("pw").unwrap();
    assert!(!blob.is_empty());
    assert!(blob.iter().all(|&c| {
        c.is_ascii_alphanumeric() || c == b'-' || c == b'_'
    }));
}
