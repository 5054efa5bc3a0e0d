use streams_channels::channels::messages::KeyNonce;
use streams_channels::errors::ChannelError;
use streams_channels::payload::payload_serializers::{RawPacket, RawPacketBuilder};

#[test]
fn packet_wire_round_trip_plain() {
    let mut builder = RawPacketBuilder::new();
    builder.public_bytes(b"public payload");
    builder.masked_bytes(b"masked payload");
    let packet = builder.build();
    let public_wire = packet.public_data();
    let masked_wire = packet.masked_data().unwrap();

    let decoded = RawPacket::from_streams_response(&public_wire, &masked_wire, &None).unwrap();
    assert_eq!(decoded.public_data(), public_wire);
    assert_eq!(decoded.masked_data().unwrap(), masked_wire);
    assert_eq!(decoded.deserialize_public_bytes().unwrap(), b"public payload".to_vec());
    assert_eq!(decoded.deserialize_masked_bytes().unwrap(), b"masked payload".to_vec());
}

#[test]
fn packet_wire_round_trip_encrypted() {
    let kn = KeyNonce::new("key phrase", "nonce phrase");
    let pair = Some((*kn.key_ref(), *kn.nonce_ref()));

    let mut builder = RawPacketBuilder::new();
    builder.public_bytes(b"public payload");
    builder.masked_bytes(b"masked payload");
    builder.key_nonce(kn.key_ref(), kn.nonce_ref());
    let packet = builder.build();
    let public_wire = packet.public_data();
    let masked_wire = packet.masked_data().unwrap();

    let decoded = RawPacket::from_streams_response(&public_wire, &masked_wire, &pair).unwrap();
    assert_eq!(decoded.public_data(), public_wire);
    assert_eq!(decoded.masked_data().unwrap(), masked_wire);
    assert_eq!(decoded.deserialize_masked_bytes().unwrap(), b"masked payload".to_vec());
}

#[test]
fn masked_wire_is_actually_encrypted() {
    let kn = KeyNonce::new("key phrase", "nonce phrase");
    let mut plain_builder = RawPacketBuilder::new();
    plain_builder.public_bytes(b"p");
    plain_builder.masked_bytes(b"m");
    let plain_wire = plain_builder.build().masked_data().unwrap();

    let mut enc_builder = RawPacketBuilder::new();
    enc_builder.public_bytes(b"p");
    enc_builder.masked_bytes(b"m");
    enc_builder.key_nonce(kn.key_ref(), kn.nonce_ref());
    let enc_wire = enc_builder.build().masked_data().unwrap();

    assert_ne!(plain_wire, enc_wire);
}

#[test]
fn decoding_with_wrong_key_fails() {
    let kn = KeyNonce::new("right key", "right nonce");
    let mut builder = RawPacketBuilder::new();
    builder.public_bytes(b"p");
    builder.masked_bytes(b"m");
    builder.key_nonce(kn.key_ref(), kn.nonce_ref());
    let packet = builder.build();
    let public_wire = packet.public_data();
    let masked_wire = packet.masked_data().unwrap();

    let wrong = KeyNonce::new("wrong key", "right nonce");
    let wrong_pair = Some((*wrong.key_ref(), *wrong.nonce_ref()));
    let outcome = RawPacket::from_streams_response(&public_wire, &masked_wire, &wrong_pair);
    assert_eq!(outcome.err(), Some(ChannelError::CryptoError));
}

#[test]
fn decoding_malformed_base64_fails() {
    let outcome = RawPacket::from_streams_response(b"!!!", b"???", &None);
    assert_eq!(outcome.err(), Some(ChannelError::SerializationError));
}

#[test]
fn packet_text_payloads() {
    let mut builder = RawPacketBuilder::new();
    builder.public_text("A");
    builder.masked_text("B");
    let packet = builder.build();
    assert_eq!(packet.deserialize_public_text().unwrap(), "A");
    assert_eq!(packet.deserialize_masked_text().unwrap(), "B");
    let (public, _) = {
        let pair = packet.deserialize();
        // The masked field holds a string here, which also reads back as the
        // framed byte payload of that string's serialization.
        assert!(pair.is_ok());
        pair.unwrap()
    };
    assert_eq!(public, "A");
}

#[test]
fn key_nonce_accessors() {
    let kn = KeyNonce::new("k", "n");
    assert_eq!(kn.key(), kn.key_ref().to_vec());
    assert_eq!(kn.nonce(), kn.nonce_ref().to_vec());
    assert_eq!(kn.key().len(), 32);
    assert_eq!(kn.nonce().len(), 24);
    let copy = kn.clone();
    assert_eq!(copy.key(), kn.key());
}

#[test]
fn wires_of_built_packets_are_never_empty() {
    let mut builder = RawPacketBuilder::new();
    builder.public_bytes(b"");
    builder.masked_bytes(b"");
    let packet = builder.build();
    // Even empty payloads frame to non-empty serializer text, so both wires
    // carry content and a fetch of such a message keeps it queued.
    assert!(!packet.public_data().is_empty());
    assert!(!packet.masked_data().unwrap().is_empty());
}
