use streams_channels::hexcode::{hex_decode, hex_encode};
use streams_channels::framing::{push_frame, read_field};
use streams_channels::payload::payload_serializers::{JsonSerializer, RawSerializer};
use streams_channels::payload::payload_types::StreamsPacketSerializer;
use streams_channels::errors::ChannelError;

#[test]
fn hex_encode_exact() {
    assert_eq!(hex_encode(&[0x0f, 0xa0, 0x00, 0xff]), b"0fa000ff".to_vec());
    assert_eq!(hex_encode(&[]), Vec::<u8>::new());
}

#[test]
fn hex_decode_lower_and_upper() {
    assert_eq!(hex_decode(b"0fa000ff"), Some(vec![0x0f, 0xa0, 0x00, 0xff]));
    assert_eq!(hex_decode(b"0FA000FF"), Some(vec![0x0f, 0xa0, 0x00, 0xff]));
    assert_eq!(hex_decode(b"aAbBcC"), Some(vec![0xaa, 0xbb, 0xcc]));
}

#[test]
fn hex_decode_rejects_bad_input() {
    assert_eq!(hex_decode(b"abc"), None);
    assert_eq!(hex_decode(b"zz"), None);
    assert_eq!(hex_decode(b"0g"), None);
}

#[test]
fn hex_round_trip() {
    let data: Vec<u8> = (0u16..=255).map(|b| b as u8).collect();
    let text = hex_encode(&data);
    assert_eq!(hex_decode(&text), Some(data));
}

#[test]
fn framing_matches_bincode() {
    let payload: Vec<u8> = vec![104, 101, 108, 108, 111];
    let mut framed: Vec<u8> = Vec::new();
    push_frame(&mut framed, &payload);
    let expected = bincode::serialize(&payload).unwrap();
    assert_eq!(framed, expected);
}

#[test]
fn framing_reads_back_with_trailing_bytes() {
    let mut framed: Vec<u8> = Vec::new();
    push_frame(&mut framed, &[7, 8, 9]);
    framed.push(42);
    let (payload, end) = read_field(&framed, 0).unwrap();
    assert_eq!(payload, vec![7, 8, 9]);
    assert_eq!(end, 11);
}

#[test]
fn framing_rejects_truncated_field() {
    assert!(read_field(&[3, 0, 0, 0, 0, 0, 0, 0, 1], 0).is_none());
    assert!(read_field(&[1, 2, 3], 0).is_none());
}

#[test]
fn raw_serializer_exact_text() {
    let out = RawSerializer::serialize_bytes(b"hello");
    assert_eq!(out, b"050000000000000068656c6c6f".to_vec());
}

#[test]
fn raw_serializer_matches_bincode_and_hex() {
    let value: Vec<u8> = vec![0, 1, 2, 250];
    let out = RawSerializer::serialize_bytes(&value);
    let expected = hex_encode(&bincode::serialize(&value).unwrap());
    assert_eq!(out, expected);
}

#[test]
fn raw_serializer_round_trips_bytes() {
    let value: Vec<u8> = vec![9, 8, 7, 6, 5];
    let text = RawSerializer::serialize_bytes(&value);
    assert_eq!(RawSerializer::deserialize_bytes(&text).unwrap(), value);
}

#[test]
fn raw_serializer_round_trips_text() {
    let text = RawSerializer::serialize_text("grüße");
    assert_eq!(RawSerializer::deserialize_text(&text).unwrap(), "grüße");
}

#[test]
fn raw_serializer_rejects_type_mismatch() {
    let not_utf8 = RawSerializer::serialize_bytes(&[0xff, 0xfe]);
    assert_eq!(
        RawSerializer::deserialize_text(&not_utf8),
        Err(ChannelError::SerializationError)
    );
}

#[test]
fn raw_serializer_rejects_malformed_hex() {
    assert_eq!(
        RawSerializer::deserialize_bytes(b"zz"),
        Err(ChannelError::SerializationError)
    );
}

#[test]
fn json_serializer_round_trips_text() {
    let text = JsonSerializer::serialize_text("a \"quoted\" value");
    assert_eq!(
        JsonSerializer::deserialize_text(&text).unwrap(),
        "a \"quoted\" value"
    );
}

#[test]
fn json_serializer_round_trips_bytes() {
    let value: Vec<u8> = vec![1, 2, 3, 255];
    let text = JsonSerializer::serialize_bytes(&value);
    assert_eq!(JsonSerializer::deserialize_bytes(&text).unwrap(), value);
}

#[test]
fn json_serializer_agrees_with_serde_json() {
    // Build the strategy's text by hand from serde_json's own encoding: the
    // library must decode it to the same value.
    let json = serde_json::to_vec("A").unwrap();
    let framed = bincode::serialize(&json).unwrap();
    let text = hex_encode(&framed);
    assert_eq!(JsonSerializer::deserialize_text(&text).unwrap(), "A");
}

#[test]
fn json_serializer_rejects_malformed_json() {
    let not_json: Vec<u8> = b"not json at all".to_vec();
    let framed = bincode::serialize(&not_json).unwrap();
    let text = hex_encode(&framed);
    assert_eq!(
        JsonSerializer::deserialize_text(&text),
        Err(ChannelError::SerializationError)
    );
}

#[test]
fn serializer_outputs_differ_between_strategies() {
    // The JSON strategy must not hand its input through unchanged.
    let raw = RawSerializer::serialize_text("A");
    let json = JsonSerializer::serialize_text("A");
    assert_ne!(raw, json);
}
