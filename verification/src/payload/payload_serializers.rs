//! The two concrete serializer strategies.
//!
//! The raw strategy binary-frames the value and hex-encodes the result as
//! text. The JSON strategy JSON-encodes the value to bytes first, then
//! binary-frames and hex-encodes those bytes the same way.

use vstd::prelude::*;
use vstd::utf8::{decode_utf8, encode_utf8, valid_utf8};
use crate::errors::ChannelError;
use crate::framing::{field_at, field_at_ok, frame_of, lemma_frame_parses, push_frame, read_field};
use crate::hexcode::{
    hex_decodable, hex_decode, hex_decoded, hex_encode, hex_of, lemma_hex_round_trip,
};
use crate::jsoncodec::{
    json_bytes_parse, json_decode_bytes, json_decode_text, json_encode_bytes, json_encode_text,
    json_of_bytes, json_of_text, json_text_parse,
};
use crate::payload::payload_types::{StreamsPacket, StreamsPacketBuilder, StreamsPacketSerializer};
use crate::strbytes::string_from_utf8;

verus! {

/// Raw strategy: binary-frame the value, hex-encode the frame as text.
pub struct RawSerializer;

/// JSON strategy: JSON-encode the value to bytes, then binary-frame and
/// hex-encode that byte sequence.
pub struct JsonSerializer;

impl StreamsPacketSerializer for RawSerializer {
    open spec fn spec_ser_bytes(data: Seq<u8>) -> Seq<u8> {
        hex_of(frame_of(data))
    }

    open spec fn spec_ser_text(data: Seq<char>) -> Seq<u8> {
        hex_of(frame_of(encode_utf8(data)))
    }

    open spec fn spec_bytes_ok(data: Seq<u8>) -> bool {
        hex_decodable(data) && field_at_ok(hex_decoded(data), 0)
    }

    open spec fn spec_de_bytes(data: Seq<u8>) -> Seq<u8> {
        field_at(hex_decoded(data), 0)
    }

    open spec fn spec_text_ok(data: Seq<u8>) -> bool {
        hex_decodable(data) && field_at_ok(hex_decoded(data), 0) && valid_utf8(
            field_at(hex_decoded(data), 0),
        )
    }

    open spec fn spec_de_text(data: Seq<u8>) -> Seq<char> {
        decode_utf8(field_at(hex_decoded(data), 0))
    }

    fn serialize_bytes(data: &[u8]) -> (r: Vec<u8>) {
        let n = data.len();
        proof {
            assert(data@.len() == n && n <= usize::MAX);
        }
        let mut framed: Vec<u8> = Vec::new();
        push_frame(&mut framed, data);
        let r = hex_encode(framed.as_slice());
        proof {
            assert(framed@ =~= frame_of(data@));
            lemma_hex_round_trip(framed@);
            lemma_frame_parses(data@);
        }
        r
    }

    fn serialize_text(data: &str) -> (r: Vec<u8>) {
        broadcast use vstd::utf8::encode_utf8_valid_utf8;
        broadcast use vstd::utf8::encode_utf8_decode_utf8;

        let db = data.as_bytes();
        let n = db.len();
        proof {
            assert(encode_utf8(data@).len() == n && n <= usize::MAX);
        }
        let mut framed: Vec<u8> = Vec::new();
        push_frame(&mut framed, db);
        let r = hex_encode(framed.as_slice());
        proof {
            assert(framed@ =~= frame_of(encode_utf8(data@)));
            lemma_hex_round_trip(framed@);
            lemma_frame_parses(encode_utf8(data@));
        }
        r
    }

    fn deserialize_bytes(data: &[u8]) -> (r: Result<Vec<u8>, ChannelError>) {
        let unhexed = match hex_decode(data) {
            Some(v) => v,
            None => {
                return Err(ChannelError::SerializationError);
            },
        };
        match read_field(unhexed.as_slice(), 0) {
            Some((payload, _)) => Ok(payload),
            None => Err(ChannelError::SerializationError),
        }
    }

    fn deserialize_text(data: &[u8]) -> (r: Result<String, ChannelError>) {
        let unhexed = match hex_decode(data) {
            Some(v) => v,
            None => {
                return Err(ChannelError::SerializationError);
            },
        };
        let payload = match read_field(unhexed.as_slice(), 0) {
            Some((payload, _)) => payload,
            None => {
                return Err(ChannelError::SerializationError);
            },
        };
        match string_from_utf8(payload) {
            Some(s) => Ok(s),
            None => Err(ChannelError::SerializationError),
        }
    }
}

impl StreamsPacketSerializer for JsonSerializer {
    open spec fn spec_ser_bytes(data: Seq<u8>) -> Seq<u8> {
        hex_of(frame_of(json_of_bytes(data)))
    }

    open spec fn spec_ser_text(data: Seq<char>) -> Seq<u8> {
        hex_of(frame_of(json_of_text(data)))
    }

    open spec fn spec_bytes_ok(data: Seq<u8>) -> bool {
        hex_decodable(data) && field_at_ok(hex_decoded(data), 0) && json_bytes_parse(
            field_at(hex_decoded(data), 0),
        ) is Some
    }

    open spec fn spec_de_bytes(data: Seq<u8>) -> Seq<u8> {
        json_bytes_parse(field_at(hex_decoded(data), 0)) -> Some_0
    }

    open spec fn spec_text_ok(data: Seq<u8>) -> bool {
        hex_decodable(data) && field_at_ok(hex_decoded(data), 0) && json_text_parse(
            field_at(hex_decoded(data), 0),
        ) is Some
    }

    open spec fn spec_de_text(data: Seq<u8>) -> Seq<char> {
        json_text_parse(field_at(hex_decoded(data), 0)) -> Some_0
    }

    fn serialize_bytes(data: &[u8]) -> (r: Vec<u8>) {
        let json = json_encode_bytes(data);
        let n = json.len();
        proof {
            assert(json@.len() == n && n <= usize::MAX);
        }
        let mut framed: Vec<u8> = Vec::new();
        push_frame(&mut framed, json.as_slice());
        let r = hex_encode(framed.as_slice());
        proof {
            assert(framed@ =~= frame_of(json@));
            lemma_hex_round_trip(framed@);
            lemma_frame_parses(json@);
        }
        r
    }

    fn serialize_text(data: &str) -> (r: Vec<u8>) {
        let json = json_encode_text(data);
        let n = json.len();
        proof {
            assert(json@.len() == n && n <= usize::MAX);
        }
        let mut framed: Vec<u8> = Vec::new();
        push_frame(&mut framed, json.as_slice());
        let r = hex_encode(framed.as_slice());
        proof {
            assert(framed@ =~= frame_of(json@));
            lemma_hex_round_trip(framed@);
            lemma_frame_parses(json@);
        }
        r
    }

    fn deserialize_bytes(data: &[u8]) -> (r: Result<Vec<u8>, ChannelError>) {
        let unhexed = match hex_decode(data) {
            Some(v) => v,
            None => {
                return Err(ChannelError::SerializationError);
            },
        };
        let payload = match read_field(unhexed.as_slice(), 0) {
            Some((payload, _)) => payload,
            None => {
                return Err(ChannelError::SerializationError);
            },
        };
        json_decode_bytes(payload.as_slice())
    }

    fn deserialize_text(data: &[u8]) -> (r: Result<String, ChannelError>) {
        let unhexed = match hex_decode(data) {
            Some(v) => v,
            None => {
                return Err(ChannelError::SerializationError);
            },
        };
        let payload = match read_field(unhexed.as_slice(), 0) {
            Some((payload, _)) => payload,
            None => {
                return Err(ChannelError::SerializationError);
            },
        };
        json_decode_text(payload.as_slice())
    }
}

/// The serializer-and-deserializer round trip for the raw strategy, stated
/// over the strategy's specification alone: any byte-vector value and any
/// string value come back unchanged from their own serialization.
pub proof fn lemma_raw_round_trip(bytes: Seq<u8>, text: Seq<char>)
    requires
        bytes.len() <= u64::MAX,
        encode_utf8(text).len() <= u64::MAX,
    ensures
        RawSerializer::spec_bytes_ok(RawSerializer::spec_ser_bytes(bytes)),
        RawSerializer::spec_de_bytes(RawSerializer::spec_ser_bytes(bytes)) == bytes,
        RawSerializer::spec_text_ok(RawSerializer::spec_ser_text(text)),
        RawSerializer::spec_de_text(RawSerializer::spec_ser_text(text)) == text,
{
    broadcast use vstd::utf8::encode_utf8_valid_utf8;
    broadcast use vstd::utf8::encode_utf8_decode_utf8;

    lemma_hex_round_trip(frame_of(bytes));
    lemma_frame_parses(bytes);
    lemma_hex_round_trip(frame_of(encode_utf8(text)));
    lemma_frame_parses(encode_utf8(text));
}

/// Raw packets and their builder.
pub type RawPacket = StreamsPacket<RawSerializer>;

/// Builder of raw packets.
pub type RawPacketBuilder = StreamsPacketBuilder<RawSerializer>;

/// JSON packets and their builder.
pub type JsonPacket = StreamsPacket<JsonSerializer>;

/// Builder of JSON packets.
pub type JsonPacketBuilder = StreamsPacketBuilder<JsonSerializer>;

} // verus!
