use streams_channels::channels::channel_state::ChannelState;
use streams_channels::channels::messages::{
    ChannelInfo, PoppedMessage, ResponseMessage, TransportMessage,
};
use streams_channels::channels::tangle_channel_reader::ChannelReader;
use streams_channels::channels::tangle_channel_writer::ChannelWriter;
use streams_channels::errors::ChannelError;
use streams_channels::payload::payload_serializers::RawPacketBuilder;

fn packet_wires(public: &str, masked: &str) -> (Vec<u8>, Vec<u8>) {
    let mut builder = RawPacketBuilder::new();
    builder.public_text(public);
    builder.masked_text(masked);
    let packet = builder.build();
    (packet.public_data(), packet.masked_data().unwrap())
}

fn signed(msg_id: &str, wires: (Vec<u8>, Vec<u8>)) -> TransportMessage {
    TransportMessage::SignedPacket { msg_id: msg_id.to_string(), public: wires.0, masked: wires.1 }
}

#[test]
fn fetch_discards_non_packets_and_empty_packets() {
    let mut reader = ChannelReader::new("aabb", "ccdd");
    let batch = vec![
        TransportMessage::Other { msg_id: "0001".to_string() },
        TransportMessage::SignedPacket {
            msg_id: "0002".to_string(),
            public: Vec::new(),
            masked: Vec::new(),
        },
    ];
    assert!(!reader.process_fetched(batch));
    assert!(!reader.has_next_msg());
}

#[test]
fn fetch_idempotent_without_new_messages() {
    let mut reader = ChannelReader::new("aabb", "ccdd");
    assert!(reader.process_fetched(vec![signed("0001", packet_wires("A", "B"))]));
    assert!(reader.has_next_msg());
    // A second fetch that finds nothing new leaves the queue unchanged.
    assert!(!reader.process_fetched(Vec::new()));
    let queue = reader.fetch_raw_msgs();
    assert_eq!(queue.len(), 1);
    assert_eq!(queue[0].0, "0001");
}

#[test]
fn queue_is_fifo_across_batch_boundaries() {
    let mut reader = ChannelReader::new("aabb", "ccdd");
    reader.process_fetched(vec![
        signed("0001", packet_wires("first", "x")),
        signed("0002", packet_wires("second", "x")),
    ]);
    reader.process_fetched(vec![signed("0003", packet_wires("third", "x"))]);

    let mut order = Vec::new();
    while let Some(popped) = reader.pop_msg(&None) {
        match popped {
            PoppedMessage::Decoded { msg_id, packet } => {
                order.push((msg_id, packet.deserialize_public_text().unwrap()));
            },
            PoppedMessage::Unreadable { .. } => panic!("all messages are readable"),
        }
    }
    assert_eq!(
        order,
        vec![
            ("0001".to_string(), "first".to_string()),
            ("0002".to_string(), "second".to_string()),
            ("0003".to_string(), "third".to_string()),
        ]
    );
}

#[test]
fn pop_on_empty_queue_is_none() {
    let mut reader = ChannelReader::new("aabb", "ccdd");
    assert!(reader.pop_msg(&None).is_none());
}

#[test]
fn unreadable_message_does_not_halt_enumeration() {
    let mut reader = ChannelReader::new("aabb", "ccdd");
    reader.process_fetched(vec![
        TransportMessage::SignedPacket {
            msg_id: "0001".to_string(),
            public: b"!!! not base64 !!!".to_vec(),
            masked: b"???".to_vec(),
        },
        signed("0002", packet_wires("readable", "x")),
    ]);
    match reader.pop_msg(&None).unwrap() {
        PoppedMessage::Unreadable { msg_id } => assert_eq!(msg_id, "0001"),
        PoppedMessage::Decoded { .. } => panic!("first message is unreadable"),
    }
    match reader.pop_msg(&None).unwrap() {
        PoppedMessage::Decoded { msg_id, packet } => {
            assert_eq!(msg_id, "0002");
            assert_eq!(packet.deserialize_public_text().unwrap(), "readable");
        },
        PoppedMessage::Unreadable { .. } => panic!("second message is readable"),
    }
}

#[test]
fn attach_strips_exactly_the_genesis_state_message() {
    let mut writer = ChannelWriter::new("aabb");
    writer.record_announcement("ccdd");
    let blob = writer.export_to_bytes(&vec![1, 2, 3], "pw").unwrap();
    let (_, public_wire, masked_wire) = writer.prepare_state_msg(&blob).unwrap();

    let mut reader = ChannelReader::new("aabb", "ccdd");
    reader.process_fetched(vec![
        TransportMessage::SignedPacket {
            msg_id: "0001".to_string(),
            public: public_wire,
            masked: masked_wire,
        },
        signed("0002", packet_wires("ordinary", "x")),
    ]);
    assert!(reader.strip_state_msg());
    // Exactly the state message is gone; the ordinary one is still queued.
    let queue = reader.fetch_raw_msgs();
    assert_eq!(queue.len(), 1);
    assert_eq!(queue[0].0, "0002");
}

#[test]
fn attach_leaves_ordinary_first_message_alone() {
    let mut reader = ChannelReader::new("aabb", "ccdd");
    reader.process_fetched(vec![signed("0001", packet_wires("ordinary", "x"))]);
    assert!(!reader.strip_state_msg());
    assert!(reader.has_next_msg());
}

#[test]
fn attach_treats_decode_failure_as_not_a_state_message() {
    let mut reader = ChannelReader::new("aabb", "ccdd");
    reader.process_fetched(vec![TransportMessage::SignedPacket {
        msg_id: "0001".to_string(),
        public: b"not base64 at all".to_vec(),
        masked: b"x".to_vec(),
    }]);
    assert!(!reader.strip_state_msg());
    assert!(reader.has_next_msg());
}

#[test]
fn writer_scenario_export_and_import_keeps_publish_pointer() {
    // Open, publish once, export under a passphrase, then restore: the
    // restored writer's publish pointer is the id the publish returned.
    let mut writer = ChannelWriter::new("aabb01");
    let (channel_id, announce_id) = writer.record_announcement("ccdd02");
    assert_eq!(channel_id, "aabb01");
    assert_eq!(announce_id, "ccdd02");

    let (link, _public_wire, _masked_wire) = writer
        .prepare_signed_raw(b"hello", b"secret", &None)
        .unwrap();
    assert_eq!(link.channel_id, "aabb01");
    assert_eq!(link.msg_id, "ccdd02");
    // The transport confirms the publish with the new message id.
    writer.confirm_publish("eeff03");

    let credentials = vec![42, 43, 44];
    let blob = writer.export_to_bytes(&credentials, "pw").unwrap();

    let state = ChannelState::decrypt(&blob, "pw").unwrap();
    assert_eq!(state.user_state(), credentials);
    let restored = ChannelWriter::import(&state, "aabb01");
    let restored_state = restored.export(&credentials);
    assert_eq!(restored_state.last_msg_id(), "eeff03");
    assert_eq!(restored_state.announcement_id(), "ccdd02");
    assert_eq!(restored_state.channel_id(), "aabb01");
}

#[test]
fn reader_scenario_attach_and_pop_ordinary_packet() {
    // A channel with no genesis-state message and one ordinary packet: after
    // the attach sequence the packet is still there and decodes as sent.
    let mut reader = ChannelReader::new("aabb", "ccdd");
    let found = reader.process_fetched(vec![signed("0001", packet_wires("A", "B"))]);
    assert!(found);
    assert!(!reader.strip_state_msg());
    assert!(reader.has_next_msg());
    match reader.pop_msg(&None).unwrap() {
        PoppedMessage::Decoded { msg_id, packet } => {
            assert_eq!(msg_id, "0001");
            assert_eq!(packet.deserialize_public_text().unwrap(), "A");
            assert_eq!(packet.deserialize_masked_text().unwrap(), "B");
        },
        PoppedMessage::Unreadable { .. } => panic!("packet is readable"),
    }
    assert!(!reader.has_next_msg());
}

#[test]
fn import_from_tangle_flow_recovers_the_state() {
    let mut writer = ChannelWriter::new("aabb");
    writer.record_announcement("ccdd");
    writer.confirm_publish("eeff");
    let blob = writer.export_to_bytes(&vec![7, 7, 7], "pw").unwrap();
    let (_, public_wire, masked_wire) = writer.prepare_state_msg(&blob).unwrap();

    let first = Some(TransportMessage::SignedPacket {
        msg_id: "0001".to_string(),
        public: public_wire,
        masked: masked_wire,
    });
    let recovered = ChannelWriter::extract_state_payload("aabb", "ccdd", &first).unwrap();
    assert_eq!(recovered, blob);
    let state = ChannelState::decrypt(&recovered, "pw").unwrap();
    assert_eq!(state.user_state(), vec![7, 7, 7]);
    assert_eq!(state.last_msg_id(), "eeff");
}

#[test]
fn extract_state_payload_rejects_everything_else() {
    assert_eq!(
        ChannelWriter::extract_state_payload("aabb", "ccdd", &None).err(),
        Some(ChannelError::NoStateFound)
    );
    assert_eq!(
        ChannelWriter::extract_state_payload(
            "aabb",
            "ccdd",
            &Some(TransportMessage::Other { msg_id: "0001".to_string() })
        )
        .err(),
        Some(ChannelError::NoStateFound)
    );
    // An ordinary packet does not carry the genesis marker.
    let first = Some(signed_ordinary());
    assert_eq!(
        ChannelWriter::extract_state_payload("aabb", "ccdd", &first).err(),
        Some(ChannelError::NoStateFound)
    );
}

fn signed_ordinary() -> TransportMessage {
    let mut builder = RawPacketBuilder::new();
    builder.public_text("not the marker");
    builder.masked_bytes(b"x");
    let packet = builder.build();
    TransportMessage::SignedPacket {
        msg_id: "0001".to_string(),
        public: packet.public_data(),
        masked: packet.masked_data().unwrap(),
    }
}

#[test]
fn writer_replay_advances_pointer_to_last_batch_entry() {
    let mut writer = ChannelWriter::new("aabb");
    writer.record_announcement("ccdd");
    writer.advance_to_latest(&vec!["1111".to_string(), "2222".to_string()]);
    writer.advance_to_latest(&Vec::new());
    let state = writer.export(&vec![]);
    assert_eq!(state.last_msg_id(), "2222");
}

#[test]
fn reader_export_has_empty_publish_pointer() {
    let reader = ChannelReader::new("aabb", "ccdd");
    let state = reader.export(&vec![1]);
    assert_eq!(state.channel_id(), "aabb");
    assert_eq!(state.announcement_id(), "ccdd");
    assert_eq!(state.last_msg_id(), "");
    let blob = reader.export_to_bytes(&vec![1], "pw").unwrap();
    let restored = ChannelState::decrypt(&blob, "pw").unwrap();
    let reimported = ChannelReader::import(&restored, "aabb");
    let (cid, aid) = reimported.channel_address();
    assert_eq!(cid, "aabb");
    assert_eq!(aid, "ccdd");
}

#[test]
fn msg_index_is_deterministic_and_validated() {
    let reader = ChannelReader::new("aabb", "ccdd");
    let writer = ChannelWriter::new("aabb");
    let from_reader = reader.msg_index("eeff").unwrap();
    let from_writer = writer.msg_index("eeff").unwrap();
    assert_eq!(from_reader, from_writer);
    assert_eq!(from_reader.len(), 64);
    assert_eq!(
        reader.msg_index("not hex").err(),
        Some(ChannelError::TransportError)
    );
}

#[test]
fn response_message_and_channel_info_accessors() {
    let info = ChannelInfo::new("aabb", "ccdd");
    assert_eq!(info.channel_id(), "aabb");
    assert_eq!(info.announce_id(), "ccdd");
    let msg = ResponseMessage::new("0001".to_string(), vec![1], vec![2]);
    assert_eq!(msg.msg_id(), "0001");
    assert_eq!(msg.public(), vec![1]);
    assert_eq!(msg.masked(), vec![2]);
}

#[test]
fn error_descriptions_are_distinct() {
    let errors = [
        ChannelError::CryptoError,
        ChannelError::SerializationError,
        ChannelError::StateError,
        ChannelError::NoStateFound,
        ChannelError::TransportError,
    ];
    for e in &errors {
        assert!(!e.description().is_empty());
    }
    assert_ne!(
        ChannelError::CryptoError.description(),
        ChannelError::StateError.description()
    );
}
