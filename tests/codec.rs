use chatger::network::client::{
    check_connect, decode_frame, read_frame_header, ConnectError, ConnectionType, InteractedTimeStamp, MAX_MESSAGE_LENGTH,
};
use chatger::tui::events::ServerAddrInfo;
use chatger::network::handle_message;
use chatger::network::protocol::client::{
    Anchor, ClientPayload, GetChannelsPacket, GetHistoryPacket, GetUsersPacket, LoginPacket, SendMediaPacket,
    SendMessagePacket, Serialize, TypingPacket,
};
use chatger::network::protocol::header::Header;
use chatger::network::protocol::server::{
    Channel, Deserialize, HistoryMessage, ReturnStatus, ServerPacketType, ServerPayload,
};
use chatger::network::protocol::{CodecError, MediaType, UserStatus};
use chatger::tui::events::TuiEvent;

fn frame(kind: u8, payload: &[u8]) -> Vec<u8> {
    let mut bytes = vec![0x43, 0x48, 0x54, 0x47, 0x01, kind];
    bytes.extend_from_slice(&(payload.len() as u32).to_be_bytes());
    bytes.extend_from_slice(payload);
    bytes
}

#[test]
fn login_frame_bytes() {
    let payload = ClientPayload::Login(LoginPacket { username: "alice".to_string(), password: "pw".to_string() });
    let bytes = payload.encode_frame();
    let mut expected = vec![0x43, 0x48, 0x54, 0x47, 0x01, 0x81, 0, 0, 0, 8];
    expected.extend_from_slice(b"alice\0pw");
    assert_eq!(bytes, expected);
}

#[test]
fn channels_list_request_is_header_only() {
    let bytes = ClientPayload::ChannelsList.encode_frame();
    assert_eq!(bytes, vec![0x43, 0x48, 0x54, 0x47, 0x01, 0x84, 0, 0, 0, 0]);
}

#[test]
fn get_channels_has_two_byte_count() {
    let bytes = GetChannelsPacket { channel_ids: vec![1, 0x0102] }.serialize();
    assert_eq!(bytes, vec![0, 2, 0, 0, 0, 0, 0, 0, 0, 1, 0, 0, 0, 0, 0, 0, 1, 2]);
}

#[test]
fn get_users_has_one_byte_count() {
    let bytes = GetUsersPacket { user_ids: vec![5] }.serialize();
    assert_eq!(bytes, vec![1, 0, 0, 0, 0, 0, 0, 0, 5]);
}

#[test]
fn history_request_is_seventeen_bytes() {
    let bytes = GetHistoryPacket { channel_id: 7, anchor: Anchor::Timestamp(0x10), num_messages_back: -2 }.serialize();
    assert_eq!(bytes.len(), 17);
    assert_eq!(&bytes[0..8], &[0, 0, 0, 0, 0, 0, 0, 7]);
    assert_eq!(&bytes[8..16], &[0, 0, 0, 0, 0, 0, 0, 0x10]);
    assert_eq!(bytes[16], 0xFE);
}

#[test]
fn message_id_anchor_sets_top_bit() {
    let bytes = Anchor::MessageId(3).serialize();
    assert_eq!(bytes, vec![0x80, 0, 0, 0, 0, 0, 0, 3]);
}

#[test]
fn send_message_bytes() {
    let bytes = SendMessagePacket { channel_id: 7, reply_id: 0, media_ids: vec![], message_text: "hi".to_string() }
        .serialize();
    let mut expected = vec![0, 0, 0, 0, 0, 0, 0, 7, 0, 0, 0, 0, 0, 0, 0, 0, 0];
    expected.extend_from_slice(b"hi");
    assert_eq!(bytes, expected);
}

#[test]
fn send_media_bytes() {
    let bytes =
        SendMediaPacket { filename: "a.png".to_string(), media_type: MediaType::Image, media_data: vec![9, 8] }
            .serialize();
    let mut expected = vec![0, 0, 0, 5];
    expected.extend_from_slice(b"a.png");
    expected.extend_from_slice(&[3, 0, 0, 0, 2, 9, 8]);
    assert_eq!(bytes, expected);
}

#[test]
fn typing_and_status_bytes() {
    assert_eq!(TypingPacket { is_typing: true, channel_id: 1 }.serialize(), vec![1, 0, 0, 0, 0, 0, 0, 0, 1]);
    assert_eq!(UserStatus::Idle.serialize(), vec![2]);
}

#[test]
fn header_rejects_bad_magic_and_version() {
    let mut bytes = frame(0x01, &[0]);
    bytes[0] = b'X';
    assert_eq!(Header::deserialize(&bytes).unwrap_err(), CodecError::BadMagic);
    let mut bytes = frame(0x01, &[0]);
    bytes[4] = 0x02;
    assert_eq!(Header::deserialize(&bytes).unwrap_err(), CodecError::UnknownVersion);
    assert_eq!(Header::deserialize(&bytes[0..5]).unwrap_err(), CodecError::ShortFrame);
}

#[test]
fn header_rejects_client_packets_and_unknown_types() {
    assert_eq!(read_frame_header(&frame(0x81, &[])).unwrap_err(), CodecError::WrongDirection);
    assert_eq!(read_frame_header(&frame(0x0C, &[])).unwrap_err(), CodecError::UnknownType);
}

#[test]
fn oversize_frame_is_rejected() {
    let mut bytes = frame(0x01, &[]);
    bytes[6..10].copy_from_slice(&((MAX_MESSAGE_LENGTH - 9) as u32).to_be_bytes());
    assert_eq!(read_frame_header(&bytes).unwrap_err(), CodecError::OversizeFrame);
    bytes[6..10].copy_from_slice(&((MAX_MESSAGE_LENGTH - 10) as u32).to_be_bytes());
    assert_eq!(read_frame_header(&bytes).unwrap(), (ServerPacketType::LoginAck, MAX_MESSAGE_LENGTH - 10));
}

#[test]
fn login_ack_success_decodes() {
    let bytes = [0x43, 0x48, 0x54, 0x47, 0x01, 0x01, 0x00, 0x00, 0x00, 0x01, 0x00];
    let (payload, used) = decode_frame(&bytes).unwrap();
    assert_eq!(used, 11);
    match payload {
        ServerPayload::Login(p) => {
            assert_eq!(p.status, ReturnStatus::Success);
            assert!(p.error_message.is_none());
        },
        other => panic!("unexpected payload {other:?}"),
    }
}

#[test]
fn failed_reply_reads_error_to_nul_or_end() {
    let mut payload = vec![0x01];
    payload.extend_from_slice(b"Incorrect username or password.");
    let (p, used) = decode_frame(&frame(0x01, &payload)).unwrap();
    assert_eq!(used, 10 + payload.len());
    match handle_message(p) {
        Ok(TuiEvent::LoginFail(m)) => assert_eq!(m, "Incorrect username or password."),
        other => panic!("unexpected {other:?}"),
    }
    let mut payload = vec![0x01];
    payload.extend_from_slice(b"no\0rest");
    let (p, used) = decode_frame(&frame(0x01, &payload)).unwrap();
    assert_eq!(used, 10 + 3);
    match p {
        ServerPayload::Login(p) => assert_eq!(p.error_message.as_deref(), Some("no")),
        other => panic!("unexpected {other:?}"),
    }
}

#[test]
fn invalid_utf8_is_rejected() {
    let payload = [0x01, 0xFF, 0xFE];
    assert_eq!(decode_frame(&frame(0x01, &payload)).unwrap_err(), CodecError::Utf8Error);
}

#[test]
fn short_payload_is_rejected() {
    assert_eq!(decode_frame(&frame(0x02, &[0x00, 0x01])).unwrap_err(), CodecError::ShortFrame);
    let mut bytes = frame(0x01, &[0x00]);
    bytes.pop();
    assert_eq!(decode_frame(&bytes).unwrap_err(), CodecError::ShortFrame);
}

#[test]
fn bad_enum_bytes_are_rejected() {
    assert_eq!(decode_frame(&frame(0x01, &[0x03])).unwrap_err(), CodecError::BadStatus);
    assert_eq!(decode_frame(&frame(0x0B, &[0x07, 0, 0, 0, 0, 0, 0, 0, 1])).unwrap_err(), CodecError::BadUserStatus);
    assert_eq!(decode_frame(&frame(0x00, &[0x05])).unwrap_err(), CodecError::BadHealthKind);
    let mut typing = vec![0x02];
    typing.extend_from_slice(&[0; 16]);
    assert_eq!(decode_frame(&frame(0x0A, &typing)).unwrap_err(), CodecError::BadFlag);
    let media = [0x00, 0x01, b'a', 0x09, 0, 0, 0, 0];
    assert_eq!(decode_frame(&frame(0x09, &media)).unwrap_err(), CodecError::BadMediaType);
}

#[test]
fn send_message_ack_decodes_to_ack_event() {
    let mut payload = vec![0x00];
    payload.extend_from_slice(&42u64.to_be_bytes());
    let (p, used) = decode_frame(&frame(0x02, &payload)).unwrap();
    assert_eq!(used, 19);
    match handle_message(p) {
        Ok(TuiEvent::MessageSendAck(42)) => {},
        other => panic!("unexpected {other:?}"),
    }
}

#[test]
fn channels_reply_decodes() {
    let mut payload = vec![0x00, 0x00, 0x01];
    payload.extend_from_slice(&7u64.to_be_bytes());
    payload.push(7);
    payload.extend_from_slice(b"general");
    payload.extend_from_slice(&3u64.to_be_bytes());
    let (p, used) = decode_frame(&frame(0x05, &payload)).unwrap();
    assert_eq!(used, 10 + payload.len());
    match p {
        ServerPayload::Channels(c) => {
            assert_eq!(c.channels.len(), 1);
            assert_eq!(c.channels[0].channel_id, 7);
            assert_eq!(c.channels[0].name, "general");
            assert_eq!(c.channels[0].icon_id, 3);
        },
        other => panic!("unexpected {other:?}"),
    }
}

fn history_message_bytes(id: u64, channel: u64, text: &str, media: &[u64]) -> Vec<u8> {
    let mut b = Vec::new();
    for x in [id, 1_700_000_000, 5, channel, 0] {
        b.extend_from_slice(&x.to_be_bytes());
    }
    b.extend_from_slice(&(text.len() as u16).to_be_bytes());
    b.extend_from_slice(text.as_bytes());
    b.push(media.len() as u8);
    for m in media {
        b.extend_from_slice(&m.to_be_bytes());
    }
    b
}

#[test]
fn history_message_decodes_with_media() {
    let bytes = history_message_bytes(9, 7, "héllo", &[11, 12]);
    let (m, used) = HistoryMessage::deserialize(&bytes).unwrap();
    assert_eq!(used, bytes.len());
    assert_eq!(m.message_id, 9);
    assert_eq!(m.channel_id, 7);
    assert_eq!(m.message_text, "héllo");
    assert_eq!(m.media_ids, vec![11, 12]);
}

#[test]
fn users_and_statuses_decode() {
    let mut user = vec![];
    user.extend_from_slice(&5u64.to_be_bytes());
    user.push(0x01);
    user.push(3);
    user.extend_from_slice(b"bob");
    user.extend_from_slice(&0u64.to_be_bytes());
    user.extend_from_slice(&2u16.to_be_bytes());
    user.extend_from_slice(b"hi");
    let mut payload = vec![0x00, 0x01];
    payload.extend_from_slice(&user);
    match decode_frame(&frame(0x08, &payload)).unwrap().0 {
        ServerPayload::Users(u) => {
            assert_eq!(u.users[0].username, "bob");
            assert_eq!(u.users[0].bio, "hi");
            assert_eq!(u.users[0].status, UserStatus::Online);
        },
        other => panic!("unexpected {other:?}"),
    }
    let mut payload = vec![0x00, 0x00, 0x02];
    payload.extend_from_slice(&5u64.to_be_bytes());
    payload.push(0x02);
    payload.extend_from_slice(&6u64.to_be_bytes());
    payload.push(0x03);
    match decode_frame(&frame(0x07, &payload)).unwrap().0 {
        ServerPayload::UserStatuses(u) => {
            assert_eq!(u.users, vec![(5, UserStatus::Idle), (6, UserStatus::DoNotDisturb)]);
        },
        other => panic!("unexpected {other:?}"),
    }
}

#[test]
fn media_reply_decodes() {
    let payload = [0x00, 0x01, b'f', 0x03, 0, 0, 0, 2, 7, 8];
    match decode_frame(&frame(0x09, &payload)).unwrap().0 {
        ServerPayload::Media(m) => {
            assert_eq!(m.filename, "f");
            assert_eq!(m.media_type, MediaType::Image);
            assert_eq!(m.media_data, vec![7, 8]);
        },
        other => panic!("unexpected {other:?}"),
    }
}

#[test]
fn pong_and_stray_notification_are_protocol_errors() {
    let (p, _) = decode_frame(&frame(0x00, &[0x01])).unwrap();
    let e = handle_message(p).unwrap_err();
    assert!(e.is_protocol_error());
    let (p, _) = decode_frame(&frame(0x01, &[0x02])).unwrap();
    assert!(handle_message(p).unwrap_err().is_protocol_error());
    let (p, _) = decode_frame(&frame(0x06, &[0x02, 0x00])).unwrap();
    assert!(matches!(handle_message(p), Ok(TuiEvent::HistoryUpdate(v)) if v.is_empty()));
}

#[test]
fn ping_asks_for_health_reply() {
    let (p, _) = decode_frame(&frame(0x00, &[0x00])).unwrap();
    assert!(matches!(handle_message(p), Ok(TuiEvent::HealthCheckRecv)));
}

#[test]
fn channel_round_trip_by_hand() {
    let mut bytes = vec![];
    bytes.extend_from_slice(&1u64.to_be_bytes());
    bytes.push(0);
    bytes.extend_from_slice(&2u64.to_be_bytes());
    bytes.extend_from_slice(&[0xAA, 0xBB]);
    let (c, used): (Channel, usize) = Channel::deserialize(&bytes).unwrap();
    assert_eq!(used, 17);
    assert_eq!((c.channel_id, c.name.as_str(), c.icon_id), (1, "", 2));
}

#[test]
fn timestamps_measure_elapsed_time() {
    let mut t = InteractedTimeStamp::new();
    assert_eq!(t.elapsed(500), 500);
    t.update(1000);
    assert_eq!(t.elapsed(1500), 500);
    assert_eq!(t.elapsed(900), 0);
}

#[test]
fn only_one_connection_at_a_time() {
    let raw = ServerAddrInfo { ip: "127.0.0.1".to_string(), port: 4348, domain: None, connection_type: ConnectionType::Raw };
    assert_eq!(check_connect(true, &raw), Err(ConnectError::AlreadyConnected));
    assert_eq!(check_connect(false, &raw), Ok(()));
    let tls = ServerAddrInfo { connection_type: ConnectionType::TLS, ..raw };
    assert_eq!(check_connect(false, &tls), Err(ConnectError::TlsRequiresDomain));
}

#[test]
fn header_rejects_oversize_length() {
    let mut bytes = frame(0x01, &[]);
    bytes[6..10].copy_from_slice(&0xFFFFu32.to_be_bytes());
    assert_eq!(Header::deserialize(&bytes).unwrap_err(), CodecError::OversizeFrame);
    bytes[6..10].copy_from_slice(&16374u32.to_be_bytes());
    assert_eq!(Header::deserialize(&bytes).unwrap().0.length, 16374);
}

#[test]
fn address_text_splits_into_host_and_port() {
    let chars = |t: &str| t.chars().collect::<Vec<char>>();
    let (host, port) = chatger::cli::split_address(&chars("chat.example.org:4000"));
    assert_eq!(host, chars("chat.example.org"));
    assert_eq!(port, Some(chars("4000")));
    let (host, port) = chatger::cli::split_address(&chars("example.org"));
    assert_eq!(host, chars("example.org"));
    assert_eq!(port, None);
    let (_, port) = chatger::cli::split_address(&chars("a:1:2"));
    assert_eq!(port, Some(chars("1")));
    assert_eq!(chatger::cli::parse_port(&chars("4348")), Some(4348));
    assert_eq!(chatger::cli::parse_port(&chars("65535")), Some(65535));
    assert_eq!(chatger::cli::parse_port(&chars("65536")), None);
    assert_eq!(chatger::cli::parse_port(&chars("")), None);
    assert_eq!(chatger::cli::parse_port(&chars("4x")), None);
}
