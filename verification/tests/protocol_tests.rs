use bytes::BytesMut;
use remote_desktop::protocol::{
    encode_client_message, encode_server_message, parse_client_message, parse_server_message, ButtonState,
    ClientMessageType, ErrorCode, FrameType, KeyState, PointerEventType, ProtocolCodec, ProtocolError,
    ServerMessageType, MAX_FRAME_SIZE, PROTOCOL_VERSION,
};

#[test]
fn test_hello_encoding() {
    let hello: (u16, String, Vec<String>, u16, u16, u8) =
        (1, "TestClient".to_string(), vec!["h264".to_string()], 1920, 1080, 30);
    let payload = bincode::serialize(&hello).unwrap();
    let encoded = encode_client_message(ClientMessageType::Hello, &payload);
    let (msg_type, body) = parse_client_message(encoded).unwrap();
    match msg_type {
        ClientMessageType::Hello => {
            let h: (u16, String, Vec<String>, u16, u16, u8) = bincode::deserialize(&body).unwrap();
            assert_eq!(h.0, 1);
            assert_eq!(h.1, "TestClient");
            assert_eq!(h.3, 1920);
        }
        _ => panic!("Wrong message type"),
    }
}

#[test]
fn test_video_frame_encoding() {
    // The frame type travels as its variant index (1 for an I-frame).
    let frame: (u32, u64, Vec<u8>) = (1, 12345678, vec![1, 2, 3, 4, 5]);
    let payload = bincode::serialize(&frame).unwrap();
    let encoded = encode_server_message(ServerMessageType::VideoFrame, &payload);
    let (msg_type, body) = parse_server_message(encoded).unwrap();
    match msg_type {
        ServerMessageType::VideoFrame => {
            let f: (u32, u64, Vec<u8>) = bincode::deserialize(&body).unwrap();
            assert_eq!(FrameType::from(f.0 as u8), FrameType::IFrame);
            assert_eq!(f.1, 12345678);
            assert_eq!(f.2, vec![1, 2, 3, 4, 5]);
        }
        _ => panic!("Wrong message type"),
    }
}

#[test]
fn message_type_bytes() {
    assert_eq!(PROTOCOL_VERSION, 1);
    assert_eq!(ClientMessageType::Hello.to_u8(), 0x01);
    assert_eq!(ClientMessageType::ResumeStream.to_u8(), 0x09);
    assert_eq!(ServerMessageType::HelloAck.to_u8(), 0x10);
    assert_eq!(ServerMessageType::ClipboardEvent.to_u8(), 0x18);
    assert_eq!(ClientMessageType::try_from(0x07).unwrap(), ClientMessageType::Ping);
    match ClientMessageType::try_from(0x42) {
        Err(ProtocolError::UnknownMessageType(0x42)) => {}
        _ => panic!("Expected UnknownMessageType"),
    }
    match ServerMessageType::try_from(0x01) {
        Err(ProtocolError::UnknownMessageType(0x01)) => {}
        _ => panic!("Expected UnknownMessageType"),
    }
    assert_eq!(ErrorCode::try_from(4).unwrap(), ErrorCode::StreamFailed);
    match ErrorCode::try_from(9) {
        Err(ProtocolError::UnknownErrorCode(9)) => {}
        _ => panic!("Expected UnknownErrorCode"),
    }
}

#[test]
fn value_bytes() {
    assert_eq!(FrameType::from(0u8), FrameType::PFrame);
    assert_eq!(FrameType::from(7u8), FrameType::PFrame);
    assert_eq!(KeyState::from(1u8), KeyState::Pressed);
    assert_eq!(KeyState::from(0u8), KeyState::Released);
    assert_eq!(PointerEventType::from(2u8), PointerEventType::Scroll);
    assert_eq!(ButtonState::from(1u8), ButtonState::Pressed);
}

#[test]
fn message_layout_is_type_then_payload() {
    let encoded = encode_client_message(ClientMessageType::PauseStream, &[]);
    assert_eq!(&encoded[..], &[0x08]);
    let encoded = encode_server_message(ServerMessageType::Pong, &[9, 8]);
    assert_eq!(&encoded[..], &[0x15, 9, 8]);
    match parse_client_message(BytesMut::new()) {
        Err(ProtocolError::Serialization(m)) => assert_eq!(m, "Empty message"),
        _ => panic!("Expected an empty message to be refused"),
    }
    match parse_server_message(BytesMut::from(&[0x03u8, 1][..])) {
        Err(ProtocolError::UnknownMessageType(3)) => {}
        _ => panic!("Expected UnknownMessageType"),
    }
}

#[test]
fn codec_frames_roundtrip() {
    let mut codec = ProtocolCodec;
    let mut wire = BytesMut::new();
    codec.encode(BytesMut::from(&b"hello"[..]), &mut wire).unwrap();
    codec.encode(BytesMut::from(&b"ab"[..]), &mut wire).unwrap();
    assert_eq!(&wire[..4], &[0, 0, 0, 5]);
    let first = codec.decode(&mut wire).unwrap().unwrap();
    assert_eq!(&first[..], b"hello");
    let second = codec.decode(&mut wire).unwrap().unwrap();
    assert_eq!(&second[..], b"ab");
    assert!(codec.decode(&mut wire).unwrap().is_none());
}

#[test]
fn codec_waits_for_whole_frames() {
    let mut codec = ProtocolCodec;
    let mut partial = BytesMut::from(&[0u8, 0, 0, 4, 1, 2][..]);
    assert!(codec.decode(&mut partial).unwrap().is_none());
    assert_eq!(partial.len(), 6);
    let mut short = BytesMut::from(&[0u8, 0][..]);
    assert!(codec.decode(&mut short).unwrap().is_none());
}

#[test]
fn codec_refuses_oversized_frames() {
    let mut codec = ProtocolCodec;
    let mut big = BytesMut::from(&[0x01u8, 0, 0, 1][..]);
    match codec.decode(&mut big) {
        Err(ProtocolError::FrameTooLarge(n)) => {
            assert_eq!(n, 16777217);
            assert!(n > MAX_FRAME_SIZE);
        }
        _ => panic!("Expected FrameTooLarge"),
    }
}

#[test]
fn protocol_error_messages() {
    assert_eq!(ProtocolError::UnknownMessageType(255).message(), "Unknown message type: 255");
    assert_eq!(ProtocolError::UnknownErrorCode(9).message(), "Unknown error code: 9");
    assert_eq!(ProtocolError::Serialization("bad".to_string()).message(), "Serialization error: bad");
    assert_eq!(ProtocolError::FrameTooLarge(20000000).message(), "Frame too large: 20000000 bytes");
    let io = std::io::Error::new(std::io::ErrorKind::Other, "broken pipe");
    assert_eq!(ProtocolError::Io(io).message(), "IO error: broken pipe");
}
