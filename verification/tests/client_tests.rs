use remote_desktop::client_clipboard::{get_content, remote_content, ClipboardHandler as TextClipboard, RemoteContent};
use remote_desktop::client_session::{
    choose_monitor, expect_message_type, hello_message, monitor_line, next_reconnect_delay, receive_message,
    receive_video_frame, server_address, ClientConnection, Expectation, PlaybackState, ReceivedMessage,
};
use remote_desktop::decoder::extract_frame;
use remote_desktop::protocol::{
    ClientMessage, ClipboardEvent, Error, ErrorCode, FrameType, HelloAck, KeyState, MonitorInfo, Pong,
    ServerMessage, ServerMessageType, VideoFrame,
};

fn mon(name: &str, primary: bool) -> MonitorInfo {
    MonitorInfo { name: name.to_string(), width: 1920, height: 1080, refresh_rate: 60, is_primary: primary }
}

fn frame() -> VideoFrame {
    VideoFrame { frame_type: FrameType::PFrame, timestamp_us: 5, data: vec![7] }
}

#[test]
fn addresses_and_backoff() {
    assert_eq!(server_address("desk", 3389), "desk:3389");
    assert_eq!(server_address("desk:4000", 3389), "desk:4000");
    assert_eq!(next_reconnect_delay(1), 2);
    assert_eq!(next_reconnect_delay(8), 16);
    assert_eq!(next_reconnect_delay(16), 30);
    assert_eq!(next_reconnect_delay(30), 30);
}

#[test]
fn the_primary_monitor_is_chosen_first() {
    assert_eq!(choose_monitor(&vec![mon("a", false), mon("b", true)]).unwrap(), "b");
    assert_eq!(choose_monitor(&vec![mon("a", false), mon("c", false)]).unwrap(), "a");
    assert_eq!(choose_monitor(&Vec::new()).unwrap_err(), "No monitors available");
    assert_eq!(monitor_line(&mon("DP-1", true)), "  - DP-1 (1920x1080@60Hz) [PRIMARY]");
    assert_eq!(monitor_line(&mon("DP-2", false)), "  - DP-2 (1920x1080@60Hz)");
}

#[test]
fn requests_need_a_handshake_or_a_stream() {
    let mut conn = ClientConnection::new("desk:3389");
    assert!(!conn.is_connected());
    assert_eq!(conn.get_monitors().unwrap_err(), "Not connected to server");
    assert_eq!(conn.select_monitor("DP-1").unwrap_err(), "Not connected to server");
    assert_eq!(conn.send_key(30, true).unwrap_err(), "No active stream");
    assert!(conn.pause().is_none());
    conn.handshake_done();
    match conn.get_monitors().unwrap() {
        ClientMessage::Hello(h) => {
            assert_eq!(h.client_name, "remote-desktop-client");
            assert_eq!(h.supported_codecs, vec!["h264".to_string()]);
            assert_eq!((h.max_width, h.max_height, h.max_fps), (1920, 1080, 30));
        }
        _ => panic!("Expected Hello"),
    }
    match conn.select_monitor("DP-1").unwrap() {
        ClientMessage::SelectMonitor(s) => {
            assert_eq!(s.monitor_name, "DP-1");
            assert!(s.requested_width.is_none() && s.requested_fps.is_none());
        }
        _ => panic!("Expected SelectMonitor"),
    }
    conn.stream_started("DP-1");
    assert!(conn.is_streaming());
    assert_eq!(conn.selected_monitor(), Some("DP-1"));
    match conn.send_key(30, false).unwrap() {
        ClientMessage::KeyEvent(k) => {
            assert_eq!(k.key_code, 30);
            assert_eq!(k.state, KeyState::Released);
        }
        _ => panic!("Expected KeyEvent"),
    }
    match conn.send_scroll(-120).unwrap() {
        ClientMessage::PointerEvent(p) => assert_eq!(p.scroll_delta, Some(-120)),
        _ => panic!("Expected PointerEvent"),
    }
    match conn.request_quality(3000).unwrap() {
        ClientMessage::QualityRequest(q) => assert_eq!(q.target_bitrate_kbps, Some(3000)),
        _ => panic!("Expected QualityRequest"),
    }
    assert!(matches!(conn.pause(), Some(ClientMessage::PauseStream)));
    assert!(matches!(conn.resume(), Some(ClientMessage::ResumeStream)));
    assert!(conn.check_streaming().is_ok());
    conn.connection_closed();
    assert_eq!(conn.check_streaming().unwrap_err(), "No active stream");
    assert!(matches!(hello_message(), ClientMessage::Hello(_)));
}

#[test]
fn waiting_skips_asynchronous_messages() {
    let ack = ServerMessage::HelloAck(HelloAck { protocol_version: 1, server_name: "s".to_string(), selected_codec: "h264".to_string() });
    assert!(matches!(expect_message_type(ServerMessageType::HelloAck, ack), Expectation::Accept(_)));
    let pong = ServerMessage::Pong(Pong { timestamp_us: 1, server_timestamp_us: 2 });
    assert!(matches!(expect_message_type(ServerMessageType::MonitorList, pong), Expectation::Skip));
    let f = ServerMessage::VideoFrame(frame());
    match expect_message_type(ServerMessageType::StreamStart, f) {
        Expectation::Unexpected(a, b) => {
            assert_eq!(a, ServerMessageType::StreamStart);
            assert_eq!(b, ServerMessageType::VideoFrame);
        }
        _ => panic!("Expected Unexpected"),
    }
    let err = ServerMessage::ErrorMessage(Error { code: ErrorCode::StreamFailed, message: "x".to_string() });
    assert!(matches!(expect_message_type(ServerMessageType::HelloAck, err), Expectation::Unexpected(_, ServerMessageType::ProtocolError)));
}

#[test]
fn streaming_loop_reads_messages() {
    assert!(matches!(receive_message(ServerMessage::VideoFrame(frame())), Ok(Some(ReceivedMessage::VideoFrame(_)))));
    let clip = ServerMessage::ClipboardEvent(ClipboardEvent { mime_type: "text/plain".to_string(), data: vec![1] });
    assert!(matches!(receive_message(clip), Ok(Some(ReceivedMessage::ClipboardEvent(_)))));
    let ack = ServerMessage::HelloAck(HelloAck { protocol_version: 1, server_name: "s".to_string(), selected_codec: "h264".to_string() });
    assert!(matches!(receive_message(ack), Ok(None)));
    let err = ServerMessage::ErrorMessage(Error { code: ErrorCode::RateLimited, message: "slow down".to_string() });
    assert_eq!(receive_message(err).unwrap_err(), "Server error: slow down");
    assert_eq!(receive_video_frame(ServerMessage::VideoFrame(frame())).unwrap().unwrap().data, vec![7]);
    let pong = ServerMessage::Pong(Pong { timestamp_us: 1, server_timestamp_us: 2 });
    assert!(receive_video_frame(pong).unwrap().is_none());
}

#[test]
fn playback_waits_for_a_keyframe() {
    let mut p = PlaybackState::new();
    assert!(!p.should_decode(FrameType::PFrame));
    assert!(p.should_decode(FrameType::IFrame));
    assert!(p.should_decode(FrameType::PFrame));
    p.frame_shown();
    p.frame_shown();
    assert_eq!(p.frame_count(), 2);
}

#[test]
fn decoded_planes_drop_row_padding() {
    // 4x2 luma with rows 6 bytes apart; 2x1 chroma with rows 3 bytes apart.
    let y = vec![1, 2, 3, 4, 99, 99, 5, 6, 7, 8];
    let u = vec![10, 11, 99];
    let v = vec![20, 21];
    let f = extract_frame(4, 2, &y, 6, &u, 3, &v, 2).unwrap();
    assert_eq!(f.y_plane, vec![1, 2, 3, 4, 5, 6, 7, 8]);
    assert_eq!(f.u_plane, vec![10, 11]);
    assert_eq!(f.v_plane, vec![20, 21]);
    assert_eq!(extract_frame(0, 2, &y, 6, &u, 3, &v, 2).unwrap_err(), "Decoded frame has zero dimensions");
}

#[test]
fn client_clipboard_reports_each_change_once() {
    let mut c = TextClipboard::new();
    assert!(c.current_hash().is_none());
    assert!(c.has_changed(Ok(Some("hello".to_string()))));
    assert_eq!(c.current_hash(), Some(xxhash_rust::xxh3::xxh3_64(b"hello")));
    assert!(!c.has_changed(Ok(Some("hello".to_string()))));
    assert!(!c.has_changed(Err("no clipboard".to_string())));
    assert!(c.has_changed(Ok(None)));
    assert!(!c.has_changed(Ok(None)));
    c.set_text("from server");
    assert!(!c.has_changed(Ok(Some("from server".to_string()))));
    c.set_expected_hash(5);
    assert_eq!(c.current_hash(), Some(5));
}

#[test]
fn client_clipboard_content_kinds() {
    assert_eq!(remote_content("text/plain"), RemoteContent::Text);
    assert_eq!(remote_content("text/html"), RemoteContent::Text);
    assert_eq!(remote_content("image/png"), RemoteContent::Image);
    assert_eq!(remote_content("application/pdf"), RemoteContent::Unsupported);
    let (m, d) = get_content(Some("hé".to_string())).unwrap();
    assert_eq!(m, "text/plain");
    assert_eq!(d, "hé".as_bytes().to_vec());
    assert!(get_content(None).is_none());
}
