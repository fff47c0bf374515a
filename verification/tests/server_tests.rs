use remote_desktop::capture::{VideoFrame as CapturedFrame, VideoStream};
use remote_desktop::encoder::EncodedFrame;
use remote_desktop::headless::HeadlessSessionInfo;
use remote_desktop::monitor::MonitorInfo as DetectedMonitor;
use remote_desktop::portal::{ButtonState as PortalButtonState, InputCommand, KeyState as PortalKeyState};
use remote_desktop::protocol::{
    ButtonState, ErrorCode, FrameType, Hello, KeyEvent, KeyState, Ping, PointerEvent, PointerEventType,
    QualityRequest, SelectMonitor,
};
use remote_desktop::quality::QualityLevel;
use remote_desktop::protocol::ProtocolError;
use remote_desktop::server_session::{
    admit_client, invalid_message_reply, check_capture_size, frame_type_of, headless_monitor_info, is_tailscale_connection, physical_monitor_list,
    pong_for, portal_key_event, video_frame_of, virtual_monitor_list, ConnectionMetrics, FrameClock, PeerAddress,
    ServerSession,
};

fn session() -> HeadlessSessionInfo {
    HeadlessSessionInfo {
        compositor: "sway".to_string(),
        runtime_dir: "/run/user/1000".to_string(),
        wayland_display: "wayland-1".to_string(),
        sway_socket: "/run/user/1000/sway-ipc.1000.42.sock".to_string(),
        output_name: "HEADLESS-1".to_string(),
        width: 1280,
        height: 720,
        refresh_rate: 60,
    }
}

fn hello(version: u16) -> Hello {
    Hello {
        protocol_version: version,
        client_name: "laptop".to_string(),
        supported_codecs: vec!["h264".to_string()],
        max_width: 1920,
        max_height: 1080,
        max_fps: 30,
    }
}

fn select(name: &str, w: Option<u16>, h: Option<u16>, fps: Option<u8>) -> SelectMonitor {
    SelectMonitor { monitor_name: name.to_string(), requested_width: w, requested_height: h, requested_fps: fps }
}

#[test]
fn only_tailscale_and_local_peers_are_admitted() {
    assert!(is_tailscale_connection(PeerAddress::V4([127, 0, 0, 1])));
    assert!(is_tailscale_connection(PeerAddress::V4([100, 64, 1, 2])));
    assert!(!is_tailscale_connection(PeerAddress::V4([192, 168, 1, 10])));
    assert!(!is_tailscale_connection(PeerAddress::V4([127, 0, 0, 2])));
    assert!(is_tailscale_connection(PeerAddress::V6([0, 0, 0, 0, 0, 0, 0, 1])));
    assert!(is_tailscale_connection(PeerAddress::V6([0xfd7a, 0x115c, 0xa1e0, 0, 0, 0, 0, 5])));
    assert!(!is_tailscale_connection(PeerAddress::V6([0xfd7a, 0x115c, 0xa1e1, 0, 0, 0, 0, 5])));
}

#[test]
fn connection_metrics_defaults() {
    let m = ConnectionMetrics::default();
    assert_eq!(m.rtt_us, 50_000);
    assert_eq!(m.encode_time_us, 20_000);
    assert_eq!(m.bitrate_kbps, 5000);
    assert_eq!(m.dropped_frames, 0);
    let s = ServerSession::new();
    assert_eq!(s.quality, QualityLevel::Level1);
    assert!(!s.streaming_paused);
    assert!(s.client_info.is_none());
}

#[test]
fn hello_with_another_version_is_refused() {
    let mut s = ServerSession::new();
    match s.answer_hello(&hello(2), std::time::Instant::now()) {
        Err(e) => {
            assert_eq!(e.code, ErrorCode::UnsupportedCodec);
            assert_eq!(e.message, "Unsupported protocol version: 2");
        }
        Ok(_) => panic!("Expected a refusal"),
    }
    assert!(s.client_info.is_none());
}

#[test]
fn hello_is_acknowledged() {
    let mut s = ServerSession::new();
    let now = std::time::Instant::now();
    let ack = s.answer_hello(&hello(1), now).unwrap();
    assert_eq!(s.client_info.as_ref().unwrap().connected_at, now);
    assert_eq!(ack.protocol_version, 1);
    assert_eq!(ack.server_name, "remote-desktop-wayland");
    assert_eq!(ack.selected_codec, "h264");
    let info = s.client_info.as_ref().unwrap();
    assert_eq!(info.client_name, "laptop");
    assert_eq!((info.stream_width, info.stream_height), (1920, 1080));
    assert_eq!(info.current_quality, QualityLevel::Level1);
}

#[test]
fn headless_output_is_the_only_monitor() {
    let m = headless_monitor_info(&session());
    assert_eq!(m.name, "HEADLESS-1");
    assert_eq!((m.width, m.height, m.refresh_rate), (1280, 720, 60));
    assert!(m.is_primary);
    let list = virtual_monitor_list(Some(&session())).unwrap();
    assert_eq!(list.len(), 1);
    assert_eq!(virtual_monitor_list(None).unwrap_err(), "Headless session is not available");
    let detected = vec![DetectedMonitor {
        name: "card0-DP-1".to_string(),
        gpu_device: "/dev/dri/card0".to_string(),
        connector: "DP-1".to_string(),
        resolution: (70000, 1440),
        refresh_rate: 300,
        is_primary: true,
    }];
    let listed = physical_monitor_list(&detected);
    assert_eq!(listed[0].name, "card0-DP-1");
    assert_eq!(listed[0].width, (70000u32 % 65536) as u16);
    assert_eq!(listed[0].refresh_rate, (300u32 % 256) as u8);
}

#[test]
fn virtual_stream_selection() {
    let mut s = ServerSession::new();
    s.answer_hello(&hello(1), std::time::Instant::now()).unwrap();
    let wrong = s.select_virtual_stream(&select("HEADLESS-2", None, None, None), Some(&session()));
    assert_eq!(wrong.unwrap_err(), "Headless output not found: HEADLESS-2 (available: HEADLESS-1)");
    assert!(s.client_info.as_ref().unwrap().selected_monitor.is_none());
    let start = s.select_virtual_stream(&select("HEADLESS-1", Some(640), Some(480), None), Some(&session())).unwrap();
    assert_eq!((start.width, start.height, start.fps), (1280, 720, 30));
    assert_eq!((start.codec.as_str(), start.profile, start.level), ("h264", 66, 31));
    let info = s.client_info.as_ref().unwrap();
    assert_eq!(info.selected_monitor.as_deref(), Some("HEADLESS-1"));
    assert_eq!((info.stream_width, info.stream_height), (1280, 720));
    let none = s.select_virtual_stream(&select("HEADLESS-1", None, None, None), None);
    assert_eq!(none.unwrap_err(), "Headless session is not available");
}

#[test]
fn physical_stream_selection() {
    let detected = vec![DetectedMonitor {
        name: "card0-DP-1".to_string(),
        gpu_device: "/dev/dri/card0".to_string(),
        connector: "DP-1".to_string(),
        resolution: (2560, 1440),
        refresh_rate: 60,
        is_primary: true,
    }];
    let mut s = ServerSession::new();
    assert_eq!(s.select_physical_stream(&select("DP-9", None, None, None), &detected).unwrap_err(), "Monitor not found: DP-9");
    let (name, start) = s.select_physical_stream(&select("card0-DP-1", Some(800), None, Some(15)), &detected).unwrap();
    assert_eq!(name, "card0-DP-1");
    assert_eq!((start.width, start.height, start.fps), (1920, 1080, 15));
    let (_, start) = s.select_physical_stream(&select("card0-DP-1", Some(800), Some(600), None), &detected).unwrap();
    assert_eq!((start.width, start.height, start.fps), (800, 600, 30));
    assert!(s.client_info.is_none());
}

#[test]
fn input_is_converted_for_the_portal() {
    let k = portal_key_event(&KeyEvent { key_code: 30, state: KeyState::Released });
    assert_eq!(k.keycode, 30);
    assert_eq!(k.state, PortalKeyState::Released);
    let mut s = ServerSession::new();
    let motion = PointerEvent { event_type: PointerEventType::Motion, x: Some(10), y: None, button: None, button_state: None, scroll_delta: None };
    match s.pointer_command(&motion) {
        InputCommand::Motion { x, y, width, height } => assert_eq!((x, y, width, height), (10, 0, 1920, 1080)),
        _ => panic!("Expected motion"),
    }
    s.answer_hello(&hello(1), std::time::Instant::now()).unwrap();
    s.select_virtual_stream(&select("HEADLESS-1", None, None, None), Some(&session())).unwrap();
    match s.pointer_command(&motion) {
        InputCommand::Motion { width, height, .. } => assert_eq!((width, height), (1280, 720)),
        _ => panic!("Expected motion"),
    }
    let button = PointerEvent { event_type: PointerEventType::Button, x: None, y: None, button: None, button_state: None, scroll_delta: None };
    match s.pointer_command(&button) {
        InputCommand::Button { button, state } => {
            assert_eq!(button, 1);
            assert_eq!(state, PortalButtonState::Pressed);
        }
        _ => panic!("Expected button"),
    }
    let release = PointerEvent { button: Some(3), button_state: Some(ButtonState::Released), ..button };
    match s.pointer_command(&release) {
        InputCommand::Button { button, state } => {
            assert_eq!(button, 3);
            assert_eq!(state, PortalButtonState::Released);
        }
        _ => panic!("Expected button"),
    }
    let scroll = PointerEvent { event_type: PointerEventType::Scroll, x: None, y: None, button: None, button_state: None, scroll_delta: Some(-240) };
    match s.pointer_command(&scroll) {
        InputCommand::Scroll { delta_x, delta_y } => assert_eq!((delta_x, delta_y), (0, -240)),
        _ => panic!("Expected scroll"),
    }
}

#[test]
fn quality_requests_select_levels() {
    let mut s = ServerSession::new();
    s.apply_quality_request(&QualityRequest { target_bitrate_kbps: Some(8000), target_resolution: None, target_fps: None });
    assert_eq!(s.quality, QualityLevel::Level0);
    assert_eq!(s.metrics.bitrate_kbps, 8000);
    s.apply_quality_request(&QualityRequest { target_bitrate_kbps: Some(2999), target_resolution: None, target_fps: None });
    assert_eq!(s.quality, QualityLevel::Level3);
    s.apply_quality_request(&QualityRequest { target_bitrate_kbps: None, target_resolution: Some((1, 1)), target_fps: Some(5) });
    assert_eq!(s.quality, QualityLevel::Level3);
    assert_eq!(s.metrics.bitrate_kbps, 2999);
    s.apply_quality_request(&QualityRequest { target_bitrate_kbps: Some(100), target_resolution: None, target_fps: None });
    assert_eq!(s.quality, QualityLevel::Level4);
}

#[test]
fn pause_resume_and_pong() {
    let mut s = ServerSession::new();
    assert!(s.forwards_frames());
    s.set_paused(true);
    assert!(!s.forwards_frames());
    s.set_paused(false);
    assert!(s.forwards_frames());
    let p = pong_for(&Ping { timestamp_us: 77 }, 99);
    assert_eq!((p.timestamp_us, p.server_timestamp_us), (77, 99));
}

#[test]
fn keyframes_are_forced_after_sixty_frames() {
    let mut clock = FrameClock::new(30);
    assert_eq!(clock.frame_duration_us, 33_333);
    assert!(clock.count_frame(true) == false);
    assert_eq!(clock.last_keyframe, 1);
    let mut requests = 0;
    for _ in 0..60 {
        if clock.count_frame(false) {
            requests += 1;
        }
    }
    assert_eq!(requests, 0);
    assert!(clock.count_frame(false));
    assert_eq!(clock.frame_count, 62);
    assert_eq!(clock.last_keyframe, 62);
    assert_eq!(clock.timestamp_us(), 62 * 33_333);
}

#[test]
fn headless_clock_marks_the_keyframe_before_counting() {
    let mut clock = FrameClock::new(24);
    assert_eq!(clock.frame_duration_us, 41_666);
    assert!(!clock.count_headless_frame(true));
    assert_eq!((clock.frame_count, clock.last_keyframe), (1, 0));
    let mut first_request = None;
    for i in 0..100 {
        if clock.count_headless_frame(false) {
            first_request = Some(i);
            break;
        }
    }
    assert_eq!(first_request, Some(59));
    assert_eq!(clock.frame_count, clock.last_keyframe);
}

#[test]
fn encoded_frames_become_messages() {
    assert_eq!(frame_type_of(true), FrameType::IFrame);
    assert_eq!(frame_type_of(false), FrameType::PFrame);
    let mut clock = FrameClock::new(10);
    clock.count_frame(false);
    clock.count_frame(false);
    let f = video_frame_of(EncodedFrame { data: vec![1, 2], pts: 0, is_keyframe: true }, &clock);
    assert_eq!(f.frame_type, FrameType::IFrame);
    assert_eq!(f.timestamp_us, 200_000);
    assert_eq!(f.data, vec![1, 2]);
}

#[test]
fn capture_size_must_match_the_output() {
    assert!(check_capture_size(1280, 720, &session()).is_ok());
    assert_eq!(
        check_capture_size(1920, 1080, &session()).unwrap_err(),
        "Headless capture dimensions 1920x1080 do not match configured output 1280x720"
    );
}

fn frame(tag: u8) -> CapturedFrame {
    CapturedFrame { data: vec![tag], width: 1, height: 1, timestamp: tag as u64 }
}

#[test]
fn capture_queue_keeps_the_newest_frames() {
    let mut stream = VideoStream::from_node_id(42, 2, 1);
    assert!(stream.is_active());
    assert_eq!(stream.node_id(), 42);
    for t in 0..7u8 {
        stream.push_frame(frame(t));
    }
    let first = stream.capture_frame().unwrap().unwrap();
    assert_eq!(first.data, vec![2]);
    for t in 3..7u8 {
        assert_eq!(stream.capture_frame().unwrap().unwrap().data, vec![t]);
    }
    let blank = stream.capture_frame().unwrap().unwrap();
    assert_eq!(blank.data, vec![0u8; 6]);
    assert_eq!((blank.width, blank.height, blank.timestamp), (2, 1, 0));
    stream.stop().unwrap();
    assert!(!stream.is_active());
}

#[test]
fn stream_without_node_yields_black_frames() {
    let mut stream = VideoStream::new("DP-1");
    assert!(!stream.is_active());
    assert_eq!(stream.node_id(), 0);
    stream.start(4, 2).unwrap();
    assert!(!stream.is_active());
    stream.push_frame(frame(9));
    let f = stream.capture_frame().unwrap().unwrap();
    assert_eq!(f.data, vec![0u8; 24]);
    assert_eq!((f.width, f.height), (4, 2));
}

#[test]
fn queued_frame_is_taken_at_any_size() {
    // The black frame of this size would not fit, but a queued frame is
    // handed out without making one.
    let mut stream = VideoStream::from_node_id(7, 40000, 40000);
    stream.push_frame(frame(3));
    assert_eq!(stream.queued_frames(), 1);
    let f = stream.capture_frame().unwrap().unwrap();
    assert_eq!(f.data, vec![3]);
    assert_eq!(stream.queued_frames(), 0);
}

#[test]
fn clients_beyond_the_limit_are_refused() {
    assert!(admit_client(100, None).is_ok());
    assert!(admit_client(1, Some(2)).is_ok());
    let refusal = admit_client(2, Some(2)).unwrap_err();
    assert_eq!(refusal.code, ErrorCode::RateLimited);
    assert_eq!(refusal.message, "Too many connections");
    assert!(admit_client(0, Some(0)).is_err());
}

#[test]
fn unparsable_message_is_answered() {
    let reply = invalid_message_reply(&ProtocolError::UnknownMessageType(16));
    assert_eq!(reply.code, ErrorCode::StreamFailed);
    assert_eq!(reply.message, "Invalid message: Unknown message type: 16");
    let reply = invalid_message_reply(&ProtocolError::Serialization("Empty message".to_string()));
    assert_eq!(reply.message, "Invalid message: Serialization error: Empty message");
}

#[test]
fn frame_pacing_waits_for_the_rest_of_the_frame() {
    let clock = FrameClock::new(50);
    assert_eq!(clock.frame_duration_us, 20000);
    assert_eq!(clock.remaining_us(5000), 15000);
    assert_eq!(clock.remaining_us(20000), 0);
    assert_eq!(clock.remaining_us(35000), 0);
}
