//! What the client decides on its connection to a server: the messages it
//! sends, how it reads each message that arrives, the monitor it picks and
//! how long it waits before reconnecting. The caller owns the socket, sends
//! what these functions build and hands them what arrives.

use vstd::prelude::*;
use crate::protocol::{
    ButtonState, ClientMessage, ClipboardEvent, FrameType, Hello, KeyEvent, KeyState, MonitorInfo,
    PointerEvent, PointerEventType, Pong, QualityRequest, SelectMonitor, ServerMessage, ServerMessageType,
    StreamStats, VideoFrame, PROTOCOL_VERSION, server_message_kind,
};
use crate::text::{contains_char, chars_of, decimal, push_decimal, string_push_str};

verus! {

/// A message from the server that the streaming loop handles.
#[derive(Debug)]
pub enum ReceivedMessage {
    VideoFrame(VideoFrame),
    ClipboardEvent(ClipboardEvent),
    StreamStats(StreamStats),
    Pong(Pong),
}

/// The text of the error for a request before the handshake.
pub open spec fn not_connected_text() -> Seq<char> {
    "Not connected to server"@
}

/// The text of the error for input without a stream.
pub open spec fn no_stream_text() -> Seq<char> {
    "No active stream"@
}

/// The text of the error that the server reported.
pub open spec fn server_error_text(message: Seq<char>) -> Seq<char> {
    "Server error: "@ + message
}

/// The hello that the client sends: its protocol version, its name, H.264,
/// and at most 1920x1080 at 30 frames per second.
pub open spec fn is_client_hello(m: ClientMessage) -> bool {
    m matches ClientMessage::Hello(h) && {
        &&& h.protocol_version == PROTOCOL_VERSION
        &&& h.client_name@ == "remote-desktop-client"@
        &&& h.supported_codecs@.len() == 1
        &&& h.supported_codecs@[0]@ == "h264"@
        &&& h.max_width == 1920
        &&& h.max_height == 1080
        &&& h.max_fps == 30
    }
}

/// The hello message of the client.
pub fn hello_message() -> (m: ClientMessage)
    ensures
        is_client_hello(m),
{
    ClientMessage::Hello(
        Hello {
            protocol_version: PROTOCOL_VERSION,
            client_name: "remote-desktop-client".to_owned(),
            supported_codecs: vec!["h264".to_owned()],
            max_width: 1920,
            max_height: 1080,
            max_fps: 30,
        },
    )
}

/// What to do with a message while waiting for a message of some type.
#[derive(Debug)]
pub enum Expectation {
    /// The awaited message.
    Accept(ServerMessage),
    /// A message that may arrive at any time; wait on.
    Skip,
    /// Any other message: the exchange failed.
    Unexpected(ServerMessageType, ServerMessageType),
}

/// Messages that may arrive at any time and are passed over while waiting.
pub open spec fn is_asynchronous(t: ServerMessageType) -> bool {
    t == ServerMessageType::ClipboardEvent || t == ServerMessageType::StreamStats || t
        == ServerMessageType::Pong
}

/// Reads a message while waiting for one of type `expected`: that type is
/// accepted, clipboard events, statistics and pongs are passed over, and any
/// other message fails the exchange (naming the expected and the received
/// type).
pub fn expect_message_type(expected: ServerMessageType, msg: ServerMessage) -> (r: Expectation)
    ensures
        server_message_kind(msg) == expected ==> r == Expectation::Accept(msg),
        server_message_kind(msg) != expected && is_asynchronous(server_message_kind(msg)) ==> r
            == Expectation::Skip,
        server_message_kind(msg) != expected && !is_asynchronous(server_message_kind(msg)) ==> r
            == Expectation::Unexpected(expected, server_message_kind(msg)),
{
    let t = msg.message_type();
    if t == expected {
        return Expectation::Accept(msg);
    }
    match t {
        ServerMessageType::ClipboardEvent | ServerMessageType::StreamStats | ServerMessageType::Pong => {
            Expectation::Skip
        },
        _ => Expectation::Unexpected(expected, t),
    }
}

/// How the streaming loop reads a message.
pub open spec fn received_spec(msg: ServerMessage) -> Result<Option<ReceivedMessage>, Seq<char>> {
    match msg {
        ServerMessage::VideoFrame(f) => Ok(Some(ReceivedMessage::VideoFrame(f))),
        ServerMessage::StreamStats(s) => Ok(Some(ReceivedMessage::StreamStats(s))),
        ServerMessage::Pong(p) => Ok(Some(ReceivedMessage::Pong(p))),
        ServerMessage::ClipboardEvent(e) => Ok(Some(ReceivedMessage::ClipboardEvent(e))),
        ServerMessage::ErrorMessage(e) => Err(server_error_text(e.message@)),
        _ => Ok(None),
    }
}

fn server_error(message: &String) -> (e: String)
    ensures
        e@ == server_error_text(message@),
{
    let mut e = "Server error: ".to_owned();
    string_push_str(&mut e, message.as_str());
    e
}

/// Reads a message of the streaming loop: frames, clipboard events,
/// statistics and pongs are handed on, a server error fails, and anything
/// else is passed over.
pub fn receive_message(msg: ServerMessage) -> (r: Result<Option<ReceivedMessage>, String>)
    ensures
        match (r, received_spec(msg)) {
            (Ok(a), Ok(b)) => a == b,
            (Err(a), Err(b)) => a@ == b,
            _ => false,
        },
{
    match msg {
        ServerMessage::VideoFrame(f) => Ok(Some(ReceivedMessage::VideoFrame(f))),
        ServerMessage::StreamStats(s) => Ok(Some(ReceivedMessage::StreamStats(s))),
        ServerMessage::Pong(p) => Ok(Some(ReceivedMessage::Pong(p))),
        ServerMessage::ClipboardEvent(e) => Ok(Some(ReceivedMessage::ClipboardEvent(e))),
        ServerMessage::ErrorMessage(e) => Err(server_error(&e.message)),
        _ => Ok(None),
    }
}

/// Reads a message while only frames are wanted: a frame is handed on, a
/// server error fails, and anything else is passed over.
pub fn receive_video_frame(msg: ServerMessage) -> (r: Result<Option<VideoFrame>, String>)
    ensures
        msg matches ServerMessage::VideoFrame(f) ==> r == Ok::<Option<VideoFrame>, String>(Some(f)),
        msg matches ServerMessage::ErrorMessage(e) ==> (r matches Err(t) && t@ == server_error_text(
            e.message@,
        )),
        !(msg is VideoFrame) && !(msg is ErrorMessage) ==> r == Ok::<Option<VideoFrame>, String>(None),
{
    match msg {
        ServerMessage::VideoFrame(f) => Ok(Some(f)),
        ServerMessage::ErrorMessage(e) => Err(server_error(&e.message)),
        _ => Ok(None),
    }
}

/// The state of the client's connection: whether the handshake is done,
/// whether a stream runs, and the monitor chosen.
pub struct ClientConnection {
    server_addr: String,
    connected: bool,
    selected_monitor: Option<String>,
    stream_active: bool,
}

impl ClientConnection {
    /// The server's address.
    pub closed spec fn spec_server_addr(&self) -> Seq<char> {
        self.server_addr@
    }

    /// Whether the handshake is done.
    pub closed spec fn spec_connected(&self) -> bool {
        self.connected
    }

    /// Whether a stream runs.
    pub closed spec fn spec_streaming(&self) -> bool {
        self.stream_active
    }

    /// The monitor of the stream.
    pub closed spec fn spec_monitor(&self) -> Option<Seq<char>> {
        match self.selected_monitor {
            Some(m) => Some(m@),
            None => None,
        }
    }

    /// A connection to `server_addr` before the handshake.
    pub fn new(server_addr: &str) -> (c: ClientConnection)
        ensures
            c.spec_server_addr() == server_addr@,
            !c.spec_connected(),
            !c.spec_streaming(),
            c.spec_monitor() is None,
    {
        ClientConnection {
            server_addr: server_addr.to_owned(),
            connected: false,
            selected_monitor: None,
            stream_active: false,
        }
    }

    /// Records that the handshake (hello, acknowledgement, monitor list) is
    /// done.
    pub fn handshake_done(&mut self)
        ensures
            final(self).spec_connected(),
            final(self).spec_streaming() == old(self).spec_streaming(),
            final(self).spec_monitor() == old(self).spec_monitor(),
            final(self).spec_server_addr() == old(self).spec_server_addr(),
    {
        self.connected = true;
    }

    /// The request for the monitor list (a new hello); refused before the
    /// handshake.
    pub fn get_monitors(&self) -> (r: Result<ClientMessage, String>)
        ensures
            !self.spec_connected() ==> (r matches Err(e) && e@ == not_connected_text()),
            self.spec_connected() ==> (r matches Ok(m) && is_client_hello(m)),
    {
        if !self.connected {
            return Err("Not connected to server".to_owned());
        }
        Ok(hello_message())
    }

    /// The request for a stream of the named monitor, at the server's
    /// choice of size and frame rate; refused before the handshake.
    pub fn select_monitor(&self, monitor_name: &str) -> (r: Result<ClientMessage, String>)
        ensures
            !self.spec_connected() ==> (r matches Err(e) && e@ == not_connected_text()),
            self.spec_connected() ==> (r matches Ok(ClientMessage::SelectMonitor(s)) && {
                &&& s.monitor_name@ == monitor_name@
                &&& s.requested_width is None
                &&& s.requested_height is None
                &&& s.requested_fps is None
            }),
    {
        if !self.connected {
            return Err("Not connected to server".to_owned());
        }
        Ok(
            ClientMessage::SelectMonitor(
                SelectMonitor {
                    monitor_name: monitor_name.to_owned(),
                    requested_width: None,
                    requested_height: None,
                    requested_fps: None,
                },
            ),
        )
    }

    /// Records that the server started the stream of the named monitor.
    pub fn stream_started(&mut self, monitor_name: &str)
        ensures
            final(self).spec_streaming(),
            final(self).spec_monitor() == Some(monitor_name@),
            final(self).spec_connected() == old(self).spec_connected(),
            final(self).spec_server_addr() == old(self).spec_server_addr(),
    {
        self.selected_monitor = Some(monitor_name.to_owned());
        self.stream_active = true;
    }

    /// Records that the server closed the connection: the stream ends.
    pub fn connection_closed(&mut self)
        ensures
            !final(self).spec_streaming(),
            final(self).spec_connected() == old(self).spec_connected(),
            final(self).spec_monitor() == old(self).spec_monitor(),
            final(self).spec_server_addr() == old(self).spec_server_addr(),
    {
        self.stream_active = false;
    }

    /// Whether messages may be received: only while a stream runs.
    pub fn check_streaming(&self) -> (r: Result<(), String>)
        ensures
            self.spec_streaming() ==> r is Ok,
            !self.spec_streaming() ==> (r matches Err(e) && e@ == no_stream_text()),
    {
        if !self.stream_active {
            return Err("No active stream".to_owned());
        }
        Ok(())
    }

    /// A key press or release; refused without a stream.
    pub fn send_key(&self, key_code: u32, pressed: bool) -> (r: Result<ClientMessage, String>)
        ensures
            !self.spec_streaming() ==> (r matches Err(e) && e@ == no_stream_text()),
            self.spec_streaming() ==> r == Ok::<ClientMessage, String>(
                ClientMessage::KeyEvent(
                    KeyEvent {
                        key_code,
                        state: if pressed { KeyState::Pressed } else { KeyState::Released },
                    },
                ),
            ),
    {
        if !self.stream_active {
            return Err("No active stream".to_owned());
        }
        let state = if pressed { KeyState::Pressed } else { KeyState::Released };
        Ok(ClientMessage::KeyEvent(KeyEvent { key_code, state }))
    }

    /// A pointer move to a position of the stream; refused without a stream.
    pub fn send_pointer_motion(&self, x: u16, y: u16) -> (r: Result<ClientMessage, String>)
        ensures
            !self.spec_streaming() ==> (r matches Err(e) && e@ == no_stream_text()),
            self.spec_streaming() ==> r == Ok::<ClientMessage, String>(
                ClientMessage::PointerEvent(
                    PointerEvent {
                        event_type: PointerEventType::Motion,
                        x: Some(x),
                        y: Some(y),
                        button: None,
                        button_state: None,
                        scroll_delta: None,
                    },
                ),
            ),
    {
        if !self.stream_active {
            return Err("No active stream".to_owned());
        }
        Ok(
            ClientMessage::PointerEvent(
                PointerEvent {
                    event_type: PointerEventType::Motion,
                    x: Some(x),
                    y: Some(y),
                    button: None,
                    button_state: None,
                    scroll_delta: None,
                },
            ),
        )
    }

    /// A pointer button press or release; refused without a stream.
    pub fn send_pointer_button(&self, button: u8, pressed: bool) -> (r: Result<ClientMessage, String>)
        ensures
            !self.spec_streaming() ==> (r matches Err(e) && e@ == no_stream_text()),
            self.spec_streaming() ==> r == Ok::<ClientMessage, String>(
                ClientMessage::PointerEvent(
                    PointerEvent {
                        event_type: PointerEventType::Button,
                        x: None,
                        y: None,
                        button: Some(button),
                        button_state: Some(
                            if pressed { ButtonState::Pressed } else { ButtonState::Released },
                        ),
                        scroll_delta: None,
                    },
                ),
            ),
    {
        if !self.stream_active {
            return Err("No active stream".to_owned());
        }
        let state = if pressed { ButtonState::Pressed } else { ButtonState::Released };
        Ok(
            ClientMessage::PointerEvent(
                PointerEvent {
                    event_type: PointerEventType::Button,
                    x: None,
                    y: None,
                    button: Some(button),
                    button_state: Some(state),
                    scroll_delta: None,
                },
            ),
        )
    }

    /// A scroll by `delta` steps; refused without a stream.
    pub fn send_scroll(&self, delta: i16) -> (r: Result<ClientMessage, String>)
        ensures
            !self.spec_streaming() ==> (r matches Err(e) && e@ == no_stream_text()),
            self.spec_streaming() ==> r == Ok::<ClientMessage, String>(
                ClientMessage::PointerEvent(
                    PointerEvent {
                        event_type: PointerEventType::Scroll,
                        x: None,
                        y: None,
                        button: None,
                        button_state: None,
                        scroll_delta: Some(delta),
                    },
                ),
            ),
    {
        if !self.stream_active {
            return Err("No active stream".to_owned());
        }
        Ok(
            ClientMessage::PointerEvent(
                PointerEvent {
                    event_type: PointerEventType::Scroll,
                    x: None,
                    y: None,
                    button: None,
                    button_state: None,
                    scroll_delta: Some(delta),
                },
            ),
        )
    }

    /// A request for another bitrate; refused without a stream.
    pub fn request_quality(&self, bitrate_kbps: u16) -> (r: Result<ClientMessage, String>)
        ensures
            !self.spec_streaming() ==> (r matches Err(e) && e@ == no_stream_text()),
            self.spec_streaming() ==> r == Ok::<ClientMessage, String>(
                ClientMessage::QualityRequest(
                    QualityRequest {
                        target_bitrate_kbps: Some(bitrate_kbps),
                        target_resolution: None,
                        target_fps: None,
                    },
                ),
            ),
    {
        if !self.stream_active {
            return Err("No active stream".to_owned());
        }
        Ok(
            ClientMessage::QualityRequest(
                QualityRequest {
                    target_bitrate_kbps: Some(bitrate_kbps),
                    target_resolution: None,
                    target_fps: None,
                },
            ),
        )
    }

    /// The pause request; nothing is sent without a stream.
    pub fn pause(&self) -> (r: Option<ClientMessage>)
        ensures
            self.spec_streaming() ==> r == Some(ClientMessage::PauseStream),
            !self.spec_streaming() ==> r is None,
    {
        if !self.stream_active {
            return None;
        }
        Some(ClientMessage::PauseStream)
    }

    /// The resume request; nothing is sent without a stream.
    pub fn resume(&self) -> (r: Option<ClientMessage>)
        ensures
            self.spec_streaming() ==> r == Some(ClientMessage::ResumeStream),
            !self.spec_streaming() ==> r is None,
    {
        if !self.stream_active {
            return None;
        }
        Some(ClientMessage::ResumeStream)
    }

    /// Whether the handshake is done.
    pub fn is_connected(&self) -> (r: bool)
        ensures
            r == self.spec_connected(),
    {
        self.connected
    }

    /// Whether a stream runs.
    pub fn is_streaming(&self) -> (r: bool)
        ensures
            r == self.spec_streaming(),
    {
        self.stream_active
    }

    /// The monitor of the stream.
    pub fn selected_monitor(&self) -> (r: Option<&str>)
        ensures
            match (r, self.spec_monitor()) {
                (Some(a), Some(b)) => a@ == b,
                (None, None) => true,
                _ => false,
            },
    {
        match &self.selected_monitor {
            Some(m) => Some(m.as_str()),
            None => None,
        }
    }
}

/// The address to connect to: the host as given when it names a port
/// already (holds a colon), else `host:port`.
pub open spec fn server_address_spec(hostname: Seq<char>, port: u16) -> Seq<char> {
    if hostname.contains(':') {
        hostname
    } else {
        hostname + ":"@ + decimal(port as nat)
    }
}

/// The address to connect to for a host and the default port.
pub fn server_address(hostname: &str, port: u16) -> (a: String)
    ensures
        a@ == server_address_spec(hostname@, port),
{
    let cs = chars_of(hostname);
    if contains_char(cs.as_slice(), ':') {
        return hostname.to_owned();
    }
    let mut a = hostname.to_owned();
    string_push_str(&mut a, ":");
    push_decimal(&mut a, port as u64);
    a
}

/// The first position of a primary monitor, if any.
pub open spec fn first_primary(ms: Seq<MonitorInfo>) -> Option<int> {
    if exists|i: int| 0 <= i < ms.len() && ms[i].is_primary {
        Some(choose|i: int| 0 <= i < ms.len() && ms[i].is_primary && forall|j: int| 0 <= j < i ==> !ms[j].is_primary)
    } else {
        None
    }
}

/// The text of the error for a server without monitors.
pub open spec fn no_monitors_text() -> Seq<char> {
    "No monitors available"@
}

/// The monitor to stream when none was named: the first primary one, else
/// the first one; refused when the server offers none.
pub fn choose_monitor(monitors: &Vec<MonitorInfo>) -> (r: Result<String, String>)
    ensures
        monitors@.len() == 0 ==> (r matches Err(e) && e@ == no_monitors_text()),
        monitors@.len() > 0 ==> (r matches Ok(name) && name@ == (match first_primary(monitors@) {
            Some(i) => monitors@[i].name@,
            None => monitors@[0].name@,
        })),
{
    let mut i: usize = 0;
    while i < monitors.len()
        invariant
            i <= monitors@.len(),
            forall|j: int| 0 <= j < i ==> !monitors@[j].is_primary,
        decreases monitors@.len() - i,
    {
        if monitors[i].is_primary {
            proof {
                let k = choose|k: int|
                    0 <= k < monitors@.len() && monitors@[k].is_primary && forall|j: int|
                        0 <= j < k ==> !monitors@[j].is_primary;
                if k < i {
                    assert(!monitors@[k].is_primary);
                }
                if k > i {
                    assert(!monitors@[i as int].is_primary);
                }
            }
            return Ok(monitors[i].name.clone());
        }
        i += 1;
    }
    if monitors.len() == 0 {
        return Err("No monitors available".to_owned());
    }
    Ok(monitors[0].name.clone())
}

/// The longest wait between reconnection attempts, in seconds.
pub const MAX_RECONNECT_DELAY_SECS: u64 = 30;

/// The wait after a failed attempt: twice the last one, at most
/// `MAX_RECONNECT_DELAY_SECS` seconds.
pub fn next_reconnect_delay(delay_secs: u64) -> (d: u64)
    ensures
        d == (if 2 * delay_secs <= MAX_RECONNECT_DELAY_SECS { 2 * delay_secs } else { MAX_RECONNECT_DELAY_SECS as int }),
{
    if delay_secs <= MAX_RECONNECT_DELAY_SECS / 2 {
        delay_secs * 2
    } else {
        MAX_RECONNECT_DELAY_SECS
    }
}

/// The line that lists a monitor: `  - name (WxH@RHz)`, with ` [PRIMARY]`
/// after the primary one.
pub open spec fn monitor_line_spec(m: MonitorInfo) -> Seq<char> {
    "  - "@ + m.name@ + " ("@ + decimal(m.width as nat) + "x"@ + decimal(m.height as nat) + "@"@
        + decimal(m.refresh_rate as nat) + "Hz)"@ + (if m.is_primary { " [PRIMARY]"@ } else { Seq::empty() })
}

/// The line that lists a monitor.
pub fn monitor_line(m: &MonitorInfo) -> (l: String)
    ensures
        l@ == monitor_line_spec(*m),
{
    let mut l = "  - ".to_owned();
    string_push_str(&mut l, m.name.as_str());
    string_push_str(&mut l, " (");
    push_decimal(&mut l, m.width as u64);
    string_push_str(&mut l, "x");
    push_decimal(&mut l, m.height as u64);
    string_push_str(&mut l, "@");
    push_decimal(&mut l, m.refresh_rate as u64);
    string_push_str(&mut l, "Hz)");
    if m.is_primary {
        string_push_str(&mut l, " [PRIMARY]");
    }
    proof {
        if !m.is_primary {
            assert(l@ =~= l@ + Seq::<char>::empty());
        }
    }
    l
}

/// What the player has done: whether a keyframe came, and how many frames
/// were shown.
pub struct PlaybackState {
    keyframe_received: bool,
    frame_count: u64,
}

impl PlaybackState {
    /// Whether a keyframe came.
    pub closed spec fn spec_keyframe_received(&self) -> bool {
        self.keyframe_received
    }

    /// The frames shown.
    pub closed spec fn spec_frame_count(&self) -> u64 {
        self.frame_count
    }

    /// Before the first frame.
    pub fn new() -> (p: PlaybackState)
        ensures
            !p.spec_keyframe_received(),
            p.spec_frame_count() == 0,
    {
        PlaybackState { keyframe_received: false, frame_count: 0 }
    }

    /// Whether a frame is decoded: frames before the first keyframe are
    /// skipped, since the decoder cannot start from them; every frame from
    /// the first keyframe on is decoded.
    pub fn should_decode(&mut self, frame_type: FrameType) -> (decode: bool)
        ensures
            decode == (old(self).spec_keyframe_received() || frame_type == FrameType::IFrame),
            final(self).spec_keyframe_received() == decode,
            final(self).spec_frame_count() == old(self).spec_frame_count(),
    {
        if !self.keyframe_received {
            match frame_type {
                FrameType::IFrame => {
                    self.keyframe_received = true;
                },
                _ => {
                    return false;
                },
            }
        }
        true
    }

    /// Counts a decoded frame.
    pub fn frame_shown(&mut self)
        requires
            old(self).spec_frame_count() < u64::MAX,
        ensures
            final(self).spec_frame_count() == old(self).spec_frame_count() + 1,
            final(self).spec_keyframe_received() == old(self).spec_keyframe_received(),
    {
        self.frame_count = self.frame_count + 1;
    }

    /// The frames shown.
    pub fn frame_count(&self) -> (n: u64)
        ensures
            n == self.spec_frame_count(),
    {
        self.frame_count
    }
}

} // verus!
