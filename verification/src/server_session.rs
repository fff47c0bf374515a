//! What the server decides for one client connection: whom it admits, how it
//! answers each client message, and when it asks the encoder for a keyframe.
//! The connection task performs the actions (sending, spawning the capture
//! task, injecting input) and hands each message to these functions.

use vstd::prelude::*;
use crate::encoder::EncodedFrame;
use crate::headless::HeadlessSessionInfo;
use crate::monitor;
use crate::portal::{ButtonState as PortalButtonState, InputCommand, KeyEvent as PortalKeyEvent, KeyState as PortalKeyState};
use crate::protocol::{
    ButtonState, Error, ErrorCode, FrameType, Hello, HelloAck, KeyEvent, KeyState, MonitorInfo, Ping,
    PointerEvent, PointerEventType, Pong, QualityRequest, SelectMonitor, StreamStart, VideoFrame, PROTOCOL_VERSION,
    ProtocolError, is_protocol_error_text,
};
use crate::quality::{level_for_bitrate, spec_fps, spec_level_for_bitrate, spec_resolution, QualityLevel};
use crate::text::{decimal, push_decimal, string_push_str};

verus! {

/// The address a connection comes from.
#[derive(Debug, Clone, Copy)]
pub enum PeerAddress {
    V4([u8; 4]),
    V6([u16; 8]),
}

/// Admitted peers: IPv4 loopback, the Tailscale range 100.0.0.0/8, IPv6
/// loopback `::1`, and the Tailscale prefix fd7a:115c:a1e0::/48.
pub open spec fn admitted(peer: PeerAddress) -> bool {
    match peer {
        PeerAddress::V4(o) => (o@ == seq![127u8, 0, 0, 1]) || o@[0] == 100,
        PeerAddress::V6(s) => (s@ == seq![0u16, 0, 0, 0, 0, 0, 0, 1]) || (s@[0] == 0xfd7a && s@[1]
            == 0x115c && s@[2] == 0xa1e0),
    }
}

/// Whether a connection comes from Tailscale or from this machine.
pub fn is_tailscale_connection(peer: PeerAddress) -> (r: bool)
    ensures
        r == admitted(peer),
{
    match peer {
        PeerAddress::V4(o) => {
            if o[0] == 127 && o[1] == 0 && o[2] == 0 && o[3] == 1 {
                assert(o@ =~= seq![127u8, 0, 0, 1]);
                return true;
            }
            o[0] == 100
        },
        PeerAddress::V6(s) => {
            if s[0] == 0 && s[1] == 0 && s[2] == 0 && s[3] == 0 && s[4] == 0 && s[5] == 0 && s[6] == 0
                && s[7] == 1 {
                assert(s@ =~= seq![0u16, 0, 0, 0, 0, 0, 0, 1]);
                return true;
            }
            s[0] == 0xfd7a && s[1] == 0x115c && s[2] == 0xa1e0
        },
    }
}

/// Measurements of a connection, for adapting the quality.
#[derive(Debug, Clone, Copy)]
pub struct ConnectionMetrics {
    pub rtt_us: u64,
    pub encode_time_us: u64,
    pub bitrate_kbps: u16,
    pub dropped_frames: u32,
}

impl Default for ConnectionMetrics {
    fn default() -> (m: ConnectionMetrics)
        ensures
            m.rtt_us == 50_000,
            m.encode_time_us == 20_000,
            m.bitrate_kbps == 5000,
            m.dropped_frames == 0,
    {
        ConnectionMetrics { rtt_us: 50_000, encode_time_us: 20_000, bitrate_kbps: 5000, dropped_frames: 0 }
    }
}

#[verifier::external_type_specification]
#[verifier::external_body]
pub struct ExInstant(std::time::Instant);

/// What the server knows of a client that said hello.
#[derive(Debug)]
pub struct ClientInfo {
    pub client_name: String,
    pub connected_at: std::time::Instant,
    pub selected_monitor: Option<String>,
    pub current_quality: QualityLevel,
    pub pipewire_node_id: Option<u32>,
    pub stream_width: u16,
    pub stream_height: u16,
}

impl Clone for ClientInfo {
    fn clone(&self) -> (c: ClientInfo)
        ensures
            c.client_name@ == self.client_name@,
            c.connected_at == self.connected_at,
            c.selected_monitor.is_some() == self.selected_monitor.is_some(),
            c.selected_monitor.is_some() ==> c.selected_monitor.unwrap()@
                == self.selected_monitor.unwrap()@,
            c.current_quality == self.current_quality,
            c.pipewire_node_id == self.pipewire_node_id,
            c.stream_width == self.stream_width,
            c.stream_height == self.stream_height,
    {
        let selected_monitor = match &self.selected_monitor {
            Some(m) => Some(m.clone()),
            None => None,
        };
        ClientInfo {
            client_name: self.client_name.clone(),
            connected_at: self.connected_at,
            selected_monitor,
            current_quality: self.current_quality,
            pipewire_node_id: self.pipewire_node_id,
            stream_width: self.stream_width,
            stream_height: self.stream_height,
        }
    }
}

/// The text of the error that turns a client away when the server is full.
pub open spec fn too_many_connections_text() -> Seq<char> {
    "Too many connections"@
}

/// Whether one more client may connect while `connected` clients are
/// served: with a limit of `max_clients`, a client beyond it is refused with a
/// `RateLimited` error; without a limit every client is admitted.
pub fn admit_client(connected: usize, max_clients: Option<usize>) -> (r: Result<(), Error>)
    ensures
        match max_clients {
            Some(m) => connected >= m <==> r is Err,
            None => r is Ok,
        },
        r matches Err(e) ==> e.code == ErrorCode::RateLimited && e.message@ == too_many_connections_text(),
{
    match max_clients {
        Some(m) => {
            if connected >= m {
                Err(Error { code: ErrorCode::RateLimited, message: "Too many connections".to_owned() })
            } else {
                Ok(())
            }
        },
        None => Ok(()),
    }
}

/// The answer to a frame that does not parse as a client message: a
/// `StreamFailed` error whose message is `Invalid message: ` followed by the
/// parse error's message.
pub fn invalid_message_reply(e: &ProtocolError) -> (r: Error)
    ensures
        r.code == ErrorCode::StreamFailed,
        r.message@.len() >= 17,
        r.message@.take(17) == "Invalid message: "@,
        is_protocol_error_text(*e, r.message@.skip(17)),
{
    let mut message = "Invalid message: ".to_owned();
    let t = e.message();
    string_push_str(&mut message, t.as_str());
    proof {
        reveal_strlit("Invalid message: ");
        assert(message@.take(17) =~= "Invalid message: "@);
        assert(message@.skip(17) =~= t@);
    }
    Error { code: ErrorCode::StreamFailed, message }
}

/// The text of the error for an unsupported protocol version.
pub open spec fn unsupported_version_text(v: u16) -> Seq<char> {
    "Unsupported protocol version: "@ + decimal(v as nat)
}

/// The state of one client connection.
pub struct ServerSession {
    pub client_info: Option<ClientInfo>,
    pub metrics: ConnectionMetrics,
    pub quality: QualityLevel,
    pub streaming_paused: bool,
}

impl ServerSession {
    /// A connection that has not said hello: reasonable quality, not paused.
    pub fn new() -> (s: ServerSession)
        ensures
            s.client_info is None,
            s.metrics.rtt_us == 50_000,
            s.metrics.encode_time_us == 20_000,
            s.metrics.bitrate_kbps == 5000,
            s.metrics.dropped_frames == 0,
            s.quality == QualityLevel::Level1,
            !s.streaming_paused,
    {
        ServerSession {
            client_info: None,
            metrics: ConnectionMetrics::default(),
            quality: QualityLevel::Level1,
            streaming_paused: false,
        }
    }

    /// Answers a hello: a version other than the server's is refused with an
    /// `UnsupportedCodec` error and changes nothing; otherwise the client is
    /// recorded (connected at `now`, no monitor, the current quality,
    /// 1920x1080) and acknowledged.
    pub fn answer_hello(&mut self, hello: &Hello, now: std::time::Instant) -> (r: Result<HelloAck, Error>)
        ensures
            hello.protocol_version != PROTOCOL_VERSION ==> {
                &&& r matches Err(e)
                &&& e.code == ErrorCode::UnsupportedCodec
                &&& e.message@ == unsupported_version_text(hello.protocol_version)
                &&& final(self).client_info == old(self).client_info
            },
            hello.protocol_version == PROTOCOL_VERSION ==> {
                &&& r matches Ok(ack)
                &&& ack.protocol_version == PROTOCOL_VERSION
                &&& ack.server_name@ == "remote-desktop-wayland"@
                &&& ack.selected_codec@ == "h264"@
                &&& final(self).client_info matches Some(info)
                &&& info.client_name@ == hello.client_name@
                &&& info.connected_at == now
                &&& info.selected_monitor is None
                &&& info.current_quality == old(self).quality
                &&& info.pipewire_node_id is None
                &&& info.stream_width == 1920
                &&& info.stream_height == 1080
            },
            final(self).quality == old(self).quality,
            final(self).metrics == old(self).metrics,
            final(self).streaming_paused == old(self).streaming_paused,
    {
        if hello.protocol_version != PROTOCOL_VERSION {
            let mut message = "Unsupported protocol version: ".to_owned();
            push_decimal(&mut message, hello.protocol_version as u64);
            return Err(Error { code: ErrorCode::UnsupportedCodec, message });
        }
        self.client_info = Some(ClientInfo {
            client_name: hello.client_name.clone(),
            connected_at: now,
            selected_monitor: None,
            current_quality: self.quality,
            pipewire_node_id: None,
            stream_width: 1920,
            stream_height: 1080,
        });
        Ok(HelloAck {
            protocol_version: PROTOCOL_VERSION,
            server_name: "remote-desktop-wayland".to_owned(),
            selected_codec: "h264".to_owned(),
        })
    }
}


/// A protocol monitor entry and the values it was made from.
pub open spec fn lists(e: MonitorInfo, name: Seq<char>, width: u32, height: u32, refresh_rate: u32, primary: bool) -> bool {
    &&& e.name@ == name
    &&& e.width == width as u16
    &&& e.height == height as u16
    &&& e.refresh_rate == refresh_rate as u8
    &&& e.is_primary == primary
}

/// The single monitor of the headless session: its output, always primary
/// (sizes are cut to the protocol's widths).
pub fn headless_monitor_info(session: &HeadlessSessionInfo) -> (m: MonitorInfo)
    ensures
        lists(m, session.output_name@, session.width, session.height, session.refresh_rate, true),
{
    MonitorInfo {
        name: session.output_name.clone(),
        width: session.width as u16,
        height: session.height as u16,
        refresh_rate: session.refresh_rate as u8,
        is_primary: true,
    }
}

/// The text of the error for a missing headless session.
pub open spec fn no_session_text() -> Seq<char> {
    "Headless session is not available"@
}

/// The monitors offered in headless mode: the session's one output.
pub fn virtual_monitor_list(session: Option<&HeadlessSessionInfo>) -> (r: Result<Vec<MonitorInfo>, String>)
    ensures
        session is None ==> (r matches Err(e) && e@ == no_session_text()),
        session matches Some(s) ==> (r matches Ok(v) && v@.len() == 1 && lists(
            v@[0],
            s.output_name@,
            s.width,
            s.height,
            s.refresh_rate,
            true,
        )),
{
    match session {
        Some(s) => Ok(vec![headless_monitor_info(s)]),
        None => Err("Headless session is not available".to_owned()),
    }
}

/// The monitors offered in the normal mode: each detected monitor, in order,
/// with its sizes cut to the protocol's widths.
pub fn physical_monitor_list(monitors: &Vec<monitor::MonitorInfo>) -> (r: Vec<MonitorInfo>)
    ensures
        r@.len() == monitors@.len(),
        forall|i: int|
            0 <= i < r@.len() ==> #[trigger] lists(
                r@[i],
                monitors@[i].name@,
                monitors@[i].resolution.0,
                monitors@[i].resolution.1,
                monitors@[i].refresh_rate,
                monitors@[i].is_primary,
            ),
{
    let mut out: Vec<MonitorInfo> = Vec::new();
    let mut i: usize = 0;
    while i < monitors.len()
        invariant
            i <= monitors@.len(),
            out@.len() == i,
            forall|k: int|
                0 <= k < i ==> #[trigger] lists(
                    out@[k],
                    monitors@[k].name@,
                    monitors@[k].resolution.0,
                    monitors@[k].resolution.1,
                    monitors@[k].refresh_rate,
                    monitors@[k].is_primary,
                ),
        decreases monitors@.len() - i,
    {
        let m = &monitors[i];
        out.push(
            MonitorInfo {
                name: m.name.clone(),
                width: m.resolution.0 as u16,
                height: m.resolution.1 as u16,
                refresh_rate: m.refresh_rate as u8,
                is_primary: m.is_primary,
            },
        );
        i += 1;
    }
    out
}

/// The frame rate of a stream: the requested one, else the quality's.
pub open spec fn chosen_fps(sel: SelectMonitor, q: QualityLevel) -> u8 {
    match sel.requested_fps {
        Some(f) => f,
        None => spec_fps(q),
    }
}

/// The size of a stream on a physical monitor: the requested one when both
/// width and height are given, else the quality's resolution.
pub open spec fn chosen_size(sel: SelectMonitor, q: QualityLevel) -> (u16, u16) {
    match (sel.requested_width, sel.requested_height) {
        (Some(w), Some(h)) => (w, h),
        _ => spec_resolution(q),
    }
}

/// A stream start announcing H.264 baseline profile, level 3.1.
pub open spec fn announces(s: StreamStart, width: u16, height: u16, fps: u8) -> bool {
    &&& s.width == width
    &&& s.height == height
    &&& s.fps == fps
    &&& s.codec@ == "h264"@
    &&& s.profile == 66
    &&& s.level == 31
}

/// The client record after a stream was selected: the monitor and the size
/// are recorded, the rest is kept; without a record there is still none.
pub open spec fn records_stream(
    before: Option<ClientInfo>,
    after: Option<ClientInfo>,
    name: Seq<char>,
    width: u16,
    height: u16,
) -> bool {
    match before {
        None => after is None,
        Some(b) => after matches Some(a) && {
            &&& a.client_name@ == b.client_name@
            &&& a.connected_at == b.connected_at
            &&& a.selected_monitor matches Some(m) && m@ == name
            &&& a.current_quality == b.current_quality
            &&& a.pipewire_node_id == b.pipewire_node_id
            &&& a.stream_width == width
            &&& a.stream_height == height
        },
    }
}

/// The text of the error for an output that the headless session lacks.
pub open spec fn missing_output_text(requested: Seq<char>, available: Seq<char>) -> Seq<char> {
    "Headless output not found: "@ + requested + " (available: "@ + available + ")"@
}

/// The text of the error for a monitor that is not connected.
pub open spec fn missing_monitor_text(requested: Seq<char>) -> Seq<char> {
    "Monitor not found: "@ + requested
}

/// Whether a monitor of that name is among `ms`.
pub open spec fn has_monitor(ms: Seq<monitor::MonitorInfo>, name: Seq<char>) -> bool {
    exists|i: int| 0 <= i < ms.len() && #[trigger] ms[i].name@ == name
}

impl ServerSession {
    fn record_stream(&mut self, name: &String, width: u16, height: u16)
        ensures
            records_stream(old(self).client_info, final(self).client_info, name@, width, height),
            final(self).quality == old(self).quality,
            final(self).metrics == old(self).metrics,
            final(self).streaming_paused == old(self).streaming_paused,
    {
        match self.client_info.take() {
            Some(info) => {
                self.client_info = Some(ClientInfo {
                    client_name: info.client_name,
                    connected_at: info.connected_at,
                    selected_monitor: Some(name.clone()),
                    current_quality: info.current_quality,
                    pipewire_node_id: info.pipewire_node_id,
                    stream_width: width,
                    stream_height: height,
                });
            },
            None => {},
        }
    }

    fn stream_start(&self, width: u16, height: u16, fps: u8) -> (s: StreamStart)
        ensures
            announces(s, width, height, fps),
    {
        StreamStart { width, height, fps, codec: "h264".to_owned(), profile: 66, level: 31 }
    }

    /// Selects the headless session's output: refused without a session or
    /// for another name (nothing changes then); otherwise the stream has the
    /// output's size and the requested or the quality's frame rate.
    pub fn select_virtual_stream(&mut self, sel: &SelectMonitor, session: Option<&HeadlessSessionInfo>) -> (r: Result<StreamStart, String>)
        ensures
            session is None ==> (r matches Err(e) && e@ == no_session_text()),
            session matches Some(s) ==> (sel.monitor_name@ != s.output_name@ ==> (r matches Err(e)
                && e@ == missing_output_text(sel.monitor_name@, s.output_name@))),
            r is Err ==> final(self).client_info == old(self).client_info,
            session matches Some(s) ==> (sel.monitor_name@ == s.output_name@ ==> {
                &&& r matches Ok(start)
                &&& announces(start, s.width as u16, s.height as u16, chosen_fps(*sel, old(self).quality))
                &&& records_stream(
                    old(self).client_info,
                    final(self).client_info,
                    s.output_name@,
                    s.width as u16,
                    s.height as u16,
                )
            }),
            final(self).quality == old(self).quality,
            final(self).metrics == old(self).metrics,
            final(self).streaming_paused == old(self).streaming_paused,
    {
        let s = match session {
            Some(s) => s,
            None => return Err("Headless session is not available".to_owned()),
        };
        let m = headless_monitor_info(s);
        if !(sel.monitor_name == m.name) {
            let mut message = "Headless output not found: ".to_owned();
            string_push_str(&mut message, sel.monitor_name.as_str());
            string_push_str(&mut message, " (available: ");
            string_push_str(&mut message, m.name.as_str());
            string_push_str(&mut message, ")");
            return Err(message);
        }
        self.record_stream(&m.name, m.width, m.height);
        let fps = match sel.requested_fps {
            Some(f) => f,
            None => self.quality.fps(),
        };
        Ok(self.stream_start(m.width, m.height, fps))
    }

    /// Selects a detected monitor by name: refused when none has that name
    /// (nothing changes then); otherwise the stream has the requested size
    /// when both sides are given, else the quality's, and the requested or the
    /// quality's frame rate. The monitor's name comes back with the start.
    pub fn select_physical_stream(&mut self, sel: &SelectMonitor, monitors: &Vec<monitor::MonitorInfo>) -> (r: Result<(String, StreamStart), String>)
        ensures
            !has_monitor(monitors@, sel.monitor_name@) ==> {
                &&& r matches Err(e)
                &&& e@ == missing_monitor_text(sel.monitor_name@)
                &&& final(self).client_info == old(self).client_info
            },
            has_monitor(monitors@, sel.monitor_name@) ==> {
                &&& r matches Ok((name, start))
                &&& name@ == sel.monitor_name@
                &&& announces(
                    start,
                    chosen_size(*sel, old(self).quality).0,
                    chosen_size(*sel, old(self).quality).1,
                    chosen_fps(*sel, old(self).quality),
                )
                &&& records_stream(
                    old(self).client_info,
                    final(self).client_info,
                    sel.monitor_name@,
                    chosen_size(*sel, old(self).quality).0,
                    chosen_size(*sel, old(self).quality).1,
                )
            },
            final(self).quality == old(self).quality,
            final(self).metrics == old(self).metrics,
            final(self).streaming_paused == old(self).streaming_paused,
    {
        let mut i: usize = 0;
        while i < monitors.len()
            invariant
                i <= monitors@.len(),
                forall|k: int| 0 <= k < i ==> monitors@[k].name@ != sel.monitor_name@,
            ensures
                i <= monitors@.len(),
                forall|k: int| 0 <= k < i ==> monitors@[k].name@ != sel.monitor_name@,
                i < monitors@.len() ==> monitors@[i as int].name@ == sel.monitor_name@,
            decreases monitors@.len() - i,
        {
            if monitors[i].name == sel.monitor_name {
                break;
            }
            i += 1;
        }
        if i == monitors.len() {
            assert(!has_monitor(monitors@, sel.monitor_name@));
            let mut message = "Monitor not found: ".to_owned();
            string_push_str(&mut message, sel.monitor_name.as_str());
            return Err(message);
        }
        let name = monitors[i].name.clone();
        let (width, height) = match (sel.requested_width, sel.requested_height) {
            (Some(w), Some(h)) => (w, h),
            _ => self.quality.resolution(),
        };
        self.record_stream(&name, width, height);
        let fps = match sel.requested_fps {
            Some(f) => f,
            None => self.quality.fps(),
        };
        let start = self.stream_start(width, height, fps);
        Ok((name, start))
    }
}


/// The portal key event for a protocol key event: same code, same state.
pub fn portal_key_event(event: &KeyEvent) -> (k: PortalKeyEvent)
    ensures
        k.keycode == event.key_code,
        k.state == (match event.state {
            KeyState::Pressed => PortalKeyState::Pressed,
            KeyState::Released => PortalKeyState::Released,
        }),
{
    PortalKeyEvent {
        keycode: event.key_code,
        state: match event.state {
            KeyState::Pressed => PortalKeyState::Pressed,
            KeyState::Released => PortalKeyState::Released,
        },
    }
}

/// The size against which pointer positions are taken: the client's stream
/// size (at least 1 on each side), else 1920x1080.
pub open spec fn pointer_frame(info: Option<ClientInfo>) -> (u16, u16) {
    match info {
        Some(i) => (
            if i.stream_width >= 1 { i.stream_width } else { 1 },
            if i.stream_height >= 1 { i.stream_height } else { 1 },
        ),
        None => (1920, 1080),
    }
}

/// The input command for a protocol pointer event: an absolute position
/// within the stream (missing coordinates are 0), a button (1 when missing,
/// pressed when no state is given), or a vertical scroll (0 when missing).
pub open spec fn pointer_command_spec(event: PointerEvent, info: Option<ClientInfo>) -> InputCommand {
    match event.event_type {
        PointerEventType::Motion => InputCommand::Motion {
            x: match event.x { Some(v) => v, None => 0 },
            y: match event.y { Some(v) => v, None => 0 },
            width: pointer_frame(info).0,
            height: pointer_frame(info).1,
        },
        PointerEventType::Button => InputCommand::Button {
            button: match event.button { Some(b) => b as u32, None => 1 },
            state: match event.button_state {
                Some(ButtonState::Released) => PortalButtonState::Released,
                _ => PortalButtonState::Pressed,
            },
        },
        PointerEventType::Scroll => InputCommand::Scroll {
            delta_x: 0,
            delta_y: match event.scroll_delta { Some(d) => d as i32, None => 0 },
        },
    }
}

/// The command injected for a pointer event carries what the client sent: a
/// button event presses or releases the button the client named in the state
/// the client gave (only a missing state counts as a press, a missing button
/// as button 1); a motion keeps the client's coordinates inside the stream's
/// frame, which is never empty; a scroll keeps the client's vertical delta.
pub proof fn lemma_pointer_command_keeps_event(event: PointerEvent, info: Option<ClientInfo>)
    ensures
        event.event_type == PointerEventType::Button ==> {
            &&& pointer_command_spec(event, info) matches InputCommand::Button { button, state }
            &&& event.button_state == Some(ButtonState::Pressed) ==> state == PortalButtonState::Pressed
            &&& event.button_state == Some(ButtonState::Released) ==> state == PortalButtonState::Released
            &&& event.button_state is None ==> state == PortalButtonState::Pressed
            &&& event.button matches Some(b) ==> button == b as u32
            &&& event.button is None ==> button == 1
        },
        event.event_type == PointerEventType::Motion ==> {
            &&& pointer_command_spec(event, info) matches InputCommand::Motion { x, y, width, height }
            &&& event.x matches Some(v) ==> x == v
            &&& event.y matches Some(v) ==> y == v
            &&& width >= 1 && height >= 1
            &&& (info matches Some(i) && i.stream_width >= 1) ==> width == info->Some_0.stream_width
            &&& (info matches Some(i) && i.stream_height >= 1) ==> height == info->Some_0.stream_height
        },
        event.event_type == PointerEventType::Scroll ==> {
            &&& pointer_command_spec(event, info) matches InputCommand::Scroll { delta_x, delta_y }
            &&& delta_x == 0
            &&& event.scroll_delta matches Some(d) ==> delta_y == d as i32
        },
{
}

/// Whether the server answers a ping: always, echoing the client's time.
pub open spec fn answers_ping(p: Pong, ping: Ping, server_timestamp_us: u64) -> bool {
    p.timestamp_us == ping.timestamp_us && p.server_timestamp_us == server_timestamp_us
}

/// The answer to a ping at the given server time.
pub fn pong_for(ping: &Ping, server_timestamp_us: u64) -> (p: Pong)
    ensures
        answers_ping(p, *ping, server_timestamp_us),
{
    Pong { timestamp_us: ping.timestamp_us, server_timestamp_us }
}

impl ServerSession {
    /// The input command for a pointer event of this client.
    pub fn pointer_command(&self, event: &PointerEvent) -> (c: InputCommand)
        ensures
            c == pointer_command_spec(*event, self.client_info),
    {
        match event.event_type {
            PointerEventType::Motion => {
                let (width, height) = match &self.client_info {
                    Some(i) => (
                        if i.stream_width >= 1 { i.stream_width } else { 1 },
                        if i.stream_height >= 1 { i.stream_height } else { 1 },
                    ),
                    None => (1920, 1080),
                };
                InputCommand::Motion {
                    x: match event.x { Some(v) => v, None => 0 },
                    y: match event.y { Some(v) => v, None => 0 },
                    width,
                    height,
                }
            },
            PointerEventType::Button => InputCommand::Button {
                button: match event.button { Some(b) => b as u32, None => 1 },
                state: match event.button_state {
                    Some(ButtonState::Released) => PortalButtonState::Released,
                    _ => PortalButtonState::Pressed,
                },
            },
            PointerEventType::Scroll => InputCommand::Scroll {
                delta_x: 0,
                delta_y: match event.scroll_delta { Some(d) => d as i32, None => 0 },
            },
        }
    }

    /// Applies a quality request: a requested bitrate is recorded and selects
    /// the quality level; a request without one changes nothing.
    pub fn apply_quality_request(&mut self, req: &QualityRequest)
        ensures
            req.target_bitrate_kbps matches Some(b) ==> {
                &&& final(self).metrics.bitrate_kbps == b
                &&& final(self).quality == spec_level_for_bitrate(b)
            },
            req.target_bitrate_kbps is None ==> {
                &&& final(self).metrics.bitrate_kbps == old(self).metrics.bitrate_kbps
                &&& final(self).quality == old(self).quality
            },
            final(self).metrics.rtt_us == old(self).metrics.rtt_us,
            final(self).metrics.encode_time_us == old(self).metrics.encode_time_us,
            final(self).metrics.dropped_frames == old(self).metrics.dropped_frames,
            final(self).client_info == old(self).client_info,
            final(self).streaming_paused == old(self).streaming_paused,
    {
        if let Some(bitrate) = req.target_bitrate_kbps {
            self.metrics.bitrate_kbps = bitrate;
            self.quality = level_for_bitrate(bitrate);
        }
    }

    /// Pauses (`true`) or resumes (`false`) the stream.
    pub fn set_paused(&mut self, paused: bool)
        ensures
            final(self).streaming_paused == paused,
            final(self).client_info == old(self).client_info,
            final(self).quality == old(self).quality,
            final(self).metrics == old(self).metrics,
    {
        self.streaming_paused = paused;
    }

    /// Whether an encoded frame goes to the client: frames are dropped while
    /// the stream is paused.
    pub fn forwards_frames(&self) -> (r: bool)
        ensures
            r == !self.streaming_paused,
    {
        !self.streaming_paused
    }
}

/// The frame type of an encoded frame.
pub fn frame_type_of(is_keyframe: bool) -> (t: FrameType)
    ensures
        t == (if is_keyframe { FrameType::IFrame } else { FrameType::PFrame }),
{
    if is_keyframe {
        FrameType::IFrame
    } else {
        FrameType::PFrame
    }
}

/// Frames after the last keyframe beyond which one is forced (two seconds at
/// 30 frames per second).
pub const KEYFRAME_INTERVAL: u64 = 60;

/// Timing and keyframe bookkeeping of a capture loop.
pub struct FrameClock {
    pub frame_duration_us: u64,
    pub frame_count: u64,
    pub last_keyframe: u64,
}

impl FrameClock {
    /// Keyframes are at most `KEYFRAME_INTERVAL` frames apart.
    pub open spec fn wf(&self) -> bool {
        self.last_keyframe <= self.frame_count && self.frame_count - self.last_keyframe
            <= KEYFRAME_INTERVAL
    }

    /// A clock for `fps` frames per second, before the first frame.
    pub fn new(fps: u8) -> (c: FrameClock)
        requires
            fps > 0,
        ensures
            c.frame_duration_us == 1_000_000int / (fps as int),
            c.frame_count == 0,
            c.last_keyframe == 0,
            c.wf(),
    {
        FrameClock { frame_duration_us: 1_000_000 / (fps as u64), frame_count: 0, last_keyframe: 0 }
    }

    /// How long to wait after a frame that took `elapsed_us` to keep the
    /// frame rate: what is left of the frame's duration, or nothing when the
    /// frame took that long or longer.
    pub fn remaining_us(&self, elapsed_us: u64) -> (wait: u64)
        ensures
            elapsed_us < self.frame_duration_us ==> wait == self.frame_duration_us - elapsed_us,
            elapsed_us >= self.frame_duration_us ==> wait == 0,
    {
        if elapsed_us < self.frame_duration_us {
            self.frame_duration_us - elapsed_us
        } else {
            0
        }
    }

    /// The presentation time of the current frame.
    pub fn timestamp_us(&self) -> (t: u64)
        requires
            self.frame_count * self.frame_duration_us <= u64::MAX,
        ensures
            t == self.frame_count * self.frame_duration_us,
    {
        self.frame_count * self.frame_duration_us
    }

    /// Books a frame of the capture loop of a physical monitor: the frame is
    /// counted, a keyframe moves the mark to the new count, and a keyframe is
    /// requested (and marked) when more than `KEYFRAME_INTERVAL` frames went
    /// by without one.
    pub fn count_frame(&mut self, is_keyframe: bool) -> (request_keyframe: bool)
        requires
            old(self).wf(),
            old(self).frame_count < u64::MAX,
        ensures
            final(self).frame_count == old(self).frame_count + 1,
            final(self).frame_duration_us == old(self).frame_duration_us,
            is_keyframe ==> !request_keyframe && final(self).last_keyframe == final(self).frame_count,
            !is_keyframe ==> (request_keyframe <==> final(self).frame_count - old(self).last_keyframe
                > KEYFRAME_INTERVAL),
            !is_keyframe && request_keyframe ==> final(self).last_keyframe == final(self).frame_count,
            !is_keyframe && !request_keyframe ==> final(self).last_keyframe == old(self).last_keyframe,
            final(self).wf(),
    {
        self.frame_count = self.frame_count + 1;
        if is_keyframe {
            self.last_keyframe = self.frame_count;
        }
        if self.frame_count - self.last_keyframe > KEYFRAME_INTERVAL {
            self.last_keyframe = self.frame_count;
            true
        } else {
            false
        }
    }

    /// Books a frame of the capture loop of the headless session: a keyframe
    /// marks the frame's own number, then the frame is counted, and a keyframe
    /// is requested (and marked) when more than `KEYFRAME_INTERVAL` frames went
    /// by without one.
    pub fn count_headless_frame(&mut self, is_keyframe: bool) -> (request_keyframe: bool)
        requires
            old(self).wf(),
            old(self).frame_count < u64::MAX,
        ensures
            final(self).frame_count == old(self).frame_count + 1,
            final(self).frame_duration_us == old(self).frame_duration_us,
            is_keyframe ==> !request_keyframe && final(self).last_keyframe == old(self).frame_count,
            !is_keyframe ==> (request_keyframe <==> final(self).frame_count - old(self).last_keyframe
                > KEYFRAME_INTERVAL),
            !is_keyframe && request_keyframe ==> final(self).last_keyframe == final(self).frame_count,
            !is_keyframe && !request_keyframe ==> final(self).last_keyframe == old(self).last_keyframe,
            final(self).wf(),
    {
        if is_keyframe {
            self.last_keyframe = self.frame_count;
        }
        self.frame_count = self.frame_count + 1;
        if self.frame_count - self.last_keyframe > KEYFRAME_INTERVAL {
            self.last_keyframe = self.frame_count;
            true
        } else {
            false
        }
    }
}

/// The text of the error for a capture whose size differs from the output's.
pub open spec fn capture_mismatch_text(w: u32, h: u32, ow: u32, oh: u32) -> Seq<char> {
    "Headless capture dimensions "@ + decimal(w as nat) + "x"@ + decimal(h as nat)
        + " do not match configured output "@ + decimal(ow as nat) + "x"@ + decimal(oh as nat)
}

/// Checks that a captured frame has the size of the session's output.
pub fn check_capture_size(width: u32, height: u32, session: &HeadlessSessionInfo) -> (r: Result<(), String>)
    ensures
        r is Ok <==> (width == session.width && height == session.height),
        r matches Err(e) ==> e@ == capture_mismatch_text(width, height, session.width, session.height),
{
    if width != session.width || height != session.height {
        let mut message = "Headless capture dimensions ".to_owned();
        push_decimal(&mut message, width as u64);
        string_push_str(&mut message, "x");
        push_decimal(&mut message, height as u64);
        string_push_str(&mut message, " do not match configured output ");
        push_decimal(&mut message, session.width as u64);
        string_push_str(&mut message, "x");
        push_decimal(&mut message, session.height as u64);
        return Err(message);
    }
    Ok(())
}


/// The video frame message for an encoded frame at the clock's current
/// frame: an I-frame for a keyframe, else a P-frame, with the frame's
/// presentation time and the encoded bytes.
pub fn video_frame_of(encoded: EncodedFrame, clock: &FrameClock) -> (f: VideoFrame)
    requires
        clock.frame_count * clock.frame_duration_us <= u64::MAX,
    ensures
        f.frame_type == (if encoded.is_keyframe { FrameType::IFrame } else { FrameType::PFrame }),
        f.timestamp_us == clock.frame_count * clock.frame_duration_us,
        f.data@ == encoded.data@,
{
    VideoFrame {
        frame_type: frame_type_of(encoded.is_keyframe),
        timestamp_us: clock.timestamp_us(),
        data: encoded.data,
    }
}

} // verus!
