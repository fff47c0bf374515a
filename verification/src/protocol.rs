//! The wire protocol between client and server: message type codes, message
//! payloads, length-prefixed framing, and the split of a frame into its type
//! byte and payload.

use vstd::prelude::*;
use bytes::BytesMut;
use crate::text::{decimal, push_decimal, string_push_str};
use crate::buffer::{buffer_bytes, buffer_len, buffer_byte, buffer_advance, buffer_split_to, buffer_reserve, buffer_extend_from_slice, buffer_get_u8, buffer_put_u8, buffer_new, buffer_to_vec};

verus! {

/// Version of the protocol that both ends speak.
pub const PROTOCOL_VERSION: u16 = 1;

/// Largest payload length that a frame may announce (16 MiB).
pub const MAX_FRAME_SIZE: usize = 16777216;

/// Message types sent from client to server.
#[derive(Debug, Clone, Copy, PartialEq, Eq, Structural)]
pub enum ClientMessageType {
    Hello,
    SelectMonitor,
    KeyEvent,
    PointerEvent,
    ClipboardEvent,
    QualityRequest,
    Ping,
    PauseStream,
    ResumeStream,
}

/// The type byte of each client message type.
pub open spec fn client_type_code(t: ClientMessageType) -> u8 {
    match t {
        ClientMessageType::Hello => 0x01,
        ClientMessageType::SelectMonitor => 0x02,
        ClientMessageType::KeyEvent => 0x03,
        ClientMessageType::PointerEvent => 0x04,
        ClientMessageType::ClipboardEvent => 0x05,
        ClientMessageType::QualityRequest => 0x06,
        ClientMessageType::Ping => 0x07,
        ClientMessageType::PauseStream => 0x08,
        ClientMessageType::ResumeStream => 0x09,
    }
}

/// The client message type that a type byte names, if any.
pub open spec fn client_type_of_code(value: u8) -> Option<ClientMessageType> {
    if value == 0x01 {
        Some(ClientMessageType::Hello)
    } else if value == 0x02 {
        Some(ClientMessageType::SelectMonitor)
    } else if value == 0x03 {
        Some(ClientMessageType::KeyEvent)
    } else if value == 0x04 {
        Some(ClientMessageType::PointerEvent)
    } else if value == 0x05 {
        Some(ClientMessageType::ClipboardEvent)
    } else if value == 0x06 {
        Some(ClientMessageType::QualityRequest)
    } else if value == 0x07 {
        Some(ClientMessageType::Ping)
    } else if value == 0x08 {
        Some(ClientMessageType::PauseStream)
    } else if value == 0x09 {
        Some(ClientMessageType::ResumeStream)
    } else {
        None
    }
}

impl ClientMessageType {
    /// The type byte of this message type.
    pub fn to_u8(self) -> (v: u8)
        ensures
            v == client_type_code(self),
    {
        match self {
            ClientMessageType::Hello => 0x01,
            ClientMessageType::SelectMonitor => 0x02,
            ClientMessageType::KeyEvent => 0x03,
            ClientMessageType::PointerEvent => 0x04,
            ClientMessageType::ClipboardEvent => 0x05,
            ClientMessageType::QualityRequest => 0x06,
            ClientMessageType::Ping => 0x07,
            ClientMessageType::PauseStream => 0x08,
            ClientMessageType::ResumeStream => 0x09,
        }
    }

    /// The message type that a type byte names; an unknown byte is refused.
    pub fn try_from(value: u8) -> (r: Result<ClientMessageType, ProtocolError>)
        ensures
            r == (match client_type_of_code(value) {
                Some(t) => Ok(t),
                None => Err(ProtocolError::UnknownMessageType(value)),
            }),
    {
        match value {
            0x01 => Ok(ClientMessageType::Hello),
            0x02 => Ok(ClientMessageType::SelectMonitor),
            0x03 => Ok(ClientMessageType::KeyEvent),
            0x04 => Ok(ClientMessageType::PointerEvent),
            0x05 => Ok(ClientMessageType::ClipboardEvent),
            0x06 => Ok(ClientMessageType::QualityRequest),
            0x07 => Ok(ClientMessageType::Ping),
            0x08 => Ok(ClientMessageType::PauseStream),
            0x09 => Ok(ClientMessageType::ResumeStream),
            _ => Err(ProtocolError::UnknownMessageType(value)),
        }
    }
}

/// Message types sent from server to client.
#[derive(Debug, Clone, Copy, PartialEq, Eq, Structural)]
pub enum ServerMessageType {
    HelloAck,
    MonitorList,
    StreamStart,
    VideoFrame,
    AudioData,
    Pong,
    StreamStats,
    ProtocolError,
    ClipboardEvent,
}

/// The type byte of each server message type.
pub open spec fn server_type_code(t: ServerMessageType) -> u8 {
    match t {
        ServerMessageType::HelloAck => 0x10,
        ServerMessageType::MonitorList => 0x11,
        ServerMessageType::StreamStart => 0x12,
        ServerMessageType::VideoFrame => 0x13,
        ServerMessageType::AudioData => 0x14,
        ServerMessageType::Pong => 0x15,
        ServerMessageType::StreamStats => 0x16,
        ServerMessageType::ProtocolError => 0x17,
        ServerMessageType::ClipboardEvent => 0x18,
    }
}

/// The server message type that a type byte names, if any.
pub open spec fn server_type_of_code(value: u8) -> Option<ServerMessageType> {
    if value == 0x10 {
        Some(ServerMessageType::HelloAck)
    } else if value == 0x11 {
        Some(ServerMessageType::MonitorList)
    } else if value == 0x12 {
        Some(ServerMessageType::StreamStart)
    } else if value == 0x13 {
        Some(ServerMessageType::VideoFrame)
    } else if value == 0x14 {
        Some(ServerMessageType::AudioData)
    } else if value == 0x15 {
        Some(ServerMessageType::Pong)
    } else if value == 0x16 {
        Some(ServerMessageType::StreamStats)
    } else if value == 0x17 {
        Some(ServerMessageType::ProtocolError)
    } else if value == 0x18 {
        Some(ServerMessageType::ClipboardEvent)
    } else {
        None
    }
}

impl ServerMessageType {
    /// The type byte of this message type.
    pub fn to_u8(self) -> (v: u8)
        ensures
            v == server_type_code(self),
    {
        match self {
            ServerMessageType::HelloAck => 0x10,
            ServerMessageType::MonitorList => 0x11,
            ServerMessageType::StreamStart => 0x12,
            ServerMessageType::VideoFrame => 0x13,
            ServerMessageType::AudioData => 0x14,
            ServerMessageType::Pong => 0x15,
            ServerMessageType::StreamStats => 0x16,
            ServerMessageType::ProtocolError => 0x17,
            ServerMessageType::ClipboardEvent => 0x18,
        }
    }

    /// The message type that a type byte names; an unknown byte is refused.
    pub fn try_from(value: u8) -> (r: Result<ServerMessageType, ProtocolError>)
        ensures
            r == (match server_type_of_code(value) {
                Some(t) => Ok(t),
                None => Err(ProtocolError::UnknownMessageType(value)),
            }),
    {
        match value {
            0x10 => Ok(ServerMessageType::HelloAck),
            0x11 => Ok(ServerMessageType::MonitorList),
            0x12 => Ok(ServerMessageType::StreamStart),
            0x13 => Ok(ServerMessageType::VideoFrame),
            0x14 => Ok(ServerMessageType::AudioData),
            0x15 => Ok(ServerMessageType::Pong),
            0x16 => Ok(ServerMessageType::StreamStats),
            0x17 => Ok(ServerMessageType::ProtocolError),
            0x18 => Ok(ServerMessageType::ClipboardEvent),
            _ => Err(ProtocolError::UnknownMessageType(value)),
        }
    }
}

/// Every client message type's byte names that type again, and no two client
/// message types share a byte.
pub proof fn lemma_client_type_code_roundtrip(t: ClientMessageType, u: ClientMessageType)
    ensures
        client_type_of_code(client_type_code(t)) == Some(t),
        client_type_code(t) == client_type_code(u) ==> t == u,
{
}

/// Every server message type's byte names that type again, and no two server
/// message types share a byte.
pub proof fn lemma_server_type_code_roundtrip(t: ServerMessageType, u: ServerMessageType)
    ensures
        server_type_of_code(server_type_code(t)) == Some(t),
        server_type_code(t) == server_type_code(u) ==> t == u,
{
}

/// No byte names both a client and a server message type.
pub proof fn lemma_type_codes_disjoint(value: u8)
    ensures
        !(client_type_of_code(value) is Some && server_type_of_code(value) is Some),
{
}

/// Kind of an encoded video frame.
#[derive(Debug, Clone, Copy, PartialEq, Eq, Structural)]
pub enum FrameType {
    PFrame,
    IFrame,
}

/// The byte that stands for each frame type: 0 for a P-frame, 1 for an
/// I-frame.
pub open spec fn frame_type_code(t: FrameType) -> u8 {
    match t {
        FrameType::PFrame => 0,
        FrameType::IFrame => 1,
    }
}

impl From<u8> for FrameType {
    /// 1 is an I-frame; every other byte is read as a P-frame.
    fn from(value: u8) -> (t: FrameType) {
        if value == 1 {
            FrameType::IFrame
        } else {
            FrameType::PFrame
        }
    }
}

impl vstd::std_specs::convert::FromSpecImpl<u8> for FrameType {
    open spec fn obeys_from_spec() -> bool {
        true
    }

    open spec fn from_spec(value: u8) -> FrameType {
        if value == 1 {
            FrameType::IFrame
        } else {
            FrameType::PFrame
        }
    }
}

impl From<FrameType> for u8 {
    fn from(t: FrameType) -> (v: u8) {
        match t {
            FrameType::PFrame => 0,
            FrameType::IFrame => 1,
        }
    }
}

impl vstd::std_specs::convert::FromSpecImpl<FrameType> for u8 {
    open spec fn obeys_from_spec() -> bool {
        true
    }

    open spec fn from_spec(t: FrameType) -> u8 {
        frame_type_code(t)
    }
}

/// State of a key.
#[derive(Debug, Clone, Copy, PartialEq, Eq, Structural)]
pub enum KeyState {
    Released,
    Pressed,
}

/// The byte that stands for each key state: 0 released, 1 pressed.
pub open spec fn key_state_code(t: KeyState) -> u8 {
    match t {
        KeyState::Released => 0,
        KeyState::Pressed => 1,
    }
}

impl From<u8> for KeyState {
    /// 1 is pressed; every other byte is read as released.
    fn from(value: u8) -> (t: KeyState) {
        if value == 1 {
            KeyState::Pressed
        } else {
            KeyState::Released
        }
    }
}

impl vstd::std_specs::convert::FromSpecImpl<u8> for KeyState {
    open spec fn obeys_from_spec() -> bool {
        true
    }

    open spec fn from_spec(value: u8) -> KeyState {
        if value == 1 {
            KeyState::Pressed
        } else {
            KeyState::Released
        }
    }
}

impl From<KeyState> for u8 {
    fn from(t: KeyState) -> (v: u8) {
        match t {
            KeyState::Released => 0,
            KeyState::Pressed => 1,
        }
    }
}

impl vstd::std_specs::convert::FromSpecImpl<KeyState> for u8 {
    open spec fn obeys_from_spec() -> bool {
        true
    }

    open spec fn from_spec(t: KeyState) -> u8 {
        key_state_code(t)
    }
}

/// Kind of pointer event.
#[derive(Debug, Clone, Copy, PartialEq, Eq, Structural)]
pub enum PointerEventType {
    Motion,
    Button,
    Scroll,
}

/// The byte that stands for each pointer event kind: 0 motion, 1 button,
/// 2 scroll.
pub open spec fn pointer_event_type_code(t: PointerEventType) -> u8 {
    match t {
        PointerEventType::Motion => 0,
        PointerEventType::Button => 1,
        PointerEventType::Scroll => 2,
    }
}

impl From<u8> for PointerEventType {
    /// 1 is a button event, 2 a scroll; every other byte is read as motion.
    fn from(value: u8) -> (t: PointerEventType) {
        if value == 1 {
            PointerEventType::Button
        } else if value == 2 {
            PointerEventType::Scroll
        } else {
            PointerEventType::Motion
        }
    }
}

impl vstd::std_specs::convert::FromSpecImpl<u8> for PointerEventType {
    open spec fn obeys_from_spec() -> bool {
        true
    }

    open spec fn from_spec(value: u8) -> PointerEventType {
        if value == 1 {
            PointerEventType::Button
        } else if value == 2 {
            PointerEventType::Scroll
        } else {
            PointerEventType::Motion
        }
    }
}

impl From<PointerEventType> for u8 {
    fn from(t: PointerEventType) -> (v: u8) {
        match t {
            PointerEventType::Motion => 0,
            PointerEventType::Button => 1,
            PointerEventType::Scroll => 2,
        }
    }
}

impl vstd::std_specs::convert::FromSpecImpl<PointerEventType> for u8 {
    open spec fn obeys_from_spec() -> bool {
        true
    }

    open spec fn from_spec(t: PointerEventType) -> u8 {
        pointer_event_type_code(t)
    }
}

/// State of a pointer button.
#[derive(Debug, Clone, Copy, PartialEq, Eq, Structural)]
pub enum ButtonState {
    Released,
    Pressed,
}

/// The byte that stands for each button state: 0 released, 1 pressed.
pub open spec fn button_state_code(t: ButtonState) -> u8 {
    match t {
        ButtonState::Released => 0,
        ButtonState::Pressed => 1,
    }
}

impl From<u8> for ButtonState {
    /// 1 is pressed; every other byte is read as released.
    fn from(value: u8) -> (t: ButtonState) {
        if value == 1 {
            ButtonState::Pressed
        } else {
            ButtonState::Released
        }
    }
}

impl vstd::std_specs::convert::FromSpecImpl<u8> for ButtonState {
    open spec fn obeys_from_spec() -> bool {
        true
    }

    open spec fn from_spec(value: u8) -> ButtonState {
        if value == 1 {
            ButtonState::Pressed
        } else {
            ButtonState::Released
        }
    }
}

impl From<ButtonState> for u8 {
    fn from(t: ButtonState) -> (v: u8) {
        match t {
            ButtonState::Released => 0,
            ButtonState::Pressed => 1,
        }
    }
}

impl vstd::std_specs::convert::FromSpecImpl<ButtonState> for u8 {
    open spec fn obeys_from_spec() -> bool {
        true
    }

    open spec fn from_spec(t: ButtonState) -> u8 {
        button_state_code(t)
    }
}

/// Each of these enums read back from its own byte gives itself again.
pub proof fn lemma_value_codes_roundtrip(f: FrameType, k: KeyState, p: PointerEventType, b: ButtonState)
    ensures
        <FrameType as vstd::std_specs::convert::FromSpec<u8>>::from_spec(frame_type_code(f)) == f,
        <KeyState as vstd::std_specs::convert::FromSpec<u8>>::from_spec(key_state_code(k)) == k,
        <PointerEventType as vstd::std_specs::convert::FromSpec<u8>>::from_spec(
            pointer_event_type_code(p),
        ) == p,
        <ButtonState as vstd::std_specs::convert::FromSpec<u8>>::from_spec(button_state_code(b))
            == b,
{
}

/// Error codes that the server reports.
#[derive(Debug, Clone, Copy, PartialEq, Eq, Structural)]
pub enum ErrorCode {
    MonitorNotFound,
    UnsupportedCodec,
    InvalidResolution,
    StreamFailed,
    RateLimited,
}

/// The number of each error code.
pub open spec fn error_code_value(c: ErrorCode) -> u8 {
    match c {
        ErrorCode::MonitorNotFound => 1,
        ErrorCode::UnsupportedCodec => 2,
        ErrorCode::InvalidResolution => 3,
        ErrorCode::StreamFailed => 4,
        ErrorCode::RateLimited => 5,
    }
}

impl ErrorCode {
    /// The number of this error code.
    pub fn to_u8(self) -> (v: u8)
        ensures
            v == error_code_value(self),
    {
        match self {
            ErrorCode::MonitorNotFound => 1,
            ErrorCode::UnsupportedCodec => 2,
            ErrorCode::InvalidResolution => 3,
            ErrorCode::StreamFailed => 4,
            ErrorCode::RateLimited => 5,
        }
    }

    /// The error code with the given number; numbers outside 1..=5 are
    /// refused with `UnknownErrorCode`.
    pub fn try_from(value: u8) -> (r: Result<ErrorCode, ProtocolError>)
        ensures
            1 <= value <= 5 ==> (r matches Ok(c) && error_code_value(c) == value),
            !(1 <= value <= 5) ==> r == Err::<ErrorCode, ProtocolError>(
                ProtocolError::UnknownErrorCode(value),
            ),
    {
        match value {
            1 => Ok(ErrorCode::MonitorNotFound),
            2 => Ok(ErrorCode::UnsupportedCodec),
            3 => Ok(ErrorCode::InvalidResolution),
            4 => Ok(ErrorCode::StreamFailed),
            5 => Ok(ErrorCode::RateLimited),
            _ => Err(ProtocolError::UnknownErrorCode(value)),
        }
    }
}

/// Opening message of the client.
#[derive(Debug, Clone)]
pub struct Hello {
    pub protocol_version: u16,
    pub client_name: String,
    pub supported_codecs: Vec<String>,
    pub max_width: u16,
    pub max_height: u16,
    pub max_fps: u8,
}

/// The server's answer to `Hello`.
#[derive(Debug, Clone)]
pub struct HelloAck {
    pub protocol_version: u16,
    pub server_name: String,
    pub selected_codec: String,
}

/// The monitors that the server offers.
#[derive(Debug, Clone)]
pub struct MonitorList {
    pub monitors: Vec<MonitorInfo>,
}

/// One monitor as the protocol describes it.
#[derive(Debug, Clone)]
pub struct MonitorInfo {
    pub name: String,
    pub width: u16,
    pub height: u16,
    pub refresh_rate: u8,
    pub is_primary: bool,
}

/// The client's choice of monitor.
#[derive(Debug, Clone)]
pub struct SelectMonitor {
    pub monitor_name: String,
    pub requested_width: Option<u16>,
    pub requested_height: Option<u16>,
    pub requested_fps: Option<u8>,
}

/// Parameters of a stream that begins.
#[derive(Debug, Clone)]
pub struct StreamStart {
    pub width: u16,
    pub height: u16,
    pub fps: u8,
    pub codec: String,
    pub profile: u8,
    pub level: u8,
}

/// One encoded video frame.
#[derive(Debug, Clone)]
pub struct VideoFrame {
    pub frame_type: FrameType,
    pub timestamp_us: u64,
    pub data: Vec<u8>,
}

/// Encoded audio.
#[derive(Debug, Clone)]
pub struct AudioData {
    pub timestamp_us: u64,
    pub data: Vec<u8>,
}

/// A key pressed or released.
#[derive(Debug, Clone)]
pub struct KeyEvent {
    pub key_code: u32,
    pub state: KeyState,
}

/// Pointer motion, button or scroll.
#[derive(Debug, Clone)]
pub struct PointerEvent {
    pub event_type: PointerEventType,
    pub x: Option<u16>,
    pub y: Option<u16>,
    pub button: Option<u8>,
    pub button_state: Option<ButtonState>,
    pub scroll_delta: Option<i16>,
}

/// Clipboard contents with their MIME type.
#[derive(Debug, Clone)]
pub struct ClipboardEvent {
    pub mime_type: String,
    pub data: Vec<u8>,
}

/// A request for another stream quality.
#[derive(Debug, Clone)]
pub struct QualityRequest {
    pub target_bitrate_kbps: Option<u16>,
    pub target_resolution: Option<(u16, u16)>,
    pub target_fps: Option<u8>,
}

/// Keep-alive from the client.
#[derive(Debug, Clone)]
pub struct Ping {
    pub timestamp_us: u64,
}

/// The server's answer to `Ping`.
#[derive(Debug, Clone)]
pub struct Pong {
    pub timestamp_us: u64,
    pub server_timestamp_us: u64,
}

/// Statistics of the running stream.
#[derive(Debug, Clone)]
pub struct StreamStats {
    pub current_bitrate_kbps: u16,
    pub current_width: u16,
    pub current_height: u16,
    pub current_fps: u8,
    pub dropped_frames: u32,
}

/// An error that the server reports to the client.
#[derive(Debug, Clone)]
pub struct Error {
    pub code: ErrorCode,
    pub message: String,
}

/// Messages from client to server.
#[derive(Debug, Clone)]
pub enum ClientMessage {
    Hello(Hello),
    SelectMonitor(SelectMonitor),
    KeyEvent(KeyEvent),
    PointerEvent(PointerEvent),
    ClipboardEvent(ClipboardEvent),
    QualityRequest(QualityRequest),
    Ping(Ping),
    PauseStream,
    ResumeStream,
}

/// Messages from server to client.
#[derive(Debug, Clone)]
pub enum ServerMessage {
    HelloAck(HelloAck),
    MonitorList(MonitorList),
    StreamStart(StreamStart),
    VideoFrame(VideoFrame),
    AudioData(AudioData),
    Pong(Pong),
    StreamStats(StreamStats),
    ErrorMessage(Error),
    ClipboardEvent(ClipboardEvent),
}

/// The type that each client message travels under.
pub open spec fn client_message_kind(m: ClientMessage) -> ClientMessageType {
    match m {
        ClientMessage::Hello(_) => ClientMessageType::Hello,
        ClientMessage::SelectMonitor(_) => ClientMessageType::SelectMonitor,
        ClientMessage::KeyEvent(_) => ClientMessageType::KeyEvent,
        ClientMessage::PointerEvent(_) => ClientMessageType::PointerEvent,
        ClientMessage::ClipboardEvent(_) => ClientMessageType::ClipboardEvent,
        ClientMessage::QualityRequest(_) => ClientMessageType::QualityRequest,
        ClientMessage::Ping(_) => ClientMessageType::Ping,
        ClientMessage::PauseStream => ClientMessageType::PauseStream,
        ClientMessage::ResumeStream => ClientMessageType::ResumeStream,
    }
}

/// The type that each server message travels under.
pub open spec fn server_message_kind(m: ServerMessage) -> ServerMessageType {
    match m {
        ServerMessage::HelloAck(_) => ServerMessageType::HelloAck,
        ServerMessage::MonitorList(_) => ServerMessageType::MonitorList,
        ServerMessage::StreamStart(_) => ServerMessageType::StreamStart,
        ServerMessage::VideoFrame(_) => ServerMessageType::VideoFrame,
        ServerMessage::AudioData(_) => ServerMessageType::AudioData,
        ServerMessage::Pong(_) => ServerMessageType::Pong,
        ServerMessage::StreamStats(_) => ServerMessageType::StreamStats,
        ServerMessage::ErrorMessage(_) => ServerMessageType::ProtocolError,
        ServerMessage::ClipboardEvent(_) => ServerMessageType::ClipboardEvent,
    }
}

impl ClientMessage {
    /// The type that this message travels under.
    pub fn message_type(&self) -> (t: ClientMessageType)
        ensures
            t == client_message_kind(*self),
    {
        match self {
            ClientMessage::Hello(_) => ClientMessageType::Hello,
            ClientMessage::SelectMonitor(_) => ClientMessageType::SelectMonitor,
            ClientMessage::KeyEvent(_) => ClientMessageType::KeyEvent,
            ClientMessage::PointerEvent(_) => ClientMessageType::PointerEvent,
            ClientMessage::ClipboardEvent(_) => ClientMessageType::ClipboardEvent,
            ClientMessage::QualityRequest(_) => ClientMessageType::QualityRequest,
            ClientMessage::Ping(_) => ClientMessageType::Ping,
            ClientMessage::PauseStream => ClientMessageType::PauseStream,
            ClientMessage::ResumeStream => ClientMessageType::ResumeStream,
        }
    }
}

impl ServerMessage {
    /// The type that this message travels under.
    pub fn message_type(&self) -> (t: ServerMessageType)
        ensures
            t == server_message_kind(*self),
    {
        match self {
            ServerMessage::HelloAck(_) => ServerMessageType::HelloAck,
            ServerMessage::MonitorList(_) => ServerMessageType::MonitorList,
            ServerMessage::StreamStart(_) => ServerMessageType::StreamStart,
            ServerMessage::VideoFrame(_) => ServerMessageType::VideoFrame,
            ServerMessage::AudioData(_) => ServerMessageType::AudioData,
            ServerMessage::Pong(_) => ServerMessageType::Pong,
            ServerMessage::StreamStats(_) => ServerMessageType::StreamStats,
            ServerMessage::ErrorMessage(_) => ServerMessageType::ProtocolError,
            ServerMessage::ClipboardEvent(_) => ServerMessageType::ClipboardEvent,
        }
    }
}

/// Errors of the protocol layer.
#[derive(Debug)]
pub enum ProtocolError {
    UnknownMessageType(u8),
    UnknownErrorCode(u8),
    Io(std::io::Error),
    Serialization(String),
    FrameTooLarge(usize),
}

/// `Display` of `std::io::Error`: the error's text. It comes from the
/// operating system, so nothing is stated of it.
#[verifier::external_body]
fn io_error_text(e: &std::io::Error) -> (t: String) {
    e.to_string()
}

/// `m` is the message of protocol error `e`. An I/O error's message is
/// `IO error: ` followed by the text of the underlying error.
pub open spec fn is_protocol_error_text(e: ProtocolError, m: Seq<char>) -> bool {
    match e {
        ProtocolError::UnknownMessageType(t) => m == "Unknown message type: "@ + decimal(t as nat),
        ProtocolError::UnknownErrorCode(c) => m == "Unknown error code: "@ + decimal(c as nat),
        ProtocolError::Io(_) => m.len() >= 10 && m.take(10) == "IO error: "@,
        ProtocolError::Serialization(s) => m == "Serialization error: "@ + s@,
        ProtocolError::FrameTooLarge(n) => m == "Frame too large: "@ + decimal(n as nat) + " bytes"@,
    }
}

impl ProtocolError {
    /// The message of the error.
    pub fn message(&self) -> (m: String)
        ensures
            is_protocol_error_text(*self, m@),
    {
        let mut m = String::new();
        match self {
            ProtocolError::UnknownMessageType(t) => {
                string_push_str(&mut m, "Unknown message type: ");
                push_decimal(&mut m, *t as u64);
            },
            ProtocolError::UnknownErrorCode(c) => {
                string_push_str(&mut m, "Unknown error code: ");
                push_decimal(&mut m, *c as u64);
            },
            ProtocolError::Io(e) => {
                string_push_str(&mut m, "IO error: ");
                let t = io_error_text(e);
                string_push_str(&mut m, t.as_str());
                proof {
                    reveal_strlit("IO error: ");
                    assert(m@.take(10) =~= "IO error: "@);
                }
            },
            ProtocolError::Serialization(s) => {
                string_push_str(&mut m, "Serialization error: ");
                string_push_str(&mut m, s.as_str());
            },
            ProtocolError::FrameTooLarge(n) => {
                string_push_str(&mut m, "Frame too large: ");
                push_decimal(&mut m, *n as u64);
                string_push_str(&mut m, " bytes");
            },
        }
        m
    }
}


/// The value of four bytes read as a big-endian unsigned integer.
pub open spec fn be_value(b0: u8, b1: u8, b2: u8, b3: u8) -> int {
    b0 * 16777216 + b1 * 65536 + b2 * 256 + b3
}

/// The four big-endian bytes of a `u32`.
pub open spec fn be_bytes(n: u32) -> Seq<u8> {
    seq![
        (n / 16777216) as u8,
        ((n / 65536) % 256) as u8,
        ((n / 256) % 256) as u8,
        (n % 256) as u8,
    ]
}

/// The payload length that the first four bytes of a frame announce.
pub open spec fn announced_len(s: Seq<u8>) -> int
    recommends
        s.len() >= 4,
{
    be_value(s[0], s[1], s[2], s[3])
}

/// A frame on the wire: the payload's length as a big-endian `u32` (truncated
/// to 32 bits), then the payload.
pub open spec fn frame_bytes(payload: Seq<u8>) -> Seq<u8> {
    be_bytes(payload.len() as u32) + payload
}

/// Reading a `u32` back from its big-endian bytes gives the `u32`.
pub proof fn lemma_be_roundtrip(n: u32)
    ensures
        be_value(be_bytes(n)[0], be_bytes(n)[1], be_bytes(n)[2], be_bytes(n)[3]) == n,
{
    let b0: u32 = n / 16777216;
    let b1: u32 = (n / 65536) % 256;
    let b2: u32 = (n / 256) % 256;
    let b3: u32 = n % 256;
    assert(b0 * 16777216 + b1 * 65536 + b2 * 256 + b3 == n && b0 < 256) by (bit_vector)
        requires
            b0 == n / 16777216,
            b1 == (n / 65536) % 256,
            b2 == (n / 256) % 256,
            b3 == n % 256,
    ;
}

/// Codec that splits a byte stream into length-prefixed frames and writes
/// frames onto one.
pub struct ProtocolCodec;

impl ProtocolCodec {
    /// Takes the next complete frame off the front of `src`.
    ///
    /// With fewer than four bytes, or fewer than the announced payload, nothing
    /// is taken and `Ok(None)` comes back; an announced length above
    /// `MAX_FRAME_SIZE` is refused and nothing is taken.
    pub fn decode(&mut self, src: &mut BytesMut) -> (r: Result<Option<BytesMut>, ProtocolError>)
        ensures
            ({
                let s = buffer_bytes(*old(src));
                if s.len() < 4 {
                    r matches Ok(None) && buffer_bytes(*final(src)) == s
                } else if announced_len(s) > MAX_FRAME_SIZE {
                    r == Err::<Option<BytesMut>, ProtocolError>(
                        ProtocolError::FrameTooLarge(announced_len(s) as usize),
                    ) && buffer_bytes(*final(src)) == s
                } else if s.len() < 4 + announced_len(s) {
                    r matches Ok(None) && buffer_bytes(*final(src)) == s
                } else {
                    &&& r matches Ok(Some(f)) && buffer_bytes(f) == s.subrange(
                        4,
                        4 + announced_len(s),
                    )
                    &&& buffer_bytes(*final(src)) == s.skip(4 + announced_len(s))
                }
            }),
    {
        let n = buffer_len(src);
        if n < 4 {
            return Ok(None);
        }
        let b0 = buffer_byte(src, 0);
        let b1 = buffer_byte(src, 1);
        let b2 = buffer_byte(src, 2);
        let b3 = buffer_byte(src, 3);
        let value: u32 = (b0 as u32) * 16777216 + (b1 as u32) * 65536 + (b2 as u32) * 256
            + (b3 as u32);
        let length = value as usize;
        if length > MAX_FRAME_SIZE {
            return Err(ProtocolError::FrameTooLarge(length));
        }
        if n < 4 + length {
            return Ok(None);
        }
        buffer_advance(src, 4);
        let frame = buffer_split_to(src, length);
        proof {
            let s = buffer_bytes(*old(src));
            assert(s.skip(4).take(length as int) =~= s.subrange(4, 4 + length));
            assert(s.skip(4).skip(length as int) =~= s.skip(4 + length));
        }
        Ok(Some(frame))
    }

    /// Appends `item` to `dst` as one frame: its length as a big-endian `u32`,
    /// then its bytes.
    pub fn encode(&mut self, item: BytesMut, dst: &mut BytesMut) -> (r: Result<(), ProtocolError>)
        requires
            buffer_bytes(*old(dst)).len() + 4 + buffer_bytes(item).len() <= isize::MAX,
        ensures
            r is Ok,
            buffer_bytes(*final(dst)) == buffer_bytes(*old(dst)) + frame_bytes(buffer_bytes(item)),
    {
        let len = buffer_len(&item);
        let length = len as u32;
        let header: [u8; 4] = [
            (length / 16777216) as u8,
            ((length / 65536) % 256) as u8,
            ((length / 256) % 256) as u8,
            (length % 256) as u8,
        ];
        buffer_reserve(dst, 4 + len);
        buffer_extend_from_slice(dst, header.as_slice());
        let body = buffer_to_vec(&item);
        buffer_extend_from_slice(dst, body.as_slice());
        proof {
            assert(header@ =~= be_bytes(length));
            assert(buffer_bytes(*final(dst)) =~= buffer_bytes(*old(dst)) + frame_bytes(
                buffer_bytes(item),
            ));
        }
        Ok(())
    }
}

/// A frame written by `encode` and followed by any further bytes is read back
/// by `decode` as the same payload, leaving the further bytes in place.
pub proof fn lemma_frame_roundtrip(payload: Seq<u8>, rest: Seq<u8>)
    requires
        payload.len() <= MAX_FRAME_SIZE,
    ensures
        ({
            let s = frame_bytes(payload) + rest;
            &&& s.len() >= 4
            &&& announced_len(s) == payload.len()
            &&& s.len() >= 4 + announced_len(s)
            &&& s.subrange(4, 4 + announced_len(s)) == payload
            &&& s.skip(4 + announced_len(s)) == rest
        }),
{
    let n = payload.len() as u32;
    lemma_be_roundtrip(n);
    let s = frame_bytes(payload) + rest;
    assert(s[0] == be_bytes(n)[0] && s[1] == be_bytes(n)[1] && s[2] == be_bytes(n)[2] && s[3]
        == be_bytes(n)[3]);
    assert(s.subrange(4, 4 + payload.len() as int) =~= payload);
    assert(s.skip(4 + payload.len() as int) =~= rest);
}


/// A message split into its type byte and the bytes that follow it.
pub open spec fn message_bytes(code: u8, payload: Seq<u8>) -> Seq<u8> {
    seq![code] + payload
}

/// The text of the error that an empty message gives.
pub open spec fn empty_message_text() -> Seq<char> {
    seq!['E', 'm', 'p', 't', 'y', ' ', 'm', 'e', 's', 's', 'a', 'g', 'e']
}

/// The error for a message with no type byte.
fn empty_message_error() -> (e: ProtocolError)
    ensures
        e matches ProtocolError::Serialization(t) && t@ == empty_message_text(),
{
    let mut t = String::new();
    let chars: [char; 13] = ['E', 'm', 'p', 't', 'y', ' ', 'm', 'e', 's', 's', 'a', 'g', 'e'];
    let mut i: usize = 0;
    while i < 13
        invariant
            0 <= i <= 13,
            t@ == chars@.take(i as int),
        decreases 13 - i,
    {
        crate::text::string_push(&mut t, chars[i]);
        proof {
            assert(chars@.take(i + 1) =~= chars@.take(i as int).push(chars@[i as int]));
        }
        i = i + 1;
    }
    proof {
        assert(chars@.take(13) =~= empty_message_text());
    }
    ProtocolError::Serialization(t)
}

/// Splits a received client message into its type and its payload bytes.
///
/// An empty message is refused with `Serialization("Empty message")`; a type
/// byte that names no client message type is refused with
/// `UnknownMessageType`.
pub fn parse_client_message(data: BytesMut) -> (r: Result<(ClientMessageType, Vec<u8>), ProtocolError>)
    ensures
        ({
            let s = buffer_bytes(data);
            if s.len() == 0 {
                r matches Err(ProtocolError::Serialization(t)) && t@ == empty_message_text()
            } else {
                match client_type_of_code(s[0]) {
                    None => r == Err::<(ClientMessageType, Vec<u8>), ProtocolError>(
                        ProtocolError::UnknownMessageType(s[0]),
                    ),
                    Some(t) => r matches Ok((u, p)) && u == t && p@ == s.skip(1),
                }
            }
        }),
{
    let mut data = data;
    if buffer_len(&data) == 0 {
        return Err(empty_message_error());
    }
    let code = buffer_get_u8(&mut data);
    let msg_type = ClientMessageType::try_from(code)?;
    let payload = buffer_to_vec(&data);
    Ok((msg_type, payload))
}

/// Splits a received server message into its type and its payload bytes.
///
/// An empty message is refused with `Serialization("Empty message")`; a type
/// byte that names no server message type is refused with
/// `UnknownMessageType`.
pub fn parse_server_message(data: BytesMut) -> (r: Result<(ServerMessageType, Vec<u8>), ProtocolError>)
    ensures
        ({
            let s = buffer_bytes(data);
            if s.len() == 0 {
                r matches Err(ProtocolError::Serialization(t)) && t@ == empty_message_text()
            } else {
                match server_type_of_code(s[0]) {
                    None => r == Err::<(ServerMessageType, Vec<u8>), ProtocolError>(
                        ProtocolError::UnknownMessageType(s[0]),
                    ),
                    Some(t) => r matches Ok((u, p)) && u == t && p@ == s.skip(1),
                }
            }
        }),
{
    let mut data = data;
    if buffer_len(&data) == 0 {
        return Err(empty_message_error());
    }
    let code = buffer_get_u8(&mut data);
    let msg_type = ServerMessageType::try_from(code)?;
    let payload = buffer_to_vec(&data);
    Ok((msg_type, payload))
}

/// Builds a client message: its type byte, then the payload bytes.
pub fn encode_client_message(msg_type: ClientMessageType, payload: &[u8]) -> (b: BytesMut)
    requires
        payload@.len() + 1 <= isize::MAX,
    ensures
        buffer_bytes(b) == message_bytes(client_type_code(msg_type), payload@),
{
    let mut buffer = buffer_new();
    buffer_put_u8(&mut buffer, msg_type.to_u8());
    buffer_extend_from_slice(&mut buffer, payload);
    proof {
        assert(buffer_bytes(buffer) =~= message_bytes(client_type_code(msg_type), payload@));
    }
    buffer
}

/// Builds a server message: its type byte, then the payload bytes.
pub fn encode_server_message(msg_type: ServerMessageType, payload: &[u8]) -> (b: BytesMut)
    requires
        payload@.len() + 1 <= isize::MAX,
    ensures
        buffer_bytes(b) == message_bytes(server_type_code(msg_type), payload@),
{
    let mut buffer = buffer_new();
    buffer_put_u8(&mut buffer, msg_type.to_u8());
    buffer_extend_from_slice(&mut buffer, payload);
    proof {
        assert(buffer_bytes(buffer) =~= message_bytes(server_type_code(msg_type), payload@));
    }
    buffer
}

/// A client message built by `encode_client_message` is split by
/// `parse_client_message` into the same type and payload.
pub proof fn lemma_client_message_roundtrip(t: ClientMessageType, payload: Seq<u8>)
    ensures
        ({
            let s = message_bytes(client_type_code(t), payload);
            &&& s.len() > 0
            &&& client_type_of_code(s[0]) == Some(t)
            &&& s.skip(1) == payload
        }),
{
    let s = message_bytes(client_type_code(t), payload);
    assert(s.skip(1) =~= payload);
}

/// A server message built by `encode_server_message` is split by
/// `parse_server_message` into the same type and payload.
pub proof fn lemma_server_message_roundtrip(t: ServerMessageType, payload: Seq<u8>)
    ensures
        ({
            let s = message_bytes(server_type_code(t), payload);
            &&& s.len() > 0
            &&& server_type_of_code(s[0]) == Some(t)
            &&& s.skip(1) == payload
        }),
{
    let s = message_bytes(server_type_code(t), payload);
    assert(s.skip(1) =~= payload);
}

} // verus!
