//! Input injection into the headless session and the screencast portal
//! session: event types, button and scroll translation, and what a portal
//! answer gives.

use vstd::prelude::*;
use std::sync::mpsc::Sender;
use crate::error::PortalError;
use crate::text::{join_path, joined_path, chars_of, decimal, push_decimal, string_from_chars, string_push_str, trim_chars, trim_ws};

verus! {

/// State of a key.
#[derive(Debug, Clone, Copy, PartialEq, Eq, Structural)]
pub enum KeyState {
    Pressed,
    Released,
}

/// State of a pointer button.
#[derive(Debug, Clone, Copy, PartialEq, Eq, Structural)]
pub enum ButtonState {
    Pressed,
    Released,
}

/// A key to inject, by evdev key code.
#[derive(Debug, Clone, Copy, PartialEq, Eq, Structural)]
pub struct KeyEvent {
    pub keycode: u32,
    pub state: KeyState,
}

/// Where injected input goes.
#[derive(Debug)]
pub enum InputBackend {
    HeadlessWayland { runtime_dir: String, wayland_display: String },
    Stub,
}

/// Linux input event codes of the mouse buttons.
pub const BTN_LEFT: u32 = 0x110;

pub const BTN_RIGHT: u32 = 0x111;

pub const BTN_MIDDLE: u32 = 0x112;

pub const BTN_SIDE: u32 = 0x113;

pub const BTN_EXTRA: u32 = 0x114;

/// The evdev code of a protocol button number: 1 left, 2 middle, 3 right,
/// 4 side, 5 extra.
pub open spec fn evdev_button(button: u32) -> Option<u32> {
    if button == 1 {
        Some(BTN_LEFT)
    } else if button == 2 {
        Some(BTN_MIDDLE)
    } else if button == 3 {
        Some(BTN_RIGHT)
    } else if button == 4 {
        Some(BTN_SIDE)
    } else if button == 5 {
        Some(BTN_EXTRA)
    } else {
        None
    }
}

/// The message for a button number without an evdev code.
pub open spec fn unsupported_button_text(button: u32) -> Seq<char> {
    "Unsupported pointer button: "@ + decimal(button as nat)
}

/// The evdev code of a protocol button number; other numbers are refused.
pub fn linux_pointer_button(button: u32) -> (r: Result<u32, PortalError>)
    ensures
        match evdev_button(button) {
            Some(code) => r == Ok::<u32, PortalError>(code),
            None => r matches Err(PortalError::Portal(m)) && m@ == unsupported_button_text(button),
        },
{
    match button {
        1 => Ok(BTN_LEFT),
        2 => Ok(BTN_MIDDLE),
        3 => Ok(BTN_RIGHT),
        4 => Ok(BTN_SIDE),
        5 => Ok(BTN_EXTRA),
        _ => {
            let mut m = String::new();
            string_push_str(&mut m, "Unsupported pointer button: ");
            push_decimal(&mut m, button as u64);
            Err(PortalError::Portal(m))
        },
    }
}

/// The sign of an integer.
pub open spec fn signum(v: int) -> int {
    if v > 0 {
        1
    } else if v < 0 {
        -1
    } else {
        0
    }
}

/// Wheel steps of a scroll amount at 120 units per step, rounded toward zero,
/// but at least one step in the scroll's direction.
pub open spec fn scroll_step_count(delta: i32) -> int {
    let steps = if delta >= 0 {
        delta / 120
    } else {
        -((-delta) / 120)
    };
    if steps == 0 {
        signum(delta as int)
    } else {
        steps
    }
}

/// Wheel steps of a scroll amount (120 units per step).
pub fn scroll_steps(delta: i32) -> (r: i32)
    ensures
        r == scroll_step_count(delta),
{
    let steps = delta / 120;
    if steps == 0 {
        if delta > 0 {
            1
        } else if delta < 0 {
            -1
        } else {
            0
        }
    } else {
        steps
    }
}

/// The XKB key code of an evdev key code: eight higher, held at `u32::MAX`.
pub fn xkb_keycode(keycode: u32) -> (r: u32)
    ensures
        r == if keycode as int + 8 > u32::MAX {
            u32::MAX as int
        } else {
            keycode + 8
        },
{
    if keycode > u32::MAX - 8 {
        u32::MAX
    } else {
        keycode + 8
    }
}

/// A Wayland event timestamp from milliseconds since start, held at
/// `u32::MAX`.
pub fn timestamp_from_millis(millis: u128) -> (r: u32)
    ensures
        r == if millis > u32::MAX {
            u32::MAX as int
        } else {
            millis as int
        },
{
    if millis > u32::MAX as u128 {
        u32::MAX
    } else {
        millis as u32
    }
}

/// The wheel steps of a scroll on each axis, horizontal then vertical: an
/// axis that does not move gets none.
pub fn scroll_axes(delta_x: i32, delta_y: i32) -> (r: (Option<i32>, Option<i32>))
    ensures
        r.0 == (if delta_x == 0 { None } else { Some(scroll_step_count(delta_x) as i32) }),
        r.1 == (if delta_y == 0 { None } else { Some(scroll_step_count(delta_y) as i32) }),
{
    let h = if delta_x == 0 { None } else { Some(scroll_steps(delta_x)) };
    let v = if delta_y == 0 { None } else { Some(scroll_steps(delta_y)) };
    (h, v)
}

/// The keymap text as the virtual keyboard takes it: ending in a NUL byte
/// (one is added when missing).
pub fn keymap_with_nul(bytes: Vec<u8>) -> (r: Vec<u8>)
    ensures
        bytes@.len() > 0 && bytes@.last() == 0 ==> r@ == bytes@,
        !(bytes@.len() > 0 && bytes@.last() == 0) ==> r@ == bytes@.push(0),
{
    let mut bytes = bytes;
    let n = bytes.len();
    if n == 0 || bytes[n - 1] != 0 {
        bytes.push(0);
    }
    bytes
}

/// The keymap size announced to the compositor, held at `u32::MAX`.
pub fn keymap_size(len: usize) -> (r: u32)
    ensures
        r == (if len > u32::MAX { u32::MAX as int } else { len as int }),
{
    if len > u32::MAX as usize {
        u32::MAX
    } else {
        len as u32
    }
}

/// The `wl_seat` version bound: the advertised one, at most 7.
pub fn seat_version(advertised: u32) -> (r: u32)
    ensures
        r == (if advertised <= 7 { advertised } else { 7 }),
{
    if advertised <= 7 {
        advertised
    } else {
        7
    }
}

/// A command for the thread that drives the virtual input devices.
pub enum InputCommand {
    Key(KeyEvent),
    Button { button: u32, state: ButtonState },
    Scroll { delta_x: i32, delta_y: i32 },
    Motion { x: u16, y: u16, width: u16, height: u16 },
}

/// `Sender::send`: hands a value to the receiving thread; fails when the
/// receiver is gone. Whether it fails depends on the other thread, so nothing
/// is stated about the outcome.
#[verifier::external_body]
fn channel_send(tx: &Sender<InputCommand>, command: InputCommand) -> (r: Result<(), ()>) {
    tx.send(command).map_err(|_| ())
}

/// The message for a command that the input thread can no longer take.
pub open spec fn input_gone_text() -> Seq<char> {
    "Headless input thread is no longer available"@
}

/// Hands input to the thread that drives the virtual devices of the headless
/// session; without such a thread (the stub backend) input is dropped.
pub struct InputHandler {
    backend: InputBackend,
    command_tx: Option<Sender<InputCommand>>,
    handed: Ghost<Seq<InputCommand>>,
}

impl InputHandler {
    /// Whether input reaches a device thread.
    pub closed spec fn is_connected(&self) -> bool {
        self.command_tx is Some
    }

    /// The channel to the device thread, if any.
    pub closed spec fn spec_sender(&self) -> Option<Sender<InputCommand>> {
        self.command_tx
    }

    /// The backend that input goes to.
    pub closed spec fn spec_backend(&self) -> InputBackend {
        self.backend
    }

    /// The commands handed to the device thread's channel so far, in order.
    pub closed spec fn handed_over(&self) -> Seq<InputCommand> {
        self.handed@
    }

    /// A handler for `backend` that sends to `command_tx`, if any.
    pub fn from_parts(backend: InputBackend, command_tx: Option<Sender<InputCommand>>) -> (h: InputHandler)
        ensures
            h.is_connected() == command_tx is Some,
            h.spec_sender() == command_tx,
            h.spec_backend() == backend,
            h.handed_over() == Seq::<InputCommand>::empty(),
    {
        InputHandler { backend, command_tx, handed: Ghost(Seq::empty()) }
    }

    /// A handler that drops all input.
    pub fn stub() -> (h: InputHandler)
        ensures
            !h.is_connected(),
            h.spec_sender() is None,
            h.spec_backend() == InputBackend::Stub,
            h.handed_over() == Seq::<InputCommand>::empty(),
    {
        InputHandler { backend: InputBackend::Stub, command_tx: None, handed: Ghost(Seq::empty()) }
    }

    /// Hands `command` to the device thread's channel, if there is one.
    fn send(&mut self, command: InputCommand) -> (r: Result<(), PortalError>)
        ensures
            final(self).spec_sender() == old(self).spec_sender(),
            final(self).spec_backend() == old(self).spec_backend(),
            old(self).is_connected() ==> final(self).handed_over() == old(self).handed_over().push(command),
            !old(self).is_connected() ==> final(self).handed_over() == old(self).handed_over(),
            !old(self).is_connected() ==> r is Ok,
            r matches Err(e) ==> (e matches PortalError::Portal(m) && m@ == input_gone_text()),
    {
        match &self.command_tx {
            Some(tx) => {
                let ghost handed = self.handed@.push(command);
                let sent = channel_send(tx, command);
                self.handed = Ghost(handed);
                match sent {
                    Ok(()) => Ok(()),
                    Err(()) => Err(PortalError::Portal(string_from_chars(
                        chars_of("Headless input thread is no longer available").as_slice(),
                    ))),
                }
            },
            None => Ok(()),
        }
    }

    /// Injects a key press or release: a connected handler hands the key to
    /// the device thread.
    pub fn send_key(&mut self, event: &KeyEvent) -> (r: Result<(), PortalError>)
        ensures
            final(self).spec_sender() == old(self).spec_sender(),
            final(self).spec_backend() == old(self).spec_backend(),
            old(self).is_connected() ==> final(self).handed_over() == old(self).handed_over().push(
                InputCommand::Key(*event),
            ),
            !old(self).is_connected() ==> final(self).handed_over() == old(self).handed_over(),
            !old(self).is_connected() ==> r is Ok,
            r matches Err(e) ==> (e matches PortalError::Portal(m) && m@ == input_gone_text()),
    {
        self.send(InputCommand::Key(*event))
    }

    /// The backend that input goes to.
    pub fn backend(&self) -> (b: InputBackend)
        ensures
            match (b, self.spec_backend()) {
                (
                    InputBackend::HeadlessWayland { runtime_dir: a, wayland_display: x },
                    InputBackend::HeadlessWayland { runtime_dir: c, wayland_display: y },
                ) => a@ == c@ && x@ == y@,
                (InputBackend::Stub, InputBackend::Stub) => true,
                _ => false,
            },
    {
        match &self.backend {
            InputBackend::HeadlessWayland { runtime_dir, wayland_display } => InputBackend::HeadlessWayland {
                runtime_dir: runtime_dir.clone(),
                wayland_display: wayland_display.clone(),
            },
            InputBackend::Stub => InputBackend::Stub,
        }
    }

    /// Injects pointer input: a connected handler hands the command to the
    /// device thread.
    pub fn send_pointer(&mut self, command: InputCommand) -> (r: Result<(), PortalError>)
        ensures
            final(self).spec_sender() == old(self).spec_sender(),
            final(self).spec_backend() == old(self).spec_backend(),
            old(self).is_connected() ==> final(self).handed_over() == old(self).handed_over().push(command),
            !old(self).is_connected() ==> final(self).handed_over() == old(self).handed_over(),
            !old(self).is_connected() ==> r is Ok,
            r matches Err(e) ==> (e matches PortalError::Portal(m) && m@ == input_gone_text()),
    {
        self.send(command)
    }
}

/// Opens screencast sessions at the desktop portal.
pub struct SessionManager;

impl SessionManager {
    /// A session manager.
    pub fn new() -> (m: SessionManager) {
        SessionManager
    }
}

/// Where the restore token is kept: `remote-desktop/restore_token.txt` in the
/// local data directory (`~/.local/share` when there is none).
pub open spec fn token_path_text(data_local_dir: Option<Seq<char>>) -> Seq<char> {
    let base = match data_local_dir {
        Some(d) => d,
        None => "~/.local/share"@,
    };
    joined_path(joined_path(base, "remote-desktop"@), "restore_token.txt"@)
}

/// The path of the restore token file.
pub fn token_path(data_local_dir: Option<&str>) -> (p: String)
    ensures
        p@ == token_path_text(match data_local_dir {
            Some(d) => Some(d@),
            None => None,
        }),
{
    let base: &str = match data_local_dir {
        Some(d) => d,
        None => "~/.local/share",
    };
    let dir = join_path(base, "remote-desktop");
    join_path(dir.as_str(), "restore_token.txt")
}

/// An authorised screencast session.
pub struct PortalSession {
    node_id: u32,
    restore_token: Option<String>,
}

impl PortalSession {
    pub closed spec fn spec_node_id(&self) -> u32 {
        self.node_id
    }

    pub closed spec fn spec_restore_token(&self) -> Option<Seq<char>> {
        match self.restore_token {
            Some(t) => Some(t@),
            None => None,
        }
    }

    /// The PipeWire node that carries the screen.
    pub fn pipewire_node_id(&self) -> (n: u32)
        ensures
            n == self.spec_node_id(),
    {
        self.node_id
    }

    /// Whether the session can still be used: a session, once opened, stays
    /// valid.
    pub fn is_active(&self) -> (r: bool)
        ensures
            r,
    {
        true
    }

    /// The token that restores the authorisation next time, if the portal gave
    /// one.
    pub fn restore_token(&self) -> (t: Option<&str>)
        ensures
            match self.spec_restore_token() {
                Some(s) => t matches Some(x) && x@ == s,
                None => t is None,
            },
    {
        match &self.restore_token {
            Some(s) => Some(s.as_str()),
            None => None,
        }
    }
}

/// The message for a portal answer without streams.
pub open spec fn no_streams_text() -> Seq<char> {
    "No streams returned from portal"@
}

/// The session that a portal answer gives: the node of its first stream and
/// its restore token; an answer without streams is refused.
pub fn session_from_streams(node_ids: &Vec<u32>, restore_token: Option<String>) -> (r: Result<PortalSession, PortalError>)
    ensures
        node_ids@.len() == 0 ==> (r matches Err(PortalError::Portal(m)) && m@ == no_streams_text()),
        node_ids@.len() > 0 ==> (r matches Ok(s) && s.spec_node_id() == node_ids@[0]
            && s.spec_restore_token() == match restore_token {
            Some(t) => Some(t@),
            None => None::<Seq<char>>,
        }),
{
    if node_ids.len() == 0 {
        return Err(PortalError::Portal(string_from_chars(chars_of("No streams returned from portal").as_slice())));
    }
    Ok(PortalSession { node_id: node_ids[0], restore_token })
}

/// Whether a restore token from the portal is to be saved: only a non-empty
/// one.
pub fn should_save_token(token: &str) -> (r: bool)
    ensures
        r == (token@.len() > 0),
{
    chars_of(token).len() > 0
}

/// The restore token that a token file holds: its trimmed text, unless that
/// is empty.
pub open spec fn token_in_file(content: Seq<char>) -> Option<Seq<char>> {
    if trim_ws(content).len() == 0 {
        None
    } else {
        Some(trim_ws(content))
    }
}

/// The restore token that a saved token file holds: its trimmed contents,
/// unless they are empty.
pub fn token_from_file(content: &str) -> (r: Option<String>)
    ensures
        match (r, token_in_file(content@)) {
            (Some(a), Some(b)) => a@ == b,
            (None, None) => true,
            _ => false,
        },
{
    let t = trim_chars(chars_of(content).as_slice());
    if t.len() == 0 {
        None
    } else {
        Some(string_from_chars(t.as_slice()))
    }
}

/// A token that the portal gave and that was saved is read back from its
/// file, unless it begins or ends with white space (the file is read
/// trimmed).
pub proof fn lemma_saved_token_reads_back(token: Seq<char>)
    requires
        token.len() > 0,
        trim_ws(token) == token,
    ensures
        token_in_file(token) == Some(token),
{
}

} // verus!
