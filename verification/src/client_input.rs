//! Client-side input: SDL2 events turned into protocol messages.

use vstd::prelude::*;
use crate::{evdev, scancodes};
use crate::protocol::{ButtonState, ClientMessage, KeyEvent, KeyState, PointerEvent, PointerEventType};

verus! {

/// The Linux evdev key code of an SDL2 (USB HID) scancode on a US QWERTY
/// layout, for the keys that the client forwards.
pub open spec fn evdev_of_scancode(scancode: u32) -> Option<u32> {
    match scancode {
        4 => Some(30u32),
        5 => Some(48u32),
        6 => Some(46u32),
        7 => Some(32u32),
        8 => Some(18u32),
        9 => Some(33u32),
        10 => Some(34u32),
        11 => Some(35u32),
        12 => Some(23u32),
        13 => Some(36u32),
        14 => Some(37u32),
        15 => Some(38u32),
        16 => Some(50u32),
        17 => Some(49u32),
        18 => Some(24u32),
        19 => Some(25u32),
        20 => Some(16u32),
        21 => Some(19u32),
        22 => Some(31u32),
        23 => Some(20u32),
        24 => Some(22u32),
        25 => Some(47u32),
        26 => Some(17u32),
        27 => Some(45u32),
        28 => Some(21u32),
        29 => Some(44u32),
        30 => Some(2u32),
        31 => Some(3u32),
        32 => Some(4u32),
        33 => Some(5u32),
        34 => Some(6u32),
        35 => Some(7u32),
        36 => Some(8u32),
        37 => Some(9u32),
        38 => Some(10u32),
        39 => Some(11u32),
        40 => Some(28u32),
        41 => Some(1u32),
        42 => Some(14u32),
        43 => Some(15u32),
        44 => Some(57u32),
        45 => Some(12u32),
        46 => Some(13u32),
        47 => Some(26u32),
        48 => Some(27u32),
        49 => Some(43u32),
        51 => Some(39u32),
        52 => Some(40u32),
        53 => Some(41u32),
        54 => Some(51u32),
        55 => Some(52u32),
        56 => Some(53u32),
        58 => Some(59u32),
        59 => Some(60u32),
        60 => Some(61u32),
        61 => Some(62u32),
        62 => Some(63u32),
        63 => Some(64u32),
        64 => Some(65u32),
        65 => Some(66u32),
        66 => Some(67u32),
        67 => Some(68u32),
        68 => Some(87u32),
        69 => Some(88u32),
        73 => Some(110u32),
        74 => Some(102u32),
        75 => Some(104u32),
        76 => Some(111u32),
        77 => Some(107u32),
        78 => Some(109u32),
        79 => Some(106u32),
        80 => Some(105u32),
        81 => Some(108u32),
        82 => Some(103u32),
        224 => Some(29u32),
        225 => Some(42u32),
        226 => Some(56u32),
        227 => Some(125u32),
        228 => Some(97u32),
        229 => Some(54u32),
        230 => Some(100u32),
        231 => Some(126u32),
        70 => Some(99u32),
        71 => Some(70u32),
        72 => Some(119u32),
        57 => Some(58u32),
        83 => Some(69u32),
        _ => None,
    }
}

/// Each forwarded key is sent as the evdev code of the same physical key: the
/// USB HID usage that SDL2 reports for a key maps to the Linux key code of
/// that key, and no other scancode is forwarded.
pub proof fn lemma_scancodes_name_the_same_keys()
    ensures
        evdev_of_scancode(scancodes::A) == Some(evdev::KEY_A),
        evdev_of_scancode(scancodes::B) == Some(evdev::KEY_B),
        evdev_of_scancode(scancodes::C) == Some(evdev::KEY_C),
        evdev_of_scancode(scancodes::D) == Some(evdev::KEY_D),
        evdev_of_scancode(scancodes::E) == Some(evdev::KEY_E),
        evdev_of_scancode(scancodes::F) == Some(evdev::KEY_F),
        evdev_of_scancode(scancodes::G) == Some(evdev::KEY_G),
        evdev_of_scancode(scancodes::H) == Some(evdev::KEY_H),
        evdev_of_scancode(scancodes::I) == Some(evdev::KEY_I),
        evdev_of_scancode(scancodes::J) == Some(evdev::KEY_J),
        evdev_of_scancode(scancodes::K) == Some(evdev::KEY_K),
        evdev_of_scancode(scancodes::L) == Some(evdev::KEY_L),
        evdev_of_scancode(scancodes::M) == Some(evdev::KEY_M),
        evdev_of_scancode(scancodes::N) == Some(evdev::KEY_N),
        evdev_of_scancode(scancodes::O) == Some(evdev::KEY_O),
        evdev_of_scancode(scancodes::P) == Some(evdev::KEY_P),
        evdev_of_scancode(scancodes::Q) == Some(evdev::KEY_Q),
        evdev_of_scancode(scancodes::R) == Some(evdev::KEY_R),
        evdev_of_scancode(scancodes::S) == Some(evdev::KEY_S),
        evdev_of_scancode(scancodes::T) == Some(evdev::KEY_T),
        evdev_of_scancode(scancodes::U) == Some(evdev::KEY_U),
        evdev_of_scancode(scancodes::V) == Some(evdev::KEY_V),
        evdev_of_scancode(scancodes::W) == Some(evdev::KEY_W),
        evdev_of_scancode(scancodes::X) == Some(evdev::KEY_X),
        evdev_of_scancode(scancodes::Y) == Some(evdev::KEY_Y),
        evdev_of_scancode(scancodes::Z) == Some(evdev::KEY_Z),
        evdev_of_scancode(scancodes::NUM_1) == Some(evdev::KEY_1),
        evdev_of_scancode(scancodes::NUM_2) == Some(evdev::KEY_2),
        evdev_of_scancode(scancodes::NUM_3) == Some(evdev::KEY_3),
        evdev_of_scancode(scancodes::NUM_4) == Some(evdev::KEY_4),
        evdev_of_scancode(scancodes::NUM_5) == Some(evdev::KEY_5),
        evdev_of_scancode(scancodes::NUM_6) == Some(evdev::KEY_6),
        evdev_of_scancode(scancodes::NUM_7) == Some(evdev::KEY_7),
        evdev_of_scancode(scancodes::NUM_8) == Some(evdev::KEY_8),
        evdev_of_scancode(scancodes::NUM_9) == Some(evdev::KEY_9),
        evdev_of_scancode(scancodes::NUM_0) == Some(evdev::KEY_0),
        evdev_of_scancode(scancodes::RETURN) == Some(evdev::KEY_ENTER),
        evdev_of_scancode(scancodes::ESCAPE) == Some(evdev::KEY_ESC),
        evdev_of_scancode(scancodes::BACKSPACE) == Some(evdev::KEY_BACKSPACE),
        evdev_of_scancode(scancodes::TAB) == Some(evdev::KEY_TAB),
        evdev_of_scancode(scancodes::SPACE) == Some(evdev::KEY_SPACE),
        evdev_of_scancode(scancodes::MINUS) == Some(evdev::KEY_MINUS),
        evdev_of_scancode(scancodes::EQUALS) == Some(evdev::KEY_EQUAL),
        evdev_of_scancode(scancodes::LEFTBRACKET) == Some(evdev::KEY_LEFTBRACE),
        evdev_of_scancode(scancodes::RIGHTBRACKET) == Some(evdev::KEY_RIGHTBRACE),
        evdev_of_scancode(scancodes::BACKSLASH) == Some(evdev::KEY_BACKSLASH),
        evdev_of_scancode(scancodes::SEMICOLON) == Some(evdev::KEY_SEMICOLON),
        evdev_of_scancode(scancodes::APOSTROPHE) == Some(evdev::KEY_APOSTROPHE),
        evdev_of_scancode(scancodes::GRAVE) == Some(evdev::KEY_GRAVE),
        evdev_of_scancode(scancodes::COMMA) == Some(evdev::KEY_COMMA),
        evdev_of_scancode(scancodes::PERIOD) == Some(evdev::KEY_DOT),
        evdev_of_scancode(scancodes::SLASH) == Some(evdev::KEY_SLASH),
        evdev_of_scancode(scancodes::CAPSLOCK) == Some(evdev::KEY_CAPSLOCK),
        evdev_of_scancode(scancodes::F1) == Some(evdev::KEY_F1),
        evdev_of_scancode(scancodes::F2) == Some(evdev::KEY_F2),
        evdev_of_scancode(scancodes::F3) == Some(evdev::KEY_F3),
        evdev_of_scancode(scancodes::F4) == Some(evdev::KEY_F4),
        evdev_of_scancode(scancodes::F5) == Some(evdev::KEY_F5),
        evdev_of_scancode(scancodes::F6) == Some(evdev::KEY_F6),
        evdev_of_scancode(scancodes::F7) == Some(evdev::KEY_F7),
        evdev_of_scancode(scancodes::F8) == Some(evdev::KEY_F8),
        evdev_of_scancode(scancodes::F9) == Some(evdev::KEY_F9),
        evdev_of_scancode(scancodes::F10) == Some(evdev::KEY_F10),
        evdev_of_scancode(scancodes::F11) == Some(evdev::KEY_F11),
        evdev_of_scancode(scancodes::F12) == Some(evdev::KEY_F12),
        evdev_of_scancode(scancodes::PRINTSCREEN) == Some(evdev::KEY_SYSRQ),
        evdev_of_scancode(scancodes::SCROLLLOCK) == Some(evdev::KEY_SCROLLLOCK),
        evdev_of_scancode(scancodes::PAUSE) == Some(evdev::KEY_PAUSE),
        evdev_of_scancode(scancodes::INSERT) == Some(evdev::KEY_INSERT),
        evdev_of_scancode(scancodes::HOME) == Some(evdev::KEY_HOME),
        evdev_of_scancode(scancodes::PAGEUP) == Some(evdev::KEY_PAGEUP),
        evdev_of_scancode(scancodes::DELETE) == Some(evdev::KEY_DELETE),
        evdev_of_scancode(scancodes::END) == Some(evdev::KEY_END),
        evdev_of_scancode(scancodes::PAGEDOWN) == Some(evdev::KEY_PAGEDOWN),
        evdev_of_scancode(scancodes::RIGHT) == Some(evdev::KEY_RIGHT),
        evdev_of_scancode(scancodes::LEFT) == Some(evdev::KEY_LEFT),
        evdev_of_scancode(scancodes::DOWN) == Some(evdev::KEY_DOWN),
        evdev_of_scancode(scancodes::UP) == Some(evdev::KEY_UP),
        evdev_of_scancode(scancodes::NUMLOCKCLEAR) == Some(evdev::KEY_NUMLOCK),
        evdev_of_scancode(scancodes::LCTRL) == Some(evdev::KEY_LEFTCTRL),
        evdev_of_scancode(scancodes::LSHIFT) == Some(evdev::KEY_LEFTSHIFT),
        evdev_of_scancode(scancodes::LALT) == Some(evdev::KEY_LEFTALT),
        evdev_of_scancode(scancodes::LGUI) == Some(evdev::KEY_LEFTMETA),
        evdev_of_scancode(scancodes::RCTRL) == Some(evdev::KEY_RIGHTCTRL),
        evdev_of_scancode(scancodes::RSHIFT) == Some(evdev::KEY_RIGHTSHIFT),
        evdev_of_scancode(scancodes::RALT) == Some(evdev::KEY_RIGHTALT),
        evdev_of_scancode(scancodes::RGUI) == Some(evdev::KEY_RIGHTMETA),
        forall|s: u32|
            #![trigger evdev_of_scancode(s)]
            evdev_of_scancode(s) is Some ==> (scancodes::A <= s <= scancodes::NUMLOCKCLEAR && s != 50)
                || (scancodes::LCTRL <= s <= scancodes::RGUI),
{
}

/// Different keys are never sent as the same key code.
pub proof fn lemma_scancodes_distinct_keys(a: u32, b: u32)
    requires
        evdev_of_scancode(a) is Some,
        evdev_of_scancode(a) == evdev_of_scancode(b),
    ensures
        a == b,
{
}

/// Translates an SDL2 scancode to a Linux evdev key code; scancodes of keys
/// that are not forwarded give `None`.
pub fn sdl2_scancode_to_evdev(scancode: u32) -> (r: Option<u32>)
    ensures
        r == evdev_of_scancode(scancode),
{
    let code: u32 = match scancode {
        4 => 30,
        5 => 48,
        6 => 46,
        7 => 32,
        8 => 18,
        9 => 33,
        10 => 34,
        11 => 35,
        12 => 23,
        13 => 36,
        14 => 37,
        15 => 38,
        16 => 50,
        17 => 49,
        18 => 24,
        19 => 25,
        20 => 16,
        21 => 19,
        22 => 31,
        23 => 20,
        24 => 22,
        25 => 47,
        26 => 17,
        27 => 45,
        28 => 21,
        29 => 44,
        30 => 2,
        31 => 3,
        32 => 4,
        33 => 5,
        34 => 6,
        35 => 7,
        36 => 8,
        37 => 9,
        38 => 10,
        39 => 11,
        40 => 28,
        41 => 1,
        42 => 14,
        43 => 15,
        44 => 57,
        45 => 12,
        46 => 13,
        47 => 26,
        48 => 27,
        49 => 43,
        51 => 39,
        52 => 40,
        53 => 41,
        54 => 51,
        55 => 52,
        56 => 53,
        58 => 59,
        59 => 60,
        60 => 61,
        61 => 62,
        62 => 63,
        63 => 64,
        64 => 65,
        65 => 66,
        66 => 67,
        67 => 68,
        68 => 87,
        69 => 88,
        73 => 110,
        74 => 102,
        75 => 104,
        76 => 111,
        77 => 107,
        78 => 109,
        79 => 106,
        80 => 105,
        81 => 108,
        82 => 103,
        224 => 29,
        225 => 42,
        226 => 56,
        227 => 125,
        228 => 97,
        229 => 54,
        230 => 100,
        231 => 126,
        70 => 99,
        71 => 70,
        72 => 119,
        57 => 58,
        83 => 69,
        _ => {
            return None;
        },
    };
    Some(code)
}

/// An SDL2 input event, reduced to what the client forwards.
#[derive(Debug, Clone)]
pub enum SdlEvent {
    /// A key pressed or released.
    KeyEvent { scancode: u32, pressed: bool, modifiers: u16 },
    /// The mouse moved.
    MouseMotion { x: i32, y: i32, xrel: i32, yrel: i32 },
    /// A mouse button pressed or released.
    MouseButton { button: u8, pressed: bool, x: i32, y: i32 },
    /// The mouse wheel turned.
    MouseWheel { dx: i32, dy: i32 },
}

/// `v` limited to `lo..=hi`.
pub open spec fn clamp_int(v: int, lo: int, hi: int) -> int {
    if v < lo {
        lo
    } else if v > hi {
        hi
    } else {
        v
    }
}

/// A window position limited to the video's `width` by `height` pixels and
/// read as 16-bit coordinates.
pub open spec fn normalized(x: i32, y: i32, width: u32, height: u32) -> (u16, u16) {
    (clamp_int(x as int, 0, width - 1) as u16, clamp_int(y as int, 0, height - 1) as u16)
}

/// Limits a window position to the video's coordinates (`0..width` and
/// `0..height`), as 16-bit values.
pub fn normalize_position(x: i32, y: i32, width: u32, height: u32) -> (r: (u16, u16))
    requires
        1 <= width <= i32::MAX,
        1 <= height <= i32::MAX,
    ensures
        r == normalized(x, y, width, height),
{
    let max_x = width as i32 - 1;
    let max_y = height as i32 - 1;
    let nx = if x < 0 {
        0
    } else if x > max_x {
        max_x
    } else {
        x
    };
    let ny = if y < 0 {
        0
    } else if y > max_y {
        max_y
    } else {
        y
    };
    (nx as u16, ny as u16)
}

/// Turns SDL2 input events into protocol messages.
pub struct InputHandler;

impl InputHandler {
    /// The protocol message that an input event gives.
    ///
    /// A key event carries the evdev code of its scancode (none for keys that are
    /// not forwarded); motion and button events carry the position limited to the
    /// video; a wheel event carries 120 units per step of the vertical wheel.
    pub fn process_event(event: &SdlEvent, display_width: u32, display_height: u32) -> (r: Option<
        ClientMessage,
    >)
        requires
            (event is MouseMotion || event is MouseButton) ==> 1 <= display_width <= i32::MAX,
            (event is MouseMotion || event is MouseButton) ==> 1 <= display_height <= i32::MAX,
            event matches SdlEvent::MouseWheel { dy, .. } ==> i32::MIN <= dy * 120 <= i32::MAX,
        ensures
            match *event {
                SdlEvent::KeyEvent { scancode, pressed, .. } => match evdev_of_scancode(scancode) {
                    None => r is None,
                    Some(code) => r matches Some(ClientMessage::KeyEvent(k)) && k.key_code == code
                        && k.state == (if pressed {
                        KeyState::Pressed
                    } else {
                        KeyState::Released
                    }),
                },
                SdlEvent::MouseMotion { x, y, .. } => r matches Some(ClientMessage::PointerEvent(p))
                    && p.event_type == PointerEventType::Motion && p.x == Some(
                    normalized(x, y, display_width, display_height).0,
                ) && p.y == Some(normalized(x, y, display_width, display_height).1) && p.button is None
                    && p.button_state is None && p.scroll_delta is None,
                SdlEvent::MouseButton { button, pressed, x, y } => r matches Some(
                    ClientMessage::PointerEvent(p),
                ) && p.event_type == PointerEventType::Button && p.x == Some(
                    normalized(x, y, display_width, display_height).0,
                ) && p.y == Some(normalized(x, y, display_width, display_height).1) && p.button == Some(
                    button,
                ) && p.button_state == Some(
                    if pressed {
                        ButtonState::Pressed
                    } else {
                        ButtonState::Released
                    },
                ) && p.scroll_delta is None,
                SdlEvent::MouseWheel { dy, .. } => r matches Some(ClientMessage::PointerEvent(p))
                    && p.event_type == PointerEventType::Scroll && p.x is None && p.y is None
                    && p.button is None && p.button_state is None && p.scroll_delta == Some(
                    (dy * 120) as i16,
                ),
            },
    {
        match event {
            SdlEvent::KeyEvent { scancode, pressed, .. } => {
                let evdev_code = sdl2_scancode_to_evdev(*scancode)?;
                Some(
                    ClientMessage::KeyEvent(
                        KeyEvent {
                            key_code: evdev_code,
                            state: if *pressed {
                                KeyState::Pressed
                            } else {
                                KeyState::Released
                            },
                        },
                    ),
                )
            },
            SdlEvent::MouseMotion { x, y, .. } => {
                let (norm_x, norm_y) = normalize_position(*x, *y, display_width, display_height);
                Some(
                    ClientMessage::PointerEvent(
                        PointerEvent {
                            event_type: PointerEventType::Motion,
                            x: Some(norm_x),
                            y: Some(norm_y),
                            button: None,
                            button_state: None,
                            scroll_delta: None,
                        },
                    ),
                )
            },
            SdlEvent::MouseButton { button, pressed, x, y } => {
                let (norm_x, norm_y) = normalize_position(*x, *y, display_width, display_height);
                Some(
                    ClientMessage::PointerEvent(
                        PointerEvent {
                            event_type: PointerEventType::Button,
                            x: Some(norm_x),
                            y: Some(norm_y),
                            button: Some(*button),
                            button_state: Some(
                                if *pressed {
                                    ButtonState::Pressed
                                } else {
                                    ButtonState::Released
                                },
                            ),
                            scroll_delta: None,
                        },
                    ),
                )
            },
            SdlEvent::MouseWheel { dy, .. } => {
                let scaled: i32 = *dy * 120;
                let delta = scaled as i16;
                Some(
                    ClientMessage::PointerEvent(
                        PointerEvent {
                            event_type: PointerEventType::Scroll,
                            x: None,
                            y: None,
                            button: None,
                            button_state: None,
                            scroll_delta: Some(delta),
                        },
                    ),
                )
            },
        }
    }
}

/// The mouse buttons that SDL2 reports.
#[derive(Debug, Clone, Copy, PartialEq, Eq, Structural)]
pub enum MouseButtonKind {
    Left,
    Middle,
    Right,
    X1,
    X2,
    Unknown,
}

/// The protocol number of a mouse button: 1 left, 2 middle, 3 right, 4 and 5
/// the side buttons, 0 for any other.
pub fn mouse_button_number(button: MouseButtonKind) -> (n: u8)
    ensures
        n == (match button {
            MouseButtonKind::Left => 1u8,
            MouseButtonKind::Middle => 2u8,
            MouseButtonKind::Right => 3u8,
            MouseButtonKind::X1 => 4u8,
            MouseButtonKind::X2 => 5u8,
            MouseButtonKind::Unknown => 0u8,
        }),
{
    match button {
        MouseButtonKind::Left => 1,
        MouseButtonKind::Middle => 2,
        MouseButtonKind::Right => 3,
        MouseButtonKind::X1 => 4,
        MouseButtonKind::X2 => 5,
        MouseButtonKind::Unknown => 0,
    }
}

} // verus!
