//! SDL2 scancodes (USB HID usage IDs) of common keys.

use vstd::prelude::*;

verus! {

pub const A: u32 = 4;

pub const B: u32 = 5;

pub const C: u32 = 6;

pub const D: u32 = 7;

pub const E: u32 = 8;

pub const F: u32 = 9;

pub const G: u32 = 10;

pub const H: u32 = 11;

pub const I: u32 = 12;

pub const J: u32 = 13;

pub const K: u32 = 14;

pub const L: u32 = 15;

pub const M: u32 = 16;

pub const N: u32 = 17;

pub const O: u32 = 18;

pub const P: u32 = 19;

pub const Q: u32 = 20;

pub const R: u32 = 21;

pub const S: u32 = 22;

pub const T: u32 = 23;

pub const U: u32 = 24;

pub const V: u32 = 25;

pub const W: u32 = 26;

pub const X: u32 = 27;

pub const Y: u32 = 28;

pub const Z: u32 = 29;

pub const NUM_1: u32 = 30;

pub const NUM_2: u32 = 31;

pub const NUM_3: u32 = 32;

pub const NUM_4: u32 = 33;

pub const NUM_5: u32 = 34;

pub const NUM_6: u32 = 35;

pub const NUM_7: u32 = 36;

pub const NUM_8: u32 = 37;

pub const NUM_9: u32 = 38;

pub const NUM_0: u32 = 39;

pub const RETURN: u32 = 40;

pub const ESCAPE: u32 = 41;

pub const BACKSPACE: u32 = 42;

pub const TAB: u32 = 43;

pub const SPACE: u32 = 44;

pub const LCTRL: u32 = 224;

pub const LSHIFT: u32 = 225;

pub const LALT: u32 = 226;

pub const LGUI: u32 = 227;

pub const RCTRL: u32 = 228;

pub const RSHIFT: u32 = 229;

pub const RALT: u32 = 230;

pub const RGUI: u32 = 231;

pub const RIGHT: u32 = 79;

pub const LEFT: u32 = 80;

pub const DOWN: u32 = 81;

pub const UP: u32 = 82;

pub const F1: u32 = 58;

pub const F2: u32 = 59;

pub const F3: u32 = 60;

pub const F4: u32 = 61;

pub const F5: u32 = 62;

pub const F6: u32 = 63;

pub const F7: u32 = 64;

pub const F8: u32 = 65;

pub const F9: u32 = 66;

pub const F10: u32 = 67;

pub const F11: u32 = 68;

pub const F12: u32 = 69;

pub const MINUS: u32 = 45;

pub const EQUALS: u32 = 46;

pub const LEFTBRACKET: u32 = 47;

pub const RIGHTBRACKET: u32 = 48;

pub const BACKSLASH: u32 = 49;

pub const SEMICOLON: u32 = 51;

pub const APOSTROPHE: u32 = 52;

pub const GRAVE: u32 = 53;

pub const COMMA: u32 = 54;

pub const PERIOD: u32 = 55;

pub const SLASH: u32 = 56;

pub const CAPSLOCK: u32 = 57;

pub const PRINTSCREEN: u32 = 70;

pub const SCROLLLOCK: u32 = 71;

pub const PAUSE: u32 = 72;

pub const INSERT: u32 = 73;

pub const HOME: u32 = 74;

pub const PAGEUP: u32 = 75;

pub const DELETE: u32 = 76;

pub const END: u32 = 77;

pub const PAGEDOWN: u32 = 78;

pub const NUMLOCKCLEAR: u32 = 83;

} // verus!
