use vstd::prelude::*;

pub mod annexb;
pub mod buffer;
pub mod capture;
pub mod clipboard;
pub mod client_clipboard;
pub mod client_input;
pub mod client_session;
pub mod decoder;
pub mod encoder;
pub mod error;
pub mod evdev;
pub mod headless;
pub mod hosts;
pub mod monitor;
pub mod portal;
pub mod protocol;
pub mod quality;
pub mod scancodes;
pub mod server_session;
pub mod status;
pub mod text;
pub mod tray;
pub mod yuv;

