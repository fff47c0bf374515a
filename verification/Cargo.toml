[package]
name = "remote_desktop"
version = "0.1.0"
edition = "2021"
publish = false

[dependencies]
bytes = "=1.12.1"
xxhash-rust = { version = "=0.8.19", features = ["xxh3"] }
bincode = "=1.3.3"
serde = { version = "=1.0.229", features = ["derive"] }
tokio = { version = "=1.54.1", features = ["full"] }
tokio-util = { version = "=0.7.20", features = ["codec"] }
futures-util = { version = "=0.3.34", features = ["sink"] }
clap = { version = "=4.6.7", features = ["derive"] }
tracing = "=0.1.44"
tracing-subscriber = { version = "=0.3.23", features = ["env-filter"] }
thiserror = "=1.0.69"
anyhow = "=1.0.104"
dirs = "=5.0.1"
toml = "=0.8.23"
serde_json = "=1.0.154"
which = "=6.0.3"
libc = "=0.2.191"
image = { version = "=0.25.10", default-features = false, features = ["png"] }
tempfile = "=3.27.0"
sdl2 = "=0.37.0"
ffmpeg-next = "=7.1.0"
pipewire = "=0.8.0"
xkbcommon = "=0.8.0"
wayland-client = "=0.31.15"
wayland-protocols-misc = { version = "=0.3.12", features = ["client"] }
wayland-protocols-wlr = { version = "=0.3.12", features = ["client"] }
ashpd = { version = "=0.13.13", features = ["screencast"] }
ksni = "=0.2.2"
