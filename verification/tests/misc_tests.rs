use remote_desktop::clipboard::{available_types, get_best_content, preferred_mime_type, ClipboardChange, ClipboardHandler};
use remote_desktop::headless::session_metadata_path;
use remote_desktop::hosts::{config_path, HostConfig};
use remote_desktop::error::PortalError;
use remote_desktop::portal::{session_from_streams, should_save_token, token_from_file, token_path};
use remote_desktop::status::{
    answer_is_yes, is_process_running, linger_enabled, missing_list, pid_file_path, pid_from_file, proc_stat_path,
    service_unit, tailscale_connected, tailscale_ip, x264_version, ServerStatus, DEFAULT_PORT,
};
use remote_desktop::tray::{dialog_entry, dialog_port, tray_action, TrayAction, TrayMessage};

#[test]
fn server_clipboard_watch_reports_new_content() {
    let mut c = ClipboardHandler::new();
    let change = ClipboardChange { mime_type: "text/plain".to_string(), data: b"abc".to_vec() };
    assert!(c.has_changed(Some(change.clone())));
    assert_eq!(c.current_hash(), Some(xxhash_rust::xxh3::xxh3_64(b"abc")));
    assert!(!c.has_changed(Some(change)));
    assert!(!c.has_changed(None));
    // Content set from a client is not echoed back.
    c.set_expected_hash(xxhash_rust::xxh3::xxh3_64(b"remote"), "text/html");
    let echo = ClipboardChange { mime_type: "text/html".to_string(), data: b"remote".to_vec() };
    assert!(!c.has_changed(Some(echo)));
}

#[test]
fn server_clipboard_poll_compares_type_too() {
    let mut c = ClipboardHandler::new();
    let plain = vec![Some(b"x".to_vec()), None, None];
    assert!(c.has_changed_poll(&plain));
    assert!(!c.has_changed_poll(&plain));
    let html = vec![None, Some(b"x".to_vec()), None];
    assert!(c.has_changed_poll(&html));
    assert!(!c.has_changed_poll(&vec![None, None, None]));
}

#[test]
fn best_content_prefers_text() {
    assert_eq!(preferred_mime_type(2), "image/png");
    let fetched = vec![Some(Vec::new()), Some(b"<b>".to_vec()), Some(vec![1])];
    assert_eq!(get_best_content(&fetched), Some(("text/html".to_string(), b"<b>".to_vec())));
    assert_eq!(get_best_content(&vec![None, None, None]), None);
}

#[test]
fn listed_clipboard_types() {
    assert_eq!(available_types("text/plain\n  \nimage/png \r\n"), vec!["text/plain".to_string(), "image/png".to_string()]);
    assert!(available_types("").is_empty());
}

#[test]
fn status_from_the_pid_file() {
    assert_eq!(pid_from_file(" 1234\n"), Some(1234));
    assert_eq!(pid_from_file("abc"), None);
    let (s, remove) = ServerStatus::from_pid(Some(1234), true);
    assert!(s.running && !remove);
    assert_eq!(s.pid, Some(1234));
    assert_eq!(s.port, DEFAULT_PORT);
    let (s, remove) = ServerStatus::from_pid(Some(1234), false);
    assert!(!s.running && remove);
    assert_eq!(s.pid, None);
    let (s, remove) = ServerStatus::from_pid(None, false);
    assert!(!s.running && !remove);
    assert_eq!(proc_stat_path(77), "/proc/77/stat");
    assert!(!is_process_running(u32::MAX));
}

#[test]
fn runtime_paths() {
    assert_eq!(pid_file_path(Some("/run/user/1000")), "/run/user/1000/remote-desktop-server.pid");
    assert_eq!(pid_file_path(None), "/tmp/remote-desktop-server.pid");
    assert_eq!(pid_file_path(Some("/run/")), "/run/remote-desktop-server.pid");
    assert_eq!(session_metadata_path(None), "/tmp/remote-desktop-headless-session.json");
    assert_eq!(token_path(Some("/home/a/.local/share")), "/home/a/.local/share/remote-desktop/restore_token.txt");
    assert_eq!(config_path(None), "~/.config/remote-desktop/hosts.toml");
}

#[test]
fn tailscale_and_setup_outputs() {
    let out = "# Health check\n100.101.102.103  desk  user@  linux  -\n100.1.1.1 other\n";
    assert_eq!(tailscale_ip(out).as_deref(), Some("100.101.102.103"));
    assert!(tailscale_connected(out));
    assert_eq!(tailscale_ip("Logged out.\n"), None);
    assert!(!tailscale_connected("Logged out."));
    assert!(linger_enabled("Linger=yes\n"));
    assert!(!linger_enabled("Linger=no\n"));
    assert_eq!(x264_version("x264 0.164.3108 31e19f9\nbuilt on ...").as_deref(), Some("0.164.3108 31e19f9"));
    assert_eq!(x264_version(""), None);
    assert!(answer_is_yes(" Yes\n"));
    assert!(answer_is_yes("y"));
    assert!(!answer_is_yes("yeah"));
    assert!(!answer_is_yes(""));
    assert_eq!(missing_list(&vec!["sway".to_string(), "grim".to_string()]), "sway, grim");
    let unit = service_unit("/usr/bin/remote-desktop-server");
    assert!(unit.contains("ExecStart=/usr/bin/remote-desktop-server start\n"));
    assert!(unit.starts_with("[Unit]\nDescription=WayScreenPass Headless Remote Desktop Server\n"));
}

#[test]
fn tray_actions_and_dialog_answers() {
    let hosts = vec![HostConfig::new("desk".to_string(), "desk.ts.net".to_string(), None)];
    match tray_action(&hosts, TrayMessage::Connect { index: 0 }) {
        TrayAction::Connect(h) => assert_eq!(h.address(), "desk.ts.net"),
        _ => panic!("Expected Connect"),
    }
    assert!(matches!(tray_action(&hosts, TrayMessage::Connect { index: 3 }), TrayAction::Ignore));
    assert!(matches!(tray_action(&hosts, TrayMessage::AddHost), TrayAction::AskNewHost));
    match tray_action(&hosts, TrayMessage::RemoveHost { index: 0 }) {
        TrayAction::Remove(i, n) => assert_eq!((i, n.as_str()), (0, "desk")),
        _ => panic!("Expected Remove"),
    }
    assert!(matches!(tray_action(&hosts, TrayMessage::Exit), TrayAction::Exit));
    assert_eq!(dialog_entry("  laptop \n").as_deref(), Some("laptop"));
    assert_eq!(dialog_entry("  \n"), None);
    assert_eq!(dialog_port("4000\n"), Some(4000));
    assert_eq!(dialog_port("70000"), None);
    assert_eq!(dialog_port(""), None);
}

#[test]
fn pid_file_reads_back_what_was_written() {
    for pid in [1u32, 42, 4242, u32::MAX] {
        assert_eq!(pid_from_file(&pid.to_string()), Some(pid));
    }
}

#[test]
fn restore_token_reads_back() {
    assert!(should_save_token("tok-123"));
    assert!(!should_save_token(""));
    assert_eq!(token_from_file("tok-123").as_deref(), Some("tok-123"));
    // The file is read trimmed, so surrounding white space is not kept.
    assert_eq!(token_from_file(" tok-123\n").as_deref(), Some("tok-123"));
    assert_eq!(token_from_file("  \n"), None);
}

#[test]
fn portal_sessions_from_streams() {
    let s = session_from_streams(&vec![57, 60], Some("tok".to_string())).unwrap();
    assert_eq!(s.pipewire_node_id(), 57);
    assert_eq!(s.restore_token(), Some("tok"));
    match session_from_streams(&Vec::new(), None) {
        Err(PortalError::Portal(m)) => assert_eq!(m, "No streams returned from portal"),
        _ => panic!("Expected a refusal"),
    }
}

#[test]
fn content_set_from_a_client_is_not_echoed() {
    let mut c = ClipboardHandler::new();
    c.expect_content(b"from client", "text/plain");
    assert_eq!(c.current_hash(), Some(xxhash_rust::xxh3::xxh3_64(b"from client")));
    let echo = ClipboardChange { mime_type: "text/plain".to_string(), data: b"from client".to_vec() };
    assert!(!c.has_changed(Some(echo)));
    assert!(!c.has_changed_poll(&vec![Some(b"from client".to_vec()), None, None]));
    let local = ClipboardChange { mime_type: "text/plain".to_string(), data: b"typed here".to_vec() };
    assert!(c.has_changed(Some(local)));
}
