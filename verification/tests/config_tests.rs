use remote_desktop::headless::{
    first_headless_output, is_headless_output_name, is_wayland_socket_name, new_wayland_socket, output_mode,
    split_launch_command, sway_socket_path, HeadlessSessionInfo,
};
use remote_desktop::hosts::{default_port, HostConfig, HostsConfig};
use remote_desktop::quality::{level_for_bitrate, QualityLevel};
use remote_desktop::tray::{menu_entries, MenuEntry, TrayMessage};

fn names(v: &[&str]) -> Vec<String> {
    v.iter().map(|s| s.to_string()).collect()
}

#[test]
fn host_addresses() {
    assert_eq!(default_port(), 3389);
    let h = HostConfig::new("desk".to_string(), "desk.ts.net".to_string(), None);
    assert_eq!(h.port, 3389);
    assert_eq!(h.address(), "desk.ts.net");
    let h = HostConfig::new("lab".to_string(), "10.0.0.2".to_string(), Some(4000));
    assert_eq!(h.address(), "10.0.0.2:4000");
}

#[test]
fn hosts_add_and_remove() {
    let mut cfg = HostsConfig::new();
    cfg.add_host(HostConfig::new("a".to_string(), "a.net".to_string(), None));
    cfg.add_host(HostConfig::new("b".to_string(), "b.net".to_string(), Some(1)));
    // A second host of the same name is not added.
    cfg.add_host(HostConfig::new("a".to_string(), "other.net".to_string(), None));
    assert_eq!(cfg.hosts.len(), 2);
    assert_eq!(cfg.hosts[0].hostname, "a.net");
    assert!(cfg.contains_name(&"b".to_string()));
    assert!(cfg.remove_host("a"));
    assert!(!cfg.remove_host("a"));
    assert_eq!(cfg.hosts.len(), 1);
    assert_eq!(cfg.hosts[0].name, "b");
}

#[test]
fn quality_levels() {
    assert_eq!(QualityLevel::Level0.resolution(), (1920, 1080));
    assert_eq!(QualityLevel::Level2.resolution(), (1600, 900));
    assert_eq!(QualityLevel::Level4.resolution(), (1024, 576));
    assert_eq!(QualityLevel::Level2.fps(), 30);
    assert_eq!(QualityLevel::Level3.fps(), 24);
    assert_eq!(QualityLevel::Level1.bitrate_kbps(), 5000);
    assert_eq!(QualityLevel::Level4.bitrate_kbps(), 1500);
    assert_eq!(QualityLevel::Level4.decrease(), QualityLevel::Level4);
    assert_eq!(QualityLevel::Level0.increase(), QualityLevel::Level0);
    assert_eq!(QualityLevel::Level2.decrease().increase(), QualityLevel::Level2);
    assert_eq!(level_for_bitrate(5000), QualityLevel::Level1);
    assert_eq!(level_for_bitrate(4999), QualityLevel::Level2);
    assert_eq!(level_for_bitrate(1999), QualityLevel::Level4);
    assert_eq!(level_for_bitrate(u16::MAX), QualityLevel::Level0);
}

#[test]
fn headless_session_names() {
    assert_eq!(sway_socket_path("/run/user/1000", 1000, 4242), "/run/user/1000/sway-ipc.1000.4242.sock");
    assert_eq!(output_mode(1920, 1080, 60), "1920x1080@60Hz");
    assert!(is_wayland_socket_name("wayland-1"));
    assert!(!is_wayland_socket_name("pulse"));
    assert!(is_headless_output_name("HEADLESS-2"));
    assert!(!is_headless_output_name("DP-1"));
    let before = names(&["wayland-0", "wayland-0.lock"]);
    let now = names(&["wayland-0", "wayland-0.lock", "wayland-1", "wayland-1.lock"]);
    assert_eq!(new_wayland_socket(&before, &now).as_deref(), Some("wayland-1"));
    assert_eq!(new_wayland_socket(&now, &now), None);
    assert_eq!(first_headless_output(&names(&["eDP-1", "HEADLESS-1"])).as_deref(), Some("HEADLESS-1"));
    assert_eq!(first_headless_output(&names(&["eDP-1"])), None);
}

#[test]
fn launch_commands() {
    assert_eq!(split_launch_command(&Vec::new()).unwrap_err(), "No command provided to launch");
    let (p, args) = split_launch_command(&names(&["foot", "-e", "htop"])).unwrap();
    assert_eq!(p, "foot");
    assert_eq!(args, names(&["-e", "htop"]));
}

#[test]
fn session_environment() {
    let s = HeadlessSessionInfo {
        compositor: "sway".to_string(),
        runtime_dir: "/run/user/1000".to_string(),
        wayland_display: "wayland-1".to_string(),
        sway_socket: "/run/user/1000/sway.sock".to_string(),
        output_name: "HEADLESS-1".to_string(),
        width: 1920,
        height: 1080,
        refresh_rate: 60,
    };
    let env = s.command_environment();
    assert_eq!(env.len(), 7);
    assert_eq!(env[0], ("XDG_RUNTIME_DIR".to_string(), "/run/user/1000".to_string()));
    assert_eq!(env[1], ("WAYLAND_DISPLAY".to_string(), "wayland-1".to_string()));
    assert_eq!(env[6], ("QT_QPA_PLATFORM".to_string(), "wayland".to_string()));
}

#[test]
fn tray_menu_lists_hosts() {
    let empty = menu_entries(&Vec::new());
    assert_eq!(empty.len(), 5);
    match &empty[0] {
        MenuEntry::Standard(i) => {
            assert_eq!(i.label, "No saved hosts");
            assert!(!i.enabled);
        }
        _ => panic!("Expected a placeholder entry"),
    }
    let hosts = vec![HostConfig::new("desk".to_string(), "desk.ts.net".to_string(), Some(4000))];
    let menu = menu_entries(&hosts);
    assert_eq!(menu.len(), 6);
    match &menu[0] {
        MenuEntry::Standard(i) => {
            assert_eq!(i.label, "desk (desk.ts.net)");
            assert_eq!(i.action, Some(TrayMessage::Connect { index: 0 }));
        }
        _ => panic!("Expected a host entry"),
    }
    match &menu[3] {
        MenuEntry::SubMenu { label, items, .. } => {
            assert_eq!(label, "Remove Host");
            assert_eq!(items[0].action, Some(TrayMessage::RemoveHost { index: 0 }));
        }
        _ => panic!("Expected the remove submenu"),
    }
    match &menu[5] {
        MenuEntry::Standard(i) => assert_eq!(i.action, Some(TrayMessage::Exit)),
        _ => panic!("Expected Quit"),
    }
}
