use remote_desktop::error::CoreError;
use remote_desktop::monitor::{
    fallback_monitor, find_monitor, get_primary_monitor, monitors_from_connectors, parse_mode, sort_by_name,
    DrmConnector, MonitorInfo,
};

fn monitor(name: &str, connector: &str, primary: bool) -> MonitorInfo {
    MonitorInfo {
        name: name.to_string(),
        gpu_device: "/dev/dri/card0".to_string(),
        connector: connector.to_string(),
        resolution: (1920, 1080),
        refresh_rate: 60,
        is_primary: primary,
    }
}

#[test]
fn test_parse_mode() {
    assert_eq!(parse_mode("1920x1080"), (1920, 1080));
    assert_eq!(parse_mode("2560x1440"), (2560, 1440));
    assert_eq!(parse_mode("3840x2160"), (3840, 2160));
    assert_eq!(parse_mode("invalid"), (1920, 1080));
    assert_eq!(parse_mode(""), (1920, 1080));
}

#[test]
fn test_fallback_monitor() {
    let m = fallback_monitor();
    assert_eq!(m.name, "fallback-DP-1");
    assert_eq!(m.resolution, (1920, 1080));
    assert!(m.is_primary);
}

#[test]
fn test_find_monitor() {
    // Without DRM connectors the detected list is the fallback monitor.
    match find_monitor(vec![fallback_monitor()], "DP-1") {
        Ok(m) => {
            println!("Found monitor: {}", m.name);
            assert_eq!(m.name, "fallback-DP-1");
        }
        Err(e) => {
            println!("Find monitor error (expected in some environments): {:?}", e);
        }
    }
}

#[test]
fn test_get_primary() {
    match get_primary_monitor(vec![fallback_monitor()]) {
        Ok(m) => {
            println!("Primary monitor: {} (primary={})", m.name, m.is_primary);
            assert!(m.is_primary);
        }
        Err(e) => {
            println!("Get primary error (expected in some environments): {:?}", e);
        }
    }
}

#[test]
fn find_monitor_by_entry_or_connector() {
    let list = vec![monitor("card0-HDMI-A-1", "HDMI-A-1", false), monitor("card0-DP-2", "DP-2", true)];
    assert_eq!(find_monitor(list.clone(), "DP-2").unwrap().name, "card0-DP-2");
    assert_eq!(find_monitor(list.clone(), "card0-HDMI-A-1").unwrap().connector, "HDMI-A-1");
    match find_monitor(list, "VGA-1") {
        Err(CoreError::MonitorNotFound(n)) => assert_eq!(n, "VGA-1"),
        _ => panic!("Expected MonitorNotFound"),
    }
}

#[test]
fn primary_monitor_or_first() {
    let list = vec![monitor("a", "A", false), monitor("b", "B", true), monitor("c", "C", true)];
    assert_eq!(get_primary_monitor(list).unwrap().name, "b");
    // With none marked primary, the first monitor is taken.
    let list = vec![monitor("a", "A", false), monitor("b", "B", false)];
    assert_eq!(get_primary_monitor(list).unwrap().name, "a");
    match get_primary_monitor(Vec::new()) {
        Err(CoreError::NoMonitors) => {}
        _ => panic!("Expected NoMonitors"),
    }
}

#[test]
fn parse_mode_edge_cases() {
    assert_eq!(parse_mode("1280x"), (1280, 1080));
    assert_eq!(parse_mode("x720"), (1920, 720));
    assert_eq!(parse_mode("1024x768x60"), (1920, 1080));
}

#[test]
fn connectors_become_sorted_monitors() {
    let connectors = vec![
        DrmConnector { name: "card0-HDMI-A-1".to_string(), status: "connected\n".to_string(), modes: "1280x720\n".to_string() },
        DrmConnector { name: "card0-DP-1".to_string(), status: "connected\n".to_string(), modes: "2560x1440\n1920x1080\n".to_string() },
        DrmConnector { name: "card0-DP-2".to_string(), status: "disconnected\n".to_string(), modes: "".to_string() },
        DrmConnector { name: "version".to_string(), status: "connected\n".to_string(), modes: "".to_string() },
    ];
    let ms = monitors_from_connectors(&connectors);
    assert_eq!(ms.len(), 2);
    assert_eq!(ms[0].name, "card0-DP-1");
    assert_eq!(ms[0].connector, "DP-1");
    assert_eq!(ms[0].resolution, (2560, 1440));
    assert_eq!(ms[1].name, "card0-HDMI-A-1");
    let none = monitors_from_connectors(&Vec::new());
    assert_eq!(none.len(), 1);
    assert_eq!(none[0].name, "fallback-DP-1");
    let sorted = sort_by_name(vec![monitor("b", "B", false), monitor("a", "A", false)]);
    assert_eq!(sorted[0].name, "a");
}

#[test]
fn mode_text_reads_back() {
    assert_eq!(parse_mode("1280x720"), (1280, 720));
    assert_eq!(parse_mode("  3840x2160\n"), (3840, 2160));
    assert_eq!(parse_mode("\t0x4294967295 "), (0, 4294967295));
    assert_eq!(parse_mode("abcx720"), (1920, 720));
}

#[test]
fn test_enumerate_monitors() {
    // Without any connector read, the fallback monitor stands in.
    let ms = monitors_from_connectors(&Vec::new());
    println!("Found {} monitors:", ms.len());
    for m in &ms {
        println!(
            "  - {} ({}x{}@{}Hz) on {} (primary: {})",
            m.name, m.resolution.0, m.resolution.1, m.refresh_rate, m.gpu_device, m.is_primary
        );
    }
    assert!(!ms.is_empty(), "Should have at least one monitor");
}
