use fastshare::network::addr::IpAddress;
use fastshare::network::discovery::local_device_info;
use fastshare::security::auth::AuthManager;
use fastshare::ui::screens::{
    device_button_icon, device_icon, short_device_id, truncate_path, truncate_string, truncate_with_ellipsis, DevicesScreen, HomeScreen,
    ReceiveScreen, SendScreen,
};
use fastshare::ui::status::BackendStatus;
use fastshare::wifi_direct::hotspot::{
    password_from_bytes, ssid_from_uuid, HotspotController, HotspotStatus,
};
use fastshare::wifi_direct::peer_connection::{PeerConnectionManager, PeerConnectionStatus};

#[test]
fn hotspot_credentials() {
    assert_eq!(
        ssid_from_uuid("0123abcd-0000-4000-8000-000000000000"),
        "FastShare-0123abcd"
    );
    let mut bytes = [0u8; 16];
    bytes[0] = 0xde;
    bytes[1] = 0xad;
    bytes[2] = 0xbe;
    bytes[3] = 0xef;
    bytes[4] = 0x11;
    assert_eq!(password_from_bytes(&bytes), "deadbeef");
    let h = HotspotController::new();
    let c = h.config();
    assert!(c.ssid.starts_with("FastShare-"));
    assert_eq!(c.ssid.len(), 18);
    assert_eq!(c.password.len(), 8);
    assert!(c.password.chars().all(|ch| ch.is_ascii_hexdigit() && !ch.is_ascii_uppercase()));
    assert_eq!(c.host_ip, "192.168.49.1");
    assert_eq!(c.subnet, "255.255.255.0");
    assert_eq!(c.channel, 0);
    assert!(!c.active);
    assert_eq!(*h.status(), HotspotStatus::Inactive);
}

#[test]
fn hotspot_start_stop() {
    let mut h = HotspotController::with_credentials("s".to_string(), "p".to_string());
    h.start("linux");
    assert!(h.config().active);
    assert_eq!(*h.status(), HotspotStatus::Active);
    h.stop();
    assert!(!h.config().active);
    assert_eq!(*h.status(), HotspotStatus::Inactive);
    h.start("ios");
    assert!(!h.config().active);
    assert_eq!(
        *h.status(),
        HotspotStatus::Error("Platform API not yet integrated".to_string())
    );
}

#[test]
fn peer_connection_states() {
    let mut m = PeerConnectionManager::new();
    assert_eq!(*m.status(), PeerConnectionStatus::Disconnected);
    assert!(m.scan().is_empty());
    m.connect("FastShare-1", "pw");
    assert_eq!(*m.status(), PeerConnectionStatus::Connected);
    assert!(m.connected_peer().is_none());
    m.disconnect();
    assert_eq!(*m.status(), PeerConnectionStatus::Disconnected);
}

#[test]
fn screens() {
    assert_eq!(short_device_id("0123456789abcdef"), "01234567");
    let h = HomeScreen::from_parts("Box".to_string(), "0123456789", 3, "Idle".to_string());
    assert_eq!(h.device_id_short, "01234567");
    assert_eq!(h.nearby_count, 3);
    assert!(h.server_running);
    let mut r = ReceiveScreen::new();
    assert!(r.request.is_none());
    r.set_request(AuthManager::create_request("A", "a", "x.png", 1));
    assert_eq!(r.request.as_ref().unwrap().file_type, "image");
    let devs = vec![
        local_device_info("1".to_string(), "one".to_string(), IpAddress::V4(1), 1, "linux"),
        local_device_info("2".to_string(), "two".to_string(), IpAddress::V4(2), 2, "android"),
    ];
    let d = DevicesScreen::new(devs);
    assert!(d.get_device(0).is_none());
    assert_eq!(d.get_device(1).unwrap().device_name, "one");
    assert_eq!(d.get_device(2).unwrap().device_name, "two");
    assert!(d.get_device(3).is_none());
    assert_eq!(device_icon(&"tablet".to_string()), "📱");
    assert_eq!(device_icon(&"desktop".to_string()), "🖥️");
    assert_eq!(device_icon(&"toaster".to_string()), "📟");
}

#[test]
fn truncation() {
    assert_eq!(truncate_string("abc", 6), "abc   ");
    assert_eq!(truncate_string("abcdef", 6), "abcdef");
    assert_eq!(truncate_string("abcdefgh", 6), "abc...");
    assert_eq!(truncate_string("ééé", 5), "éé...");
    assert_eq!(truncate_string("éé", 5), "éé   ");
    for (s, w) in [("abc", 6usize), ("abcdefgh", 6), ("a long device name", 15)] {
        let expected = if s.len() <= w {
            format!("{:<width$}", s, width = w)
        } else {
            format!("{:.width$}...", s, width = w - 3)
        };
        assert_eq!(truncate_string(s, w), expected);
    }
}

#[test]
fn backend_status_taken_once() {
    let mut b = BackendStatus::new();
    assert_eq!(b.take_backend_status(), None);
    b.set_backend_status("one".to_string());
    b.set_backend_status("two".to_string());
    assert_eq!(b.take_backend_status(), Some("two".to_string()));
    assert_eq!(b.take_backend_status(), None);
}

#[test]
fn send_screen_selection() {
    let mut s = SendScreen::new();
    assert!(s.file_path.is_none());
    assert!(s.target_device.is_none());
    assert!(s.compression_enabled);
    assert_eq!(s.parallel_streams, 8);
    s.set_file("/tmp/a.bin".to_string(), "a.bin".to_string(), 42);
    assert_eq!(s.file_path.as_deref(), Some("/tmp/a.bin"));
    assert_eq!(s.file_name, "a.bin");
    assert_eq!(s.file_size, 42);
    s.set_target(local_device_info("9".to_string(), "nine".to_string(), IpAddress::V4(9), 5000, "macos"));
    assert_eq!(s.target_device.as_ref().unwrap().device_name, "nine");
    assert_eq!(s.file_name, "a.bin");
}

#[test]
fn path_truncation_keeps_the_end() {
    assert_eq!(truncate_path("/tmp/a.bin", 34), "/tmp/a.bin");
    assert_eq!(truncate_path("/home/user/documents/report.pdf", 15), "...s/report.pdf");
    assert_eq!(truncate_path("abcdefghij", 10), "abcdefghij");
    assert_eq!(truncate_path("abcdefghijk", 10), "...efghijk");
    assert_eq!(truncate_path("/données/é.txt", 12), "...es/é.txt");
}

#[test]
fn window_button_icons_ignore_case() {
    assert_eq!(device_button_icon("Android"), "📱");
    assert_eq!(device_button_icon("PHONE"), "📱");
    assert_eq!(device_button_icon("smartphone"), "📱");
    assert_eq!(device_button_icon("macOS"), "💻");
    assert_eq!(device_button_icon("Desktop"), "💻");
    assert_eq!(device_button_icon(""), "💻");
}

#[test]
fn history_columns_end_in_an_ellipsis() {
    assert_eq!(truncate_with_ellipsis("short", 12), "short       ");
    assert_eq!(truncate_with_ellipsis("exactly12chr", 12), "exactly12chr");
    assert_eq!(truncate_with_ellipsis("a_very_long_file_name.bin", 20), "a_very_long_file_na…");
    for (s, w) in [("abc", 6usize), ("abcdefgh", 6), ("Living Room Laptop", 12)] {
        let expected = if s.len() <= w {
            format!("{:<width$}", s, width = w)
        } else {
            format!("{:.width$}…", s, width = w - 1)
        };
        assert_eq!(truncate_with_ellipsis(s, w), expected);
    }
}

#[test]
fn hotspot_status_follows_active_over_starts_and_stops() {
    let mut h = HotspotController::with_credentials("s".to_string(), "p".to_string());
    let agrees = |h: &HotspotController| (*h.status() == HotspotStatus::Active) == h.config().active;
    assert!(agrees(&h));
    for os in ["linux", "windows", "macos", "linux"] {
        h.start(os);
        assert!(agrees(&h));
        assert_eq!(*h.status(), HotspotStatus::Active);
        h.stop();
        assert!(agrees(&h));
        assert_eq!(*h.status(), HotspotStatus::Inactive);
    }
    h.start("macos");
    h.start("windows");
    assert!(agrees(&h));
}
