//! The local LAN backend.
use govee::backend::local::{
    bind_error, command_payload, handle_scan_response, multicast_addr, remark, validate_local_ip,
    DiscoveredDevice, DiscoveryWait, LocalBackend, QueryEnd, Remark, COMMAND_PORT, LISTEN_PORT,
};
use govee::backend::state::parse_dev_status;
use govee::backend::Command;
use govee::error::GoveeError;
use govee::json::Json;
use govee::net::{IpAddr, Ipv4Addr};
use govee::types::{BackendType, Color, DeviceId};

const SECOND: u128 = 1_000_000_000;

fn json(text: &str) -> Json {
    Json::parse(text.as_bytes()).unwrap()
}

fn ip(a: u8, b: u8, c: u8, d: u8) -> IpAddr {
    IpAddr::V4(Ipv4Addr::new(a, b, c, d))
}

fn scan(mac: &str, sku: &str) -> String {
    format!(r#"{{"msg":{{"cmd":"scan","data":{{"ip":"8.8.8.8","device":"{mac}","sku":"{sku}"}}}}}}"#)
}

/// A backend that has seen one device.
fn backend_with(mac: &str, address: IpAddr, now: u128) -> LocalBackend {
    let mut backend = LocalBackend::new(2 * SECOND, 10).unwrap();
    let r = backend.handle_packet(scan(mac, "H6076").as_bytes(), address, now);
    assert!(r.unwrap().is_none());
    backend
}

#[test]
fn parse_scan_response_json() {
    let data = json(
        r#"{
            "ip": "192.168.1.100",
            "device": "AA:BB:CC:DD:EE:FF:00:11",
            "sku": "H6076",
            "bleVersionHard": "1.0",
            "bleVersionSoft": "1.0",
            "wifiVersionHard": "1.0",
            "wifiVersionSoft": "1.0"
        }"#,
    );
    let found = handle_scan_response(&data, ip(192, 168, 1, 100), 7).unwrap();
    assert_eq!(found.ip, ip(192, 168, 1, 100));
    assert_eq!(found.device_id.as_str(), "AA:BB:CC:DD:EE:FF:00:11");
    assert_eq!(found.sku, "H6076");
    assert_eq!(found.last_seen, 7);
}

#[test]
fn scan_response_uses_the_source_address() {
    let backend = backend_with("aa:bb:cc:dd:ee:ff", ip(10, 0, 0, 7), 0);
    let id = DeviceId::new("AA:BB:CC:DD:EE:FF").unwrap();
    assert_eq!(backend.get_device_ip(&id).unwrap(), ip(10, 0, 0, 7));
}

#[test]
fn parse_dev_status_json() {
    let json = json(
        r#"{
            "onOff": 1,
            "brightness": 100,
            "color": {"r": 255, "g": 100, "b": 0},
            "colorTemInKelvin": 7200
        }"#,
    );

    let state = parse_dev_status(&json).unwrap();
    assert!(state.on);
    assert_eq!(state.brightness, 100);
    assert_eq!(state.color, Color::new(255, 100, 0));
    assert_eq!(state.color_temp_kelvin, Some(7200));
    assert!(!state.stale);
}

#[test]
fn parse_dev_status_off() {
    let json = json(
        r#"{
            "onOff": 0,
            "brightness": 50,
            "color": {"r": 0, "g": 0, "b": 0},
            "colorTemInKelvin": 0
        }"#,
    );

    let state = parse_dev_status(&json).unwrap();
    assert!(!state.on);
    assert_eq!(state.brightness, 50);
    // colorTemInKelvin: 0 is treated as absent (consistent with set_color_temp rejecting 0).
    assert_eq!(state.color_temp_kelvin, None);
}

#[test]
fn parse_dev_status_clamps_brightness() {
    let json = json(r#"{"onOff": 1, "brightness": 200, "color": {"r": 0, "g": 0, "b": 0}}"#);

    let state = parse_dev_status(&json).unwrap();
    assert_eq!(state.brightness, 100);
}

#[test]
fn parse_dev_status_clamps_color() {
    let json = json(r#"{"onOff": 1, "brightness": 50, "color": {"r": 300, "g": 500, "b": 999}}"#);

    let state = parse_dev_status(&json).unwrap();
    assert_eq!(state.color, Color::new(255, 255, 255));
}

#[test]
fn parse_dev_status_missing_color_temp() {
    let json = json(r#"{"onOff": 1, "brightness": 50, "color": {"r": 128, "g": 128, "b": 128}}"#);

    let state = parse_dev_status(&json).unwrap();
    assert_eq!(state.color_temp_kelvin, None);
}

#[test]
fn parse_dev_status_of_anything() {
    let state = parse_dev_status(&json("null")).unwrap();
    assert!(!state.on);
    assert_eq!(state.brightness, 0);
    assert_eq!(state.color, Color::new(0, 0, 0));
    let state = parse_dev_status(&json(
        r#"{"onOff": 2, "color": 5, "colorTemInKelvin": 4294967296}"#,
    ))
    .unwrap();
    assert!(!state.on);
    assert_eq!(state.color, Color::new(0, 0, 0));
    assert_eq!(state.color_temp_kelvin, None);
}

#[test]
fn cache_ttl_expiry() {
    let device_ttl = 30 * SECOND;
    let now = 100 * SECOND;

    // Fresh device: not expired.
    let fresh = DiscoveredDevice {
        ip: ip(192, 168, 1, 1),
        device_id: DeviceId::new("AA:BB:CC:DD:EE:FF").unwrap(),
        sku: "H6076".into(),
        last_seen: now,
    };
    assert!(!fresh.expired(now, device_ttl));
    assert!(!fresh.expired(now + device_ttl, device_ttl));
    assert!(fresh.expired(now + device_ttl + 1, device_ttl));
    assert!(!fresh.expired(0, 0));

    // Expired device: not seen for a minute.
    let expired = DiscoveredDevice {
        ip: ip(192, 168, 1, 2),
        device_id: DeviceId::new("11:22:33:44:55:66").unwrap(),
        sku: "H6076".into(),
        last_seen: now - 60 * SECOND,
    };
    assert!(expired.expired(now, device_ttl));
}

#[test]
fn discovered_device_to_device_conversion() {
    let discovered = DiscoveredDevice {
        ip: ip(192, 168, 1, 100),
        device_id: DeviceId::new("AA:BB:CC:DD:EE:FF:00:11").unwrap(),
        sku: "H6076".into(),
        last_seen: 0,
    };

    let device = discovered.to_device();

    assert_eq!(device.id.as_str(), "AA:BB:CC:DD:EE:FF:00:11");
    assert_eq!(device.model, "H6076");
    assert_eq!(device.name, "H6076");
    assert!(device.alias.is_none());
    assert_eq!(device.backend, BackendType::Local);
}

#[test]
fn set_power_payload_on() {
    let payload = command_payload(Command::Power(true));
    let msg = payload.get("msg").unwrap();
    assert_eq!(msg.get_str("cmd"), Some("turn"));
    assert_eq!(msg.get("data").unwrap().get_u64("value"), Some(1));
}

#[test]
fn set_power_payload_off() {
    let payload = command_payload(Command::Power(false));
    let msg = payload.get("msg").unwrap();
    assert_eq!(msg.get_str("cmd"), Some("turn"));
    assert_eq!(msg.get("data").unwrap().get_u64("value"), Some(0));
}

#[test]
fn set_brightness_payload() {
    let payload = command_payload(Command::Brightness(75));
    let msg = payload.get("msg").unwrap();
    assert_eq!(msg.get_str("cmd"), Some("brightness"));
    assert_eq!(msg.get("data").unwrap().get_u64("value"), Some(75));
}

#[test]
fn set_color_payload() {
    let payload = command_payload(Command::Color(Color::new(255, 128, 0)));
    let msg = payload.get("msg").unwrap();
    assert_eq!(msg.get_str("cmd"), Some("colorwc"));
    let data = msg.get("data").unwrap();
    assert_eq!(data.get("color").unwrap().get_u64("r"), Some(255));
    assert_eq!(data.get("color").unwrap().get_u64("g"), Some(128));
    assert_eq!(data.get("color").unwrap().get_u64("b"), Some(0));
    assert_eq!(data.get_u64("colorTemInKelvin"), Some(0));
}

#[test]
fn set_color_temp_payload() {
    let payload = command_payload(Command::ColorTemp(4500));
    let msg = payload.get("msg").unwrap();
    assert_eq!(msg.get_str("cmd"), Some("colorwc"));
    let data = msg.get("data").unwrap();
    assert_eq!(data.get("color").unwrap().get_u64("r"), Some(0));
    assert_eq!(data.get("color").unwrap().get_u64("g"), Some(0));
    assert_eq!(data.get("color").unwrap().get_u64("b"), Some(0));
    assert_eq!(data.get_u64("colorTemInKelvin"), Some(4500));
}

#[test]
fn command_datagrams() {
    let backend = backend_with("AA:BB:CC:DD:EE:FF", ip(10, 0, 0, 7), 0);
    let id = DeviceId::new("AA:BB:CC:DD:EE:FF").unwrap();
    let d = backend.set_power(&id, true).unwrap();
    assert_eq!(d.ip, ip(10, 0, 0, 7));
    assert_eq!(d.port, COMMAND_PORT);
    assert_eq!(d.bytes, br#"{"msg":{"cmd":"turn","data":{"value":1}}}"#);
    let d = backend.set_brightness(&id, 75).unwrap();
    assert_eq!(d.bytes, br#"{"msg":{"cmd":"brightness","data":{"value":75}}}"#);
    let d = backend.set_color(&id, Color::new(255, 128, 0)).unwrap();
    assert_eq!(
        d.bytes,
        br#"{"msg":{"cmd":"colorwc","data":{"color":{"b":0,"g":128,"r":255},"colorTemInKelvin":0}}}"#
    );
    let d = backend.set_color_temp(&id, 4500).unwrap();
    assert_eq!(
        d.bytes,
        br#"{"msg":{"cmd":"colorwc","data":{"color":{"b":0,"g":0,"r":0},"colorTemInKelvin":4500}}}"#
    );
    assert!(matches!(
        backend.set_brightness(&id, 101),
        Err(GoveeError::InvalidBrightness(101))
    ));
}

#[test]
fn commands_to_unknown_and_remote_devices() {
    let backend = backend_with("AA:BB:CC:DD:EE:FF", ip(8, 8, 8, 8), 0);
    let id = DeviceId::new("AA:BB:CC:DD:EE:FF").unwrap();
    assert!(matches!(
        backend.set_power(&id, true),
        Err(GoveeError::InvalidConfig(_))
    ));
    let other = DeviceId::new("AA:BB:CC:DD:EE:00").unwrap();
    match backend.set_power(&other, true) {
        Err(GoveeError::DeviceNotFound(t)) => assert_eq!(t, "AA:BB:CC:DD:EE:00"),
        other => panic!("unexpected {other:?}"),
    }
}

#[test]
fn ip_validation_private_accepted() {
    assert!(validate_local_ip(ip(192, 168, 1, 100)).is_ok());
}

#[test]
fn ip_validation_loopback_accepted() {
    assert!(validate_local_ip(ip(127, 0, 0, 1)).is_ok());
}

#[test]
fn ip_validation_link_local_accepted() {
    assert!(validate_local_ip(ip(169, 254, 1, 1)).is_ok());
}

#[test]
fn ip_validation_public_rejected() {
    let result = validate_local_ip(ip(8, 8, 8, 8));
    assert!(matches!(result, Err(GoveeError::InvalidConfig(_))));
}

#[test]
fn port_conflict_detection() {
    match bind_error(true, "address in use".to_string()) {
        GoveeError::BackendUnavailable(msg) => assert!(msg.contains("port 4002")),
        other => panic!("expected BackendUnavailable, got: {other:?}"),
    }
    assert_eq!(LISTEN_PORT, 4002);
}

#[test]
fn udp_loopback_discovery() {
    let mut backend = LocalBackend::new(200_000_000, 60).unwrap();
    assert!(backend.needs_discovery(0));

    let scan_response = br#"{
        "msg": {
            "cmd": "scan",
            "data": {
                "ip": "127.0.0.1",
                "device": "AA:BB:CC:DD:EE:FF:00:11",
                "sku": "H6076",
                "bleVersionHard": "1.0",
                "bleVersionSoft": "1.0",
                "wifiVersionHard": "1.0",
                "wifiVersionSoft": "1.0"
            }
        }
    }"#;
    backend
        .handle_packet(scan_response, ip(127, 0, 0, 1), 5)
        .unwrap();

    // The cache is not empty, so no scan is due.
    assert!(!backend.needs_discovery(5));
    let devices = backend.list_devices(5);
    assert_eq!(devices.len(), 1);
    assert_eq!(devices[0].id.as_str(), "AA:BB:CC:DD:EE:FF:00:11");
    assert_eq!(devices[0].model, "H6076");
    assert_eq!(devices[0].backend, BackendType::Local);

    let id = DeviceId::new("AA:BB:CC:DD:EE:FF:00:11").unwrap();
    assert_eq!(backend.get_device_ip(&id).unwrap(), ip(127, 0, 0, 1));
}

#[test]
fn expired_devices_are_forgotten() {
    // The interval is 10 s, so devices live for 30 s.
    let mut backend = backend_with("AA:BB:CC:DD:EE:01", ip(10, 0, 0, 1), 0);
    let later = scan("AA:BB:CC:DD:EE:02", "H6078");
    backend
        .handle_packet(later.as_bytes(), ip(10, 0, 0, 2), 20 * SECOND)
        .unwrap();
    assert_eq!(backend.list_devices(30 * SECOND).len(), 2);
    let left = backend.list_devices(31 * SECOND);
    assert_eq!(left.len(), 1);
    assert_eq!(left[0].id.as_str(), "AA:BB:CC:DD:EE:02");
    assert_eq!(backend.device_count(), 1);
    assert!(!backend.needs_discovery(50 * SECOND));
    assert!(backend.needs_discovery(50 * SECOND + 1));
    let id = DeviceId::new("AA:BB:CC:DD:EE:01").unwrap();
    assert!(backend.get_device_ip(&id).is_err());
}

#[test]
fn a_scan_refreshes_a_device() {
    let mut backend = backend_with("AA:BB:CC:DD:EE:01", ip(10, 0, 0, 1), 0);
    let again = scan("aa:bb:cc:dd:ee:01", "H6099");
    backend
        .handle_packet(again.as_bytes(), ip(10, 0, 0, 9), 25 * SECOND)
        .unwrap();
    let devices = backend.list_devices(50 * SECOND);
    assert_eq!(devices.len(), 1);
    assert_eq!(devices[0].model, "H6099");
    assert_eq!(backend.get_device_ip(&devices[0].id).unwrap(), ip(10, 0, 0, 9));
}

const STATUS: &[u8] = br#"{"msg":{"cmd":"devStatus","data":{"onOff":1,"brightness":42}}}"#;

#[test]
fn a_status_answers_the_query_for_its_source() {
    let address = ip(10, 0, 0, 7);
    let mut backend = backend_with("AA:BB:CC:DD:EE:FF", address, 0);
    let id = DeviceId::new("AA:BB:CC:DD:EE:FF").unwrap();
    // Nobody asked yet.
    assert!(backend.handle_packet(STATUS, address, 1).unwrap().is_none());

    let d = backend.begin_query(&id).unwrap();
    assert_eq!(d.ip, address);
    assert_eq!(d.port, 4003);
    assert_eq!(d.bytes, br#"{"msg":{"cmd":"devStatus","data":{}}}"#);
    match backend.begin_query(&id) {
        Err(GoveeError::BackendUnavailable(t)) => {
            assert_eq!(t, "concurrent state query already in progress for this device")
        }
        other => panic!("unexpected {other:?}"),
    }
    // Another address does not answer.
    assert!(backend
        .handle_packet(STATUS, ip(10, 0, 0, 8), 1)
        .unwrap()
        .is_none());
    let state = backend.handle_packet(STATUS, address, 1).unwrap().unwrap();
    assert!(state.on);
    assert_eq!(state.brightness, 42);
    let state = backend.end_query(address, QueryEnd::Answered(state)).unwrap();
    assert_eq!(state.brightness, 42);
    // The query is over: another may begin.
    assert!(backend.begin_query(&id).is_ok());
}

#[test]
fn a_query_that_fails_makes_way_for_another() {
    let address = ip(10, 0, 0, 7);
    let mut backend = backend_with("AA:BB:CC:DD:EE:FF", address, 0);
    let id = DeviceId::new("AA:BB:CC:DD:EE:FF").unwrap();
    backend.begin_query(&id).unwrap();
    assert!(matches!(
        backend.end_query(address, QueryEnd::TimedOut),
        Err(GoveeError::DiscoveryTimeout)
    ));
    backend.begin_query(&id).unwrap();
    match backend.end_query(address, QueryEnd::ReceiverStopped) {
        Err(GoveeError::BackendUnavailable(t)) => assert_eq!(t, "receiver task stopped"),
        other => panic!("unexpected {other:?}"),
    }
    backend.begin_query(&id).unwrap();
    match backend.end_query(address, QueryEnd::SendFailed("no route".into())) {
        Err(GoveeError::Udp(t)) => assert_eq!(t, "no route"),
        other => panic!("unexpected {other:?}"),
    }
    backend.begin_query(&id).unwrap();
}

#[test]
fn packets_that_break_the_protocol() {
    let mut backend = backend_with("AA:BB:CC:DD:EE:FF", ip(10, 0, 0, 7), 0);
    let mut error = |text: &str| {
        backend
            .handle_packet(text.as_bytes(), ip(10, 0, 0, 1), 1)
            .unwrap_err()
            .to_string()
    };
    assert_eq!(error("{}"), "protocol error: missing 'msg' field");
    assert_eq!(error(r#"{"msg":{}}"#), "protocol error: missing 'cmd' field");
    assert_eq!(error(r#"{"msg":{"cmd":5}}"#), "protocol error: missing 'cmd' field");
    assert_eq!(
        error(r#"{"msg":{"cmd":"scan"}}"#),
        "protocol error: missing 'data' in scan"
    );
    assert_eq!(
        error(r#"{"msg":{"cmd":"devStatus"}}"#),
        "protocol error: missing 'data' in devStatus"
    );
    assert_eq!(
        error(r#"{"msg":{"cmd":"scan","data":{"sku":"H"}}}"#),
        "protocol error: missing 'device' in scan"
    );
    assert_eq!(
        error(r#"{"msg":{"cmd":"scan","data":{"device":"x"}}}"#),
        "protocol error: missing 'sku' in scan"
    );
    assert_eq!(
        error(r#"{"msg":{"cmd":"scan","data":{"device":"x","sku":"H"}}}"#),
        "invalid device ID: x"
    );
    assert!(error("{not json").starts_with("serialization error: "));
    // Unknown commands are ignored, and nothing has changed.
    assert!(backend
        .handle_packet(br#"{"msg":{"cmd":"other"}}"#, ip(10, 0, 0, 1), 1)
        .unwrap()
        .is_none());
    assert_eq!(backend.device_count(), 1);
}

#[test]
fn local_backend_construction() {
    let err = LocalBackend::new(SECOND, 4).unwrap_err();
    assert_eq!(
        err.to_string(),
        "invalid config: discovery_interval_secs must be >= 5s, got 4s"
    );
    let backend = LocalBackend::new(SECOND, 5).unwrap();
    assert_eq!(backend.discovery_timeout(), SECOND);
    assert_eq!(
        backend.debug_text(),
        "LocalBackend { devices: 0, listen_port: 4002 }"
    );
}

#[test]
fn scan_request_and_wait() {
    let backend = LocalBackend::new(SECOND, 5).unwrap();
    let d = backend.discover();
    assert_eq!(d.ip, IpAddr::V4(multicast_addr()));
    assert_eq!(d.ip, ip(239, 255, 255, 250));
    assert_eq!(d.port, 4001);
    assert_eq!(
        d.bytes,
        br#"{"msg":{"cmd":"scan","data":{"account_topic":"reserve"}}}"#
    );

    let mut wait = DiscoveryWait::begin(10 * SECOND, SECOND, 0);
    assert_eq!(wait.next_sleep(10 * SECOND), Some(200_000_000));
    assert!(wait.go_on(1));
    assert_eq!(wait.next_sleep(10 * SECOND + 900_000_000), Some(100_000_000));
    assert!(wait.go_on(3));
    assert!(!wait.go_on(3));
    assert_eq!(wait.next_sleep(11 * SECOND), None);
}

#[test]
fn remarks_on_packets() {
    let note = |text: &str| remark(text.as_bytes());
    assert_eq!(
        note(r#"{"msg": {"cmd": "reboot", "data": {}}}"#),
        Some(Remark::UnknownCommand("reboot".to_string()))
    );
    assert_eq!(
        note(r#"{"msg": {"cmd": "scan", "data": {"device": "AA:BB:CC:DD:EE:FF", "sku": "H1", "ip": "1.2.3.4"}}}"#),
        Some(Remark::StatedAddress("1.2.3.4".to_string()))
    );
    assert_eq!(note(r#"{"msg": {"cmd": "scan", "data": {"device": "AA:BB:CC:DD:EE:FF", "sku": "H1"}}}"#), None);
    assert_eq!(note(r#"{"msg": {"cmd": "scan", "data": {"sku": "H1", "ip": "1.2.3.4"}}}"#), None);
    assert_eq!(note(r#"{"msg": {"cmd": "devStatus", "data": {}}}"#), None);
    assert_eq!(note(r#"{"msg": {}}"#), None);
    assert_eq!(note("no json"), None);
}
