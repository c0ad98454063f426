//! Devices, identifiers, colors and states.
use govee::decode::{FromJson, ToJson};
use govee::error::GoveeError;
use govee::json::Json;
use govee::types::{BackendType, Color, Device, DeviceId, DeviceState};

fn json(text: &str) -> Json {
    Json::parse(text.as_bytes()).unwrap()
}

// DeviceId tests

#[test]
fn device_id_valid_6_octet() {
    let id = DeviceId::new("aa:bb:cc:dd:ee:ff").unwrap();
    assert_eq!(id.as_str(), "AA:BB:CC:DD:EE:FF");
}

#[test]
fn device_id_valid_8_octet() {
    let id = DeviceId::new("AA:BB:CC:DD:EE:FF:00:11").unwrap();
    assert_eq!(id.as_str(), "AA:BB:CC:DD:EE:FF:00:11");
}

#[test]
fn device_id_normalizes_to_uppercase() {
    let id = DeviceId::new("ab:cd:ef:01:23:45").unwrap();
    assert_eq!(id.to_string(), "AB:CD:EF:01:23:45");
}

#[test]
fn device_id_invalid_format() {
    assert!(DeviceId::new("not-a-mac").is_err());
    assert!(DeviceId::new("AA:BB:CC").is_err());
    assert!(DeviceId::new("GG:HH:II:JJ:KK:LL").is_err());
    assert!(DeviceId::new("AA:BB:CC:DD:EE:FF:00").is_err()); // 7 octets
}

#[test]
fn device_id_equality() {
    let a = DeviceId::new("aa:bb:cc:dd:ee:ff").unwrap();
    let b = DeviceId::new("AA:BB:CC:DD:EE:FF").unwrap();
    assert_eq!(a, b);
}

#[test]
fn device_id_from_str() {
    let id: DeviceId = "AA:BB:CC:DD:EE:FF".parse().unwrap();
    assert_eq!(id.as_str(), "AA:BB:CC:DD:EE:FF");
}

#[test]
fn device_id_into_string() {
    let id = DeviceId::new("AA:BB:CC:DD:EE:FF").unwrap();
    let s: String = id.into();
    assert_eq!(s, "AA:BB:CC:DD:EE:FF");
}

#[test]
fn device_id_from_string_and_again() {
    let id = DeviceId::try_from("aa:bb:cc:dd:ee:ff".to_string()).unwrap();
    let again = DeviceId::new(id.as_str()).unwrap();
    assert_eq!(id, again);
    assert_eq!(id.clone(), again);
    assert!(DeviceId::try_from("aa-bb-cc-dd-ee-ff".to_string()).is_err());
}

#[test]
fn device_id_error_names_the_text() {
    match DeviceId::new("AA:BB:CC:DD:EE:F") {
        Err(GoveeError::InvalidDeviceId(t)) => assert_eq!(t, "AA:BB:CC:DD:EE:F"),
        other => panic!("unexpected {other:?}"),
    }
    assert!(DeviceId::new("").is_err());
    assert!(DeviceId::new("AA.BB.CC.DD.EE.FF").is_err());
    assert!(DeviceId::new("AA:BB:CC:DD:EE:F\u{e9}").is_err());
}

// Brightness validation tests

#[test]
fn device_state_valid_brightness() {
    let state = DeviceState::new(true, 50, Color::new(255, 0, 0), None, false);
    assert!(state.is_ok());
    assert_eq!(state.unwrap().brightness, 50);
}

#[test]
fn device_state_brightness_boundary() {
    assert!(DeviceState::new(true, 0, Color::new(0, 0, 0), None, false).is_ok());
    assert!(DeviceState::new(true, 100, Color::new(0, 0, 0), None, false).is_ok());
    assert!(DeviceState::new(true, 101, Color::new(0, 0, 0), None, false).is_err());
}

#[test]
fn device_state_error_has_the_brightness() {
    let err = DeviceState::new(true, 101, Color::new(0, 0, 0), None, false).unwrap_err();
    assert!(matches!(err, GoveeError::InvalidBrightness(101)));
    assert_eq!(err.to_string(), "brightness must be 0\u{2013}100, got 101");
}

// Color tests

#[test]
fn color_display() {
    let c = Color::new(255, 128, 0);
    assert_eq!(c.to_string(), "#FF8000");
}

#[test]
fn color_packs_into_24_bits_and_back() {
    let c = Color::new(255, 128, 0);
    assert_eq!(c.to_rgb24(), 16744448);
    assert_eq!(Color::from_rgb24(16744448), c);
    assert_eq!(Color::from_rgb24(0x1_00FF_8000), c);
    assert_eq!(Color::new(1, 2, 3).to_rgb24(), 0x010203);
    assert_eq!(Color::from_rgb24(0x010203).to_string(), "#010203");
}

#[test]
fn color_reads_back_as_written() {
    let c = Color::new(9, 200, 41);
    assert_eq!(Color::from_json(&c.to_json()), Some(c));
    assert_eq!(Color::from_json(&json(r#"{"r":256,"g":0,"b":0}"#)), None);
    assert_eq!(Color::from_json(&json(r#"{"r":1,"g":0}"#)), None);
}

// BackendType tests

#[test]
fn backend_type_display() {
    assert_eq!(BackendType::Cloud.to_string(), "cloud");
    assert_eq!(BackendType::Local.to_string(), "local");
}

#[test]
fn device_clone_is_the_same() {
    let device = Device {
        id: DeviceId::new("AA:BB:CC:DD:EE:FF").unwrap(),
        model: "H6076".to_string(),
        name: "Kitchen".to_string(),
        alias: Some("k".to_string()),
        backend: BackendType::Local,
    };
    let copy = device.clone();
    assert_eq!(copy.id, device.id);
    assert_eq!(copy.model, "H6076");
    assert_eq!(copy.name, "Kitchen");
    assert_eq!(copy.alias.as_deref(), Some("k"));
    assert_eq!(copy.backend, BackendType::Local);
}

// Values in JSON documents

#[test]
fn device_id_deserialize_validates() {
    let valid = DeviceId::from_json(&json(r#""AA:BB:CC:DD:EE:FF""#));
    assert!(valid.is_some());
    assert_eq!(valid.unwrap().as_str(), "AA:BB:CC:DD:EE:FF");

    let invalid = DeviceId::from_json(&json(r#""not-a-mac""#));
    assert!(invalid.is_none());
}

#[test]
fn device_state_deserialize_validates_brightness() {
    let valid = DeviceState::from_json(&json(
        r#"{"on":true,"brightness":50,"color":{"r":255,"g":0,"b":0},"color_temp_kelvin":null,"stale":false}"#,
    ));
    assert!(valid.is_some());
    let state = valid.unwrap();
    assert!(state.on);
    assert_eq!(state.color, Color::new(255, 0, 0));

    let invalid = DeviceState::from_json(&json(
        r#"{"on":true,"brightness":150,"color":{"r":255,"g":0,"b":0},"color_temp_kelvin":null,"stale":false}"#,
    ));
    assert!(invalid.is_none());
}

#[test]
fn backend_type_serde_lowercase() {
    let bytes = BackendType::Cloud.to_json().to_bytes().unwrap();
    assert_eq!(bytes, br#""cloud""#);

    let parsed = BackendType::from_json(&json(r#""local""#)).unwrap();
    assert_eq!(parsed, BackendType::Local);
    assert_eq!(BackendType::from_json(&json(r#""Local""#)), None);
}

#[test]
fn devices_and_states_read_back_as_written() {
    for text in [
        r#"{"alias":null,"backend":"cloud","id":"AA:BB:CC:DD:EE:FF","model":"H6076","name":"Lamp"}"#,
        r#"{"alias":"desk","backend":"local","id":"AA:BB:CC:DD:EE:FF:00:11","model":"H","name":""}"#,
    ] {
        let device = Device::from_json(&json(text)).unwrap();
        assert_eq!(device.to_json().to_bytes().unwrap(), text.as_bytes());
    }
    let text = r#"{"brightness":50,"color":{"b":3,"g":2,"r":1},"color_temp_kelvin":4000,"on":true,"stale":false}"#;
    let state = DeviceState::from_json(&json(text)).unwrap();
    assert_eq!(state.color_temp_kelvin, Some(4000));
    assert_eq!(state.to_json().to_bytes().unwrap(), text.as_bytes());
    let lower = r#"{"id":"aa:bb:cc:dd:ee:ff","model":"H","name":"n","backend":"cloud"}"#;
    let device = Device::from_json(&json(lower)).unwrap();
    assert_eq!(device.id.as_str(), "AA:BB:CC:DD:EE:FF");
    assert!(device.alias.is_none());
}
