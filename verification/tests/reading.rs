//! The forms that values may have in JSON and TOML texts.
use govee::backend::cloud::CloudBackend;
use govee::backend::reply::{
    how_to_read, read_control_result, receive_diy_scenes, receive_payload, receive_scenes,
    receive_v1_list, receive_v2_list, Body, HttpReply, Reading, BAD_BODY,
};
use govee::capability::{Capability, CapabilityParameters, CapabilityState};
use govee::config::{BackendPreference, Config, SceneConfig, NO_CONFIG};
use govee::decode::FromJson;
use govee::error::GoveeError;
use govee::json::Json;
use govee::names::NameMap;
use govee::outline::{outline_of, Outline};
use govee::types::{BackendType, Color, Device, DeviceState};

fn json(text: &str) -> Json {
    Json::parse(text.as_bytes()).unwrap()
}

fn reply(text: &str) -> Result<HttpReply, String> {
    Ok(HttpReply {
        status: 200,
        retry_after: None,
        body: Body::Read(text.as_bytes().to_vec()),
    })
}

fn payload(text: &str) -> Option<Json> {
    match receive_payload(reply(text)) {
        Ok(payload) => Some(payload),
        Err(GoveeError::Request(message)) => {
            assert_eq!(message, BAD_BODY);
            None
        }
        Err(e) => panic!("{}", e.to_string()),
    }
}

fn nested(levels: usize) -> String {
    format!("{}{}", "[".repeat(levels), "]".repeat(levels))
}

#[test]
fn a_struct_may_stand_as_an_array() {
    assert_eq!(Color::from_json(&json("[1, 2, 3]")), Some(Color { r: 1, g: 2, b: 3 }));
    assert_eq!(Color::from_json(&json("[1, 2]")), None);
    assert_eq!(Color::from_json(&json("[1, 2, 3, 4]")), None);
    assert_eq!(Color::from_json(&json("[1, 2, 300]")), None);

    let device = Device::from_json(&json(
        r#"["aa:bb:cc:dd:ee:ff", "H6076", "Lamp", null, "local"]"#,
    ))
    .unwrap();
    assert_eq!(device.id.as_str(), "AA:BB:CC:DD:EE:FF");
    assert_eq!(device.name, "Lamp");
    assert_eq!(device.alias, None);
    assert_eq!(device.backend, BackendType::Local);
    assert!(Device::from_json(&json(r#"["AA:BB:CC:DD:EE:FF", "H6076", "Lamp", "local"]"#)).is_none());

    let state = DeviceState::from_json(&json("[true, 50, [1, 2, 3], 2700, false]")).unwrap();
    assert!(state.on);
    assert_eq!(state.brightness, 50);
    assert_eq!(state.color, Color { r: 1, g: 2, b: 3 });
    assert_eq!(state.color_temp_kelvin, Some(2700));
    assert!(DeviceState::from_json(&json("[true, 101, [1, 2, 3], 2700, false]")).is_none());
}

#[test]
fn a_variant_may_stand_as_an_object() {
    assert_eq!(BackendType::from_json(&json(r#"{"cloud": null}"#)), Some(BackendType::Cloud));
    assert_eq!(BackendType::from_json(&json(r#"{"local": null}"#)), Some(BackendType::Local));
    assert_eq!(BackendType::from_json(&json(r#"{"cloud": 1}"#)), None);
    assert_eq!(BackendType::from_json(&json(r#"{"cloud": null, "local": null}"#)), None);
    assert_eq!(BackendType::from_json(&json("{}")), None);
    assert_eq!(
        BackendPreference::from_json(&json(r#"{"cloudonly": null}"#)),
        Some(BackendPreference::CloudOnly)
    );
    assert_eq!(BackendPreference::from_json(&json(r#"{"cloud": []}"#)), None);
}

#[test]
fn capabilities_may_stand_as_arrays() {
    match CapabilityParameters::from_json(&json(r#"["ENUM", [["on", 1], {"name": "off", "value": 0}]]"#)) {
        Some(CapabilityParameters::Enum { options }) => {
            assert_eq!(options.len(), 2);
            assert_eq!(options[0].name, "on");
            assert_eq!(options[0].value, Json::Unsigned(1));
            assert_eq!(options[1].name, "off");
        }
        other => panic!("{other:?}"),
    }
    match CapabilityParameters::from_json(&json(r#"["INTEGER", -1, 100, 1, null]"#)) {
        Some(CapabilityParameters::Integer(range)) => {
            assert_eq!((range.min, range.max, range.precision), (-1, 100, 1));
            assert_eq!(range.unit, None);
        }
        other => panic!("{other:?}"),
    }
    assert!(CapabilityParameters::from_json(&json(r#"["INTEGER", -1, 100, 1]"#)).is_none());
    match CapabilityParameters::from_json(&json(r#"["STRUCT", [["segment", "Array"]]]"#)) {
        Some(CapabilityParameters::Struct { fields }) => {
            assert_eq!(fields[0].field_name, "segment");
            assert_eq!(fields[0].data_type, "Array");
        }
        other => panic!("{other:?}"),
    }
    match CapabilityParameters::from_json(&json(r#"["LATER"]"#)) {
        Some(CapabilityParameters::Unknown(value)) => assert_eq!(value, json(r#"["LATER"]"#)),
        other => panic!("{other:?}"),
    }
    assert!(CapabilityParameters::from_json(&json(r#"["LATER", 1]"#)).is_none());
    assert!(CapabilityParameters::from_json(&json("[1]")).is_none());
    assert!(CapabilityParameters::from_json(&json("[]")).is_none());

    let cap = Capability::from_json(&json(r#"["type", "instance", ["ENUM", []]]"#)).unwrap();
    assert_eq!(cap.instance, "instance");
    let state = CapabilityState::from_json(&json(r#"["type", "instance", [{"a": 1}]]"#)).unwrap();
    assert_eq!(state.state.value, json(r#"{"a": 1}"#));
    assert!(CapabilityState::from_json(&json(r#"["type", "instance", []]"#)).is_none());
}

#[test]
fn an_envelope_may_stand_as_an_array() {
    assert_eq!(payload(r#"[null, "ok", 200, {"x": 1}]"#), Some(json(r#"{"x": 1}"#)));
    assert_eq!(payload(r#" [ "id" , "ok" , 200 , 7 ] "#), Some(Json::Unsigned(7)));
    assert_eq!(payload(r#"["ok", 200, 7]"#), None);
    assert_eq!(payload(r#"[null, "ok", 200, 7, 8]"#), None);
    assert_eq!(payload(r#"[1, "ok", 200, 7]"#), None);
}

#[test]
fn a_field_that_is_asked_for_stands_once() {
    assert_eq!(payload(r#"{"msg": "ok", "code": 200, "payload": 7}"#), Some(Json::Unsigned(7)));
    assert_eq!(payload(r#"{"msg": "ok", "code": 200, "data": 7}"#), Some(Json::Unsigned(7)));
    assert_eq!(payload(r#"{"msg": "ok", "msg": "ok", "code": 200, "payload": 7}"#), None);
    assert_eq!(payload(r#"{"msg": "ok", "code": 200, "payload": 7, "payload": 7}"#), None);
    assert_eq!(payload(r#"{"msg": "ok", "code": 200, "payload": 7, "data": 7}"#), None);
    assert_eq!(
        payload(r#"{"requestId": null, "requestId": null, "msg": "ok", "code": 200, "payload": 7}"#),
        None
    );
    assert_eq!(payload(r#"{"requestId": 1, "msg": "ok", "code": 200, "payload": 7}"#), None);
    assert_eq!(payload(r#"{"code": 200, "payload": 7}"#), None);
    assert_eq!(
        payload(r#"{"x": 1, "msg": "ok", "x": 2, "code": 200, "payload": {"a": 1, "a": 2}}"#),
        Some(json(r#"{"a": 2}"#))
    );
    assert_eq!(payload(r#"{"\u006dsg": "ok", "code": 200, "payload": 7}"#), Some(Json::Unsigned(7)));
    assert_eq!(payload(r#"{"\u006dsg": "ok", "msg": "ok", "code": 200, "payload": 7}"#), None);
}

#[test]
fn a_field_that_is_not_asked_for_is_passed_over() {
    for value in ["1e999", "-1e999", r#""\ud800""#, nested(200).as_str(), "null", r#"{"a": [1, {}]}"#] {
        let text = format!(r#"{{"x": {value}, "msg": "ok", "code": 200, "payload": 7}}"#);
        assert_eq!(payload(&text), Some(Json::Unsigned(7)), "{value}");
        let text = format!(r#"{{"msg": {value}, "code": 200, "payload": 7}}"#);
        assert_eq!(payload(&text), None, "{value}");
    }
    for value in ["1e", "nul", "[1", "[1,]", "{\"a\"}", "01", "\"\u{1}\"", ""] {
        let text = format!(r#"{{"x": {value}, "msg": "ok", "code": 200, "payload": 7}}"#);
        assert_eq!(payload(&text), None, "{value}");
    }
}

#[test]
fn a_reply_is_one_json_text() {
    for text in [
        "",
        " ",
        "7",
        "{",
        "[",
        r#"{"msg": "ok", "code": 200, "payload": 7"#,
        r#"{"msg": "ok", "code": 200, "payload": 7,}"#,
        r#"{"msg": "ok", "code": 200 "payload": 7}"#,
        r#"{"msg": "ok", "code": 200, "payload" 7}"#,
        r#"{"msg": "ok", "code": 200, payload: 7}"#,
        r#"{"msg": "ok", "code": 200, "payload": 7} x"#,
        r#"{"msg": "ok", "code": 200, "payload": 7}{}"#,
        r#"{, "msg": "ok", "code": 200, "payload": 7}"#,
        r#"[null, "ok", 200, 7,]"#,
        r#"[null, "ok", 200 7]"#,
    ] {
        assert_eq!(payload(text), None, "{text}");
    }
    let spaced = "\n{ \t\"msg\" : \"ok\" , \"code\"\r:200,\"payload\":7 }\n ";
    assert_eq!(payload(spaced), Some(Json::Unsigned(7)));
}

#[test]
fn the_levels_above_a_payload_count() {
    let at = |levels: usize| {
        payload(&format!(r#"{{"msg": "ok", "code": 200, "payload": {}}}"#, nested(levels))).is_some()
    };
    assert!(at(126));
    assert!(!at(127));
    let at = |levels: usize| {
        let text = format!(
            r#"{{"data": {{"properties": [{}]}}, "code": 200, "message": ""}}"#,
            nested(levels)
        );
        CloudBackend::legacy_state(reply(&text)).is_ok()
    };
    assert!(at(124));
    assert!(!at(125));
}

#[test]
fn v1_replies_may_stand_as_arrays() {
    let list = |text: &str| receive_v1_list(reply(text)).ok();
    let devices = list(r#"[[[["aa:bb:cc:dd:ee:ff", "H6076", "Lamp"]]], 200, "ok"]"#).unwrap();
    assert_eq!(devices.len(), 1);
    assert_eq!(devices[0].id.as_str(), "AA:BB:CC:DD:EE:FF");
    assert_eq!(devices[0].model, "H6076");
    assert_eq!(devices[0].name, "Lamp");
    assert!(list(r#"[[[["aa:bb:cc:dd:ee:ff", "H6076"]]], 200, "ok"]"#).is_none());
    assert!(list(r#"[[[], []], 200, "ok"]"#).is_none());
    assert_eq!(list(r#"{"message": "", "code": 200, "data": [[]]}"#).unwrap().len(), 0);
    let devices = list(
        r#"{"data": {"devices": [{"device": "AA:BB:CC:DD:EE:FF", "model": "H6076",
            "deviceName": "Lamp", "supportCmds": [1e999], "supportCmds": 0}]},
            "code": 200, "message": "ok"}"#,
    )
    .unwrap();
    assert_eq!(devices[0].name, "Lamp");
    assert!(list(
        r#"{"data": {"devices": [{"device": "AA:BB:CC:DD:EE:FF", "model": "H6076",
            "deviceName": "Lamp", "deviceName": "Lamp"}]}, "code": 200, "message": "ok"}"#,
    )
    .is_none());
    assert!(list(r#"{"data": {"devices": {}}, "code": 200, "message": "ok"}"#).is_none());

    let state = CloudBackend::legacy_state(reply(r#"[[[{"powerState": "on"}]], 200, "ok"]"#)).ok().unwrap();
    assert!(state.on);

    let body = |text: &str| Body::Read(text.as_bytes().to_vec());
    assert!(read_control_result(body(r#"[200, "ok"]"#)).is_ok());
    assert!(read_control_result(body(r#"{"message": "ok", "code": 200, "data": 1e999}"#)).is_ok());
    assert!(matches!(
        read_control_result(body(r#"[400, "bad"]"#)),
        Err(GoveeError::Api { code: 400, message }) if message == "bad"
    ));
    assert!(matches!(
        read_control_result(body(r#"{"message": "ok", "code": 200, "code": 200}"#)),
        Err(GoveeError::Request(message)) if message == BAD_BODY
    ));
}

#[test]
fn v2_payloads_may_stand_as_arrays() {
    let list = receive_v2_list(reply(
        r#"{"msg": "", "code": 200, "data": [["H6076", "AA:BB:CC:DD:EE:FF", "Lamp", []]]}"#,
    ))
    .ok()
    .unwrap();
    assert_eq!(list[0].sku, "H6076");
    assert_eq!(list[0].device, "AA:BB:CC:DD:EE:FF");
    assert_eq!(list[0].device_name, "Lamp");

    let state = CloudBackend::v2_state(reply(
        r#"{"msg": "", "code": 200, "payload": ["H6076", "AA:BB:CC:DD:EE:FF",
            [["devices.capabilities.on_off", "powerSwitch", [1]]]]}"#,
    ))
    .ok()
    .unwrap();
    assert!(state.on);

    let scenes = receive_scenes(reply(r#"{"msg": "", "code": 200, "payload": [[[1, "Sunset", 2]]]}"#))
        .ok()
        .unwrap();
    assert_eq!((scenes[0].id, scenes[0].name.as_str(), scenes[0].param_id), (1, "Sunset", 2));
    let scenes = receive_diy_scenes(reply(r#"{"msg": "", "code": 200, "payload": [[[3, "Mine"]]]}"#))
        .ok()
        .unwrap();
    assert_eq!((scenes[0].id, scenes[0].name.as_str()), (3, "Mine"));
    assert!(receive_scenes(reply(r#"{"msg": "", "code": 200, "payload": [[], []]}"#)).is_err());
}

#[test]
fn outlines() {
    let text = br#"{"a": [1, {"b": 2}], "c":3, "a": "x"}"#;
    let outline = outline_of(text).unwrap();
    assert_eq!(outline.values("a", "c", 0, 1).len(), 3);
    assert_eq!(outline.values("a", "a", 0, 1), vec![&b" [1, {\"b\": 2}]"[..], &b" \"x\""[..]]);
    assert_eq!(outline.field("a", 0, 1), None);
    assert_eq!(outline.field("c", 0, 1), Some(&b"3"[..]));
    match outline_of(b" [1 , [2], 3 ] ").unwrap() {
        Outline::Items(items) => assert_eq!(items, vec![&b"1"[..], &b" [2]"[..], &b" 3"[..]]),
        Outline::Members(_) => panic!("an array"),
    }
    assert!(outline_of(b"3").is_none());
}

fn parsed(text: &str) -> Option<Config> {
    match Config::parse(text) {
        Ok(config) => Some(config),
        Err(GoveeError::Config(_)) => None,
        Err(e) => panic!("{}", e.to_string()),
    }
}

#[test]
fn toml_has_numbers_that_json_has_not() {
    assert!(matches!(
        Config::parse("api_key = nan"),
        Err(GoveeError::Config(message)) if message == NO_CONFIG
    ));
    assert!(parsed("api_key = inf").is_none());
    assert!(parsed("discovery_interval_secs = nan").is_none());
    assert!(parsed("discovery_interval_secs = 60.0").is_none());
    assert!(parsed("discovery_interval_secs = -60").is_none());
    assert_eq!(parsed("discovery_interval_secs = 0x3c").unwrap().discovery_interval_secs(), 60);
    assert_eq!(parsed("discovery_interval_secs = +1_000").unwrap().discovery_interval_secs(), 1000);
    assert_eq!(
        parsed("discovery_interval_secs = 9223372036854775808").unwrap().discovery_interval_secs(),
        9223372036854775808
    );
    assert!(parsed("discovery_interval_secs = 18446744073709551616").is_none());
    assert!(parsed("other = 170141183460469231731687303715884105727\nmore = nan").is_some());
    assert!(parsed("other = 1e999").is_none());
    assert!(parsed("api_key = 1979-05-27").is_none());
    let config = parsed("aliases = 1979-05-27").unwrap();
    assert_eq!(
        config.aliases().get("$__toml_private_datetime").map(String::as_str),
        Some("1979-05-27")
    );
    let config = parsed("[scenes.a]\nbrightness = -0\ncolor_temp = 0b11").unwrap();
    assert_eq!(config.scenes().get("a").unwrap().brightness, 0);
    assert_eq!(config.scenes().get("a").unwrap().color_temp, Some(3));
}

#[test]
fn toml_arrays_and_tables() {
    let color = |text: &str| {
        parsed(&format!("[scenes.a]\nbrightness = 1\ncolor = {text}"))
            .map(|config| config.scenes().get("a").unwrap().color.unwrap())
    };
    assert_eq!(color("[1, 2, 3]"), Some(Color { r: 1, g: 2, b: 3 }));
    assert_eq!(color("[1, 2, 3, \"more\"]"), Some(Color { r: 1, g: 2, b: 3 }));
    assert_eq!(color("[1, 2]"), None);
    assert!(parsed("scenes = { a = [1, [1, 2, 3]] }").is_none());
    assert!(matches!(
        Config::parse("scenes = { a = [1, [1, 2, 3], 2700] }"),
        Err(GoveeError::InvalidConfig(_))
    ));

    let backend = |text: &str| parsed(&format!("backend = {text}")).map(|config| config.backend());
    assert_eq!(backend("\"local\""), Some(BackendPreference::LocalOnly));
    assert_eq!(backend("{ cloud = [] }"), Some(BackendPreference::CloudOnly));
    assert_eq!(backend("{ auto = {} }"), Some(BackendPreference::Auto));
    assert_eq!(backend("{ cloud = [1] }"), None);
    assert_eq!(backend("{ cloud = \"\" }"), None);
    assert_eq!(backend("{ cloud = [], auto = [] }"), None);
    assert_eq!(backend("{}"), None);
    assert_eq!(backend("[]"), None);
}

#[test]
fn a_configuration_may_stand_as_an_array() {
    let config = Config::from_json(&json(
        r#"["key", {"local": null}, 30, {"a": "b"}, {"g": ["c"]}, {"s": [5, null, 2700]}]"#,
    ))
    .ok()
    .unwrap();
    assert_eq!(config.api_key(), Some("key"));
    assert_eq!(config.backend(), BackendPreference::LocalOnly);
    assert_eq!(config.discovery_interval_secs(), 30);
    assert_eq!(config.aliases().get("a").unwrap(), "b");
    assert_eq!(config.groups().get("g").unwrap(), &vec!["c".to_string()]);
    assert_eq!(config.scenes().get("s").unwrap().color_temp, Some(2700));

    let config = Config::from_json(&json("[]")).ok().unwrap();
    assert_eq!(config.discovery_interval_secs(), 60);
    let config = Config::from_json(&json(r#"[null, "cloud"]"#)).ok().unwrap();
    assert_eq!(config.api_key(), None);
    assert_eq!(config.backend(), BackendPreference::CloudOnly);
    assert!(Config::from_json(&json("[null, null]")).is_err());
    assert!(Config::from_json(&json(r#"[null, "auto", 60, {}, {}, {}, null]"#)).is_err());
    assert!(matches!(
        SceneConfig::from_json(&json("[5, [1, 2, 3, 4], null]")),
        None
    ));
}

#[test]
fn copies_are_the_same() {
    let mut map: NameMap<Json> = NameMap::new();
    map.insert("b".to_string(), Json::Unsigned(1));
    map.insert("a".to_string(), json("[true]"));
    let copy = map.clone();
    assert_eq!(copy.len(), 2);
    assert_eq!(copy.entry(0).0, "b");
    assert_eq!(copy.get("a"), Some(&json("[true]")));

    let state = DeviceState::with_raw(true, 7, Color { r: 1, g: 2, b: 3 }, Some(2700), true, map)
        .ok()
        .unwrap();
    let copy = state.clone();
    assert_eq!(format!("{copy:?}"), format!("{state:?}"));

    let config = Config::from_json(&json(
        r#"["key", "cloud", 30, {"a": "b"}, {"g": ["c", "d"]}, {"s": [5, null, 2700]}]"#,
    ))
    .ok()
    .unwrap();
    let copy = config.clone();
    assert_eq!(copy.api_key(), Some("key"));
    assert_eq!(copy.debug_text(), config.debug_text());
}

#[test]
fn bodies_are_read_by_their_status() {
    assert_eq!(how_to_read(429), Reading::Nothing);
    assert_eq!(how_to_read(200), Reading::Bytes);
    assert_eq!(how_to_read(299), Reading::Bytes);
    assert_eq!(how_to_read(199), Reading::Text);
    assert_eq!(how_to_read(300), Reading::Text);
    assert_eq!(how_to_read(500), Reading::Text);
    assert!(read_control_result(Body::Text(r#"{"code": 200, "message": "é"}"#.into())).is_ok());
    assert!(read_control_result(Body::Text("x".into())).is_err());
}

#[test]
fn parsed_replies_are_taken_apart() {
    use_envelope(200, Some(7));
    use_envelope(404, None);
}

fn use_envelope(code: u32, expected: Option<u64>) {
    let envelope = govee::backend::reply::NewApiResponse {
        msg: "gone".into(),
        code,
        payload: Json::Unsigned(7),
    };
    match (envelope.into_payload(), expected) {
        (Ok(payload), Some(n)) => assert_eq!(payload, Json::Unsigned(n)),
        (Err(GoveeError::Api { code, message }), None) => {
            assert_eq!((code, message.as_str()), (404, "not found: gone"));
        }
        _ => panic!("not what the code says"),
    }
}
