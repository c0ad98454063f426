//! The cloud backend: construction, states and commands.
use govee::backend::cloud::{user_agent, CloudBackend, ControlStep, VERSION};
use govee::backend::reply::{Body, HttpReply, V1Device, V2Device};
use govee::backend::state::build_state_from_properties;
use govee::capability::CapabilityValue;
use govee::error::GoveeError;
use govee::json::Json;
use govee::types::{BackendType, Color, DeviceId};

fn json(text: &str) -> Json {
    Json::parse(text.as_bytes()).unwrap()
}

fn props(text: &str) -> Vec<Json> {
    match json(text) {
        Json::Array(items) => items,
        other => panic!("unexpected {other:?}"),
    }
}

fn backend(base: Option<&str>) -> Result<CloudBackend, GoveeError> {
    CloudBackend::new("key".into(), base.map(|b| b.to_string()), None)
}

/// A backend that knows the model of one device.
fn backend_knowing(mac: &str) -> (CloudBackend, DeviceId) {
    let mut b = backend(None).ok().unwrap();
    let device = V1Device {
        device: mac.into(),
        model: "H6076".into(),
        device_name: "Light".into(),
    };
    b.list_devices(
        Err(GoveeError::DiscoveryTimeout),
        Ok(vec![device.into_domain().unwrap()]),
    )
    .unwrap();
    (b, DeviceId::new(mac).unwrap())
}

#[test]
fn rejects_http_non_loopback() {
    let result = CloudBackend::new("key".into(), Some("http://example.com".into()), None);
    assert!(result.is_err());
    let err = result.err().unwrap();
    assert!(matches!(err, GoveeError::InvalidConfig(_)));
    assert!(err.to_string().contains("HTTPS"));
    assert_eq!(
        err.to_string(),
        "invalid config: base URL must use HTTPS (HTTP is only allowed for loopback addresses), \
         got: http://example.com"
    );
}

#[test]
fn allows_http_loopback() {
    assert!(CloudBackend::new("key".into(), Some("http://127.0.0.1:8080".into()), None).is_ok());
    assert!(CloudBackend::new("key".into(), Some("http://localhost:8080".into()), None).is_ok());
    assert!(CloudBackend::new("key".into(), Some("http://[::1]:8080".into()), None).is_ok());
    assert!(backend(Some("http://127.1.2.3/")).is_ok());
    assert!(backend(Some("http://[::2]/")).is_err());
}

#[test]
fn rejects_invalid_url() {
    let result = CloudBackend::new("key".into(), Some("not a url".into()), None);
    assert!(result.is_err());
    let err = result.err().unwrap();
    assert!(matches!(err, GoveeError::InvalidConfig(_)));
    assert_eq!(
        err.to_string(),
        "invalid config: invalid base URL \"not a url\": relative URL without a base"
    );
}

#[test]
fn accepts_https_base_url() {
    let result = CloudBackend::new("key".into(), Some("https://example.com".into()), None);
    assert!(result.is_ok());
}

#[test]
fn default_base_url_is_https() {
    let backend = CloudBackend::new("key".into(), None, None).ok().unwrap();
    assert_eq!(backend.base_url().scheme, "https");
    assert_eq!(backend.base_url().text, "https://developer-api.govee.com/");
    assert_eq!(
        backend.base_url().host.as_deref(),
        Some("developer-api.govee.com")
    );
    assert_eq!(backend.new_api_base().text, "https://openapi.api.govee.com/");
    assert_eq!(
        backend.new_api_base().host.as_deref(),
        Some("openapi.api.govee.com")
    );
}

#[test]
fn trailing_slash_normalized() {
    let backend = CloudBackend::new("key".into(), Some("https://example.com/".into()), None)
        .ok()
        .unwrap();
    let request = backend.v1_list_request().ok().unwrap();
    assert_eq!(request.url, "https://example.com/v1/devices");
    let request = self::backend(Some("https://example.com"))
        .ok()
        .unwrap()
        .v1_list_request()
        .ok()
        .unwrap();
    assert_eq!(request.url, "https://example.com/v1/devices");
}

#[test]
fn plain_https_hosts_are_taken_as_they_are() {
    for host in ["example.com", "a", "some-host.local", "a.b-c.d"] {
        let b = backend(Some(&format!("https://{host}"))).ok().unwrap();
        assert_eq!(b.base_url().text, format!("https://{host}/"));
        assert_eq!(b.base_url().host.as_deref(), Some(host));
    }
}

#[test]
fn debug_redacts_api_key() {
    let backend = CloudBackend::new("super-secret-key".into(), None, None)
        .ok()
        .unwrap();
    let debug = backend.debug_text();
    assert!(!debug.contains("super-secret-key"));
    assert!(debug.contains("[REDACTED]"));
    assert_eq!(
        debug,
        "CloudBackend { base_url: \"https://developer-api.govee.com/\", api_key: \"[REDACTED]\", \
         cached_devices: 0, cached_capabilities: 0 }"
    );
}

#[test]
fn v1_device_into_domain() {
    let v1 = V1Device {
        device: "AA:BB:CC:DD:EE:FF".into(),
        model: "H6076".into(),
        device_name: "Kitchen Light".into(),
    };
    let device = v1.into_domain().unwrap();
    assert_eq!(device.id.as_str(), "AA:BB:CC:DD:EE:FF");
    assert_eq!(device.model, "H6076");
    assert_eq!(device.name, "Kitchen Light");
    assert_eq!(device.backend, BackendType::Cloud);
    assert!(device.alias.is_none());
}

#[test]
fn v1_device_invalid_mac_returns_error() {
    let v1 = V1Device {
        device: "not-a-mac".into(),
        model: "H6076".into(),
        device_name: "Bad Device".into(),
    };
    assert!(v1.into_domain().is_err());
}

#[test]
fn build_state_all_properties() {
    let props = props(
        r#"[
            {"online": true},
            {"powerState": "on"},
            {"brightness": 75},
            {"color": {"r": 255, "g": 128, "b": 0}},
            {"colorTem": 5000}
        ]"#,
    );
    let state = build_state_from_properties(&props).unwrap();
    assert!(state.on);
    assert_eq!(state.brightness, 75);
    assert_eq!(state.color, Color::new(255, 128, 0));
    assert_eq!(state.color_temp_kelvin, Some(5000));
    assert!(!state.stale);
}

#[test]
fn build_state_offline_is_stale() {
    let props = props(r#"[{"online": false}, {"powerState": "off"}, {"brightness": 50}]"#);
    let state = build_state_from_properties(&props).unwrap();
    assert!(state.stale);
    assert!(!state.on);
}

#[test]
fn build_state_clamps_brightness() {
    let props = props(r#"[{"brightness": 200}]"#);
    let state = build_state_from_properties(&props).unwrap();
    assert_eq!(state.brightness, 100);
}

#[test]
fn build_state_clamps_brightness_above_255() {
    let props = props(r#"[{"brightness": 300}]"#);
    let state = build_state_from_properties(&props).unwrap();
    assert_eq!(state.brightness, 100);
}

#[test]
fn build_state_clamps_color_above_255() {
    let props = props(r#"[{"color": {"r": 300, "g": 500, "b": 1000}}]"#);
    let state = build_state_from_properties(&props).unwrap();
    assert_eq!(state.color, Color::new(255, 255, 255));
}

#[test]
fn build_state_unknown_properties_ignored() {
    let props = props(r#"[{"unknownProp": 42}]"#);
    let state = build_state_from_properties(&props).unwrap();
    assert!(!state.on);
    assert_eq!(state.brightness, 0);
}

#[test]
fn build_state_later_properties_win() {
    let props = props(
        r#"[{"brightness": 10}, {"powerState": "on", "colorTem": 4294967296}, {"brightness": 20},
            {"brightness": "x"}, {"color": 5}, {"powerState": "off"}, 7]"#,
    );
    let state = build_state_from_properties(&props).unwrap();
    assert_eq!(state.brightness, 20);
    assert!(!state.on);
    assert_eq!(state.color, Color::new(0, 0, 0));
    assert_eq!(state.color_temp_kelvin, Some(u32::MAX));
}

#[test]
fn user_agent_contains_version() {
    let ua = user_agent();
    assert!(ua.starts_with("govee/"));
    assert!(ua.contains(VERSION));
    let backend = backend(None).ok().unwrap();
    assert_eq!(backend.user_agent(), ua);
}

#[test]
fn custom_user_agent_accepted() {
    let result = CloudBackend::new("key".into(), None, Some("my-app/1.0".into()));
    assert!(result.is_ok());
    assert_eq!(result.ok().unwrap().user_agent(), "my-app/1.0");
}

#[test]
fn user_agent_crlf_rejected() {
    let result = CloudBackend::new("key".into(), None, Some("foo\r\nbar".into()));
    assert!(result.is_err());
    let err = result.err().unwrap();
    assert!(matches!(err, GoveeError::InvalidConfig(_)));
    assert!(err
        .to_string()
        .contains("user_agent contains invalid characters"));
}

#[test]
fn user_agent_null_byte_rejected() {
    let result = CloudBackend::new("key".into(), None, Some("foo\0bar".into()));
    assert!(result.is_err());
    assert!(matches!(
        result.err().unwrap(),
        GoveeError::InvalidConfig(_)
    ));
    assert!(CloudBackend::new("key".into(), None, Some("foo\x7f".into())).is_err());
    assert!(CloudBackend::new("key".into(), None, Some("caf\u{e9}".into())).is_ok());
}

fn finished(step: ControlStep) -> Result<(), GoveeError> {
    match step {
        ControlStep::Finished(r) => r,
        _ => panic!("something is sent"),
    }
}

#[test]
fn cloud_set_color_temp_kelvin_zero_rejected() {
    let backend = CloudBackend::new("key".into(), None, None).ok().unwrap();
    let id = DeviceId::new("AA:BB:CC:DD:EE:FF").unwrap();
    // Validation runs before cache lookup, so no need to populate cache.
    let result = finished(backend.set_color_temp(&id, 0));
    assert!(result.is_err());
    assert!(matches!(result.unwrap_err(), GoveeError::InvalidConfig(_)));
}

#[test]
fn cloud_set_color_temp_kelvin_above_10000_rejected() {
    let backend = CloudBackend::new("key".into(), None, None).ok().unwrap();
    let id = DeviceId::new("AA:BB:CC:DD:EE:FF").unwrap();
    let result = finished(backend.set_color_temp(&id, 10001));
    assert!(result.is_err());
    assert!(matches!(result.unwrap_err(), GoveeError::InvalidConfig(_)));
}

#[test]
fn map_new_api_code_err_overflows_u16() {
    // code > u16::MAX (65535)
    let err = CloudBackend::map_new_api_code_err(100_000, "overflow".into());
    assert!(matches!(err, GoveeError::Api { code: 500, .. }));
    assert_eq!(
        err.to_string(),
        "API error 500: unexpected status code 100000: overflow"
    );
}

#[test]
fn map_new_api_code_err_in_range() {
    let text = |code| CloudBackend::map_new_api_code_err(code, "m".into()).to_string();
    assert_eq!(text(400), "API error 400: m");
    assert_eq!(text(401), "API error 401: m");
    assert_eq!(text(404), "API error 404: not found: m");
    assert_eq!(text(429), "rate limited \u{2014} retry after 60s");
    assert_eq!(text(65535), "API error 65535: m");
    assert_eq!(text(65536), "API error 500: unexpected status code 65536: m");
}

#[test]
fn with_new_api_base_rejects_invalid_url() {
    let backend = CloudBackend::new("key".into(), None, None).ok().unwrap();
    let result = backend.with_new_api_base("not a url");
    let err = result.err().unwrap();
    assert!(matches!(err, GoveeError::InvalidConfig(_)));
    assert_eq!(
        err.to_string(),
        "invalid config: invalid new API base URL \"not a url\": relative URL without a base"
    );
}

#[test]
fn with_new_api_base_enforces_https() {
    let err = backend(None)
        .ok()
        .unwrap()
        .with_new_api_base("http://example.com")
        .err()
        .unwrap();
    assert!(err.to_string().contains("new API base URL must use HTTPS"));
    let b = backend(None)
        .ok()
        .unwrap()
        .with_new_api_base("http://127.0.0.1:9")
        .ok()
        .unwrap();
    assert_eq!(b.new_api_base().text, "http://127.0.0.1:9/");
}

#[test]
fn allows_http_ipv6_loopback() {
    let result = CloudBackend::new("key".into(), Some("http://[::1]/".into()), None);
    assert!(result.is_ok());
}

#[test]
fn get_capabilities_returns_none_when_empty() {
    let backend = CloudBackend::new("key".into(), None, None).ok().unwrap();
    let id = DeviceId::new("AA:BB:CC:DD:EE:FF").unwrap();
    assert!(backend.get_capabilities(&id).is_none());
}

#[test]
fn control_v2_not_implemented_for_raw_variant() {
    let (backend, id) = backend_knowing("AA:BB:CC:DD:EE:FF");
    let result = backend.control_v2(&id, &CapabilityValue::Raw(Json::empty_object()));
    let err = result.err().unwrap();
    assert!(matches!(err, GoveeError::NotImplemented(_)));
    assert_eq!(
        err.to_string(),
        "not implemented: control_v2 does not support Raw(Object {})"
    );
}

#[test]
fn control_v2_not_implemented_for_segments() {
    let (backend, id) = backend_knowing("AA:BB:CC:DD:EE:FF");
    let text = |value: CapabilityValue| {
        let expected = format!("not implemented: control_v2 does not support {value:?}");
        let err = backend.control_v2(&id, &value).err().unwrap();
        assert_eq!(err.to_string(), expected);
    };
    text(CapabilityValue::SegmentColor {
        segments: vec![0, 10, 255],
        rgb: 16744448,
    });
    text(CapabilityValue::SegmentBrightness {
        segments: vec![],
        brightness: 7,
    });
}

#[test]
fn control_v2_needs_the_model() {
    let backend = backend(None).ok().unwrap();
    let id = DeviceId::new("AA:BB:CC:DD:EE:FF").unwrap();
    let err = backend
        .control_v2(&id, &CapabilityValue::DiyScene(1))
        .err()
        .unwrap();
    assert_eq!(
        err.to_string(),
        "device not found: AA:BB:CC:DD:EE:FF (call list_devices first to populate the device cache)"
    );
}

#[test]
fn request_ids_are_random_uuids() {
    let (backend, id) = backend_knowing("AA:BB:CC:DD:EE:FF");
    let mut seen = Vec::new();
    for _ in 0..5 {
        let request = backend
            .control_v2(&id, &CapabilityValue::DiyScene(1))
            .ok()
            .unwrap();
        let body = Json::parse(&request.body.unwrap()).unwrap();
        let text = body.get_str("requestId").unwrap().to_string();
        let parsed = uuid::Uuid::parse_str(&text).unwrap();
        assert_eq!(parsed.get_version_num(), 4);
        assert_eq!(parsed.to_string(), text);
        assert!(!seen.contains(&text));
        seen.push(text);
    }
}

#[test]
fn retry_delays() {
    let delay = |e: &GoveeError, attempt| CloudBackend::retry_delay(e, attempt);
    let limited = |secs| GoveeError::RateLimited {
        retry_after_secs: secs,
    };
    assert_eq!(delay(&limited(7), 0), Some(7_000));
    assert_eq!(delay(&limited(300), 2), Some(300_000));
    assert_eq!(delay(&limited(u64::MAX), 2), Some(300_000));
    let request = GoveeError::Request("x".into());
    assert_eq!(delay(&request, 0), Some(1_000));
    assert_eq!(delay(&request, 1), Some(2_000));
    assert_eq!(delay(&request, 2), Some(4_000));
    assert_eq!(delay(&request, 54), Some(1_000 << 54));
    let api = |code| GoveeError::Api {
        code,
        message: String::new(),
    };
    assert_eq!(delay(&api(500), 1), Some(2_000));
    assert_eq!(delay(&api(499), 1), None);
    assert_eq!(delay(&GoveeError::DiscoveryTimeout, 0), None);
}

#[test]
fn error_bodies() {
    let step = |body| {
        let reply = HttpReply {
            status: 400,
            retry_after: None,
            body,
        };
        finished(CloudBackend::after_legacy(Ok(reply), 0))
            .unwrap_err()
            .to_string()
    };
    assert_eq!(
        step(Body::Read("caf\u{e9}".as_bytes().to_vec())),
        "API error 400: caf\u{e9}"
    );
    assert_eq!(
        step(Body::Read(vec![b'a', 0xff, b'b'])),
        "API error 400: a\u{fffd}b"
    );
    assert_eq!(
        step(Body::Text("as the client reads it".into())),
        "API error 400: as the client reads it"
    );
    assert_eq!(
        step(Body::Failed("gone".into())),
        "API error 400: <failed to read response body: gone>"
    );
}

#[test]
fn v2_devices_come_before_v1_devices() {
    let mut b = backend(None).ok().unwrap();
    let v2 = |device: &str, sku: &str| V2Device {
        sku: sku.into(),
        device: device.into(),
        device_name: format!("v2 {sku}"),
        capabilities: Vec::new(),
    };
    let v1 = |device: &str, model: &str| {
        V1Device {
            device: device.into(),
            model: model.into(),
            device_name: format!("v1 {model}"),
        }
        .into_domain()
        .unwrap()
    };
    let devices = b
        .list_devices(
            Ok(vec![
                v2("AA:BB:CC:DD:EE:01", "H1"),
                v2("not a mac", "H2"),
                v2("AA:BB:CC:DD:EE:03", "H3"),
            ]),
            Ok(vec![
                v1("AA:BB:CC:DD:EE:03", "L3"),
                v1("AA:BB:CC:DD:EE:04", "L4"),
            ]),
        )
        .unwrap();
    let names: Vec<&str> = devices.iter().map(|d| d.name.as_str()).collect();
    assert_eq!(names, ["v2 H1", "v2 H3", "v1 L4"]);
    let model = |mac: &str| b.get_model(&DeviceId::new(mac).unwrap()).unwrap();
    assert_eq!(model("AA:BB:CC:DD:EE:03"), "H3");
    assert_eq!(model("AA:BB:CC:DD:EE:04"), "L4");
    // Only devices of the v2 list have capabilities.
    let caps = |mac: &str| b.get_capabilities(&DeviceId::new(mac).unwrap()).is_some();
    assert!(caps("AA:BB:CC:DD:EE:01"));
    assert!(!caps("AA:BB:CC:DD:EE:04"));
    assert!(b.debug_text().ends_with("cached_devices: 3, cached_capabilities: 2 }"));
}

#[test]
fn a_device_list_that_fails_changes_nothing() {
    let (mut b, id) = backend_knowing("AA:BB:CC:DD:EE:FF");
    let result = b.list_devices(
        Err(GoveeError::DiscoveryTimeout),
        Err(GoveeError::Request("down".into())),
    );
    assert!(matches!(result, Err(GoveeError::Request(_))));
    assert_eq!(b.get_model(&id).unwrap(), "H6076");
    // The v2 list alone is enough.
    let devices = b
        .list_devices(Ok(Vec::new()), Err(GoveeError::Request("down".into())))
        .unwrap();
    assert!(devices.is_empty());
    assert!(b.get_model(&id).is_err());
}

#[test]
fn state_url_escapes_the_query() {
    let mut b = backend(Some("https://example.com")).ok().unwrap();
    let device = V1Device {
        device: "AA:BB:CC:DD:EE:FF".into(),
        model: "H 6&x".into(),
        device_name: "Light".into(),
    };
    b.list_devices(
        Err(GoveeError::DiscoveryTimeout),
        Ok(vec![device.into_domain().unwrap()]),
    )
    .unwrap();
    let id = DeviceId::new("AA:BB:CC:DD:EE:FF").unwrap();
    match b.after_refresh(&id) {
        govee::backend::cloud::StateStep::SendLegacy(request) => assert_eq!(
            request.url,
            "https://example.com/v1/devices/state?device=AA%3ABB%3ACC%3ADD%3AEE%3AFF&model=H+6%26x"
        ),
        _ => panic!("no request"),
    }
}

#[test]
fn default_requests_go_to_the_api() {
    let (b, id) = backend_knowing("AA:BB:CC:DD:EE:FF");
    assert_eq!(
        b.v1_list_request().ok().unwrap().url,
        "https://developer-api.govee.com/v1/devices"
    );
    assert_eq!(
        b.v2_list_request().ok().unwrap().url,
        "https://openapi.api.govee.com/router/api/v1/user/devices"
    );
    assert_eq!(
        b.control_v1(&id, "turn", Json::Null).ok().unwrap().url,
        "https://developer-api.govee.com/v1/devices/control"
    );
    assert_eq!(
        b.set_work_mode(&id, 1, None).ok().unwrap().url,
        "https://openapi.api.govee.com/router/api/v1/device/control"
    );
    for path in ["x", "/x", "a-b/c0//d/", "0/9"] {
        assert_eq!(
            b.new_api_get(path).ok().unwrap().url,
            format!("https://openapi.api.govee.com/{}", path.trim_start_matches('/'))
        );
    }
    assert!(b.new_api_get("https://[").is_err());
}

#[test]
fn a_v2_device_replaces_the_v1_device_in_any_case() {
    let mut b = backend(None).ok().unwrap();
    let v2 = V2Device {
        sku: "H1".into(),
        device: "aa:bb:cc:dd:ee:01".into(),
        device_name: "v2".into(),
        capabilities: Vec::new(),
    };
    let v1 = V1Device {
        device: "aa:bb:cc:DD:ee:01".into(),
        model: "L1".into(),
        device_name: "v1".into(),
    };
    let devices = b.list_devices(Ok(vec![v2]), Ok(vec![v1.into_domain().unwrap()])).unwrap();
    let names: Vec<&str> = devices.iter().map(|d| d.name.as_str()).collect();
    assert_eq!(names, ["v2"]);
    let id = DeviceId::new("AA:BB:CC:DD:EE:01").unwrap();
    assert_eq!(b.get_model(&id).unwrap(), "H1");
}

#[test]
fn requests_stay_on_the_scheme_and_host_of_the_base() {
    let (b, id) = backend_knowing("AA:BB:CC:DD:EE:FF");
    let b = b.with_new_api_base("http://[::1]:8080/deep/path?x=1#y").ok().unwrap();
    assert_eq!(
        b.v2_list_request().unwrap().url,
        "http://[::1]:8080/router/api/v1/user/devices"
    );
    assert_eq!(
        b.control_v2_as(&id, &govee::CapabilityValue::OnOff(1), "id").unwrap().url,
        "http://[::1]:8080/router/api/v1/device/control"
    );
    let b = backend(Some("https://user@Example.com:444/deep/path?x=1#y")).ok().unwrap();
    assert_eq!(
        b.v1_list_request().unwrap().url,
        "https://user@example.com:444/deep/v1/devices"
    );
    let b = backend(Some("ftp://localhost")).ok().unwrap();
    assert_eq!(b.v1_list_request().unwrap().url, "ftp://localhost/v1/devices");
    let b = backend(Some("lamp://user@127.0.0.1:9?x#y")).ok().unwrap();
    assert_eq!(b.v1_list_request().unwrap().url, "lamp://user@127.0.0.1:9/v1/devices");
    let b = backend(Some("file://127.0.0.1/a/b")).ok().unwrap();
    assert_eq!(b.v1_list_request().unwrap().url, "file://127.0.0.1/a/v1/devices");
    let b = b.with_new_api_base("file://127.0.0.1/a/b").ok().unwrap();
    assert_eq!(
        b.v2_list_request().unwrap().url,
        "file://127.0.0.1/router/api/v1/user/devices"
    );
    let long = "m".repeat(1_000_000);
    let mut b = backend(Some("https://example.com/a?b#c")).ok().unwrap();
    let device = V1Device {
        device: "AA:BB:CC:DD:EE:FF".into(),
        model: long.clone(),
        device_name: "Light".into(),
    };
    b.list_devices(
        Err(GoveeError::DiscoveryTimeout),
        Ok(vec![device.into_domain().unwrap()]),
    )
    .unwrap();
    match b.after_refresh(&id) {
        govee::backend::cloud::StateStep::SendLegacy(request) => assert_eq!(
            request.url,
            format!("https://example.com/v1/devices/state?device=AA%3ABB%3ACC%3ADD%3AEE%3AFF&model={long}")
        ),
        _ => panic!("no request"),
    }
}
