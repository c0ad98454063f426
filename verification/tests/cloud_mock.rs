//! The cloud backend against a server that answers from a table.
use govee::backend::cloud::{CloudBackend, CloudRequest, ControlStep, Method, StateStep, VERSION};
use govee::backend::reply::{
    how_to_read, receive_diy_scenes, receive_payload, receive_payload_value, receive_scenes,
    receive_v1_list, receive_v2_list, Body, HttpReply, Reading,
};
use govee::backend::Command;
use govee::capability::{CapabilityParameters, EnumOption};
use govee::error::GoveeError;
use govee::json::Json;
use govee::types::{Color, Device, DeviceId, DeviceState, DiyScene, LightScene};

const URI: &str = "http://127.0.0.1:4242";

fn json(text: &str) -> Json {
    Json::parse(text.as_bytes()).unwrap()
}

/// What a request must be like to get an answer, and the answer.
struct Mock {
    method: Method,
    path: &'static str,
    key: Option<&'static str>,
    query: Option<&'static str>,
    body: Option<Json>,
    partial_body: Option<Json>,
    request_id: bool,
    status: u16,
    retry_after: Option<&'static str>,
    answer: String,
}

impl Mock {
    fn given(method: Method, path: &'static str) -> Mock {
        Mock {
            method,
            path,
            key: Some("test-key"),
            query: None,
            body: None,
            partial_body: None,
            request_id: false,
            status: 200,
            retry_after: None,
            answer: String::new(),
        }
    }

    fn key(mut self, key: &'static str) -> Mock {
        self.key = Some(key);
        self
    }

    fn any_key(mut self) -> Mock {
        self.key = None;
        self
    }

    fn query(mut self, query: &'static str) -> Mock {
        self.query = Some(query);
        self
    }

    fn body_json(mut self, text: &str) -> Mock {
        self.body = Some(json(text));
        self
    }

    fn body_partial_json(mut self, text: &str) -> Mock {
        self.partial_body = Some(json(text));
        self
    }

    fn has_request_id(mut self) -> Mock {
        self.request_id = true;
        self
    }

    fn respond(mut self, status: u16, answer: &str) -> Mock {
        self.status = status;
        self.answer = answer.to_string();
        self
    }

    fn retry_after(mut self, value: &'static str) -> Mock {
        self.retry_after = Some(value);
        self
    }

    fn matches(&self, request: &CloudRequest) -> bool {
        let target = request.url.strip_prefix(URI).unwrap_or("");
        let (path, query) = match target.split_once('?') {
            Some((path, query)) => (path, Some(query)),
            None => (target, None),
        };
        let body = request.body.as_ref().map(|b| Json::parse(b).unwrap());
        self.method == request.method
            && self.path == path
            && self.key.map_or(true, |k| k == request.api_key)
            && (self.query.is_none() || self.query == query)
            && (self.body.is_none() || self.body == body)
            && self.partial_body.as_ref().map_or(true, |part| {
                body.as_ref().is_some_and(|b| holds(b, part))
            })
            && (!self.request_id
                || body
                    .as_ref()
                    .and_then(|b| b.get_str("requestId"))
                    .is_some_and(|s| !s.is_empty()))
    }
}

/// Whether `part` occurs in `whole`, members that it does not name left aside.
fn holds(whole: &Json, part: &Json) -> bool {
    match part {
        Json::Object(members) => members
            .iter()
            .all(|(name, value)| whole.get(name).is_some_and(|w| holds(w, value))),
        other => whole == other,
    }
}

struct Server {
    mocks: Vec<Mock>,
}

impl Server {
    fn start() -> Server {
        Server { mocks: Vec::new() }
    }

    fn mount(&mut self, mock: Mock) {
        self.mocks.push(mock);
    }

    /// The answer of the first mock that the request matches, else 404.
    fn send(&self, request: &CloudRequest) -> Result<HttpReply, String> {
        let reply = |status: u16, retry_after: Option<&str>, answer: &str| HttpReply {
            status,
            retry_after: retry_after.map(|h| h.to_string()),
            body: match how_to_read(status) {
                Reading::Text => Body::Text(answer.to_string()),
                _ => Body::Read(answer.as_bytes().to_vec()),
            },
        };
        for mock in &self.mocks {
            if mock.matches(request) {
                return Ok(reply(mock.status, mock.retry_after, &mock.answer));
            }
        }
        Ok(reply(404, None, ""))
    }
}

fn backend_for(api_key: &str) -> CloudBackend {
    CloudBackend::new(api_key.to_string(), Some(URI.to_string()), None)
        .ok()
        .unwrap()
        .with_new_api_base(URI)
        .ok()
        .unwrap()
}

/// Build a backend whose new-API base URL alone points at the server.
fn new_api_backend_for(api_key: &str) -> CloudBackend {
    CloudBackend::new(api_key.to_string(), None, None)
        .ok()
        .unwrap()
        .with_new_api_base(URI)
        .ok()
        .unwrap()
}

fn list_devices(server: &Server, backend: &mut CloudBackend) -> Result<Vec<Device>, GoveeError> {
    let v2 = backend
        .v2_list_request()
        .and_then(|request| receive_v2_list(server.send(&request)));
    let v1 = backend
        .v1_list_request()
        .and_then(|request| receive_v1_list(server.send(&request)));
    backend.list_devices(v2, v1)
}

fn get_state(
    server: &Server,
    backend: &mut CloudBackend,
    id: &DeviceId,
) -> Result<DeviceState, GoveeError> {
    let mut step = backend.get_state(id);
    loop {
        step = match step {
            StateStep::SendV2(request) => backend.after_v2_state(id, server.send(&request)),
            StateStep::SendLegacy(request) => {
                return CloudBackend::legacy_state(server.send(&request))
            }
            StateStep::Refresh => {
                list_devices(server, backend)?;
                backend.after_refresh(id)
            }
            StateStep::Finished(r) => return r,
        }
    }
}

/// The result of a command, and how long was waited between its attempts.
fn control(
    server: &Server,
    backend: &CloudBackend,
    id: &DeviceId,
    command: Command,
) -> (Result<(), GoveeError>, Vec<u64>) {
    let mut waits = Vec::new();
    let mut step = backend.begin(id, command);
    let mut legacy = None;
    let mut attempt = 0;
    loop {
        step = match step {
            ControlStep::SendV2(request) => backend.after_v2(id, command, server.send(&request)),
            ControlStep::SendLegacy(request) => {
                let next = CloudBackend::after_legacy(server.send(&request), attempt);
                legacy = Some(request);
                next
            }
            ControlStep::Wait(ms) => {
                waits.push(ms);
                attempt += 1;
                ControlStep::SendLegacy(legacy.take().unwrap())
            }
            ControlStep::Finished(r) => return (r, waits),
        }
    }
}

fn set_power(server: &Server, backend: &CloudBackend, id: &DeviceId, on: bool) -> Result<(), GoveeError> {
    control(server, backend, id, Command::Power(on)).0
}

fn set_brightness(server: &Server, backend: &CloudBackend, id: &DeviceId, value: u8) -> Result<(), GoveeError> {
    control(server, backend, id, Command::Brightness(value)).0
}

fn set_color(server: &Server, backend: &CloudBackend, id: &DeviceId, color: Color) -> Result<(), GoveeError> {
    control(server, backend, id, Command::Color(color)).0
}

fn set_color_temp(server: &Server, backend: &CloudBackend, id: &DeviceId, kelvin: u32) -> Result<(), GoveeError> {
    control(server, backend, id, Command::ColorTemp(kelvin)).0
}

fn new_api_post(server: &Server, backend: &CloudBackend, path: &str, payload: &str) -> Result<Json, GoveeError> {
    let request = backend.new_api_post(path, json(payload))?;
    receive_payload(server.send(&request))
}

fn new_api_get(server: &Server, backend: &CloudBackend, path: &str) -> Result<Json, GoveeError> {
    let request = backend.new_api_get(path)?;
    receive_payload(server.send(&request))
}

fn device() -> DeviceId {
    DeviceId::new("AA:BB:CC:DD:EE:FF").unwrap()
}

/// A list of devices for the server to answer with.
fn devices_mock() -> Mock {
    Mock::given(Method::Get, "/v1/devices").respond(200, HAPPY_RESPONSE)
}

/// Mount the list of devices and fetch it to populate the device cache.
fn populate_device_cache(server: &mut Server, backend: &mut CloudBackend) {
    server.mount(devices_mock());
    list_devices(server, backend).unwrap();
}

/// A server, and a backend that knows the devices on it.
fn setup() -> (Server, CloudBackend, DeviceId) {
    let mut server = Server::start();
    let mut backend = backend_for("test-key");
    populate_device_cache(&mut server, &mut backend);
    (server, backend, device())
}

fn control_mock() -> Mock {
    Mock::given(Method::Put, "/v1/devices/control").respond(200, CONTROL_SUCCESS)
}

fn v2_control_mock() -> Mock {
    Mock::given(Method::Post, "/router/api/v1/device/control")
        .has_request_id()
        .respond(200, NEW_API_CONTROL_SUCCESS)
}

const HAPPY_RESPONSE: &str = r#"{
    "data": {
        "devices": [
            {
                "device": "AA:BB:CC:DD:EE:FF",
                "model": "H6076",
                "deviceName": "Kitchen Light",
                "controllable": true,
                "retrievable": true,
                "supportCmds": ["turn", "brightness", "color", "colorTem"]
            },
            {
                "device": "11:22:33:44:55:66",
                "model": "H6078",
                "deviceName": "Bedroom Strip",
                "controllable": true,
                "retrievable": true,
                "supportCmds": ["turn", "brightness", "color"]
            }
        ]
    },
    "code": 200,
    "message": "Success"
}"#;

const STATE_RESPONSE: &str = r#"{
    "data": {
        "device": "AA:BB:CC:DD:EE:FF",
        "model": "H6076",
        "properties": [
            { "online": true },
            { "powerState": "on" },
            { "brightness": 75 },
            { "color": { "r": 255, "g": 128, "b": 0 } },
            { "colorTem": 5000 }
        ]
    },
    "code": 200,
    "message": "Success"
}"#;

const CONTROL_SUCCESS: &str = r#"{"code": 200, "message": "Success"}"#;

const NEW_API_CONTROL_SUCCESS: &str = r#"{
    "requestId": "test-req-id",
    "msg": "success",
    "code": 200,
    "payload": {}
}"#;

const V2_STATE_RESPONSE: &str = r#"{
    "requestId": "test-req-id",
    "msg": "success",
    "code": 200,
    "payload": {
        "sku": "H6076",
        "device": "AA:BB:CC:DD:EE:FF",
        "capabilities": [
            { "type": "devices.capabilities.on_off", "instance": "powerSwitch", "state": { "value": 1 } },
            { "type": "devices.capabilities.range", "instance": "brightness", "state": { "value": 80 } },
            { "type": "devices.capabilities.color_setting", "instance": "colorRgb", "state": { "value": 16744448 } },
            { "type": "devices.capabilities.color_setting", "instance": "colorTemperatureK", "state": { "value": 4000 } }
        ]
    }
}"#;

const V2_DEVICES_RESPONSE: &str = r#"{
    "code": 200,
    "msg": "success",
    "requestId": "x",
    "data": [
        {
            "sku": "H6076",
            "device": "AA:BB:CC:DD:EE:FF",
            "deviceName": "Kitchen",
            "capabilities": [
                {
                    "type": "devices.capabilities.on_off",
                    "instance": "powerSwitch",
                    "parameters": {
                        "dataType": "ENUM",
                        "options": []
                    }
                }
            ]
        }
    ]
}"#;

const V2_WORK_MODE_DEVICES_RESPONSE: &str = r#"{
    "code": 200, "msg": "success", "requestId": "x",
    "data": [{
        "sku": "H6076",
        "device": "AA:BB:CC:DD:EE:FF",
        "deviceName": "Test",
        "capabilities": [{
            "type": "devices.capabilities.work_mode",
            "instance": "workMode",
            "parameters": {
                "dataType": "ENUM",
                "options": [
                    { "name": "Music", "value": 1 },
                    { "name": "Scene", "value": 2 }
                ]
            }
        }]
    }]
}"#;

#[test]
fn list_devices_happy_path() {
    let mut server = Server::start();
    server.mount(devices_mock());

    let mut backend = backend_for("test-key");
    let devices = list_devices(&server, &mut backend).unwrap();

    assert_eq!(devices.len(), 2);
    assert_eq!(devices[0].id.as_str(), "AA:BB:CC:DD:EE:FF");
    assert_eq!(devices[0].model, "H6076");
    assert_eq!(devices[0].name, "Kitchen Light");
    assert_eq!(devices[1].id.as_str(), "11:22:33:44:55:66");
    assert_eq!(devices[1].model, "H6078");
}

#[test]
fn requests_include_user_agent() {
    let expected_ua = format!("govee/{VERSION}");
    let backend = backend_for("test-key");
    assert_eq!(backend.user_agent(), expected_ua);
}

#[test]
fn list_devices_auth_failure() {
    let mut server = Server::start();
    server.mount(
        Mock::given(Method::Get, "/v1/devices")
            .key("bad-key")
            .respond(401, "Unauthorized"),
    );

    let mut backend = backend_for("bad-key");
    let result = list_devices(&server, &mut backend);

    assert!(result.is_err());
    let err = result.unwrap_err();
    match &err {
        GoveeError::Api { code, message } => {
            assert_eq!(*code, 401);
            assert!(message.contains("Unauthorized"));
        }
        other => panic!("expected GoveeError::Api, got: {other:?}"),
    }
}

#[test]
fn list_devices_malformed_response() {
    let mut server = Server::start();
    server.mount(Mock::given(Method::Get, "/v1/devices").respond(200, "{not valid json"));

    let mut backend = backend_for("test-key");
    let result = list_devices(&server, &mut backend);

    assert!(result.is_err());
    // A body that is not JSON surfaces as GoveeError::Request.
    assert!(matches!(result.unwrap_err(), GoveeError::Request(_)));
}

#[test]
fn list_devices_empty() {
    let response = r#"{
        "data": { "devices": [] },
        "code": 200,
        "message": "Success"
    }"#;

    let mut server = Server::start();
    server.mount(Mock::given(Method::Get, "/v1/devices").respond(200, response));

    let mut backend = backend_for("test-key");
    let devices = list_devices(&server, &mut backend).unwrap();
    assert!(devices.is_empty());
}

#[test]
fn list_devices_api_error_code_in_body() {
    let response = r#"{
        "data": { "devices": [] },
        "code": 401,
        "message": "Invalid API key"
    }"#;

    let mut server = Server::start();
    server.mount(Mock::given(Method::Get, "/v1/devices").respond(200, response));

    let mut backend = backend_for("test-key");
    let result = list_devices(&server, &mut backend);

    assert!(result.is_err());
    match result.unwrap_err() {
        GoveeError::Api { code, message } => {
            assert_eq!(code, 401);
            assert_eq!(message, "Invalid API key");
        }
        other => panic!("expected GoveeError::Api, got: {other:?}"),
    }
}

#[test]
fn list_devices_rate_limited() {
    let mut server = Server::start();
    server.mount(
        Mock::given(Method::Get, "/v1/devices")
            .respond(429, "Too Many Requests")
            .retry_after("120"),
    );

    let mut backend = backend_for("test-key");
    let result = list_devices(&server, &mut backend);

    assert!(result.is_err());
    match result.unwrap_err() {
        GoveeError::RateLimited { retry_after_secs } => {
            assert_eq!(retry_after_secs, 120);
        }
        other => panic!("expected GoveeError::RateLimited, got: {other:?}"),
    }
}

#[test]
fn list_devices_rate_limited_no_header() {
    let mut server = Server::start();
    server.mount(Mock::given(Method::Get, "/v1/devices").respond(429, "Too Many Requests"));

    let mut backend = backend_for("test-key");
    let result = list_devices(&server, &mut backend);

    match result.unwrap_err() {
        GoveeError::RateLimited { retry_after_secs } => {
            assert_eq!(retry_after_secs, 60); // default fallback
        }
        other => panic!("expected GoveeError::RateLimited, got: {other:?}"),
    }
}

// --- get_state tests ---

#[test]
fn get_state_happy_path() {
    let (mut server, mut backend, id) = setup();
    server.mount(
        Mock::given(Method::Get, "/v1/devices/state")
            .query("device=AA%3ABB%3ACC%3ADD%3AEE%3AFF&model=H6076")
            .respond(200, STATE_RESPONSE),
    );

    let state = get_state(&server, &mut backend, &id).unwrap();
    assert!(state.on);
    assert_eq!(state.brightness, 75);
    assert_eq!(state.color, Color::new(255, 128, 0));
    assert_eq!(state.color_temp_kelvin, Some(5000));
    assert!(!state.stale);
}

#[test]
fn get_state_device_not_found_without_cache() {
    let mut server = Server::start();
    let mut backend = backend_for("test-key");

    // The refresh lists the devices: an empty list.
    server.mount(Mock::given(Method::Get, "/v1/devices").respond(
        200,
        r#"{"data": { "devices": [] }, "message": "Success", "code": 200}"#,
    ));

    let id = device();
    let result = get_state(&server, &mut backend, &id);

    assert!(result.is_err());
    assert!(matches!(result.unwrap_err(), GoveeError::DeviceNotFound(_)));
}

#[test]
fn get_state_refreshes_the_device_list() {
    let mut server = Server::start();
    let mut backend = backend_for("test-key");
    server.mount(devices_mock());
    server.mount(Mock::given(Method::Get, "/v1/devices/state").respond(200, STATE_RESPONSE));

    let state = get_state(&server, &mut backend, &device()).unwrap();
    assert_eq!(state.brightness, 75);
    assert_eq!(backend.get_model(&device()).unwrap(), "H6076");
}

#[test]
fn get_state_stale_when_offline() {
    let offline_response = r#"{
        "data": {
            "device": "AA:BB:CC:DD:EE:FF",
            "model": "H6076",
            "properties": [
                { "online": false },
                { "powerState": "off" },
                { "brightness": 50 },
                { "color": { "r": 0, "g": 0, "b": 0 } }
            ]
        },
        "code": 200,
        "message": "Success"
    }"#;

    let (mut server, mut backend, id) = setup();
    server.mount(
        Mock::given(Method::Get, "/v1/devices/state")
            .query("device=AA%3ABB%3ACC%3ADD%3AEE%3AFF&model=H6076")
            .respond(200, offline_response),
    );

    let state = get_state(&server, &mut backend, &id).unwrap();
    assert!(state.stale);
    assert!(!state.on);
    assert_eq!(state.brightness, 50);
}

#[test]
fn get_state_rate_limited() {
    let (mut server, mut backend, id) = setup();
    server.mount(
        Mock::given(Method::Get, "/v1/devices/state")
            .respond(429, "Too Many Requests")
            .retry_after("30"),
    );

    let result = get_state(&server, &mut backend, &id);

    match result.unwrap_err() {
        GoveeError::RateLimited { retry_after_secs } => {
            assert_eq!(retry_after_secs, 30);
        }
        other => panic!("expected GoveeError::RateLimited, got: {other:?}"),
    }
}

// --- control command tests ---

#[test]
fn set_power_on() {
    let (mut server, backend, id) = setup();
    server.mount(control_mock().body_json(
        r#"{
            "device": "AA:BB:CC:DD:EE:FF",
            "model": "H6076",
            "cmd": { "name": "turn", "value": "on" }
        }"#,
    ));
    set_power(&server, &backend, &id, true).unwrap();
}

#[test]
fn set_power_off() {
    let (mut server, backend, id) = setup();
    server.mount(control_mock().body_json(
        r#"{
            "device": "AA:BB:CC:DD:EE:FF",
            "model": "H6076",
            "cmd": { "name": "turn", "value": "off" }
        }"#,
    ));
    set_power(&server, &backend, &id, false).unwrap();
}

#[test]
fn set_brightness_valid() {
    let (mut server, backend, id) = setup();
    server.mount(control_mock().body_json(
        r#"{
            "device": "AA:BB:CC:DD:EE:FF",
            "model": "H6076",
            "cmd": { "name": "brightness", "value": 75 }
        }"#,
    ));
    set_brightness(&server, &backend, &id, 75).unwrap();
}

#[test]
fn set_brightness_over_100_rejected() {
    let (server, backend, id) = setup();
    let result = set_brightness(&server, &backend, &id, 101);
    assert!(result.is_err());
    assert!(matches!(
        result.unwrap_err(),
        GoveeError::InvalidBrightness(101)
    ));
}

#[test]
fn set_color_rgb() {
    let (mut server, backend, id) = setup();
    server.mount(control_mock().body_json(
        r#"{
            "device": "AA:BB:CC:DD:EE:FF",
            "model": "H6076",
            "cmd": { "name": "color", "value": {"r": 255, "g": 0, "b": 128} }
        }"#,
    ));
    set_color(&server, &backend, &id, Color::new(255, 0, 128)).unwrap();
}

#[test]
fn set_color_temp_valid() {
    let (mut server, backend, id) = setup();
    server.mount(control_mock().body_json(
        r#"{
            "device": "AA:BB:CC:DD:EE:FF",
            "model": "H6076",
            "cmd": { "name": "colorTem", "value": 5000 }
        }"#,
    ));
    set_color_temp(&server, &backend, &id, 5000).unwrap();
}

#[test]
fn control_command_device_not_found() {
    let server = Server::start();
    let backend = backend_for("test-key");

    let id = device();
    let result = set_power(&server, &backend, &id, true);
    assert!(matches!(result.unwrap_err(), GoveeError::DeviceNotFound(_)));
}

#[test]
fn control_command_rate_limited() {
    let (mut server, backend, id) = setup();
    server.mount(
        Mock::given(Method::Put, "/v1/devices/control")
            .respond(429, "Too Many Requests")
            .retry_after("1"),
    );

    let (result, waits) = control(&server, &backend, &id, Command::Power(true));
    match result.unwrap_err() {
        GoveeError::RateLimited { retry_after_secs } => assert_eq!(retry_after_secs, 1),
        other => panic!("expected RateLimited, got: {other:?}"),
    }
    assert_eq!(waits, [1000, 1000, 1000]);
}

#[test]
fn control_command_api_error() {
    let (mut server, backend, id) = setup();
    server.mount(
        Mock::given(Method::Put, "/v1/devices/control")
            .any_key()
            .respond(500, "Internal Server Error"),
    );

    let (result, waits) = control(&server, &backend, &id, Command::Brightness(50));
    match result.unwrap_err() {
        GoveeError::Api { code, .. } => assert_eq!(code, 500),
        other => panic!("expected Api error, got: {other:?}"),
    }
    assert_eq!(waits, [1000, 2000, 4000]);
}

#[test]
fn set_brightness_boundary_zero() {
    let (mut server, backend, id) = setup();
    server.mount(control_mock());
    set_brightness(&server, &backend, &id, 0).unwrap();
}

#[test]
fn set_brightness_boundary_100() {
    let (mut server, backend, id) = setup();
    server.mount(control_mock());
    set_brightness(&server, &backend, &id, 100).unwrap();
}

#[test]
fn control_command_api_error_in_body() {
    let error_response = r#"{"code": 400, "message": "Device offline"}"#;

    let (mut server, backend, id) = setup();
    server.mount(Mock::given(Method::Put, "/v1/devices/control").respond(200, error_response));

    let (result, waits) = control(&server, &backend, &id, Command::Power(true));
    match result.unwrap_err() {
        GoveeError::Api { code, message } => {
            assert_eq!(code, 400);
            assert_eq!(message, "Device offline");
        }
        other => panic!("expected Api error, got: {other:?}"),
    }
    assert!(waits.is_empty());
}

#[test]
fn set_color_temp_zero_rejected() {
    let (server, backend, id) = setup();
    let result = set_color_temp(&server, &backend, &id, 0);
    assert!(result.is_err());
    assert!(matches!(result.unwrap_err(), GoveeError::InvalidConfig(_)));
}

// --- new_api_post and new_api_get tests ---

#[test]
fn new_api_post_success() {
    let mut server = Server::start();
    server.mount(
        Mock::given(Method::Post, "/v2/test/endpoint")
            .has_request_id()
            .body_partial_json(r#"{"payload": { "cmd": "ping" }}"#)
            .respond(
                200,
                r#"{
                    "requestId": "test-req-id",
                    "msg": "success",
                    "code": 200,
                    "payload": { "value": 42 }
                }"#,
            ),
    );

    let backend = new_api_backend_for("test-key");
    let result = new_api_post(&server, &backend, "/v2/test/endpoint", r#"{"cmd": "ping"}"#).unwrap();
    assert_eq!(result.get_u64("value"), Some(42));
}

/// The error of a post that the server answers in the given way.
fn post_error(key: &'static str, status: u16, answer: &str) -> GoveeError {
    let mut server = Server::start();
    server.mount(
        Mock::given(Method::Post, "/v2/test/endpoint")
            .key(key)
            .respond(status, answer),
    );
    let backend = new_api_backend_for(key);
    new_api_post(&server, &backend, "/v2/test/endpoint", "{}").unwrap_err()
}

#[test]
fn new_api_post_http_401() {
    match post_error("bad-key", 401, "Unauthorized") {
        GoveeError::Api { code, message } => {
            assert_eq!(code, 401);
            assert!(message.contains("Unauthorized"), "message was: {message}");
        }
        other => panic!("expected GoveeError::Api(401), got: {other:?}"),
    }
}

#[test]
fn new_api_post_http_429() {
    match post_error("test-key", 429, "Too Many Requests") {
        GoveeError::RateLimited { retry_after_secs } => {
            assert_eq!(retry_after_secs, 60);
        }
        other => panic!("expected GoveeError::RateLimited, got: {other:?}"),
    }
}

#[test]
fn new_api_post_http_400() {
    match post_error("test-key", 400, "Bad Request") {
        GoveeError::Api { code, message } => {
            assert_eq!(code, 400);
            assert!(message.contains("Bad Request"), "message was: {message}");
        }
        other => panic!("expected GoveeError::Api(400), got: {other:?}"),
    }
}

#[test]
fn new_api_post_envelope_code_400() {
    // HTTP 200 but the response envelope carries code 400.
    let response_body = r#"{
        "requestId": "test-req-id",
        "msg": "Device offline",
        "code": 400,
        "payload": {}
    }"#;
    match post_error("test-key", 200, response_body) {
        GoveeError::Api { code, message } => {
            assert_eq!(code, 400);
            assert_eq!(message, "Device offline");
        }
        other => panic!("expected GoveeError::Api(400), got: {other:?}"),
    }
}

#[test]
fn new_api_post_envelope_code_401() {
    let response_body = r#"{
        "requestId": "test-req-id",
        "msg": "Invalid API key",
        "code": 401,
        "payload": {}
    }"#;
    match post_error("test-key", 200, response_body) {
        GoveeError::Api { code, message } => {
            assert_eq!(code, 401);
            assert_eq!(message, "Invalid API key");
        }
        other => panic!("expected GoveeError::Api(401), got: {other:?}"),
    }
}

#[test]
fn new_api_post_envelope_code_404() {
    let response_body = r#"{
        "requestId": "test-req-id",
        "msg": "Device not found",
        "code": 404,
        "payload": {}
    }"#;
    match post_error("test-key", 200, response_body) {
        GoveeError::Api { code, message } => {
            assert_eq!(code, 404);
            assert!(
                message.contains("Device not found"),
                "message was: {message}"
            );
        }
        other => panic!("expected GoveeError::Api(404), got: {other:?}"),
    }
}

#[test]
fn new_api_post_envelope_code_429() {
    let response_body = r#"{
        "requestId": "test-req-id",
        "msg": "Too many requests",
        "code": 429,
        "payload": {}
    }"#;
    match post_error("test-key", 200, response_body) {
        GoveeError::RateLimited { retry_after_secs } => {
            assert_eq!(retry_after_secs, 60);
        }
        other => panic!("expected GoveeError::RateLimited, got: {other:?}"),
    }
}

#[test]
fn new_api_post_envelope_code_other() {
    // HTTP 200 but envelope carries an "other" code (503).
    let response_body = r#"{
        "requestId": "test-req-id",
        "msg": "Service unavailable",
        "code": 503,
        "payload": {}
    }"#;
    match post_error("test-key", 200, response_body) {
        GoveeError::Api { code, message } => {
            assert_eq!(code, 503);
            assert_eq!(message, "Service unavailable");
        }
        other => panic!("expected GoveeError::Api(503), got: {other:?}"),
    }
}

#[test]
fn new_api_post_http_404() {
    match post_error("test-key", 404, "Not Found") {
        GoveeError::Api { code, message } => {
            assert_eq!(code, 404);
            assert!(message.contains("Not Found"), "message was: {message}");
        }
        other => panic!("expected GoveeError::Api(404), got: {other:?}"),
    }
}

#[test]
fn new_api_post_http_500() {
    match post_error("test-key", 500, "Internal Server Error") {
        GoveeError::Api { code, message } => {
            assert_eq!(code, 500);
            assert!(
                message.contains("Internal Server Error"),
                "message was: {message}"
            );
        }
        other => panic!("expected GoveeError::Api(500), got: {other:?}"),
    }
}

#[test]
fn new_api_post_http_503() {
    match post_error("test-key", 503, "Service Unavailable") {
        GoveeError::Api { code, message } => {
            assert_eq!(code, 503);
            assert!(
                message.contains("Service Unavailable"),
                "message was: {message}"
            );
        }
        other => panic!("expected GoveeError::Api(503), got: {other:?}"),
    }
}

#[test]
fn new_api_get_success() {
    let mut server = Server::start();
    server.mount(Mock::given(Method::Get, "/v2/test/resource").respond(
        200,
        r#"{
            "requestId": "test-req-id",
            "msg": "success",
            "code": 200,
            "payload": { "count": 7 }
        }"#,
    ));

    let backend = new_api_backend_for("test-key");
    let result = new_api_get(&server, &backend, "/v2/test/resource").unwrap();
    assert_eq!(result.get_u64("count"), Some(7));
}

#[test]
fn new_api_get_http_401() {
    let mut server = Server::start();
    server.mount(
        Mock::given(Method::Get, "/v2/test/resource")
            .key("bad-key")
            .respond(401, "Unauthorized"),
    );

    let backend = new_api_backend_for("bad-key");
    let result = new_api_get(&server, &backend, "/v2/test/resource");

    assert!(result.is_err());
    match result.unwrap_err() {
        GoveeError::Api { code, message } => {
            assert_eq!(code, 401);
            assert!(message.contains("Unauthorized"), "message was: {message}");
        }
        other => panic!("expected GoveeError::Api(401), got: {other:?}"),
    }
}

#[test]
fn control_v2_set_power_on() {
    let (mut server, backend, id) = setup();
    server.mount(v2_control_mock().body_partial_json(
        r#"{
            "payload": {
                "sku": "H6076",
                "device": "AA:BB:CC:DD:EE:FF",
                "capability": {
                    "type": "devices.capabilities.on_off",
                    "instance": "powerSwitch",
                    "value": 1
                }
            }
        }"#,
    ));
    set_power(&server, &backend, &id, true).unwrap();
}

#[test]
fn control_v2_set_brightness() {
    let (mut server, backend, id) = setup();
    server.mount(v2_control_mock().body_partial_json(
        r#"{
            "payload": {
                "sku": "H6076",
                "device": "AA:BB:CC:DD:EE:FF",
                "capability": {
                    "type": "devices.capabilities.range",
                    "instance": "brightness",
                    "value": 80
                }
            }
        }"#,
    ));
    set_brightness(&server, &backend, &id, 80).unwrap();
}

#[test]
fn control_v2_set_color() {
    let (mut server, backend, id) = setup();
    // Color::new(255, 128, 0) packed = 0xFF8000 = 16744448
    server.mount(v2_control_mock().body_partial_json(
        r#"{
            "payload": {
                "sku": "H6076",
                "device": "AA:BB:CC:DD:EE:FF",
                "capability": {
                    "type": "devices.capabilities.color_setting",
                    "instance": "colorRgb",
                    "value": 16744448
                }
            }
        }"#,
    ));
    set_color(&server, &backend, &id, Color::new(255, 128, 0)).unwrap();
}

#[test]
fn control_v2_fallback() {
    let (mut server, backend, id) = setup();

    // v2 endpoint returns 404 (API error): falls back to legacy PUT.
    server.mount(
        Mock::given(Method::Post, "/router/api/v1/device/control").respond(404, "Not Found"),
    );
    // Legacy PUT endpoint should be called as fallback.
    server.mount(control_mock());

    set_power(&server, &backend, &id, true).unwrap();
}

#[test]
fn control_v2_rate_limit_is_handed_on() {
    let (mut server, backend, id) = setup();
    server.mount(
        Mock::given(Method::Post, "/router/api/v1/device/control")
            .respond(429, "Too Many Requests")
            .retry_after("9"),
    );
    server.mount(control_mock());
    let (result, waits) = control(&server, &backend, &id, Command::Power(true));
    assert!(matches!(
        result,
        Err(GoveeError::RateLimited {
            retry_after_secs: 9
        })
    ));
    assert!(waits.is_empty());
}

#[test]
fn get_state_v2_success() {
    let (mut server, mut backend, id) = setup();
    server.mount(
        Mock::given(Method::Post, "/router/api/v1/device/state")
            .has_request_id()
            .body_partial_json(
                r#"{"payload": { "sku": "H6076", "device": "AA:BB:CC:DD:EE:FF" }}"#,
            )
            .respond(200, V2_STATE_RESPONSE),
    );

    let state = get_state(&server, &mut backend, &id).unwrap();

    assert!(state.on);
    assert_eq!(state.brightness, 80);
    // 0xFF8000 = 16744448 is r=255, g=128, b=0
    assert_eq!(state.color, Color::new(255, 128, 0));
    assert_eq!(state.color_temp_kelvin, Some(4000));
    assert!(state.raw.is_empty());
}

#[test]
fn get_state_v2_unknown_capability_in_raw() {
    let (mut server, mut backend, id) = setup();

    let response_with_unknown = r#"{
        "requestId": "test-req-id",
        "msg": "success",
        "code": 200,
        "payload": {
            "sku": "H6076",
            "device": "AA:BB:CC:DD:EE:FF",
            "capabilities": [
                { "type": "devices.capabilities.on_off", "instance": "powerSwitch", "state": { "value": 1 } },
                { "type": "devices.capabilities.range", "instance": "brightness", "state": { "value": 80 } },
                { "type": "devices.capabilities.color_setting", "instance": "colorRgb", "state": { "value": 16744448 } },
                { "type": "devices.capabilities.color_setting", "instance": "colorTemperatureK", "state": { "value": 4000 } },
                { "type": "devices.capabilities.music_mode", "instance": "musicMode", "state": { "value": 2 } }
            ]
        }
    }"#;
    server.mount(
        Mock::given(Method::Post, "/router/api/v1/device/state").respond(200, response_with_unknown),
    );

    let state = get_state(&server, &mut backend, &id).unwrap();

    assert!(state.on);
    assert_eq!(state.brightness, 80);
    assert_eq!(state.color, Color::new(255, 128, 0));
    assert_eq!(state.color_temp_kelvin, Some(4000));

    let raw_key = "devices.capabilities.music_mode/musicMode";
    assert!(state.raw.contains_key(raw_key));
    assert_eq!(state.raw.len(), 1);
    assert_eq!(state.raw.get(raw_key), Some(&Json::Unsigned(2)));
}

#[test]
fn get_state_v2_fallback() {
    let (mut server, mut backend, id) = setup();

    // v2 endpoint returns 500: falls back to legacy v1 endpoint.
    server.mount(
        Mock::given(Method::Post, "/router/api/v1/device/state")
            .respond(500, "Internal Server Error"),
    );
    server.mount(
        Mock::given(Method::Get, "/v1/devices/state")
            .query("device=AA%3ABB%3ACC%3ADD%3AEE%3AFF&model=H6076")
            .respond(200, STATE_RESPONSE),
    );

    let state = get_state(&server, &mut backend, &id).unwrap();

    // Values from the legacy STATE_RESPONSE
    assert!(state.on);
    assert_eq!(state.brightness, 75);
    assert_eq!(state.color, Color::new(255, 128, 0));
    assert_eq!(state.color_temp_kelvin, Some(5000));
}

/// When the envelope carries a non-200 code, the error must be returned even
/// if the payload does not have the shape that the caller expects.
#[test]
fn new_api_post_envelope_error_with_concrete_type() {
    let mut server = Server::start();

    // HTTP 200, envelope code 400, payload is an empty object (no EnumOption).
    let answer = |code: u32| {
        format!(r#"{{"requestId": "x", "msg": "bad", "code": {code}, "payload": {{}}}}"#)
    };
    server.mount(Mock::given(Method::Post, "/v2/test/endpoint").respond(200, &answer(400)));
    server.mount(Mock::given(Method::Post, "/v2/test/fine").respond(200, &answer(200)));

    let backend = new_api_backend_for("test-key");
    let send = |path: &str| {
        let request = backend.new_api_post(path, Json::empty_object()).ok().unwrap();
        receive_payload_value::<EnumOption>(server.send(&request))
    };
    let result = send("/v2/test/endpoint");

    assert!(result.is_err());
    match result.unwrap_err() {
        GoveeError::Api { code, message } => {
            assert_eq!(code, 400);
            assert_eq!(message, "bad");
        }
        other => panic!("expected GoveeError::Api(400), got: {other:?}"),
    }
    assert!(matches!(send("/v2/test/fine"), Err(GoveeError::Json(_))));
}

// --- list_devices_v2 tests ---

fn v2_devices_mock() -> Mock {
    Mock::given(Method::Get, "/router/api/v1/user/devices")
}

#[test]
fn list_devices_v2_success() {
    let mut server = Server::start();

    // v2 endpoint returns one device with capabilities.
    server.mount(v2_devices_mock().respond(200, V2_DEVICES_RESPONSE));

    let mut backend = backend_for("test-key");
    let devices = list_devices(&server, &mut backend).unwrap();

    assert_eq!(devices.len(), 1);
    assert_eq!(devices[0].id.as_str(), "AA:BB:CC:DD:EE:FF");
    assert_eq!(devices[0].model, "H6076");
    assert_eq!(devices[0].name, "Kitchen");

    // Capabilities should be stored and retrievable.
    let id = device();
    let caps = backend.get_capabilities(&id).unwrap();
    assert_eq!(caps.len(), 1);
    assert_eq!(caps[0].type_, "devices.capabilities.on_off");
    assert_eq!(caps[0].instance, "powerSwitch");
}

#[test]
fn list_devices_v2_unknown_capability() {
    let response = r#"{
        "code": 200,
        "msg": "success",
        "requestId": "x",
        "data": [
            {
                "sku": "H6076",
                "device": "AA:BB:CC:DD:EE:FF",
                "deviceName": "Kitchen",
                "capabilities": [
                    {
                        "type": "devices.capabilities.future",
                        "instance": "futureSwitch",
                        "parameters": {
                            "dataType": "UNKNOWN_FUTURE_TYPE",
                            "someField": 99
                        }
                    }
                ]
            }
        ]
    }"#;

    let mut server = Server::start();
    server.mount(Mock::given(Method::Get, "/v1/devices").respond(
        200,
        r#"{"data": { "devices": [] }, "code": 200, "message": "Success"}"#,
    ));
    server.mount(v2_devices_mock().respond(200, response));

    let mut backend = backend_for("test-key");
    // Must succeed: the unknown capability is read as the Unknown variant.
    let devices = list_devices(&server, &mut backend).unwrap();
    assert_eq!(devices.len(), 1);

    let id = device();
    let caps = backend.get_capabilities(&id).unwrap();
    assert_eq!(caps.len(), 1);
    assert_eq!(caps[0].type_, "devices.capabilities.future");
    match &caps[0].parameters {
        CapabilityParameters::Unknown(v) => {
            assert_eq!(v.get_str("dataType"), Some("UNKNOWN_FUTURE_TYPE"));
            assert_eq!(v.get_u64("someField"), Some(99));
        }
        other => panic!("expected Unknown capability parameters, got: {other:?}"),
    }
}

#[test]
fn list_devices_fallback_to_legacy() {
    let mut server = Server::start();

    // Legacy v1 endpoint returns its devices.
    server.mount(devices_mock());
    // v2 endpoint returns 500: falls back to legacy.
    server.mount(v2_devices_mock().respond(500, "Internal Server Error"));

    let mut backend = backend_for("test-key");
    let devices = list_devices(&server, &mut backend).unwrap();

    // Should fall back to legacy device list (2 devices from HAPPY_RESPONSE).
    assert_eq!(devices.len(), 2);
    assert_eq!(devices[0].id.as_str(), "AA:BB:CC:DD:EE:FF");
    assert_eq!(devices[1].id.as_str(), "11:22:33:44:55:66");
}

// --- work mode tests ---

#[test]
fn list_work_modes_returns_modes() {
    let mut server = Server::start();
    // v2 device list with work_mode capability, and the v1 device list.
    server.mount(v2_devices_mock().respond(200, V2_WORK_MODE_DEVICES_RESPONSE));
    server.mount(devices_mock());

    let mut backend = backend_for("test-key");
    list_devices(&server, &mut backend).unwrap();

    let modes = backend.list_work_modes(&device());

    assert_eq!(modes.len(), 2);
    assert_eq!(modes[0].id, 1);
    assert_eq!(modes[0].name, "Music");
    assert!(modes[0].sub_modes.is_empty());
    assert_eq!(modes[1].id, 2);
    assert_eq!(modes[1].name, "Scene");
    assert!(modes[1].sub_modes.is_empty());
}

#[test]
fn list_work_modes_empty_when_no_cap() {
    let mut server = Server::start();
    // v2 device list with no work_mode capability, and the v1 device list.
    server.mount(v2_devices_mock().respond(200, V2_DEVICES_RESPONSE));
    server.mount(devices_mock());

    let mut backend = backend_for("test-key");
    list_devices(&server, &mut backend).unwrap();

    let modes = backend.list_work_modes(&device());
    assert!(modes.is_empty());
}

#[test]
fn set_work_mode_sends_correct_payload() {
    let (mut server, backend, id) = setup();
    server.mount(v2_control_mock().body_partial_json(
        r#"{
            "payload": {
                "sku": "H6076",
                "device": "AA:BB:CC:DD:EE:FF",
                "capability": {
                    "type": "devices.capabilities.work_mode",
                    "instance": "workMode",
                    "value": { "workMode": 1, "modeValue": 3 }
                }
            }
        }"#,
    ));

    let request = backend.set_work_mode(&id, 1, Some(3)).ok().unwrap();
    CloudBackend::control_reply(server.send(&request)).unwrap();
}

// --- scene tests ---

const V2_SCENE_DEVICES_RESPONSE: &str = r#"{
    "code": 200, "msg": "success", "requestId": "x",
    "data": [{
        "sku": "H6076",
        "device": "AA:BB:CC:DD:EE:FF",
        "deviceName": "Test",
        "capabilities": [
            {
                "type": "devices.capabilities.dynamic_scene",
                "instance": "lightScene",
                "parameters": { "dataType": "ENUM", "options": [] }
            },
            {
                "type": "devices.capabilities.dynamic_scene",
                "instance": "diyScene",
                "parameters": { "dataType": "ENUM", "options": [] }
            }
        ]
    }]
}"#;

/// A backend that knows a device with scenes.
fn setup_scenes() -> (Server, CloudBackend, DeviceId) {
    let mut server = Server::start();
    let mut backend = backend_for("test-key");
    server.mount(v2_devices_mock().respond(200, V2_SCENE_DEVICES_RESPONSE));
    list_devices(&server, &mut backend).unwrap();
    (server, backend, device())
}

#[test]
fn scenes_of_a_device_without_them() {
    let (_, backend, id) = setup();
    assert!(backend.list_scenes(&id).ok().unwrap().is_none());
    assert!(backend.list_diy_scenes(&id).ok().unwrap().is_none());
}

#[test]
fn scenes_are_listed() {
    let (mut server, backend, id) = setup_scenes();
    let asked = r#"{"payload": { "sku": "H6076", "device": "AA:BB:CC:DD:EE:FF" }}"#;
    server.mount(
        Mock::given(Method::Post, "/router/api/v1/device/scenes")
            .has_request_id()
            .body_partial_json(asked)
            .respond(
                200,
                r#"{
                    "requestId": "x", "msg": "success", "code": 200,
                    "payload": { "scenes": [{ "sceneId": 3, "sceneName": "Sunrise", "sceneParamId": 7 }] }
                }"#,
            ),
    );
    server.mount(
        Mock::given(Method::Post, "/router/api/v1/device/diy-scenes")
            .has_request_id()
            .body_partial_json(asked)
            .respond(
                200,
                r#"{
                    "requestId": "x", "msg": "success", "code": 200,
                    "payload": { "diyScenes": [{ "sceneId": 5, "sceneName": "Mine" }] }
                }"#,
            ),
    );
    let request = backend.list_scenes(&id).ok().unwrap().unwrap();
    let scenes = receive_scenes(server.send(&request)).unwrap();
    assert_eq!(scenes.len(), 1);
    assert_eq!(scenes[0].id, 3);
    assert_eq!(scenes[0].name, "Sunrise");
    assert_eq!(scenes[0].param_id, 7);

    let request = backend.list_diy_scenes(&id).ok().unwrap().unwrap();
    let scenes = receive_diy_scenes(server.send(&request)).unwrap();
    assert_eq!(scenes.len(), 1);
    assert_eq!(scenes[0].id, 5);
    assert_eq!(scenes[0].name, "Mine");
}

#[test]
fn scenes_are_set() {
    let (_, backend, id) = setup_scenes();
    let capability = |request: CloudRequest| {
        let body = Json::parse(&request.body.unwrap()).unwrap();
        body.get("payload").unwrap().get("capability").unwrap().clone()
    };
    let scene = LightScene {
        id: 3,
        name: "Sunrise".into(),
        param_id: 7,
    };
    let set = capability(backend.set_scene(&id, &scene).ok().unwrap());
    assert_eq!(
        set,
        json(
            r#"{
                "instance": "lightScene",
                "type": "devices.capabilities.dynamic_scene",
                "value": { "id": 3, "paramId": 7 }
            }"#
        )
    );
    let scene = DiyScene {
        id: 5,
        name: "Mine".into(),
    };
    let set = capability(backend.set_diy_scene(&id, &scene).ok().unwrap());
    assert_eq!(set.get_str("instance"), Some("diyScene"));
    assert_eq!(set.get_u64("value"), Some(5));
}

#[test]
fn every_request_carries_the_key() {
    let (_, backend, id) = setup_scenes();
    for request in [
        backend.v1_list_request().ok().unwrap(),
        backend.v2_list_request().ok().unwrap(),
        backend.new_api_get("/x").ok().unwrap(),
        backend.new_api_post("/x", Json::Null).ok().unwrap(),
        backend.list_scenes(&id).ok().unwrap().unwrap(),
        backend.set_work_mode(&id, 1, None).ok().unwrap(),
        backend.control_v1(&id, "turn", Json::Null).ok().unwrap(),
    ] {
        assert_eq!(request.api_key, "test-key");
        assert!(request.url.starts_with(URI));
    }
}
