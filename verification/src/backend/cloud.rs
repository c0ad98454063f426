//! The cloud API backend.
//!
//! Nothing here sends anything: the functions say which request comes next and
//! what a reply means.
use vstd::prelude::*;
use vstd::string::*;

use crate::backend;
use crate::backend::reply;
use crate::backend::reply::check_response;
use crate::backend::reply::map_code_err;
use crate::backend::reply::read_control_result;
use crate::backend::reply::receive;
use crate::backend::reply::receive_payload;
use crate::backend::reply::receive_payload_value;
use crate::backend::reply::HttpReply;
use crate::backend::reply::ReplyView;
use crate::backend::reply::V1StateResponse;
use crate::backend::reply::V2Device;
use crate::backend::reply::V2DeviceView;
use crate::backend::reply::V2StateResponse;
use crate::backend::state;
use crate::backend::state::build_state_from_capabilities;
use crate::backend::state::build_state_from_properties;
use crate::backend::url;
use crate::backend::url::add_pairs;
use crate::backend::url::build_legacy_url;
use crate::backend::url::build_new_api_url;
use crate::backend::url::check_url;
use crate::backend::url::HttpUrl;
use crate::backend::url::UrlView;
use crate::backend::Command;
use crate::backend::GoveeBackend;
use crate::capability::Capability;
use crate::capability::CapabilityParameters;
use crate::capability::CapabilityValue;
use crate::capability::CapabilityView;
use crate::capability::DynamicSceneValue;
use crate::capability::EnumOptionView;
use crate::capability::ParametersView;
use crate::decode;
use crate::decode::ToJson;
use crate::error;
use crate::error::joined;
use crate::error::ErrorView;
use crate::error::GoveeError;
use crate::json;
use crate::json::debug_json;
use crate::json::write_json;
use crate::json::Json;
use crate::json::JsonView;
use crate::names::NameMap;
use crate::text;
use crate::text::chars_of;
use crate::text::contains;
use crate::text::decimal_text;
use crate::text::push_part;
use crate::text::quote;
use crate::text::same;
use crate::types;
use crate::types::BackendType;
use crate::types::Device;
use crate::types::DeviceId;
use crate::types::DeviceState;
use crate::types::DeviceStateView;
use crate::types::DeviceView;
use crate::types::DiyScene;
use crate::types::LightScene;
use crate::types::WorkMode;

verus! {

/// Version of the library.
pub const VERSION: &'static str = "0.6.0";

/// Default base URL for the Govee cloud API.
pub const DEFAULT_BASE_URL: &'static str = "https://developer-api.govee.com";

/// Base URL for the Govee new (OpenAPI) cloud API.
pub const NEW_API_BASE: &'static str = "https://openapi.api.govee.com";

/// Default request timeout in seconds (covers the entire request lifecycle).
pub const DEFAULT_TIMEOUT_SECS: u64 = 30;

/// Default connection timeout in seconds (TCP + TLS handshake).
pub const DEFAULT_CONNECT_TIMEOUT_SECS: u64 = 10;

/// Maximum retry-after delay honored from a 429 response.
/// Prevents a server from blocking the client indefinitely.
pub const MAX_RETRY_AFTER_SECS: u64 = 300;

/// Maximum number of retries for transient errors and rate limiting.
pub const MAX_RETRIES: u32 = 3;

/// User-Agent header identifying the library and version.
pub fn user_agent() -> (r: String)
    ensures
        r@ == "govee/"@ + VERSION@,
{
    joined("govee/", VERSION)
}

/// HTTP method of a request.
#[derive(Debug, Clone, Copy, PartialEq, Eq, Structural)]
pub enum Method {
    Get,
    Post,
    Put,
}

/// A request to the cloud API. The API key goes into the `Govee-API-Key`
/// header, and the body is JSON.
pub struct CloudRequest {
    pub method: Method,
    pub url: String,
    pub api_key: String,
    pub body: Option<Vec<u8>>,
}

/// What a request is.
pub struct RequestView {
    pub method: Method,
    pub url: Seq<char>,
    pub api_key: Seq<char>,
    pub body: Option<Seq<u8>>,
}

impl View for CloudRequest {
    type V = RequestView;

    open spec fn view(&self) -> RequestView {
        RequestView {
            method: self.method,
            url: self.url@,
            api_key: self.api_key@,
            body: decode::seen(self.body),
        }
    }
}

/// Cloud API backend.
///
/// Authenticates via `Govee-API-Key` header. Base URL defaults to
/// `https://developer-api.govee.com` but can be overridden for testing. Both
/// base URLs use HTTPS or are on this machine.
pub struct CloudBackend {
    base_url: HttpUrl,
    /// Base URL for the new (OpenAPI) Govee API.
    new_api_base: HttpUrl,
    api_key: String,
    user_agent: String,
    /// Device ID to model mapping, populated by device lists.
    device_models: NameMap<String>,
    /// Device ID to capability list, populated by v2 device lists.
    device_capabilities: NameMap<Vec<Capability>>,
}

/// What a cloud backend holds.
#[verifier::ext_equal]
pub struct CloudView {
    pub base: UrlView,
    pub new_base: UrlView,
    pub api_key: Seq<char>,
    pub user_agent: Seq<char>,
    pub models: Map<Seq<char>, Seq<char>>,
    pub capabilities: Map<Seq<char>, Seq<CapabilityView>>,
}

impl View for CloudBackend {
    type V = CloudView;

    closed spec fn view(&self) -> CloudView {
        CloudView {
            base: self.base_url@,
            new_base: self.new_api_base@,
            api_key: self.api_key@,
            user_agent: self.user_agent@,
            models: decode::map_seen(self.device_models@),
            capabilities: decode::list_map_seen(self.device_capabilities@),
        }
    }
}

/// Whether a text holds a control character: one below a space, or DEL.
pub open spec fn has_control(t: Seq<char>) -> bool {
    exists|i: int| 0 <= i < t.len() && is_control(#[trigger] t[i])
}

/// Whether `c` is a control character of ASCII.
pub open spec fn is_control(c: char) -> bool {
    (c as u32) < 0x20 || c as u32 == 0x7f
}

fn contains_control(t: &str) -> (r: bool)
    ensures
        r == has_control(t@),
{
    let x = chars_of(t);
    for i in 0..x.len()
        invariant
            x@ == t@,
            forall|k: int| 0 <= k < i ==> !is_control(#[trigger] x@[k]),
    {
        let c = x[i] as u32;
        if c < 0x20 || c == 0x7f {
            assert(is_control(t@[i as int]));
            return true;
        }
    }
    false
}

/// The URL of the new API where no other is given.
pub open spec fn default_new_base() -> UrlView {
    UrlView {
        text: "https://openapi.api.govee.com/"@,
        scheme: "https"@,
        host: Some("openapi.api.govee.com"@),
    }
}

/// The URL of the legacy API where no other is given.
pub open spec fn default_base() -> UrlView {
    UrlView {
        text: "https://developer-api.govee.com/"@,
        scheme: "https"@,
        host: Some("developer-api.govee.com"@),
    }
}

/// What [`CloudBackend::new`] comes to.
pub open spec fn new_backend(
    api_key: Seq<char>,
    base_url: Option<Seq<char>>,
    agent: Option<Seq<char>>,
) -> Result<CloudView, ErrorView> {
    if agent is Some && has_control(agent->Some_0) {
        Err(ErrorView::InvalidConfig("user_agent contains invalid characters"@))
    } else {
        match url::checked_url("base URL"@, base_url.unwrap_or(DEFAULT_BASE_URL@)) {
            Err(e) => Err(e),
            Ok(base) => Ok(
                CloudView {
                    base,
                    new_base: default_new_base(),
                    api_key,
                    user_agent: agent.unwrap_or("govee/"@ + VERSION@),
                    models: Map::empty(),
                    capabilities: Map::empty(),
                },
            ),
        }
    }
}

/// The host names of the default URLs are plain.
proof fn default_hosts_are_plain()
    ensures
        url::is_plain_host("developer-api.govee.com"@),
        url::is_plain_host("openapi.api.govee.com"@),
        DEFAULT_BASE_URL@ == "https://"@ + "developer-api.govee.com"@,
        NEW_API_BASE@ == "https://"@ + "openapi.api.govee.com"@,
        "https://developer-api.govee.com/"@ == "https://"@ + "developer-api.govee.com"@ + "/"@,
        "https://openapi.api.govee.com/"@ == "https://"@ + "openapi.api.govee.com"@ + "/"@,
{
    reveal_strlit("developer-api.govee.com");
    reveal_strlit("openapi.api.govee.com");
    reveal_strlit("https://developer-api.govee.com");
    reveal_strlit("https://openapi.api.govee.com");
    reveal_strlit("https://developer-api.govee.com/");
    reveal_strlit("https://openapi.api.govee.com/");
    reveal_strlit("https://");
    reveal_strlit("/");
    reveal_strlit("--");
    reveal_strlit("..");
    assert(DEFAULT_BASE_URL@ =~= "https://"@ + "developer-api.govee.com"@);
    assert(NEW_API_BASE@ =~= "https://"@ + "openapi.api.govee.com"@);
    assert("https://developer-api.govee.com/"@ =~= "https://"@ + "developer-api.govee.com"@ + "/"@);
    assert("https://openapi.api.govee.com/"@ =~= "https://"@ + "openapi.api.govee.com"@ + "/"@);
    no_doubled("developer-api.govee.com"@, "--"@);
    no_doubled("developer-api.govee.com"@, ".."@);
    no_doubled("openapi.api.govee.com"@, "--"@);
    no_doubled("openapi.api.govee.com"@, ".."@);
}

/// The paths of the API are plain.
proof fn api_paths_are_plain()
    ensures
        url::is_plain_path(url::below_root("v1/devices"@)),
        url::is_plain_path(url::below_root("v1/devices/control"@)),
        url::is_plain_path(url::below_root("v1/devices/state"@)),
        url::is_plain_path(url::below_root("/router/api/v1/device/state"@)),
        url::is_plain_path(url::below_root("/router/api/v1/device/scenes"@)),
        url::is_plain_path(url::below_root("/router/api/v1/device/diy-scenes"@)),
        url::is_plain_path(url::below_root("/router/api/v1/user/devices"@)),
        url::is_plain_path(url::below_root("/router/api/v1/device/control"@)),
        default_base().text + url::below_root("v1/devices"@) == "https://developer-api.govee.com/v1/devices"@,
        default_base().text + url::below_root("v1/devices/control"@)
            == "https://developer-api.govee.com/v1/devices/control"@,
        default_new_base().text + url::below_root("/router/api/v1/user/devices"@)
            == "https://openapi.api.govee.com/router/api/v1/user/devices"@,
        default_new_base().text + url::below_root("/router/api/v1/device/control"@)
            == "https://openapi.api.govee.com/router/api/v1/device/control"@,
{
    reveal_strlit("v1/devices");
    reveal_strlit("v1/devices/control");
    reveal_strlit("v1/devices/state");
    reveal_strlit("/router/api/v1/device/state");
    reveal_strlit("/router/api/v1/device/scenes");
    reveal_strlit("/router/api/v1/device/diy-scenes");
    reveal_strlit("/router/api/v1/user/devices");
    reveal_strlit("/router/api/v1/device/control");
    reveal_strlit("https://developer-api.govee.com/");
    reveal_strlit("https://openapi.api.govee.com/");
    reveal_strlit("https://developer-api.govee.com/v1/devices");
    reveal_strlit("https://developer-api.govee.com/v1/devices/control");
    reveal_strlit("https://openapi.api.govee.com/router/api/v1/user/devices");
    reveal_strlit("https://openapi.api.govee.com/router/api/v1/device/control");
    assert(default_base().text + "v1/devices"@ =~= "https://developer-api.govee.com/v1/devices"@);
    assert(default_base().text + "v1/devices/control"@
        =~= "https://developer-api.govee.com/v1/devices/control"@);
    assert(default_new_base().text + "/router/api/v1/user/devices"@.skip(1)
        =~= "https://openapi.api.govee.com/router/api/v1/user/devices"@);
    assert(default_new_base().text + "/router/api/v1/device/control"@.skip(1)
        =~= "https://openapi.api.govee.com/router/api/v1/device/control"@);
}

/// A pair of characters that stands nowhere does not occur.
proof fn no_doubled(host: Seq<char>, pair: Seq<char>)
    requires
        pair.len() == 2,
        forall|i: int| #![trigger host[i]] 0 <= i < host.len() - 1 ==> host[i] != pair[0] || host[i + 1] != pair[1],
    ensures
        !text::occurs(pair, host),
{
    assert forall|i: int| !#[trigger] text::occurs_at(pair, host, i) by {
        if text::occurs_at(pair, host, i) {
            assert(host.subrange(i, i + 2)[0] == pair[0]);
            assert(host.subrange(i, i + 2)[1] == pair[1]);
        }
    }
}

impl CloudBackend {
    #[verifier::type_invariant]
    spec fn sends_securely(&self) -> bool {
        &&& url::is_secure(self.base_url@) && url::is_regular(self.base_url@)
        &&& url::is_secure(self.new_api_base@) && url::is_regular(self.new_api_base@)
    }

    /// Create a new `CloudBackend`.
    ///
    /// Returns `GoveeError::InvalidConfig` if `user_agent` has control
    /// characters, or if `base_url` is not a valid URL or does not use HTTPS
    /// (unless the host is a loopback address, which allows HTTP for local
    /// testing).
    pub fn new(api_key: String, base_url: Option<String>, user_agent: Option<String>) -> (r: Result<
        CloudBackend,
        GoveeError,
    >)
        ensures
            error::outcome(r) == new_backend(
                api_key@,
                types::optional_text(base_url),
                types::optional_text(user_agent),
            ),
            r matches Ok(backend) ==> url::is_secure(backend@.base) && url::is_secure(backend@.new_base),
            base_url is None && (user_agent is Some ==> !has_control(user_agent->Some_0@)) ==> r is Ok
                && r->Ok_0@.base == default_base(),
    {
        let agent = match user_agent {
            Some(agent) => {
                if contains_control(agent.as_str()) {
                    return Err(
                        GoveeError::InvalidConfig("user_agent contains invalid characters".to_string()),
                    );
                }
                agent
            },
            None => self::user_agent(),
        };
        proof {
            default_hosts_are_plain();
        }
        let raw = match base_url {
            Some(raw) => raw,
            None => DEFAULT_BASE_URL.to_string(),
        };
        let base_url = match check_url("base URL", raw.as_str()) {
            Ok(url) => url,
            Err(e) => return Err(e),
        };
        let new_api_base = match check_url("new API base URL", NEW_API_BASE) {
            Ok(url) => url,
            Err(e) => return Err(e),
        };
        let device_models: NameMap<String> = NameMap::new();
        let device_capabilities: NameMap<Vec<Capability>> = NameMap::new();
        assert(decode::map_seen(device_models@) =~= Map::empty());
        assert(decode::list_map_seen(device_capabilities@) =~= Map::empty());
        Ok(
            CloudBackend {
                base_url,
                new_api_base,
                api_key,
                user_agent: agent,
                device_models,
                device_capabilities,
            },
        )
    }

    /// Override the new API base URL.
    ///
    /// Returns `GoveeError::InvalidConfig` if `base` is not a valid URL or does
    /// not use HTTPS (unless the host is a loopback address, which allows HTTP
    /// for local testing).
    pub fn with_new_api_base(self, base: &str) -> (r: Result<CloudBackend, GoveeError>)
        ensures
            error::outcome(r) == (match url::checked_url("new API base URL"@, base@) {
                Ok(new_base) => Ok(CloudView { new_base, ..self@ }),
                Err(e) => Err(e),
            }),
    {
        proof {
            use_type_invariant(&self);
        }
        match check_url("new API base URL", base) {
            Ok(new_api_base) => Ok(
                CloudBackend {
                    base_url: self.base_url,
                    new_api_base,
                    api_key: self.api_key,
                    user_agent: self.user_agent,
                    device_models: self.device_models,
                    device_capabilities: self.device_capabilities,
                },
            ),
            Err(e) => Err(e),
        }
    }

    /// The base URL of the legacy API.
    pub fn base_url(&self) -> (r: &HttpUrl)
        ensures
            r@ == self@.base,
            url::is_secure(r@),
    {
        proof {
            use_type_invariant(self);
        }
        &self.base_url
    }

    /// The base URL of the new API.
    pub fn new_api_base(&self) -> (r: &HttpUrl)
        ensures
            r@ == self@.new_base,
            url::is_secure(r@),
    {
        proof {
            use_type_invariant(self);
        }
        &self.new_api_base
    }

    /// The User-Agent header that requests carry.
    pub fn user_agent(&self) -> (r: &str)
        ensures
            r@ == self@.user_agent,
    {
        self.user_agent.as_str()
    }
}

/// The model of a device, if a device list named it.
pub open spec fn model_of(cloud: CloudView, id: Seq<char>) -> Result<Seq<char>, ErrorView> {
    if cloud.models.contains_key(id) {
        Ok(cloud.models[id])
    } else {
        Err(
            ErrorView::DeviceNotFound(
                id + " (call list_devices first to populate the device cache)"@,
            ),
        )
    }
}

/// A request to `url` with a JSON body.
pub open spec fn request_to(
    cloud: CloudView,
    method: Method,
    url: Result<Seq<char>, ErrorView>,
    body: JsonView,
) -> Result<RequestView, ErrorView> {
    match url {
        Err(e) => Err(e),
        Ok(url) => Ok(
            RequestView { method, url, api_key: cloud.api_key, body: Some(json::json_bytes(body)) },
        ),
    }
}

/// Whether each base URL that has the scheme `file` is read back from its text.
pub open spec fn bases_read_back(cloud: CloudView) -> bool {
    url::reads_back(cloud.base) && url::reads_back(cloud.new_base)
}

/// Whether requests with an API key may be sent to the URL that a text is.
pub open spec fn is_safe_url(text: Seq<char>) -> bool {
    url::url_parts(text) matches Ok(url) && url::is_secure(url)
}

/// Whether a request, if there is one, goes over HTTPS or to this machine.
pub open spec fn is_safe(r: Result<RequestView, ErrorView>) -> bool {
    r matches Ok(request) ==> is_safe_url(request.url)
}

/// Whether there is a request and it goes to `url`.
pub open spec fn goes_to(r: Result<CloudRequest, GoveeError>, url: Seq<char>) -> bool {
    r is Ok && r->Ok_0.url@ == url
}

/// Whether the body of a request, if there is one, is read as `document`.
pub open spec fn carries(r: Result<CloudRequest, GoveeError>, document: JsonView) -> bool {
    r is Ok ==> r->Ok_0.body is Some && json::json_document(r->Ok_0.body->Some_0@) == Ok::<
        JsonView,
        Seq<char>,
    >(document)
}

/// A request to `url` without a body.
pub open spec fn get_from(cloud: CloudView, url: Result<Seq<char>, ErrorView>) -> Result<
    RequestView,
    ErrorView,
> {
    match url {
        Err(e) => Err(e),
        Ok(url) => Ok(
            RequestView { method: Method::Get, url, api_key: cloud.api_key, body: None },
        ),
    }
}

/// The envelope of a request to the new API.
pub open spec fn envelope(request_id: Seq<char>, payload: JsonView) -> JsonView {
    JsonView::Object(map!["requestId"@ => JsonView::Text(request_id), "payload"@ => payload])
}

/// A `POST` to the new API.
pub open spec fn post_request(
    cloud: CloudView,
    path: Seq<char>,
    payload: JsonView,
    request_id: Seq<char>,
) -> Result<RequestView, ErrorView> {
    request_to(
        cloud,
        Method::Post,
        url::new_api_url(cloud.new_base.text, path),
        envelope(request_id, payload),
    )
}

/// A `GET` from the new API.
pub open spec fn get_request(cloud: CloudView, path: Seq<char>) -> Result<RequestView, ErrorView> {
    get_from(cloud, url::new_api_url(cloud.new_base.text, path))
}

/// Whether `c` is one of `0`-`9`, `a`-`f`.
pub open spec fn is_small_hex(c: char) -> bool {
    ('0' <= c && c <= '9') || ('a' <= c && c <= 'f')
}

/// Whether `s` is a random UUID: 32 hexadecimal digits in groups of 8, 4, 4, 4
/// and 12 with hyphens between them, marked as version 4.
pub open spec fn is_request_id(s: Seq<char>) -> bool {
    &&& s.len() == 36
    &&& forall|i: int|
        0 <= i < 36 ==> if i == 8 || i == 13 || i == 18 || i == 23 {
            #[trigger] s[i] == '-'
        } else {
            is_small_hex(s[i])
        }
    &&& s[14] == '4'
    &&& s[19] == '8' || s[19] == '9' || s[19] == 'a' || s[19] == 'b'
}

/// Calls `Uuid::new_v4`. Each call gives another text, of which only the form
/// is known.
#[verifier::external_body]
fn new_request_id() -> (r: String)
    ensures
        is_request_id(r@),
{
    uuid::Uuid::new_v4().to_string()
}

/// The payload that names a device.
pub open spec fn device_payload(sku: Seq<char>, id: Seq<char>) -> JsonView {
    JsonView::Object(map!["sku"@ => JsonView::Text(sku), "device"@ => JsonView::Text(id)])
}

/// A `POST` to the new API that names a device, which must be known.
pub open spec fn device_request(
    cloud: CloudView,
    id: Seq<char>,
    path: Seq<char>,
    request_id: Seq<char>,
) -> Result<RequestView, ErrorView> {
    match model_of(cloud, id) {
        Err(e) => Err(e),
        Ok(sku) => post_request(cloud, path, device_payload(sku, id), request_id),
    }
}

/// The type, the instance and the value that stand for a control value in the
/// v2 API.
pub open spec fn capability_for(value: CapabilityValue) -> Result<
    (Seq<char>, Seq<char>, JsonView),
    ErrorView,
> {
    match value {
        CapabilityValue::OnOff(v) => Ok(
            ("devices.capabilities.on_off"@, "powerSwitch"@, JsonView::Unsigned(v as u64)),
        ),
        CapabilityValue::Brightness(v) => Ok(
            ("devices.capabilities.range"@, "brightness"@, JsonView::Unsigned(v as u64)),
        ),
        CapabilityValue::Rgb(v) => Ok(
            ("devices.capabilities.color_setting"@, "colorRgb"@, JsonView::Unsigned(v as u64)),
        ),
        CapabilityValue::ColorTempK(v) => Ok(
            (
                "devices.capabilities.color_setting"@,
                "colorTemperatureK"@,
                JsonView::Unsigned(v as u64),
            ),
        ),
        CapabilityValue::DynamicScene(scene) => Ok(
            ("devices.capabilities.dynamic_scene"@, "lightScene"@, scene.written()),
        ),
        CapabilityValue::DiyScene(v) => Ok(
            ("devices.capabilities.dynamic_scene"@, "diyScene"@, JsonView::Unsigned(v as u64)),
        ),
        CapabilityValue::WorkMode { work_mode, mode_value } => Ok(
            ("devices.capabilities.work_mode"@, "workMode"@, work_mode_value(work_mode, mode_value)),
        ),
        CapabilityValue::SegmentColor { segments, rgb } => Err(
            not_supported(
                "SegmentColor { segments: "@ + numbers_text(segments@) + ", rgb: "@ + text::decimal(
                    rgb as nat,
                ) + " }"@,
            ),
        ),
        CapabilityValue::SegmentBrightness { segments, brightness } => Err(
            not_supported(
                "SegmentBrightness { segments: "@ + numbers_text(segments@) + ", brightness: "@
                    + text::decimal(brightness as nat) + " }"@,
            ),
        ),
        CapabilityValue::Raw(value) => Err(not_supported("Raw("@ + json::json_debug(value@) + ")"@)),
    }
}

/// The value of a work mode command.
pub open spec fn work_mode_value(work_mode: u32, mode_value: Option<u32>) -> JsonView {
    let base = map!["workMode"@ => JsonView::Unsigned(work_mode as u64)];
    JsonView::Object(
        match mode_value {
            Some(v) => base.insert("modeValue"@, JsonView::Unsigned(v as u64)),
            None => base,
        },
    )
}

/// The error for a control value that the v2 API does not take.
pub open spec fn not_supported(what: Seq<char>) -> ErrorView {
    ErrorView::NotImplemented("control_v2 does not support "@ + what)
}

/// A list of numbers as `{:?}` shows it.
pub open spec fn numbers_text(numbers: Seq<u8>) -> Seq<char> {
    "["@ + text::comma_list(numbers.map_values(|n: u8| text::decimal(n as nat))) + "]"@
}

fn show_numbers(numbers: &Vec<u8>) -> (r: String)
    ensures
        r@ == numbers_text(numbers@),
{
    let mut list = String::new();
    let ghost parts = numbers@.map_values(|n: u8| text::decimal(n as nat));
    assert(parts.take(0) =~= Seq::empty());
    for i in 0..numbers.len()
        invariant
            parts == numbers@.map_values(|n: u8| text::decimal(n as nat)),
            list@ == text::comma_list(parts.take(i as int)),
    {
        assert(parts.take(i as int).push(parts[i as int]) =~= parts.take(i + 1));
        push_part(&mut list, i, decimal_text(numbers[i] as u64).as_str());
    }
    assert(parts.take(numbers@.len() as int) =~= parts);
    joined("[", list.as_str()).concat("]")
}

/// The payload of a v2 control request.
pub open spec fn control_payload(
    sku: Seq<char>,
    id: Seq<char>,
    capability: (Seq<char>, Seq<char>, JsonView),
) -> JsonView {
    JsonView::Object(
        map![
            "sku"@ => JsonView::Text(sku),
            "device"@ => JsonView::Text(id),
            "capability"@ => JsonView::Object(map![
                "type"@ => JsonView::Text(capability.0),
                "instance"@ => JsonView::Text(capability.1),
                "value"@ => capability.2,
            ]),
        ],
    )
}

/// A v2 control request.
pub open spec fn control_request(
    cloud: CloudView,
    id: Seq<char>,
    value: CapabilityValue,
    request_id: Seq<char>,
) -> Result<RequestView, ErrorView> {
    match model_of(cloud, id) {
        Err(e) => Err(e),
        Ok(sku) => match capability_for(value) {
            Err(e) => Err(e),
            Ok(capability) => post_request(
                cloud,
                "/router/api/v1/device/control"@,
                control_payload(sku, id, capability),
                request_id,
            ),
        },
    }
}

/// The payload of a legacy control request.
pub open spec fn legacy_payload(id: Seq<char>, model: Seq<char>, name: Seq<char>, value: JsonView) -> JsonView {
    JsonView::Object(
        map![
            "device"@ => JsonView::Text(id),
            "model"@ => JsonView::Text(model),
            "cmd"@ => JsonView::Object(map!["name"@ => JsonView::Text(name), "value"@ => value]),
        ],
    )
}

/// A legacy control request.
pub open spec fn legacy_request(
    cloud: CloudView,
    id: Seq<char>,
    name: Seq<char>,
    value: JsonView,
) -> Result<RequestView, ErrorView> {
    match model_of(cloud, id) {
        Err(e) => Err(e),
        Ok(model) => request_to(
            cloud,
            Method::Put,
            url::legacy_url(cloud.base.text, "v1/devices/control"@),
            legacy_payload(id, model, name, value),
        ),
    }
}

impl CloudBackend {
    /// Look up the model for a device ID from the internal cache.
    ///
    /// Returns `DeviceNotFound` if the device is not cached.
    /// Call `list_devices` first to populate the cache.
    pub fn get_model(&self, id: &DeviceId) -> (r: Result<String, GoveeError>)
        ensures
            error::outcome(r) == model_of(self@, id@),
    {
        match self.device_models.get(id.as_str()) {
            Some(model) => Ok(model.clone()),
            None => Err(
                GoveeError::DeviceNotFound(
                    joined(
                        id.as_str(),
                        " (call list_devices first to populate the device cache)",
                    ),
                ),
            ),
        }
    }

    /// Return the capability list for a device, if known.
    ///
    /// Populated after a successful device list. Returns `None` if the device
    /// was not in the v2 response or there was no device list yet.
    pub fn get_capabilities(&self, id: &DeviceId) -> (r: Option<&Vec<Capability>>)
        ensures
            match r {
                Some(caps) => self@.capabilities.contains_key(id@) && decode::all_seen(caps@)
                    == self@.capabilities[id@],
                None => !self@.capabilities.contains_key(id@),
            },
    {
        self.device_capabilities.get(id.as_str())
    }

    fn request(&self, method: Method, url: String, body: &Json) -> (r: Result<CloudRequest, GoveeError>)
        ensures
            error::outcome(r) == request_to(self@, method, Ok(url@), body@),
            json::is_plain(body@, json::MAX_NESTING as nat) ==> carries(r, body@),
    {
        match write_json(body) {
            Ok(bytes) => Ok(
                CloudRequest { method, url, api_key: self.api_key.clone(), body: Some(bytes) },
            ),
            Err(_) => Err(GoveeError::Request("builder error".to_string())),
        }
    }

    fn bare_request(&self, url: String) -> (r: CloudRequest)
        ensures
            get_from(self@, Ok(url@)) == Ok::<RequestView, ErrorView>(r@),
    {
        CloudRequest { method: Method::Get, url, api_key: self.api_key.clone(), body: None }
    }

    /// The `POST` to the new (OpenAPI) Govee endpoint with this request ID.
    ///
    /// Wraps `payload` in a `{requestId, payload}` envelope.
    pub fn new_api_post_as(&self, path: &str, payload: Json, request_id: &str) -> (r: Result<
        CloudRequest,
        GoveeError,
    >)
        ensures
            error::outcome(r) == post_request(self@, path@, payload@, request_id@),
            json::is_plain(payload@, (json::MAX_NESTING - 1) as nat) ==> carries(
                r,
                envelope(request_id@, payload@),
            ),
            self@.new_base == default_new_base() && url::is_plain_path(url::below_root(path@)) ==> goes_to(
                r,
                default_new_base().text + url::below_root(path@),
            ),
            bases_read_back(self@) && url::is_plain_path(url::below_root(path@)) ==> is_safe(error::outcome(r)),
    {
        proof {
            use_type_invariant(self);
            default_hosts_are_plain();
        }
        let url = match build_new_api_url(self.new_api_base.text.as_str(), path) {
            Ok(url) => url,
            Err(e) => return Err(e),
        };
        let body = Json::empty_object().with("requestId", Json::text(request_id)).with("payload", payload);
        proof {
            assert(body@->Object_0 =~= envelope(request_id@, payload@)->Object_0);
            reveal_with_fuel(json::is_plain, 2);
        }
        self.request(Method::Post, url, &body)
    }

    /// The `POST` to the new (OpenAPI) Govee endpoint, with a request ID of its
    /// own.
    pub fn new_api_post(&self, path: &str, payload: Json) -> (r: Result<CloudRequest, GoveeError>)
        ensures
            exists|request_id: Seq<char>| #[trigger]
                is_request_id(request_id) && error::outcome(r) == post_request(
                    self@,
                    path@,
                    payload@,
                    request_id,
                ),
            bases_read_back(self@) && url::is_plain_path(url::below_root(path@)) ==> is_safe(error::outcome(r)),
    {
        let request_id = new_request_id();
        self.new_api_post_as(path, payload, request_id.as_str())
    }

    /// The `GET` from the new (OpenAPI) Govee endpoint.
    pub fn new_api_get(&self, path: &str) -> (r: Result<CloudRequest, GoveeError>)
        ensures
            error::outcome(r) == get_request(self@, path@),
            self@.new_base == default_new_base() && url::is_plain_path(url::below_root(path@)) ==> goes_to(
                r,
                default_new_base().text + url::below_root(path@),
            ),
            bases_read_back(self@) && url::is_plain_path(url::below_root(path@)) ==> is_safe(error::outcome(r)),
    {
        proof {
            use_type_invariant(self);
            default_hosts_are_plain();
        }
        match build_new_api_url(self.new_api_base.text.as_str(), path) {
            Ok(url) => Ok(self.bare_request(url)),
            Err(e) => Err(e),
        }
    }

    /// Map a new-API envelope error code and message to a domain error.
    pub fn map_new_api_code_err(code: u32, msg: String) -> (r: GoveeError)
        ensures
            r@ == reply::code_error(code, msg@),
    {
        map_code_err(code, msg)
    }

    /// The request to the new API that names a device.
    fn device_post(&self, id: &DeviceId, path: &str, request_id: &str) -> (r: Result<
        CloudRequest,
        GoveeError,
    >)
        ensures
            error::outcome(r) == device_request(self@, id@, path@, request_id@),
            bases_read_back(self@) && url::is_plain_path(url::below_root(path@)) ==> is_safe(error::outcome(r)),
    {
        let sku = match self.get_model(id) {
            Ok(sku) => sku,
            Err(e) => return Err(e),
        };
        let payload = Json::empty_object().with("sku", Json::Text(sku)).with("device", id.to_json());
        assert(payload@->Object_0 =~= device_payload(sku@, id@)->Object_0);
        self.new_api_post_as(path, payload, request_id)
    }

    /// The type, the instance and the value that stand for a control value.
    fn capability_of(value: &CapabilityValue) -> (r: Result<
        (&'static str, &'static str, Json),
        GoveeError,
    >)
        ensures
            match r {
                Ok(c) => capability_for(*value) == Ok::<(Seq<char>, Seq<char>, JsonView), ErrorView>(
                    (c.0@, c.1@, c.2@),
                ),
                Err(e) => capability_for(*value) == Err::<(Seq<char>, Seq<char>, JsonView), ErrorView>(
                    e@,
                ),
            },
    {
        match value {
            CapabilityValue::OnOff(v) => Ok(
                ("devices.capabilities.on_off", "powerSwitch", Json::Unsigned(*v as u64)),
            ),
            CapabilityValue::Brightness(v) => Ok(
                ("devices.capabilities.range", "brightness", Json::Unsigned(*v as u64)),
            ),
            CapabilityValue::Rgb(v) => Ok(
                ("devices.capabilities.color_setting", "colorRgb", Json::Unsigned(*v as u64)),
            ),
            CapabilityValue::ColorTempK(v) => Ok(
                ("devices.capabilities.color_setting", "colorTemperatureK", Json::Unsigned(*v as u64)),
            ),
            CapabilityValue::DynamicScene(scene) => Ok(
                ("devices.capabilities.dynamic_scene", "lightScene", scene.to_json()),
            ),
            CapabilityValue::DiyScene(v) => Ok(
                ("devices.capabilities.dynamic_scene", "diyScene", Json::Unsigned(*v as u64)),
            ),
            CapabilityValue::WorkMode { work_mode, mode_value } => {
                let base = Json::empty_object().with("workMode", Json::Unsigned(*work_mode as u64));
                let value = match mode_value {
                    Some(v) => base.with("modeValue", Json::Unsigned(*v as u64)),
                    None => base,
                };
                assert(value@->Object_0 =~= work_mode_value(*work_mode, *mode_value)->Object_0);
                Ok(("devices.capabilities.work_mode", "workMode", value))
            },
            CapabilityValue::SegmentColor { segments, rgb } => Err(
                GoveeError::NotImplemented(
                    joined(
                        "control_v2 does not support ",
                        joined("SegmentColor { segments: ", show_numbers(segments).as_str()).concat(
                            ", rgb: ",
                        ).concat(decimal_text(*rgb as u64).as_str()).concat(" }").as_str(),
                    ),
                ),
            ),
            CapabilityValue::SegmentBrightness { segments, brightness } => Err(
                GoveeError::NotImplemented(
                    joined(
                        "control_v2 does not support ",
                        joined("SegmentBrightness { segments: ", show_numbers(segments).as_str()).concat(
                            ", brightness: ",
                        ).concat(decimal_text(*brightness as u64).as_str()).concat(" }").as_str(),
                    ),
                ),
            ),
            CapabilityValue::Raw(value) => Err(
                GoveeError::NotImplemented(
                    joined(
                        "control_v2 does not support ",
                        joined("Raw(", debug_json(value).as_str()).concat(")").as_str(),
                    ),
                ),
            ),
        }
    }

    /// The v2 control request with this request ID.
    ///
    /// Maps `CapabilityValue` variants to the `POST
    /// /router/api/v1/device/control` payload format. Returns
    /// `GoveeError::NotImplemented` for variants that have no v2 mapping, and
    /// `GoveeError::DeviceNotFound` if the device SKU is not cached.
    pub fn control_v2_as(&self, id: &DeviceId, value: &CapabilityValue, request_id: &str) -> (r: Result<
        CloudRequest,
        GoveeError,
    >)
        ensures
            error::outcome(r) == control_request(self@, id@, *value, request_id@),
            r is Ok ==> carries(
                r,
                envelope(
                    request_id@,
                    control_payload(self@.models[id@], id@, capability_for(*value)->Ok_0),
                ),
            ),
            self@.new_base == default_new_base() && self@.models.contains_key(id@) && capability_for(
                *value,
            ) is Ok ==> goes_to(r, "https://openapi.api.govee.com/router/api/v1/device/control"@),
            bases_read_back(self@) ==> is_safe(error::outcome(r)),
    {
        proof {
            api_paths_are_plain();
        }
        let sku = match self.get_model(id) {
            Ok(sku) => sku,
            Err(e) => return Err(e),
        };
        let (type_, instance, json_value) = match CloudBackend::capability_of(value) {
            Ok(c) => c,
            Err(e) => return Err(e),
        };
        let capability = Json::empty_object().with("type", Json::text(type_)).with(
            "instance",
            Json::text(instance),
        ).with("value", json_value);
        let payload = Json::empty_object().with("sku", Json::Text(sku)).with("device", id.to_json()).with(
            "capability",
            capability,
        );
        proof {
            let c = (type_@, instance@, json_value@);
            let expected = control_payload(sku@, id@, c);
            assert(capability@->Object_0 =~= expected->Object_0["capability"@]->Object_0);
            assert(payload@->Object_0 =~= expected->Object_0);
            reveal_with_fuel(json::is_plain, 5);
        }
        self.new_api_post_as("/router/api/v1/device/control", payload, request_id)
    }

    /// The v2 control request, with a request ID of its own.
    pub fn control_v2(&self, id: &DeviceId, value: &CapabilityValue) -> (r: Result<
        CloudRequest,
        GoveeError,
    >)
        ensures
            exists|request_id: Seq<char>| #[trigger]
                is_request_id(request_id) && error::outcome(r) == control_request(
                    self@,
                    id@,
                    *value,
                    request_id,
                ),
            bases_read_back(self@) ==> is_safe(error::outcome(r)),
    {
        let request_id = new_request_id();
        self.control_v2_as(id, value, request_id.as_str())
    }

    /// The legacy control request: `PUT /v1/devices/control`.
    pub fn control_v1(&self, id: &DeviceId, cmd_name: &str, cmd_value: Json) -> (r: Result<
        CloudRequest,
        GoveeError,
    >)
        ensures
            error::outcome(r) == legacy_request(self@, id@, cmd_name@, cmd_value@),
            json::is_plain(cmd_value@, (json::MAX_NESTING - 2) as nat) ==> carries(
                r,
                legacy_payload(id@, self@.models[id@], cmd_name@, cmd_value@),
            ),
            self@.base == default_base() && self@.models.contains_key(id@) ==> goes_to(
                r,
                "https://developer-api.govee.com/v1/devices/control"@,
            ),
            bases_read_back(self@) ==> is_safe(error::outcome(r)),
    {
        proof {
            use_type_invariant(self);
            default_hosts_are_plain();
            api_paths_are_plain();
        }
        let model = match self.get_model(id) {
            Ok(model) => model,
            Err(e) => return Err(e),
        };
        let url = match build_legacy_url(self.base_url.text.as_str(), "v1/devices/control") {
            Ok(url) => url,
            Err(e) => return Err(e),
        };
        let cmd = Json::empty_object().with("name", Json::text(cmd_name)).with("value", cmd_value);
        let payload = Json::empty_object().with("device", id.to_json()).with(
            "model",
            Json::Text(model),
        ).with("cmd", cmd);
        proof {
            let expected = legacy_payload(id@, model@, cmd_name@, cmd_value@);
            assert(cmd@->Object_0 =~= expected->Object_0["cmd"@]->Object_0);
            assert(payload@->Object_0 =~= expected->Object_0);
            reveal_with_fuel(json::is_plain, 3);
        }
        self.request(Method::Put, url, &payload)
    }
}

/// What comes next in carrying out a command.
pub enum ControlStep {
    /// Send this request to the new API and go on with `after_v2`.
    SendV2(CloudRequest),
    /// Send this request to the legacy API and go on with `after_legacy`.
    SendLegacy(CloudRequest),
    /// Wait so many milliseconds and send the same request again.
    Wait(u64),
    /// The command is done, or has failed.
    Finished(Result<(), GoveeError>),
}

/// What a step is.
pub enum ControlStepView {
    SendV2(RequestView),
    SendLegacy(RequestView),
    Wait(u64),
    Finished(Result<(), ErrorView>),
}

impl View for ControlStep {
    type V = ControlStepView;

    open spec fn view(&self) -> ControlStepView {
        match self {
            ControlStep::SendV2(request) => ControlStepView::SendV2(request@),
            ControlStep::SendLegacy(request) => ControlStepView::SendLegacy(request@),
            ControlStep::Wait(ms) => ControlStepView::Wait(*ms),
            ControlStep::Finished(result) => ControlStepView::Finished(error::outcome(*result)),
        }
    }
}

/// Whether the request of a step, if it has one, goes over HTTPS or to this
/// machine.
pub open spec fn control_is_safe(step: ControlStepView) -> bool {
    match step {
        ControlStepView::SendV2(request) => is_safe_url(request.url),
        ControlStepView::SendLegacy(request) => is_safe_url(request.url),
        _ => true,
    }
}

/// The control value that a command is in the v2 API.
pub open spec fn v2_value(command: Command) -> CapabilityValue {
    match command {
        Command::Power(on) => CapabilityValue::OnOff(
            if on {
                1
            } else {
                0
            },
        ),
        Command::Brightness(value) => CapabilityValue::Brightness(value),
        Command::Color(color) => CapabilityValue::Rgb(color.packed() as u32),
        Command::ColorTemp(kelvin) => CapabilityValue::ColorTempK(kelvin),
    }
}

/// The name of a command in the legacy API.
pub open spec fn legacy_name(command: Command) -> Seq<char> {
    match command {
        Command::Power(_) => "turn"@,
        Command::Brightness(_) => "brightness"@,
        Command::Color(_) => "color"@,
        Command::ColorTemp(_) => "colorTem"@,
    }
}

/// The value of a command in the legacy API.
pub open spec fn legacy_value(command: Command) -> JsonView {
    match command {
        Command::Power(on) => JsonView::Text(
            if on {
                "on"@
            } else {
                "off"@
            },
        ),
        Command::Brightness(value) => JsonView::Unsigned(value as u64),
        Command::Color(color) => color.written(),
        Command::ColorTemp(kelvin) => JsonView::Unsigned(kelvin as u64),
    }
}

/// Whether an error of the v2 API sends a command to the legacy API.
pub open spec fn control_falls_back(e: ErrorView) -> bool {
    match e {
        ErrorView::DeviceNotFound(_) => true,
        ErrorView::Api { code, .. } => code == 404,
        _ => false,
    }
}

/// What comes after the v2 API has taken or refused a command.
pub open spec fn next_after_v2(
    cloud: CloudView,
    id: Seq<char>,
    command: Command,
    outcome: Result<(), ErrorView>,
) -> ControlStepView {
    match outcome {
        Ok(()) => ControlStepView::Finished(Ok(())),
        Err(e) => if control_falls_back(e) {
            match legacy_request(cloud, id, legacy_name(command), legacy_value(command)) {
                Ok(request) => ControlStepView::SendLegacy(request),
                Err(e) => ControlStepView::Finished(Err(e)),
            }
        } else {
            ControlStepView::Finished(Err(e))
        },
    }
}

/// The first step of a command.
pub open spec fn first_step(
    cloud: CloudView,
    id: Seq<char>,
    command: Command,
    request_id: Seq<char>,
) -> ControlStepView {
    match backend::refusal(command) {
        Some(e) => ControlStepView::Finished(Err(e)),
        None => match control_request(cloud, id, v2_value(command), request_id) {
            Ok(request) => ControlStepView::SendV2(request),
            Err(e) => next_after_v2(cloud, id, command, Err(e)),
        },
    }
}

/// What a v2 control request comes to.
pub open spec fn control_received(sent: Result<ReplyView, Seq<char>>) -> Result<(), ErrorView> {
    match reply::payload_received(sent) {
        Ok(_) => Ok(()),
        Err(e) => Err(e),
    }
}

/// Exponential backoff in milliseconds: one second, doubled with each attempt.
pub open spec fn backoff(attempt: u32) -> nat {
    1000 * vstd::arithmetic::power2::pow2(attempt as nat)
}

/// Whether an error is worth another attempt after a backoff.
pub open spec fn is_transient(e: ErrorView) -> bool {
    e is Request || (e matches ErrorView::Api { code, .. } && code >= 500)
}

/// How many milliseconds to wait before trying again after an error; nothing
/// where trying again is of no use.
pub open spec fn delay_after(e: ErrorView, attempt: u32) -> Option<nat> {
    match e {
        ErrorView::RateLimited { retry_after_secs } => Some(
            if retry_after_secs <= MAX_RETRY_AFTER_SECS {
                retry_after_secs as nat * 1000
            } else {
                MAX_RETRY_AFTER_SECS as nat * 1000
            },
        ),
        _ => if is_transient(e) {
            Some(backoff(attempt))
        } else {
            None
        },
    }
}

/// What comes after an attempt failed with an error before the reply was read.
pub open spec fn next_after_error(e: ErrorView, attempt: u32) -> ControlStepView {
    if attempt < MAX_RETRIES && delay_after(e, attempt) is Some {
        ControlStepView::Wait(delay_after(e, attempt)->Some_0 as u64)
    } else {
        ControlStepView::Finished(Err(e))
    }
}

/// What comes after an attempt to send a command to the legacy API. Only an
/// error in sending, or one that the status reports, is worth another attempt.
pub open spec fn next_after_legacy(sent: Result<ReplyView, Seq<char>>, attempt: u32) -> ControlStepView {
    match sent {
        Err(message) => next_after_error(ErrorView::Request(message), attempt),
        Ok(r) => match reply::checked_reply(r) {
            Err(e) => next_after_error(e, attempt),
            Ok(body) => ControlStepView::Finished(reply::control_result(body)),
        },
    }
}

impl CloudBackend {
    /// Compute retry delay for a failed request, in milliseconds.
    ///
    /// Returns `Some` if the error is retryable, `None` otherwise. Apart from
    /// rate limiting the delay doubles with each attempt: 1s, 2s, 4s.
    pub fn retry_delay(err: &GoveeError, attempt: u32) -> (r: Option<u64>)
        requires
            is_transient(err@) ==> attempt <= 54,
        ensures
            match r {
                Some(ms) => delay_after(err@, attempt) == Some(ms as nat),
                None => delay_after(err@, attempt) is None,
            },
    {
        match err {
            GoveeError::RateLimited { retry_after_secs } => {
                let capped: u64 = if *retry_after_secs <= MAX_RETRY_AFTER_SECS {
                    *retry_after_secs
                } else {
                    MAX_RETRY_AFTER_SECS
                };
                Some(capped * 1000)
            },
            GoveeError::Request(_) => Some(backoff_ms(attempt)),
            GoveeError::Api { code, .. } => if *code >= 500 {
                Some(backoff_ms(attempt))
            } else {
                None
            },
            _ => None,
        }
    }

    fn retry_or_fail(e: GoveeError, attempt: u32) -> (r: ControlStep)
        ensures
            r@ == next_after_error(e@, attempt),
    {
        if attempt < MAX_RETRIES {
            match CloudBackend::retry_delay(&e, attempt) {
                Some(ms) => {
                    return ControlStep::Wait(ms);
                },
                None => {},
            }
        }
        ControlStep::Finished(Err(e))
    }

    /// Goes on after the `attempt`-th attempt, from zero, to send a command to
    /// the legacy API.
    ///
    /// Parses the response body for API-level errors (HTTP 200 with
    /// `code != 200` in the JSON envelope).
    pub fn after_legacy(sent: Result<HttpReply, String>, attempt: u32) -> (r: ControlStep)
        ensures
            r@ == next_after_legacy(reply::sent_view(sent), attempt),
    {
        match sent {
            Err(message) => CloudBackend::retry_or_fail(GoveeError::Request(message), attempt),
            Ok(r) => match check_response(r) {
                Err(e) => CloudBackend::retry_or_fail(e, attempt),
                Ok(body) => ControlStep::Finished(read_control_result(body)),
            },
        }
    }

    fn value_of(command: Command) -> (r: CapabilityValue)
        ensures
            r == v2_value(command),
    {
        match command {
            Command::Power(on) => CapabilityValue::OnOff(
                if on {
                    1
                } else {
                    0
                },
            ),
            Command::Brightness(value) => CapabilityValue::Brightness(value),
            Command::Color(color) => CapabilityValue::Rgb(color.to_rgb24()),
            Command::ColorTemp(kelvin) => CapabilityValue::ColorTempK(kelvin),
        }
    }

    fn legacy_command(&self, id: &DeviceId, command: Command) -> (r: Result<CloudRequest, GoveeError>)
        ensures
            error::outcome(r) == legacy_request(
                self@,
                id@,
                legacy_name(command),
                legacy_value(command),
            ),
            bases_read_back(self@) ==> is_safe(error::outcome(r)),
    {
        match command {
            Command::Power(on) => self.control_v1(
                id,
                "turn",
                Json::text(
                    if on {
                        "on"
                    } else {
                        "off"
                    },
                ),
            ),
            Command::Brightness(value) => self.control_v1(id, "brightness", Json::Unsigned(value as u64)),
            Command::Color(color) => self.control_v1(id, "color", color.to_json()),
            Command::ColorTemp(kelvin) => self.control_v1(id, "colorTem", Json::Unsigned(kelvin as u64)),
        }
    }

    fn after_v2_outcome(&self, id: &DeviceId, command: Command, outcome: Result<(), GoveeError>) -> (r:
        ControlStep)
        ensures
            r@ == next_after_v2(self@, id@, command, error::outcome(outcome)),
            bases_read_back(self@) ==> control_is_safe(r@),
    {
        let e = match outcome {
            Ok(()) => return ControlStep::Finished(Ok(())),
            Err(e) => e,
        };
        let falls_back = match &e {
            GoveeError::DeviceNotFound(_) => true,
            GoveeError::Api { code, .. } => *code == 404,
            _ => false,
        };
        if falls_back {
            match self.legacy_command(id, command) {
                Ok(request) => ControlStep::SendLegacy(request),
                Err(e) => ControlStep::Finished(Err(e)),
            }
        } else {
            ControlStep::Finished(Err(e))
        }
    }

    /// Reads what came of a v2 control request.
    pub fn control_reply(sent: Result<HttpReply, String>) -> (r: Result<(), GoveeError>)
        ensures
            error::outcome(r) == control_received(reply::sent_view(sent)),
    {
        match receive_payload(sent) {
            Ok(_) => Ok(()),
            Err(e) => Err(e),
        }
    }

    /// Goes on after a command was sent to the v2 API.
    pub fn after_v2(&self, id: &DeviceId, command: Command, sent: Result<HttpReply, String>) -> (r:
        ControlStep)
        ensures
            r@ == next_after_v2(self@, id@, command, control_received(reply::sent_view(sent))),
            bases_read_back(self@) ==> control_is_safe(r@),
    {
        self.after_v2_outcome(id, command, CloudBackend::control_reply(sent))
    }

    /// The first step of a command, where the request has this ID.
    pub fn begin_as(&self, id: &DeviceId, command: Command, request_id: &str) -> (r: ControlStep)
        ensures
            r@ == first_step(self@, id@, command, request_id@),
            bases_read_back(self@) ==> control_is_safe(r@),
    {
        match command.check() {
            Ok(()) => {},
            Err(e) => return ControlStep::Finished(Err(e)),
        }
        let value = CloudBackend::value_of(command);
        match self.control_v2_as(id, &value, request_id) {
            Ok(request) => ControlStep::SendV2(request),
            Err(e) => self.after_v2_outcome(id, command, Err(e)),
        }
    }

    /// The first step of a command.
    pub fn begin(&self, id: &DeviceId, command: Command) -> (r: ControlStep)
        ensures
            exists|request_id: Seq<char>| #[trigger]
                is_request_id(request_id) && r@ == first_step(self@, id@, command, request_id),
            bases_read_back(self@) ==> control_is_safe(r@),
    {
        let request_id = new_request_id();
        self.begin_as(id, command, request_id.as_str())
    }

    /// Turn a device on or off: the first step.
    pub fn set_power(&self, id: &DeviceId, on: bool) -> (r: ControlStep)
        ensures
            exists|request_id: Seq<char>| #[trigger]
                is_request_id(request_id) && r@ == first_step(
                    self@,
                    id@,
                    Command::Power(on),
                    request_id,
                ),
            bases_read_back(self@) ==> control_is_safe(r@),
    {
        self.begin(id, Command::Power(on))
    }

    /// Set brightness (0-100): the first step.
    pub fn set_brightness(&self, id: &DeviceId, value: u8) -> (r: ControlStep)
        ensures
            exists|request_id: Seq<char>| #[trigger]
                is_request_id(request_id) && r@ == first_step(
                    self@,
                    id@,
                    Command::Brightness(value),
                    request_id,
                ),
            bases_read_back(self@) ==> control_is_safe(r@),
    {
        self.begin(id, Command::Brightness(value))
    }

    /// Set the device color: the first step.
    pub fn set_color(&self, id: &DeviceId, color: types::Color) -> (r: ControlStep)
        ensures
            exists|request_id: Seq<char>| #[trigger]
                is_request_id(request_id) && r@ == first_step(
                    self@,
                    id@,
                    Command::Color(color),
                    request_id,
                ),
            bases_read_back(self@) ==> control_is_safe(r@),
    {
        self.begin(id, Command::Color(color))
    }

    /// Set color temperature in Kelvin (1-10000): the first step.
    pub fn set_color_temp(&self, id: &DeviceId, kelvin: u32) -> (r: ControlStep)
        ensures
            exists|request_id: Seq<char>| #[trigger]
                is_request_id(request_id) && r@ == first_step(
                    self@,
                    id@,
                    Command::ColorTemp(kelvin),
                    request_id,
                ),
            bases_read_back(self@) ==> control_is_safe(r@),
    {
        self.begin(id, Command::ColorTemp(kelvin))
    }
}

/// Exponential backoff: one second, doubled with each attempt.
fn backoff_ms(attempt: u32) -> (r: u64)
    requires
        attempt <= 54,
    ensures
        r == backoff(attempt),
{
    let mut ms: u64 = 1000;
    proof {
        vstd::arithmetic::power2::lemma2_to64();
        vstd::arithmetic::power2::lemma_pow2_unfold(54);
    }
    let ghost limit = vstd::arithmetic::power2::pow2(54);
    assert(limit == 0x40_0000_0000_0000) by {
        vstd::arithmetic::power2::lemma2_to64_rest();
    }
    for i in 0..attempt
        invariant
            attempt <= 54,
            ms == 1000 * vstd::arithmetic::power2::pow2(i as nat),
            limit == 0x40_0000_0000_0000,
            limit == vstd::arithmetic::power2::pow2(54),
    {
        proof {
            vstd::arithmetic::power2::lemma_pow2_unfold((i + 1) as nat);
            if i + 1 < 54 {
                vstd::arithmetic::power2::lemma_pow2_strictly_increases((i + 1) as nat, 54);
            }
        }
        ms = ms * 2;
    }
    ms
}

/// What comes next in asking for the state of a device.
pub enum StateStep {
    /// Send this request to the new API and go on with `after_v2_state`.
    SendV2(CloudRequest),
    /// Send this request to the legacy API; `legacy_state` reads the reply.
    SendLegacy(CloudRequest),
    /// The device is not known: list the devices, and if that succeeds go on
    /// with `after_refresh`.
    Refresh,
    /// The state is known, or cannot be had.
    Finished(Result<DeviceState, GoveeError>),
}

/// What a step is.
pub enum StateStepView {
    SendV2(RequestView),
    SendLegacy(RequestView),
    Refresh,
    Finished(Result<DeviceStateView, ErrorView>),
}

impl View for StateStep {
    type V = StateStepView;

    open spec fn view(&self) -> StateStepView {
        match self {
            StateStep::SendV2(request) => StateStepView::SendV2(request@),
            StateStep::SendLegacy(request) => StateStepView::SendLegacy(request@),
            StateStep::Refresh => StateStepView::Refresh,
            StateStep::Finished(result) => StateStepView::Finished(error::outcome(*result)),
        }
    }
}

/// Whether the request of a step, if it has one, goes over HTTPS or to this
/// machine.
pub open spec fn state_is_safe(step: StateStepView) -> bool {
    match step {
        StateStepView::SendV2(request) => is_safe_url(request.url),
        StateStepView::SendLegacy(request) => is_safe_url(request.url),
        _ => true,
    }
}

/// Whether an error of the v2 API sends a state query to the legacy API.
/// `RateLimited` and other transient errors do not, so that callers can respect
/// back-off signals.
pub open spec fn state_falls_back(e: ErrorView) -> bool {
    e is DeviceNotFound || e is Api
}

/// The legacy state request for a device of a known model.
pub open spec fn legacy_state_request(cloud: CloudView, id: Seq<char>, model: Seq<char>) -> Result<
    RequestView,
    ErrorView,
> {
    let base = url::legacy_url(cloud.base.text, "v1/devices/state"@);
    get_from(cloud, url::with_pairs(base, ("device"@, id), ("model"@, model)))
}

/// A request, or the error that takes its place, as a step.
pub open spec fn legacy_state_step(request: Result<RequestView, ErrorView>) -> StateStepView {
    match request {
        Ok(request) => StateStepView::SendLegacy(request),
        Err(e) => StateStepView::Finished(Err(e)),
    }
}

/// The first step of a query of the legacy API: where the model of the device
/// is not known, the device list has to be refreshed.
pub open spec fn legacy_first_step(cloud: CloudView, id: Seq<char>) -> StateStepView {
    match model_of(cloud, id) {
        Ok(model) => legacy_state_step(legacy_state_request(cloud, id, model)),
        Err(_) => StateStepView::Refresh,
    }
}

/// The step after the device list was refreshed.
pub open spec fn step_after_refresh(cloud: CloudView, id: Seq<char>) -> StateStepView {
    match model_of(cloud, id) {
        Ok(model) => legacy_state_step(legacy_state_request(cloud, id, model)),
        Err(e) => StateStepView::Finished(Err(e)),
    }
}

/// What comes after the v2 API has answered a state query.
pub open spec fn state_after_v2(
    cloud: CloudView,
    id: Seq<char>,
    outcome: Result<DeviceStateView, ErrorView>,
) -> StateStepView {
    match outcome {
        Ok(state) => StateStepView::Finished(Ok(state)),
        Err(e) => if state_falls_back(e) {
            legacy_first_step(cloud, id)
        } else {
            StateStepView::Finished(Err(e))
        },
    }
}

/// The first step of a state query.
pub open spec fn state_first_step(cloud: CloudView, id: Seq<char>, request_id: Seq<char>) -> StateStepView {
    match device_request(cloud, id, "/router/api/v1/device/state"@, request_id) {
        Ok(request) => StateStepView::SendV2(request),
        Err(e) => state_after_v2(cloud, id, Err(e)),
    }
}

/// What a v2 state request comes to.
pub open spec fn v2_state_received(sent: Result<ReplyView, Seq<char>>) -> Result<DeviceStateView, ErrorView> {
    match reply::payload_value::<V2StateResponse>(sent) {
        Ok(payload) => Ok(state::described_by_capabilities(payload.capabilities)),
        Err(e) => Err(e),
    }
}

/// What a legacy state request comes to.
pub open spec fn legacy_state_received(sent: Result<ReplyView, Seq<char>>) -> Result<
    DeviceStateView,
    ErrorView,
> {
    match reply::received::<V1StateResponse>(sent) {
        Err(e) => Err(e),
        Ok(r) => if r.code != 200 {
            Err(ErrorView::Api { code: r.code, message: r.message })
        } else {
            Ok(state::described_by_properties(r.properties))
        },
    }
}

impl CloudBackend {
    /// The first step of a state query, where the request has this ID.
    pub fn get_state_as(&self, id: &DeviceId, request_id: &str) -> (r: StateStep)
        ensures
            r@ == state_first_step(self@, id@, request_id@),
            bases_read_back(self@) ==> state_is_safe(r@),
    {
        proof {
            api_paths_are_plain();
        }
        match self.device_post(id, "/router/api/v1/device/state", request_id) {
            Ok(request) => StateStep::SendV2(request),
            Err(e) => self.after_v2_state_outcome(id, Err(e)),
        }
    }

    /// Query the current state of a device: the first step.
    ///
    /// Tries the v2 OpenAPI endpoint first; falls back to the legacy v1 API on
    /// `DeviceNotFound` or `Api` errors. `RateLimited` and other transient
    /// errors are propagated directly so callers can respect back-off signals.
    pub fn get_state(&self, id: &DeviceId) -> (r: StateStep)
        ensures
            exists|request_id: Seq<char>| #[trigger]
                is_request_id(request_id) && r@ == state_first_step(self@, id@, request_id),
            bases_read_back(self@) ==> state_is_safe(r@),
    {
        let request_id = new_request_id();
        self.get_state_as(id, request_id.as_str())
    }

    fn legacy_state_url(&self, id: &DeviceId, model: &str) -> (r: Result<String, GoveeError>)
        ensures
            error::outcome(r) == url::with_pairs(
                url::legacy_url(self@.base.text, "v1/devices/state"@),
                ("device"@, id@),
                ("model"@, model@),
            ),
            bases_read_back(self@) ==> (r matches Ok(url) ==> is_safe_url(url@)),
    {
        proof {
            use_type_invariant(self);
            api_paths_are_plain();
            reveal_strlit("v1/devices/state");
        }
        let base = match build_legacy_url(self.base_url.text.as_str(), "v1/devices/state") {
            Ok(base) => base,
            Err(e) => return Err(e),
        };
        add_pairs(base.as_str(), ("device", id.as_str()), ("model", model))
    }

    fn legacy_state_query(&self, id: &DeviceId, model: &str) -> (r: StateStep)
        ensures
            r@ == legacy_state_step(legacy_state_request(self@, id@, model@)),
            bases_read_back(self@) ==> state_is_safe(r@),
    {
        match self.legacy_state_url(id, model) {
            Ok(url) => StateStep::SendLegacy(self.bare_request(url)),
            Err(e) => StateStep::Finished(Err(e)),
        }
    }

    fn after_v2_state_outcome(&self, id: &DeviceId, outcome: Result<DeviceState, GoveeError>) -> (r:
        StateStep)
        ensures
            r@ == state_after_v2(self@, id@, error::outcome(outcome)),
            bases_read_back(self@) ==> state_is_safe(r@),
    {
        let e = match outcome {
            Ok(state) => return StateStep::Finished(Ok(state)),
            Err(e) => e,
        };
        let falls_back = match &e {
            GoveeError::DeviceNotFound(_) => true,
            GoveeError::Api { .. } => true,
            _ => false,
        };
        if falls_back {
            match self.get_model(id) {
                Ok(model) => self.legacy_state_query(id, model.as_str()),
                Err(_) => StateStep::Refresh,
            }
        } else {
            StateStep::Finished(Err(e))
        }
    }

    /// Reads the reply to a v2 state request.
    ///
    /// Maps known capability instances to `DeviceState` fields; stores all
    /// unknown capabilities in `DeviceState::raw` keyed by `"type/instance"`.
    pub fn v2_state(sent: Result<HttpReply, String>) -> (r: Result<DeviceState, GoveeError>)
        ensures
            error::outcome(r) == v2_state_received(reply::sent_view(sent)),
    {
        match receive_payload_value::<V2StateResponse>(sent) {
            Ok(payload) => build_state_from_capabilities(&payload.capabilities),
            Err(e) => Err(e),
        }
    }

    /// Goes on after a state query was sent to the v2 API.
    pub fn after_v2_state(&self, id: &DeviceId, sent: Result<HttpReply, String>) -> (r: StateStep)
        ensures
            r@ == state_after_v2(self@, id@, v2_state_received(reply::sent_view(sent))),
            bases_read_back(self@) ==> state_is_safe(r@),
    {
        self.after_v2_state_outcome(id, CloudBackend::v2_state(sent))
    }

    /// Goes on after the device list was refreshed.
    pub fn after_refresh(&self, id: &DeviceId) -> (r: StateStep)
        ensures
            r@ == step_after_refresh(self@, id@),
            bases_read_back(self@) ==> state_is_safe(r@),
    {
        match self.get_model(id) {
            Ok(model) => self.legacy_state_query(id, model.as_str()),
            Err(e) => StateStep::Finished(Err(e)),
        }
    }

    /// Reads the reply to a legacy state request.
    pub fn legacy_state(sent: Result<HttpReply, String>) -> (r: Result<DeviceState, GoveeError>)
        ensures
            error::outcome(r) == legacy_state_received(reply::sent_view(sent)),
    {
        match receive::<V1StateResponse>(sent) {
            Err(e) => Err(e),
            Ok(r) => if r.code != 200 {
                Err(GoveeError::Api { code: r.code, message: r.message })
            } else {
                build_state_from_properties(&r.properties)
            },
        }
    }
}

/// The devices of a v2 list, in order. Those without a valid identifier are
/// left out.
pub open spec fn v2_devices(list: Seq<V2DeviceView>) -> Seq<DeviceView>
    decreases list.len(),
{
    if list.len() == 0 {
        Seq::empty()
    } else {
        let d = list.last();
        match reply::cloud_device(d.device, d.sku, d.device_name) {
            Ok(device) => v2_devices(list.drop_last()).push(device),
            Err(_) => v2_devices(list.drop_last()),
        }
    }
}

/// The capabilities of the devices of a v2 list that have a valid identifier.
pub open spec fn v2_capabilities(list: Seq<V2DeviceView>) -> Map<Seq<char>, Seq<CapabilityView>>
    decreases list.len(),
{
    if list.len() == 0 {
        Map::empty()
    } else {
        let d = list.last();
        match types::device_id(d.device) {
            Ok(id) => v2_capabilities(list.drop_last()).insert(id, d.capabilities),
            Err(_) => v2_capabilities(list.drop_last()),
        }
    }
}

/// Whether a v2 list names a device: one of its identifiers has this normal form.
pub open spec fn v2_names(list: Seq<V2DeviceView>, id: Seq<char>) -> bool {
    exists|i: int|
        0 <= i < list.len() && types::device_id(#[trigger] list[i].device) == Ok::<Seq<char>, ErrorView>(id)
}

/// A v2 list names the devices that it gives the capabilities of.
proof fn v2_capabilities_named(list: Seq<V2DeviceView>, id: Seq<char>)
    ensures
        v2_capabilities(list).contains_key(id) == v2_names(list, id),
    decreases list.len(),
{
    if list.len() > 0 {
        let before = list.drop_last();
        v2_capabilities_named(before, id);
        if v2_names(before, id) {
            let i = choose|i: int|
                0 <= i < before.len() && types::device_id(#[trigger] before[i].device) == Ok::<
                    Seq<char>,
                    ErrorView,
                >(id);
            assert(list[i].device == before[i].device);
        }
        if v2_names(list, id) {
            let i = choose|i: int|
                0 <= i < list.len() && types::device_id(#[trigger] list[i].device) == Ok::<
                    Seq<char>,
                    ErrorView,
                >(id);
            if i < before.len() {
                assert(before[i].device == list[i].device);
            }
        }
        assert(list[list.len() - 1] == list.last());
    }
}

/// The devices of a v1 list that the v2 list does not name, in order.
pub open spec fn v1_only(list: Seq<V2DeviceView>, v1: Seq<DeviceView>) -> Seq<DeviceView>
    decreases v1.len(),
{
    if v1.len() == 0 {
        Seq::empty()
    } else if v2_names(list, v1.last().id) {
        v1_only(list, v1.drop_last())
    } else {
        v1_only(list, v1.drop_last()).push(v1.last())
    }
}

/// What a device list comes to. The v2 list comes first, and the v1 list adds
/// the devices that it does not name. Where one of the two lists could not be
/// had, the other stands alone.
pub open spec fn listed(
    v2: Result<Seq<V2DeviceView>, ErrorView>,
    v1: Result<Seq<DeviceView>, ErrorView>,
) -> Result<Seq<DeviceView>, ErrorView> {
    match v2 {
        Err(_) => v1,
        Ok(list) => Ok(
            v2_devices(list) + (match v1 {
                Ok(v1) => v1_only(list, v1),
                Err(_) => Seq::empty(),
            }),
        ),
    }
}

/// The models of the devices of a list, by identifier.
pub open spec fn models_in(devices: Seq<DeviceView>) -> Map<Seq<char>, Seq<char>>
    decreases devices.len(),
{
    if devices.len() == 0 {
        Map::empty()
    } else {
        models_in(devices.drop_last()).insert(devices.last().id, devices.last().model)
    }
}

/// What the backend holds after a device list.
pub open spec fn after_listing(
    cloud: CloudView,
    v2: Result<Seq<V2DeviceView>, ErrorView>,
    v1: Result<Seq<DeviceView>, ErrorView>,
) -> CloudView {
    CloudView {
        capabilities: match v2 {
            Ok(list) => v2_capabilities(list),
            Err(_) => cloud.capabilities,
        },
        models: match listed(v2, v1) {
            Ok(devices) => models_in(devices),
            Err(_) => cloud.models,
        },
        ..cloud
    }
}

/// The models of the devices, by identifier.
fn collect_models(devices: &Vec<Device>) -> (r: NameMap<String>)
    ensures
        decode::map_seen(r@) == models_in(types::device_views(devices@)),
{
    let mut models: NameMap<String> = NameMap::new();
    let ghost views = types::device_views(devices@);
    assert(decode::map_seen(models@) =~= models_in(views.take(0)));
    for i in 0..devices.len()
        invariant
            views == types::device_views(devices@),
            decode::map_seen(models@) == models_in(views.take(i as int)),
    {
        let ghost before = models@;
        let id = devices[i].id.to_string();
        let model = devices[i].model.clone();
        models.insert(id, model);
        proof {
            assert(views.take(i + 1).drop_last() =~= views.take(i as int));
            assert(views.take(i + 1).last() == devices@[i as int]@);
            assert(decode::map_seen(models@) =~= decode::map_seen(before).insert(id@, model@));
        }
    }
    assert(views.take(devices@.len() as int) =~= views);
    models
}

impl CloudBackend {
    /// The request for the v2 device list.
    pub fn v2_list_request(&self) -> (r: Result<CloudRequest, GoveeError>)
        ensures
            error::outcome(r) == get_request(self@, "/router/api/v1/user/devices"@),
            self@.new_base == default_new_base() ==> goes_to(
                r,
                "https://openapi.api.govee.com/router/api/v1/user/devices"@,
            ),
            bases_read_back(self@) ==> is_safe(error::outcome(r)),
    {
        proof {
            api_paths_are_plain();
        }
        self.new_api_get("/router/api/v1/user/devices")
    }

    /// The request for the v1 device list.
    pub fn v1_list_request(&self) -> (r: Result<CloudRequest, GoveeError>)
        ensures
            error::outcome(r) == get_from(self@, url::legacy_url(self@.base.text, "v1/devices"@)),
            self@.base == default_base() ==> goes_to(r, "https://developer-api.govee.com/v1/devices"@),
            bases_read_back(self@) ==> is_safe(error::outcome(r)),
    {
        proof {
            use_type_invariant(self);
            default_hosts_are_plain();
            api_paths_are_plain();
        }
        match build_legacy_url(self.base_url.text.as_str(), "v1/devices") {
            Ok(url) => Ok(self.bare_request(url)),
            Err(e) => Err(e),
        }
    }

    /// List all devices visible to this backend, given what came of the v2 and
    /// of the v1 device list.
    ///
    /// v2 devices take precedence; v1-only devices are appended. A device is told
    /// by its MAC address, in whatever case it is written. If the v2 list failed,
    /// falls back to v1 only, and propagates the v1 error if both failed. The
    /// capability cache reflects the latest v2 list, and the model cache the latest
    /// list that succeeded.
    pub fn list_devices(
        &mut self,
        v2: Result<Vec<V2Device>, GoveeError>,
        v1: Result<Vec<Device>, GoveeError>,
    ) -> (r: Result<Vec<Device>, GoveeError>)
        ensures
            reply::devices_outcome(r) == listed(reply::list_outcome(v2), reply::devices_outcome(v1)),
            final(self)@ == after_listing(
                old(self)@,
                reply::list_outcome(v2),
                reply::devices_outcome(v1),
            ),
    {
        proof {
            use_type_invariant(&*self);
        }
        let v2_list = match v2 {
            Ok(list) => list,
            Err(_) => {
                let legacy = match v1 {
                    Ok(legacy) => legacy,
                    Err(e) => {
                        assert(self@ =~= after_listing(
                            old(self)@,
                            reply::list_outcome(v2),
                            reply::devices_outcome(v1),
                        ));
                        return Err(e);
                    },
                };
                self.device_models = collect_models(&legacy);
                return Ok(legacy);
            },
        };
        let ghost views = decode::all_seen(v2_list@);
        let mut rest = v2_list;
        let mut devices: Vec<Device> = Vec::new();
        let mut capabilities: NameMap<Vec<Capability>> = NameMap::new();
        let ghost mut done: int = 0;
        proof {
            assert(views.skip(0) =~= views);
            assert(types::device_views(devices@) =~= v2_devices(views.take(0)));
            assert(decode::list_map_seen(capabilities@) =~= v2_capabilities(views.take(0)));
        }
        while rest.len() > 0
            invariant
                0 <= done <= views.len(),
                decode::all_seen(rest@) == views.skip(done),
                types::device_views(devices@) == v2_devices(views.take(done)),
                decode::list_map_seen(capabilities@) == v2_capabilities(views.take(done)),
            decreases rest@.len(),
        {
            let ghost before_rest = rest@;
            let d = rest.remove(0);
            proof {
                assert(before_rest.len() == views.skip(done).len());
                assert(views.skip(done)[0] == d@);
                assert(views[done] == d@);
                assert(decode::all_seen(rest@) =~= views.skip(done + 1)) by {
                    assert forall|k: int| 0 <= k < rest@.len() implies #[trigger] decode::all_seen(
                        rest@,
                    )[k] == views.skip(done + 1)[k] by {
                        assert(decode::all_seen(before_rest)[k + 1] == views.skip(done)[k + 1]);
                    }
                }
                assert(views.take(done + 1).drop_last() =~= views.take(done));
                assert(views.take(done + 1).last() == d@);
            }
            match DeviceId::new(d.device.as_str()) {
                Ok(id) => {
                    let ghost before_caps = capabilities@;
                    let ghost before_devices = devices@;
                    let key = id.to_string();
                    let caps = d.capabilities;
                    capabilities.insert(key, caps);
                    let device = Device {
                        id,
                        model: d.sku,
                        name: d.device_name,
                        alias: None,
                        backend: BackendType::Cloud,
                    };
                    devices.push(device);
                    proof {
                        assert(decode::list_map_seen(capabilities@) =~= decode::list_map_seen(
                            before_caps,
                        ).insert(key@, decode::all_seen(caps@)));
                        assert(types::device_views(devices@) =~= types::device_views(
                            before_devices,
                        ).push(device@));
                    }
                },
                Err(_) => {},
            }
            proof {
                done = done + 1;
            }
        }
        proof {
            assert(done == views.len()) by {
                assert(decode::all_seen(rest@).len() == 0);
                assert(views.skip(done).len() == 0);
            }
            assert(views.take(done) =~= views);
        }
        self.device_capabilities = capabilities;
        let ghost from_v2 = types::device_views(devices@);
        match v1 {
            Ok(legacy) => {
                let mut rest = legacy;
                let ghost v1_views = types::device_views(legacy@);
                let ghost mut seen: int = 0;
                proof {
                    assert(v1_views.skip(0) =~= v1_views);
                    assert(types::device_views(devices@) =~= from_v2 + v1_only(
                        views,
                        v1_views.take(0),
                    ));
                }
                while rest.len() > 0
                    invariant
                        0 <= seen <= v1_views.len(),
                        types::device_views(rest@) == v1_views.skip(seen),
                        decode::list_map_seen(self.device_capabilities@) == v2_capabilities(views),
                        types::device_views(devices@) == from_v2 + v1_only(views, v1_views.take(seen)),
                    decreases rest@.len(),
                {
                    let ghost before_rest = rest@;
                    let dev = rest.remove(0);
                    let known = self.device_capabilities.contains_key(dev.id.as_str());
                    let ghost before_devices = devices@;
                    proof {
                        assert(before_rest.len() == v1_views.skip(seen).len());
                        assert(v1_views.skip(seen)[0] == dev@);
                        assert(v1_views[seen] == dev@);
                        assert(types::device_views(rest@) =~= v1_views.skip(seen + 1)) by {
                            assert forall|k: int| 0 <= k < rest@.len() implies #[trigger] types::device_views(
                                rest@,
                            )[k] == v1_views.skip(seen + 1)[k] by {
                                assert(types::device_views(before_rest)[k + 1] == v1_views.skip(seen)[k
                                    + 1]);
                            }
                        }
                        assert(v1_views.take(seen + 1).drop_last() =~= v1_views.take(seen));
                        v2_capabilities_named(views, dev@.id);
                        assert(known == decode::list_map_seen(
                            self.device_capabilities@,
                        ).contains_key(dev@.id));
                    }
                    if !known {
                        devices.push(dev);
                        assert(types::device_views(devices@) =~= types::device_views(
                            before_devices,
                        ).push(dev@));
                        assert(types::device_views(devices@) =~= from_v2 + v1_only(
                            views,
                            v1_views.take(seen + 1),
                        ));
                    }
                    proof {
                        seen = seen + 1;
                    }
                }
                proof {
                    assert(types::device_views(rest@).len() == 0);
                    assert(v1_views.skip(seen).len() == 0);
                    assert(v1_views.take(seen) =~= v1_views);
                }
            },
            Err(_) => {
                assert(from_v2 =~= from_v2 + Seq::<DeviceView>::empty());
            },
        }
        self.device_models = collect_models(&devices);
        Ok(devices)
    }
}

/// Whether a device is known to have a capability of a type that `wanted`
/// accepts.
pub open spec fn has_capability(cloud: CloudView, id: Seq<char>, wanted: spec_fn(Seq<char>) -> bool) -> bool {
    &&& cloud.capabilities.contains_key(id)
    &&& exists|i: int|
        0 <= i < cloud.capabilities[id].len() && wanted(#[trigger] cloud.capabilities[id][i].type_)
}

/// The request for the scenes of a device; none where the device has no dynamic
/// scenes.
pub open spec fn scenes_request(cloud: CloudView, id: Seq<char>, request_id: Seq<char>) -> Result<
    Option<RequestView>,
    ErrorView,
> {
    if has_capability(cloud, id, |t: Seq<char>| t == "devices.capabilities.dynamic_scene"@) {
        some_request(device_request(cloud, id, "/router/api/v1/device/scenes"@, request_id))
    } else {
        Ok(None)
    }
}

/// The request for the DIY scenes of a device; none where the device has no
/// dynamic scenes.
pub open spec fn diy_scenes_request(cloud: CloudView, id: Seq<char>, request_id: Seq<char>) -> Result<
    Option<RequestView>,
    ErrorView,
> {
    if has_capability(cloud, id, |t: Seq<char>| text::occurs("dynamic_scene"@, t)) {
        some_request(device_request(cloud, id, "/router/api/v1/device/diy-scenes"@, request_id))
    } else {
        Ok(None)
    }
}

/// A request that is to be sent, or the error that takes its place.
pub open spec fn some_request(request: Result<RequestView, ErrorView>) -> Result<
    Option<RequestView>,
    ErrorView,
> {
    match request {
        Ok(request) => Ok(Some(request)),
        Err(e) => Err(e),
    }
}

/// An optional request, or an error, by its views.
pub open spec fn request_outcome(r: Result<Option<CloudRequest>, GoveeError>) -> Result<
    Option<RequestView>,
    ErrorView,
> {
    match r {
        Ok(request) => Ok(decode::seen(request)),
        Err(e) => Err(e@),
    }
}

/// The work mode that an option stands for, if its value is an integer that fits
/// in 32 bits.
pub open spec fn mode_in(option: EnumOptionView) -> Option<(u32, Seq<char>)> {
    match option.value.as_u64() {
        Some(n) => if n <= 4294967295 {
            Some((n as u32, option.name))
        } else {
            None
        },
        None => None,
    }
}

/// The work modes that the options stand for, in order.
pub open spec fn modes_in(options: Seq<EnumOptionView>) -> Seq<(u32, Seq<char>)>
    decreases options.len(),
{
    if options.len() == 0 {
        Seq::empty()
    } else {
        match mode_in(options.last()) {
            Some(mode) => modes_in(options.drop_last()).push(mode),
            None => modes_in(options.drop_last()),
        }
    }
}

/// The work modes that a capability offers.
pub open spec fn modes_of(cap: CapabilityView) -> Seq<(u32, Seq<char>)> {
    match cap.parameters {
        ParametersView::Enum { options } => if cap.type_ == "devices.capabilities.work_mode"@ && cap.instance
            == "workMode"@ {
            modes_in(options)
        } else {
            Seq::empty()
        },
        _ => Seq::empty(),
    }
}

/// The work modes that capabilities offer, in order.
pub open spec fn all_modes(caps: Seq<CapabilityView>) -> Seq<(u32, Seq<char>)>
    decreases caps.len(),
{
    if caps.len() == 0 {
        Seq::empty()
    } else {
        all_modes(caps.drop_last()) + modes_of(caps.last())
    }
}

/// A list of modes without modes below them, by number and name.
pub open spec fn plain_modes(modes: Seq<WorkMode>) -> Seq<(u32, Seq<char>)> {
    modes.map_values(|m: WorkMode| (m.id, m.name@))
}

impl CloudBackend {
    /// The request for the scenes of a device with this request ID, if there is
    /// anything to ask for. `reply::receive_scenes` reads the reply.
    pub fn list_scenes_as(&self, id: &DeviceId, request_id: &str) -> (r: Result<
        Option<CloudRequest>,
        GoveeError,
    >)
        ensures
            request_outcome(r) == scenes_request(self@, id@, request_id@),
            bases_read_back(self@) ==> (request_outcome(r) matches Ok(Some(request)) ==> is_safe_url(request.url)),
    {
        proof {
            api_paths_are_plain();
        }
        let ghost wanted = |t: Seq<char>| t == "devices.capabilities.dynamic_scene"@;
        let mut found = false;
        match self.get_capabilities(id) {
            Some(caps) => {
                for i in 0..caps.len()
                    invariant
                        self@.capabilities.contains_key(id@),
                        decode::all_seen(caps@) == self@.capabilities[id@],
                        wanted == (|t: Seq<char>| t == "devices.capabilities.dynamic_scene"@),
                        found ==> has_capability(self@, id@, wanted),
                        !found ==> forall|k: int| 0 <= k < i ==> !wanted(#[trigger] caps@[k]@.type_),
                {
                    assert(self@.capabilities[id@][i as int] == caps@[i as int]@);
                    if same(caps[i].type_.as_str(), "devices.capabilities.dynamic_scene") {
                        assert(wanted(self@.capabilities[id@][i as int].type_));
                        found = true;
                    }
                }
                assert(!found ==> !has_capability(self@, id@, wanted)) by {
                    if has_capability(self@, id@, wanted) {
                        let k = choose|k: int|
                            0 <= k < self@.capabilities[id@].len() && wanted(
                                #[trigger] self@.capabilities[id@][k].type_,
                            );
                        assert(self@.capabilities[id@][k] == caps@[k]@);
                    }
                }
            },
            None => {},
        }
        if !found {
            return Ok(None);
        }
        match self.device_post(id, "/router/api/v1/device/scenes", request_id) {
            Ok(request) => Ok(Some(request)),
            Err(e) => Err(e),
        }
    }

    /// The request for the scenes of a device, if there is anything to ask for.
    pub fn list_scenes(&self, id: &DeviceId) -> (r: Result<Option<CloudRequest>, GoveeError>)
        ensures
            exists|request_id: Seq<char>| #[trigger]
                is_request_id(request_id) && request_outcome(r) == scenes_request(
                    self@,
                    id@,
                    request_id,
                ),
            bases_read_back(self@) ==> (request_outcome(r) matches Ok(Some(request)) ==> is_safe_url(request.url)),
    {
        let request_id = new_request_id();
        self.list_scenes_as(id, request_id.as_str())
    }

    /// The request for the DIY scenes of a device with this request ID, if there
    /// is anything to ask for. `reply::receive_diy_scenes` reads the reply.
    pub fn list_diy_scenes_as(&self, id: &DeviceId, request_id: &str) -> (r: Result<
        Option<CloudRequest>,
        GoveeError,
    >)
        ensures
            request_outcome(r) == diy_scenes_request(self@, id@, request_id@),
            bases_read_back(self@) ==> (request_outcome(r) matches Ok(Some(request)) ==> is_safe_url(request.url)),
    {
        proof {
            api_paths_are_plain();
        }
        let ghost wanted = |t: Seq<char>| text::occurs("dynamic_scene"@, t);
        let mut found = false;
        match self.get_capabilities(id) {
            Some(caps) => {
                for i in 0..caps.len()
                    invariant
                        self@.capabilities.contains_key(id@),
                        decode::all_seen(caps@) == self@.capabilities[id@],
                        wanted == (|t: Seq<char>| text::occurs("dynamic_scene"@, t)),
                        found ==> has_capability(self@, id@, wanted),
                        !found ==> forall|k: int| 0 <= k < i ==> !wanted(#[trigger] caps@[k]@.type_),
                {
                    assert(self@.capabilities[id@][i as int] == caps@[i as int]@);
                    if contains(caps[i].type_.as_str(), "dynamic_scene") {
                        assert(wanted(self@.capabilities[id@][i as int].type_));
                        found = true;
                    }
                }
                assert(!found ==> !has_capability(self@, id@, wanted)) by {
                    if has_capability(self@, id@, wanted) {
                        let k = choose|k: int|
                            0 <= k < self@.capabilities[id@].len() && wanted(
                                #[trigger] self@.capabilities[id@][k].type_,
                            );
                        assert(self@.capabilities[id@][k] == caps@[k]@);
                    }
                }
            },
            None => {},
        }
        if !found {
            return Ok(None);
        }
        match self.device_post(id, "/router/api/v1/device/diy-scenes", request_id) {
            Ok(request) => Ok(Some(request)),
            Err(e) => Err(e),
        }
    }

    /// The request for the DIY scenes of a device, if there is anything to ask
    /// for.
    pub fn list_diy_scenes(&self, id: &DeviceId) -> (r: Result<Option<CloudRequest>, GoveeError>)
        ensures
            exists|request_id: Seq<char>| #[trigger]
                is_request_id(request_id) && request_outcome(r) == diy_scenes_request(
                    self@,
                    id@,
                    request_id,
                ),
            bases_read_back(self@) ==> (request_outcome(r) matches Ok(Some(request)) ==> is_safe_url(request.url)),
    {
        let request_id = new_request_id();
        self.list_diy_scenes_as(id, request_id.as_str())
    }

    /// The request that activates a scene. `control_reply` reads the reply.
    pub fn set_scene(&self, id: &DeviceId, scene: &LightScene) -> (r: Result<CloudRequest, GoveeError>)
        ensures
            exists|request_id: Seq<char>| #[trigger]
                is_request_id(request_id) && error::outcome(r) == control_request(
                    self@,
                    id@,
                    CapabilityValue::DynamicScene(
                        DynamicSceneValue::Preset { param_id: scene.param_id, id: scene.id },
                    ),
                    request_id,
                ),
            bases_read_back(self@) ==> is_safe(error::outcome(r)),
    {
        self.control_v2(
            id,
            &CapabilityValue::DynamicScene(
                DynamicSceneValue::Preset { param_id: scene.param_id, id: scene.id },
            ),
        )
    }

    /// The request that activates a DIY scene. `control_reply` reads the reply.
    pub fn set_diy_scene(&self, id: &DeviceId, scene: &DiyScene) -> (r: Result<CloudRequest, GoveeError>)
        ensures
            exists|request_id: Seq<char>| #[trigger]
                is_request_id(request_id) && error::outcome(r) == control_request(
                    self@,
                    id@,
                    CapabilityValue::DiyScene(scene.id),
                    request_id,
                ),
            bases_read_back(self@) ==> is_safe(error::outcome(r)),
    {
        self.control_v2(id, &CapabilityValue::DiyScene(scene.id))
    }

    /// The request that sets a work mode. `control_reply` reads the reply.
    pub fn set_work_mode(&self, id: &DeviceId, work_mode: u32, mode_value: Option<u32>) -> (r: Result<
        CloudRequest,
        GoveeError,
    >)
        ensures
            exists|request_id: Seq<char>| #[trigger]
                is_request_id(request_id) && error::outcome(r) == control_request(
                    self@,
                    id@,
                    CapabilityValue::WorkMode { work_mode, mode_value },
                    request_id,
                ),
            bases_read_back(self@) ==> is_safe(error::outcome(r)),
    {
        self.control_v2(id, &CapabilityValue::WorkMode { work_mode, mode_value })
    }

    /// List the work modes of a device, as its capabilities offer them.
    pub fn list_work_modes(&self, id: &DeviceId) -> (r: Vec<WorkMode>)
        ensures
            plain_modes(r@) == (if self@.capabilities.contains_key(id@) {
                all_modes(self@.capabilities[id@])
            } else {
                Seq::empty()
            }),
            forall|i: int| 0 <= i < r@.len() ==> (#[trigger] r@[i]).sub_modes@.len() == 0,
    {
        let mut modes: Vec<WorkMode> = Vec::new();
        match self.get_capabilities(id) {
            None => {
                assert(plain_modes(modes@) =~= Seq::empty());
            },
            Some(caps) => {
                let ghost views = decode::all_seen(caps@);
                assert(plain_modes(modes@) =~= all_modes(views.take(0)));
                for i in 0..caps.len()
                    invariant
                        views == decode::all_seen(caps@),
                        plain_modes(modes@) == all_modes(views.take(i as int)),
                        forall|k: int| 0 <= k < modes@.len() ==> (#[trigger] modes@[k]).sub_modes@.len() == 0,
                {
                    proof {
                        assert(views.take(i + 1).drop_last() =~= views.take(i as int));
                        assert(views.take(i + 1).last() == caps@[i as int]@);
                    }
                    collect_modes(&caps[i], &mut modes);
                }
                assert(views.take(caps@.len() as int) =~= views);
            },
        }
        modes
    }
}

/// Appends the work modes that a capability offers.
fn collect_modes(cap: &Capability, modes: &mut Vec<WorkMode>)
    requires
        forall|k: int| 0 <= k < old(modes)@.len() ==> (#[trigger] old(modes)@[k]).sub_modes@.len() == 0,
    ensures
        plain_modes(final(modes)@) == plain_modes(old(modes)@) + modes_of(cap@),
        forall|k: int| 0 <= k < final(modes)@.len() ==> (#[trigger] final(modes)@[k]).sub_modes@.len() == 0,
{
    let ghost before = plain_modes(modes@);
    match &cap.parameters {
        CapabilityParameters::Enum { options } => {
            if same(cap.type_.as_str(), "devices.capabilities.work_mode") && same(
                cap.instance.as_str(),
                "workMode",
            ) {
                let ghost views = decode::all_seen(options@);
                assert(before =~= before + modes_in(views.take(0)));
                for i in 0..options.len()
                    invariant
                        views == decode::all_seen(options@),
                        plain_modes(modes@) == before + modes_in(views.take(i as int)),
                        forall|k: int| 0 <= k < modes@.len() ==> (#[trigger] modes@[k]).sub_modes@.len() == 0,
                {
                    proof {
                        assert(views.take(i + 1).drop_last() =~= views.take(i as int));
                        assert(views.take(i + 1).last() == options@[i as int]@);
                    }
                    match options[i].value.as_u64() {
                        Some(n) => if n <= 4294967295 {
                            let ghost earlier = modes@;
                            let mode = WorkMode {
                                id: n as u32,
                                name: options[i].name.clone(),
                                sub_modes: Vec::new(),
                            };
                            modes.push(mode);
                            assert(plain_modes(modes@) =~= plain_modes(earlier).push(
                                (mode.id, mode.name@),
                            ));
                            assert(plain_modes(modes@) =~= before + modes_in(views.take(i + 1)));
                        },
                        None => {},
                    }
                }
                assert(views.take(options@.len() as int) =~= views);
            } else {
                assert(before =~= before + Seq::<(u32, Seq<char>)>::empty());
            }
        },
        _ => {
            assert(before =~= before + Seq::<(u32, Seq<char>)>::empty());
        },
    }
}

/// A backend as debug text. The API key is not shown.
pub open spec fn cloud_text(base: Seq<char>, cached_devices: nat, cached_capabilities: nat) -> Seq<char> {
    "CloudBackend { base_url: "@ + text::quoted(base) + ", api_key: \"[REDACTED]\", cached_devices: "@
        + text::decimal(cached_devices) + ", cached_capabilities: "@ + text::decimal(cached_capabilities)
        + " }"@
}

impl CloudBackend {
    /// The backend as debug text, the API key redacted.
    pub fn debug_text(&self) -> (r: String)
        ensures
            r@ == cloud_text(
                self@.base.text,
                self@.models.dom().len(),
                self@.capabilities.dom().len(),
            ),
    {
        proof {
            assert(self@.models.dom() =~= self.device_models@.dom());
            assert(self@.capabilities.dom() =~= self.device_capabilities@.dom());
        }
        joined("CloudBackend { base_url: ", quote(self.base_url.text.as_str()).as_str()).concat(
            ", api_key: \"[REDACTED]\", cached_devices: ",
        ).concat(decimal_text(self.device_models.len() as u64).as_str()).concat(
            ", cached_capabilities: ",
        ).concat(decimal_text(self.device_capabilities.len() as u64).as_str()).concat(" }")
    }
}

impl GoveeBackend for CloudBackend {
    fn backend_type(&self) -> (r: BackendType)
        ensures
            r == BackendType::Cloud,
    {
        BackendType::Cloud
    }
}

/// A command that is refused, and one to a device that no list named, ends with
/// its error and nothing is sent.
pub proof fn refused_commands_are_not_sent(
    cloud: CloudView,
    id: Seq<char>,
    command: Command,
    request_id: Seq<char>,
)
    ensures
        backend::refusal(command) is Some ==> first_step(cloud, id, command, request_id)
            == ControlStepView::Finished(Err(backend::refusal(command)->Some_0)),
        backend::refusal(command) is None && !cloud.models.contains_key(id) ==> first_step(
            cloud,
            id,
            command,
            request_id,
        ) == ControlStepView::Finished(Err(model_of(cloud, id)->Err_0)),
{
}

/// Rate limiting and other transient errors of the v2 API are handed on: they
/// never lead to the legacy API.
pub proof fn transient_errors_are_handed_on(
    cloud: CloudView,
    id: Seq<char>,
    command: Command,
    e: ErrorView,
)
    requires
        e is RateLimited || e is Request || e is Json,
    ensures
        next_after_v2(cloud, id, command, Err(e)) == ControlStepView::Finished(Err(e)),
        state_after_v2(cloud, id, Err(e)) == StateStepView::Finished(Err(e)),
{
}

/// A command is sent to the legacy API at most four times, and no wait between
/// two attempts is longer than five minutes, whatever the server asks for.
pub proof fn retries_are_bounded(sent: Result<ReplyView, Seq<char>>, attempt: u32)
    ensures
        next_after_legacy(sent, attempt) is Wait ==> attempt < 3,
        next_after_legacy(sent, attempt) is Wait ==> next_after_legacy(sent, attempt)->Wait_0 <= 300_000,
        attempt >= MAX_RETRIES ==> next_after_legacy(sent, attempt) is Finished,
        !(next_after_legacy(sent, attempt) is SendV2),
        !(next_after_legacy(sent, attempt) is SendLegacy),
{
    vstd::arithmetic::power2::lemma2_to64();
}

/// The waits after transient errors are one, two and four seconds.
pub proof fn backoff_doubles()
    ensures
        backoff(0) == 1000,
        backoff(1) == 2000,
        backoff(2) == 4000,
        forall|attempt: u32| attempt < u32::MAX ==> #[trigger] backoff((attempt + 1) as u32) == 2 * backoff(
            attempt,
        ),
{
    vstd::arithmetic::power2::lemma2_to64();
    assert forall|attempt: u32| attempt < u32::MAX implies #[trigger] backoff((attempt + 1) as u32) == 2
        * backoff(attempt) by {
        vstd::arithmetic::power2::lemma_pow2_unfold((attempt + 1) as nat);
    }
}

/// Every request carries the API key of the backend in its header.
pub proof fn requests_carry_the_key(
    cloud: CloudView,
    method: Method,
    url: Result<Seq<char>, ErrorView>,
    body: JsonView,
)
    ensures
        request_to(cloud, method, url, body) is Ok ==> request_to(cloud, method, url, body)->Ok_0.api_key
            == cloud.api_key,
        get_from(cloud, url) is Ok ==> get_from(cloud, url)->Ok_0.api_key == cloud.api_key,
{
}

/// The debug text does not depend on the API key.
pub proof fn debug_text_hides_key(a: CloudView, b: CloudView)
    requires
        a.base == b.base,
        a.models == b.models,
        a.capabilities == b.capabilities,
    ensures
        cloud_text(a.base.text, a.models.dom().len(), a.capabilities.dom().len()) == cloud_text(
            b.base.text,
            b.models.dom().len(),
            b.capabilities.dom().len(),
        ),
{
}

/// Where the v2 list could be had, each of its devices with a valid identifier
/// is listed with its v2 name and model, whatever came of the v1 list.
pub proof fn v2_devices_are_listed(
    list: Seq<V2DeviceView>,
    v1: Result<Seq<DeviceView>, ErrorView>,
    i: int,
)
    requires
        0 <= i < list.len(),
        types::is_mac(list[i].device),
    ensures
        listed(Ok(list), v1) is Ok,
        listed(Ok(list), v1)->Ok_0.contains(
            DeviceView {
                id: text::upper_ascii(list[i].device),
                model: list[i].sku,
                name: list[i].device_name,
                alias: None,
                backend: BackendType::Cloud,
            },
        ),
{
    v2_device_is_kept(list, i);
    let device = DeviceView {
        id: text::upper_ascii(list[i].device),
        model: list[i].sku,
        name: list[i].device_name,
        alias: None,
        backend: BackendType::Cloud,
    };
    let k = choose|k: int| 0 <= k < v2_devices(list).len() && v2_devices(list)[k] == device;
    assert(listed(Ok(list), v1)->Ok_0[k] == device);
}

proof fn v2_device_is_kept(list: Seq<V2DeviceView>, i: int)
    requires
        0 <= i < list.len(),
        types::is_mac(list[i].device),
    ensures
        v2_devices(list).contains(
            DeviceView {
                id: text::upper_ascii(list[i].device),
                model: list[i].sku,
                name: list[i].device_name,
                alias: None,
                backend: BackendType::Cloud,
            },
        ),
    decreases list.len(),
{
    let device = DeviceView {
        id: text::upper_ascii(list[i].device),
        model: list[i].sku,
        name: list[i].device_name,
        alias: None,
        backend: BackendType::Cloud,
    };
    let before = v2_devices(list.drop_last());
    if i == list.len() - 1 {
        assert(v2_devices(list) == before.push(device));
        assert(v2_devices(list)[before.len() as int] == device);
    } else {
        v2_device_is_kept(list.drop_last(), i);
        let k = choose|k: int| 0 <= k < before.len() && before[k] == device;
        assert(v2_devices(list)[k] == device);
    }
}

/// A device of the v1 list is added exactly if the v2 list does not name it.
pub proof fn v1_devices_are_added(list: Seq<V2DeviceView>, v1: Seq<DeviceView>, device: DeviceView)
    ensures
        v1_only(list, v1).contains(device) <==> v1.contains(device) && !v2_names(list, device.id),
    decreases v1.len(),
{
    if v1.len() > 0 {
        let rest = v1.drop_last();
        let last = v1.last();
        v1_devices_are_added(list, rest, device);
        let before = v1_only(list, rest);
        let all = v1_only(list, v1);
        if all.contains(device) {
            let k = choose|k: int| 0 <= k < all.len() && all[k] == device;
            if k < before.len() {
                assert(before[k] == device);
                let j = choose|j: int| 0 <= j < rest.len() && rest[j] == device;
                assert(v1[j] == device);
            } else {
                assert(v1[v1.len() - 1] == device);
            }
        }
        if v1.contains(device) && !v2_names(list, device.id) {
            let j = choose|j: int| 0 <= j < v1.len() && v1[j] == device;
            if j < rest.len() {
                assert(rest[j] == device);
                let k = choose|k: int| 0 <= k < before.len() && before[k] == device;
                assert(all[k] == device);
            } else {
                assert(all[before.len() as int] == device);
            }
        }
    }
}

/// No device of the v1 list is added beside a v2 device with the same identifier,
/// in whatever case the v2 list writes it.
pub proof fn v2_takes_precedence(
    list: Seq<V2DeviceView>,
    v1: Seq<DeviceView>,
    a: DeviceView,
    b: DeviceView,
)
    requires
        v2_devices(list).contains(a),
        v1_only(list, v1).contains(b),
    ensures
        a.id != b.id,
{
    v1_devices_are_added(list, v1, b);
    let i = v2_source(list, a);
    assert(types::device_id(list[i].device) == Ok::<Seq<char>, ErrorView>(a.id));
}

/// The model of a device that the v2 list names is the one that the v2 list gives,
/// whatever the v1 list says.
pub proof fn v2_models_win(list: Seq<V2DeviceView>, v1: Seq<DeviceView>, id: Seq<char>)
    requires
        v2_names(list, id),
    ensures
        ({
            let merged = models_in(v2_devices(list) + v1_only(list, v1));
            let from_v2 = models_in(v2_devices(list));
            &&& merged.contains_key(id) == from_v2.contains_key(id)
            &&& merged[id] == from_v2[id]
        }),
    decreases v1.len(),
{
    let from_v2 = v2_devices(list);
    if v1.len() == 0 {
        assert(from_v2 + v1_only(list, v1) =~= from_v2);
    } else {
        v2_models_win(list, v1.drop_last(), id);
        if !v2_names(list, v1.last().id) {
            let all = from_v2 + v1_only(list, v1);
            assert(all.drop_last() =~= from_v2 + v1_only(list, v1.drop_last()));
            assert(all.last() == v1.last());
        }
    }
}

/// A listed v2 device stands in the v2 list.
proof fn v2_source(list: Seq<V2DeviceView>, device: DeviceView) -> (i: int)
    requires
        v2_devices(list).contains(device),
    ensures
        0 <= i < list.len(),
        types::is_mac(list[i].device),
        device.id == text::upper_ascii(list[i].device),
    decreases list.len(),
{
    let all = v2_devices(list);
    let k = choose|k: int| 0 <= k < all.len() && all[k] == device;
    assert(list.len() > 0);
    let before = v2_devices(list.drop_last());
    if k < before.len() {
        assert(before[k] == device);
        v2_source(list.drop_last(), device)
    } else {
        list.len() - 1
    }
}

/// After a device list that succeeded, each listed device is known, so that
/// commands and queries for it find its model.
pub proof fn listed_devices_are_known(
    cloud: CloudView,
    v2: Result<Seq<V2DeviceView>, ErrorView>,
    v1: Result<Seq<DeviceView>, ErrorView>,
    device: DeviceView,
)
    requires
        listed(v2, v1) is Ok,
        listed(v2, v1)->Ok_0.contains(device),
    ensures
        model_of(after_listing(cloud, v2, v1), device.id) is Ok,
        !(legacy_first_step(after_listing(cloud, v2, v1), device.id) is Refresh),
{
    models_cover(listed(v2, v1)->Ok_0, device);
}

proof fn models_cover(devices: Seq<DeviceView>, device: DeviceView)
    requires
        devices.contains(device),
    ensures
        models_in(devices).contains_key(device.id),
    decreases devices.len(),
{
    let k = choose|k: int| 0 <= k < devices.len() && devices[k] == device;
    if k < devices.len() - 1 {
        assert(devices.drop_last()[k] == device);
        models_cover(devices.drop_last(), device);
    }
}

/// A device list fails only if both lists failed, and then nothing changes.
pub proof fn failed_listing_changes_nothing(
    cloud: CloudView,
    v2: Result<Seq<V2DeviceView>, ErrorView>,
    v1: Result<Seq<DeviceView>, ErrorView>,
)
    requires
        listed(v2, v1) is Err,
    ensures
        v2 is Err,
        v1 is Err,
        after_listing(cloud, v2, v1) == cloud,
{
    assert(after_listing(cloud, v2, v1) =~= cloud);
}

} // verus!
