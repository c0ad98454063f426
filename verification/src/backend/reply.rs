//! Replies of the cloud API.
use vstd::prelude::*;
use vstd::string::*;

use crate::capability::Capability;
use crate::capability::CapabilityState;
use crate::capability::CapabilityStateView;
use crate::capability::CapabilityView;
use crate::decode;
use crate::decode::array_record;
use crate::decode::list_member;
use crate::decode::list_of;
use crate::decode::member;
use crate::decode::FromJson;
use crate::decode::Source;
use crate::error;
use crate::error::joined;
use crate::error::ErrorView;
use crate::error::GoveeError;
use crate::json::Json;
use crate::json::JsonView;
use crate::outline;
use crate::outline::list_from_text;
use crate::outline::outline_of;
use crate::outline::read_below;
use crate::outline::read_field;
use crate::outline::read_optional_field;
use crate::outline::FromText;
use crate::outline::Outline;
use crate::outline::OutlineView;
use crate::text;
use crate::text::decimal_text;
use crate::text::parse_unsigned;
use crate::types;
use crate::types::BackendType;
use crate::types::Device;
use crate::types::DeviceId;
use crate::types::DeviceView;
use crate::types::DiyScene;
use crate::types::DiySceneView;
use crate::types::LightScene;
use crate::types::LightSceneView;

verus! {

/// What came of reading the body of a reply.
pub enum Body {
    /// The bytes.
    Read(Vec<u8>),
    /// The text that the HTTP client makes of the bytes: it goes by the charset
    /// that the reply names, and by a byte order mark.
    Text(String),
    /// The text of the error.
    Failed(String),
}

/// What a body is.
pub enum BodyView {
    Read(Seq<u8>),
    Text(Seq<char>),
    Failed(Seq<char>),
}

impl View for Body {
    type V = BodyView;

    open spec fn view(&self) -> BodyView {
        match self {
            Body::Read(bytes) => BodyView::Read(bytes@),
            Body::Text(t) => BodyView::Text(t@),
            Body::Failed(message) => BodyView::Failed(message@),
        }
    }
}

/// A reply to an HTTP request. `retry_after` is the `Retry-After` header, if
/// there is one that is text.
pub struct HttpReply {
    pub status: u16,
    pub retry_after: Option<String>,
    pub body: Body,
}

/// What a reply is.
pub struct ReplyView {
    pub status: u16,
    pub retry_after: Option<Seq<char>>,
    pub body: BodyView,
}

impl View for HttpReply {
    type V = ReplyView;

    open spec fn view(&self) -> ReplyView {
        ReplyView {
            status: self.status,
            retry_after: types::optional_text(self.retry_after),
            body: self.body@,
        }
    }
}

/// What came of sending a request: a reply, or the text of the error.
pub open spec fn sent_view(sent: Result<HttpReply, String>) -> Result<ReplyView, Seq<char>> {
    match sent {
        Ok(reply) => Ok(reply@),
        Err(message) => Err(message@),
    }
}

/// The text that `String::from_utf8_lossy` makes of any bytes.
pub uninterp spec fn lossy_text(bytes: Seq<u8>) -> Seq<char>;

/// Calls `String::from_utf8_lossy`. The result is a function of the bytes alone,
/// and bytes that are valid UTF-8 are decoded as they are.
#[verifier::external_body]
fn to_text(bytes: &[u8]) -> (r: String)
    ensures
        r@ == lossy_text(bytes@),
        vstd::utf8::valid_utf8(bytes@) ==> r@ == vstd::utf8::decode_utf8(bytes@),
{
    String::from_utf8_lossy(bytes).into_owned()
}

/// Seconds to wait where the server does not say how long.
const DEFAULT_RETRY_AFTER_SECS: u64 = 60;

/// The seconds in a `Retry-After` header.
pub open spec fn retry_after(header: Option<Seq<char>>) -> u64 {
    match header {
        Some(t) => match text::unsigned_value(t) {
            Some(n) => n,
            None => 60,
        },
        None => 60,
    }
}

/// Parse the `Retry-After` header value as seconds.
pub fn parse_retry_after(header: &Option<String>) -> (r: u64)
    ensures
        r == retry_after(types::optional_text(*header)),
{
    match header {
        Some(t) => match parse_unsigned(t.as_str()) {
            Some(n) => n,
            None => DEFAULT_RETRY_AFTER_SECS,
        },
        None => DEFAULT_RETRY_AFTER_SECS,
    }
}

/// How the body of a reply is to be read.
#[derive(Debug, Clone, Copy, PartialEq, Eq, Structural)]
pub enum Reading {
    /// Not at all.
    Nothing,
    /// As text, for the message of an error.
    Text,
    /// As bytes, for what they stand for.
    Bytes,
}

/// How the body of a reply with this status is to be read.
pub open spec fn reading_of(status: u16) -> Reading {
    if status == 429 {
        Reading::Nothing
    } else if !is_success(status) {
        Reading::Text
    } else {
        Reading::Bytes
    }
}

/// How to read the body of a reply with this status.
pub fn how_to_read(status: u16) -> (r: Reading)
    ensures
        r == reading_of(status),
{
    if status == 429 {
        Reading::Nothing
    } else if status < 200 || status > 299 {
        Reading::Text
    } else {
        Reading::Bytes
    }
}

/// The message in the body of a reply that reports an error: its text, as the
/// HTTP client gives it. Bytes that were not turned into text are taken as UTF-8.
pub open spec fn body_message(body: BodyView) -> Seq<char> {
    match body {
        BodyView::Text(t) => t,
        BodyView::Read(bytes) => lossy_text(bytes),
        BodyView::Failed(message) => "<failed to read response body: "@ + message + ">"@,
    }
}

/// Whether a status reports success.
pub open spec fn is_success(status: u16) -> bool {
    200 <= status <= 299
}

/// The body of a reply, unless its status reports an error.
pub open spec fn checked_reply(reply: ReplyView) -> Result<BodyView, ErrorView> {
    if reply.status == 429 {
        Err(ErrorView::RateLimited { retry_after_secs: retry_after(reply.retry_after) })
    } else if !is_success(reply.status) {
        Err(ErrorView::Api { code: reply.status, message: body_message(reply.body) })
    } else {
        Ok(reply.body)
    }
}

/// Check an HTTP response for rate limiting and error status codes.
///
/// Returns the body on success (2xx). For 429, returns `RateLimited`. For
/// other non-2xx, returns `Api` with the response body.
pub fn check_response(reply: HttpReply) -> (r: Result<Body, GoveeError>)
    ensures
        error::outcome(r) == checked_reply(reply@),
{
    if reply.status == 429 {
        return Err(GoveeError::RateLimited { retry_after_secs: parse_retry_after(&reply.retry_after) });
    }
    if reply.status < 200 || reply.status > 299 {
        let message = match reply.body {
            Body::Text(t) => t,
            Body::Read(bytes) => to_text(bytes.as_slice()),
            Body::Failed(message) => joined("<failed to read response body: ", message.as_str()).concat(">"),
        };
        return Err(GoveeError::Api { code: reply.status, message });
    }
    Ok(reply.body)
}

/// What is said of a body that is not what was asked for.
pub const BAD_BODY: &'static str = "error decoding response body";

/// What the text in a body stands for.
pub open spec fn value_in<T: FromText>(body: BodyView) -> Result<T::V, ErrorView> {
    match body {
        BodyView::Failed(message) => Err(ErrorView::Request(message)),
        BodyView::Read(bytes) => value_or_bad(T::read_text(bytes)),
        BodyView::Text(t) => value_or_bad(T::read_text(vstd::utf8::encode_utf8(t))),
    }
}

/// A value, or the error that there is none.
pub open spec fn value_or_bad<V>(value: Option<V>) -> Result<V, ErrorView> {
    match value {
        Some(value) => Ok(value),
        None => Err(ErrorView::Request(BAD_BODY@)),
    }
}

/// Reads the value in a body.
pub fn read_value<T: FromText>(body: Body) -> (r: Result<T, GoveeError>)
    ensures
        error::outcome(r) == value_in::<T>(body@),
{
    let bytes = match body {
        Body::Failed(message) => return Err(GoveeError::Request(message)),
        Body::Read(bytes) => bytes,
        Body::Text(t) => t.as_str().as_bytes_vec(),
    };
    match T::from_text(bytes.as_slice()) {
        Some(value) => Ok(value),
        None => Err(GoveeError::Request(BAD_BODY.to_string())),
    }
}

/// What came of a request: the value in the reply, or the error.
pub open spec fn received<T: FromText>(sent: Result<ReplyView, Seq<char>>) -> Result<T::V, ErrorView> {
    match sent {
        Err(message) => Err(ErrorView::Request(message)),
        Ok(reply) => match checked_reply(reply) {
            Err(e) => Err(e),
            Ok(body) => value_in::<T>(body),
        },
    }
}

/// Reads the value in the reply to a request.
pub fn receive<T: FromText>(sent: Result<HttpReply, String>) -> (r: Result<T, GoveeError>)
    ensures
        error::outcome(r) == received::<T>(sent_view(sent)),
{
    match sent {
        Err(message) => Err(GoveeError::Request(message)),
        Ok(reply) => match check_response(reply) {
            Err(e) => Err(e),
            Ok(body) => read_value::<T>(body),
        },
    }
}

/// Response envelope for the new Govee OpenAPI.
pub struct NewApiResponse {
    pub msg: String,
    pub code: u32,
    pub payload: Json,
}

/// What an envelope holds.
pub struct EnvelopeView {
    pub msg: Seq<char>,
    pub code: u32,
    pub payload: JsonView,
}

impl View for NewApiResponse {
    type V = EnvelopeView;

    open spec fn view(&self) -> EnvelopeView {
        EnvelopeView { msg: self.msg@, code: self.code, payload: self.payload@ }
    }
}

impl FromText for NewApiResponse {
    open spec fn read_text(bytes: Seq<u8>) -> Option<EnvelopeView> {
        match outline::outline(bytes) {
            Some(fields) => match (
                outline::optional_field_value::<String>(fields, "requestId"@, 0, 4),
                outline::field_value::<String>(fields, "msg"@, 1, 4),
                outline::field_value::<u32>(fields, "code"@, 2, 4),
                envelope_payload(fields),
            ) {
                (Some(_), Some(msg), Some(code), Some(payload)) => Some(
                    EnvelopeView { msg, code, payload },
                ),
                _ => None,
            },
            None => None,
        }
    }

    fn from_text(bytes: &[u8]) -> (r: Option<NewApiResponse>) {
        let fields = match outline_of(bytes) {
            Some(fields) => fields,
            None => return None,
        };
        let payload = match fields.field_or("payload", "data", 3, 4) {
            Some(bytes) => match read_below(bytes, 1) {
                Some(payload) => payload,
                None => return None,
            },
            None => return None,
        };
        match (
            read_optional_field::<String>(&fields, "requestId", 0, 4),
            read_field::<String>(&fields, "msg", 1, 4),
            read_field::<u32>(&fields, "code", 2, 4),
        ) {
            (Some(_), Some(msg), Some(code)) => Some(NewApiResponse { msg, code, payload }),
            _ => None,
        }
    }
}

/// The payload of an envelope, which stands under `payload` or under `data`,
/// but not under both.
pub open spec fn envelope_payload(fields: OutlineView) -> Option<JsonView> {
    match fields.field_or("payload"@, "data"@, 3, 4) {
        Some(bytes) => outline::document_below(bytes, 1),
        None => None,
    }
}

/// The error that an envelope code other than 200 stands for.
pub open spec fn code_error(code: u32, msg: Seq<char>) -> ErrorView {
    if code == 429 {
        ErrorView::RateLimited { retry_after_secs: 60 }
    } else if code == 404 {
        ErrorView::Api { code: 404, message: "not found: "@ + msg }
    } else if code <= 65535 {
        ErrorView::Api { code: code as u16, message: msg }
    } else {
        ErrorView::Api {
            code: 500,
            message: "unexpected status code "@ + text::decimal(code as nat) + ": "@ + msg,
        }
    }
}

/// Map a new-API envelope error code and message to a domain error.
pub fn map_code_err(code: u32, msg: String) -> (r: GoveeError)
    ensures
        r@ == code_error(code, msg@),
{
    if code == 429 {
        GoveeError::RateLimited { retry_after_secs: DEFAULT_RETRY_AFTER_SECS }
    } else if code == 404 {
        GoveeError::Api { code: 404, message: joined("not found: ", msg.as_str()) }
    } else if code <= 65535 {
        GoveeError::Api { code: code as u16, message: msg }
    } else {
        GoveeError::Api {
            code: 500,
            message: joined("unexpected status code ", decimal_text(code as u64).as_str()).concat(
                ": ",
            ).concat(msg.as_str()),
        }
    }
}

/// The payload of an envelope, unless its code reports an error.
pub open spec fn opened(envelope: EnvelopeView) -> Result<JsonView, ErrorView> {
    if envelope.code == 200 {
        Ok(envelope.payload)
    } else {
        Err(code_error(envelope.code, envelope.msg))
    }
}

impl NewApiResponse {
    /// Opens an envelope.
    pub fn into_payload(self) -> (r: Result<Json, GoveeError>)
        ensures
            error::outcome(r) == opened(self@),
    {
        if self.code == 200 {
            Ok(self.payload)
        } else {
            Err(map_code_err(self.code, self.msg))
        }
    }
}

/// The payload of the reply to a request to the new API. An error that the
/// envelope reports comes before any that the payload would give.
pub open spec fn payload_received(sent: Result<ReplyView, Seq<char>>) -> Result<JsonView, ErrorView> {
    match received::<NewApiResponse>(sent) {
        Err(e) => Err(e),
        Ok(envelope) => opened(envelope),
    }
}

/// Opens the reply to a request to the new API.
pub fn receive_payload(sent: Result<HttpReply, String>) -> (r: Result<Json, GoveeError>)
    ensures
        error::outcome(r) == payload_received(sent_view(sent)),
{
    match receive::<NewApiResponse>(sent) {
        Err(e) => Err(e),
        Ok(envelope) => envelope.into_payload(),
    }
}

/// What is said of a payload that is not what was asked for.
pub const BAD_PAYLOAD: &'static str = "the payload does not have the expected shape";

/// What the payload of a reply stands for.
pub open spec fn payload_value<T: FromJson>(sent: Result<ReplyView, Seq<char>>) -> Result<T::V, ErrorView> {
    match payload_received(sent) {
        Err(e) => Err(e),
        Ok(payload) => match T::read(payload) {
            Some(value) => Ok(value),
            None => Err(ErrorView::Json(BAD_PAYLOAD@)),
        },
    }
}

/// Reads the payload of a reply.
pub fn receive_payload_value<T: FromJson>(sent: Result<HttpReply, String>) -> (r: Result<T, GoveeError>)
    ensures
        error::outcome(r) == payload_value::<T>(sent_view(sent)),
{
    match receive_payload(sent) {
        Err(e) => Err(e),
        Ok(payload) => match T::from_json(&payload) {
            Some(value) => Ok(value),
            None => Err(GoveeError::Json(BAD_PAYLOAD.to_string())),
        },
    }
}

/// A single device as returned by the v1 API.
pub struct V1Device {
    pub device: String,
    pub model: String,
    pub device_name: String,
}

/// What a device of the v1 API is.
pub struct V1DeviceView {
    pub device: Seq<char>,
    pub model: Seq<char>,
    pub device_name: Seq<char>,
}

impl View for V1Device {
    type V = V1DeviceView;

    open spec fn view(&self) -> V1DeviceView {
        V1DeviceView { device: self.device@, model: self.model@, device_name: self.device_name@ }
    }
}

impl FromText for V1Device {
    open spec fn read_text(bytes: Seq<u8>) -> Option<V1DeviceView> {
        match outline::outline(bytes) {
            Some(fields) => match (
                outline::field_value::<String>(fields, "device"@, 0, 3),
                outline::field_value::<String>(fields, "model"@, 1, 3),
                outline::field_value::<String>(fields, "deviceName"@, 2, 3),
            ) {
                (Some(device), Some(model), Some(device_name)) => Some(
                    V1DeviceView { device, model, device_name },
                ),
                _ => None,
            },
            None => None,
        }
    }

    fn from_text(bytes: &[u8]) -> (r: Option<V1Device>) {
        match outline_of(bytes) {
            Some(fields) => match (
                read_field::<String>(&fields, "device", 0, 3),
                read_field::<String>(&fields, "model", 1, 3),
                read_field::<String>(&fields, "deviceName", 2, 3),
            ) {
                (Some(device), Some(model), Some(device_name)) => Some(
                    V1Device { device, model, device_name },
                ),
                _ => None,
            },
            None => None,
        }
    }
}

/// A cloud device with the identifier in `device`.
pub open spec fn cloud_device(device: Seq<char>, model: Seq<char>, name: Seq<char>) -> Result<
    DeviceView,
    ErrorView,
> {
    match types::device_id(device) {
        Ok(id) => Ok(DeviceView { id, model, name, alias: None, backend: BackendType::Cloud }),
        Err(e) => Err(e),
    }
}

impl V1Device {
    /// Convert the API device into our domain `Device`.
    ///
    /// Returns an error if the MAC address is invalid.
    pub fn into_domain(self) -> (r: Result<Device, GoveeError>)
        ensures
            error::outcome(r) == cloud_device(self.device@, self.model@, self.device_name@),
    {
        match DeviceId::new(self.device.as_str()) {
            Ok(id) => Ok(
                Device {
                    id,
                    model: self.model,
                    name: self.device_name,
                    alias: None,
                    backend: BackendType::Cloud,
                },
            ),
            Err(e) => Err(e),
        }
    }
}

/// Reply to `GET /v1/devices`.
pub struct V1DevicesResponse {
    pub devices: Vec<V1Device>,
    pub code: u16,
    pub message: String,
}

/// What such a reply holds.
pub struct V1DevicesView {
    pub devices: Seq<V1DeviceView>,
    pub code: u16,
    pub message: Seq<char>,
}

impl View for V1DevicesResponse {
    type V = V1DevicesView;

    open spec fn view(&self) -> V1DevicesView {
        V1DevicesView {
            devices: decode::all_seen(self.devices@),
            code: self.code,
            message: self.message@,
        }
    }
}

/// The text of the only field in the `data` of a reply.
pub open spec fn data_field(fields: OutlineView, name: Seq<char>) -> Option<Seq<u8>> {
    match fields.field("data"@, 0, 3) {
        Some(data) => match outline::outline(data) {
            Some(data) => data.field(name, 0, 1),
            None => None,
        },
        None => None,
    }
}

fn find_data_field<'a>(fields: &Outline<'a>, name: &str) -> (r: Option<&'a [u8]>)
    ensures
        match r {
            Some(value) => data_field(fields@, name@) == Some(value@),
            None => data_field(fields@, name@) is None,
        },
{
    match fields.field("data", 0, 3) {
        Some(data) => match outline_of(data) {
            Some(data) => data.field(name, 0, 1),
            None => None,
        },
        None => None,
    }
}

/// The devices in a reply.
pub open spec fn devices_in(fields: OutlineView) -> Option<Seq<V1DeviceView>> {
    match data_field(fields, "devices"@) {
        Some(list) => outline::list_read::<V1Device>(list),
        None => None,
    }
}

impl FromText for V1DevicesResponse {
    open spec fn read_text(bytes: Seq<u8>) -> Option<V1DevicesView> {
        match outline::outline(bytes) {
            Some(fields) => match (
                devices_in(fields),
                outline::field_value::<u16>(fields, "code"@, 1, 3),
                outline::field_value::<String>(fields, "message"@, 2, 3),
            ) {
                (Some(devices), Some(code), Some(message)) => Some(
                    V1DevicesView { devices, code, message },
                ),
                _ => None,
            },
            None => None,
        }
    }

    fn from_text(bytes: &[u8]) -> (r: Option<V1DevicesResponse>) {
        let fields = match outline_of(bytes) {
            Some(fields) => fields,
            None => return None,
        };
        let devices = match find_data_field(&fields, "devices") {
            Some(list) => match list_from_text::<V1Device>(list) {
                Some(devices) => devices,
                None => return None,
            },
            None => return None,
        };
        match (read_field::<u16>(&fields, "code", 1, 3), read_field::<String>(&fields, "message", 2, 3)) {
            (Some(code), Some(message)) => Some(V1DevicesResponse { devices, code, message }),
            _ => None,
        }
    }
}

/// The devices of the v1 API, unless one of them has no valid identifier: then
/// the error for the first such.
pub open spec fn v1_devices(devices: Seq<V1DeviceView>) -> Result<Seq<DeviceView>, ErrorView>
    decreases devices.len(),
{
    if devices.len() == 0 {
        Ok(Seq::empty())
    } else {
        let d = devices.last();
        match v1_devices(devices.drop_last()) {
            Err(e) => Err(e),
            Ok(before) => match cloud_device(d.device, d.model, d.device_name) {
                Ok(device) => Ok(before.push(device)),
                Err(e) => Err(e),
            },
        }
    }
}

/// An error that comes in the first devices is the error of all.
proof fn v1_devices_fail(devices: Seq<V1DeviceView>, n: int)
    requires
        0 <= n <= devices.len(),
        v1_devices(devices.take(n)) is Err,
    ensures
        v1_devices(devices) == v1_devices(devices.take(n)),
    decreases devices.len(),
{
    if n == devices.len() {
        assert(devices.take(n) =~= devices);
    } else {
        assert(devices.drop_last().take(n) =~= devices.take(n));
        v1_devices_fail(devices.drop_last(), n);
    }
}

/// What a v1 device list comes to, unless its code reports an error.
pub open spec fn v1_listed(reply: V1DevicesView) -> Result<Seq<DeviceView>, ErrorView> {
    if reply.code != 200 {
        Err(ErrorView::Api { code: reply.code, message: reply.message })
    } else {
        v1_devices(reply.devices)
    }
}

/// What the v1 device list comes to.
pub open spec fn v1_list(sent: Result<ReplyView, Seq<char>>) -> Result<Seq<DeviceView>, ErrorView> {
    match received::<V1DevicesResponse>(sent) {
        Err(e) => Err(e),
        Ok(reply) => v1_listed(reply),
    }
}

/// A list of devices, or an error, by its views.
pub open spec fn devices_outcome(r: Result<Vec<Device>, GoveeError>) -> Result<Seq<DeviceView>, ErrorView> {
    match r {
        Ok(devices) => Ok(types::device_views(devices@)),
        Err(e) => Err(e@),
    }
}

impl V1DevicesResponse {
    /// The devices of a v1 device list.
    pub fn into_devices(self) -> (r: Result<Vec<Device>, GoveeError>)
        ensures
            devices_outcome(r) == v1_listed(self@),
    {
        if self.code != 200 {
            return Err(GoveeError::Api { code: self.code, message: self.message });
        }
        let listed = self.devices;
        let ghost views = decode::all_seen(listed@);
        let mut devices: Vec<Device> = Vec::new();
        assert(views.take(0) =~= Seq::empty());
        assert(types::device_views(devices@) =~= Seq::empty());
        for i in 0..listed.len()
            invariant
                views == decode::all_seen(listed@),
                v1_devices(views.take(i as int)) == Ok::<Seq<DeviceView>, ErrorView>(
                    types::device_views(devices@),
                ),
                v1_listed(self@) == v1_devices(views),
        {
            let d = V1Device {
                device: listed[i].device.clone(),
                model: listed[i].model.clone(),
                device_name: listed[i].device_name.clone(),
            };
            proof {
                assert(views.take(i + 1).drop_last() =~= views.take(i as int));
                assert(views.take(i + 1).last() == listed@[i as int]@);
            }
            match d.into_domain() {
                Ok(device) => {
                    let ghost before = devices@;
                    devices.push(device);
                    assert(types::device_views(devices@) =~= types::device_views(before).push(device@));
                },
                Err(e) => {
                    proof {
                        v1_devices_fail(views, i + 1);
                    }
                    return Err(e);
                },
            }
        }
        assert(views.take(listed@.len() as int) =~= views);
        Ok(devices)
    }
}

/// Reads the reply to `GET /v1/devices`.
pub fn receive_v1_list(sent: Result<HttpReply, String>) -> (r: Result<Vec<Device>, GoveeError>)
    ensures
        devices_outcome(r) == v1_list(sent_view(sent)),
{
    match receive::<V1DevicesResponse>(sent) {
        Ok(reply) => reply.into_devices(),
        Err(e) => Err(e),
    }
}

/// Reply to `GET /v1/devices/state`.
pub struct V1StateResponse {
    pub properties: Vec<Json>,
    pub code: u16,
    pub message: String,
}

/// What such a reply holds.
pub struct V1StateView {
    pub properties: Seq<JsonView>,
    pub code: u16,
    pub message: Seq<char>,
}

impl View for V1StateResponse {
    type V = V1StateView;

    open spec fn view(&self) -> V1StateView {
        V1StateView {
            properties: decode::all_seen(self.properties@),
            code: self.code,
            message: self.message@,
        }
    }
}

/// The properties in a reply.
pub open spec fn properties_in(fields: OutlineView) -> Option<Seq<JsonView>> {
    match data_field(fields, "properties"@) {
        Some(list) => match outline::document_below(list, 2) {
            Some(list) => decode::read_list::<Json>(list),
            None => None,
        },
        None => None,
    }
}

impl FromText for V1StateResponse {
    open spec fn read_text(bytes: Seq<u8>) -> Option<V1StateView> {
        match outline::outline(bytes) {
            Some(fields) => match (
                properties_in(fields),
                outline::field_value::<u16>(fields, "code"@, 1, 3),
                outline::field_value::<String>(fields, "message"@, 2, 3),
            ) {
                (Some(properties), Some(code), Some(message)) => Some(
                    V1StateView { properties, code, message },
                ),
                _ => None,
            },
            None => None,
        }
    }

    fn from_text(bytes: &[u8]) -> (r: Option<V1StateResponse>) {
        let fields = match outline_of(bytes) {
            Some(fields) => fields,
            None => return None,
        };
        let list = match find_data_field(&fields, "properties") {
            Some(list) => match read_below(list, 2) {
                Some(list) => list,
                None => return None,
            },
            None => return None,
        };
        let properties = match list_of::<Json>(&list) {
            Some(properties) => properties,
            None => return None,
        };
        match (read_field::<u16>(&fields, "code", 1, 3), read_field::<String>(&fields, "message", 2, 3)) {
            (Some(code), Some(message)) => Some(V1StateResponse { properties, code, message }),
            _ => None,
        }
    }
}

/// Reply to `PUT /v1/devices/control`.
pub struct V1ControlResponse {
    pub code: u16,
    pub message: String,
}

/// What such a reply holds.
pub struct V1ControlView {
    pub code: u16,
    pub message: Seq<char>,
}

impl View for V1ControlResponse {
    type V = V1ControlView;

    open spec fn view(&self) -> V1ControlView {
        V1ControlView { code: self.code, message: self.message@ }
    }
}

impl FromText for V1ControlResponse {
    open spec fn read_text(bytes: Seq<u8>) -> Option<V1ControlView> {
        match outline::outline(bytes) {
            Some(fields) => match (
                outline::field_value::<u16>(fields, "code"@, 0, 2),
                outline::field_value::<String>(fields, "message"@, 1, 2),
            ) {
                (Some(code), Some(message)) => Some(V1ControlView { code, message }),
                _ => None,
            },
            None => None,
        }
    }

    fn from_text(bytes: &[u8]) -> (r: Option<V1ControlResponse>) {
        match outline_of(bytes) {
            Some(fields) => match (
                read_field::<u16>(&fields, "code", 0, 2),
                read_field::<String>(&fields, "message", 1, 2),
            ) {
                (Some(code), Some(message)) => Some(V1ControlResponse { code, message }),
                _ => None,
            },
            None => None,
        }
    }
}

impl V1ControlResponse {
    /// Whether a control command was taken.
    pub fn into_result(self) -> (r: Result<(), GoveeError>)
        ensures
            error::outcome(r) == taken(self@),
    {
        if self.code != 200 {
            Err(GoveeError::Api { code: self.code, message: self.message })
        } else {
            Ok(())
        }
    }
}

/// What a reply to a control command comes to.
pub open spec fn taken(reply: V1ControlView) -> Result<(), ErrorView> {
    if reply.code != 200 {
        Err(ErrorView::Api { code: reply.code, message: reply.message })
    } else {
        Ok(())
    }
}

/// What the body of a reply to a control command comes to.
pub open spec fn control_result(body: BodyView) -> Result<(), ErrorView> {
    match value_in::<V1ControlResponse>(body) {
        Err(e) => Err(e),
        Ok(reply) => taken(reply),
    }
}

/// Reads the body of a reply to a control command.
pub fn read_control_result(body: Body) -> (r: Result<(), GoveeError>)
    ensures
        error::outcome(r) == control_result(body@),
{
    match read_value::<V1ControlResponse>(body) {
        Err(e) => Err(e),
        Ok(reply) => reply.into_result(),
    }
}

/// A single device as returned by the v2 device list.
pub struct V2Device {
    pub sku: String,
    pub device: String,
    pub device_name: String,
    pub capabilities: Vec<Capability>,
}

/// What a device of the v2 API is.
pub struct V2DeviceView {
    pub sku: Seq<char>,
    pub device: Seq<char>,
    pub device_name: Seq<char>,
    pub capabilities: Seq<CapabilityView>,
}

impl View for V2Device {
    type V = V2DeviceView;

    open spec fn view(&self) -> V2DeviceView {
        V2DeviceView {
            sku: self.sku@,
            device: self.device@,
            device_name: self.device_name@,
            capabilities: decode::all_seen(self.capabilities@),
        }
    }
}

impl FromJson for V2Device {
    open spec fn read(value: JsonView) -> Option<V2DeviceView> {
        let value = decode::record(value, seq!["sku", "device", "deviceName", "capabilities"], Source::Json);
        match (
            decode::read_member::<String>(value, "sku"@),
            decode::read_member::<String>(value, "device"@),
            decode::read_member::<String>(value, "deviceName"@),
            decode::read_list_member::<Capability>(value, "capabilities"@),
        ) {
            (Some(sku), Some(device), Some(device_name), Some(capabilities)) => Some(
                V2DeviceView { sku, device, device_name, capabilities },
            ),
            _ => None,
        }
    }

    fn from_json(value: &Json) -> (r: Option<V2Device>) {
        let object = array_record(value, &["sku", "device", "deviceName", "capabilities"], Source::Json);
        let value = match &object {
            Some(object) => object,
            None => value,
        };
        match (
            member::<String>(value, "sku"),
            member::<String>(value, "device"),
            member::<String>(value, "deviceName"),
            list_member::<Capability>(value, "capabilities"),
        ) {
            (Some(sku), Some(device), Some(device_name), Some(capabilities)) => Some(
                V2Device { sku, device, device_name, capabilities },
            ),
            _ => None,
        }
    }
}

/// A list in the payload of a reply, or an error, by its views.
pub open spec fn list_outcome<T: View>(r: Result<Vec<T>, GoveeError>) -> Result<Seq<T::V>, ErrorView> {
    match r {
        Ok(list) => Ok(decode::all_seen(list@)),
        Err(e) => Err(e@),
    }
}

/// What the v2 device list comes to.
pub open spec fn v2_list(sent: Result<ReplyView, Seq<char>>) -> Result<Seq<V2DeviceView>, ErrorView> {
    match payload_received(sent) {
        Err(e) => Err(e),
        Ok(payload) => match decode::read_list::<V2Device>(payload) {
            Some(devices) => Ok(devices),
            None => Err(ErrorView::Json(BAD_PAYLOAD@)),
        },
    }
}

/// Reads the reply to the v2 device list request.
pub fn receive_v2_list(sent: Result<HttpReply, String>) -> (r: Result<Vec<V2Device>, GoveeError>)
    ensures
        list_outcome(r) == v2_list(sent_view(sent)),
{
    match receive_payload(sent) {
        Err(e) => Err(e),
        Ok(payload) => match list_of::<V2Device>(&payload) {
            Some(devices) => Ok(devices),
            None => Err(GoveeError::Json(BAD_PAYLOAD.to_string())),
        },
    }
}

/// Payload of the reply to a v2 state request.
pub struct V2StateResponse {
    pub capabilities: Vec<CapabilityState>,
}

/// What such a payload holds.
pub struct V2StateView {
    pub capabilities: Seq<CapabilityStateView>,
}

impl View for V2StateResponse {
    type V = V2StateView;

    open spec fn view(&self) -> V2StateView {
        V2StateView { capabilities: decode::all_seen(self.capabilities@) }
    }
}

impl FromJson for V2StateResponse {
    open spec fn read(value: JsonView) -> Option<V2StateView> {
        let value = decode::record(value, seq!["sku", "device", "capabilities"], Source::Json);
        match (
            decode::read_member::<String>(value, "sku"@),
            decode::read_member::<String>(value, "device"@),
            decode::read_list_member::<CapabilityState>(value, "capabilities"@),
        ) {
            (Some(_), Some(_), Some(capabilities)) => Some(V2StateView { capabilities }),
            _ => None,
        }
    }

    fn from_json(value: &Json) -> (r: Option<V2StateResponse>) {
        let object = array_record(value, &["sku", "device", "capabilities"], Source::Json);
        let value = match &object {
            Some(object) => object,
            None => value,
        };
        match (
            member::<String>(value, "sku"),
            member::<String>(value, "device"),
            list_member::<CapabilityState>(value, "capabilities"),
        ) {
            (Some(_), Some(_), Some(capabilities)) => Some(V2StateResponse { capabilities }),
            _ => None,
        }
    }
}

impl FromJson for LightScene {
    open spec fn read(value: JsonView) -> Option<LightSceneView> {
        let value = decode::record(value, seq!["sceneId", "sceneName", "sceneParamId"], Source::Json);
        match (
            decode::read_member::<u32>(value, "sceneId"@),
            decode::read_member::<String>(value, "sceneName"@),
            decode::read_member::<u32>(value, "sceneParamId"@),
        ) {
            (Some(id), Some(name), Some(param_id)) => Some(LightSceneView { id, name, param_id }),
            _ => None,
        }
    }

    fn from_json(value: &Json) -> (r: Option<LightScene>) {
        let object = array_record(value, &["sceneId", "sceneName", "sceneParamId"], Source::Json);
        let value = match &object {
            Some(object) => object,
            None => value,
        };
        match (
            member::<u32>(value, "sceneId"),
            member::<String>(value, "sceneName"),
            member::<u32>(value, "sceneParamId"),
        ) {
            (Some(id), Some(name), Some(param_id)) => Some(LightScene { id, name, param_id }),
            _ => None,
        }
    }
}

impl FromJson for DiyScene {
    open spec fn read(value: JsonView) -> Option<DiySceneView> {
        let value = decode::record(value, seq!["sceneId", "sceneName"], Source::Json);
        match (
            decode::read_member::<u32>(value, "sceneId"@),
            decode::read_member::<String>(value, "sceneName"@),
        ) {
            (Some(id), Some(name)) => Some(DiySceneView { id, name }),
            _ => None,
        }
    }

    fn from_json(value: &Json) -> (r: Option<DiyScene>) {
        let object = array_record(value, &["sceneId", "sceneName"], Source::Json);
        let value = match &object {
            Some(object) => object,
            None => value,
        };
        match (member::<u32>(value, "sceneId"), member::<String>(value, "sceneName")) {
            (Some(id), Some(name)) => Some(DiyScene { id, name }),
            _ => None,
        }
    }
}

/// The list under `name` in the payload of a reply.
pub open spec fn payload_list<T: FromJson>(
    sent: Result<ReplyView, Seq<char>>,
    name: &'static str,
) -> Result<Seq<T::V>, ErrorView> {
    match payload_received(sent) {
        Err(e) => Err(e),
        Ok(payload) => match decode::read_list_member::<T>(
            decode::record(payload, seq![name], Source::Json),
            name@,
        ) {
            Some(list) => Ok(list),
            None => Err(ErrorView::Json(BAD_PAYLOAD@)),
        },
    }
}

fn receive_payload_list<T: FromJson>(sent: Result<HttpReply, String>, name: &'static str) -> (r: Result<
    Vec<T>,
    GoveeError,
>)
    ensures
        list_outcome(r) == payload_list::<T>(sent_view(sent), name),
{
    match receive_payload(sent) {
        Err(e) => Err(e),
        Ok(payload) => {
            let object = array_record(&payload, &[name], Source::Json);
            let fields = match &object {
                Some(object) => object,
                None => &payload,
            };
            match list_member::<T>(fields, name) {
                Some(list) => Ok(list),
                None => Err(GoveeError::Json(BAD_PAYLOAD.to_string())),
            }
        },
    }
}

/// Reads the reply to a scene list request.
pub fn receive_scenes(sent: Result<HttpReply, String>) -> (r: Result<Vec<LightScene>, GoveeError>)
    ensures
        list_outcome(r) == payload_list::<LightScene>(sent_view(sent), "scenes"),
{
    receive_payload_list::<LightScene>(sent, "scenes")
}

/// Reads the reply to a DIY scene list request.
pub fn receive_diy_scenes(sent: Result<HttpReply, String>) -> (r: Result<Vec<DiyScene>, GoveeError>)
    ensures
        list_outcome(r) == payload_list::<DiyScene>(sent_view(sent), "diyScenes"),
{
    receive_payload_list::<DiyScene>(sent, "diyScenes")
}

/// An error that the envelope reports does not depend on the payload.
pub proof fn envelope_error_comes_first<T: FromJson>(
    sent: Result<ReplyView, Seq<char>>,
    envelope: EnvelopeView,
)
    requires
        received::<NewApiResponse>(sent) == Ok::<EnvelopeView, ErrorView>(envelope),
        envelope.code != 200,
    ensures
        payload_value::<T>(sent) == Err::<T::V, ErrorView>(code_error(envelope.code, envelope.msg)),
{
}

} // verus!
