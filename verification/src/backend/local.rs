//! The local LAN backend.
//!
//! Devices are found by a multicast scan and controlled by datagrams of JSON.
//! Nothing here opens a socket: the functions say which datagram to send and
//! what a received one means. Times are in nanoseconds since a common start.
use vstd::prelude::*;
use vstd::string::*;

use crate::backend;
use crate::backend::state;
use crate::backend::state::parse_dev_status;
use crate::backend::Command;
use crate::backend::GoveeBackend;
use crate::config;
use crate::config::check_interval;
use crate::decode;
use crate::decode::ToJson;
use crate::error;
use crate::error::joined;
use crate::error::ErrorView;
use crate::error::GoveeError;
use crate::json;
use crate::json::Json;
use crate::json::JsonView;
use crate::names;
use crate::names::NameMap;
use crate::net;
use crate::net::IpAddr;
use crate::net::Ipv4Addr;
use crate::text;
use crate::text::decimal_text;
use crate::text::same;
use crate::types;
use crate::types::BackendType;
use crate::types::Color;
use crate::types::Device;
use crate::types::DeviceId;
use crate::types::DeviceState;
use crate::types::DeviceStateView;
use crate::types::DeviceView;

verus! {

/// Port the device sends responses to (we listen on this).
pub const LISTEN_PORT: u16 = 4002;

/// Port used for multicast discovery scan requests.
pub const MULTICAST_PORT: u16 = 4001;

/// Port the device listens on for commands and status queries.
pub const COMMAND_PORT: u16 = 4003;

/// Longest time without a new device, in nanoseconds, after which a scan ends.
pub const IDLE_TIMEOUT_NANOS: u128 = 200_000_000;

/// Nanoseconds in a second.
pub const NANOS_PER_SEC: u128 = 1_000_000_000;

/// The scan request.
pub const SCAN_MESSAGE: &'static str = "{\"msg\":{\"cmd\":\"scan\",\"data\":{\"account_topic\":\"reserve\"}}}";

/// The status request.
pub const STATUS_MESSAGE: &'static str = "{\"msg\":{\"cmd\":\"devStatus\",\"data\":{}}}";

/// Multicast group used by Govee LAN protocol for discovery.
pub fn multicast_addr() -> (r: Ipv4Addr)
    ensures
        r == (Ipv4Addr { a: 239, b: 255, c: 255, d: 250 }),
{
    Ipv4Addr::new(239, 255, 255, 250)
}

/// Helper to create a `GoveeError::Protocol` with a custom message.
fn protocol_error(msg: &str) -> (r: GoveeError)
    ensures
        r@ == ErrorView::Protocol(msg@),
{
    GoveeError::Protocol(msg.to_string())
}

/// Validate that an IP address is local (private, link-local, or loopback).
///
/// For IPv4, accepts private (RFC 1918), link-local (169.254.x.x), and loopback
/// (127.x.x.x) addresses. For IPv6, only loopback (::1) is accepted since Govee
/// devices don't use IPv6.
pub fn validate_local_ip(ip: IpAddr) -> (r: Result<(), GoveeError>)
    ensures
        error::outcome(r) == (if net::is_local(ip) {
            Ok(())
        } else {
            Err(ErrorView::InvalidConfig("device IP is not a local address"@))
        }),
{
    if !ip.is_local() {
        return Err(GoveeError::InvalidConfig("device IP is not a local address".to_string()));
    }
    Ok(())
}

/// What a failure to bind the listening port means.
pub fn bind_error(in_use: bool, message: String) -> (r: GoveeError)
    ensures
        r@ == (if in_use {
            ErrorView::BackendUnavailable(
                "port 4002 already in use -- another process (Home Assistant, govee2mqtt, etc.) may be using the Govee LAN API"@,
            )
        } else {
            ErrorView::Udp(message@)
        }),
{
    if in_use {
        GoveeError::BackendUnavailable(
            "port 4002 already in use -- another process (Home Assistant, govee2mqtt, etc.) may be using the Govee LAN API".to_string(),
        )
    } else {
        GoveeError::Udp(message)
    }
}

/// A device discovered via the Govee LAN protocol.
#[derive(Debug)]
pub struct DiscoveredDevice {
    pub ip: IpAddr,
    pub device_id: DeviceId,
    pub sku: String,
    pub last_seen: u128,
}

/// What is known of a discovered device.
pub struct DiscoveredView {
    pub ip: IpAddr,
    pub device_id: Seq<char>,
    pub sku: Seq<char>,
    pub last_seen: u128,
}

impl View for DiscoveredDevice {
    type V = DiscoveredView;

    open spec fn view(&self) -> DiscoveredView {
        DiscoveredView {
            ip: self.ip,
            device_id: self.device_id@,
            sku: self.sku@,
            last_seen: self.last_seen,
        }
    }
}

impl Clone for DiscoveredDevice {
    fn clone(&self) -> (r: DiscoveredDevice)
        ensures
            r == *self,
    {
        DiscoveredDevice {
            ip: self.ip,
            device_id: self.device_id.clone(),
            sku: self.sku.clone(),
            last_seen: self.last_seen,
        }
    }
}

/// The time from `earlier` to `now`; none, if `earlier` is later.
pub open spec fn elapsed(now: u128, earlier: u128) -> int {
    if now >= earlier {
        now - earlier
    } else {
        0
    }
}

/// Whether a device was not seen for longer than `ttl`.
pub open spec fn is_expired(device: DiscoveredView, now: u128, ttl: u128) -> bool {
    elapsed(now, device.last_seen) > ttl
}

/// A discovered device as devices are listed. The LAN protocol does not give
/// names: the SKU stands in for them.
pub open spec fn lan_device(device: DiscoveredView) -> DeviceView {
    DeviceView {
        id: device.device_id,
        model: device.sku,
        name: device.sku,
        alias: None,
        backend: BackendType::Local,
    }
}

impl DiscoveredDevice {
    /// Whether the device was not seen for longer than `ttl`.
    pub fn expired(&self, now: u128, ttl: u128) -> (r: bool)
        ensures
            r == is_expired(self@, now, ttl),
    {
        now >= self.last_seen && now - self.last_seen > ttl
    }

    /// The device as devices are listed.
    pub fn to_device(&self) -> (r: Device)
        ensures
            r@ == lan_device(self@),
    {
        Device {
            id: self.device_id.clone(),
            model: self.sku.clone(),
            name: self.sku.clone(),
            alias: None,
            backend: BackendType::Local,
        }
    }
}

/// A datagram to send.
#[derive(Debug)]
pub struct Datagram {
    pub ip: IpAddr,
    pub port: u16,
    pub bytes: Vec<u8>,
}

/// What a datagram is.
pub struct DatagramView {
    pub ip: IpAddr,
    pub port: u16,
    pub bytes: Seq<u8>,
}

impl View for Datagram {
    type V = DatagramView;

    open spec fn view(&self) -> DatagramView {
        DatagramView { ip: self.ip, port: self.port, bytes: self.bytes@ }
    }
}

/// Local LAN backend.
///
/// Holds the devices that answered a scan and the addresses that a status query
/// is waiting for.
///
/// # Security
///
/// The Govee LAN protocol is **unauthenticated plaintext UDP**. The library uses
/// the UDP source IP (not the IP in the payload) as the address of a device and
/// sends only to local addresses, but the `device` (MAC) and `sku` fields are
/// taken from the untrusted payload.
#[derive(Debug)]
pub struct LocalBackend {
    devices: NameMap<DiscoveredDevice>,
    pending: Vec<IpAddr>,
    discovery_timeout: u128,
    device_ttl: u128,
}

/// What a local backend holds.
#[verifier::ext_equal]
pub struct LocalView {
    pub devices: Map<Seq<char>, DiscoveredView>,
    pub pending: Set<IpAddr>,
    pub discovery_timeout: u128,
    pub device_ttl: u128,
}

/// The discovered devices by identifier, each by its view.
pub open spec fn discovered(devices: Map<Seq<char>, DiscoveredDevice>) -> Map<Seq<char>, DiscoveredView> {
    devices.map_values(|d: DiscoveredDevice| d@)
}

impl View for LocalBackend {
    type V = LocalView;

    closed spec fn view(&self) -> LocalView {
        LocalView {
            devices: discovered(self.devices@),
            pending: self.pending@.to_set(),
            discovery_timeout: self.discovery_timeout,
            device_ttl: self.device_ttl,
        }
    }
}

/// Whether each device stands under its identifier.
pub open spec fn well_placed(devices: Map<Seq<char>, DiscoveredView>) -> bool {
    forall|id: Seq<char>| #[trigger] devices.contains_key(id) ==> devices[id].device_id == id
}

/// The address of a discovered device.
pub open spec fn ip_of(local: LocalView, id: Seq<char>) -> Result<IpAddr, ErrorView> {
    if local.devices.contains_key(id) {
        Ok(local.devices[id].ip)
    } else {
        Err(ErrorView::DeviceNotFound(id))
    }
}

/// The address of a discovered device, if datagrams may be sent there.
pub open spec fn local_ip_of(local: LocalView, id: Seq<char>) -> Result<IpAddr, ErrorView> {
    match ip_of(local, id) {
        Err(e) => Err(e),
        Ok(ip) => if net::is_local(ip) {
            Ok(ip)
        } else {
            Err(ErrorView::InvalidConfig("device IP is not a local address"@))
        },
    }
}

/// A LAN message.
pub open spec fn lan_message(cmd: Seq<char>, data: JsonView) -> JsonView {
    JsonView::Object(
        map![
            "msg"@ => JsonView::Object(map!["cmd"@ => JsonView::Text(cmd), "data"@ => data]),
        ],
    )
}

/// The data of a message that carries one number.
pub open spec fn value_data(value: u64) -> JsonView {
    JsonView::Object(map!["value"@ => JsonView::Unsigned(value)])
}

/// The data of a `colorwc` message. The LAN protocol bundles color and color
/// temperature: to set one is to switch off the other.
pub open spec fn colorwc_data(color: Color, kelvin: u32) -> JsonView {
    JsonView::Object(
        map![
            "color"@ => color.written(),
            "colorTemInKelvin"@ => JsonView::Unsigned(kelvin as u64),
        ],
    )
}

/// The LAN message for a command.
pub open spec fn command_message(command: Command) -> JsonView {
    match command {
        Command::Power(on) => lan_message(
            "turn"@,
            value_data(
                if on {
                    1
                } else {
                    0
                },
            ),
        ),
        Command::Brightness(value) => lan_message("brightness"@, value_data(value as u64)),
        Command::Color(color) => lan_message("colorwc"@, colorwc_data(color, 0)),
        Command::ColorTemp(kelvin) => lan_message(
            "colorwc"@,
            colorwc_data(Color { r: 0, g: 0, b: 0 }, kelvin),
        ),
    }
}

fn message(cmd: &str, data: Json) -> (r: Json)
    ensures
        r@ == lan_message(cmd@, data@),
{
    let msg = Json::empty_object().with("cmd", Json::text(cmd)).with("data", data);
    let r = Json::empty_object().with("msg", msg);
    proof {
        let expected = lan_message(cmd@, data@);
        assert(msg@->Object_0 =~= expected->Object_0["msg"@]->Object_0);
        assert(r@->Object_0 =~= expected->Object_0);
    }
    r
}

fn value_message(cmd: &str, value: u64) -> (r: Json)
    ensures
        r@ == lan_message(cmd@, value_data(value)),
{
    let data = Json::empty_object().with("value", Json::Unsigned(value));
    assert(data@->Object_0 =~= value_data(value)->Object_0);
    message(cmd, data)
}

fn colorwc_message(color: Color, kelvin: u32) -> (r: Json)
    ensures
        r@ == lan_message("colorwc"@, colorwc_data(color, kelvin)),
{
    let data = Json::empty_object().with("color", color.to_json()).with(
        "colorTemInKelvin",
        Json::Unsigned(kelvin as u64),
    );
    assert(data@->Object_0 =~= colorwc_data(color, kelvin)->Object_0);
    message("colorwc", data)
}

/// The LAN message for a command.
pub fn command_payload(command: Command) -> (r: Json)
    ensures
        r@ == command_message(command),
{
    match command {
        Command::Power(on) => value_message(
            "turn",
            if on {
                1
            } else {
                0
            },
        ),
        Command::Brightness(value) => value_message("brightness", value as u64),
        Command::Color(color) => colorwc_message(color, 0),
        Command::ColorTemp(kelvin) => colorwc_message(Color::new(0, 0, 0), kelvin),
    }
}

/// The datagram that carries a message to a device.
pub open spec fn datagram_to(local: LocalView, id: Seq<char>, payload: JsonView) -> Result<
    DatagramView,
    ErrorView,
> {
    match local_ip_of(local, id) {
        Err(e) => Err(e),
        Ok(ip) => Ok(DatagramView { ip, port: COMMAND_PORT, bytes: json::json_bytes(payload) }),
    }
}

/// The datagram that carries a command to a device.
pub open spec fn command_datagram(local: LocalView, id: Seq<char>, command: Command) -> Result<
    DatagramView,
    ErrorView,
> {
    match backend::refusal(command) {
        Some(e) => Err(e),
        None => datagram_to(local, id, command_message(command)),
    }
}

/// What a scan response with this data says of a device at `source`.
pub open spec fn scanned(data: JsonView, source: IpAddr, now: u128) -> Result<DiscoveredView, ErrorView> {
    match (data.get_text("device"@), data.get_text("sku"@)) {
        (None, _) => Err(ErrorView::Protocol("missing 'device' in scan"@)),
        (Some(_), None) => Err(ErrorView::Protocol("missing 'sku' in scan"@)),
        (Some(mac), Some(sku)) => match types::device_id(mac) {
            Err(e) => Err(e),
            Ok(device_id) => Ok(DiscoveredView { ip: source, device_id, sku, last_seen: now }),
        },
    }
}

/// What a received message says.
pub enum Received {
    /// A device is there.
    Scan(DiscoveredView),
    /// The state of the device that sent it.
    Status(DeviceStateView),
    /// Nothing that concerns the library.
    Other,
}

/// What a received document says, if it follows the protocol.
pub open spec fn understood(envelope: JsonView, source: IpAddr, now: u128) -> Result<Received, ErrorView> {
    match envelope.get("msg"@) {
        None => Err(ErrorView::Protocol("missing 'msg' field"@)),
        Some(msg) => match msg.get_text("cmd"@) {
            None => Err(ErrorView::Protocol("missing 'cmd' field"@)),
            Some(cmd) => if cmd == "scan"@ {
                match msg.get("data"@) {
                    None => Err(ErrorView::Protocol("missing 'data' in scan"@)),
                    Some(data) => match scanned(data, source, now) {
                        Ok(device) => Ok(Received::Scan(device)),
                        Err(e) => Err(e),
                    },
                }
            } else if cmd == "devStatus"@ {
                match msg.get("data"@) {
                    None => Err(ErrorView::Protocol("missing 'data' in devStatus"@)),
                    Some(data) => Ok(Received::Status(state::described_by_status(data))),
                }
            } else {
                Ok(Received::Other)
            },
        },
    }
}

/// What a received datagram says, if it follows the protocol.
pub open spec fn packet(bytes: Seq<u8>, source: IpAddr, now: u128) -> Result<Received, ErrorView> {
    match json::json_document(bytes) {
        Err(message) => Err(ErrorView::Serialization(message)),
        Ok(envelope) => understood(envelope, source, now),
    }
}

/// What is worth noting of a datagram, besides what it says.
#[derive(Debug, Clone, PartialEq, Eq)]
pub enum Remark {
    /// It holds a command that is not known, and was ignored.
    UnknownCommand(String),
    /// It is a scan response that gives this text as the address of the device.
    /// The address that it came from is used instead.
    StatedAddress(String),
}

/// What such a remark is.
pub enum RemarkView {
    UnknownCommand(Seq<char>),
    StatedAddress(Seq<char>),
}

impl View for Remark {
    type V = RemarkView;

    open spec fn view(&self) -> RemarkView {
        match self {
            Remark::UnknownCommand(cmd) => RemarkView::UnknownCommand(cmd@),
            Remark::StatedAddress(ip) => RemarkView::StatedAddress(ip@),
        }
    }
}

/// What is worth noting of a received document. A scan response has to name the
/// device and its model.
pub open spec fn noted(envelope: JsonView) -> Option<RemarkView> {
    match envelope.get("msg"@) {
        None => None,
        Some(msg) => match msg.get_text("cmd"@) {
            None => None,
            Some(cmd) => if cmd == "scan"@ {
                match msg.get("data"@) {
                    None => None,
                    Some(data) => match (
                        data.get_text("device"@),
                        data.get_text("sku"@),
                        data.get_text("ip"@),
                    ) {
                        (Some(_), Some(_), Some(ip)) => Some(RemarkView::StatedAddress(ip)),
                        _ => None,
                    },
                }
            } else if cmd == "devStatus"@ {
                None
            } else {
                Some(RemarkView::UnknownCommand(cmd))
            },
        },
    }
}

/// What is worth noting of a datagram.
pub fn remark(data: &[u8]) -> (r: Option<Remark>)
    ensures
        decode::seen(r) == (match json::json_document(data@) {
            Ok(envelope) => noted(envelope),
            Err(_) => None,
        }),
{
    match Json::parse(data) {
        Ok(envelope) => remark_on(&envelope),
        Err(_) => None,
    }
}

/// What is worth noting of a received document.
pub fn remark_on(envelope: &Json) -> (r: Option<Remark>)
    ensures
        decode::seen(r) == noted(envelope@),
{
    let msg = match envelope.get("msg") {
        Some(msg) => msg,
        None => return None,
    };
    let cmd = match msg.get_str("cmd") {
        Some(cmd) => cmd,
        None => return None,
    };
    if same(cmd, "scan") {
        let data = match msg.get("data") {
            Some(data) => data,
            None => return None,
        };
        match (data.get_str("device"), data.get_str("sku"), data.get_str("ip")) {
            (Some(_), Some(_), Some(ip)) => Some(Remark::StatedAddress(ip.to_string())),
            _ => None,
        }
    } else if same(cmd, "devStatus") {
        None
    } else {
        Some(Remark::UnknownCommand(cmd.to_string()))
    }
}

/// What the backend holds after a message from `source`.
pub open spec fn after_packet(local: LocalView, source: IpAddr, received: Result<Received, ErrorView>) -> LocalView {
    match received {
        Ok(Received::Scan(device)) => LocalView {
            devices: local.devices.insert(device.device_id, device),
            ..local
        },
        Ok(Received::Status(_)) => LocalView { pending: local.pending.remove(source), ..local },
        _ => local,
    }
}

/// The answer that a message from `source` gives to a waiting query.
pub open spec fn answer(local: LocalView, source: IpAddr, received: Result<Received, ErrorView>) -> Result<
    Option<DeviceStateView>,
    ErrorView,
> {
    match received {
        Err(e) => Err(e),
        Ok(Received::Status(state)) => if local.pending.contains(source) {
            Ok(Some(state))
        } else {
            Ok(None)
        },
        Ok(_) => Ok(None),
    }
}

/// An optional state, or an error, by its views.
pub open spec fn answer_outcome(r: Result<Option<DeviceState>, GoveeError>) -> Result<
    Option<DeviceStateView>,
    ErrorView,
> {
    match r {
        Ok(Some(state)) => Ok(Some(state@)),
        Ok(None) => Ok(None),
        Err(e) => Err(e@),
    }
}

/// How a status query ended.
pub enum QueryEnd {
    /// The device answered.
    Answered(DeviceState),
    /// The request could not be sent.
    SendFailed(String),
    /// Nothing receives answers any more.
    ReceiverStopped,
    /// No answer came in time.
    TimedOut,
}

/// What a query comes to.
pub open spec fn query_result(end: QueryEnd) -> Result<DeviceStateView, ErrorView> {
    match end {
        QueryEnd::Answered(state) => Ok(state@),
        QueryEnd::SendFailed(message) => Err(ErrorView::Udp(message@)),
        QueryEnd::ReceiverStopped => Err(ErrorView::BackendUnavailable("receiver task stopped"@)),
        QueryEnd::TimedOut => Err(ErrorView::DiscoveryTimeout),
    }
}

/// What is left of a query for the state of the device at `ip` that has ended so:
/// unless the device has answered, the wait for its answer ends.
pub open spec fn after_query(local: LocalView, ip: IpAddr, end: QueryEnd) -> LocalView {
    if end is Answered {
        local
    } else {
        LocalView { pending: local.pending.remove(ip), ..local }
    }
}

/// The datagram that asks a device for its state.
pub open spec fn query_datagram(local: LocalView, id: Seq<char>) -> Result<DatagramView, ErrorView> {
    match local_ip_of(local, id) {
        Err(e) => Err(e),
        Ok(ip) => if local.pending.contains(ip) {
            Err(
                ErrorView::BackendUnavailable(
                    "concurrent state query already in progress for this device"@,
                ),
            )
        } else {
            Ok(
                DatagramView {
                    ip,
                    port: COMMAND_PORT,
                    bytes: vstd::utf8::encode_utf8(STATUS_MESSAGE@),
                },
            )
        },
    }
}

/// What stands while a query for the state of a device waits for its answer.
pub open spec fn during_query(local: LocalView, id: Seq<char>) -> LocalView {
    match query_datagram(local, id) {
        Ok(datagram) => LocalView { pending: local.pending.insert(datagram.ip), ..local },
        Err(_) => local,
    }
}

/// The devices that were seen within `ttl`.
pub open spec fn unexpired(devices: Map<Seq<char>, DiscoveredView>, now: u128, ttl: u128) -> Map<
    Seq<char>,
    DiscoveredView,
> {
    Map::new(
        |id: Seq<char>| devices.contains_key(id) && !is_expired(devices[id], now, ttl),
        |id: Seq<char>| devices[id],
    )
}

/// Whether `list` holds the devices, all of them and no other, each once.
pub open spec fn is_device_list(devices: Map<Seq<char>, DiscoveredView>, list: Seq<DeviceView>) -> bool {
    &&& forall|i: int, j: int|
        0 <= i < j < list.len() ==> #[trigger] list[i].id != #[trigger] list[j].id
    &&& forall|id: Seq<char>| #[trigger]
        devices.contains_key(id) ==> list.contains(lan_device(devices[id]))
    &&& forall|i: int|
        0 <= i < list.len() ==> devices.contains_key(#[trigger] list[i].id) && list[i] == lan_device(
            devices[list[i].id],
        )
}

impl LocalBackend {
    #[verifier::type_invariant]
    spec fn in_place(&self) -> bool {
        well_placed(discovered(self.devices@)) && self.pending@.no_duplicates()
    }

    /// Create a new `LocalBackend`.
    ///
    /// `discovery_timeout`, in nanoseconds, controls how long a scan and a
    /// status query wait. `discovery_interval_secs` determines the device TTL
    /// (3x the interval).
    pub fn new(discovery_timeout: u128, discovery_interval_secs: u64) -> (r: Result<
        LocalBackend,
        GoveeError,
    >)
        requires
            3 * discovery_interval_secs <= u64::MAX,
        ensures
            error::outcome(r) == (if discovery_interval_secs < config::MIN_DISCOVERY_INTERVAL_SECS {
                Err(ErrorView::InvalidConfig(config::interval_problem(discovery_interval_secs)))
            } else {
                Ok(
                    LocalView {
                        devices: Map::empty(),
                        pending: Set::empty(),
                        discovery_timeout,
                        device_ttl: (3 * discovery_interval_secs * NANOS_PER_SEC) as u128,
                    },
                )
            }),
    {
        match check_interval(discovery_interval_secs) {
            Ok(()) => {},
            Err(e) => return Err(e),
        }
        let devices: NameMap<DiscoveredDevice> = NameMap::new();
        let pending: Vec<IpAddr> = Vec::new();
        assert(discovered(devices@) =~= Map::empty());
        assert(pending@.to_set() =~= Set::empty());
        let device_ttl: u128 = 3 * (discovery_interval_secs as u128) * NANOS_PER_SEC;
        Ok(LocalBackend { devices, pending, discovery_timeout, device_ttl })
    }

    /// How long a scan and a status query wait, in nanoseconds.
    pub fn discovery_timeout(&self) -> (r: u128)
        ensures
            r == self@.discovery_timeout,
    {
        self.discovery_timeout
    }

    /// How many devices are known.
    pub fn device_count(&self) -> (r: usize)
        ensures
            r == self@.devices.dom().len(),
    {
        assert(self@.devices.dom() =~= self.devices@.dom());
        self.devices.len()
    }

    /// Look up the IP address of a discovered device.
    pub fn get_device_ip(&self, id: &DeviceId) -> (r: Result<IpAddr, GoveeError>)
        ensures
            error::outcome(r) == ip_of(self@, id@),
    {
        match self.devices.get(id.as_str()) {
            Some(device) => Ok(device.ip),
            None => Err(GoveeError::DeviceNotFound(id.to_string())),
        }
    }

    fn local_ip(&self, id: &DeviceId) -> (r: Result<IpAddr, GoveeError>)
        ensures
            error::outcome(r) == local_ip_of(self@, id@),
    {
        let ip = match self.get_device_ip(id) {
            Ok(ip) => ip,
            Err(e) => return Err(e),
        };
        match validate_local_ip(ip) {
            Ok(()) => Ok(ip),
            Err(e) => Err(e),
        }
    }

    /// The datagram that asks all devices to answer. [`DiscoveryWait`] says how
    /// long to wait for the answers.
    pub fn discover(&self) -> (r: Datagram)
        ensures
            r@ == (DatagramView {
                ip: IpAddr::V4(Ipv4Addr { a: 239, b: 255, c: 255, d: 250 }),
                port: MULTICAST_PORT,
                bytes: vstd::utf8::encode_utf8(SCAN_MESSAGE@),
            }),
    {
        Datagram {
            ip: IpAddr::V4(multicast_addr()),
            port: MULTICAST_PORT,
            bytes: SCAN_MESSAGE.as_bytes_vec(),
        }
    }

    /// The datagram that carries a message to a discovered device.
    ///
    /// Validates that the device IP is a local address (private, link-local, or
    /// loopback).
    pub fn send_command(&self, id: &DeviceId, payload: &Json) -> (r: Result<Datagram, GoveeError>)
        ensures
            error::outcome(r) == datagram_to(self@, id@, payload@),
            r is Ok && json::is_plain(payload@, json::MAX_NESTING as nat) ==> json::json_document(
                r->Ok_0.bytes@,
            ) == Ok::<JsonView, Seq<char>>(payload@),
    {
        let ip = match self.local_ip(id) {
            Ok(ip) => ip,
            Err(e) => return Err(e),
        };
        match payload.to_bytes() {
            Ok(bytes) => Ok(Datagram { ip, port: COMMAND_PORT, bytes }),
            Err(e) => Err(e),
        }
    }

    /// The datagram that carries a command to a discovered device.
    pub fn command(&self, id: &DeviceId, command: Command) -> (r: Result<Datagram, GoveeError>)
        ensures
            error::outcome(r) == command_datagram(self@, id@, command),
            r is Ok ==> json::json_document(r->Ok_0.bytes@) == Ok::<JsonView, Seq<char>>(
                command_message(command),
            ),
    {
        match command.check() {
            Ok(()) => {},
            Err(e) => return Err(e),
        }
        let payload = command_payload(command);
        proof {
            reveal_with_fuel(json::is_plain, 5);
        }
        self.send_command(id, &payload)
    }

    /// Turn a device on or off.
    pub fn set_power(&self, id: &DeviceId, on: bool) -> (r: Result<Datagram, GoveeError>)
        ensures
            error::outcome(r) == command_datagram(self@, id@, Command::Power(on)),
    {
        self.command(id, Command::Power(on))
    }

    /// Set brightness (0-100).
    pub fn set_brightness(&self, id: &DeviceId, value: u8) -> (r: Result<Datagram, GoveeError>)
        ensures
            error::outcome(r) == command_datagram(self@, id@, Command::Brightness(value)),
    {
        self.command(id, Command::Brightness(value))
    }

    /// Set the device color via the LAN `colorwc` command. Setting the RGB color
    /// resets the color temperature to 0 (disabled).
    pub fn set_color(&self, id: &DeviceId, color: Color) -> (r: Result<Datagram, GoveeError>)
        ensures
            error::outcome(r) == command_datagram(self@, id@, Command::Color(color)),
    {
        self.command(id, Command::Color(color))
    }

    /// Set the device color temperature via the LAN `colorwc` command. Setting
    /// the color temperature resets the RGB color to (0, 0, 0) (disabled).
    pub fn set_color_temp(&self, id: &DeviceId, kelvin: u32) -> (r: Result<Datagram, GoveeError>)
        ensures
            error::outcome(r) == command_datagram(self@, id@, Command::ColorTemp(kelvin)),
    {
        self.command(id, Command::ColorTemp(kelvin))
    }
}

/// Reads a scan response. The UDP source IP is the address of the device, so
/// that a spoofed `ip` field cannot inject a wrong address.
pub fn handle_scan_response(data: &Json, source: IpAddr, now: u128) -> (r: Result<
    DiscoveredDevice,
    GoveeError,
>)
    ensures
        error::outcome(r) == scanned(data@, source, now),
{
    let mac = match data.get_str("device") {
        Some(mac) => mac,
        None => return Err(protocol_error("missing 'device' in scan")),
    };
    let sku = match data.get_str("sku") {
        Some(sku) => sku,
        None => return Err(protocol_error("missing 'sku' in scan")),
    };
    match DeviceId::new(mac) {
        Ok(device_id) => Ok(
            DiscoveredDevice { ip: source, device_id, sku: sku.to_string(), last_seen: now },
        ),
        Err(e) => Err(e),
    }
}

/// The position of an address.
fn position(list: &Vec<IpAddr>, ip: IpAddr) -> (r: Option<usize>)
    ensures
        match r {
            Some(i) => i < list@.len() && list@[i as int] == ip,
            None => !list@.contains(ip),
        },
{
    for i in 0..list.len()
        invariant
            forall|k: int| 0 <= k < i ==> list@[k] != ip,
    {
        if list[i] == ip {
            return Some(i);
        }
    }
    None
}

/// Taking one item out of a list without duplicates takes it out of the set.
proof fn removed_from_set(list: Seq<IpAddr>, i: int)
    requires
        list.no_duplicates(),
        0 <= i < list.len(),
    ensures
        list.remove(i).no_duplicates(),
        list.remove(i).to_set() == list.to_set().remove(list[i]),
{
    let r = list.remove(i);
    assert forall|ip: IpAddr| r.to_set().contains(ip) == list.to_set().remove(list[i]).contains(ip) by {
        if r.contains(ip) {
            let k = choose|k: int| 0 <= k < r.len() && r[k] == ip;
            if k < i {
                assert(list[k] == ip);
            } else {
                assert(list[k + 1] == ip);
            }
        }
        if list.contains(ip) && ip != list[i] {
            let k = choose|k: int| 0 <= k < list.len() && list[k] == ip;
            if k < i {
                assert(r[k] == ip);
            } else {
                assert(r[k - 1] == ip);
            }
        }
    }
    assert(r.to_set() =~= list.to_set().remove(list[i]));
}

impl LocalBackend {
    /// Ends the wait for an answer from an address, and says whether there was
    /// one.
    fn take_pending(&mut self, ip: IpAddr) -> (r: bool)
        ensures
            r == old(self)@.pending.contains(ip),
            final(self)@ == (LocalView { pending: old(self)@.pending.remove(ip), ..old(self)@ }),
    {
        proof {
            use_type_invariant(&*self);
        }
        match position(&self.pending, ip) {
            Some(i) => {
                let mut pending: Vec<IpAddr> = Vec::new();
                std::mem::swap(&mut pending, &mut self.pending);
                proof {
                    removed_from_set(pending@, i as int);
                    assert(pending@.to_set().contains(ip));
                }
                pending.remove(i);
                self.pending = pending;
                assert(self@ =~= (LocalView { pending: old(self)@.pending.remove(ip), ..old(self)@ }));
                true
            },
            None => {
                assert(self@ =~= (LocalView { pending: old(self)@.pending.remove(ip), ..old(self)@ }));
                false
            },
        }
    }

    /// Puts a device under its identifier.
    fn put_device(&mut self, device: DiscoveredDevice)
        ensures
            final(self)@ == (LocalView {
                devices: old(self)@.devices.insert(device@.device_id, device@),
                ..old(self)@
            }),
    {
        proof {
            use_type_invariant(&*self);
        }
        let mut devices: NameMap<DiscoveredDevice> = NameMap::new();
        assert(discovered(devices@) =~= Map::empty());
        let ghost before = self.devices@;
        std::mem::swap(&mut devices, &mut self.devices);
        let id = device.device_id.to_string();
        devices.insert(id, device);
        assert(discovered(devices@) =~= discovered(before).insert(id@, device@));
        self.devices = devices;
        assert(self@ =~= (LocalView {
            devices: old(self)@.devices.insert(device@.device_id, device@),
            ..old(self)@
        }));
    }

    /// Takes in a document from a Govee device.
    pub fn handle_message(&mut self, envelope: &Json, source: IpAddr, now: u128) -> (r: Result<
        Option<DeviceState>,
        GoveeError,
    >)
        ensures
            final(self)@ == after_packet(old(self)@, source, understood(envelope@, source, now)),
            answer_outcome(r) == answer(old(self)@, source, understood(envelope@, source, now)),
    {
        let msg = match envelope.get("msg") {
            Some(msg) => msg,
            None => return Err(protocol_error("missing 'msg' field")),
        };
        let cmd = match msg.get_str("cmd") {
            Some(cmd) => cmd,
            None => return Err(protocol_error("missing 'cmd' field")),
        };
        if same(cmd, "scan") {
            let data = match msg.get("data") {
                Some(data) => data,
                None => return Err(protocol_error("missing 'data' in scan")),
            };
            match handle_scan_response(data, source, now) {
                Ok(device) => {
                    self.put_device(device);
                    Ok(None)
                },
                Err(e) => Err(e),
            }
        } else if same(cmd, "devStatus") {
            let data = match msg.get("data") {
                Some(data) => data,
                None => return Err(protocol_error("missing 'data' in devStatus")),
            };
            match parse_dev_status(data) {
                Ok(state) => if self.take_pending(source) {
                    Ok(Some(state))
                } else {
                    Ok(None)
                },
                Err(e) => Err(e),
            }
        } else {
            Ok(None)
        }
    }

    /// Parse a single UDP packet from a Govee device and take it in.
    ///
    /// A scan response updates the device cache. A status response ends the wait
    /// of the query for the address that it came from: the state is handed back
    /// where there is such a query. Messages of other kinds are ignored.
    pub fn handle_packet(&mut self, data: &[u8], source: IpAddr, now: u128) -> (r: Result<
        Option<DeviceState>,
        GoveeError,
    >)
        ensures
            final(self)@ == after_packet(old(self)@, source, packet(data@, source, now)),
            answer_outcome(r) == answer(old(self)@, source, packet(data@, source, now)),
    {
        match Json::parse(data) {
            Ok(envelope) => self.handle_message(&envelope, source, now),
            Err(e) => Err(e),
        }
    }

    /// Begins to ask a device for its state: the datagram to send.
    ///
    /// Rejects the query if a concurrent query is already in progress for the
    /// address of the device.
    pub fn begin_query(&mut self, id: &DeviceId) -> (r: Result<Datagram, GoveeError>)
        ensures
            error::outcome(r) == query_datagram(old(self)@, id@),
            final(self)@ == during_query(old(self)@, id@),
    {
        proof {
            use_type_invariant(&*self);
        }
        let ip = match self.local_ip(id) {
            Ok(ip) => ip,
            Err(e) => return Err(e),
        };
        match position(&self.pending, ip) {
            Some(i) => {
                assert(self.pending@.contains(ip));
                return Err(
                    GoveeError::BackendUnavailable(
                        "concurrent state query already in progress for this device".to_string(),
                    ),
                );
            },
            None => {},
        }
        let ghost before = self.pending@;
        let mut pending: Vec<IpAddr> = Vec::new();
        std::mem::swap(&mut pending, &mut self.pending);
        pending.push(ip);
        proof {
            assert(pending@ == before.push(ip));
            assert forall|other: IpAddr| pending@.to_set().contains(other) == before.to_set().insert(
                ip,
            ).contains(other) by {
                if before.contains(other) {
                    let k = choose|k: int| 0 <= k < before.len() && before[k] == other;
                    assert(pending@[k] == other);
                }
                if other == ip {
                    assert(pending@[before.len() as int] == other);
                }
                if pending@.contains(other) {
                    let k = choose|k: int| 0 <= k < pending@.len() && pending@[k] == other;
                    if k < before.len() {
                        assert(before[k] == other);
                    }
                }
            }
            assert(pending@.to_set() =~= before.to_set().insert(ip));
        }
        self.pending = pending;
        assert(self@ =~= (LocalView { pending: old(self)@.pending.insert(ip), ..old(self)@ }));
        Ok(Datagram { ip, port: COMMAND_PORT, bytes: STATUS_MESSAGE.as_bytes_vec() })
    }

    /// Ends a query for the state of the device at `ip`. Unless the device has
    /// answered, the wait for its answer ends here.
    pub fn end_query(&mut self, ip: IpAddr, end: QueryEnd) -> (r: Result<DeviceState, GoveeError>)
        ensures
            error::outcome(r) == query_result(end),
            final(self)@ == after_query(old(self)@, ip, end),
    {
        match end {
            QueryEnd::Answered(state) => Ok(state),
            QueryEnd::SendFailed(message) => {
                self.take_pending(ip);
                Err(GoveeError::Udp(message))
            },
            QueryEnd::ReceiverStopped => {
                self.take_pending(ip);
                Err(GoveeError::BackendUnavailable("receiver task stopped".to_string()))
            },
            QueryEnd::TimedOut => {
                self.take_pending(ip);
                Err(GoveeError::DiscoveryTimeout)
            },
        }
    }

    /// Whether a scan is due before devices are listed: no device is known that
    /// was seen within the TTL.
    pub fn needs_discovery(&self, now: u128) -> (r: bool)
        ensures
            r == (forall|id: Seq<char>| #[trigger]
                self@.devices.contains_key(id) ==> is_expired(
                    self@.devices[id],
                    now,
                    self@.device_ttl,
                )),
    {
        self.devices.note_distinct();
        let n: usize = self.devices.len();
        for i in 0..n
            invariant
                n == self.devices.entries().len(),
                names::distinct_names(self.devices.entries()),
                forall|k: int|
                    0 <= k < i ==> is_expired(
                        #[trigger] self.devices.entries()[k].1@,
                        now,
                        self@.device_ttl,
                    ),
        {
            let (_, device) = self.devices.entry(i);
            if !device.expired(now, self.device_ttl) {
                proof {
                    names::by_name_at(self.devices.entries(), i as int);
                    let id = self.devices.entries()[i as int].0@;
                    assert(self@.devices.contains_key(id));
                    assert(!is_expired(self@.devices[id], now, self@.device_ttl));
                }
                return false;
            }
        }
        proof {
            assert forall|id: Seq<char>| #[trigger] self@.devices.contains_key(id) implies is_expired(
                self@.devices[id],
                now,
                self@.device_ttl,
            ) by {
                let k = names::place(self.devices.entries(), id);
                assert(names::has_name(self.devices.entries(), id));
                assert(is_expired(self.devices.entries()[k].1@, now, self@.device_ttl));
            }
        }
        true
    }

    /// List all devices that were seen within the TTL, and forget the others.
    pub fn list_devices(&mut self, now: u128) -> (r: Vec<Device>)
        ensures
            final(self)@ == (LocalView {
                devices: unexpired(old(self)@.devices, now, old(self)@.device_ttl),
                ..old(self)@
            }),
            is_device_list(
                unexpired(old(self)@.devices, now, old(self)@.device_ttl),
                types::device_views(r@),
            ),
    {
        proof {
            use_type_invariant(&*self);
        }
        self.devices.note_distinct();
        let ghost entries = self.devices.entries();
        let ghost all = self@.devices;
        let ghost ttl = self@.device_ttl;
        let mut kept: NameMap<DiscoveredDevice> = NameMap::new();
        let mut r: Vec<Device> = Vec::new();
        let n: usize = self.devices.len();
        let mut i: usize = 0;
        while i < n
            invariant
                i <= n,
                n == entries.len(),
                entries == self.devices.entries(),
                names::distinct_names(entries),
                ttl == self.device_ttl,
                all == discovered(self.devices@),
                well_placed(all),
                self@ == old(self)@,
                forall|id: Seq<char>| #[trigger]
                    kept@.contains_key(id) ==> all.contains_key(id) && kept@[id]@ == all[id] && !is_expired(
                        all[id],
                        now,
                        ttl,
                    ) && names::place(entries, id) < i,
                forall|k: int|
                    0 <= k < i && !is_expired((#[trigger] entries[k]).1@, now, ttl) ==> kept@.contains_key(
                        entries[k].0@,
                    ),
                forall|k: int|
                    0 <= k < i && !is_expired((#[trigger] entries[k]).1@, now, ttl)
                        ==> types::device_views(r@).contains(lan_device(entries[k].1@)),
                forall|k: int|
                    0 <= k < r@.len() ==> kept@.contains_key((#[trigger] r@[k])@.id) && r@[k]@
                        == lan_device(all[r@[k]@.id]),
                forall|j: int, k: int| 0 <= j < k < r@.len() ==> (#[trigger] r@[j])@.id != (#[trigger] r@[k])@.id,
            decreases n - i,
        {
            let (name, device) = self.devices.entry(i);
            proof {
                names::by_name_at(entries, i as int);
                assert(all.contains_key(entries[i as int].0@));
                assert(all[entries[i as int].0@] == entries[i as int].1@);
            }
            if !device.expired(now, self.device_ttl) {
                let ghost before = kept@;
                let ghost before_r = r@;
                let copy = device.clone();
                let id = name.to_string();
                assert(!before.contains_key(id@));
                kept.insert(id, copy);
                let listed = device.to_device();
                r.push(listed);
                proof {
                    assert(listed@ == lan_device(all[id@]));
                    assert(listed@.id == id@);
                    assert(types::device_views(r@)[before_r.len() as int] == listed@);
                    assert forall|k: int|
                        0 <= k < i + 1 && !is_expired((#[trigger] entries[k]).1@, now, ttl) implies types::device_views(
                        r@,
                    ).contains(lan_device(entries[k].1@)) by {
                        if k < i {
                            let j = choose|j: int|
                                0 <= j < types::device_views(before_r).len() && types::device_views(
                                    before_r,
                                )[j] == lan_device(entries[k].1@);
                            assert(types::device_views(r@)[j] == lan_device(entries[k].1@));
                        }
                    }
                }
            }
            i = i + 1;
        }
        proof {
            let expected = unexpired(all, now, ttl);
            assert forall|id: Seq<char>| #[trigger] expected.contains_key(id) implies kept@.contains_key(
                id,
            ) && types::device_views(r@).contains(lan_device(expected[id])) by {
                let k = names::place(entries, id);
                assert(names::has_name(entries, id));
                assert(entries[k].0@ == id);
                names::by_name_at(entries, k);
            }
            assert(discovered(kept@) =~= expected);
            let list = types::device_views(r@);
            assert forall|k: int, j: int| 0 <= k < j < list.len() implies #[trigger] list[k].id
                != #[trigger] list[j].id by {
                assert(r@[k]@.id != r@[j]@.id);
            }
            assert forall|k: int| 0 <= k < list.len() implies expected.contains_key(#[trigger] list[k].id)
                && list[k] == lan_device(expected[list[k].id]) by {
                assert(kept@.contains_key(r@[k]@.id));
            }
        }
        self.devices = kept;
        assert(self@ =~= (LocalView {
            devices: unexpired(old(self)@.devices, now, old(self)@.device_ttl),
            ..old(self)@
        }));
        r
    }

    /// The backend as debug text.
    pub fn debug_text(&self) -> (r: String)
        ensures
            r@ == "LocalBackend { devices: "@ + text::decimal(self@.devices.dom().len())
                + ", listen_port: 4002 }"@,
    {
        joined("LocalBackend { devices: ", decimal_text(self.device_count() as u64).as_str()).concat(
            ", listen_port: 4002 }",
        )
    }
}

impl GoveeBackend for LocalBackend {
    fn backend_type(&self) -> (r: BackendType)
        ensures
            r == BackendType::Local,
    {
        BackendType::Local
    }
}

/// The wait for the answers to a scan. It ends when no new device has answered
/// for a while, and at the deadline in any case.
#[derive(Debug)]
pub struct DiscoveryWait {
    pub deadline: u128,
    pub last_count: usize,
}

/// How long to sleep at `now`: the time left, but no more than the idle time;
/// nothing once the deadline is reached.
pub open spec fn sleep_until(deadline: u128, now: u128) -> Option<int> {
    if now >= deadline {
        None
    } else if deadline - now <= IDLE_TIMEOUT_NANOS {
        Some(deadline - now)
    } else {
        Some(IDLE_TIMEOUT_NANOS as int)
    }
}

impl DiscoveryWait {
    /// Begins to wait at `now`, when `count` devices are known.
    pub fn begin(now: u128, timeout: u128, count: usize) -> (r: DiscoveryWait)
        requires
            now + timeout <= u128::MAX,
        ensures
            r.deadline == now + timeout,
            r.last_count == count,
    {
        DiscoveryWait { deadline: now + timeout, last_count: count }
    }

    /// How long to sleep next; nothing if the deadline is reached.
    pub fn next_sleep(&self, now: u128) -> (r: Option<u128>)
        ensures
            match r {
                None => sleep_until(self.deadline, now) is None,
                Some(sleep) => sleep_until(self.deadline, now) == Some(sleep as int),
            },
    {
        if now >= self.deadline {
            return None;
        }
        let remaining: u128 = self.deadline - now;
        Some(
            if remaining <= IDLE_TIMEOUT_NANOS {
                remaining
            } else {
                IDLE_TIMEOUT_NANOS
            },
        )
    }

    /// Whether to go on waiting after a sleep: only if a device was added in the
    /// meantime.
    pub fn go_on(&mut self, count: usize) -> (r: bool)
        ensures
            r == (count > old(self).last_count),
            final(self).deadline == old(self).deadline,
            final(self).last_count == (if r {
                count
            } else {
                old(self).last_count
            }),
    {
        if count > self.last_count {
            self.last_count = count;
            true
        } else {
            false
        }
    }
}

/// Both backends refuse the same commands with the same errors, and neither
/// sends anything for them.
pub proof fn backends_refuse_alike(
    cloud: backend::cloud::CloudView,
    local: LocalView,
    id: Seq<char>,
    command: Command,
    request_id: Seq<char>,
)
    requires
        backend::refusal(command) is Some,
    ensures
        command_datagram(local, id, command) == Err::<DatagramView, ErrorView>(
            backend::refusal(command)->Some_0,
        ),
        backend::cloud::first_step(cloud, id, command, request_id)
            == backend::cloud::ControlStepView::Finished(Err(backend::refusal(command)->Some_0)),
{
}

/// A device is always taken to be at the address that its scan response came
/// from, whatever the response says.
pub proof fn scan_uses_source_address(local: LocalView, bytes: Seq<u8>, source: IpAddr, now: u128)
    ensures
        packet(bytes, source, now) matches Ok(Received::Scan(device)) ==> {
            let after = after_packet(local, source, packet(bytes, source, now));
            &&& device.ip == source
            &&& ip_of(after, device.device_id) == Ok::<IpAddr, ErrorView>(source)
            &&& after.devices[device.device_id].last_seen == now
        },
{
}

/// Datagrams go only to local addresses, and only to the command port.
pub proof fn datagrams_stay_local(local: LocalView, id: Seq<char>, payload: JsonView)
    ensures
        datagram_to(local, id, payload) matches Ok(d) ==> net::is_local(d.ip) && d.port == 4003,
        query_datagram(local, id) matches Ok(d) ==> net::is_local(d.ip) && d.port == 4003,
{
}

/// While a query waits for an address, no other can begin for it; once the
/// device has answered, or the query has ended, another can.
pub proof fn one_query_at_a_time(
    local: LocalView,
    id: Seq<char>,
    received: Result<Received, ErrorView>,
)
    requires
        query_datagram(local, id) is Ok,
    ensures
        ({
            let ip = query_datagram(local, id)->Ok_0.ip;
            let waiting = LocalView { pending: local.pending.insert(ip), ..local };
            let ended = LocalView { pending: waiting.pending.remove(ip), ..waiting };
            &&& query_datagram(waiting, id) is Err
            &&& query_datagram(ended, id) == query_datagram(local, id)
            &&& received matches Ok(Received::Status(state)) ==> after_packet(waiting, ip, received) == ended
                && answer(waiting, ip, received) == Ok::<Option<DeviceStateView>, ErrorView>(Some(state))
        }),
{
}

/// A query that is not answered in time ends in a discovery timeout and leaves
/// nothing behind: the next query for the device sends its own request.
pub proof fn timed_out_query_is_withdrawn(local: LocalView, id: Seq<char>)
    requires
        query_datagram(local, id) is Ok,
    ensures
        query_result(QueryEnd::TimedOut) == Err::<DeviceStateView, ErrorView>(ErrorView::DiscoveryTimeout),
        ({
            let ip = query_datagram(local, id)->Ok_0.ip;
            let after = after_query(during_query(local, id), ip, QueryEnd::TimedOut);
            &&& query_datagram(during_query(local, id), id) is Err
            &&& after == local
            &&& query_datagram(after, id) == query_datagram(local, id)
        }),
{
    let ip = query_datagram(local, id)->Ok_0.ip;
    let after = after_query(during_query(local, id), ip, QueryEnd::TimedOut);
    assert(after.pending =~= local.pending);
}

/// A status that nobody asked for changes nothing and answers nothing.
pub proof fn unasked_status_is_ignored(local: LocalView, source: IpAddr, state: DeviceStateView)
    requires
        !local.pending.contains(source),
    ensures
        after_packet(local, source, Ok(Received::Status(state))) == local,
        answer(local, source, Ok(Received::Status(state))) == Ok::<Option<DeviceStateView>, ErrorView>(None),
{
    assert(after_packet(local, source, Ok(Received::Status(state))) =~= local);
}

/// A datagram that does not follow the protocol changes nothing.
pub proof fn bad_packets_change_nothing(local: LocalView, bytes: Seq<u8>, source: IpAddr, now: u128)
    requires
        packet(bytes, source, now) is Err,
    ensures
        after_packet(local, source, packet(bytes, source, now)) == local,
{
}

/// A device that was seen just now is listed, and no scan is due on account of
/// it.
pub proof fn seen_devices_are_listed(local: LocalView, source: IpAddr, device: DiscoveredView, now: u128)
    requires
        device.last_seen == now,
    ensures
        ({
            let after = after_packet(local, source, Ok(Received::Scan(device)));
            &&& unexpired(after.devices, now, after.device_ttl).contains_key(device.device_id)
            &&& after.devices.contains_key(device.device_id)
            &&& !is_expired(after.devices[device.device_id], now, after.device_ttl)
        }),
{
}

/// No sleep of a scan is longer than the idle time or goes past the deadline.
pub proof fn scan_ends_in_time(deadline: u128, now: u128)
    ensures
        sleep_until(deadline, now) matches Some(sleep) ==> 0 < sleep <= IDLE_TIMEOUT_NANOS && now + sleep
            <= deadline,
{
}

} // verus!
