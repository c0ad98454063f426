//! What happens on the local network.
use vstd::prelude::*;

use crate::backend::local;
use crate::backend::local::DatagramView;
use crate::backend::local::DiscoveredView;
use crate::backend::local::LocalView;
use crate::backend::local::QueryEnd;
use crate::backend::local::Received;
use crate::backend::local::RemarkView;
use crate::backend::state;
use crate::error::ErrorView;
use crate::json;
use crate::json::JsonView;
use crate::laws::commands;
use crate::net::IpAddr;
use crate::types;
use crate::types::BackendType;
use crate::types::DeviceStateView;
use crate::types::DeviceView;

verus! {

/// A message that carries data, as devices send it.
pub open spec fn carries(envelope: JsonView, cmd: Seq<char>, data: JsonView) -> bool {
    &&& envelope.get("msg"@) matches Some(msg)
    &&& msg.get("cmd"@) == Some(JsonView::Text(cmd))
    &&& msg.get("data"@) == Some(data)
}

proof fn commands_differ()
    ensures
        "scan"@ != "devStatus"@,
{
    reveal_strlit("scan");
    reveal_strlit("devStatus");
    assert("scan"@.len() == 4 && "devStatus"@.len() == 9);
}

/// A device that answers a scan is known from then on under its identifier, with
/// the model that it states, at the address that the answer came from, whatever
/// address it states itself. Nothing else changes, and no query is answered.
pub proof fn scanned_devices_are_known(
    local: LocalView,
    bytes: Seq<u8>,
    envelope: JsonView,
    data: JsonView,
    mac: Seq<char>,
    sku: Seq<char>,
    id: Seq<char>,
    source: IpAddr,
    now: u128,
)
    requires
        json::json_document(bytes) == Ok::<JsonView, Seq<char>>(envelope),
        carries(envelope, "scan"@, data),
        data.get("device"@) == Some(JsonView::Text(mac)),
        data.get("sku"@) == Some(JsonView::Text(sku)),
        types::device_id(mac) == Ok::<Seq<char>, ErrorView>(id),
    ensures
        ({
            let received = local::packet(bytes, source, now);
            let after = local::after_packet(local, source, received);
            &&& after.devices.contains_key(id)
            &&& after.devices[id].ip == source
            &&& after.devices[id].device_id == id
            &&& after.devices[id].sku == sku
            &&& after.devices[id].last_seen == now
            &&& forall|other: Seq<char>|
                other != id ==> (#[trigger] after.devices.contains_key(other) == local.devices.contains_key(
                    other,
                )) && after.devices[other] == local.devices[other]
            &&& after.pending == local.pending
            &&& after.discovery_timeout == local.discovery_timeout
            &&& after.device_ttl == local.device_ttl
            &&& local::answer(local, source, received) == Ok::<Option<DeviceStateView>, ErrorView>(None)
        }),
{
}

/// A status answers the query that waits for the address it came from, with the
/// state that its data describes, and the query waits no longer. Where none waits,
/// it answers nothing. The devices stay as they are.
pub proof fn status_answers_the_query(
    local: LocalView,
    bytes: Seq<u8>,
    envelope: JsonView,
    data: JsonView,
    source: IpAddr,
    now: u128,
)
    requires
        json::json_document(bytes) == Ok::<JsonView, Seq<char>>(envelope),
        carries(envelope, "devStatus"@, data),
    ensures
        ({
            let received = local::packet(bytes, source, now);
            let after = local::after_packet(local, source, received);
            &&& local::answer(local, source, received) == Ok::<Option<DeviceStateView>, ErrorView>(
                if local.pending.contains(source) {
                    Some(state::described_by_status(data))
                } else {
                    None
                },
            )
            &&& !after.pending.contains(source)
            &&& forall|ip: IpAddr|
                ip != source ==> #[trigger] after.pending.contains(ip) == local.pending.contains(ip)
            &&& after.devices == local.devices
            &&& after.discovery_timeout == local.discovery_timeout
            &&& after.device_ttl == local.device_ttl
        }),
{
    commands_differ();
}

/// A message with any other command is noted and passed over.
pub proof fn other_commands_change_nothing(
    local: LocalView,
    envelope: JsonView,
    msg: JsonView,
    cmd: Seq<char>,
    source: IpAddr,
    now: u128,
)
    requires
        envelope.get("msg"@) == Some(msg),
        msg.get("cmd"@) == Some(JsonView::Text(cmd)),
        cmd != "scan"@,
        cmd != "devStatus"@,
    ensures
        ({
            let received = local::understood(envelope, source, now);
            &&& local::after_packet(local, source, received) == local
            &&& local::answer(local, source, received) == Ok::<Option<DeviceStateView>, ErrorView>(None)
            &&& local::noted(envelope) == Some(RemarkView::UnknownCommand(cmd))
        }),
{
}

/// The address that a device states is noted, and nothing of a status is.
pub proof fn stated_addresses_are_noted(
    envelope: JsonView,
    data: JsonView,
    mac: Seq<char>,
    sku: Seq<char>,
    ip: Seq<char>,
)
    ensures
        carries(envelope, "devStatus"@, data) ==> local::noted(envelope) is None,
        carries(envelope, "scan"@, data) && data.get("device"@) == Some(JsonView::Text(mac)) && data.get("sku"@)
            == Some(JsonView::Text(sku)) && data.get("ip"@) == Some(JsonView::Text(ip)) ==> local::noted(
            envelope,
        ) == Some(RemarkView::StatedAddress(ip)),
        carries(envelope, "scan"@, data) && data.get("ip"@) is None ==> local::noted(envelope) is None,
{
    commands_differ();
}

/// What is missing from a message is named in the error.
pub proof fn what_is_missing_is_named(
    envelope: JsonView,
    msg: JsonView,
    data: JsonView,
    mac: Seq<char>,
    sku: Seq<char>,
    source: IpAddr,
    now: u128,
    message: Seq<char>,
    bytes: Seq<u8>,
)
    ensures
        ({
            let r = local::understood(envelope, source, now);
            let fails = |t: Seq<char>| r == Err::<Received, ErrorView>(ErrorView::Protocol(t));
            &&& envelope.get("msg"@) is None ==> fails("missing 'msg' field"@)
            &&& envelope.get("msg"@) == Some(msg) ==> {
                &&& !(msg.get("cmd"@) matches Some(JsonView::Text(_))) ==> fails("missing 'cmd' field"@)
                &&& msg.get("cmd"@) == Some(JsonView::Text("scan"@)) && msg.get("data"@) is None ==> fails(
                    "missing 'data' in scan"@,
                )
                &&& msg.get("cmd"@) == Some(JsonView::Text("devStatus"@)) && msg.get("data"@) is None ==> fails(
                    "missing 'data' in devStatus"@,
                )
            }
            &&& carries(envelope, "scan"@, data) ==> {
                &&& !(data.get("device"@) matches Some(JsonView::Text(_))) ==> fails(
                    "missing 'device' in scan"@,
                )
                &&& data.get("device"@) == Some(JsonView::Text(mac)) ==> {
                    &&& !(data.get("sku"@) matches Some(JsonView::Text(_))) ==> fails(
                        "missing 'sku' in scan"@,
                    )
                    &&& data.get("sku"@) == Some(JsonView::Text(sku)) && types::device_id(mac) is Err ==> r
                        == Err::<Received, ErrorView>(ErrorView::InvalidDeviceId(mac))
                }
            }
        }),
        json::json_document(bytes) == Err::<JsonView, Seq<char>>(message) ==> local::packet(bytes, source, now)
            == Err::<Received, ErrorView>(ErrorView::Serialization(message)),
{
    commands_differ();
}

/// A device is forgotten once it has not been seen for longer than the time that
/// devices are kept, and not before.
pub proof fn devices_are_kept_for_a_time(
    devices: Map<Seq<char>, DiscoveredView>,
    id: Seq<char>,
    now: u128,
    ttl: u128,
)
    ensures
        local::unexpired(devices, now, ttl).contains_key(id) <==> devices.contains_key(id) && now
            <= devices[id].last_seen + ttl,
        local::unexpired(devices, now, ttl).contains_key(id) ==> local::unexpired(devices, now, ttl)[id]
            == devices[id],
        local::is_expired(devices[id], now, ttl) <==> now > devices[id].last_seen + ttl,
{
}

/// A list of known devices names each of them once, as a local device under its
/// identifier, with its model as the model and as the name.
pub proof fn known_devices_are_listed(
    devices: Map<Seq<char>, DiscoveredView>,
    list: Seq<DeviceView>,
    id: Seq<char>,
    i: int,
    j: int,
)
    requires
        local::is_device_list(devices, list),
        local::well_placed(devices),
    ensures
        devices.contains_key(id) ==> list.contains(
            DeviceView {
                id,
                model: devices[id].sku,
                name: devices[id].sku,
                alias: None,
                backend: BackendType::Local,
            },
        ),
        0 <= i < list.len() ==> {
            &&& devices.contains_key(list[i].id)
            &&& list[i].model == devices[list[i].id].sku
            &&& list[i].name == devices[list[i].id].sku
            &&& list[i].alias is None
            &&& list[i].backend == BackendType::Local
        },
        0 <= i < j < list.len() ==> list[i].id != list[j].id,
{
}

/// The state of a device is asked for on the command port of its address, unless
/// the device is not known, its address is not local, or an answer from there is
/// still waited for. Only then is the address waited for.
pub proof fn state_is_asked_for(local: LocalView, id: Seq<char>)
    ensures
        ({
            let ip = local.devices[id].ip;
            let r = local::query_datagram(local, id);
            let after = local::during_query(local, id);
            if !local.devices.contains_key(id) {
                r == Err::<DatagramView, ErrorView>(ErrorView::DeviceNotFound(id)) && after == local
            } else if !commands::is_local_address(ip) {
                r == Err::<DatagramView, ErrorView>(
                    ErrorView::InvalidConfig("device IP is not a local address"@),
                ) && after == local
            } else if local.pending.contains(ip) {
                r == Err::<DatagramView, ErrorView>(
                    ErrorView::BackendUnavailable(
                        "concurrent state query already in progress for this device"@,
                    ),
                ) && after == local
            } else {
                &&& r == Ok::<DatagramView, ErrorView>(
                    DatagramView {
                        ip,
                        port: 4003,
                        bytes: vstd::utf8::encode_utf8("{\"msg\":{\"cmd\":\"devStatus\",\"data\":{}}}"@),
                    },
                )
                &&& forall|other: IpAddr| #[trigger]
                    after.pending.contains(other) <==> other == ip || local.pending.contains(other)
                &&& after.devices == local.devices
                &&& after.discovery_timeout == local.discovery_timeout
                &&& after.device_ttl == local.device_ttl
            }
        }),
{
}

/// A query that was answered gives the state; any other end gives an error, and
/// the address is waited for no longer.
pub proof fn queries_end(local: LocalView, ip: IpAddr, end: QueryEnd, other: IpAddr)
    ensures
        local::query_result(end) == (match end {
            QueryEnd::Answered(state) => Ok::<DeviceStateView, ErrorView>(state@),
            QueryEnd::SendFailed(message) => Err(ErrorView::Udp(message@)),
            QueryEnd::ReceiverStopped => Err(ErrorView::BackendUnavailable("receiver task stopped"@)),
            QueryEnd::TimedOut => Err(ErrorView::DiscoveryTimeout),
        }),
        ({
            let after = local::after_query(local, ip, end);
            &&& end is Answered ==> after == local
            &&& !(end is Answered) ==> after.pending.contains(other) == (other != ip && local.pending.contains(
                other,
            ))
            &&& after.devices == local.devices
            &&& after.discovery_timeout == local.discovery_timeout
            &&& after.device_ttl == local.device_ttl
        }),
{
}

/// A scan waits in steps of at most a fifth of a second, and never beyond its
/// end; it is over exactly when the end is reached.
pub proof fn scans_wait_in_steps(deadline: u128, now: u128)
    ensures
        now >= deadline <==> local::sleep_until(deadline, now) is None,
        now < deadline <= now + 200_000_000 ==> local::sleep_until(deadline, now) == Some(deadline - now),
        now + 200_000_000 < deadline ==> local::sleep_until(deadline, now) == Some(200_000_000int),
{
}

/// The ports and the words of the protocol.
pub proof fn protocol_of_the_lan()
    ensures
        local::LISTEN_PORT == 4002,
        local::MULTICAST_PORT == 4001,
        local::COMMAND_PORT == 4003,
        local::NANOS_PER_SEC == 1_000_000_000,
        local::SCAN_MESSAGE@ == "{\"msg\":{\"cmd\":\"scan\",\"data\":{\"account_topic\":\"reserve\"}}}"@,
{
}

/// An address is noted only of a device that states its identifier and its model
/// too.
pub proof fn incomplete_scans_are_not_noted(envelope: JsonView, data: JsonView)
    requires
        carries(envelope, "scan"@, data),
        !(data.get("device"@) matches Some(JsonView::Text(_))) || !(data.get("sku"@) matches Some(
            JsonView::Text(_),
        )),
    ensures
        local::noted(envelope) is None,
{
}

} // verus!
