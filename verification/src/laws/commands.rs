//! What is sent for a command, and what comes of it.
use vstd::prelude::*;

use crate::backend::cloud;
use crate::backend::cloud::CloudView;
use crate::backend::cloud::ControlStepView;
use crate::backend::cloud::Method;
use crate::backend::cloud::RequestView;
use crate::backend::local;
use crate::backend::local::DatagramView;
use crate::backend::local::LocalView;
use crate::backend::reply::BodyView;
use crate::backend::reply::ReplyView;
use crate::backend::url;
use crate::backend::Command;
use crate::capability::CapabilityValue;
use crate::capability::DynamicSceneValue;
use crate::error::ErrorView;
use crate::json;
use crate::json::JsonView;
use crate::net::IpAddr;
use crate::text;
use crate::types::Color;

verus! {

/// Whether a command says something that a device can do.
pub open spec fn is_possible(command: Command) -> bool {
    match command {
        Command::Power(_) => true,
        Command::Brightness(value) => value <= 100,
        Command::Color(_) => true,
        Command::ColorTemp(kelvin) => 1 <= kelvin <= 10000,
    }
}

/// For a known device, the first request of a command asks the v2 API to set the
/// capability that the command is for to the value that it gives: on is 1 and off
/// is 0, and a color is one number with red above green above blue.
pub proof fn command_asks_for_its_capability(
    cloud: CloudView,
    id: Seq<char>,
    command: Command,
    request_id: Seq<char>,
    url: Seq<char>,
)
    requires
        is_possible(command),
        cloud.models.contains_key(id),
        url::url_joined(cloud.new_base.text, "/router/api/v1/device/control"@) == Ok::<
            Seq<char>,
            Seq<char>,
        >(url),
    ensures
        ({
            let type_ = match command {
                Command::Power(_) => "devices.capabilities.on_off"@,
                Command::Brightness(_) => "devices.capabilities.range"@,
                Command::Color(_) => "devices.capabilities.color_setting"@,
                Command::ColorTemp(_) => "devices.capabilities.color_setting"@,
            };
            let instance = match command {
                Command::Power(_) => "powerSwitch"@,
                Command::Brightness(_) => "brightness"@,
                Command::Color(_) => "colorRgb"@,
                Command::ColorTemp(_) => "colorTemperatureK"@,
            };
            let value: int = match command {
                Command::Power(on) => if on {
                    1
                } else {
                    0
                },
                Command::Brightness(value) => value as int,
                Command::Color(c) => c.r * 65536 + c.g * 256 + c.b,
                Command::ColorTemp(kelvin) => kelvin as int,
            };
            cloud::first_step(cloud, id, command, request_id) == ControlStepView::SendV2(
                RequestView {
                    method: Method::Post,
                    url,
                    api_key: cloud.api_key,
                    body: Some(
                        json::json_bytes(
                            JsonView::Object(
                                map![
                                    "requestId"@ => JsonView::Text(request_id),
                                    "payload"@ => JsonView::Object(map![
                                        "sku"@ => JsonView::Text(cloud.models[id]),
                                        "device"@ => JsonView::Text(id),
                                        "capability"@ => JsonView::Object(map![
                                            "type"@ => JsonView::Text(type_),
                                            "instance"@ => JsonView::Text(instance),
                                            "value"@ => JsonView::Unsigned(value as u64),
                                        ]),
                                    ]),
                                ],
                            ),
                        ),
                    ),
                },
            )
        }),
{
    match command {
        Command::Color(c) => {
            let n: int = c.r * 65536 + c.g * 256 + c.b;
            assert(0 <= n < 0x100_0000);
            assert((n as u32) as u64 == n as u64);
        },
        _ => {},
    }
}

/// Commands of different kinds go to different instances.
pub proof fn kinds_go_to_different_instances(a: Command, b: Command)
    requires
        cloud::capability_for(cloud::v2_value(a)) is Ok,
        cloud::capability_for(cloud::v2_value(b)) is Ok,
        cloud::capability_for(cloud::v2_value(a))->Ok_0.1 == cloud::capability_for(cloud::v2_value(b))->Ok_0.1,
    ensures
        a is Power == b is Power,
        a is Brightness == b is Brightness,
        a is Color == b is Color,
        a is ColorTemp == b is ColorTemp,
{
    reveal_strlit("powerSwitch");
    reveal_strlit("brightness");
    reveal_strlit("colorRgb");
    reveal_strlit("colorTemperatureK");
    assert("powerSwitch"@.len() == 11);
    assert("brightness"@.len() == 10);
    assert("colorRgb"@.len() == 8);
    assert("colorTemperatureK"@.len() == 17);
}

/// Two commands of one kind that are sent alike say the same.
pub proof fn different_commands_are_sent_differently(a: Command, b: Command)
    requires
        is_possible(a),
        is_possible(b),
        cloud::capability_for(cloud::v2_value(a)) == cloud::capability_for(cloud::v2_value(b)),
    ensures
        a == b,
{
    kinds_go_to_different_instances(a, b);
    match (a, b) {
        (Command::Color(x), Command::Color(y)) => {
            assert(x.r * 65536 + x.g * 256 + x.b == y.r * 65536 + y.g * 256 + y.b);
        },
        _ => {},
    }
}

/// What no device can do is refused before anything is sent, in the cloud as on
/// the local network, and whether or not the device is known.
pub proof fn impossible_commands_are_refused(
    cloud: CloudView,
    local: LocalView,
    id: Seq<char>,
    command: Command,
    request_id: Seq<char>,
)
    requires
        !is_possible(command),
    ensures
        ({
            let e = match command {
                Command::Brightness(value) => ErrorView::InvalidBrightness(value),
                _ => ErrorView::InvalidConfig("color temperature must be 1-10000K"@),
            };
            &&& cloud::first_step(cloud, id, command, request_id) == ControlStepView::Finished(Err(e))
            &&& local::command_datagram(local, id, command) == Err::<DatagramView, ErrorView>(e)
        }),
{
}

/// A possible command for a device that no list named fails, and the error says
/// which device it is.
pub proof fn unknown_devices_are_not_found(
    cloud: CloudView,
    id: Seq<char>,
    command: Command,
    request_id: Seq<char>,
)
    requires
        is_possible(command),
        !cloud.models.contains_key(id),
    ensures
        cloud::first_step(cloud, id, command, request_id) == ControlStepView::Finished(
            Err(
                ErrorView::DeviceNotFound(
                    id + " (call list_devices first to populate the device cache)"@,
                ),
            ),
        ),
{
}

/// A command that the v2 API has taken is done. One that it does not know the
/// device of goes to the legacy API, with the name and the value that the command
/// has there. Any other error ends it.
pub proof fn v2_outcomes_of_a_command(
    cloud: CloudView,
    id: Seq<char>,
    command: Command,
    e: ErrorView,
    url: Seq<char>,
)
    requires
        cloud.models.contains_key(id),
        url::url_joined(cloud.base.text, "v1/devices/control"@) == Ok::<Seq<char>, Seq<char>>(url),
    ensures
        cloud::next_after_v2(cloud, id, command, Ok(())) == ControlStepView::Finished(Ok(())),
        ({
            let name = match command {
                Command::Power(_) => "turn"@,
                Command::Brightness(_) => "brightness"@,
                Command::Color(_) => "color"@,
                Command::ColorTemp(_) => "colorTem"@,
            };
            let value = match command {
                Command::Power(true) => JsonView::Text("on"@),
                Command::Power(false) => JsonView::Text("off"@),
                Command::Brightness(value) => JsonView::Unsigned(value as u64),
                Command::Color(c) => JsonView::Object(
                    map![
                        "r"@ => JsonView::Unsigned(c.r as u64),
                        "g"@ => JsonView::Unsigned(c.g as u64),
                        "b"@ => JsonView::Unsigned(c.b as u64),
                    ],
                ),
                Command::ColorTemp(kelvin) => JsonView::Unsigned(kelvin as u64),
            };
            let unknown = match e {
                ErrorView::DeviceNotFound(_) => true,
                ErrorView::Api { code, .. } => code == 404,
                _ => false,
            };
            cloud::next_after_v2(cloud, id, command, Err(e)) == (if unknown {
                ControlStepView::SendLegacy(
                    RequestView {
                        method: Method::Put,
                        url,
                        api_key: cloud.api_key,
                        body: Some(
                            json::json_bytes(
                                JsonView::Object(
                                    map![
                                        "device"@ => JsonView::Text(id),
                                        "model"@ => JsonView::Text(cloud.models[id]),
                                        "cmd"@ => JsonView::Object(map![
                                            "name"@ => JsonView::Text(name),
                                            "value"@ => value,
                                        ]),
                                    ],
                                ),
                            ),
                        ),
                    },
                )
            } else {
                ControlStepView::Finished(Err(e))
            })
        }),
{
}

/// Where the URL cannot be built, the command fails with the reason, and nothing
/// is sent.
pub proof fn no_request_without_a_url(
    cloud: CloudView,
    id: Seq<char>,
    command: Command,
    request_id: Seq<char>,
    message: Seq<char>,
)
    requires
        is_possible(command),
        cloud.models.contains_key(id),
        url::url_joined(cloud.new_base.text, "/router/api/v1/device/control"@) == Err::<
            Seq<char>,
            Seq<char>,
        >(message),
    ensures
        cloud::first_step(cloud, id, command, request_id) == ControlStepView::Finished(
            Err(
                ErrorView::InvalidConfig(
                    "invalid new API path '"@ + "/router/api/v1/device/control"@ + "': "@ + message,
                ),
            ),
        ),
{
}

/// What the v2 API is asked for with the values that are no plain commands: a
/// preset scene by its two numbers, a DIY scene by its one, and a work mode by its
/// number and, where there is one, its value.
pub proof fn other_values_ask_for_their_capabilities(
    param_id: u32,
    scene_id: u32,
    work_mode: u32,
    mode_value: u32,
)
    ensures
        cloud::capability_for(
            CapabilityValue::DynamicScene(DynamicSceneValue::Preset { param_id, id: scene_id }),
        ) == Ok::<(Seq<char>, Seq<char>, JsonView), ErrorView>(
            (
                "devices.capabilities.dynamic_scene"@,
                "lightScene"@,
                JsonView::Object(
                    map![
                        "paramId"@ => JsonView::Unsigned(param_id as u64),
                        "id"@ => JsonView::Unsigned(scene_id as u64),
                    ],
                ),
            ),
        ),
        cloud::capability_for(CapabilityValue::DynamicScene(DynamicSceneValue::Diy(scene_id))) == Ok::<
            (Seq<char>, Seq<char>, JsonView),
            ErrorView,
        >(
            (
                "devices.capabilities.dynamic_scene"@,
                "lightScene"@,
                JsonView::Unsigned(scene_id as u64),
            ),
        ),
        cloud::capability_for(CapabilityValue::DiyScene(scene_id)) == Ok::<
            (Seq<char>, Seq<char>, JsonView),
            ErrorView,
        >(
            ("devices.capabilities.dynamic_scene"@, "diyScene"@, JsonView::Unsigned(scene_id as u64)),
        ),
        cloud::capability_for(CapabilityValue::WorkMode { work_mode, mode_value: None }) == Ok::<
            (Seq<char>, Seq<char>, JsonView),
            ErrorView,
        >(
            (
                "devices.capabilities.work_mode"@,
                "workMode"@,
                JsonView::Object(map!["workMode"@ => JsonView::Unsigned(work_mode as u64)]),
            ),
        ),
        cloud::capability_for(CapabilityValue::WorkMode { work_mode, mode_value: Some(mode_value) }) == Ok::<
            (Seq<char>, Seq<char>, JsonView),
            ErrorView,
        >(
            (
                "devices.capabilities.work_mode"@,
                "workMode"@,
                JsonView::Object(
                    map![
                        "workMode"@ => JsonView::Unsigned(work_mode as u64),
                        "modeValue"@ => JsonView::Unsigned(mode_value as u64),
                    ],
                ),
            ),
        ),
{
}

/// A control request for a known device names the device, its model and the
/// capability, and goes to the control endpoint; there is none for a value that
/// the v2 API does not take.
pub proof fn control_requests_name_the_device(
    cloud: CloudView,
    id: Seq<char>,
    value: CapabilityValue,
    request_id: Seq<char>,
    url: Seq<char>,
)
    requires
        cloud.models.contains_key(id),
        url::url_joined(cloud.new_base.text, "/router/api/v1/device/control"@) == Ok::<
            Seq<char>,
            Seq<char>,
        >(url),
    ensures
        match cloud::capability_for(value) {
            Ok((type_, instance, v)) => cloud::control_request(cloud, id, value, request_id) == Ok::<
                RequestView,
                ErrorView,
            >(
                RequestView {
                    method: Method::Post,
                    url,
                    api_key: cloud.api_key,
                    body: Some(
                        json::json_bytes(
                            JsonView::Object(
                                map![
                                    "requestId"@ => JsonView::Text(request_id),
                                    "payload"@ => JsonView::Object(map![
                                        "sku"@ => JsonView::Text(cloud.models[id]),
                                        "device"@ => JsonView::Text(id),
                                        "capability"@ => JsonView::Object(map![
                                            "type"@ => JsonView::Text(type_),
                                            "instance"@ => JsonView::Text(instance),
                                            "value"@ => v,
                                        ]),
                                    ]),
                                ],
                            ),
                        ),
                    ),
                },
            ),
            Err(e) => cloud::control_request(cloud, id, value, request_id) == Err::<RequestView, ErrorView>(
                e,
            ),
        },
        value is SegmentColor || value is SegmentBrightness || value is Raw ==> cloud::control_request(
            cloud,
            id,
            value,
            request_id,
        ) is Err && cloud::capability_for(value)->Err_0 is NotImplemented,
{
}

/// What comes of an attempt to send a command to the legacy API: a failure to
/// send, or a status of 500 and above, is tried again after one, two and four
/// seconds; a status of 429 after as long as the server asks, but at most five
/// minutes; any other status that is no success ends it, and so does any failure
/// of the fourth attempt.
pub proof fn legacy_attempts(
    message: Seq<char>,
    status: u16,
    retry_after: Option<Seq<char>>,
    text: Seq<char>,
    attempt: u32,
)
    ensures
        ({
            let failed = cloud::next_after_legacy(Err(message), attempt);
            let replied = cloud::next_after_legacy(
                Ok(ReplyView { status, retry_after, body: BodyView::Text(text) }),
                attempt,
            );
            let pause = ControlStepView::Wait(
                if attempt == 0 {
                    1000
                } else if attempt == 1 {
                    2000
                } else {
                    4000
                },
            );
            let secs = match retry_after {
                Some(t) => match text::unsigned_value(t) {
                    Some(n) => n,
                    None => 60,
                },
                None => 60,
            };
            &&& failed == (if attempt < 3 {
                pause
            } else {
                ControlStepView::Finished(Err(ErrorView::Request(message)))
            })
            &&& status == 429 ==> replied == (if attempt < 3 {
                ControlStepView::Wait(
                    if secs > 300 {
                        300000
                    } else {
                        (secs * 1000) as u64
                    },
                )
            } else {
                ControlStepView::Finished(Err(ErrorView::RateLimited { retry_after_secs: secs }))
            })
            &&& status >= 500 ==> replied == (if attempt < 3 {
                pause
            } else {
                ControlStepView::Finished(Err(ErrorView::Api { code: status, message: text }))
            })
            &&& (status < 200 || (300 <= status < 500 && status != 429)) ==> replied
                == ControlStepView::Finished(Err(ErrorView::Api { code: status, message: text }))
            &&& 200 <= status <= 299 ==> replied is Finished
        }),
{
    vstd::arithmetic::power2::lemma2_to64();
}

/// A command on the local network is one datagram to the address of the device,
/// on the command port. Setting a color switches the color temperature off, and
/// setting a color temperature the color.
pub proof fn lan_command_says_what_is_told(local: LocalView, id: Seq<char>, command: Command)
    requires
        is_possible(command),
        local.devices.contains_key(id),
        is_local_address(local.devices[id].ip),
    ensures
        ({
            let rgb = |r: u8, g: u8, b: u8|
                JsonView::Object(
                    map![
                        "r"@ => JsonView::Unsigned(r as u64),
                        "g"@ => JsonView::Unsigned(g as u64),
                        "b"@ => JsonView::Unsigned(b as u64),
                    ],
                );
            let cmd = match command {
                Command::Power(_) => "turn"@,
                Command::Brightness(_) => "brightness"@,
                _ => "colorwc"@,
            };
            let data = JsonView::Object(
                match command {
                    Command::Power(true) => map!["value"@ => JsonView::Unsigned(1)],
                    Command::Power(false) => map!["value"@ => JsonView::Unsigned(0)],
                    Command::Brightness(value) => map!["value"@ => JsonView::Unsigned(value as u64)],
                    Command::Color(c) => map![
                        "color"@ => rgb(c.r, c.g, c.b),
                        "colorTemInKelvin"@ => JsonView::Unsigned(0),
                    ],
                    Command::ColorTemp(kelvin) => map![
                        "color"@ => rgb(0, 0, 0),
                        "colorTemInKelvin"@ => JsonView::Unsigned(kelvin as u64),
                    ],
                },
            );
            local::command_datagram(local, id, command) == Ok::<DatagramView, ErrorView>(
                DatagramView {
                    ip: local.devices[id].ip,
                    port: 4003,
                    bytes: json::json_bytes(
                        JsonView::Object(
                            map![
                                "msg"@ => JsonView::Object(map![
                                    "cmd"@ => JsonView::Text(cmd),
                                    "data"@ => data,
                                ]),
                            ],
                        ),
                    ),
                },
            )
        }),
{
}

/// Whether an address is on the local network or this machine.
pub open spec fn is_local_address(ip: IpAddr) -> bool {
    match ip {
        IpAddr::V4(v4) => {
            ||| v4.a == 10
            ||| v4.a == 127
            ||| v4.a == 169 && v4.b == 254
            ||| v4.a == 172 && v4.b / 16 == 1
            ||| v4.a == 192 && v4.b == 168
        },
        IpAddr::V6(v6) => v6.high == 0 && v6.low == 1,
    }
}

/// A possible command is sent over the local network exactly if the device was
/// found there and its address is local.
pub proof fn lan_commands_go_to_local_devices(local: LocalView, id: Seq<char>, command: Command)
    requires
        is_possible(command),
    ensures
        !local.devices.contains_key(id) ==> local::command_datagram(local, id, command) == Err::<
            DatagramView,
            ErrorView,
        >(ErrorView::DeviceNotFound(id)),
        local.devices.contains_key(id) && !is_local_address(local.devices[id].ip) ==> local::command_datagram(
            local,
            id,
            command,
        ) == Err::<DatagramView, ErrorView>(ErrorView::InvalidConfig("device IP is not a local address"@)),
        local::command_datagram(local, id, command) is Ok <==> local.devices.contains_key(id)
            && is_local_address(local.devices[id].ip),
{
}

/// What is told a device over the local network, in the words of its status, is
/// the state that it was told to be in.
pub proof fn lan_colors_read_back(color: Color, kelvin: u32)
    requires
        1 <= kelvin <= 10000,
    ensures
        ({
            let told = |command: Command|
                local::command_message(command).get("msg"@)->Some_0.get("data"@)->Some_0;
            let a = crate::backend::state::described_by_status(told(Command::Color(color)));
            let b = crate::backend::state::described_by_status(told(Command::ColorTemp(kelvin)));
            &&& a.color == color
            &&& a.color_temp_kelvin is None
            &&& b.color == (Color { r: 0, g: 0, b: 0 })
            &&& b.color_temp_kelvin == Some(kelvin)
        }),
{
    reveal_strlit("color");
    reveal_strlit("colorTemInKelvin");
    reveal_strlit("cmd");
    reveal_strlit("data");
    reveal_strlit("r");
    reveal_strlit("g");
    reveal_strlit("b");
    assert("color"@.len() == 5 && "colorTemInKelvin"@.len() == 16);
    assert("cmd"@.len() == 3 && "data"@.len() == 4);
    assert("r"@[0] == 'r' && "g"@[0] == 'g' && "b"@[0] == 'b');
}

} // verus!
