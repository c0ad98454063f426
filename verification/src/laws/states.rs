//! What is reported of a device, and what its state is then.
use vstd::prelude::*;

use crate::backend::cloud;
use crate::backend::state;
use crate::backend::Command;
use crate::capability::CapabilityStateView;
use crate::json::JsonView;
use crate::types;
use crate::types::Color;
use crate::types::DeviceStateView;

verus! {

/// The names that reports go by are different.
proof fn names_differ()
    ensures
        "powerSwitch"@ != "brightness"@,
        "powerSwitch"@ != "colorRgb"@,
        "powerSwitch"@ != "colorTemperatureK"@,
        "brightness"@ != "colorRgb"@,
        "brightness"@ != "colorTemperatureK"@,
        "colorRgb"@ != "colorTemperatureK"@,
{
    reveal_strlit("powerSwitch");
    reveal_strlit("brightness");
    reveal_strlit("colorRgb");
    reveal_strlit("colorTemperatureK");
    assert("powerSwitch"@.len() == 11);
    assert("brightness"@.len() == 10);
    assert("colorRgb"@.len() == 8);
    assert("colorTemperatureK"@.len() == 17);
}

/// Where nothing is reported, a device is off, dark and reachable.
pub proof fn nothing_reported()
    ensures
        ({
            let off = DeviceStateView {
                on: false,
                brightness: 0,
                color: Color { r: 0, g: 0, b: 0 },
                color_temp_kelvin: None,
                stale: false,
                raw: Map::empty(),
            };
            &&& state::described_by_capabilities(Seq::empty()) == off
            &&& state::described_by_properties(Seq::empty()) == off
            &&& state::described_by_status(JsonView::Object(Map::empty())) == off
        }),
{
}

/// What one more capability in a v2 report changes of the state. A number under
/// `powerSwitch` is on where it is 1 and off where it is any other; a brightness
/// counts up to 100; a color has red above green above blue; a color temperature
/// has to fit in 32 bits. A capability that no field is for goes to the raw
/// values, and nothing else of the state changes.
pub proof fn one_more_capability(caps: Seq<CapabilityStateView>, cap: CapabilityStateView)
    ensures
        ({
            let before = state::described_by_capabilities(caps);
            let after = state::described_by_capabilities(caps.push(cap));
            let power = cap.type_ == "devices.capabilities.on_off"@ && cap.instance == "powerSwitch"@;
            let level = cap.type_ == "devices.capabilities.range"@ && cap.instance == "brightness"@;
            let rgb = cap.type_ == "devices.capabilities.color_setting"@ && cap.instance == "colorRgb"@;
            let temp = cap.type_ == "devices.capabilities.color_setting"@ && cap.instance
                == "colorTemperatureK"@;
            &&& after.on == (match cap.value {
                JsonView::Unsigned(n) => if power {
                    n == 1
                } else {
                    before.on
                },
                _ => before.on,
            })
            &&& after.brightness == (match cap.value {
                JsonView::Unsigned(n) => if level {
                    if n > 100 {
                        100
                    } else {
                        n as int
                    }
                } else {
                    before.brightness as int
                },
                _ => before.brightness as int,
            })
            &&& match cap.value {
                JsonView::Unsigned(n) => if rgb {
                    after.color.r * 65536 + after.color.g * 256 + after.color.b == n % 0x100_0000
                } else {
                    after.color == before.color
                },
                _ => after.color == before.color,
            }
            &&& match cap.value {
                JsonView::Unsigned(n) => if temp {
                    after.color_temp_kelvin == (if n <= 4294967295 {
                        Some(n as u32)
                    } else {
                        None
                    })
                } else {
                    after.color_temp_kelvin == before.color_temp_kelvin
                },
                _ => after.color_temp_kelvin == before.color_temp_kelvin,
            }
            &&& after.stale == false
            &&& after.raw == (if power || level || rgb || temp {
                before.raw
            } else {
                before.raw.insert(cap.type_ + "/"@ + cap.instance, cap.value)
            })
        }),
{
    names_differ();
    assert(caps.push(cap).drop_last() =~= caps);
    match cap.value {
        JsonView::Unsigned(n) => {
            unpacks(n);
        },
        _ => {},
    }
}

proof fn unpacks(n: u64)
    ensures
        ({
            let c = types::unpacked(n as nat);
            c.r * 65536 + c.g * 256 + c.b == n % 0x100_0000
        }),
{
    let k = n as int;
    let c = types::unpacked(n as nat);
    assert(c.r == (k / 65536) % 256);
    assert(c.g == (k / 256) % 256);
    assert(c.b == k % 256);
    assert(k / 256 == 256 * (k / 65536) + (k / 256) % 256);
    assert(k == 256 * (k / 256) + k % 256);
    assert(k / 65536 == 256 * (k / 0x100_0000) + (k / 65536) % 256);
}

/// A command over the v2 API is reported back as it was given: what was sent for
/// it, in a report, changes the one field that the command is for to what the
/// command says, and no other.
pub proof fn command_is_reported(
    caps: Seq<CapabilityStateView>,
    command: Command,
    sent: (Seq<char>, Seq<char>, JsonView),
)
    requires
        cloud::capability_for(cloud::v2_value(command)) == Ok::<
            (Seq<char>, Seq<char>, JsonView),
            crate::error::ErrorView,
        >(sent),
    ensures
        ({
            let before = state::described_by_capabilities(caps);
            let after = state::described_by_capabilities(
                caps.push(CapabilityStateView { type_: sent.0, instance: sent.1, value: sent.2 }),
            );
            match command {
                Command::Power(on) => after == (DeviceStateView { on, ..before }),
                Command::Brightness(value) => value <= 100 ==> after == (DeviceStateView {
                    brightness: value,
                    ..before
                }),
                Command::Color(color) => after == (DeviceStateView { color, ..before }),
                Command::ColorTemp(kelvin) => after == (DeviceStateView {
                    color_temp_kelvin: Some(kelvin),
                    ..before
                }),
            }
        }),
{
    names_differ();
    let cap = CapabilityStateView { type_: sent.0, instance: sent.1, value: sent.2 };
    assert(caps.push(cap).drop_last() =~= caps);
    one_more_capability(caps, cap);
    match command {
        Command::Color(color) => {
            types::packing_round_trip(color);
        },
        _ => {},
    }
    let before = state::described_by_capabilities(caps);
    let after = state::described_by_capabilities(caps.push(cap));
    assert(after.raw == before.raw);
}

/// A color component: 0 where there is none, and no more than 255.
pub open spec fn is_component(c: u8, value: JsonView, name: Seq<char>) -> bool {
    match value.get(name) {
        Some(JsonView::Unsigned(n)) => c == n || (c == 255 && n > 255),
        _ => c == 0,
    }
}

/// Whether a color has the components of an object.
pub open spec fn is_color_of(color: Color, value: JsonView) -> bool {
    &&& is_component(color.r, value, "r"@)
    &&& is_component(color.g, value, "g"@)
    &&& is_component(color.b, value, "b"@)
}

/// What one more property in a v1 report changes of the state: each of the names
/// `online`, `powerState`, `brightness`, `color` and `colorTem` the one field that
/// it is for, and only where its value is of the right kind.
pub proof fn one_more_property(properties: Seq<JsonView>, property: JsonView)
    ensures
        ({
            let before = state::described_by_properties(properties);
            let after = state::described_by_properties(properties.push(property));
            &&& after.on == (match property.get("powerState"@) {
                Some(JsonView::Text(t)) => t == "on"@,
                _ => before.on,
            })
            &&& after.stale == (match property.get("online"@) {
                Some(JsonView::Bool(online)) => !online,
                _ => before.stale,
            })
            &&& match property.get("brightness"@) {
                Some(JsonView::Unsigned(n)) => after.brightness == n || (after.brightness == 100 && n > 100),
                _ => after.brightness == before.brightness,
            }
            &&& after.brightness <= 100
            &&& match property.get("color"@) {
                Some(JsonView::Object(members)) => is_color_of(after.color, JsonView::Object(members)),
                _ => after.color == before.color,
            }
            &&& match property.get("colorTem"@) {
                Some(JsonView::Unsigned(n)) => after.color_temp_kelvin == Some(
                    if n < 4294967295 {
                        n as u32
                    } else {
                        4294967295u32
                    },
                ),
                _ => after.color_temp_kelvin == before.color_temp_kelvin,
            }
            &&& after.raw == Map::<Seq<char>, JsonView>::empty()
        }),
{
    assert(properties.push(property).drop_last() =~= properties);
    state::later_property_wins(properties, property);
    state::reported_brightness_in_range(properties.push(property), Seq::empty(), property);
    state::reported_brightness_in_range(properties, Seq::empty(), property);
}

/// What each field of a LAN status says of the state. A color temperature of 0
/// says that there is none.
pub proof fn lan_status_fields(data: JsonView)
    ensures
        ({
            let s = state::described_by_status(data);
            &&& s.on == (data.get("onOff"@) == Some(JsonView::Unsigned(1)))
            &&& match data.get("brightness"@) {
                Some(JsonView::Unsigned(n)) => s.brightness == n || (s.brightness == 100 && n > 100),
                _ => s.brightness == 0,
            }
            &&& s.brightness <= 100
            &&& match data.get("color"@) {
                Some(value) => is_color_of(s.color, value),
                None => s.color == (Color { r: 0, g: 0, b: 0 }),
            }
            &&& match data.get("colorTemInKelvin"@) {
                Some(JsonView::Unsigned(n)) => s.color_temp_kelvin == (if 1 <= n <= 4294967295 {
                    Some(n as u32)
                } else {
                    None
                }),
                _ => s.color_temp_kelvin is None,
            }
            &&& !s.stale
            &&& s.raw == Map::<Seq<char>, JsonView>::empty()
        }),
{
}

/// Whether a report says in a number whether the power is on.
pub open spec fn reports_power(cap: CapabilityStateView) -> bool {
    &&& cap.type_ == "devices.capabilities.on_off"@
    &&& cap.instance == "powerSwitch"@
    &&& cap.value is Unsigned
}

/// A device is on exactly if the last number reported for its power is 1,
/// wherever in the report it stands.
pub proof fn last_power_report_counts(caps: Seq<CapabilityStateView>, i: int)
    requires
        0 <= i < caps.len(),
        reports_power(caps[i]),
        forall|j: int| i < j < caps.len() ==> !reports_power(#[trigger] caps[j]),
    ensures
        state::described_by_capabilities(caps).on == (caps[i].value == JsonView::Unsigned(1)),
    decreases caps.len(),
{
    let rest = caps.drop_last();
    assert(rest.push(caps.last()) =~= caps);
    one_more_capability(rest, caps.last());
    if i < rest.len() {
        assert(!reports_power(caps[caps.len() - 1]));
        assert forall|j: int| i < j < rest.len() implies !reports_power(#[trigger] rest[j]) by {
            assert(!reports_power(caps[j]));
        }
        last_power_report_counts(rest, i);
    }
}

/// A device for whose power no number is reported is off.
pub proof fn no_power_report_is_off(caps: Seq<CapabilityStateView>)
    requires
        forall|j: int| 0 <= j < caps.len() ==> !reports_power(#[trigger] caps[j]),
    ensures
        !state::described_by_capabilities(caps).on,
    decreases caps.len(),
{
    if caps.len() > 0 {
        let rest = caps.drop_last();
        assert(rest.push(caps.last()) =~= caps);
        one_more_capability(rest, caps.last());
        assert(!reports_power(caps[caps.len() - 1]));
        assert forall|j: int| 0 <= j < rest.len() implies !reports_power(#[trigger] rest[j]) by {
            assert(!reports_power(caps[j]));
        }
        no_power_report_is_off(rest);
    } else {
        nothing_reported();
        assert(caps =~= Seq::empty());
    }
}

} // verus!
