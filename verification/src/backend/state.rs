//! Device states out of what the APIs report.
use vstd::prelude::*;

use crate::capability::CapabilityState;
use crate::capability::CapabilityStateView;
use crate::decode;
use crate::error::joined;
use crate::error::GoveeError;
use crate::json::Json;
use crate::json::JsonView;
use crate::names::NameMap;
use crate::text::same;
use crate::types;
use crate::types::Color;
use crate::types::DeviceState;
use crate::types::DeviceStateView;
use vstd::string::*;

verus! {

/// What `find` finds in the last of `items` in which it finds something.
pub open spec fn last_found<I, T>(items: Seq<I>, find: spec_fn(I) -> Option<T>) -> Option<T>
    decreases items.len(),
{
    if items.len() == 0 {
        None
    } else {
        match find(items.last()) {
            Some(v) => Some(v),
            None => last_found(items.drop_last(), find),
        }
    }
}

/// One more item is looked at before those that come earlier.
proof fn last_found_next<I, T>(items: Seq<I>, find: spec_fn(I) -> Option<T>, i: int)
    requires
        0 <= i < items.len(),
    ensures
        last_found(items.take(i + 1), find) == (match find(items[i]) {
            Some(v) => Some(v),
            None => last_found(items.take(i), find),
        }),
{
    assert(items.take(i + 1).drop_last() =~= items.take(i));
}

/// `n`, but no more than `limit`.
pub open spec fn at_most(n: u64, limit: u64) -> u64 {
    if n <= limit {
        n
    } else {
        limit
    }
}

/// A brightness in percent: values above 100 count as 100.
pub open spec fn percent(n: u64) -> u8 {
    at_most(n, 100) as u8
}

fn to_percent(n: u64) -> (r: u8)
    ensures
        r == percent(n),
        r <= 100,
{
    if n <= 100 {
        n as u8
    } else {
        100
    }
}

/// The color component under `name`: 0 where there is none, and values above
/// 255 count as 255.
pub open spec fn component(value: JsonView, name: Seq<char>) -> u8 {
    match value.get_u64(name) {
        Some(n) => at_most(n, 255) as u8,
        None => 0,
    }
}

fn read_component(value: &Json, name: &str) -> (r: u8)
    ensures
        r == component(value@, name@),
{
    match value.get_u64(name) {
        Some(n) => if n <= 255 {
            n as u8
        } else {
            255
        },
        None => 0,
    }
}

/// The color with the components in `value`.
pub open spec fn components(value: JsonView) -> Color {
    Color { r: component(value, "r"@), g: component(value, "g"@), b: component(value, "b"@) }
}

fn read_components(value: &Json) -> (r: Color)
    ensures
        r == components(value@),
{
    Color::new(read_component(value, "r"), read_component(value, "g"), read_component(value, "b"))
}

/// The color that is off.
pub open spec fn black() -> Color {
    Color { r: 0, g: 0, b: 0 }
}

/// Whether a property says that the device can be reached.
pub open spec fn online_in(property: JsonView) -> Option<bool> {
    property.get_bool("online"@)
}

/// What a property says of the power.
pub open spec fn power_in(property: JsonView) -> Option<bool> {
    match property.get_text("powerState"@) {
        Some(t) => Some(t == "on"@),
        None => None,
    }
}

/// The brightness in a property.
pub open spec fn brightness_in(property: JsonView) -> Option<u8> {
    match property.get_u64("brightness"@) {
        Some(n) => Some(percent(n)),
        None => None,
    }
}

/// The color in a property.
pub open spec fn color_in(property: JsonView) -> Option<Color> {
    match property.get("color"@) {
        Some(JsonView::Object(members)) => Some(components(JsonView::Object(members))),
        _ => None,
    }
}

/// The color temperature in a property. One that does not fit in 32 bits counts
/// as the highest that does.
pub open spec fn temp_in(property: JsonView) -> Option<u32> {
    match property.get_u64("colorTem"@) {
        Some(n) => Some(at_most(n, 4294967295) as u32),
        None => None,
    }
}

/// The state that the properties of the v1 API describe. Of two properties that
/// speak of the same thing the later counts.
pub open spec fn described_by_properties(properties: Seq<JsonView>) -> DeviceStateView {
    DeviceStateView {
        on: last_found(properties, |p: JsonView| power_in(p)) == Some(true),
        brightness: last_found(properties, |p: JsonView| brightness_in(p)).unwrap_or(0),
        color: last_found(properties, |p: JsonView| color_in(p)).unwrap_or(black()),
        color_temp_kelvin: last_found(properties, |p: JsonView| temp_in(p)),
        stale: last_found(properties, |p: JsonView| online_in(p)) == Some(false),
        raw: Map::empty(),
    }
}

/// Build a `DeviceState` from the v1 property array.
///
/// The v1 API returns state as `[{"online": true}, {"powerState": "on"}, ...]`:
/// each element is a JSON object with a single key.
///
/// Values are clamped to valid ranges before construction:
/// - brightness: clamped to 0-100
/// - color components: clamped to 0-255
/// - colorTem: clamped to `u32::MAX`
pub fn build_state_from_properties(properties: &Vec<Json>) -> (r: Result<DeviceState, GoveeError>)
    ensures
        r is Ok,
        r->Ok_0@ == described_by_properties(decode::all_seen(properties@)),
{
    let mut on = false;
    let mut brightness: u8 = 0;
    let mut color = Color::new(0, 0, 0);
    let mut color_temp: Option<u32> = None;
    let mut online = true;
    let ghost props = decode::all_seen(properties@);
    for i in 0..properties.len()
        invariant
            props == decode::all_seen(properties@),
            on == (last_found(props.take(i as int), |p: JsonView| power_in(p)) == Some(true)),
            brightness == last_found(props.take(i as int), |p: JsonView| brightness_in(p)).unwrap_or(0),
            brightness <= 100,
            color == last_found(props.take(i as int), |p: JsonView| color_in(p)).unwrap_or(black()),
            color_temp == last_found(props.take(i as int), |p: JsonView| temp_in(p)),
            !online == (last_found(props.take(i as int), |p: JsonView| online_in(p)) == Some(false)),
    {
        let prop = &properties[i];
        proof {
            assert(props[i as int] == prop@);
            last_found_next(props, |p: JsonView| power_in(p), i as int);
            last_found_next(props, |p: JsonView| brightness_in(p), i as int);
            last_found_next(props, |p: JsonView| color_in(p), i as int);
            last_found_next(props, |p: JsonView| temp_in(p), i as int);
            last_found_next(props, |p: JsonView| online_in(p), i as int);
        }
        match prop.get_bool("online") {
            Some(v) => {
                online = v;
            },
            None => {},
        }
        match prop.get_str("powerState") {
            Some(t) => {
                on = same(t, "on");
            },
            None => {},
        }
        match prop.get_u64("brightness") {
            Some(n) => {
                brightness = to_percent(n);
            },
            None => {},
        }
        match prop.get("color") {
            Some(value) => match value {
                Json::Object(_) => {
                    color = read_components(value);
                },
                _ => {},
            },
            None => {},
        }
        match prop.get_u64("colorTem") {
            Some(n) => {
                color_temp = Some(
                    if n <= 4294967295 {
                        n as u32
                    } else {
                        4294967295
                    },
                );
            },
            None => {},
        }
    }
    assert(props.take(properties@.len() as int) =~= props);
    DeviceState::new(on, brightness, color, color_temp, !online)
}

/// The integer that a capability of this type and instance has.
pub open spec fn number_of(cap: CapabilityStateView, type_: Seq<char>, instance: Seq<char>) -> Option<u64> {
    if cap.type_ == type_ && cap.instance == instance {
        cap.value.as_u64()
    } else {
        None
    }
}

/// The integer that the capability with this type and instance has.
pub open spec fn number_in(caps: Seq<CapabilityStateView>, type_: Seq<char>, instance: Seq<char>) -> Option<
    u64,
> {
    last_found(caps, |cap: CapabilityStateView| number_of(cap, type_, instance))
}

/// Whether a field of the state stands for the capability.
pub open spec fn has_field(cap: CapabilityStateView) -> bool {
    ||| cap.type_ == "devices.capabilities.on_off"@ && cap.instance == "powerSwitch"@
    ||| cap.type_ == "devices.capabilities.range"@ && cap.instance == "brightness"@
    ||| cap.type_ == "devices.capabilities.color_setting"@ && cap.instance == "colorRgb"@
    ||| cap.type_ == "devices.capabilities.color_setting"@ && cap.instance == "colorTemperatureK"@
}

/// The key of a capability among the raw values.
pub open spec fn raw_key(cap: CapabilityStateView) -> Seq<char> {
    cap.type_ + "/"@ + cap.instance
}

/// The values of the capabilities that no field stands for. Of two with one key
/// the later counts.
pub open spec fn raw_values(caps: Seq<CapabilityStateView>) -> Map<Seq<char>, JsonView>
    decreases caps.len(),
{
    if caps.len() == 0 {
        Map::empty()
    } else if has_field(caps.last()) {
        raw_values(caps.drop_last())
    } else {
        raw_values(caps.drop_last()).insert(raw_key(caps.last()), caps.last().value)
    }
}

/// A number of Kelvin, if it fits in 32 bits.
pub open spec fn kelvin_of(n: Option<u64>) -> Option<u32> {
    match n {
        Some(n) => if n <= 4294967295 {
            Some(n as u32)
        } else {
            None
        },
        None => None,
    }
}

/// The state that the capabilities of the v2 API describe.
pub open spec fn described_by_capabilities(caps: Seq<CapabilityStateView>) -> DeviceStateView {
    DeviceStateView {
        on: number_in(caps, "devices.capabilities.on_off"@, "powerSwitch"@) == Some(1u64),
        brightness: match number_in(caps, "devices.capabilities.range"@, "brightness"@) {
            Some(n) => percent(n),
            None => 0,
        },
        color: match number_in(caps, "devices.capabilities.color_setting"@, "colorRgb"@) {
            Some(n) => types::unpacked(n as nat),
            None => black(),
        },
        color_temp_kelvin: kelvin_of(
            number_in(caps, "devices.capabilities.color_setting"@, "colorTemperatureK"@),
        ),
        stale: false,
        raw: raw_values(caps),
    }
}

/// Build a `DeviceState` from the capabilities that the v2 API reports.
///
/// Maps known capability instances to `DeviceState` fields; stores all unknown
/// capabilities in `DeviceState::raw` keyed by `"type/instance"`.
pub fn build_state_from_capabilities(caps: &Vec<CapabilityState>) -> (r: Result<DeviceState, GoveeError>)
    ensures
        r is Ok,
        r->Ok_0@ == described_by_capabilities(decode::all_seen(caps@)),
{
    let mut power: Option<u64> = None;
    let mut level: Option<u64> = None;
    let mut rgb: Option<u64> = None;
    let mut temp: Option<u64> = None;
    let mut raw: NameMap<Json> = NameMap::new();
    let ghost views = decode::all_seen(caps@);
    assert(types::json_values(raw@) =~= raw_values(views.take(0)));
    for i in 0..caps.len()
        invariant
            views == decode::all_seen(caps@),
            power == number_in(views.take(i as int), "devices.capabilities.on_off"@, "powerSwitch"@),
            level == number_in(views.take(i as int), "devices.capabilities.range"@, "brightness"@),
            rgb == number_in(views.take(i as int), "devices.capabilities.color_setting"@, "colorRgb"@),
            temp == number_in(
                views.take(i as int),
                "devices.capabilities.color_setting"@,
                "colorTemperatureK"@,
            ),
            types::json_values(raw@) == raw_values(views.take(i as int)),
    {
        let cap = &caps[i];
        proof {
            assert(views[i as int] == cap@);
            last_found_next(
                views,
                |cap: CapabilityStateView| number_of(cap, "devices.capabilities.on_off"@, "powerSwitch"@),
                i as int,
            );
            last_found_next(
                views,
                |cap: CapabilityStateView| number_of(cap, "devices.capabilities.range"@, "brightness"@),
                i as int,
            );
            last_found_next(
                views,
                |cap: CapabilityStateView|
                    number_of(cap, "devices.capabilities.color_setting"@, "colorRgb"@),
                i as int,
            );
            last_found_next(
                views,
                |cap: CapabilityStateView|
                    number_of(cap, "devices.capabilities.color_setting"@, "colorTemperatureK"@),
                i as int,
            );
            assert(views.take(i + 1).drop_last() =~= views.take(i as int));
            field_names_differ();
        }
        let type_ = cap.type_.as_str();
        let instance = cap.instance.as_str();
        let value = cap.state.value.as_u64();
        if same(type_, "devices.capabilities.on_off") && same(instance, "powerSwitch") {
            if value.is_some() {
                power = value;
            }
        } else if same(type_, "devices.capabilities.range") && same(instance, "brightness") {
            if value.is_some() {
                level = value;
            }
        } else if same(type_, "devices.capabilities.color_setting") && same(instance, "colorRgb") {
            if value.is_some() {
                rgb = value;
            }
        } else if same(type_, "devices.capabilities.color_setting") && same(instance, "colorTemperatureK") {
            if value.is_some() {
                temp = value;
            }
        } else {
            let key = joined(type_, "/").concat(instance);
            let copy = cap.state.value.clone();
            let ghost before = raw@;
            raw.insert(key, copy);
            assert(types::json_values(raw@) =~= types::json_values(before).insert(key@, cap@.value));
        }
    }
    assert(views.take(caps@.len() as int) =~= views);
    let on = match power {
        Some(n) => n == 1,
        None => false,
    };
    let brightness: u8 = match level {
        Some(n) => to_percent(n),
        None => 0,
    };
    let color = match rgb {
        Some(n) => Color::from_rgb24(n),
        None => Color::new(0, 0, 0),
    };
    let color_temp: Option<u32> = match temp {
        Some(n) => if n <= 4294967295 {
            Some(n as u32)
        } else {
            None
        },
        None => None,
    };
    DeviceState::with_raw(on, brightness, color, color_temp, false, raw)
}

/// The instances that fields stand for are different.
proof fn field_names_differ()
    ensures
        "powerSwitch"@ != "brightness"@,
        "powerSwitch"@ != "colorRgb"@,
        "powerSwitch"@ != "colorTemperatureK"@,
        "brightness"@ != "colorRgb"@,
        "brightness"@ != "colorTemperatureK"@,
        "colorRgb"@ != "colorTemperatureK"@,
{
    reveal_strlit("powerSwitch");
    reveal_strlit("brightness");
    reveal_strlit("colorRgb");
    reveal_strlit("colorTemperatureK");
    assert("powerSwitch"@.len() == 11);
    assert("brightness"@.len() == 10);
    assert("colorRgb"@.len() == 8);
    assert("colorTemperatureK"@.len() == 17);
}

/// The color temperature in a LAN status, if it is one from 1 to `u32::MAX`.
pub open spec fn lan_kelvin(n: Option<u64>) -> Option<u32> {
    match n {
        Some(n) => if 0 < n <= 4294967295 {
            Some(n as u32)
        } else {
            None
        },
        None => None,
    }
}

/// The state that a LAN status describes.
pub open spec fn described_by_status(data: JsonView) -> DeviceStateView {
    DeviceStateView {
        on: data.get_u64("onOff"@) == Some(1u64),
        brightness: match data.get_u64("brightness"@) {
            Some(n) => percent(n),
            None => 0,
        },
        color: match data.get("color"@) {
            Some(value) => components(value),
            None => black(),
        },
        color_temp_kelvin: lan_kelvin(data.get_u64("colorTemInKelvin"@)),
        stale: false,
        raw: Map::empty(),
    }
}

/// Parse `devStatus` data into a `DeviceState`.
pub fn parse_dev_status(data: &Json) -> (r: Result<DeviceState, GoveeError>)
    ensures
        r is Ok,
        r->Ok_0@ == described_by_status(data@),
{
    let on = match data.get_u64("onOff") {
        Some(n) => n == 1,
        None => false,
    };
    let brightness: u8 = match data.get_u64("brightness") {
        Some(n) => to_percent(n),
        None => 0,
    };
    let color = match data.get("color") {
        Some(value) => read_components(value),
        None => Color::new(0, 0, 0),
    };
    // A temperature of 0 means that there is none, as `set_color_temp` never
    // sends 0.
    let color_temp: Option<u32> = match data.get_u64("colorTemInKelvin") {
        Some(n) => if 0 < n && n <= 4294967295 {
            Some(n as u32)
        } else {
            None
        },
        None => None,
    };
    DeviceState::new(on, brightness, color, color_temp, false)
}

/// Whatever the cloud and the devices report, a state has a brightness of at
/// most 100.
pub proof fn reported_brightness_in_range(
    properties: Seq<JsonView>,
    caps: Seq<CapabilityStateView>,
    status: JsonView,
)
    ensures
        described_by_properties(properties).brightness <= 100,
        described_by_capabilities(caps).brightness <= 100,
        described_by_status(status).brightness <= 100,
{
    found_brightness_in_range(properties);
}

proof fn found_brightness_in_range(properties: Seq<JsonView>)
    ensures
        last_found(properties, |p: JsonView| brightness_in(p)).unwrap_or(0) <= 100,
    decreases properties.len(),
{
    if properties.len() > 0 {
        found_brightness_in_range(properties.drop_last());
    }
}

/// A later property wins over an earlier one that speaks of the same thing.
pub proof fn later_property_wins(properties: Seq<JsonView>, property: JsonView)
    ensures
        ({
            let before = described_by_properties(properties);
            let after = described_by_properties(properties.push(property));
            &&& after.on == power_in(property).unwrap_or(before.on)
            &&& after.brightness == brightness_in(property).unwrap_or(before.brightness)
            &&& after.color == color_in(property).unwrap_or(before.color)
            &&& after.color_temp_kelvin == (match temp_in(property) {
                Some(k) => Some(k),
                None => before.color_temp_kelvin,
            })
            &&& after.stale == (match online_in(property) {
                Some(online) => !online,
                None => before.stale,
            })
        }),
{
    assert(properties.push(property).drop_last() =~= properties);
}

/// A color that was set over the v2 API is reported back as it was set.
pub proof fn set_color_is_reported(caps: Seq<CapabilityStateView>, color: Color)
    requires
        number_in(caps, "devices.capabilities.color_setting"@, "colorRgb"@) == Some(color.packed() as u64),
    ensures
        described_by_capabilities(caps).color == color,
{
    types::packing_round_trip(color);
}

} // verus!
