//! What the documents of the service say.
use vstd::prelude::*;

use crate::backend::reply::V2Device;
use crate::backend::reply::V2DeviceView;
use crate::backend::reply::V2StateResponse;
use crate::backend::reply::V2StateView;
use crate::capability::Capability;
use crate::capability::CapabilityParameters;
use crate::capability::CapabilityState;
use crate::capability::CapabilityStateView;
use crate::capability::CapabilityView;
use crate::capability::DynamicSceneValue;
use crate::capability::EnumOption;
use crate::capability::EnumOptionView;
use crate::capability::IntRange;
use crate::capability::IntRangeView;
use crate::capability::ParametersView;
use crate::capability::StructField;
use crate::capability::StructFieldView;
use crate::decode;
use crate::decode::FromJson;
use crate::decode::Source;
use crate::decode::ToJson;
use crate::error::ErrorView;
use crate::json::JsonView;
use crate::types;
use crate::types::BackendType;
use crate::types::Color;
use crate::types::Device;
use crate::types::DeviceState;
use crate::types::DeviceStateView;
use crate::types::DeviceView;
use crate::types::DiyScene;
use crate::types::DiySceneView;
use crate::types::LightScene;
use crate::types::LightSceneView;

verus! {

/// Whether an object holds a value under a name.
pub open spec fn has(members: Map<Seq<char>, JsonView>, name: Seq<char>, value: JsonView) -> bool {
    members.contains_key(name) && members[name] == value
}

/// Whether an object holds nothing under a name, or null.
pub open spec fn lacks(members: Map<Seq<char>, JsonView>, name: Seq<char>) -> bool {
    !members.contains_key(name) || members[name] == JsonView::Null
}

/// An integer as it stands in a document.
pub open spec fn is_integer(value: JsonView, n: int) -> bool {
    match value {
        JsonView::Unsigned(m) => m == n,
        JsonView::Negative(m) => m == n,
        _ => false,
    }
}

/// What a document holds under a name, and what a value of a document is.
pub proof fn values_of_documents(
    members: Map<Seq<char>, JsonView>,
    name: Seq<char>,
    items: Seq<JsonView>,
    t: Seq<char>,
    n: u64,
    m: i64,
    b: bool,
)
    ensures
        JsonView::Object(members).get(name) == (if members.contains_key(name) {
            Some(members[name])
        } else {
            None
        }),
        JsonView::Array(items).get(name) is None,
        JsonView::Text(t).get(name) is None,
        JsonView::Unsigned(n).get(name) is None,
        JsonView::Null.get(name) is None,
        JsonView::Unsigned(n).as_u64() == Some(n),
        JsonView::Negative(m).as_u64() is None,
        JsonView::Decimal(t).as_u64() is None,
        JsonView::Text(t).as_u64() is None,
        JsonView::Bool(b).as_u64() is None,
        JsonView::Null.as_u64() is None,
        JsonView::Text(t).as_text() == Some(t),
        JsonView::Unsigned(n).as_text() is None,
        JsonView::Null.as_text() is None,
        JsonView::Bool(b).as_bool() == Some(b),
        JsonView::Unsigned(n).as_bool() is None,
        JsonView::Text(t).as_bool() is None,
{
}

/// Numbers are read where they fit.
pub proof fn numbers_that_fit(value: JsonView, a: u8, b: u16, c: u32, d: u64, e: i64)
    ensures
        u8::read(value) == Some(a) <==> value == JsonView::Unsigned(a as u64),
        u16::read(value) == Some(b) <==> value == JsonView::Unsigned(b as u64),
        u32::read(value) == Some(c) <==> value == JsonView::Unsigned(c as u64),
        u64::read(value) == Some(d) <==> value == JsonView::Unsigned(d),
        i64::read(value) == Some(e) <==> is_integer(value, e as int),
{
}

/// A list is read item by item, in order, and only if each item can be read.
pub proof fn lists_are_read_item_by_item<T: FromJson>(value: JsonView, list: Seq<T::V>)
    ensures
        decode::read_list::<T>(value) == Some(list) <==> value is Array && value->Array_0.len() == list.len()
            && (forall|i: int|
            0 <= i < list.len() ==> T::read(#[trigger] value->Array_0[i]) == Some(list[i])),
{
    if value is Array {
        let items = value->Array_0;
        if items.len() == list.len() && (forall|i: int|
            0 <= i < list.len() ==> T::read(#[trigger] items[i]) == Some(list[i])) {
            assert(decode::read_items::<T>(items)->Some_0 =~= list);
        }
        if decode::read_list::<T>(value) == Some(list) {
            assert forall|i: int| 0 <= i < list.len() implies T::read(#[trigger] items[i]) == Some(list[i]) by {
                assert(list[i] == T::read(items[i])->Some_0);
            }
        }
    }
}

/// A color is read from its three components, and only from them.
pub proof fn colors_in_documents(members: Map<Seq<char>, JsonView>, c: Color, source: Source)
    ensures
        Color::read_from(JsonView::Object(members), source) == Some(c) <==> has(
            members,
            "r"@,
            JsonView::Unsigned(c.r as u64),
        ) && has(members, "g"@, JsonView::Unsigned(c.g as u64)) && has(
            members,
            "b"@,
            JsonView::Unsigned(c.b as u64),
        ),
{
}

/// A device is read from its fields. The alias may be missing or null.
pub proof fn devices_in_documents(members: Map<Seq<char>, JsonView>, d: DeviceView)
    requires
        members.contains_key("backend"@) ==> members["backend"@] is Text,
    ensures
        Device::read(JsonView::Object(members)) == Some(d) <==> {
            &&& members.contains_key("id"@) && members["id"@] is Text && types::device_id(
                members["id"@]->Text_0,
            ) == Ok::<Seq<char>, ErrorView>(d.id)
            &&& has(members, "model"@, JsonView::Text(d.model))
            &&& has(members, "name"@, JsonView::Text(d.name))
            &&& match d.alias {
                Some(alias) => has(members, "alias"@, JsonView::Text(alias)),
                None => lacks(members, "alias"@),
            }
            &&& match d.backend {
                BackendType::Cloud => has(members, "backend"@, JsonView::Text("cloud"@)),
                BackendType::Local => has(members, "backend"@, JsonView::Text("local"@)),
            }
        },
{
    reveal_strlit("cloud");
    reveal_strlit("local");
    assert("cloud"@[0] == 'c' && "local"@[0] == 'l');
}

/// A state is read from its fields, if the brightness is in range. The color
/// temperature may be missing or null, and raw values are not read.
pub proof fn states_in_documents(members: Map<Seq<char>, JsonView>, s: DeviceStateView)
    ensures
        DeviceState::read(JsonView::Object(members)) == Some(s) <==> {
            &&& has(members, "on"@, JsonView::Bool(s.on))
            &&& has(members, "brightness"@, JsonView::Unsigned(s.brightness as u64))
            &&& s.brightness <= 100
            &&& members.contains_key("color"@) && Color::read(members["color"@]) == Some(s.color)
            &&& match s.color_temp_kelvin {
                Some(k) => has(members, "color_temp_kelvin"@, JsonView::Unsigned(k as u64)),
                None => lacks(members, "color_temp_kelvin"@),
            }
            &&& has(members, "stale"@, JsonView::Bool(s.stale))
            &&& s.raw == Map::<Seq<char>, JsonView>::empty()
        },
{
}

/// A reported capability is read from its type, its instance and the value of its
/// state.
pub proof fn reports_in_documents(
    members: Map<Seq<char>, JsonView>,
    inner: Map<Seq<char>, JsonView>,
    cap: CapabilityStateView,
)
    requires
        has(members, "state"@, JsonView::Object(inner)),
    ensures
        CapabilityState::read(JsonView::Object(members)) == Some(cap) <==> has(
            members,
            "type"@,
            JsonView::Text(cap.type_),
        ) && has(members, "instance"@, JsonView::Text(cap.instance)) && has(inner, "value"@, cap.value),
{
}

/// A capability is read from its type, its instance and its parameters.
pub proof fn capabilities_in_documents(members: Map<Seq<char>, JsonView>, cap: CapabilityView)
    ensures
        Capability::read(JsonView::Object(members)) == Some(cap) <==> has(
            members,
            "type"@,
            JsonView::Text(cap.type_),
        ) && has(members, "instance"@, JsonView::Text(cap.instance)) && members.contains_key("parameters"@)
            && CapabilityParameters::read(members["parameters"@]) == Some(cap.parameters),
{
}

/// The parameters of a capability are read by their data type: options, a range,
/// fields, or, for any other data type, the document as it is.
pub proof fn parameters_in_documents(
    members: Map<Seq<char>, JsonView>,
    tag: Seq<char>,
    options: Seq<EnumOptionView>,
    range: IntRangeView,
    fields: Seq<StructFieldView>,
)
    requires
        has(members, "dataType"@, JsonView::Text(tag)),
    ensures
        ({
            let r = CapabilityParameters::read(JsonView::Object(members));
            &&& tag == "ENUM"@ ==> (r == Some(ParametersView::Enum { options }) <==> members.contains_key(
                "options"@,
            ) && decode::read_list::<EnumOption>(members["options"@]) == Some(options))
            &&& tag == "INTEGER"@ ==> (r == Some(ParametersView::Integer(range)) <==> IntRange::read(
                JsonView::Object(members),
            ) == Some(range))
            &&& tag == "STRUCT"@ ==> (r == Some(ParametersView::Struct { fields }) <==> members.contains_key(
                "fields"@,
            ) && decode::read_list::<StructField>(members["fields"@]) == Some(fields))
            &&& tag != "ENUM"@ && tag != "INTEGER"@ && tag != "STRUCT"@ ==> r == Some(
                ParametersView::Unknown(JsonView::Object(members)),
            )
        }),
{
    reveal_strlit("ENUM");
    reveal_strlit("INTEGER");
    reveal_strlit("STRUCT");
    assert("ENUM"@.len() == 4 && "INTEGER"@.len() == 7 && "STRUCT"@.len() == 6);
}

/// The parts of parameters are read from their fields. The unit of a range may be
/// missing or null.
pub proof fn parts_of_parameters(
    members: Map<Seq<char>, JsonView>,
    option: EnumOptionView,
    range: IntRangeView,
    field: StructFieldView,
)
    ensures
        EnumOption::read(JsonView::Object(members)) == Some(option) <==> has(
            members,
            "name"@,
            JsonView::Text(option.name),
        ) && has(members, "value"@, option.value),
        StructField::read(JsonView::Object(members)) == Some(field) <==> has(
            members,
            "fieldName"@,
            JsonView::Text(field.field_name),
        ) && has(members, "dataType"@, JsonView::Text(field.data_type)),
        IntRange::read(JsonView::Object(members)) == Some(range) <==> {
            &&& members.contains_key("min"@) && is_integer(members["min"@], range.min as int)
            &&& members.contains_key("max"@) && is_integer(members["max"@], range.max as int)
            &&& members.contains_key("precision"@) && is_integer(members["precision"@], range.precision as int)
            &&& match range.unit {
                Some(unit) => has(members, "unit"@, JsonView::Text(unit)),
                None => lacks(members, "unit"@),
            }
        },
{
}

/// A device of a v2 list is read from its SKU, identifier, name and capabilities.
/// A v2 state holds the capabilities that are reported.
pub proof fn v2_devices_in_documents(
    members: Map<Seq<char>, JsonView>,
    d: V2DeviceView,
    state: V2StateView,
)
    ensures
        V2Device::read(JsonView::Object(members)) == Some(d) <==> {
            &&& has(members, "sku"@, JsonView::Text(d.sku))
            &&& has(members, "device"@, JsonView::Text(d.device))
            &&& has(members, "deviceName"@, JsonView::Text(d.device_name))
            &&& members.contains_key("capabilities"@) && decode::read_list::<Capability>(
                members["capabilities"@],
            ) == Some(d.capabilities)
        },
        V2StateResponse::read(JsonView::Object(members)) == Some(state) <==> {
            &&& members.contains_key("sku"@) && members["sku"@] is Text
            &&& members.contains_key("device"@) && members["device"@] is Text
            &&& members.contains_key("capabilities"@) && decode::read_list::<CapabilityState>(
                members["capabilities"@],
            ) == Some(state.capabilities)
        },
{
}

/// A scene is read from its number, its name and its parameter; a DIY scene from
/// its number and its name.
pub proof fn scenes_in_documents(members: Map<Seq<char>, JsonView>, scene: LightSceneView, diy: DiySceneView)
    ensures
        LightScene::read(JsonView::Object(members)) == Some(scene) <==> has(
            members,
            "sceneId"@,
            JsonView::Unsigned(scene.id as u64),
        ) && has(members, "sceneName"@, JsonView::Text(scene.name)) && has(
            members,
            "sceneParamId"@,
            JsonView::Unsigned(scene.param_id as u64),
        ),
        DiyScene::read(JsonView::Object(members)) == Some(diy) <==> has(
            members,
            "sceneId"@,
            JsonView::Unsigned(diy.id as u64),
        ) && has(members, "sceneName"@, JsonView::Text(diy.name)),
{
}

/// The value of a dynamic scene is a number for a DIY scene, and two numbers for
/// a preset.
pub proof fn scene_values_in_documents(
    members: Map<Seq<char>, JsonView>,
    value: JsonView,
    param_id: u32,
    id: u32,
)
    ensures
        DynamicSceneValue::read(value) == Some(DynamicSceneValue::Diy(id)) <==> value == JsonView::Unsigned(
            id as u64,
        ),
        DynamicSceneValue::read(JsonView::Object(members)) == Some(DynamicSceneValue::Preset { param_id, id })
            <==> has(members, "paramId"@, JsonView::Unsigned(param_id as u64)) && has(
            members,
            "id"@,
            JsonView::Unsigned(id as u64),
        ),
{
}

/// A record may stand as an array of its fields in order.
pub proof fn records_as_arrays(a: JsonView, b: JsonView, c: JsonView, d: JsonView, e: JsonView)
    ensures
        Color::read(JsonView::Array(seq![a, b, c])) == Color::read(
            JsonView::Object(map!["r"@ => a, "g"@ => b, "b"@ => c]),
        ),
        Device::read(JsonView::Array(seq![a, b, c, d, e])) == Device::read(
            JsonView::Object(
                map!["id"@ => a, "model"@ => b, "name"@ => c, "alias"@ => d, "backend"@ => e],
            ),
        ),
        DeviceState::read(JsonView::Array(seq![a, b, c, d, e])) == DeviceState::read(
            JsonView::Object(
                map![
                    "on"@ => a,
                    "brightness"@ => b,
                    "color"@ => c,
                    "color_temp_kelvin"@ => d,
                    "stale"@ => e,
                ],
            ),
        ),
        V2Device::read(JsonView::Array(seq![a, b, c, d])) == V2Device::read(
            JsonView::Object(
                map!["sku"@ => a, "device"@ => b, "deviceName"@ => c, "capabilities"@ => d],
            ),
        ),
        LightScene::read(JsonView::Array(seq![a, b, c])) == LightScene::read(
            JsonView::Object(map!["sceneId"@ => a, "sceneName"@ => b, "sceneParamId"@ => c]),
        ),
        DiyScene::read(JsonView::Array(seq![a, b])) == DiyScene::read(
            JsonView::Object(map!["sceneId"@ => a, "sceneName"@ => b]),
        ),
        EnumOption::read(JsonView::Array(seq![a, b])) == EnumOption::read(
            JsonView::Object(map!["name"@ => a, "value"@ => b]),
        ),
        CapabilityState::read(JsonView::Array(seq![a, b, c])) == CapabilityState::read(
            JsonView::Object(map!["type"@ => a, "instance"@ => b, "state"@ => c]),
        ),
        Capability::read(JsonView::Array(seq![a, b, c])) == Capability::read(
            JsonView::Object(map!["type"@ => a, "instance"@ => b, "parameters"@ => c]),
        ),
{
    reveal_with_fuel(decode::zipped, 6);
}

/// An array of any other length is no color, and neither is a value that is no
/// record.
pub proof fn other_values_are_no_colors(items: Seq<JsonView>, t: Seq<char>, n: u64)
    ensures
        items.len() != 3 ==> Color::read(JsonView::Array(items)) is None,
        items.len() < 3 ==> Color::read_from(JsonView::Array(items), Source::Toml) is None,
        Color::read(JsonView::Text(t)) is None,
        Color::read(JsonView::Unsigned(n)) is None,
        Color::read(JsonView::Null) is None,
{
}

/// Where an array stands for a record in TOML, it may be longer than the record.
pub proof fn longer_arrays(a: JsonView, b: JsonView, c: JsonView, d: JsonView)
    ensures
        Color::read_from(JsonView::Array(seq![a, b, c, d]), Source::Toml) == Color::read_from(
            JsonView::Object(map!["r"@ => a, "g"@ => b, "b"@ => c]),
            Source::Toml,
        ),
        Color::read_from(JsonView::Array(seq![a, b, c]), Source::Toml) == Color::read_from(
            JsonView::Object(map!["r"@ => a, "g"@ => b, "b"@ => c]),
            Source::Toml,
        ),
        Color::read_from(JsonView::Array(seq![a, b, c, d]), Source::Json) is None,
{
    reveal_with_fuel(decode::zipped, 4);
}

/// The name of a variant may stand alone, or as the only member of an object with
/// nothing as its value.
pub proof fn variants_in_documents(name: Seq<char>, other: Seq<char>, n: u64)
    ensures
        decode::variant(JsonView::Text(name), Source::Json) == Some(name),
        decode::variant(JsonView::Text(name), Source::Toml) == Some(name),
        decode::variant(JsonView::Object(map![name => JsonView::Null]), Source::Json) == Some(name),
        decode::variant(JsonView::Object(map![name => JsonView::Null]), Source::Toml) is None,
        decode::variant(
            JsonView::Object(map![name => JsonView::Object(Map::empty())]),
            Source::Toml,
        ) == Some(name),
        decode::variant(JsonView::Object(map![name => JsonView::Array(Seq::empty())]), Source::Toml) == Some(
            name,
        ),
        name != other ==> decode::variant(
            JsonView::Object(map![name => JsonView::Null, other => JsonView::Null]),
            Source::Json,
        ) is None,
        decode::variant(JsonView::Unsigned(n), Source::Json) is None,
        decode::variant(JsonView::Null, Source::Json) is None,
{
    let json = map![name => JsonView::Null];
    assert(decode::is_variant(json, name, Source::Json));
    assert forall|t: Seq<char>| decode::is_variant(json, t, Source::Json) implies t == name by {}
    let object = map![name => JsonView::Object(Map::empty())];
    assert(decode::is_variant(object, name, Source::Toml));
    let array = map![name => JsonView::Array(Seq::empty())];
    assert(decode::is_variant(array, name, Source::Toml));
    assert forall|t: Seq<char>| !decode::is_variant(json, t, Source::Toml) by {}
    let two = map![name => JsonView::Null, other => JsonView::Null];
    if name != other {
        assert forall|t: Seq<char>| !decode::is_variant(two, t, Source::Json) by {
            assert(two.contains_key(name) && two.contains_key(other));
        }
    }
}

/// Parameters may stand as an array of their data type and their fields.
pub proof fn parameters_as_arrays(a: JsonView, b: JsonView, c: JsonView, d: JsonView, tag: Seq<char>)
    ensures
        CapabilityParameters::read(JsonView::Array(seq![JsonView::Text("ENUM"@), a]))
            == CapabilityParameters::read(
            JsonView::Object(map!["dataType"@ => JsonView::Text("ENUM"@), "options"@ => a]),
        ),
        CapabilityParameters::read(JsonView::Array(seq![JsonView::Text("STRUCT"@), a]))
            == CapabilityParameters::read(
            JsonView::Object(map!["dataType"@ => JsonView::Text("STRUCT"@), "fields"@ => a]),
        ),
        tag != "ENUM"@ && tag != "INTEGER"@ && tag != "STRUCT"@ ==> {
            &&& CapabilityParameters::read(JsonView::Array(seq![JsonView::Text(tag)])) == Some(
                ParametersView::Unknown(JsonView::Array(seq![JsonView::Text(tag)])),
            )
            &&& CapabilityParameters::read(JsonView::Array(seq![JsonView::Text(tag), a])) is None
        },
        CapabilityParameters::read(JsonView::Array(Seq::empty())) is None,
        CapabilityParameters::read(JsonView::Null) is None,
{
    reveal_strlit("ENUM");
    reveal_strlit("INTEGER");
    reveal_strlit("STRUCT");
    assert("ENUM"@.len() == 4 && "INTEGER"@.len() == 7 && "STRUCT"@.len() == 6);
    reveal_strlit("dataType");
    reveal_strlit("options");
    reveal_strlit("fields");
    assert("dataType"@.len() == 8 && "options"@.len() == 7 && "fields"@.len() == 6);
    reveal_with_fuel(decode::zipped, 3);
    assert(seq![JsonView::Text("ENUM"@), a].skip(1) =~= seq![a]);
    assert(seq![JsonView::Text("STRUCT"@), a].skip(1) =~= seq![a]);
    assert(seq![JsonView::Text(tag)].skip(1) =~= Seq::empty());
    assert(seq![JsonView::Text(tag), a].skip(1) =~= seq![a]);
}

/// An integer is written as a number without a sign, unless it is below zero.
pub proof fn integers_are_written(n: i64, b: bool, c: u8, d: u32)
    ensures
        n >= 0 ==> n.written() == JsonView::Unsigned(n as u64),
        n < 0 ==> n.written() == JsonView::Negative(n),
        b.written() == JsonView::Bool(b),
        c.written() == JsonView::Unsigned(c as u64),
        d.written() == JsonView::Unsigned(d as u64),
        None::<u32>.written() == JsonView::Null,
        Some(d).written() == JsonView::Unsigned(d as u64),
{
}

} // verus!
