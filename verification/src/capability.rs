//! What a device can do, as the v2 API describes it.
use vstd::prelude::*;

use crate::decode;
use crate::decode::array_record;
use crate::decode::list_member;
use crate::decode::member;
use crate::decode::optional_member;
use crate::decode::FromJson;
use crate::decode::Source;
use crate::decode::ToJson;
use crate::json::Json;
use crate::json::JsonView;
use crate::text::same;
use crate::types;

verus! {

/// Top-level capability entry returned by the Govee v2 API.
#[derive(Debug, Clone)]
pub struct Capability {
    pub type_: String,
    pub instance: String,
    pub parameters: CapabilityParameters,
}

/// What a capability is.
pub struct CapabilityView {
    pub type_: Seq<char>,
    pub instance: Seq<char>,
    pub parameters: ParametersView,
}

/// The typed parameters for a capability, tagged by `dataType`.
#[derive(Debug, Clone)]
pub enum CapabilityParameters {
    Enum { options: Vec<EnumOption> },
    Integer(IntRange),
    Struct { fields: Vec<StructField> },
    /// Forward-compatibility catch-all for unknown `dataType` values, with all
    /// that was there.
    Unknown(Json),
}

/// What the parameters of a capability are.
pub enum ParametersView {
    Enum { options: Seq<EnumOptionView> },
    Integer(IntRangeView),
    Struct { fields: Seq<StructFieldView> },
    Unknown(JsonView),
}

/// A single option in an enumerated capability.
#[derive(Debug, Clone)]
pub struct EnumOption {
    pub name: String,
    pub value: Json,
}

/// What an option is.
pub struct EnumOptionView {
    pub name: Seq<char>,
    pub value: JsonView,
}

/// The range descriptor for an integer capability.
#[derive(Debug, Clone)]
pub struct IntRange {
    pub min: i64,
    pub max: i64,
    pub precision: i64,
    pub unit: Option<String>,
}

/// What a range is.
pub struct IntRangeView {
    pub min: i64,
    pub max: i64,
    pub precision: i64,
    pub unit: Option<Seq<char>>,
}

/// A single field in a structured capability.
#[derive(Debug, Clone)]
pub struct StructField {
    pub field_name: String,
    pub data_type: String,
}

/// What a field is.
pub struct StructFieldView {
    pub field_name: Seq<char>,
    pub data_type: Seq<char>,
}

/// The current state of a single capability instance.
#[derive(Debug, Clone)]
pub struct CapabilityState {
    pub type_: String,
    pub instance: String,
    pub state: StateValue,
}

/// What the state of a capability is.
pub struct CapabilityStateView {
    pub type_: Seq<char>,
    pub instance: Seq<char>,
    pub value: JsonView,
}

/// The value wrapper inside a `CapabilityState`.
#[derive(Debug, Clone)]
pub struct StateValue {
    pub value: Json,
}

/// Control value for issuing commands to a device.
#[derive(Debug, Clone)]
pub enum CapabilityValue {
    OnOff(u8),
    Rgb(u32),
    ColorTempK(u32),
    Brightness(u8),
    WorkMode { work_mode: u32, mode_value: Option<u32> },
    DynamicScene(DynamicSceneValue),
    DiyScene(u32),
    SegmentColor { segments: Vec<u8>, rgb: u32 },
    SegmentBrightness { segments: Vec<u8>, brightness: u8 },
    Raw(Json),
}

/// A dynamic scene identifier, which may be either a preset or a DIY index.
#[derive(Debug, Clone, Copy, PartialEq, Eq, Structural)]
pub enum DynamicSceneValue {
    /// A preset scene identified by `paramId` and `id`.
    Preset { param_id: u32, id: u32 },
    /// A DIY scene identified by a plain integer index.
    Diy(u32),
}

impl View for EnumOption {
    type V = EnumOptionView;

    open spec fn view(&self) -> EnumOptionView {
        EnumOptionView { name: self.name@, value: self.value@ }
    }
}

impl View for IntRange {
    type V = IntRangeView;

    open spec fn view(&self) -> IntRangeView {
        IntRangeView {
            min: self.min,
            max: self.max,
            precision: self.precision,
            unit: types::optional_text(self.unit),
        }
    }
}

impl View for StructField {
    type V = StructFieldView;

    open spec fn view(&self) -> StructFieldView {
        StructFieldView { field_name: self.field_name@, data_type: self.data_type@ }
    }
}

impl View for CapabilityParameters {
    type V = ParametersView;

    open spec fn view(&self) -> ParametersView {
        match self {
            CapabilityParameters::Enum { options } => ParametersView::Enum {
                options: decode::all_seen(options@),
            },
            CapabilityParameters::Integer(range) => ParametersView::Integer(range@),
            CapabilityParameters::Struct { fields } => ParametersView::Struct {
                fields: decode::all_seen(fields@),
            },
            CapabilityParameters::Unknown(value) => ParametersView::Unknown(value@),
        }
    }
}

impl View for Capability {
    type V = CapabilityView;

    open spec fn view(&self) -> CapabilityView {
        CapabilityView {
            type_: self.type_@,
            instance: self.instance@,
            parameters: self.parameters@,
        }
    }
}

impl View for StateValue {
    type V = JsonView;

    open spec fn view(&self) -> JsonView {
        self.value@
    }
}

impl View for CapabilityState {
    type V = CapabilityStateView;

    open spec fn view(&self) -> CapabilityStateView {
        CapabilityStateView {
            type_: self.type_@,
            instance: self.instance@,
            value: self.state.value@,
        }
    }
}

impl View for DynamicSceneValue {
    type V = DynamicSceneValue;

    open spec fn view(&self) -> DynamicSceneValue {
        *self
    }
}

impl FromJson for EnumOption {
    open spec fn read(value: JsonView) -> Option<EnumOptionView> {
        let value = decode::record(value, seq!["name", "value"], Source::Json);
        match (
            decode::read_member::<String>(value, "name"@),
            decode::read_member::<Json>(value, "value"@),
        ) {
            (Some(name), Some(value)) => Some(EnumOptionView { name, value }),
            _ => None,
        }
    }

    fn from_json(value: &Json) -> (r: Option<EnumOption>) {
        let object = array_record(value, &["name", "value"], Source::Json);
        let value = match &object {
            Some(object) => object,
            None => value,
        };
        match (member::<String>(value, "name"), member::<Json>(value, "value")) {
            (Some(name), Some(value)) => Some(EnumOption { name, value }),
            _ => None,
        }
    }
}

impl FromJson for IntRange {
    open spec fn read(value: JsonView) -> Option<IntRangeView> {
        let value = decode::record(value, seq!["min", "max", "precision", "unit"], Source::Json);
        match (
            decode::read_member::<i64>(value, "min"@),
            decode::read_member::<i64>(value, "max"@),
            decode::read_member::<i64>(value, "precision"@),
            decode::read_optional::<String>(value, "unit"@),
        ) {
            (Some(min), Some(max), Some(precision), Some(unit)) => Some(
                IntRangeView { min, max, precision, unit },
            ),
            _ => None,
        }
    }

    fn from_json(value: &Json) -> (r: Option<IntRange>) {
        let object = array_record(value, &["min", "max", "precision", "unit"], Source::Json);
        let value = match &object {
            Some(object) => object,
            None => value,
        };
        match (
            member::<i64>(value, "min"),
            member::<i64>(value, "max"),
            member::<i64>(value, "precision"),
            optional_member::<String>(value, "unit"),
        ) {
            (Some(min), Some(max), Some(precision), Some(unit)) => Some(
                IntRange { min, max, precision, unit },
            ),
            _ => None,
        }
    }
}

impl FromJson for StructField {
    open spec fn read(value: JsonView) -> Option<StructFieldView> {
        let value = decode::record(value, seq!["fieldName", "dataType"], Source::Json);
        match (
            decode::read_member::<String>(value, "fieldName"@),
            decode::read_member::<String>(value, "dataType"@),
        ) {
            (Some(field_name), Some(data_type)) => Some(StructFieldView { field_name, data_type }),
            _ => None,
        }
    }

    fn from_json(value: &Json) -> (r: Option<StructField>) {
        let object = array_record(value, &["fieldName", "dataType"], Source::Json);
        let value = match &object {
            Some(object) => object,
            None => value,
        };
        match (member::<String>(value, "fieldName"), member::<String>(value, "dataType")) {
            (Some(field_name), Some(data_type)) => Some(StructField { field_name, data_type }),
            _ => None,
        }
    }
}

/// The `dataType` of parameters, and where their other fields stand: the object
/// itself, or the rest of an array whose first item is the `dataType`.
pub open spec fn tagged(value: JsonView) -> Option<(Seq<char>, JsonView)> {
    match value {
        JsonView::Array(items) => if items.len() > 0 {
            match items[0].as_text() {
                Some(tag) => Some((tag, JsonView::Array(items.skip(1)))),
                None => None,
            }
        } else {
            None
        },
        _ => match value.get_text("dataType"@) {
            Some(tag) => Some((tag, value)),
            None => None,
        },
    }
}

/// The `dataType` and the other fields of parameters that stand as an array;
/// nothing for any other value.
fn tagged_array(value: &Json) -> (r: Option<(String, Json)>)
    ensures
        match r {
            Some((tag, rest)) => tagged(value@) == Some((tag@, rest@)),
            None => value@ is Array ==> tagged(value@) is None,
        },
{
    let items = match value {
        Json::Array(items) => items,
        _ => return None,
    };
    proof {
        reveal_with_fuel(<Json as View>::view, 2);
    }
    let ghost views = value@->Array_0;
    assert(views.len() == items@.len());
    assert forall|k: int| 0 <= k < items@.len() implies #[trigger] views[k] == items@[k]@ by {}
    if items.len() == 0 {
        return None;
    }
    let tag = match items[0].as_str() {
        Some(t) => t.to_string(),
        None => return None,
    };
    let mut rest: Vec<Json> = Vec::new();
    for i in 1..items.len()
        invariant
            1 <= i,
            rest@.len() == i - 1,
            forall|k: int| 0 <= k < i - 1 ==> (#[trigger] rest@[k])@ == items@[k + 1]@,
    {
        rest.push(items[i].clone());
    }
    let rest = Json::Array(rest);
    assert(rest@->Array_0 =~= views.skip(1));
    Some((tag, rest))
}

impl CapabilityParameters {
    /// What parameters of this `dataType`, with these other fields, are.
    pub open spec fn read_tagged(value: JsonView, tag: Seq<char>, fields: JsonView) -> Option<
        ParametersView,
    > {
        if tag == "ENUM"@ {
            match decode::read_list_member::<EnumOption>(
                decode::record(fields, seq!["options"], Source::Json),
                "options"@,
            ) {
                Some(options) => Some(ParametersView::Enum { options }),
                None => None,
            }
        } else if tag == "INTEGER"@ {
            match IntRange::read(fields) {
                Some(range) => Some(ParametersView::Integer(range)),
                None => None,
            }
        } else if tag == "STRUCT"@ {
            match decode::read_list_member::<StructField>(
                decode::record(fields, seq!["fields"], Source::Json),
                "fields"@,
            ) {
                Some(fields) => Some(ParametersView::Struct { fields }),
                None => None,
            }
        } else {
            match fields {
                JsonView::Array(items) if items.len() > 0 => None,
                _ => Some(ParametersView::Unknown(value)),
            }
        }
    }

    /// Reads parameters of this `dataType` and with these other fields.
    fn from_tagged(value: &Json, tag: &str, fields: &Json) -> (r: Option<CapabilityParameters>)
        ensures
            decode::seen(r) == CapabilityParameters::read_tagged(value@, tag@, fields@),
    {
        if same(tag, "ENUM") {
            let object = array_record(fields, &["options"], Source::Json);
            let fields = match &object {
                Some(object) => object,
                None => fields,
            };
            match list_member::<EnumOption>(fields, "options") {
                Some(options) => Some(CapabilityParameters::Enum { options }),
                None => None,
            }
        } else if same(tag, "INTEGER") {
            match IntRange::from_json(fields) {
                Some(range) => Some(CapabilityParameters::Integer(range)),
                None => None,
            }
        } else if same(tag, "STRUCT") {
            let object = array_record(fields, &["fields"], Source::Json);
            let fields = match &object {
                Some(object) => object,
                None => fields,
            };
            match list_member::<StructField>(fields, "fields") {
                Some(fields) => Some(CapabilityParameters::Struct { fields }),
                None => None,
            }
        } else {
            proof {
                reveal_with_fuel(<Json as View>::view, 2);
            }
            match fields {
                Json::Array(items) => if items.len() > 0 {
                    return None;
                },
                _ => {},
            }
            Some(CapabilityParameters::Unknown(value.clone()))
        }
    }
}

impl FromJson for CapabilityParameters {
    open spec fn read(value: JsonView) -> Option<ParametersView> {
        match tagged(value) {
            Some((tag, fields)) => CapabilityParameters::read_tagged(value, tag, fields),
            None => None,
        }
    }

    fn from_json(value: &Json) -> (r: Option<CapabilityParameters>) {
        match tagged_array(value) {
            Some((tag, rest)) => CapabilityParameters::from_tagged(value, tag.as_str(), &rest),
            None => match value.get_str("dataType") {
                Some(tag) => CapabilityParameters::from_tagged(value, tag, value),
                None => None,
            },
        }
    }
}

impl FromJson for Capability {
    open spec fn read(value: JsonView) -> Option<CapabilityView> {
        let value = decode::record(value, seq!["type", "instance", "parameters"], Source::Json);
        match (
            decode::read_member::<String>(value, "type"@),
            decode::read_member::<String>(value, "instance"@),
            decode::read_member::<CapabilityParameters>(value, "parameters"@),
        ) {
            (Some(type_), Some(instance), Some(parameters)) => Some(
                CapabilityView { type_, instance, parameters },
            ),
            _ => None,
        }
    }

    fn from_json(value: &Json) -> (r: Option<Capability>) {
        let object = array_record(value, &["type", "instance", "parameters"], Source::Json);
        let value = match &object {
            Some(object) => object,
            None => value,
        };
        match (
            member::<String>(value, "type"),
            member::<String>(value, "instance"),
            member::<CapabilityParameters>(value, "parameters"),
        ) {
            (Some(type_), Some(instance), Some(parameters)) => Some(
                Capability { type_, instance, parameters },
            ),
            _ => None,
        }
    }
}

impl FromJson for StateValue {
    open spec fn read(value: JsonView) -> Option<JsonView> {
        decode::record(value, seq!["value"], Source::Json).get("value"@)
    }

    fn from_json(value: &Json) -> (r: Option<StateValue>) {
        let object = array_record(value, &["value"], Source::Json);
        let value = match &object {
            Some(object) => object,
            None => value,
        };
        match member::<Json>(value, "value") {
            Some(value) => Some(StateValue { value }),
            None => None,
        }
    }
}

impl FromJson for CapabilityState {
    open spec fn read(value: JsonView) -> Option<CapabilityStateView> {
        let value = decode::record(value, seq!["type", "instance", "state"], Source::Json);
        match (
            decode::read_member::<String>(value, "type"@),
            decode::read_member::<String>(value, "instance"@),
            value.get("state"@),
        ) {
            (Some(type_), Some(instance), Some(state)) => match StateValue::read(state) {
                Some(value) => Some(CapabilityStateView { type_, instance, value }),
                None => None,
            },
            _ => None,
        }
    }

    fn from_json(value: &Json) -> (r: Option<CapabilityState>) {
        let object = array_record(value, &["type", "instance", "state"], Source::Json);
        let value = match &object {
            Some(object) => object,
            None => value,
        };
        match (
            member::<String>(value, "type"),
            member::<String>(value, "instance"),
            value.get("state"),
        ) {
            (Some(type_), Some(instance), Some(state)) => match StateValue::from_json(state) {
                Some(state) => Some(CapabilityState { type_, instance, state }),
                None => None,
            },
            _ => None,
        }
    }
}

impl ToJson for CapabilityState {
    open spec fn written(&self) -> JsonView {
        JsonView::Object(
            map![
                "type"@ => JsonView::Text(self.type_@),
                "instance"@ => JsonView::Text(self.instance@),
                "state"@ => JsonView::Object(map!["value"@ => self.state.value@]),
            ],
        )
    }

    fn to_json(&self) -> (r: Json) {
        Json::empty_object().with("type", Json::text(self.type_.as_str())).with(
            "instance",
            Json::text(self.instance.as_str()),
        ).with("state", Json::empty_object().with("value", self.state.value.clone()))
    }
}

impl FromJson for DynamicSceneValue {
    open spec fn read(value: JsonView) -> Option<DynamicSceneValue> {
        match (
            decode::read_member::<u32>(value, "paramId"@),
            decode::read_member::<u32>(value, "id"@),
        ) {
            (Some(param_id), Some(id)) => Some(DynamicSceneValue::Preset { param_id, id }),
            _ => match u32::read(value) {
                Some(n) => Some(DynamicSceneValue::Diy(n)),
                None => None,
            },
        }
    }

    fn from_json(value: &Json) -> (r: Option<DynamicSceneValue>) {
        match (member::<u32>(value, "paramId"), member::<u32>(value, "id")) {
            (Some(param_id), Some(id)) => Some(DynamicSceneValue::Preset { param_id, id }),
            _ => match u32::from_json(value) {
                Some(n) => Some(DynamicSceneValue::Diy(n)),
                None => None,
            },
        }
    }
}

impl ToJson for DynamicSceneValue {
    open spec fn written(&self) -> JsonView {
        match self {
            DynamicSceneValue::Preset { param_id, id } => JsonView::Object(
                map![
                    "paramId"@ => JsonView::Unsigned(*param_id as u64),
                    "id"@ => JsonView::Unsigned(*id as u64),
                ],
            ),
            DynamicSceneValue::Diy(n) => JsonView::Unsigned(*n as u64),
        }
    }

    fn to_json(&self) -> (r: Json) {
        match self {
            DynamicSceneValue::Preset { param_id, id } => Json::empty_object().with(
                "paramId",
                Json::Unsigned(*param_id as u64),
            ).with("id", Json::Unsigned(*id as u64)),
            DynamicSceneValue::Diy(n) => Json::Unsigned(*n as u64),
        }
    }
}

impl ToJson for EnumOption {
    open spec fn written(&self) -> JsonView {
        JsonView::Object(map!["name"@ => self.name.written(), "value"@ => self.value@])
    }

    fn to_json(&self) -> (r: Json) {
        Json::empty_object().with("name", self.name.to_json()).with("value", self.value.clone())
    }
}

impl ToJson for StructField {
    open spec fn written(&self) -> JsonView {
        JsonView::Object(
            map!["fieldName"@ => self.field_name.written(), "dataType"@ => self.data_type.written()],
        )
    }

    fn to_json(&self) -> (r: Json) {
        Json::empty_object().with("fieldName", self.field_name.to_json()).with(
            "dataType",
            self.data_type.to_json(),
        )
    }
}

impl ToJson for IntRange {
    open spec fn written(&self) -> JsonView {
        JsonView::Object(
            map![
                "min"@ => self.min.written(),
                "max"@ => self.max.written(),
                "precision"@ => self.precision.written(),
                "unit"@ => self.unit.written(),
            ],
        )
    }

    fn to_json(&self) -> (r: Json) {
        Json::empty_object().with("min", self.min.to_json()).with("max", self.max.to_json()).with(
            "precision",
            self.precision.to_json(),
        ).with("unit", self.unit.to_json())
    }
}

impl ToJson for CapabilityParameters {
    open spec fn written(&self) -> JsonView {
        match self {
            CapabilityParameters::Enum { options } => JsonView::Object(
                map!["dataType"@ => JsonView::Text("ENUM"@), "options"@ => options.written()],
            ),
            CapabilityParameters::Integer(range) => JsonView::Object(
                range.written()->Object_0.insert("dataType"@, JsonView::Text("INTEGER"@)),
            ),
            CapabilityParameters::Struct { fields } => JsonView::Object(
                map!["dataType"@ => JsonView::Text("STRUCT"@), "fields"@ => fields.written()],
            ),
            CapabilityParameters::Unknown(value) => value@,
        }
    }

    fn to_json(&self) -> (r: Json) {
        match self {
            CapabilityParameters::Enum { options } => Json::empty_object().with(
                "dataType",
                Json::text("ENUM"),
            ).with("options", options.to_json()),
            CapabilityParameters::Integer(range) => range.to_json().with(
                "dataType",
                Json::text("INTEGER"),
            ),
            CapabilityParameters::Struct { fields } => Json::empty_object().with(
                "dataType",
                Json::text("STRUCT"),
            ).with("fields", fields.to_json()),
            CapabilityParameters::Unknown(value) => value.clone(),
        }
    }
}

impl ToJson for Capability {
    open spec fn written(&self) -> JsonView {
        JsonView::Object(
            map![
                "type"@ => self.type_.written(),
                "instance"@ => self.instance.written(),
                "parameters"@ => self.parameters.written(),
            ],
        )
    }

    fn to_json(&self) -> (r: Json) {
        Json::empty_object().with("type", self.type_.to_json()).with(
            "instance",
            self.instance.to_json(),
        ).with("parameters", self.parameters.to_json())
    }
}

/// Whether the parameters are what their tag says: those of an unknown type
/// have a tag, and none that is known.
pub open spec fn tag_fits(parameters: CapabilityParameters) -> bool {
    parameters matches CapabilityParameters::Unknown(value) ==> match value@.get_text("dataType"@) {
        Some(tag) => tag != "ENUM"@ && tag != "INTEGER"@ && tag != "STRUCT"@,
        None => false,
    }
}

proof fn enum_option_round_trip(option: EnumOption)
    ensures
        EnumOption::read(option.written()) == Some(option@),
{
    reveal_strlit("name");
    reveal_strlit("value");
    assert("name"@.len() == 4 && "value"@.len() == 5);
}

proof fn struct_field_round_trip(field: StructField)
    ensures
        StructField::read(field.written()) == Some(field@),
{
    reveal_strlit("fieldName");
    reveal_strlit("dataType");
    assert("fieldName"@.len() == 9 && "dataType"@.len() == 8);
}

/// The parameters of a capability are read back as they were written.
pub proof fn parameters_round_trip(parameters: CapabilityParameters)
    requires
        tag_fits(parameters),
    ensures
        CapabilityParameters::read(parameters.written()) == Some(parameters@),
{
    reveal_strlit("ENUM");
    reveal_strlit("INTEGER");
    reveal_strlit("STRUCT");
    reveal_strlit("dataType");
    reveal_strlit("options");
    reveal_strlit("fields");
    reveal_strlit("min");
    reveal_strlit("max");
    reveal_strlit("precision");
    reveal_strlit("unit");
    assert("ENUM"@.len() == 4 && "INTEGER"@.len() == 7 && "STRUCT"@.len() == 6);
    assert("dataType"@.len() == 8 && "options"@.len() == 7 && "fields"@.len() == 6);
    assert("min"@.len() == 3 && "max"@.len() == 3 && "precision"@.len() == 9 && "unit"@.len() == 4);
    assert("min"@[1] == 'i' && "max"@[1] == 'a');
    match parameters {
        CapabilityParameters::Enum { options } => {
            assert forall|i: int| 0 <= i < options@.len() implies EnumOption::read(
                (#[trigger] options@[i]).written(),
            ) == Some(options@[i]@) by {
                enum_option_round_trip(options@[i]);
            }
            decode::list_round_trip(options@);
        },
        CapabilityParameters::Struct { fields } => {
            assert forall|i: int| 0 <= i < fields@.len() implies StructField::read(
                (#[trigger] fields@[i]).written(),
            ) == Some(fields@[i]@) by {
                struct_field_round_trip(fields@[i]);
            }
            decode::list_round_trip(fields@);
        },
        _ => {},
    }
}

/// A capability is read back as it was written.
pub proof fn capability_round_trip(capability: Capability)
    requires
        tag_fits(capability.parameters),
    ensures
        Capability::read(capability.written()) == Some(capability@),
{
    reveal_strlit("type");
    reveal_strlit("instance");
    reveal_strlit("parameters");
    assert("type"@.len() == 4 && "instance"@.len() == 8 && "parameters"@.len() == 10);
    parameters_round_trip(capability.parameters);
}

/// The state of a capability is read back as it was written.
pub proof fn capability_state_round_trip(state: CapabilityState)
    ensures
        CapabilityState::read(state.written()) == Some(state@),
{
    reveal_strlit("type");
    reveal_strlit("instance");
    reveal_strlit("state");
    assert("type"@.len() == 4 && "instance"@.len() == 8 && "state"@.len() == 5);
}

/// A dynamic scene is read back as it was written.
pub proof fn dynamic_scene_round_trip(scene: DynamicSceneValue)
    ensures
        DynamicSceneValue::read(scene.written()) == Some(scene),
{
    reveal_strlit("paramId");
    reveal_strlit("id");
    assert("paramId"@.len() == 7 && "id"@.len() == 2);
}

} // verus!
