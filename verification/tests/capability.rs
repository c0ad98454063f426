//! Capabilities in JSON documents.
use govee::capability::{
    Capability, CapabilityParameters, CapabilityState, DynamicSceneValue, StateValue,
};
use govee::decode::{FromJson, ToJson};
use govee::json::Json;

fn json(text: &str) -> Json {
    Json::parse(text.as_bytes()).unwrap()
}

#[test]
fn capability_parameters_enum_variant() {
    let json =
        json(r#"{"dataType":"ENUM","options":[{"name":"on","value":1},{"name":"off","value":0}]}"#);
    let p = CapabilityParameters::from_json(&json).unwrap();
    match p {
        CapabilityParameters::Enum { options } => {
            assert_eq!(options.len(), 2);
            assert_eq!(options[0].name, "on");
            assert_eq!(options[0].value, Json::Unsigned(1));
        }
        other => panic!("expected Enum, got {other:?}"),
    }
}

#[test]
fn capability_parameters_integer_variant() {
    let json = json(r#"{"dataType":"INTEGER","min":0,"max":100,"precision":1,"unit":"percent"}"#);
    let p = CapabilityParameters::from_json(&json).unwrap();
    match p {
        CapabilityParameters::Integer(range) => {
            assert_eq!(range.min, 0);
            assert_eq!(range.max, 100);
            assert_eq!(range.precision, 1);
            assert_eq!(range.unit.as_deref(), Some("percent"));
        }
        other => panic!("expected Integer, got {other:?}"),
    }
}

#[test]
fn capability_parameters_struct_variant() {
    let json = json(
        r#"{"dataType":"STRUCT","fields":[{"fieldName":"colorTemInKelvin","dataType":"INTEGER"}]}"#,
    );
    let p = CapabilityParameters::from_json(&json).unwrap();
    match p {
        CapabilityParameters::Struct { fields } => {
            assert_eq!(fields.len(), 1);
            assert_eq!(fields[0].field_name, "colorTemInKelvin");
            assert_eq!(fields[0].data_type, "INTEGER");
        }
        other => panic!("expected Struct, got {other:?}"),
    }
}

#[test]
fn capability_parameters_unknown_variant() {
    let json = json(r#"{"dataType":"FUTURE_TYPE","someField":42}"#);
    let p = CapabilityParameters::from_json(&json).unwrap();
    match p {
        CapabilityParameters::Unknown(v) => assert_eq!(v.get_u64("someField"), Some(42)),
        other => panic!("expected Unknown, got {other:?}"),
    }
}

#[test]
fn capability_parameters_without_their_members() {
    for text in [
        r#"{"options":[]}"#,
        r#"{"dataType":5}"#,
        r#"{"dataType":"ENUM"}"#,
        r#"{"dataType":"ENUM","options":[{"name":"on"}]}"#,
        r#"{"dataType":"INTEGER","min":0,"max":100}"#,
        r#"{"dataType":"STRUCT","fields":[{"fieldName":"a"}]}"#,
        "[]",
    ] {
        assert!(CapabilityParameters::from_json(&json(text)).is_none());
    }
    let range = CapabilityParameters::from_json(&json(
        r#"{"dataType":"INTEGER","min":-5,"max":9223372036854775807,"precision":0}"#,
    ));
    match range.unwrap() {
        CapabilityParameters::Integer(range) => {
            assert_eq!(range.min, -5);
            assert_eq!(range.max, i64::MAX);
            assert!(range.unit.is_none());
        }
        other => panic!("expected Integer, got {other:?}"),
    }
}

#[test]
fn capability_needs_all_members() {
    let cap = Capability::from_json(&json(
        r#"{"type":"t","instance":"i","parameters":{"dataType":"X"}}"#,
    ))
    .unwrap();
    assert_eq!(cap.type_, "t");
    assert_eq!(cap.instance, "i");
    assert!(Capability::from_json(&json(r#"{"type":"t","instance":"i"}"#)).is_none());
}

#[test]
fn dynamic_scene_value_preset() {
    let json = json(r#"{"paramId":1,"id":2}"#);
    let v = DynamicSceneValue::from_json(&json).unwrap();
    match v {
        DynamicSceneValue::Preset { param_id, id } => {
            assert_eq!(param_id, 1);
            assert_eq!(id, 2);
        }
        other => panic!("expected Preset, got {other:?}"),
    }
}

#[test]
fn dynamic_scene_value_diy() {
    let json = json("42");
    let v = DynamicSceneValue::from_json(&json).unwrap();
    match v {
        DynamicSceneValue::Diy(n) => assert_eq!(n, 42),
        other => panic!("expected Diy, got {other:?}"),
    }
}

#[test]
fn dynamic_scene_value_reads_back_as_written() {
    for v in [
        DynamicSceneValue::Preset { param_id: 7, id: 8 },
        DynamicSceneValue::Diy(9),
    ] {
        assert_eq!(DynamicSceneValue::from_json(&v.to_json()), Some(v));
    }
    assert_eq!(DynamicSceneValue::from_json(&json("4294967296")), None);
    assert_eq!(DynamicSceneValue::from_json(&json(r#"{"paramId":1}"#)), None);
}

#[test]
fn capability_state_round_trip() {
    let original = CapabilityState {
        type_: "devices.capabilities.on_off".to_string(),
        instance: "powerSwitch".to_string(),
        state: StateValue {
            value: Json::Unsigned(1),
        },
    };
    let bytes = original.to_json().to_bytes().unwrap();
    let deserialized = CapabilityState::from_json(&Json::parse(&bytes).unwrap()).unwrap();
    assert_eq!(deserialized.type_, original.type_);
    assert_eq!(deserialized.instance, original.instance);
    assert_eq!(deserialized.state.value, original.state.value);
}

#[test]
fn capabilities_read_back_as_written() {
    for text in [
        r#"{"type":"t","instance":"i","parameters":{"dataType":"ENUM","options":[{"name":"on","value":1},{"name":"off","value":{"a":[]}}]}}"#,
        r#"{"type":"t","instance":"i","parameters":{"dataType":"INTEGER","min":-1,"max":100,"precision":1,"unit":"percent"}}"#,
        r#"{"type":"t","instance":"i","parameters":{"dataType":"INTEGER","min":0,"max":100,"precision":1,"unit":null}}"#,
        r#"{"type":"t","instance":"i","parameters":{"dataType":"STRUCT","fields":[{"fieldName":"f","dataType":"INTEGER"}]}}"#,
        r#"{"type":"t","instance":"i","parameters":{"dataType":"FUTURE","x":1}}"#,
    ] {
        let read = Capability::from_json(&json(text)).unwrap();
        let bytes = read.to_json().to_bytes().unwrap();
        assert_eq!(Json::parse(&bytes).unwrap(), json(text));
    }
}
