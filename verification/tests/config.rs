//! Configuration.
use govee::config::{BackendPreference, Config, SceneConfig, NO_CONFIG};
use govee::decode::{FromJson, ToJson};
use govee::error::GoveeError;
use govee::json::Json;
use govee::names::NameMap;
use govee::types::Color;

fn message(result: Result<Config, GoveeError>) -> String {
    result.err().unwrap().to_string()
}

#[test]
fn config_default() {
    let cfg = Config::default();
    assert!(cfg.api_key().is_none());
    assert_eq!(cfg.backend(), BackendPreference::Auto);
    assert_eq!(cfg.discovery_interval_secs(), 60);
    assert!(cfg.aliases().is_empty());
    assert!(cfg.groups().is_empty());
    assert!(cfg.scenes().is_empty());
    assert!(cfg.validate().is_ok());
    assert_eq!(BackendPreference::default(), BackendPreference::Auto);
}

#[test]
fn config_new_valid() {
    let cfg = Config::new(
        Some("key".into()),
        BackendPreference::CloudOnly,
        30,
        NameMap::new(),
        NameMap::new(),
        NameMap::new(),
    )
    .ok()
    .unwrap();
    assert_eq!(cfg.api_key(), Some("key"));
    assert_eq!(cfg.discovery_interval_secs(), 30);
}

#[test]
fn config_new_invalid_interval() {
    let result = Config::new(
        None,
        BackendPreference::Auto,
        2,
        NameMap::new(),
        NameMap::new(),
        NameMap::new(),
    );
    assert!(result.is_err());
    let err = result.err().unwrap();
    assert!(matches!(err, GoveeError::InvalidConfig(_)));
    assert!(err.to_string().contains("must be >= 5s"));
    assert_eq!(
        err.to_string(),
        "invalid config: discovery_interval_secs must be >= 5s, got 2s"
    );
}

#[test]
fn config_parse_full() {
    let toml = r#"
        api_key = "gv-test-key-123"
        backend = "cloud"
        discovery_interval_secs = 30

        [aliases]
        bedroom = "H6078 Bedroom Light"
        kitchen = "H6076 Kitchen Strip"

        [groups]
        upstairs = ["bedroom"]
        all = ["bedroom", "kitchen"]
    "#;

    let cfg = Config::parse(toml).ok().unwrap();
    assert_eq!(cfg.api_key(), Some("gv-test-key-123"));
    assert_eq!(cfg.backend(), BackendPreference::CloudOnly);
    assert_eq!(cfg.discovery_interval_secs(), 30);
    assert_eq!(cfg.aliases().len(), 2);
    assert_eq!(cfg.aliases().get("bedroom").unwrap(), "H6078 Bedroom Light");
    assert_eq!(*cfg.groups().get("upstairs").unwrap(), vec!["bedroom"]);
    assert_eq!(*cfg.groups().get("all").unwrap(), vec!["bedroom", "kitchen"]);
}

#[test]
fn config_parse_minimal() {
    let toml = "";
    let cfg = Config::parse(toml).ok().unwrap();
    assert!(cfg.api_key().is_none());
    assert_eq!(cfg.backend(), BackendPreference::Auto);
    assert_eq!(cfg.discovery_interval_secs(), 60);
}

#[test]
fn config_parse_local_only() {
    let toml = r#"backend = "local""#;
    let cfg = Config::parse(toml).ok().unwrap();
    assert_eq!(cfg.backend(), BackendPreference::LocalOnly);
}

#[test]
fn config_parse_backend_names() {
    let backend = |name: &str| {
        Config::parse(&format!("backend = \"{name}\""))
            .ok()
            .map(|c| c.backend())
    };
    assert_eq!(backend("auto"), Some(BackendPreference::Auto));
    assert_eq!(backend("cloudonly"), Some(BackendPreference::CloudOnly));
    assert_eq!(backend("localonly"), Some(BackendPreference::LocalOnly));
    assert_eq!(backend("Auto"), None);
    assert_eq!(backend("bluetooth"), None);
}

#[test]
fn config_parse_invalid_toml() {
    let result = Config::parse("{{invalid");
    assert!(result.is_err());
    let text = toml::from_str::<toml::Table>("{{invalid")
        .unwrap_err()
        .to_string();
    match result.err().unwrap() {
        GoveeError::Config(t) => assert_eq!(t, text),
        other => panic!("unexpected {other:?}"),
    }
}

#[test]
fn config_parse_wrong_shape() {
    for toml in [
        "api_key = 5",
        "discovery_interval_secs = -1",
        "discovery_interval_secs = 6.0",
        "aliases = 5",
        "[aliases]\na = 5",
        "[groups]\na = \"b\"",
        "[scenes.x]\ncolor_temp = 4000",
        "[scenes.x]\nbrightness = 256\ncolor_temp = 4000",
    ] {
        match Config::parse(toml).err().unwrap() {
            GoveeError::Config(t) => assert_eq!(t, NO_CONFIG),
            other => panic!("unexpected {other:?}"),
        }
    }
    assert!(Config::parse("unknown = true").is_ok());
}

#[test]
fn config_debug_redacts_api_key() {
    let cfg = Config::new(
        Some("secret-key-12345".into()),
        BackendPreference::Auto,
        60,
        NameMap::new(),
        NameMap::new(),
        NameMap::new(),
    )
    .ok()
    .unwrap();
    let debug = cfg.debug_text();
    assert!(!debug.contains("secret-key-12345"));
    assert!(debug.contains("[REDACTED]"));
}

#[test]
fn config_debug_shows_none_when_no_key() {
    let cfg = Config::default();
    let debug = cfg.debug_text();
    assert!(debug.contains("None"));
    assert_eq!(
        debug,
        "Config { api_key: None, backend: Auto, discovery_interval_secs: 60, aliases: {}, \
         groups: {}, scenes: {} }"
    );
}

#[test]
fn config_debug_in_full() {
    let toml = r#"
        api_key = "k"
        backend = "localonly"
        [aliases]
        a = "x\ty"
        [groups]
        g = ["p", "q"]
        [scenes.s]
        brightness = 7
        color = { r = 1, g = 2, b = 3 }
        [scenes.t]
        brightness = 8
        color_temp = 4000
    "#;
    assert_eq!(
        Config::parse(toml).ok().unwrap().debug_text(),
        "Config { api_key: Some(\"[REDACTED]\"), backend: LocalOnly, discovery_interval_secs: 60, \
         aliases: {\"a\": \"x\\ty\"}, groups: {\"g\": [\"p\", \"q\"]}, scenes: {\"s\": SceneConfig \
         { brightness: 7, color: Some(Color { r: 1, g: 2, b: 3 }), color_temp: None }, \"t\": \
         SceneConfig { brightness: 8, color: None, color_temp: Some(4000) }} }"
    );
}

// Discovery interval validation

#[test]
fn config_discovery_interval_at_minimum() {
    let toml = "discovery_interval_secs = 5";
    let cfg = Config::parse(toml).ok().unwrap();
    assert_eq!(cfg.discovery_interval_secs(), 5);
}

#[test]
fn config_discovery_interval_below_minimum() {
    let toml = "discovery_interval_secs = 4";
    let result = Config::parse(toml);
    assert!(result.is_err());
    assert!(matches!(result.err().unwrap(), GoveeError::InvalidConfig(_)));
}

#[test]
fn config_discovery_interval_zero() {
    let toml = "discovery_interval_secs = 0";
    let result = Config::parse(toml);
    assert!(result.is_err());
}

// Scene config validation

#[test]
fn config_with_scenes_parses() {
    let toml = r#"
        [scenes.reading]
        brightness = 70
        color_temp = 4000

        [scenes.party]
        brightness = 100
        color = { r = 255, g = 0, b = 128 }
    "#;

    let cfg = Config::parse(toml).ok().unwrap();
    assert_eq!(cfg.scenes().len(), 2);
    let reading = cfg.scenes().get("reading").unwrap();
    assert_eq!(reading.brightness, 70);
    assert_eq!(reading.color_temp, Some(4000));
    assert!(reading.color.is_none());

    let party = cfg.scenes().get("party").unwrap();
    assert_eq!(party.brightness, 100);
    assert_eq!(party.color, Some(Color::new(255, 0, 128)));
    assert!(party.color_temp.is_none());
}

#[test]
fn config_scene_both_color_and_temp_rejected() {
    let toml = r#"
        [scenes.bad]
        brightness = 50
        color = { r = 255, g = 0, b = 0 }
        color_temp = 3000
    "#;
    let result = Config::parse(toml);
    assert!(result.is_err());
    assert_eq!(
        message(result),
        "invalid config: scene \"bad\": must set exactly one of color or color_temp, not both"
    );
}

#[test]
fn config_scene_neither_color_nor_temp_rejected() {
    let toml = r#"
        [scenes.bad]
        brightness = 50
    "#;
    let result = Config::parse(toml);
    assert!(result.is_err());
    assert_eq!(
        message(result),
        "invalid config: scene \"bad\": must set exactly one of color or color_temp"
    );
}

#[test]
fn config_scene_brightness_over_100_rejected() {
    let toml = r#"
        [scenes.bad]
        brightness = 101
        color_temp = 3000
    "#;
    let result = Config::parse(toml);
    assert!(result.is_err());
    assert_eq!(
        message(result),
        "invalid config: scene \"bad\": brightness must be 0\u{2013}100, got 101"
    );
}

#[test]
fn config_scene_color_temp_out_of_range_rejected() {
    let toml = r#"
        [scenes.bad]
        brightness = 50
        color_temp = 0
    "#;
    let result = Config::parse(toml);
    assert!(result.is_err());

    let toml = r#"
        [scenes.bad]
        brightness = 50
        color_temp = 10001
    "#;
    let result = Config::parse(toml);
    assert!(result.is_err());
    assert_eq!(
        message(result),
        "invalid config: scene \"bad\": color_temp must be 1\u{2013}10000, got 10001"
    );
}

#[test]
fn config_scene_name_rejected() {
    for name in ["two words", "", "caf\u{e9}"] {
        let toml = format!("[scenes.\"{name}\"]\nbrightness = 50\ncolor_temp = 3000");
        assert_eq!(
            message(Config::parse(&toml)),
            format!(
                "invalid config: scene \"{name}\": name must be non-empty and contain only \
                 alphanumeric, '-', '_' characters"
            )
        );
    }
}

#[test]
fn config_new_with_scenes() {
    let mut scenes = NameMap::new();
    scenes.insert(
        "cozy".to_string(),
        SceneConfig {
            brightness: 30,
            color: None,
            color_temp: Some(2700),
        },
    );
    let cfg = Config::new(
        None,
        BackendPreference::Auto,
        60,
        NameMap::new(),
        NameMap::new(),
        scenes,
    )
    .ok()
    .unwrap();
    assert_eq!(cfg.scenes().len(), 1);
    assert_eq!(cfg.scenes().get("cozy").unwrap().brightness, 30);
}

#[test]
fn config_is_written_without_the_key_and_read_back() {
    let toml = r#"
        api_key = "secret-key-12345"
        backend = "cloud"
        [aliases]
        a = "b"
        [groups]
        g = ["x", "y"]
        [scenes.s]
        brightness = 5
        color = { r = 1, g = 2, b = 3 }
    "#;
    let cfg = Config::parse(toml).ok().unwrap();
    let bytes = cfg.to_json().to_bytes().unwrap();
    let text = String::from_utf8(bytes).unwrap();
    assert_eq!(
        text,
        r#"{"aliases":{"a":"b"},"api_key":null,"backend":"cloudonly","discovery_interval_secs":60,"groups":{"g":["x","y"]},"scenes":{"s":{"brightness":5,"color":{"b":3,"g":2,"r":1},"color_temp":null}}}"#
    );
    let again = Config::from_json(&Json::parse(text.as_bytes()).unwrap())
        .ok()
        .unwrap();
    assert!(again.api_key().is_none());
    assert_eq!(again.backend(), BackendPreference::CloudOnly);
    assert_eq!(again.aliases().get("a").unwrap(), "b");
    assert_eq!(again.scenes().get("s").unwrap().brightness, 5);
}

#[test]
fn scene_config_reads_back_as_written() {
    let scene = SceneConfig {
        brightness: 9,
        color: None,
        color_temp: Some(2000),
    };
    let again = SceneConfig::from_json(&scene.to_json()).unwrap();
    assert_eq!(again.brightness, 9);
    assert_eq!(again.color, None);
    assert_eq!(again.color_temp, Some(2000));
}
