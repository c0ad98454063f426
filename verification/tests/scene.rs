//! Scenes and their registry.
use govee::config::SceneConfig;
use govee::error::GoveeError;
use govee::names::NameMap;
use govee::scene::{Scene, SceneClash, SceneColor, SceneRegistry, SceneTarget};
use govee::types::{Color, DeviceId};

#[test]
fn builtins_all_present_with_values() {
    let registry = SceneRegistry::new();
    let scenes = registry.list();
    assert_eq!(scenes.len(), 5);

    // list() is sorted by name.
    assert_eq!(scenes[0].name(), "bright");
    assert_eq!(scenes[0].brightness(), 100);
    assert_eq!(*scenes[0].color(), SceneColor::Temp(6500));

    assert_eq!(scenes[1].name(), "focus");
    assert_eq!(scenes[1].brightness(), 80);
    assert_eq!(*scenes[1].color(), SceneColor::Temp(5500));

    assert_eq!(scenes[2].name(), "movie");
    assert_eq!(scenes[2].brightness(), 20);
    assert_eq!(*scenes[2].color(), SceneColor::Temp(2200));

    assert_eq!(scenes[3].name(), "night");
    assert_eq!(scenes[3].brightness(), 10);
    assert_eq!(*scenes[3].color(), SceneColor::Rgb(Color::new(255, 0, 0)));

    assert_eq!(scenes[4].name(), "warm");
    assert_eq!(scenes[4].brightness(), 40);
    assert_eq!(*scenes[4].color(), SceneColor::Temp(2700));
}

#[test]
fn lookup_exact_name() {
    let registry = SceneRegistry::new();
    let scene = registry.get("warm").unwrap();
    assert_eq!(scene.name(), "warm");
    assert_eq!(scene.brightness(), 40);
    assert_eq!(*scene.color(), SceneColor::Temp(2700));
}

#[test]
fn lookup_case_insensitive() {
    let registry = SceneRegistry::new();
    assert!(registry.get("WARM").is_ok());
    assert!(registry.get("Warm").is_ok());
    assert!(registry.get("wArM").is_ok());
    assert_eq!(registry.get("FOCUS").unwrap().name(), "focus");
}

#[test]
fn lookup_unknown_scene() {
    let registry = SceneRegistry::new();
    let err = registry.get("nonexistent").unwrap_err();
    assert!(matches!(err, GoveeError::DeviceNotFound(_)));
    assert_eq!(err.to_string(), "device not found: scene: nonexistent");
}

#[test]
fn lookup_of_names_that_are_not_ascii() {
    let registry = SceneRegistry::new();
    assert!(registry.get("w\u{e4}rm").is_err());
    // The Kelvin sign has the small letter k.
    let mut user = NameMap::new();
    user.insert("disk".to_string(), temp(50, 3000));
    let registry = registry.with_user_scenes(&user).unwrap();
    assert_eq!(registry.get("DIS\u{212a}").unwrap().name(), "disk");
}

fn temp(brightness: u8, kelvin: u32) -> SceneConfig {
    SceneConfig {
        brightness,
        color: None,
        color_temp: Some(kelvin),
    }
}

fn rgb(brightness: u8, color: Color) -> SceneConfig {
    SceneConfig {
        brightness,
        color: Some(color),
        color_temp: None,
    }
}

#[test]
fn reject_brightness_over_100() {
    let result = Scene::new("test", 101, SceneColor::Temp(3000));
    assert!(matches!(result, Err(GoveeError::InvalidBrightness(101))));
}

#[test]
fn reject_temp_zero() {
    let result = Scene::new("test", 50, SceneColor::Temp(0));
    assert!(matches!(result, Err(GoveeError::InvalidConfig(_))));
}

#[test]
fn reject_temp_over_10000() {
    let result = Scene::new("test", 50, SceneColor::Temp(10001));
    assert!(matches!(result, Err(GoveeError::InvalidConfig(_))));
}

#[test]
fn reject_name_with_newline() {
    let result = Scene::new("bad\nname", 50, SceneColor::Temp(3000));
    assert!(matches!(result, Err(GoveeError::InvalidConfig(_))));
}

#[test]
fn reject_name_with_space() {
    let result = Scene::new("bad name", 50, SceneColor::Temp(3000));
    assert!(matches!(result, Err(GoveeError::InvalidConfig(_))));
}

#[test]
fn reject_empty_name() {
    let result = Scene::new("", 50, SceneColor::Temp(3000));
    assert!(matches!(result, Err(GoveeError::InvalidConfig(_))));
}

#[test]
fn accept_valid_name_chars() {
    let result = Scene::new("my-Scene_01", 50, SceneColor::Temp(3000));
    assert!(result.is_ok());
    assert_eq!(result.unwrap().name(), "my-Scene_01");
}

#[test]
fn scene_messages() {
    let message = |r: Result<Scene, GoveeError>| r.unwrap_err().to_string();
    assert_eq!(
        message(Scene::new("", 101, SceneColor::Temp(0))),
        "brightness must be 0\u{2013}100, got 101"
    );
    assert_eq!(
        message(Scene::new("", 100, SceneColor::Temp(0))),
        "invalid config: color temp must be 1-10000"
    );
    assert_eq!(
        message(Scene::new("", 100, SceneColor::Temp(10000))),
        "invalid config: scene name must contain only alphanumeric, '-', '_' characters"
    );
}

#[test]
fn user_scene_loaded_via_with_user_scenes() {
    let mut user = NameMap::new();
    user.insert("cozy".to_string(), rgb(30, Color::new(255, 200, 100)));

    let registry = SceneRegistry::new().with_user_scenes(&user).unwrap();
    let scene = registry.get("cozy").unwrap();
    assert_eq!(scene.name(), "cozy");
    assert_eq!(scene.brightness(), 30);
    assert_eq!(*scene.color(), SceneColor::Rgb(Color::new(255, 200, 100)));
}

#[test]
fn user_scene_neither_color_nor_temp_rejected() {
    let mut user = NameMap::new();
    user.insert(
        "bad".to_string(),
        SceneConfig {
            brightness: 50,
            color: None,
            color_temp: None,
        },
    );
    let err = SceneRegistry::new().with_user_scenes(&user).unwrap_err();
    assert!(matches!(err, GoveeError::InvalidConfig(_)));
    assert_eq!(
        err.to_string(),
        "invalid config: scene \"bad\": must set exactly one of color or color_temp"
    );
}

#[test]
fn user_scene_errors_name_the_scene() {
    let mut user = NameMap::new();
    user.insert("good".to_string(), temp(50, 3000));
    user.insert("dim".to_string(), temp(101, 3000));
    user.insert("bad name".to_string(), temp(50, 3000));
    // "bad name" comes first in the order of the names.
    let err = SceneRegistry::new().with_user_scenes(&user).unwrap_err();
    assert_eq!(
        err.to_string(),
        "invalid config: scene \"bad name\": invalid config: scene name must contain only \
         alphanumeric, '-', '_' characters"
    );
}

#[test]
fn user_scene_collision_between_two_user_scenes() {
    let mut user = NameMap::new();
    user.insert("Cozy".to_string(), rgb(30, Color::new(255, 200, 100)));
    user.insert("cozy".to_string(), rgb(80, Color::new(100, 100, 255)));
    // Both entries are valid; last-wins for case-insensitive collision.
    let registry = SceneRegistry::new().with_user_scenes(&user).unwrap();
    assert!(registry.get("cozy").is_ok());
    assert_eq!(registry.list().len(), 6);
}

#[test]
fn user_scene_overrides_builtin() {
    let mut user = NameMap::new();
    user.insert("warm".to_string(), temp(80, 3000));

    let registry = SceneRegistry::new().with_user_scenes(&user).unwrap();
    let scene = registry.get("warm").unwrap();
    assert_eq!(scene.brightness(), 80);
    assert_eq!(*scene.color(), SceneColor::Temp(3000));
    // The other built-ins stay as they are.
    assert_eq!(registry.get("focus").unwrap().brightness(), 80);
    assert_eq!(registry.list().len(), 5);
}

#[test]
fn user_color_temp_scene() {
    let mut user = NameMap::new();
    user.insert("daylight".to_string(), temp(100, 6500));

    let registry = SceneRegistry::new().with_user_scenes(&user).unwrap();
    let scene = registry.get("daylight").unwrap();
    assert_eq!(scene.brightness(), 100);
    assert_eq!(*scene.color(), SceneColor::Temp(6500));
}

#[test]
fn user_scene_case_insensitive_collision_last_wins() {
    // Two user scenes differing only by case. Sorted iteration
    // means "Cozy" comes before "cozy": "cozy" wins.
    let mut user = NameMap::new();
    user.insert("Cozy".to_string(), temp(30, 2700));
    user.insert("cozy".to_string(), temp(50, 3000));

    let registry = SceneRegistry::new().with_user_scenes(&user).unwrap();
    let scene = registry.get("cozy").unwrap();
    // "cozy" (lowercase) sorts after "Cozy" (uppercase), so it wins.
    assert_eq!(scene.brightness(), 50);
    assert_eq!(*scene.color(), SceneColor::Temp(3000));
}

#[test]
fn user_scene_collision_does_not_depend_on_insertion_order() {
    let mut user = NameMap::new();
    user.insert("cozy".to_string(), temp(50, 3000));
    user.insert("Cozy".to_string(), temp(30, 2700));
    let registry = SceneRegistry::new().with_user_scenes(&user).unwrap();
    assert_eq!(registry.get("COZY").unwrap().name(), "cozy");
}

#[test]
fn scene_registry_default_equals_new() {
    let default = SceneRegistry::default();
    let new = SceneRegistry::new();
    assert_eq!(default.list().len(), new.list().len());
}

#[test]
fn list_is_sorted_by_the_name_as_written() {
    let mut user = NameMap::new();
    user.insert("Zebra".to_string(), temp(10, 2000));
    user.insert("apple".to_string(), temp(10, 2000));
    let registry = SceneRegistry::new().with_user_scenes(&user).unwrap();
    let names: Vec<&str> = registry.list().iter().map(|s| s.name()).collect();
    assert_eq!(
        names,
        ["Zebra", "apple", "bright", "focus", "movie", "night", "warm"]
    );
}

#[test]
fn scene_and_target_clones() {
    let scene = Scene::new("a", 1, SceneColor::Temp(1)).unwrap();
    let copy = scene.clone();
    assert_eq!(copy.name(), "a");
    assert_eq!(copy.brightness(), 1);
    let id = DeviceId::new("AA:BB:CC:DD:EE:FF").unwrap();
    match SceneTarget::Device(id.clone()).clone() {
        SceneTarget::Device(other) => assert_eq!(other, id),
        other => panic!("unexpected {other:?}"),
    }
    assert!(matches!(SceneTarget::All.clone(), SceneTarget::All));
    assert!(matches!(SceneTarget::Group("g".into()).clone(), SceneTarget::Group(g) if g == "g"));
    assert!(
        matches!(SceneTarget::DeviceName("d".into()).clone(), SceneTarget::DeviceName(d) if d == "d")
    );
}

#[test]
fn user_scenes_that_replace_others_are_told() {
    let mut user = NameMap::new();
    user.insert("warm".to_string(), temp(50, 3000));
    user.insert("Warm".to_string(), temp(30, 2700));
    user.insert("cozy".to_string(), temp(50, 3000));
    user.insert("Cozy".to_string(), temp(30, 2700));
    user.insert("new".to_string(), temp(30, 2700));
    let clashes = SceneRegistry::new().user_scene_clashes(&user);
    assert_eq!(
        clashes,
        [
            SceneClash::BuiltIn("Warm".to_string()),
            SceneClash::User("cozy".to_string()),
            SceneClash::User("warm".to_string()),
        ]
    );
    // A scene that is not in order ends the merge, and what comes after it is
    // not looked at.
    user.insert("Other".to_string(), temp(101, 2700));
    assert_eq!(SceneRegistry::new().user_scene_clashes(&user), []);
    assert_eq!(SceneRegistry::new().user_scene_clashes(&NameMap::new()), []);
}
