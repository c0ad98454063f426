//! What a configuration says.
use vstd::prelude::*;

use crate::config;
use crate::config::BackendPreference;
use crate::config::ConfigView;
use crate::config::SceneConfig;
use crate::decode;
use crate::decode::FromJson;
use crate::decode::Source;
use crate::json::JsonView;
use crate::laws::documents;
use crate::laws::scenes;
use crate::text;
use crate::types::Color;

verus! {

/// Whether a configuration may hold a scene under a name.
pub open spec fn is_fit(name: Seq<char>, scene: SceneConfig) -> bool {
    &&& scenes::is_name(name)
    &&& scene.brightness <= 100
    &&& match (scene.color, scene.color_temp) {
        (Some(_), None) => true,
        (None, Some(kelvin)) => 1 <= kelvin && kelvin <= 10000,
        _ => false,
    }
}

/// A configuration is in order if devices are looked for every five seconds at
/// most often and each of its scenes is fit, and in no other case.
pub proof fn configurations_in_order(config: ConfigView)
    ensures
        config::sound(config) <==> config.discovery_interval_secs >= 5 && (forall|name: Seq<char>| #[trigger]
            config.scenes.contains_key(name) ==> is_fit(name, config.scenes[name])),
{
    assert forall|name: Seq<char>| (#[trigger] config.scenes.contains_key(name)) implies ((config::scene_problem(
        name,
        config.scenes[name],
    ) is None) == is_fit(name, config.scenes[name])) by {
        scenes::names_of_scenes(name);
    }
}

/// What is wrong with a scene, the name before the brightness and that before the
/// color.
pub proof fn problems_of_scenes(name: Seq<char>, scene: SceneConfig)
    ensures
        ({
            let about = "scene \""@ + name + "\": "@;
            let p = config::scene_problem(name, scene);
            if !scenes::is_name(name) {
                p == Some(
                    about + "name must be non-empty and contain only alphanumeric, '-', '_' characters"@,
                )
            } else if scene.brightness > 100 {
                p == Some(
                    about + ("brightness must be 0\u{2013}100, got "@ + text::decimal(scene.brightness as nat)),
                )
            } else if scene.color is Some && scene.color_temp is Some {
                p == Some(about + "must set exactly one of color or color_temp, not both"@)
            } else if scene.color is None && scene.color_temp is None {
                p == Some(about + "must set exactly one of color or color_temp"@)
            } else if scene.color is None && !(1 <= scene.color_temp->Some_0 && scene.color_temp->Some_0 <= 10000) {
                p == Some(
                    about + ("color_temp must be 1\u{2013}10000, got "@ + text::decimal(
                        scene.color_temp->Some_0 as nat,
                    )),
                )
            } else {
                p is None
            }
        }),
{
    scenes::names_of_scenes(name);
}

/// What is wrong with a configuration: the interval first, then the first of its
/// scenes that is not fit.
pub proof fn problems_of_configurations(interval: u64, list: Seq<(String, SceneConfig)>, i: int)
    ensures
        interval < 5 ==> config::problem(interval, list) == Some(
            "discovery_interval_secs must be >= 5s, got "@ + text::decimal(interval as nat) + "s"@,
        ),
        interval >= 5 && (forall|j: int|
            0 <= j < list.len() ==> is_fit((#[trigger] list[j]).0@, list[j].1)) ==> config::problem(
            interval,
            list,
        ) is None,
        interval >= 5 && 0 <= i < list.len() && !is_fit(list[i].0@, list[i].1) && (forall|j: int|
            0 <= j < i ==> is_fit((#[trigger] list[j]).0@, list[j].1)) ==> config::problem(interval, list)
            == config::scene_problem(list[i].0@, list[i].1) && config::problem(interval, list) is Some,
    decreases list.len(),
{
    if interval >= 5 && list.len() > 0 {
        let rest = list.skip(1);
        problems_of_scenes(list[0].0@, list[0].1);
        problems_of_configurations(interval, rest, i - 1);
        assert forall|j: int| 0 <= j < rest.len() implies #[trigger] rest[j] == list[j + 1] by {}
        if forall|j: int| 0 <= j < list.len() ==> is_fit((#[trigger] list[j]).0@, list[j].1) {
            assert forall|j: int| 0 <= j < rest.len() implies is_fit((#[trigger] rest[j]).0@, rest[j].1) by {
                assert(is_fit(list[j + 1].0@, list[j + 1].1));
            }
        }
        if 0 < i < list.len() && (forall|j: int| 0 <= j < i ==> is_fit((#[trigger] list[j]).0@, list[j].1)) {
            assert(is_fit(list[0].0@, list[0].1));
            assert forall|j: int| 0 <= j < i - 1 implies is_fit((#[trigger] rest[j]).0@, rest[j].1) by {
                assert(is_fit(list[j + 1].0@, list[j + 1].1));
            }
            assert(rest[i - 1] == list[i]);
        }
    }
}

/// The names of the backend preferences, each of the longer ones with a shorter
/// form.
pub proof fn names_of_preferences(t: Seq<char>, source: Source)
    ensures
        ({
            let r = BackendPreference::read_from(JsonView::Text(t), source);
            &&& r == Some(BackendPreference::Auto) <==> t == "auto"@
            &&& r == Some(BackendPreference::CloudOnly) <==> t == "cloudonly"@ || t == "cloud"@
            &&& r == Some(BackendPreference::LocalOnly) <==> t == "localonly"@ || t == "local"@
        }),
{
    reveal_strlit("auto");
    reveal_strlit("cloudonly");
    reveal_strlit("cloud");
    reveal_strlit("localonly");
    reveal_strlit("local");
    assert("auto"@[0] == 'a' && "cloudonly"@[0] == 'c' && "cloud"@[0] == 'c' && "localonly"@[0] == 'l'
        && "local"@[0] == 'l');
}

/// A scene of a configuration is read from its brightness and its color or color
/// temperature, of which either may be missing or null.
pub proof fn scenes_of_configurations(members: Map<Seq<char>, JsonView>, scene: SceneConfig, source: Source)
    ensures
        SceneConfig::read_from(JsonView::Object(members), source) == Some(scene) <==> {
            &&& documents::has(members, "brightness"@, JsonView::Unsigned(scene.brightness as u64))
            &&& match scene.color {
                Some(c) => members.contains_key("color"@) && members["color"@] != JsonView::Null
                    && Color::read_from(members["color"@], source) == Some(c),
                None => documents::lacks(members, "color"@),
            }
            &&& match scene.color_temp {
                Some(kelvin) => documents::has(members, "color_temp"@, JsonView::Unsigned(kelvin as u64)),
                None => documents::lacks(members, "color_temp"@),
            }
        },
{
}

/// Whether names stand for texts as the members of an object do.
pub open spec fn are_texts(value: JsonView, texts: Map<Seq<char>, Seq<char>>) -> bool {
    &&& value is Object
    &&& forall|name: Seq<char>|
        (#[trigger] texts.contains_key(name)) == value->Object_0.contains_key(name) && (texts.contains_key(
            name,
        ) ==> value->Object_0[name] == JsonView::Text(texts[name]))
}

/// A configuration is read from its fields. The key may be missing or null. Where
/// nothing is said, the backend is chosen by itself, devices are looked for every
/// minute, and there are no aliases, groups or scenes.
pub proof fn fields_of_configurations(members: Map<Seq<char>, JsonView>, source: Source)
    requires
        members.contains_key("backend"@) ==> members["backend"@] is Text,
    ensures
        config::described(JsonView::Object(members), source) matches Some(c) ==> {
            &&& match c.api_key {
                Some(key) => documents::has(members, "api_key"@, JsonView::Text(key)),
                None => documents::lacks(members, "api_key"@),
            }
            &&& match c.backend {
                BackendPreference::Auto => !members.contains_key("backend"@) || members["backend"@]
                    == JsonView::Text("auto"@),
                BackendPreference::CloudOnly => documents::has(
                    members,
                    "backend"@,
                    JsonView::Text("cloud"@),
                ) || documents::has(members, "backend"@, JsonView::Text("cloudonly"@)),
                BackendPreference::LocalOnly => documents::has(
                    members,
                    "backend"@,
                    JsonView::Text("local"@),
                ) || documents::has(members, "backend"@, JsonView::Text("localonly"@)),
            }
            &&& if members.contains_key("discovery_interval_secs"@) {
                members["discovery_interval_secs"@] == JsonView::Unsigned(c.discovery_interval_secs)
            } else {
                c.discovery_interval_secs == 60
            }
            &&& if members.contains_key("aliases"@) {
                are_texts(members["aliases"@], c.aliases)
            } else {
                c.aliases == Map::<Seq<char>, Seq<char>>::empty()
            }
            &&& if members.contains_key("groups"@) {
                &&& members["groups"@] is Object
                &&& forall|name: Seq<char>|
                    (#[trigger] c.groups.contains_key(name)) == members["groups"@]->Object_0.contains_key(name)
                        && (c.groups.contains_key(name) ==> decode::read_list::<String>(
                        members["groups"@]->Object_0[name],
                    ) == Some(c.groups[name]))
            } else {
                c.groups == Map::<Seq<char>, Seq<Seq<char>>>::empty()
            }
            &&& if members.contains_key("scenes"@) {
                &&& members["scenes"@] is Object
                &&& forall|name: Seq<char>|
                    (#[trigger] c.scenes.contains_key(name)) == members["scenes"@]->Object_0.contains_key(name)
                        && (c.scenes.contains_key(name) ==> SceneConfig::read_from(
                        members["scenes"@]->Object_0[name],
                        source,
                    ) == Some(c.scenes[name]))
            } else {
                c.scenes == Map::<Seq<char>, SceneConfig>::empty()
            }
        },
{
    if members.contains_key("backend"@) {
        names_of_preferences(members["backend"@]->Text_0, source);
    }
}

/// A document whose fields can all be read is a configuration, and one that is no
/// record is not.
pub proof fn documents_that_are_configurations(
    members: Map<Seq<char>, JsonView>,
    source: Source,
    t: Seq<char>,
    n: u64,
)
    requires
        documents::lacks(members, "api_key"@) || members["api_key"@] is Text,
        members.contains_key("backend"@) ==> members["backend"@] == JsonView::Text("auto"@)
            || members["backend"@] == JsonView::Text("cloud"@) || members["backend"@] == JsonView::Text(
            "cloudonly"@,
        ) || members["backend"@] == JsonView::Text("local"@) || members["backend"@] == JsonView::Text(
            "localonly"@,
        ),
        members.contains_key("discovery_interval_secs"@) ==> members["discovery_interval_secs"@] is Unsigned,
        members.contains_key("aliases"@) ==> members["aliases"@] is Object && (forall|name: Seq<char>| #[trigger]
            members["aliases"@]->Object_0.contains_key(name) ==> members["aliases"@]->Object_0[name] is Text),
        members.contains_key("groups"@) ==> members["groups"@] is Object && (forall|name: Seq<char>| #[trigger]
            members["groups"@]->Object_0.contains_key(name) ==> decode::read_list::<String>(
                members["groups"@]->Object_0[name],
            ) is Some),
        members.contains_key("scenes"@) ==> members["scenes"@] is Object && (forall|name: Seq<char>| #[trigger]
            members["scenes"@]->Object_0.contains_key(name) ==> SceneConfig::read_from(
                members["scenes"@]->Object_0[name],
                source,
            ) is Some),
    ensures
        config::described(JsonView::Object(members), source) is Some,
        config::described(JsonView::Text(t), source) is None,
        config::described(JsonView::Unsigned(n), source) is None,
        config::described(JsonView::Null, source) is None,
{
    if members.contains_key("backend"@) {
        names_of_preferences(members["backend"@]->Text_0, source);
    }
}

/// A field of a configuration that cannot be read makes the whole unreadable.
pub proof fn documents_that_are_no_configurations(members: Map<Seq<char>, JsonView>, source: Source, t: Seq<char>)
    requires
        ({
            ||| !documents::lacks(members, "api_key"@) && !(members["api_key"@] is Text)
            ||| documents::has(members, "backend"@, JsonView::Text(t)) && t != "auto"@ && t != "cloud"@ && t
                != "cloudonly"@ && t != "local"@ && t != "localonly"@
            ||| members.contains_key("discovery_interval_secs"@) && !(members["discovery_interval_secs"@] is Unsigned)
            ||| members.contains_key("aliases"@) && !(members["aliases"@] is Object)
            ||| members.contains_key("groups"@) && !(members["groups"@] is Object)
            ||| members.contains_key("scenes"@) && !(members["scenes"@] is Object)
        }),
    ensures
        config::described(JsonView::Object(members), source) is None,
{
    names_of_preferences(t, source);
}

/// A configuration may stand as an array of its first fields in order.
pub proof fn configurations_as_arrays(
    a: JsonView,
    b: JsonView,
    c: JsonView,
    d: JsonView,
    e: JsonView,
    f: JsonView,
    source: Source,
    items: Seq<JsonView>,
)
    ensures
        config::described(JsonView::Array(seq![a, b, c, d, e, f]), source) == config::described(
            JsonView::Object(
                map![
                    "api_key"@ => a,
                    "backend"@ => b,
                    "discovery_interval_secs"@ => c,
                    "aliases"@ => d,
                    "groups"@ => e,
                    "scenes"@ => f,
                ],
            ),
            source,
        ),
        config::described(JsonView::Array(seq![a, b, c]), source) == config::described(
            JsonView::Object(map!["api_key"@ => a, "backend"@ => b, "discovery_interval_secs"@ => c]),
            source,
        ),
        items.len() > 6 ==> config::described(JsonView::Array(items), source) is None,
{
    reveal_with_fuel(decode::zipped, 7);
    let names = config::config_fields();
    assert(names.take(6) =~= names);
    assert(names.take(3) =~= seq!["api_key", "backend", "discovery_interval_secs"]);
}

} // verus!
