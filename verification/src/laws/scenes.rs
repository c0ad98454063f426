//! Which scenes there are.
use vstd::prelude::*;

use crate::config::SceneConfig;
use crate::error::ErrorView;
use crate::scene;
use crate::scene::ClashView;
use crate::scene::SceneColor;
use crate::scene::SceneView;
use crate::text;
use crate::types::Color;

verus! {

/// Whether a character may stand in the name of a scene.
pub open spec fn is_name_char(c: char) -> bool {
    ('a' <= c && c <= 'z') || ('A' <= c && c <= 'Z') || ('0' <= c && c <= '9') || c == '-' || c == '_'
}

/// Whether a text may be the name of a scene.
pub open spec fn is_name(name: Seq<char>) -> bool {
    name.len() > 0 && forall|i: int| 0 <= i < name.len() ==> is_name_char(#[trigger] name[i])
}

/// What may name a scene.
pub proof fn names_of_scenes(name: Seq<char>)
    ensures
        crate::config::is_scene_name(name) <==> is_name(name),
{
    if is_name(name) {
        assert forall|i: int| 0 <= i < name.len() implies crate::config::is_scene_name_char(
            #[trigger] name[i],
        ) by {
            assert(is_name_char(name[i]));
        }
    }
    if crate::config::is_scene_name(name) {
        assert forall|i: int| 0 <= i < name.len() implies is_name_char(#[trigger] name[i]) by {
            assert(crate::config::is_scene_name_char(name[i]));
        }
    }
}

/// A scene has a brightness of up to 100, a color temperature of 1 to 10000 K if
/// it has one, and a name. What is not in order is refused, the brightness before
/// the color temperature and that before the name.
pub proof fn scenes_are_checked(scene: SceneView)
    ensures
        ({
            let r = scene::checked_scene(scene);
            let temp_fits = match scene.color {
                SceneColor::Temp(kelvin) => 1 <= kelvin && kelvin <= 10000,
                SceneColor::Rgb(_) => true,
            };
            if scene.brightness > 100 {
                r == Err::<SceneView, ErrorView>(ErrorView::InvalidBrightness(scene.brightness))
            } else if !temp_fits {
                r == Err::<SceneView, ErrorView>(ErrorView::InvalidConfig("color temp must be 1-10000"@))
            } else if !is_name(scene.name) {
                r == Err::<SceneView, ErrorView>(
                    ErrorView::InvalidConfig(
                        "scene name must contain only alphanumeric, '-', '_' characters"@,
                    ),
                )
            } else {
                r == Ok::<SceneView, ErrorView>(scene)
            }
        }),
        scene::is_scene(scene) <==> scene::checked_scene(scene) is Ok,
{
    names_of_scenes(scene.name);
}

proof fn builtin_names_differ()
    ensures
        "warm"@ != "focus"@,
        "warm"@ != "night"@,
        "warm"@ != "movie"@,
        "warm"@ != "bright"@,
        "focus"@ != "night"@,
        "focus"@ != "movie"@,
        "focus"@ != "bright"@,
        "night"@ != "movie"@,
        "night"@ != "bright"@,
        "movie"@ != "bright"@,
{
    reveal_strlit("warm");
    reveal_strlit("focus");
    reveal_strlit("night");
    reveal_strlit("movie");
    reveal_strlit("bright");
    assert("warm"@[0] == 'w' && "focus"@[0] == 'f' && "night"@[0] == 'n' && "movie"@[0] == 'm' && "bright"@[0]
        == 'b');
}

/// A name of ASCII characters finds a scene whatever case it is in. The five
/// scenes that are there from the start are found by their names; no other is.
pub proof fn scenes_from_the_start(name: Seq<char>)
    requires
        forall|i: int| 0 <= i < name.len() ==> (#[trigger] name[i] as u32) < 128,
    ensures
        ({
            let small = text::lower_ascii(name);
            let r = scene::lookup(scene::builtin_scenes(), name);
            if small == "warm"@ {
                r == Ok::<SceneView, ErrorView>(
                    SceneView { name: "warm"@, brightness: 40, color: SceneColor::Temp(2700) },
                )
            } else if small == "focus"@ {
                r == Ok::<SceneView, ErrorView>(
                    SceneView { name: "focus"@, brightness: 80, color: SceneColor::Temp(5500) },
                )
            } else if small == "night"@ {
                r == Ok::<SceneView, ErrorView>(
                    SceneView {
                        name: "night"@,
                        brightness: 10,
                        color: SceneColor::Rgb(Color { r: 255, g: 0, b: 0 }),
                    },
                )
            } else if small == "movie"@ {
                r == Ok::<SceneView, ErrorView>(
                    SceneView { name: "movie"@, brightness: 20, color: SceneColor::Temp(2200) },
                )
            } else if small == "bright"@ {
                r == Ok::<SceneView, ErrorView>(
                    SceneView { name: "bright"@, brightness: 100, color: SceneColor::Temp(6500) },
                )
            } else {
                r == Err::<SceneView, ErrorView>(ErrorView::DeviceNotFound("scene: "@ + name))
            }
        }),
{
    builtin_names_differ();
}

/// A scene is found under its key, and where there is none the error names what
/// was looked for.
pub proof fn scenes_are_found(scenes: Map<Seq<char>, SceneView>, name: Seq<char>)
    requires
        forall|i: int| 0 <= i < name.len() ==> (#[trigger] name[i] as u32) < 128,
    ensures
        scene::lookup(scenes, name) == (if scenes.contains_key(text::lower_ascii(name)) {
            Ok::<SceneView, ErrorView>(scenes[text::lower_ascii(name)])
        } else {
            Err(ErrorView::DeviceNotFound("scene: "@ + name))
        }),
{
}

/// A scene of the user has the name and the brightness that it is given, and its
/// color or its color temperature, whichever it is given; it must be given one of
/// them and not both.
pub proof fn scenes_of_the_user(name: Seq<char>, brightness: u8, color: Color, kelvin: u32)
    requires
        is_name(name),
        brightness <= 100,
        1 <= kelvin <= 10000,
    ensures
        scene::user_scene(name, SceneConfig { brightness, color: Some(color), color_temp: None }) == Ok::<
            SceneView,
            ErrorView,
        >(SceneView { name, brightness, color: SceneColor::Rgb(color) }),
        scene::user_scene(name, SceneConfig { brightness, color: None, color_temp: Some(kelvin) }) == Ok::<
            SceneView,
            ErrorView,
        >(SceneView { name, brightness, color: SceneColor::Temp(kelvin) }),
        scene::user_scene(name, SceneConfig { brightness, color: None, color_temp: None }) == Err::<
            SceneView,
            ErrorView,
        >(
            ErrorView::InvalidConfig(
                "scene \""@ + name + "\": "@ + "must set exactly one of color or color_temp"@,
            ),
        ),
        scene::user_scene(name, SceneConfig { brightness, color: Some(color), color_temp: Some(kelvin) })
            == Err::<SceneView, ErrorView>(
            ErrorView::InvalidConfig(
                "scene \""@ + name + "\": "@ + "must set exactly one of color or color_temp"@,
            ),
        ),
{
    names_of_scenes(name);
}

/// A scene of the user that is not in order is refused, with its name and the
/// reason.
pub proof fn bad_scenes_of_the_user(name: Seq<char>, brightness: u8, color: Color, kelvin: u32)
    ensures
        brightness > 100 ==> scene::user_scene(
            name,
            SceneConfig { brightness, color: Some(color), color_temp: None },
        ) == Err::<SceneView, ErrorView>(
            ErrorView::InvalidConfig(
                "scene \""@ + name + "\": "@ + ("brightness must be 0\u{2013}100, got "@ + text::decimal(
                    brightness as nat,
                )),
            ),
        ),
        brightness <= 100 && (kelvin == 0 || kelvin > 10000) ==> scene::user_scene(
            name,
            SceneConfig { brightness, color: None, color_temp: Some(kelvin) },
        ) == Err::<SceneView, ErrorView>(
            ErrorView::InvalidConfig(
                "scene \""@ + name + "\": "@ + ("invalid config: "@ + "color temp must be 1-10000"@),
            ),
        ),
        brightness <= 100 && !is_name(name) ==> scene::user_scene(
            name,
            SceneConfig { brightness, color: Some(color), color_temp: None },
        ) == Err::<SceneView, ErrorView>(
            ErrorView::InvalidConfig(
                "scene \""@ + name + "\": "@ + ("invalid config: "@
                    + "scene name must contain only alphanumeric, '-', '_' characters"@),
            ),
        ),
{
    names_of_scenes(name);
}

/// One more scene of the user takes the place of what was under its key, and
/// leaves the others. The first scene that is not in order is the error.
pub proof fn one_more_user_scene(
    scenes: Map<Seq<char>, SceneView>,
    user: Seq<(Seq<char>, SceneConfig)>,
    name: Seq<char>,
    config: SceneConfig,
)
    ensures
        scene::merged(scenes, Seq::empty()) == Ok::<Map<Seq<char>, SceneView>, ErrorView>(scenes),
        scene::merged(scenes, user.push((name, config))) == (match (
            scene::merged(scenes, user),
            scene::user_scene(name, config),
        ) {
            (Err(e), _) => Err::<Map<Seq<char>, SceneView>, ErrorView>(e),
            (Ok(_), Err(e)) => Err(e),
            (Ok(before), Ok(added)) => Ok(before.insert(scene::scene_key(name), added)),
        }),
    decreases user.len(),
{
    let more = user.push((name, config));
    reveal_with_fuel(scene::merged, 2);
    if user.len() == 0 {
        assert(more.skip(1) =~= Seq::empty());
        assert(more[0] == (name, config));
    } else {
        assert(more[0] == user[0]);
        assert(more.skip(1) =~= user.skip(1).push((name, config)));
        match scene::user_scene(user[0].0, user[0].1) {
            Ok(first) => {
                one_more_user_scene(
                    scenes.insert(scene::scene_key(user[0].0), first),
                    user.skip(1),
                    name,
                    config,
                );
            },
            Err(_) => {},
        }
    }
}

/// One more scene of the user clashes with an earlier one that has its key, or
/// else with one that was there that has it.
pub proof fn one_more_clash(
    there: Set<Seq<char>>,
    added: Set<Seq<char>>,
    user: Seq<(Seq<char>, SceneConfig)>,
    name: Seq<char>,
    config: SceneConfig,
)
    requires
        forall|i: int| 0 <= i < user.len() ==> scene::user_scene((#[trigger] user[i]).0, user[i].1) is Ok,
        scene::user_scene(name, config) is Ok,
    ensures
        scene::clashes(there, added, Seq::empty()) == Seq::<ClashView>::empty(),
        ({
            let key = scene::scene_key(name);
            let earlier = added.contains(key) || exists|i: int|
                0 <= i < user.len() && scene::scene_key((#[trigger] user[i]).0) == key;
            let before = scene::clashes(there, added, user);
            scene::clashes(there, added, user.push((name, config))) == (if earlier {
                before.push(ClashView::User(name))
            } else if there.contains(key) {
                before.push(ClashView::BuiltIn(name))
            } else {
                before
            })
        }),
    decreases user.len(),
{
    let more = user.push((name, config));
    let key = scene::scene_key(name);
    if user.len() == 0 {
        assert(more.skip(1) =~= Seq::empty());
        assert(more[0] == (name, config));
        let rest = scene::clashes(there, added.insert(key), more.skip(1));
        assert(rest =~= Seq::empty());
        assert(seq![ClashView::User(name)] + rest =~= Seq::empty().push(ClashView::User(name)));
        assert(seq![ClashView::BuiltIn(name)] + rest =~= Seq::empty().push(ClashView::BuiltIn(name)));
        assert(scene::clashes(there, added, user) =~= Seq::empty());
    } else {
        let first = user[0].0;
        let first_key = scene::scene_key(first);
        let rest = user.skip(1);
        assert(scene::user_scene(user[0].0, user[0].1) is Ok);
        assert(more[0] == user[0]);
        assert(more.skip(1) =~= rest.push((name, config)));
        assert forall|i: int| 0 <= i < rest.len() implies scene::user_scene((#[trigger] rest[i]).0, rest[i].1) is Ok by {
            assert(rest[i] == user[i + 1]);
        }
        let wider = added.insert(first_key);
        one_more_clash(there, wider, rest, name, config);
        let a = exists|i: int| 0 <= i < user.len() && scene::scene_key((#[trigger] user[i]).0) == key;
        let b = exists|i: int| 0 <= i < rest.len() && scene::scene_key((#[trigger] rest[i]).0) == key;
        if a {
            let i = choose|i: int| 0 <= i < user.len() && scene::scene_key((#[trigger] user[i]).0) == key;
            if i > 0 {
                assert(rest[i - 1] == user[i]);
            }
        }
        if b {
            let i = choose|i: int| 0 <= i < rest.len() && scene::scene_key((#[trigger] rest[i]).0) == key;
            assert(user[i + 1] == rest[i]);
        }
        let tail = scene::clashes(there, wider, rest);
        let c1 = seq![ClashView::User(first)];
        let c2 = seq![ClashView::BuiltIn(first)];
        let u = ClashView::User(name);
        let v = ClashView::BuiltIn(name);
        assert(c1 + tail.push(u) =~= (c1 + tail).push(u));
        assert(c1 + tail.push(v) =~= (c1 + tail).push(v));
        assert(c2 + tail.push(u) =~= (c2 + tail).push(u));
        assert(c2 + tail.push(v) =~= (c2 + tail).push(v));
    }
}

/// A listing holds every scene there is and no other, in the order of the names.
pub proof fn listings_are_complete(
    scenes: Map<Seq<char>, SceneView>,
    list: Seq<SceneView>,
    key: Seq<char>,
    i: int,
    j: int,
)
    requires
        scene::is_listing(scenes, list),
    ensures
        scenes.contains_key(key) ==> list.contains(scenes[key]),
        0 <= i < list.len() ==> exists|k: Seq<char>| #[trigger] scenes.contains_key(k) && scenes[k] == list[i],
        0 <= i < j < list.len() ==> text::precedes(list[i].name, list[j].name),
{
    if scenes.contains_key(key) {
        assert(scenes.contains_value(scenes[key]));
    }
    if 0 <= i < list.len() {
        assert(list.contains(list[i]));
        assert(scenes.contains_value(list[i]));
    }
}

/// Nothing that comes after a scene that is not in order clashes.
pub proof fn bad_scenes_end_the_search(
    there: Set<Seq<char>>,
    added: Set<Seq<char>>,
    user: Seq<(Seq<char>, SceneConfig)>,
    more: (Seq<char>, SceneConfig),
    i: int,
)
    requires
        0 <= i < user.len(),
        scene::user_scene(user[i].0, user[i].1) is Err,
    ensures
        scene::clashes(there, added, user.push(more)) == scene::clashes(there, added, user),
    decreases user.len(),
{
    assert(user.push(more)[0] == user[0]);
    if scene::user_scene(user[0].0, user[0].1) is Ok {
        let rest = user.skip(1);
        assert(user.push(more).skip(1) =~= rest.push(more));
        assert(rest[i - 1] == user[i]);
        bad_scenes_end_the_search(there, added.insert(scene::scene_key(user[0].0)), rest, more, i - 1);
    }
}

/// A name with other characters than those of ASCII is put in small letters by
/// the rules of Unicode.
pub proof fn keys_of_other_names(name: Seq<char>, i: int)
    requires
        0 <= i < name.len(),
        name[i] as u32 >= 128,
    ensures
        scene::scene_key(name) == text::lowercase(name),
{
}

} // verus!
