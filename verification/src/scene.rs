//! Named lighting presets.
use vstd::prelude::*;

use crate::config;
use crate::config::scene_message;
use crate::config::scene_name_allowed;
use crate::config::SceneConfig;
use crate::config::MAX_KELVIN;
use crate::error;
use crate::error::joined;
use crate::error::ErrorView;
use crate::error::GoveeError;
use crate::names;
use crate::names::name_order;
use crate::names::NameMap;
use crate::text;
use crate::text::to_lowercase;
use crate::types::Color;
use crate::types::DeviceId;

verus! {

/// Target specification for applying a scene.
#[derive(Debug)]
pub enum SceneTarget {
    /// A specific device by ID.
    Device(DeviceId),
    /// A device resolved by name or alias.
    DeviceName(String),
    /// All devices in a named group.
    Group(String),
    /// Every registered device.
    All,
}

impl Clone for SceneTarget {
    fn clone(&self) -> (r: SceneTarget)
        ensures
            r == *self,
    {
        match self {
            SceneTarget::Device(id) => SceneTarget::Device(id.clone()),
            SceneTarget::DeviceName(name) => SceneTarget::DeviceName(name.clone()),
            SceneTarget::Group(name) => SceneTarget::Group(name.clone()),
            SceneTarget::All => SceneTarget::All,
        }
    }
}

/// The color component of a scene: either an RGB value or a color temperature.
#[derive(Debug, Clone, Copy, PartialEq, Eq, Structural)]
pub enum SceneColor {
    /// An RGB color value.
    Rgb(Color),
    /// A color temperature in Kelvin (1-10000).
    Temp(u32),
}

/// A named lighting preset with brightness and color.
#[derive(Debug)]
pub struct Scene {
    name: String,
    brightness: u8,
    color: SceneColor,
}

/// What a scene is.
pub struct SceneView {
    pub name: Seq<char>,
    pub brightness: u8,
    pub color: SceneColor,
}

/// Whether a color temperature can be sent to a device.
pub open spec fn is_kelvin(kelvin: u32) -> bool {
    1 <= kelvin <= MAX_KELVIN
}

/// Whether a scene may exist.
pub open spec fn is_scene(scene: SceneView) -> bool {
    &&& scene.brightness <= 100
    &&& match scene.color {
        SceneColor::Temp(kelvin) => is_kelvin(kelvin),
        SceneColor::Rgb(_) => true,
    }
    &&& config::is_scene_name(scene.name)
}

/// What [`Scene::new`] comes to: the scene, or what is wrong with it. The
/// brightness is looked at first and the name last.
pub open spec fn checked_scene(scene: SceneView) -> Result<SceneView, ErrorView> {
    if scene.brightness > 100 {
        Err(ErrorView::InvalidBrightness(scene.brightness))
    } else if scene.color is Temp && !is_kelvin(scene.color->Temp_0) {
        Err(ErrorView::InvalidConfig("color temp must be 1-10000"@))
    } else if !config::is_scene_name(scene.name) {
        Err(
            ErrorView::InvalidConfig("scene name must contain only alphanumeric, '-', '_' characters"@),
        )
    } else {
        Ok(scene)
    }
}

impl View for Scene {
    type V = SceneView;

    closed spec fn view(&self) -> SceneView {
        SceneView { name: self.name@, brightness: self.brightness, color: self.color }
    }
}

impl Scene {
    #[verifier::type_invariant]
    spec fn in_order(&self) -> bool {
        is_scene(SceneView { name: self.name@, brightness: self.brightness, color: self.color })
    }

    /// Create a new scene, validating all fields.
    ///
    /// - `brightness` must be 0-100.
    /// - `SceneColor::Temp` value must be 1-10000.
    /// - `name` must be non-empty and contain only ASCII letters and digits,
    ///   `-`, or `_`.
    pub fn new(name: &str, brightness: u8, color: SceneColor) -> (r: Result<Scene, GoveeError>)
        ensures
            error::outcome(r) == checked_scene(SceneView { name: name@, brightness, color }),
    {
        if brightness > 100 {
            return Err(GoveeError::InvalidBrightness(brightness));
        }
        match color {
            SceneColor::Temp(kelvin) => {
                if kelvin == 0 || kelvin > MAX_KELVIN {
                    return Err(GoveeError::InvalidConfig("color temp must be 1-10000".to_string()));
                }
            },
            SceneColor::Rgb(_) => {},
        }
        if !scene_name_allowed(name) {
            return Err(
                GoveeError::InvalidConfig(
                    "scene name must contain only alphanumeric, '-', '_' characters".to_string(),
                ),
            );
        }
        Ok(Scene { name: name.to_string(), brightness, color })
    }

    /// Return the scene name.
    pub fn name(&self) -> (r: &str)
        ensures
            r@ == self@.name,
            config::is_scene_name(r@),
    {
        proof {
            use_type_invariant(self);
        }
        self.name.as_str()
    }

    /// Return the scene brightness (0-100).
    pub fn brightness(&self) -> (r: u8)
        ensures
            r == self@.brightness,
            r <= 100,
    {
        proof {
            use_type_invariant(self);
        }
        self.brightness
    }

    /// Return a reference to the scene color.
    pub fn color(&self) -> (r: &SceneColor)
        ensures
            *r == self@.color,
            r is Temp ==> is_kelvin(r->Temp_0),
    {
        proof {
            use_type_invariant(self);
        }
        &self.color
    }

    fn note_in_order(&self)
        ensures
            is_scene(self@),
    {
        proof {
            use_type_invariant(self);
        }
    }
}

impl Clone for Scene {
    fn clone(&self) -> (r: Scene)
        ensures
            r == *self,
    {
        proof {
            use_type_invariant(self);
        }
        Scene { name: self.name.clone(), brightness: self.brightness, color: self.color }
    }
}

/// The key under which the scene `name` is kept: `name` in lower case.
pub open spec fn scene_key(name: Seq<char>) -> Seq<char> {
    if text::all_ascii(name) {
        text::lower_ascii(name)
    } else {
        text::lowercase(name)
    }
}

/// The key under which the scene `name` is kept.
fn key_of(name: &str) -> (r: String)
    ensures
        r@ == scene_key(name@),
{
    to_lowercase(name)
}

/// The scenes that are always there.
pub open spec fn builtin_scenes() -> Map<Seq<char>, SceneView> {
    map![
        "warm"@ => SceneView { name: "warm"@, brightness: 40, color: SceneColor::Temp(2700) },
        "focus"@ => SceneView { name: "focus"@, brightness: 80, color: SceneColor::Temp(5500) },
        "night"@ => SceneView {
            name: "night"@,
            brightness: 10,
            color: SceneColor::Rgb(Color { r: 255, g: 0, b: 0 }),
        },
        "movie"@ => SceneView { name: "movie"@, brightness: 20, color: SceneColor::Temp(2200) },
        "bright"@ => SceneView { name: "bright"@, brightness: 100, color: SceneColor::Temp(6500) },
    ]
}

/// The scene that a configuration describes under `name`.
pub open spec fn user_scene(name: Seq<char>, scene: SceneConfig) -> Result<SceneView, ErrorView> {
    let color = match (scene.color, scene.color_temp) {
        (Some(c), None) => Some(SceneColor::Rgb(c)),
        (None, Some(kelvin)) => Some(SceneColor::Temp(kelvin)),
        _ => None,
    };
    match color {
        None => Err(
            ErrorView::InvalidConfig(
                config::about_scene(name, "must set exactly one of color or color_temp"@),
            ),
        ),
        Some(color) => match checked_scene(SceneView { name, brightness: scene.brightness, color }) {
            Ok(scene) => Ok(scene),
            Err(e) => Err(ErrorView::InvalidConfig(config::about_scene(name, e.message()))),
        },
    }
}

/// `scenes` with the user's scenes put in one after the other. The first that
/// is not in order ends it.
pub open spec fn merged(
    scenes: Map<Seq<char>, SceneView>,
    user: Seq<(Seq<char>, SceneConfig)>,
) -> Result<Map<Seq<char>, SceneView>, ErrorView>
    decreases user.len(),
{
    if user.len() == 0 {
        Ok(scenes)
    } else {
        match user_scene(user[0].0, user[0].1) {
            Ok(scene) => merged(scenes.insert(scene_key(user[0].0), scene), user.skip(1)),
            Err(e) => Err(e),
        }
    }
}

/// A scene of the user that takes the place of another.
#[derive(Debug, Clone, PartialEq, Eq)]
pub enum SceneClash {
    /// The scene of this name replaces one that was there before the merge.
    BuiltIn(String),
    /// The scene of this name replaces one of the user's own, whose name differs
    /// in case only.
    User(String),
}

/// What such a clash is.
pub enum ClashView {
    BuiltIn(Seq<char>),
    User(Seq<char>),
}

impl View for SceneClash {
    type V = ClashView;

    open spec fn view(&self) -> ClashView {
        match self {
            SceneClash::BuiltIn(name) => ClashView::BuiltIn(name@),
            SceneClash::User(name) => ClashView::User(name@),
        }
    }
}

/// Which of the user's scenes take the place of others, where some keys were
/// there before the merge and some were added by it. The first scene that is not
/// in order ends it.
pub open spec fn clashes(
    there: Set<Seq<char>>,
    added: Set<Seq<char>>,
    user: Seq<(Seq<char>, SceneConfig)>,
) -> Seq<ClashView>
    decreases user.len(),
{
    if user.len() == 0 || user_scene(user[0].0, user[0].1) is Err {
        Seq::empty()
    } else {
        let name = user[0].0;
        let key = scene_key(name);
        let rest = clashes(there, added.insert(key), user.skip(1));
        if added.contains(key) {
            seq![ClashView::User(name)] + rest
        } else if there.contains(key) {
            seq![ClashView::BuiltIn(name)] + rest
        } else {
            rest
        }
    }
}

/// The scene that a configuration describes under `name`.
fn scene_of(name: &str, scene: &SceneConfig) -> (r: Result<Scene, GoveeError>)
    ensures
        error::outcome(r) == user_scene(name@, *scene),
{
    let color = match (scene.color, scene.color_temp) {
        (Some(c), None) => SceneColor::Rgb(c),
        (None, Some(kelvin)) => SceneColor::Temp(kelvin),
        _ => {
            return Err(
                GoveeError::InvalidConfig(
                    scene_message(name, "must set exactly one of color or color_temp"),
                ),
            );
        },
    };
    match Scene::new(name, scene.brightness, color) {
        Ok(scene) => Ok(scene),
        Err(e) => Err(GoveeError::InvalidConfig(scene_message(name, e.to_string().as_str()))),
    }
}

/// The positions of the user's scenes in the order of their names.
fn scene_order(user: &NameMap<SceneConfig>) -> (order: Vec<usize>)
    ensures
        order@.len() == user.entries().len(),
        names::in_order(scene_entries(user.entries())).len() == order@.len(),
        forall|k: int| 0 <= k < order@.len() ==> #[trigger] order@[k] < user.entries().len(),
        forall|k: int|
            0 <= k < order@.len() ==> #[trigger] names::in_order(scene_entries(user.entries()))[k] == (
                user.entries()[order@[k] as int].0@,
                user.entries()[order@[k] as int].1,
            ),
{
    let n: usize = user.len();
    let mut user_names: Vec<String> = Vec::new();
    for i in 0..n
        invariant
            n == user.entries().len(),
            user_names@.len() == i,
            forall|k: int| 0 <= k < i ==> #[trigger] user_names@[k]@ == user.entries()[k].0@,
    {
        let (name, _) = user.entry(i);
        user_names.push(name.to_string());
    }
    let order = name_order(&user_names);
    proof {
        let entries = user.entries();
        let sorted = names::in_order(scene_entries(entries));
        let f = |e: (Seq<char>, usize)| (e.0, entries[e.1 as int].1);
        assert(names::numbered(user_names@).map_values(f) =~= scene_entries(entries));
        names::in_order_maps(names::numbered(user_names@), f);
        assert(sorted == names::picked(user_names@, order@).map_values(f));
        assert forall|k: int| 0 <= k < sorted.len() implies #[trigger] sorted[k] == (
            entries[order@[k] as int].0@,
            entries[order@[k] as int].1,
        ) by {
            assert(names::picked(user_names@, order@)[k] == (user_names@[order@[k] as int]@, order@[k]));
        }
    }
    order
}

/// The entries of a configuration's scenes, each name by its characters.
pub open spec fn scene_entries(scenes: Seq<(String, SceneConfig)>) -> Seq<(Seq<char>, SceneConfig)> {
    scenes.map_values(|e: (String, SceneConfig)| (e.0@, e.1))
}

/// Whether `list` holds the scenes of `scenes`, all of them and no other, in
/// the strict order of their names.
pub open spec fn is_listing(scenes: Map<Seq<char>, SceneView>, list: Seq<SceneView>) -> bool {
    &&& forall|i: int, j: int|
        0 <= i < j < list.len() ==> text::precedes(#[trigger] list[i].name, #[trigger] list[j].name)
    &&& forall|scene: SceneView|
        list.contains(scene) <==> #[trigger] scenes.contains_value(scene)
}

/// The scene found under `name` in whatever case it is written.
pub open spec fn lookup(scenes: Map<Seq<char>, SceneView>, name: Seq<char>) -> Result<
    SceneView,
    ErrorView,
> {
    if scenes.contains_key(scene_key(name)) {
        Ok(scenes[scene_key(name)])
    } else {
        Err(ErrorView::DeviceNotFound("scene: "@ + name))
    }
}

/// A registry of named lighting scenes with case-insensitive lookup.
#[derive(Debug)]
pub struct SceneRegistry {
    scenes: NameMap<Scene>,
}

/// The scenes by key, each by its view.
pub open spec fn scene_views(scenes: Map<Seq<char>, Scene>) -> Map<Seq<char>, SceneView> {
    scenes.map_values(|s: Scene| s@)
}

impl View for SceneRegistry {
    type V = Map<Seq<char>, SceneView>;

    closed spec fn view(&self) -> Map<Seq<char>, SceneView> {
        scene_views(self.scenes@)
    }
}

/// Whether each scene stands under its key.
pub open spec fn well_keyed(scenes: Map<Seq<char>, SceneView>) -> bool {
    forall|key: Seq<char>| #[trigger]
        scenes.contains_key(key) ==> key == scene_key(scenes[key].name) && is_scene(scenes[key])
}

/// A scene stands under the small letters of its name.
proof fn key_is_ascii(name: Seq<char>)
    requires
        config::is_scene_name(name),
    ensures
        scene_key(name) == text::lower_ascii(name),
{
    assert forall|i: int| 0 <= i < name.len() implies (#[trigger] name[i] as u32) < 128 by {
        assert(config::is_scene_name_char(name[i]));
    }
}

impl SceneRegistry {
    #[verifier::type_invariant]
    spec fn keys_match(&self) -> bool {
        well_keyed(scene_views(self.scenes@))
    }

    /// Puts one scene under its key.
    fn put(&mut self, scene: Scene)
        ensures
            final(self)@ == old(self)@.insert(scene_key(scene@.name), scene@),
    {
        proof {
            use_type_invariant(&*self);
        }
        scene.note_in_order();
        let key = key_of(scene.name());
        let mut scenes: NameMap<Scene> = NameMap::new();
        assert(scene_views(scenes@) =~= Map::empty());
        let ghost before = self.scenes@;
        std::mem::swap(&mut scenes, &mut self.scenes);
        scenes.insert(key, scene);
        assert(scene_views(scenes@) =~= scene_views(before).insert(key@, scene@));
        self.scenes = scenes;
    }

    /// Create a new registry populated with built-in scenes.
    pub fn new() -> (r: SceneRegistry)
        ensures
            r@ == builtin_scenes(),
    {
        proof {
            reveal_strlit("warm");
            reveal_strlit("focus");
            reveal_strlit("night");
            reveal_strlit("movie");
            reveal_strlit("bright");
            key_is_ascii("warm"@);
            key_is_ascii("focus"@);
            key_is_ascii("night"@);
            key_is_ascii("movie"@);
            key_is_ascii("bright"@);
            assert(text::lower_ascii("warm"@) =~= "warm"@);
            assert(text::lower_ascii("focus"@) =~= "focus"@);
            assert(text::lower_ascii("night"@) =~= "night"@);
            assert(text::lower_ascii("movie"@) =~= "movie"@);
            assert(text::lower_ascii("bright"@) =~= "bright"@);
        }
        let scenes: NameMap<Scene> = NameMap::new();
        assert(scene_views(scenes@) =~= Map::empty());
        let mut r = SceneRegistry { scenes };
        r.put(Scene { name: "warm".to_string(), brightness: 40, color: SceneColor::Temp(2700) });
        r.put(Scene { name: "focus".to_string(), brightness: 80, color: SceneColor::Temp(5500) });
        r.put(
            Scene {
                name: "night".to_string(),
                brightness: 10,
                color: SceneColor::Rgb(Color::new(255, 0, 0)),
            },
        );
        r.put(Scene { name: "movie".to_string(), brightness: 20, color: SceneColor::Temp(2200) });
        r.put(Scene { name: "bright".to_string(), brightness: 100, color: SceneColor::Temp(6500) });
        assert(r@ =~= builtin_scenes());
        r
    }

    /// Look up a scene by name (case-insensitive).
    pub fn get(&self, name: &str) -> (r: Result<&Scene, GoveeError>)
        ensures
            match r {
                Ok(scene) => lookup(self@, name@) == Ok::<SceneView, ErrorView>(scene@),
                Err(e) => lookup(self@, name@) == Err::<SceneView, ErrorView>(e@),
            },
            r matches Ok(scene) ==> scene_key(scene@.name) == scene_key(name@),
            well_keyed(self@),
    {
        proof {
            use_type_invariant(self);
        }
        let key = key_of(name);
        match self.scenes.get(key.as_str()) {
            Some(scene) => {
                assert(scene_views(self.scenes@).contains_key(key@));
                Ok(scene)
            },
            None => Err(GoveeError::DeviceNotFound(joined("scene: ", name))),
        }
    }

    /// Return all registered scenes, sorted by name.
    pub fn list(&self) -> (r: Vec<&Scene>)
        ensures
            is_listing(self@, r@.map_values(|s: &Scene| s@)),
            well_keyed(self@),
    {
        proof {
            use_type_invariant(self);
        }
        self.scenes.note_distinct();
        let ghost entries = self.scenes.entries();
        let n: usize = self.scenes.len();
        let mut scene_names: Vec<String> = Vec::new();
        for i in 0..n
            invariant
                n == self.scenes.entries().len(),
                scene_names@.len() == i,
                forall|k: int|
                    0 <= k < i ==> #[trigger] scene_names@[k]@ == self.scenes.entries()[k].1@.name,
        {
            let (_, scene) = self.scenes.entry(i);
            scene_names.push(scene.name().to_string());
        }
        let order = name_order(&scene_names);
        let mut r: Vec<&Scene> = Vec::new();
        for k in 0..order.len()
            invariant
                n == self.scenes.entries().len(),
                order@.len() == n,
                forall|k: int| 0 <= k < order@.len() ==> #[trigger] order@[k] < n,
                r@.len() == k,
                forall|j: int| 0 <= j < k ==> *(#[trigger] r@[j]) == self.scenes.entries()[order@[j] as int].1,
        {
            let (_, scene) = self.scenes.entry(order[k]);
            r.push(scene);
        }
        proof {
            let numbered = names::numbered(scene_names@);
            let picked = names::picked(scene_names@, order@);
            assert forall|i: int, j: int| 0 <= i < j < numbered.len() implies #[trigger] numbered[i].0
                != #[trigger] numbered[j].0 by {
                names::by_name_at(entries, i);
                names::by_name_at(entries, j);
                let views = scene_views(self.scenes@);
                assert(views.contains_key(entries[i].0@));
                assert(views.contains_key(entries[j].0@));
                assert(scene_names@[i]@ == entries[i].1@.name);
                assert(scene_names@[j]@ == entries[j].1@.name);
            }
            names::in_order_ascends(numbered);
            names::in_order_keeps(numbered);
            let list = r@.map_values(|s: &Scene| s@);
            assert forall|i: int, j: int| 0 <= i < j < list.len() implies text::precedes(
                #[trigger] list[i].name,
                #[trigger] list[j].name,
            ) by {
                assert(picked[i].0 == list[i].name);
                assert(picked[j].0 == list[j].name);
            }
            assert forall|scene: SceneView|
                list.contains(scene) <==> #[trigger] self@.contains_value(scene) by {
                if list.contains(scene) {
                    let j = choose|j: int| 0 <= j < list.len() && list[j] == scene;
                    let i = order@[j] as int;
                    names::by_name_at(entries, i);
                    assert(self@.contains_key(entries[i].0@));
                    assert(self@[entries[i].0@] == scene);
                }
                if self@.contains_value(scene) {
                    let key = choose|key: Seq<char>| self@.contains_key(key) && self@[key] == scene;
                    let i = names::place(entries, key);
                    assert(names::has_name(entries, key));
                    assert(entries[i].1@ == scene);
                    assert(numbered[i] == (scene_names@[i]@, i as usize));
                    assert(numbered.contains(numbered[i]));
                    assert(names::in_order(numbered).contains(numbered[i]));
                    let j = choose|j: int| 0 <= j < picked.len() && picked[j] == numbered[i];
                    assert(order@[j] == i);
                    assert(list[j] == scene);
                }
            }
        }
        r
    }

    /// Merge user-defined scenes from config into this registry.
    ///
    /// The names are taken in their order. On a name collision the later scene
    /// wins: a user scene over a built-in, and of two user scenes that differ
    /// in case only the one whose name comes later.
    pub fn with_user_scenes(self, user: &NameMap<SceneConfig>) -> (r: Result<SceneRegistry, GoveeError>)
        ensures
            error::outcome(r) == merged(self@, names::in_order(scene_entries(user.entries()))),
    {
        let mut registry = self;
        let order = scene_order(user);
        let ghost sorted = names::in_order(scene_entries(user.entries()));
        assert(sorted.skip(0) =~= sorted);
        for k in 0..order.len()
            invariant
                sorted == names::in_order(scene_entries(user.entries())),
                sorted.len() == order@.len(),
                forall|k: int| 0 <= k < order@.len() ==> #[trigger] order@[k] < user.entries().len(),
                forall|k: int|
                    0 <= k < sorted.len() ==> #[trigger] sorted[k] == (
                        user.entries()[order@[k] as int].0@,
                        user.entries()[order@[k] as int].1,
                    ),
                merged(self@, sorted) == merged(registry@, sorted.skip(k as int)),
        {
            let (name, sc) = user.entry(order[k]);
            assert(sorted.skip(k as int)[0] == sorted[k as int]);
            assert(sorted.skip(k as int).skip(1) =~= sorted.skip(k + 1));
            match scene_of(name, sc) {
                Ok(scene) => {
                    registry.put(scene);
                },
                Err(e) => return Err(e),
            }
        }
        Ok(registry)
    }

    /// Which of the user's scenes take the place of others when they are merged
    /// into this registry, in the order of their names.
    pub fn user_scene_clashes(&self, user: &NameMap<SceneConfig>) -> (r: Vec<SceneClash>)
        ensures
            r@.map_values(|c: SceneClash| c@) == clashes(
                self@.dom(),
                Set::empty(),
                names::in_order(scene_entries(user.entries())),
            ),
    {
        let order = scene_order(user);
        let mut added: NameMap<bool> = NameMap::new();
        let mut found: Vec<SceneClash> = Vec::new();
        let ghost sorted = names::in_order(scene_entries(user.entries()));
        proof {
            assert(sorted.skip(0) =~= sorted);
            assert(added@.dom() =~= Set::empty());
            assert(found@.map_values(|c: SceneClash| c@) + clashes(self@.dom(), Set::empty(), sorted)
                =~= clashes(self@.dom(), Set::empty(), sorted));
        }
        for k in 0..order.len()
            invariant
                sorted == names::in_order(scene_entries(user.entries())),
                sorted.len() == order@.len(),
                forall|k: int| 0 <= k < order@.len() ==> #[trigger] order@[k] < user.entries().len(),
                forall|k: int|
                    0 <= k < sorted.len() ==> #[trigger] sorted[k] == (
                        user.entries()[order@[k] as int].0@,
                        user.entries()[order@[k] as int].1,
                    ),
                clashes(self@.dom(), Set::empty(), sorted) == found@.map_values(|c: SceneClash| c@)
                    + clashes(self@.dom(), added@.dom(), sorted.skip(k as int)),
        {
            let (name, sc) = user.entry(order[k]);
            let ghost rest = sorted.skip(k as int);
            let ghost before = found@.map_values(|c: SceneClash| c@);
            let ghost keys = added@.dom();
            assert(rest[0] == sorted[k as int]);
            assert(rest.skip(1) =~= sorted.skip(k + 1));
            if scene_of(name, sc).is_err() {
                assert(before + Seq::<ClashView>::empty() =~= before);
                return found;
            }
            let key = key_of(name);
            let ghost more = clashes(self@.dom(), keys.insert(key@), rest.skip(1));
            assert(self@.dom().contains(key@) == self.scenes@.contains_key(key@));
            if added.contains_key(key.as_str()) {
                found.push(SceneClash::User(name.to_string()));
                assert(found@.map_values(|c: SceneClash| c@) + more =~= before + (seq![
                    ClashView::User(name@),
                ] + more));
            } else if self.scenes.contains_key(key.as_str()) {
                found.push(SceneClash::BuiltIn(name.to_string()));
                assert(found@.map_values(|c: SceneClash| c@) + more =~= before + (seq![
                    ClashView::BuiltIn(name@),
                ] + more));
            }
            added.insert(key, true);
            assert(added@.dom() =~= keys.insert(key@));
        }
        assert(sorted.skip(order@.len() as int) =~= Seq::empty());
        assert(found@.map_values(|c: SceneClash| c@) + Seq::<ClashView>::empty() =~= found@.map_values(
            |c: SceneClash| c@,
        ));
        found
    }
}

impl Default for SceneRegistry {
    fn default() -> (r: SceneRegistry)
        ensures
            r@ == builtin_scenes(),
    {
        SceneRegistry::new()
    }
}

/// Lookup does not depend on the case of ASCII letters.
pub proof fn lookup_ignores_case(scenes: Map<Seq<char>, SceneView>, a: Seq<char>, b: Seq<char>)
    requires
        text::all_ascii(a),
        text::all_ascii(b),
        text::lower_ascii(a) == text::lower_ascii(b),
    ensures
        lookup(scenes, a) is Ok == lookup(scenes, b) is Ok,
        lookup(scenes, a) is Ok ==> lookup(scenes, a) == lookup(scenes, b),
{
}

/// Merging succeeds exactly if each of the user's scenes is in order.
pub proof fn merging_succeeds(scenes: Map<Seq<char>, SceneView>, user: Seq<(Seq<char>, SceneConfig)>)
    ensures
        merged(scenes, user) is Ok <==> (forall|i: int|
            0 <= i < user.len() ==> user_scene(#[trigger] user[i].0, user[i].1) is Ok),
    decreases user.len(),
{
    if user.len() > 0 {
        let rest = user.skip(1);
        match user_scene(user[0].0, user[0].1) {
            Ok(scene) => {
                merging_succeeds(scenes.insert(scene_key(user[0].0), scene), rest);
                assert forall|i: int| 0 <= i < rest.len() implies #[trigger] rest[i] == user[i + 1] by {}
                if merged(scenes, user) is Ok {
                    assert forall|i: int| 0 <= i < user.len() implies user_scene(
                        #[trigger] user[i].0,
                        user[i].1,
                    ) is Ok by {
                        if i > 0 {
                            assert(rest[i - 1] == user[i]);
                        }
                    }
                }
            },
            Err(_) => {
                assert(user_scene(user[0].0, user[0].1) is Err);
            },
        }
    }
}

/// A scene whose key no user scene has stays as it was, and none but the
/// user's scenes are added.
pub proof fn merging_keeps_others(
    scenes: Map<Seq<char>, SceneView>,
    user: Seq<(Seq<char>, SceneConfig)>,
    key: Seq<char>,
)
    requires
        merged(scenes, user) is Ok,
        forall|i: int| 0 <= i < user.len() ==> scene_key(#[trigger] user[i].0) != key,
    ensures
        merged(scenes, user)->Ok_0.contains_key(key) == scenes.contains_key(key),
        scenes.contains_key(key) ==> merged(scenes, user)->Ok_0[key] == scenes[key],
    decreases user.len(),
{
    if user.len() > 0 {
        let rest = user.skip(1);
        let scene = user_scene(user[0].0, user[0].1)->Ok_0;
        assert forall|i: int| 0 <= i < rest.len() implies scene_key(#[trigger] rest[i].0) != key by {
            assert(rest[i] == user[i + 1]);
        }
        merging_keeps_others(scenes.insert(scene_key(user[0].0), scene), rest, key);
    }
}

/// A user scene wins over whatever stood under its key, unless a later user
/// scene has the same key.
pub proof fn later_user_scene_wins(
    scenes: Map<Seq<char>, SceneView>,
    user: Seq<(Seq<char>, SceneConfig)>,
    i: int,
)
    requires
        merged(scenes, user) is Ok,
        0 <= i < user.len(),
        forall|j: int| i < j < user.len() ==> scene_key(#[trigger] user[j].0) != scene_key(user[i].0),
    ensures
        merged(scenes, user)->Ok_0.contains_key(scene_key(user[i].0)),
        Ok::<SceneView, ErrorView>(merged(scenes, user)->Ok_0[scene_key(user[i].0)]) == user_scene(
            user[i].0,
            user[i].1,
        ),
    decreases user.len(),
{
    let rest = user.skip(1);
    let scene = user_scene(user[0].0, user[0].1)->Ok_0;
    let more = scenes.insert(scene_key(user[0].0), scene);
    assert forall|j: int| 0 <= j < rest.len() implies #[trigger] rest[j] == user[j + 1] by {}
    if i == 0 {
        merging_keeps_others(more, rest, scene_key(user[0].0));
    } else {
        assert(rest[i - 1] == user[i]);
        later_user_scene_wins(more, rest, i - 1);
    }
}

/// The scenes of a configuration that passed validation can always be merged.
pub proof fn valid_scenes_merge(
    scenes: Map<Seq<char>, SceneView>,
    user: Seq<(String, SceneConfig)>,
)
    requires
        config::scenes_problem(user) is None,
    ensures
        merged(scenes, names::in_order(scene_entries(user))) is Ok,
{
    let entries = scene_entries(user);
    let sorted = names::in_order(entries);
    names::in_order_keeps(entries);
    assert forall|i: int| 0 <= i < sorted.len() implies user_scene(#[trigger] sorted[i].0, sorted[i].1) is Ok by {
        assert(sorted.contains(sorted[i]));
        let j = choose|j: int| 0 <= j < entries.len() && entries[j] == sorted[i];
        config::no_problem_in_any(user, j);
        assert(entries[j] == (user[j].0@, user[j].1));
    }
    merging_succeeds(scenes, sorted);
}

} // verus!
