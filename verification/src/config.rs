//! Library configuration.
use vstd::prelude::*;
use vstd::slice::slice_subrange;
use vstd::string::*;

use crate::decode;
use crate::decode::array_record;
use crate::decode::default_member;
use crate::decode::list_names_of;
use crate::decode::member;
use crate::decode::member_names;
use crate::decode::names_of;
use crate::decode::names_to_json;
use crate::decode::optional_member;
use crate::decode::variant_of;
use crate::decode::FromJson;
use crate::decode::Source;
use crate::decode::ToJson;
use crate::error;
use crate::error::joined;
use crate::error::ErrorView;
use crate::error::GoveeError;
use crate::json;
use crate::json::read_toml;
use crate::json::Json;
use crate::json::JsonView;
use crate::names;
use crate::names::NameMap;
use crate::text;
use crate::text::chars_of;
use crate::text::decimal_text;
use crate::text::push_part;
use crate::text::quote;
use crate::text::same;
use crate::types;
use crate::types::Color;

verus! {

/// Backend selection preference.
#[derive(Debug, Clone, Copy, PartialEq, Eq, Structural)]
pub enum BackendPreference {
    Auto,
    CloudOnly,
    LocalOnly,
}

impl Default for BackendPreference {
    fn default() -> (r: BackendPreference)
        ensures
            r == BackendPreference::Auto,
    {
        BackendPreference::Auto
    }
}

/// Minimum allowed discovery interval in seconds.
pub const MIN_DISCOVERY_INTERVAL_SECS: u64 = 5;

/// Discovery interval in seconds where none is given.
const DEFAULT_DISCOVERY_INTERVAL_SECS: u64 = 60;

/// Highest color temperature in Kelvin that is sent to a device.
pub const MAX_KELVIN: u32 = 10000;

/// A user-defined scene loaded from the config file.
#[derive(Debug, Clone, Copy)]
pub struct SceneConfig {
    /// Brightness 0-100.
    pub brightness: u8,
    /// RGB color (mutually exclusive with `color_temp`).
    pub color: Option<Color>,
    /// Color temperature in Kelvin (mutually exclusive with `color`).
    pub color_temp: Option<u32>,
}

/// Whether `c` may stand in the name of a scene.
pub open spec fn is_scene_name_char(c: char) -> bool {
    text::is_ascii_alphanumeric(c) || c == '-' || c == '_'
}

/// Whether `name` can name a scene: not empty, and made of ASCII letters and
/// digits, `-` and `_`.
pub open spec fn is_scene_name(name: Seq<char>) -> bool {
    name.len() > 0 && forall|i: int| 0 <= i < name.len() ==> is_scene_name_char(#[trigger] name[i])
}

/// Whether `name` can name a scene.
pub fn scene_name_allowed(name: &str) -> (r: bool)
    ensures
        r == is_scene_name(name@),
{
    let x = chars_of(name);
    if x.len() == 0 {
        return false;
    }
    for i in 0..x.len()
        invariant
            x@ == name@,
            forall|j: int| 0 <= j < i ==> is_scene_name_char(#[trigger] x@[j]),
    {
        let c = x[i];
        let allowed = ('0' <= c && c <= '9') || ('a' <= c && c <= 'z') || ('A' <= c && c <= 'Z') || c == '-'
            || c == '_';
        if !allowed {
            assert(!is_scene_name_char(name@[i as int]));
            return false;
        }
    }
    true
}

/// A message about the scene `name`.
pub open spec fn about_scene(name: Seq<char>, what: Seq<char>) -> Seq<char> {
    "scene \""@ + name + "\": "@ + what
}

/// A message about the scene `name`.
pub(crate) fn scene_message(name: &str, what: &str) -> (r: String)
    ensures
        r@ == about_scene(name@, what@),
{
    joined("scene \"", name).concat("\": ").concat(what)
}

/// What is wrong with one scene of a configuration.
pub open spec fn scene_problem(name: Seq<char>, scene: SceneConfig) -> Option<Seq<char>> {
    if !is_scene_name(name) {
        Some(
            about_scene(
                name,
                "name must be non-empty and contain only alphanumeric, '-', '_' characters"@,
            ),
        )
    } else if scene.brightness > 100 {
        Some(
            about_scene(
                name,
                "brightness must be 0\u{2013}100, got "@ + text::decimal(scene.brightness as nat),
            ),
        )
    } else {
        match (scene.color, scene.color_temp) {
            (Some(_), Some(_)) => Some(
                about_scene(name, "must set exactly one of color or color_temp, not both"@),
            ),
            (None, None) => Some(about_scene(name, "must set exactly one of color or color_temp"@)),
            (None, Some(temp)) => if temp == 0 || temp > MAX_KELVIN {
                Some(
                    about_scene(
                        name,
                        "color_temp must be 1\u{2013}10000, got "@ + text::decimal(temp as nat),
                    ),
                )
            } else {
                None
            },
            (Some(_), None) => None,
        }
    }
}

/// The first problem among the scenes, in their order.
pub open spec fn scenes_problem(scenes: Seq<(String, SceneConfig)>) -> Option<Seq<char>>
    decreases scenes.len(),
{
    if scenes.len() == 0 {
        None
    } else {
        match scene_problem(scenes[0].0@, scenes[0].1) {
            Some(t) => Some(t),
            None => scenes_problem(scenes.skip(1)),
        }
    }
}

/// Where the scenes have no problem, none of them has one.
pub proof fn no_problem_in_any(scenes: Seq<(String, SceneConfig)>, i: int)
    requires
        scenes_problem(scenes) is None,
        0 <= i < scenes.len(),
    ensures
        scene_problem(scenes[i].0@, scenes[i].1) is None,
    decreases scenes.len(),
{
    if i > 0 {
        no_problem_in_any(scenes.skip(1), i - 1);
    }
}

/// What is wrong with the values of a configuration.
pub open spec fn problem(discovery_interval_secs: u64, scenes: Seq<(String, SceneConfig)>) -> Option<
    Seq<char>,
> {
    if discovery_interval_secs < MIN_DISCOVERY_INTERVAL_SECS {
        Some(interval_problem(discovery_interval_secs))
    } else {
        scenes_problem(scenes)
    }
}

/// The message about an interval that is too short.
pub open spec fn interval_problem(discovery_interval_secs: u64) -> Seq<char> {
    "discovery_interval_secs must be >= 5s, got "@ + text::decimal(discovery_interval_secs as nat) + "s"@
}

/// What a configuration holds.
#[verifier::ext_equal]
pub struct ConfigView {
    pub api_key: Option<Seq<char>>,
    pub backend: BackendPreference,
    pub discovery_interval_secs: u64,
    pub aliases: Map<Seq<char>, Seq<char>>,
    pub groups: Map<Seq<char>, Seq<Seq<char>>>,
    pub scenes: Map<Seq<char>, SceneConfig>,
}

/// Whether a configuration may hold these values.
pub open spec fn sound(config: ConfigView) -> bool {
    &&& config.discovery_interval_secs >= MIN_DISCOVERY_INTERVAL_SECS
    &&& forall|name: Seq<char>| #[trigger]
        config.scenes.contains_key(name) ==> scene_problem(name, config.scenes[name]) is None
}

/// Whether `message` says what is wrong with these values: that the interval is
/// too short, or else what is wrong with one of the scenes.
pub open spec fn is_problem(config: ConfigView, message: Seq<char>) -> bool {
    if config.discovery_interval_secs < MIN_DISCOVERY_INTERVAL_SECS {
        message == interval_problem(config.discovery_interval_secs)
    } else {
        exists|name: Seq<char>| #[trigger]
            config.scenes.contains_key(name) && scene_problem(name, config.scenes[name]) == Some(message)
    }
}

/// A problem among the scenes is a problem of one of them, and where there is
/// none no scene has one.
proof fn scenes_problem_of_one(scenes: Seq<(String, SceneConfig)>)
    requires
        names::distinct_names(scenes),
    ensures
        match scenes_problem(scenes) {
            None => forall|name: Seq<char>| #[trigger]
                names::by_name(scenes).contains_key(name) ==> scene_problem(
                    name,
                    names::by_name(scenes)[name],
                ) is None,
            Some(message) => exists|name: Seq<char>| #[trigger]
                names::by_name(scenes).contains_key(name) && scene_problem(
                    name,
                    names::by_name(scenes)[name],
                ) == Some(message),
        },
{
    match scenes_problem(scenes) {
        None => {
            assert forall|name: Seq<char>| #[trigger]
                names::by_name(scenes).contains_key(name) implies scene_problem(
                name,
                names::by_name(scenes)[name],
            ) is None by {
                let i = names::place(scenes, name);
                assert(names::has_name(scenes, name));
                no_problem_in_any(scenes, i);
            }
        },
        Some(message) => {
            let i = problem_place(scenes);
            names::by_name_at(scenes, i);
        },
    }
}

/// The place of the first scene that has a problem.
proof fn problem_place(scenes: Seq<(String, SceneConfig)>) -> (i: int)
    requires
        scenes_problem(scenes) is Some,
    ensures
        0 <= i < scenes.len(),
        scene_problem(scenes[i].0@, scenes[i].1) == scenes_problem(scenes),
    decreases scenes.len(),
{
    match scene_problem(scenes[0].0@, scenes[0].1) {
        Some(_) => 0,
        None => problem_place(scenes.skip(1)) + 1,
    }
}

/// `Ok` where there is no problem.
pub open spec fn verdict(problem: Option<Seq<char>>) -> Result<(), ErrorView> {
    match problem {
        None => Ok(()),
        Some(t) => Err(ErrorView::InvalidConfig(t)),
    }
}

/// Refuses an interval that is too short.
pub fn check_interval(discovery_interval_secs: u64) -> (r: Result<(), GoveeError>)
    ensures
        error::outcome(r) == (if discovery_interval_secs < MIN_DISCOVERY_INTERVAL_SECS {
            Err(ErrorView::InvalidConfig(interval_problem(discovery_interval_secs)))
        } else {
            Ok(())
        }),
{
    if discovery_interval_secs < MIN_DISCOVERY_INTERVAL_SECS {
        Err(
            GoveeError::InvalidConfig(
                joined(
                    "discovery_interval_secs must be >= 5s, got ",
                    decimal_text(discovery_interval_secs).as_str(),
                ).concat("s"),
            ),
        )
    } else {
        Ok(())
    }
}

/// Refuses one scene of a configuration.
fn check_scene(name: &str, scene: &SceneConfig) -> (r: Result<(), GoveeError>)
    ensures
        error::outcome(r) == verdict(scene_problem(name@, *scene)),
{
    if !scene_name_allowed(name) {
        return Err(
            GoveeError::InvalidConfig(
                scene_message(
                    name,
                    "name must be non-empty and contain only alphanumeric, '-', '_' characters",
                ),
            ),
        );
    }
    if scene.brightness > 100 {
        let what = joined(
            "brightness must be 0\u{2013}100, got ",
            decimal_text(scene.brightness as u64).as_str(),
        );
        return Err(GoveeError::InvalidConfig(scene_message(name, what.as_str())));
    }
    match (scene.color, scene.color_temp) {
        (Some(_), Some(_)) => Err(
            GoveeError::InvalidConfig(
                scene_message(name, "must set exactly one of color or color_temp, not both"),
            ),
        ),
        (None, None) => Err(
            GoveeError::InvalidConfig(
                scene_message(name, "must set exactly one of color or color_temp"),
            ),
        ),
        (None, Some(temp)) => {
            if temp == 0 || temp > MAX_KELVIN {
                let what = joined("color_temp must be 1\u{2013}10000, got ", decimal_text(temp as u64).as_str());
                Err(GoveeError::InvalidConfig(scene_message(name, what.as_str())))
            } else {
                Ok(())
            }
        },
        (Some(_), None) => Ok(()),
    }
}

/// Refuses values that no configuration may hold.
pub fn check_values(discovery_interval_secs: u64, scenes: &NameMap<SceneConfig>) -> (r: Result<
    (),
    GoveeError,
>)
    ensures
        error::outcome(r) == verdict(problem(discovery_interval_secs, scenes.entries())),
{
    match check_interval(discovery_interval_secs) {
        Ok(()) => {},
        Err(e) => return Err(e),
    }
    assert(scenes.entries().skip(0) =~= scenes.entries());
    let n: usize = scenes.len();
    for i in 0..n
        invariant
            n == scenes.entries().len(),
            discovery_interval_secs >= MIN_DISCOVERY_INTERVAL_SECS,
            scenes_problem(scenes.entries()) == scenes_problem(scenes.entries().skip(i as int)),
    {
        let (name, scene) = scenes.entry(i);
        assert(scenes.entries().skip(i as int).skip(1) =~= scenes.entries().skip(i + 1));
        match check_scene(name, scene) {
            Ok(()) => {},
            Err(e) => return Err(e),
        }
    }
    Ok(())
}

/// What is said of a document that is no configuration.
pub const NO_CONFIG: &'static str = "the document does not have the shape of a configuration";

impl View for BackendPreference {
    type V = BackendPreference;

    open spec fn view(&self) -> BackendPreference {
        *self
    }
}

impl BackendPreference {
    /// What a value of a document stands for.
    pub open spec fn read_from(value: JsonView, source: Source) -> Option<BackendPreference> {
        match decode::variant(value, source) {
            Some(t) => if t == "auto"@ {
                Some(BackendPreference::Auto)
            } else if t == "cloudonly"@ || t == "cloud"@ {
                Some(BackendPreference::CloudOnly)
            } else if t == "localonly"@ || t == "local"@ {
                Some(BackendPreference::LocalOnly)
            } else {
                None
            },
            None => None,
        }
    }

    /// Reads a preference out of a document.
    fn from_document(value: &Json, source: Source) -> (r: Option<BackendPreference>)
        ensures
            r == BackendPreference::read_from(value@, source),
    {
        match variant_of(value, source) {
            Some(t) => {
                let t = t.as_str();
                if same(t, "auto") {
                    Some(BackendPreference::Auto)
                } else if same(t, "cloudonly") || same(t, "cloud") {
                    Some(BackendPreference::CloudOnly)
                } else if same(t, "localonly") || same(t, "local") {
                    Some(BackendPreference::LocalOnly)
                } else {
                    None
                }
            },
            None => None,
        }
    }
}

impl FromJson for BackendPreference {
    open spec fn read(value: JsonView) -> Option<BackendPreference> {
        BackendPreference::read_from(value, Source::Json)
    }

    fn from_json(value: &Json) -> (r: Option<BackendPreference>) {
        BackendPreference::from_document(value, Source::Json)
    }
}

impl ToJson for BackendPreference {
    open spec fn written(&self) -> JsonView {
        match self {
            BackendPreference::Auto => JsonView::Text("auto"@),
            BackendPreference::CloudOnly => JsonView::Text("cloudonly"@),
            BackendPreference::LocalOnly => JsonView::Text("localonly"@),
        }
    }

    fn to_json(&self) -> (r: Json) {
        match self {
            BackendPreference::Auto => Json::text("auto"),
            BackendPreference::CloudOnly => Json::text("cloudonly"),
            BackendPreference::LocalOnly => Json::text("localonly"),
        }
    }
}

impl View for SceneConfig {
    type V = SceneConfig;

    open spec fn view(&self) -> SceneConfig {
        *self
    }
}

impl SceneConfig {
    /// The color of a scene, which may be absent or null.
    pub open spec fn read_color(value: JsonView, source: Source) -> Option<Option<Color>> {
        match value.get("color"@) {
            None => Some(None),
            Some(JsonView::Null) => Some(None),
            Some(v) => match Color::read_from(v, source) {
                Some(c) => Some(Some(c)),
                None => None,
            },
        }
    }

    /// What a value of a document stands for.
    pub open spec fn read_from(value: JsonView, source: Source) -> Option<SceneConfig> {
        let value = decode::record(value, seq!["brightness", "color", "color_temp"], source);
        match (
            decode::read_member::<u8>(value, "brightness"@),
            SceneConfig::read_color(value, source),
            decode::read_optional::<u32>(value, "color_temp"@),
        ) {
            (Some(brightness), Some(color), Some(color_temp)) => Some(
                SceneConfig { brightness, color, color_temp },
            ),
            _ => None,
        }
    }

    /// Reads a scene out of a document.
    fn from_document(value: &Json, source: Source) -> (r: Option<SceneConfig>)
        ensures
            r == SceneConfig::read_from(value@, source),
    {
        let object = array_record(value, &["brightness", "color", "color_temp"], source);
        let value = match &object {
            Some(object) => object,
            None => value,
        };
        let color = match value.get("color") {
            None => None,
            Some(Json::Null) => None,
            Some(v) => match Color::from_document(v, source) {
                Some(c) => Some(c),
                None => return None,
            },
        };
        match (member::<u8>(value, "brightness"), optional_member::<u32>(value, "color_temp")) {
            (Some(brightness), Some(color_temp)) => Some(SceneConfig { brightness, color, color_temp }),
            _ => None,
        }
    }
}

impl FromJson for SceneConfig {
    open spec fn read(value: JsonView) -> Option<SceneConfig> {
        SceneConfig::read_from(value, Source::Json)
    }

    fn from_json(value: &Json) -> (r: Option<SceneConfig>) {
        SceneConfig::from_document(value, Source::Json)
    }
}

impl ToJson for SceneConfig {
    open spec fn written(&self) -> JsonView {
        JsonView::Object(
            map![
                "brightness"@ => JsonView::Unsigned(self.brightness as u64),
                "color"@ => self.color.written(),
                "color_temp"@ => self.color_temp.written(),
            ],
        )
    }

    fn to_json(&self) -> (r: Json) {
        Json::empty_object().with("brightness", Json::Unsigned(self.brightness as u64)).with(
            "color",
            self.color.to_json(),
        ).with("color_temp", self.color_temp.to_json())
    }
}

/// The map that the object under `name` stands for; an empty one where there is
/// nothing under `name`.
pub open spec fn read_names_under<T: FromJson>(value: JsonView, name: Seq<char>) -> Option<
    Map<Seq<char>, T::V>,
> {
    match value.get(name) {
        None => Some(Map::empty()),
        Some(v) => decode::read_names::<T>(v),
    }
}

/// The map to lists that the object under `name` stands for; an empty one where
/// there is nothing under `name`.
pub open spec fn read_list_names_under<T: FromJson>(value: JsonView, name: Seq<char>) -> Option<
    Map<Seq<char>, Seq<T::V>>,
> {
    match value.get(name) {
        None => Some(Map::empty()),
        Some(v) => decode::read_list_names::<T>(v),
    }
}

fn names_under<T: FromJson>(value: &Json, name: &str) -> (r: Option<NameMap<T>>)
    ensures
        match r {
            Some(m) => read_names_under::<T>(value@, name@) == Some(decode::map_seen(m@)),
            None => read_names_under::<T>(value@, name@) is None,
        },
{
    match value.get(name) {
        None => {
            let m: NameMap<T> = NameMap::new();
            assert(decode::map_seen(m@) =~= Map::empty());
            Some(m)
        },
        Some(v) => names_of::<T>(v),
    }
}

fn list_names_under<T: FromJson>(value: &Json, name: &str) -> (r: Option<NameMap<Vec<T>>>)
    ensures
        match r {
            Some(m) => read_list_names_under::<T>(value@, name@) == Some(decode::list_map_seen(m@)),
            None => read_list_names_under::<T>(value@, name@) is None,
        },
{
    match value.get(name) {
        None => {
            let m: NameMap<Vec<T>> = NameMap::new();
            assert(decode::list_map_seen(m@) =~= Map::empty());
            Some(m)
        },
        Some(v) => list_names_of::<T>(v),
    }
}

/// The backend preference under `backend`, which may be absent.
pub open spec fn read_backend(document: JsonView, source: Source) -> Option<BackendPreference> {
    match document.get("backend"@) {
        None => Some(BackendPreference::Auto),
        Some(v) => BackendPreference::read_from(v, source),
    }
}

/// The scenes that the object under `scenes` stands for; none where there is
/// nothing under `scenes`.
pub open spec fn read_scenes(document: JsonView, source: Source) -> Option<Map<Seq<char>, SceneConfig>> {
    match document.get("scenes"@) {
        None => Some(Map::empty()),
        Some(JsonView::Object(members)) => if forall|name: Seq<char>| #[trigger]
            members.contains_key(name) ==> SceneConfig::read_from(members[name], source) is Some {
            Some(members.map_values(|v: JsonView| SceneConfig::read_from(v, source)->Some_0))
        } else {
            None
        },
        Some(_) => None,
    }
}

fn scenes_in(document: &Json, source: Source) -> (r: Option<NameMap<SceneConfig>>)
    ensures
        match r {
            Some(scenes) => read_scenes(document@, source) == Some(scenes@),
            None => read_scenes(document@, source) is None,
        },
{
    let mut scenes: NameMap<SceneConfig> = NameMap::new();
    let value = match document.get("scenes") {
        None => return Some(scenes),
        Some(v) => v,
    };
    match value {
        Json::Object(_) => {},
        _ => return None,
    }
    let found = member_names(value);
    let ghost members = value@->Object_0;
    for i in 0..found.len()
        invariant
            document@.get("scenes"@) == Some(value@),
            value@ == JsonView::Object(members),
            forall|name: Seq<char>| #[trigger] members.contains_key(name) == decode::among(found@, name),
            forall|k: int| 0 <= k < i ==> scenes@.contains_key(#[trigger] found@[k]@),
            forall|name: Seq<char>| #[trigger]
                scenes@.contains_key(name) ==> members.contains_key(name) && SceneConfig::read_from(
                    members[name],
                    source,
                ) == Some(scenes@[name]),
    {
        assert(decode::among(found@, found@[i as int]@));
        match value.get(found[i].as_str()) {
            Some(v) => match SceneConfig::from_document(v, source) {
                Some(scene) => {
                    scenes.insert(found[i].clone(), scene);
                },
                None => return None,
            },
            None => return None,
        }
    }
    proof {
        assert forall|name: Seq<char>| #[trigger] members.contains_key(name) implies scenes@.contains_key(
            name,
        ) by {
            let i = choose|i: int| 0 <= i < found@.len() && #[trigger] found@[i]@ == name;
            assert(scenes@.contains_key(found@[i]@));
        }
        assert(scenes@ =~= read_scenes(document@, source)->Some_0);
    }
    Some(scenes)
}

/// The fields of a configuration, in order.
pub open spec fn config_fields() -> Seq<&'static str> {
    seq!["api_key", "backend", "discovery_interval_secs", "aliases", "groups", "scenes"]
}

/// A configuration as an object. It may stand as an array of its fields in
/// order, and the last of them may be left out.
pub open spec fn config_record(document: JsonView) -> JsonView {
    match document {
        JsonView::Array(items) => if items.len() <= config_fields().len() {
            decode::record(document, config_fields().take(items.len() as int), Source::Json)
        } else {
            document
        },
        _ => document,
    }
}

/// The object that an array stands for as a configuration; nothing for any other
/// value.
fn array_config(document: &Json) -> (r: Option<Json>)
    ensures
        match r {
            Some(object) => object@ == config_record(document@),
            None => document@ == config_record(document@),
        },
{
    let items = match document {
        Json::Array(items) => items,
        _ => return None,
    };
    proof {
        reveal_with_fuel(<Json as View>::view, 2);
    }
    if items.len() > 6 {
        return None;
    }
    let names = ["api_key", "backend", "discovery_interval_secs", "aliases", "groups", "scenes"];
    assert(names@ =~= config_fields());
    let names = slice_subrange(&names, 0, items.len());
    assert(names@ =~= config_fields().take(items@.len() as int));
    array_record(document, names, Source::Json)
}

/// The values that a document describes, with what it leaves out filled in.
/// Members that no configuration has are passed over.
pub open spec fn described(document: JsonView, source: Source) -> Option<ConfigView> {
    let document = config_record(document);
    match (
        document is Object,
        decode::read_optional::<String>(document, "api_key"@),
        read_backend(document, source),
        decode::read_default::<u64>(document, "discovery_interval_secs"@),
        read_names_under::<String>(document, "aliases"@),
        read_list_names_under::<String>(document, "groups"@),
        read_scenes(document, source),
    ) {
        (true, Some(api_key), Some(backend), Some(interval), Some(aliases), Some(groups), Some(scenes)) => Some(
            ConfigView {
                api_key,
                backend,
                discovery_interval_secs: interval.unwrap_or(60),
                aliases,
                groups,
                scenes,
            },
        ),
        _ => None,
    }
}

/// Library configuration.
///
/// Consumer binaries are responsible for resolving the config file path
/// (conventionally `~/.config/govee/config.toml`).
///
/// All construction paths validate that `discovery_interval_secs >= 5` and that
/// every scene is in order.
pub struct Config {
    api_key: Option<String>,
    backend: BackendPreference,
    discovery_interval_secs: u64,
    aliases: NameMap<String>,
    groups: NameMap<Vec<String>>,
    scenes: NameMap<SceneConfig>,
}

impl View for Config {
    type V = ConfigView;

    open spec fn view(&self) -> ConfigView {
        ConfigView {
            api_key: self.key(),
            backend: self.preference(),
            discovery_interval_secs: self.interval(),
            aliases: decode::map_seen(self.alias_map()@),
            groups: decode::list_map_seen(self.group_map()@),
            scenes: self.scene_map()@,
        }
    }
}

impl Config {
    /// The API key.
    pub closed spec fn key(&self) -> Option<Seq<char>> {
        types::optional_text(self.api_key)
    }

    /// The backend preference.
    pub closed spec fn preference(&self) -> BackendPreference {
        self.backend
    }

    /// The discovery interval in seconds.
    pub closed spec fn interval(&self) -> u64 {
        self.discovery_interval_secs
    }

    /// The aliases, in order.
    pub closed spec fn alias_map(&self) -> NameMap<String> {
        self.aliases
    }

    /// The groups, in order.
    pub closed spec fn group_map(&self) -> NameMap<Vec<String>> {
        self.groups
    }

    /// The user-defined scenes, in order.
    pub closed spec fn scene_map(&self) -> NameMap<SceneConfig> {
        self.scenes
    }

    /// Whether the configuration has no problem.
    pub open spec fn valid(&self) -> bool {
        problem(self.interval(), self.scene_map().entries()) is None
    }

    /// Create a new `Config`, validating all fields.
    pub fn new(
        api_key: Option<String>,
        backend: BackendPreference,
        discovery_interval_secs: u64,
        aliases: NameMap<String>,
        groups: NameMap<Vec<String>>,
        scenes: NameMap<SceneConfig>,
    ) -> (r: Result<Config, GoveeError>)
        ensures
            match r {
                Ok(c) => {
                    &&& c.valid()
                    &&& c.key() == types::optional_text(api_key)
                    &&& c.preference() == backend
                    &&& c.interval() == discovery_interval_secs
                    &&& c.alias_map() == aliases
                    &&& c.group_map() == groups
                    &&& c.scene_map() == scenes
                },
                Err(e) => problem(discovery_interval_secs, scenes.entries()) is Some && e@
                    == ErrorView::InvalidConfig(problem(discovery_interval_secs, scenes.entries())->0),
            },
            ({
                let asked = ConfigView {
                    api_key: types::optional_text(api_key),
                    backend,
                    discovery_interval_secs,
                    aliases: decode::map_seen(aliases@),
                    groups: decode::list_map_seen(groups@),
                    scenes: scenes@,
                };
                match r {
                    Ok(c) => sound(asked) && c@ == asked,
                    Err(e) => !sound(asked) && is_problem(asked, e@->InvalidConfig_0),
                }
            }),
    {
        scenes.note_distinct();
        proof {
            scenes_problem_of_one(scenes.entries());
        }
        match check_values(discovery_interval_secs, &scenes) {
            Ok(()) => Ok(Config { api_key, backend, discovery_interval_secs, aliases, groups, scenes }),
            Err(e) => Err(e),
        }
    }

    #[verifier::type_invariant]
    spec fn has_no_problem(&self) -> bool {
        problem(self.discovery_interval_secs, self.scenes.entries()) is None
    }

    /// Gives the proofs the fact that the values are in order.
    pub(crate) fn note_sound(&self)
        ensures
            self.valid(),
            sound(self@),
    {
        self.scenes.note_distinct();
        proof {
            use_type_invariant(self);
            scenes_problem_of_one(self.scenes.entries());
        }
    }

    /// Validate config values, returning `GoveeError::InvalidConfig` on failure.
    pub fn validate(&self) -> (r: Result<(), GoveeError>)
        ensures
            error::outcome(r) == verdict(problem(self.interval(), self.scene_map().entries())),
            r is Ok,
            self.valid(),
            match r {
                Ok(()) => sound(self@),
                Err(e) => !sound(self@) && e@ is InvalidConfig && is_problem(
                    self@,
                    e@->InvalidConfig_0,
                ),
            },
    {
        self.scenes.note_distinct();
        proof {
            use_type_invariant(self);
            scenes_problem_of_one(self.scenes.entries());
        }
        check_values(self.discovery_interval_secs, &self.scenes)
    }

    /// The configuration that a document describes: what it leaves out is
    /// filled in, and the whole is validated.
    pub fn from_json(document: &Json) -> (r: Result<Config, GoveeError>)
        ensures
            match described(document@, Source::Json) {
                None => r is Err && r->Err_0@ == ErrorView::Config(NO_CONFIG@),
                Some(config) => match r {
                    Ok(c) => sound(config) && c@ == config,
                    Err(e) => !sound(config) && e@ is InvalidConfig && is_problem(
                        config,
                        e@->InvalidConfig_0,
                    ),
                },
            },
    {
        Config::from_document(document, Source::Json)
    }

    /// The configuration that a document of this kind describes.
    pub fn from_document(document: &Json, source: Source) -> (r: Result<Config, GoveeError>)
        ensures
            match described(document@, source) {
                None => r is Err && r->Err_0@ == ErrorView::Config(NO_CONFIG@),
                Some(config) => match r {
                    Ok(c) => sound(config) && c@ == config,
                    Err(e) => !sound(config) && e@ is InvalidConfig && is_problem(
                        config,
                        e@->InvalidConfig_0,
                    ),
                },
            },
    {
        let object = array_config(document);
        let document = match &object {
            Some(object) => object,
            None => document,
        };
        match document {
            Json::Object(_) => {},
            _ => return Err(GoveeError::Config(NO_CONFIG.to_string())),
        }
        let backend = match document.get("backend") {
            None => BackendPreference::Auto,
            Some(v) => match BackendPreference::from_document(v, source) {
                Some(b) => b,
                None => return Err(GoveeError::Config(NO_CONFIG.to_string())),
            },
        };
        match (
            optional_member::<String>(document, "api_key"),
            default_member::<u64>(document, "discovery_interval_secs"),
            names_under::<String>(document, "aliases"),
            list_names_under::<String>(document, "groups"),
            scenes_in(document, source),
        ) {
            (Some(api_key), Some(interval), Some(aliases), Some(groups), Some(scenes)) => {
                let interval: u64 = match interval {
                    Some(n) => n,
                    None => DEFAULT_DISCOVERY_INTERVAL_SECS,
                };
                Config::new(api_key, backend, interval, aliases, groups, scenes)
            },
            _ => Err(GoveeError::Config(NO_CONFIG.to_string())),
        }
    }

    /// The configuration in a TOML text.
    ///
    /// Returns `GoveeError::Config` if the text is not TOML or does not have
    /// the shape of a configuration, and `GoveeError::InvalidConfig` for
    /// out-of-range values.
    pub fn parse(content: &str) -> (r: Result<Config, GoveeError>)
        ensures
            match json::toml_document(content@) {
                Err(message) => r is Err && r->Err_0@ == ErrorView::Config(message),
                Ok(document) => match described(document, Source::Toml) {
                    None => r is Err && r->Err_0@ == ErrorView::Config(NO_CONFIG@),
                    Some(config) => match r {
                        Ok(c) => sound(config) && c@ == config,
                        Err(e) => !sound(config) && e@ is InvalidConfig && is_problem(
                            config,
                            e@->InvalidConfig_0,
                        ),
                    },
                },
            },
    {
        match read_toml(content) {
            Ok(document) => Config::from_document(&document, Source::Toml),
            Err(message) => Err(GoveeError::Config(message)),
        }
    }

    pub fn api_key(&self) -> (r: Option<&str>)
        ensures
            match r {
                Some(key) => self.key() == Some(key@),
                None => self.key() is None,
            },
    {
        match &self.api_key {
            Some(key) => Some(key.as_str()),
            None => None,
        }
    }

    pub fn backend(&self) -> (r: BackendPreference)
        ensures
            r == self.preference(),
    {
        self.backend
    }

    pub fn discovery_interval_secs(&self) -> (r: u64)
        ensures
            r == self.interval(),
            r >= MIN_DISCOVERY_INTERVAL_SECS,
    {
        self.note_sound();
        self.discovery_interval_secs
    }

    pub fn aliases(&self) -> (r: &NameMap<String>)
        ensures
            *r == self.alias_map(),
    {
        &self.aliases
    }

    pub fn groups(&self) -> (r: &NameMap<Vec<String>>)
        ensures
            *r == self.group_map(),
    {
        &self.groups
    }

    pub fn scenes(&self) -> (r: &NameMap<SceneConfig>)
        ensures
            *r == self.scene_map(),
            sound(self@),
            forall|name: Seq<char>| #[trigger]
                r@.contains_key(name) ==> scene_problem(name, r@[name]) is None,
    {
        self.note_sound();
        &self.scenes
    }
}

impl Clone for Config {
    fn clone(&self) -> (r: Config)
        ensures
            r@ == self@,
            r.scene_map().entries() =~= self.scene_map().entries(),
    {
        self.note_sound();
        let scenes = self.scenes.clone();
        let aliases = self.aliases.clone();
        let groups = self.groups.clone();
        proof {
            use_type_invariant(self);
            assert(scenes.entries() =~= self.scenes.entries());
            assert(decode::map_seen(aliases@) =~= decode::map_seen(self.aliases@));
            assert forall|name: Seq<char>| #[trigger] groups@.contains_key(name) implies decode::all_seen(
                groups@[name]@,
            ) == decode::all_seen(self.groups@[name]@) by {
                assert(decode::all_seen(groups@[name]@) =~= decode::all_seen(self.groups@[name]@));
            }
            assert(decode::list_map_seen(groups@) =~= decode::list_map_seen(self.groups@));
        }
        Config {
            api_key: self.api_key.clone(),
            backend: self.backend,
            discovery_interval_secs: self.discovery_interval_secs,
            aliases,
            groups,
            scenes,
        }
    }
}

impl Default for Config {
    fn default() -> (r: Config)
        ensures
            r.valid(),
            r.key() is None,
            r.preference() == BackendPreference::Auto,
            r.interval() == 60,
            r.alias_map().entries().len() == 0,
            r.group_map().entries().len() == 0,
            r.scene_map().entries().len() == 0,
    {
        Config {
            api_key: None,
            backend: BackendPreference::Auto,
            discovery_interval_secs: DEFAULT_DISCOVERY_INTERVAL_SECS,
            aliases: NameMap::new(),
            groups: NameMap::new(),
            scenes: NameMap::new(),
        }
    }
}

/// `Some(..)` round a part, or `None`.
pub open spec fn option_text(part: Option<Seq<char>>) -> Seq<char> {
    match part {
        Some(t) => "Some("@ + t + ")"@,
        None => "None"@,
    }
}

/// A color as the debug text of a configuration shows it.
pub open spec fn color_text(c: Color) -> Seq<char> {
    "Color { r: "@ + text::decimal(c.r as nat) + ", g: "@ + text::decimal(c.g as nat) + ", b: "@
        + text::decimal(c.b as nat) + " }"@
}

/// A scene as the debug text of a configuration shows it.
pub open spec fn scene_text(scene: SceneConfig) -> Seq<char> {
    "SceneConfig { brightness: "@ + text::decimal(scene.brightness as nat) + ", color: "@ + option_text(
        match scene.color {
            Some(c) => Some(color_text(c)),
            None => None,
        },
    ) + ", color_temp: "@ + option_text(
        match scene.color_temp {
            Some(k) => Some(text::decimal(k as nat)),
            None => None,
        },
    ) + " }"@
}

/// A list of texts as the debug text of a configuration shows it.
pub open spec fn texts_text(items: Seq<String>) -> Seq<char> {
    "["@ + text::comma_list(items.map_values(|t: String| text::quoted(t@))) + "]"@
}

/// The name of a preference.
pub open spec fn preference_text(p: BackendPreference) -> Seq<char> {
    match p {
        BackendPreference::Auto => "Auto"@,
        BackendPreference::CloudOnly => "CloudOnly"@,
        BackendPreference::LocalOnly => "LocalOnly"@,
    }
}

/// One entry of a map, the name quoted.
pub open spec fn entry_text(name: Seq<char>, value: Seq<char>) -> Seq<char> {
    text::quoted(name) + ": "@ + value
}

/// The aliases as the debug text shows them.
pub open spec fn aliases_text(aliases: Seq<(String, String)>) -> Seq<char> {
    text::comma_list(aliases.map_values(|e: (String, String)| entry_text(e.0@, text::quoted(e.1@))))
}

/// The groups as the debug text shows them.
pub open spec fn groups_text(groups: Seq<(String, Vec<String>)>) -> Seq<char> {
    text::comma_list(groups.map_values(|e: (String, Vec<String>)| entry_text(e.0@, texts_text(e.1@))))
}

/// The scenes as the debug text shows them.
pub open spec fn scenes_text(scenes: Seq<(String, SceneConfig)>) -> Seq<char> {
    text::comma_list(scenes.map_values(|e: (String, SceneConfig)| entry_text(e.0@, scene_text(e.1))))
}

/// The debug text of a configuration. Of the API key it shows only whether
/// there is one.
pub open spec fn config_text(
    has_key: bool,
    backend: BackendPreference,
    interval: u64,
    aliases: Seq<(String, String)>,
    groups: Seq<(String, Vec<String>)>,
    scenes: Seq<(String, SceneConfig)>,
) -> Seq<char> {
    "Config { api_key: "@ + (if has_key {
        "Some(\"[REDACTED]\")"@
    } else {
        "None"@
    }) + ", backend: "@ + preference_text(backend) + ", discovery_interval_secs: "@ + text::decimal(
        interval as nat,
    ) + ", aliases: {"@ + aliases_text(aliases) + "}, groups: {"@ + groups_text(groups)
        + "}, scenes: {"@ + scenes_text(scenes) + "} }"@
}

fn show_option(part: Option<String>) -> (r: String)
    ensures
        r@ == option_text(types::optional_text(part)),
{
    match part {
        Some(t) => joined("Some(", t.as_str()).concat(")"),
        None => "None".to_string(),
    }
}

fn show_color(c: Color) -> (r: String)
    ensures
        r@ == color_text(c),
{
    joined("Color { r: ", decimal_text(c.r as u64).as_str()).concat(", g: ").concat(
        decimal_text(c.g as u64).as_str(),
    ).concat(", b: ").concat(decimal_text(c.b as u64).as_str()).concat(" }")
}

fn show_scene(scene: &SceneConfig) -> (r: String)
    ensures
        r@ == scene_text(*scene),
{
    let color = match scene.color {
        Some(c) => Some(show_color(c)),
        None => None,
    };
    let temp = match scene.color_temp {
        Some(k) => Some(decimal_text(k as u64)),
        None => None,
    };
    joined("SceneConfig { brightness: ", decimal_text(scene.brightness as u64).as_str()).concat(
        ", color: ",
    ).concat(show_option(color).as_str()).concat(", color_temp: ").concat(show_option(temp).as_str()).concat(
        " }",
    )
}

fn show_texts(items: &Vec<String>) -> (r: String)
    ensures
        r@ == texts_text(items@),
{
    let mut list = String::new();
    let ghost parts = items@.map_values(|t: String| text::quoted(t@));
    assert(parts.take(0) =~= Seq::empty());
    for i in 0..items.len()
        invariant
            parts == items@.map_values(|t: String| text::quoted(t@)),
            list@ == text::comma_list(parts.take(i as int)),
    {
        assert(parts.take(i as int).push(parts[i as int]) =~= parts.take(i + 1));
        push_part(&mut list, i, quote(items[i].as_str()).as_str());
    }
    assert(parts.take(items@.len() as int) =~= parts);
    joined("[", list.as_str()).concat("]")
}

fn show_entry(name: &str, value: &str) -> (r: String)
    ensures
        r@ == entry_text(name@, value@),
{
    quote(name).concat(": ").concat(value)
}

fn show_aliases(aliases: &NameMap<String>) -> (r: String)
    ensures
        r@ == aliases_text(aliases.entries()),
{
    let mut list = String::new();
    let ghost parts = aliases.entries().map_values(
        |e: (String, String)| entry_text(e.0@, text::quoted(e.1@)),
    );
    assert(parts.take(0) =~= Seq::empty());
    let n: usize = aliases.len();
    for i in 0..n
        invariant
            n == aliases.entries().len(),
            parts == aliases.entries().map_values(
                |e: (String, String)| entry_text(e.0@, text::quoted(e.1@)),
            ),
            list@ == text::comma_list(parts.take(i as int)),
    {
        let (name, value) = aliases.entry(i);
        assert(parts.take(i as int).push(parts[i as int]) =~= parts.take(i + 1));
        push_part(&mut list, i, show_entry(name, quote(value.as_str()).as_str()).as_str());
    }
    assert(parts.take(n as int) =~= parts);
    list
}

fn show_groups(groups: &NameMap<Vec<String>>) -> (r: String)
    ensures
        r@ == groups_text(groups.entries()),
{
    let mut list = String::new();
    let ghost parts = groups.entries().map_values(
        |e: (String, Vec<String>)| entry_text(e.0@, texts_text(e.1@)),
    );
    assert(parts.take(0) =~= Seq::empty());
    let n: usize = groups.len();
    for i in 0..n
        invariant
            n == groups.entries().len(),
            parts == groups.entries().map_values(
                |e: (String, Vec<String>)| entry_text(e.0@, texts_text(e.1@)),
            ),
            list@ == text::comma_list(parts.take(i as int)),
    {
        let (name, members) = groups.entry(i);
        assert(parts.take(i as int).push(parts[i as int]) =~= parts.take(i + 1));
        push_part(&mut list, i, show_entry(name, show_texts(members).as_str()).as_str());
    }
    assert(parts.take(n as int) =~= parts);
    list
}

fn show_scenes(scenes: &NameMap<SceneConfig>) -> (r: String)
    ensures
        r@ == scenes_text(scenes.entries()),
{
    let mut list = String::new();
    let ghost parts = scenes.entries().map_values(
        |e: (String, SceneConfig)| entry_text(e.0@, scene_text(e.1)),
    );
    assert(parts.take(0) =~= Seq::empty());
    let n: usize = scenes.len();
    for i in 0..n
        invariant
            n == scenes.entries().len(),
            parts == scenes.entries().map_values(
                |e: (String, SceneConfig)| entry_text(e.0@, scene_text(e.1)),
            ),
            list@ == text::comma_list(parts.take(i as int)),
    {
        let (name, scene) = scenes.entry(i);
        assert(parts.take(i as int).push(parts[i as int]) =~= parts.take(i + 1));
        push_part(&mut list, i, show_entry(name, show_scene(scene).as_str()).as_str());
    }
    assert(parts.take(n as int) =~= parts);
    list
}

impl Config {
    /// The debug text of this configuration.
    pub open spec fn shown(&self) -> Seq<char> {
        config_text(
            self.key() is Some,
            self.preference(),
            self.interval(),
            self.alias_map().entries(),
            self.group_map().entries(),
            self.scene_map().entries(),
        )
    }

    /// The configuration as debug text, the API key redacted.
    pub fn debug_text(&self) -> (r: String)
        ensures
            r@ == self.shown(),
    {
        let key = match &self.api_key {
            Some(_) => "Some(\"[REDACTED]\")",
            None => "None",
        };
        let backend = match self.backend {
            BackendPreference::Auto => "Auto",
            BackendPreference::CloudOnly => "CloudOnly",
            BackendPreference::LocalOnly => "LocalOnly",
        };
        joined("Config { api_key: ", key).concat(", backend: ").concat(backend).concat(
            ", discovery_interval_secs: ",
        ).concat(decimal_text(self.discovery_interval_secs).as_str()).concat(", aliases: {").concat(
            show_aliases(&self.aliases).as_str(),
        ).concat("}, groups: {").concat(show_groups(&self.groups).as_str()).concat("}, scenes: {").concat(
            show_scenes(&self.scenes).as_str(),
        ).concat("} }")
    }
}

/// The debug text does not depend on what the API key is.
pub proof fn debug_text_hides_key(a: Config, b: Config)
    requires
        a.key() is Some == b.key() is Some,
        a.preference() == b.preference(),
        a.interval() == b.interval(),
        a.alias_map() == b.alias_map(),
        a.group_map() == b.group_map(),
        a.scene_map() == b.scene_map(),
    ensures
        a.shown() == b.shown(),
{
}

impl ToJson for Config {
    /// The configuration as JSON. The API key is never written: null stands in
    /// its place.
    open spec fn written(&self) -> JsonView {
        JsonView::Object(
            map![
                "api_key"@ => JsonView::Null,
                "backend"@ => self.preference().written(),
                "discovery_interval_secs"@ => JsonView::Unsigned(self.interval()),
                "aliases"@ => decode::names_written(self.alias_map()@),
                "groups"@ => decode::names_written(self.group_map()@),
                "scenes"@ => decode::names_written(self.scene_map()@),
            ],
        )
    }

    fn to_json(&self) -> (r: Json) {
        Json::empty_object().with("api_key", Json::Null).with("backend", self.backend.to_json()).with(
            "discovery_interval_secs",
            Json::Unsigned(self.discovery_interval_secs),
        ).with("aliases", names_to_json(&self.aliases)).with("groups", names_to_json(&self.groups)).with(
            "scenes",
            names_to_json(&self.scenes),
        )
    }
}

/// What is written of a configuration does not depend on the API key.
pub proof fn written_hides_key(a: Config, b: Config)
    requires
        a.preference() == b.preference(),
        a.interval() == b.interval(),
        a.alias_map() == b.alias_map(),
        a.group_map() == b.group_map(),
        a.scene_map() == b.scene_map(),
    ensures
        a.written() == b.written(),
        a.written().get("api_key"@) == Some(JsonView::Null),
{
    member_names_differ();
}

/// The members of a configuration have different names.
proof fn member_names_differ()
    ensures
        "api_key"@.len() == 7,
        "backend"@.len() == 7,
        "backend"@[0] == 'b',
        "aliases"@.len() == 7,
        "api_key"@[1] == 'p',
        "aliases"@[1] == 'l',
        "discovery_interval_secs"@.len() == 23,
        "groups"@.len() == 6,
        "groups"@[0] == 'g',
        "scenes"@.len() == 6,
        "scenes"@[0] == 's',
        "api_key"@[0] == 'a',
        "aliases"@[0] == 'a',
{
    reveal_strlit("api_key");
    reveal_strlit("backend");
    reveal_strlit("aliases");
    reveal_strlit("discovery_interval_secs");
    reveal_strlit("groups");
    reveal_strlit("scenes");
}

/// A scene of a configuration is read back as it was written.
pub proof fn scene_config_round_trip(scene: SceneConfig)
    ensures
        SceneConfig::read(scene.written()) == Some(scene),
{
    reveal_strlit("brightness");
    reveal_strlit("color");
    reveal_strlit("color_temp");
    assert("brightness"@.len() == 10 && "color"@.len() == 5 && "color_temp"@.len() == 10);
    assert("brightness"@[0] == 'b' && "color_temp"@[0] == 'c');
    match scene.color {
        Some(c) => {
            types::color_round_trip(c);
        },
        None => {},
    }
}

/// A configuration is read back as it was written, but for the API key.
pub proof fn config_round_trip(config: Config)
    ensures
        described(config.written(), Source::Json) == Some(ConfigView { api_key: None, ..config@ }),
{
    let document = config.written();
    member_names_differ();
    reveal_strlit("auto");
    reveal_strlit("cloudonly");
    reveal_strlit("localonly");
    reveal_strlit("cloud");
    assert("auto"@.len() == 4 && "cloudonly"@.len() == 9 && "localonly"@.len() == 9 && "cloud"@.len() == 5);
    assert("cloudonly"@[0] == 'c' && "localonly"@[0] == 'l');
    decode::texts_round_trip(config.alias_map()@);
    decode::text_lists_round_trip(config.group_map()@);
    let scenes = config.scene_map()@;
    let members = decode::names_written(scenes)->Object_0;
    assert forall|name: Seq<char>| #[trigger] members.contains_key(name) implies SceneConfig::read(
        members[name],
    ) == Some(scenes[name]) by {
        scene_config_round_trip(scenes[name]);
    }
    assert(read_scenes(document, Source::Json)->Some_0 =~= scenes);
    assert(BackendPreference::read(config.preference().written()) == Some(config.preference()));
}

} // verus!
