//! What is said to people.
use vstd::prelude::*;

use crate::backend::cloud;
use crate::capability::CapabilityValue;
use crate::config::BackendPreference;
use crate::config::SceneConfig;
use crate::config;
use crate::error::ErrorView;
use crate::json;
use crate::text;
use crate::types::Color;

verus! {

/// What an error says: what kind it is, and then what it is about.
pub proof fn errors_say_what_they_are(e: ErrorView)
    ensures
        e.message() == (match e {
            ErrorView::Request(t) => "request error: "@ + t,
            ErrorView::Io(t) => "I/O error: "@ + t,
            ErrorView::Udp(t) => "UDP error: "@ + t,
            ErrorView::Api { code, message } => "API error "@ + text::decimal(code as nat) + ": "@ + message,
            ErrorView::RateLimited { retry_after_secs } => "rate limited \u{2014} retry after "@
                + text::decimal(retry_after_secs as nat) + "s"@,
            ErrorView::DeviceNotFound(t) => "device not found: "@ + t,
            ErrorView::BackendUnavailable(t) => "backend unavailable: "@ + t,
            ErrorView::DiscoveryTimeout => "discovery timeout"@,
            ErrorView::Serialization(t) => "serialization error: "@ + t,
            ErrorView::Json(t) => "JSON error: "@ + t,
            ErrorView::Config(t) => "config error: "@ + t,
            ErrorView::NotImplemented(t) => "not implemented: "@ + t,
            ErrorView::InvalidDeviceId(t) => "invalid device ID: "@ + t,
            ErrorView::InvalidBrightness(b) => "brightness must be 0\u{2013}100, got "@ + text::decimal(
                b as nat,
            ),
            ErrorView::InvalidConfig(t) => "invalid config: "@ + t,
            ErrorView::Protocol(t) => "protocol error: "@ + t,
        }),
{
}

/// What errors of different kinds say of the same thing is different.
pub proof fn kinds_of_errors_are_told_apart(t: Seq<char>)
    ensures
        ErrorView::Request(t).message() != ErrorView::Udp(t).message(),
        ErrorView::DeviceNotFound(t).message() != ErrorView::BackendUnavailable(t).message(),
        ErrorView::Config(t).message() != ErrorView::InvalidConfig(t).message(),
        ErrorView::Json(t).message() != ErrorView::Serialization(t).message(),
        ErrorView::NotImplemented(t).message() != ErrorView::Protocol(t).message(),
{
    reveal_strlit("request error: ");
    reveal_strlit("UDP error: ");
    reveal_strlit("device not found: ");
    reveal_strlit("backend unavailable: ");
    reveal_strlit("config error: ");
    reveal_strlit("invalid config: ");
    reveal_strlit("JSON error: ");
    reveal_strlit("serialization error: ");
    reveal_strlit("not implemented: ");
    reveal_strlit("protocol error: ");
    assert(ErrorView::Request(t).message()[0] == 'r' && ErrorView::Udp(t).message()[0] == 'U');
    assert(ErrorView::DeviceNotFound(t).message()[0] == 'd' && ErrorView::BackendUnavailable(t).message()[0]
        == 'b');
    assert(ErrorView::Config(t).message()[0] == 'c' && ErrorView::InvalidConfig(t).message()[0] == 'i');
    assert(ErrorView::Json(t).message()[0] == 'J' && ErrorView::Serialization(t).message()[0] == 's');
    assert(ErrorView::NotImplemented(t).message()[0] == 'n' && ErrorView::Protocol(t).message()[0] == 'p');
}

/// Control values that the v2 API does not take are named in the error, with what
/// they hold.
pub proof fn unsupported_values_are_named(value: CapabilityValue)
    ensures
        match value {
            CapabilityValue::SegmentColor { segments, rgb } => cloud::capability_for(value) == Err::<
                (Seq<char>, Seq<char>, json::JsonView),
                ErrorView,
            >(
                ErrorView::NotImplemented(
                    "control_v2 does not support "@ + ("SegmentColor { segments: "@ + cloud::numbers_text(
                        segments@,
                    ) + ", rgb: "@ + text::decimal(rgb as nat) + " }"@),
                ),
            ),
            CapabilityValue::SegmentBrightness { segments, brightness } => cloud::capability_for(value) == Err::<
                (Seq<char>, Seq<char>, json::JsonView),
                ErrorView,
            >(
                ErrorView::NotImplemented(
                    "control_v2 does not support "@ + ("SegmentBrightness { segments: "@
                        + cloud::numbers_text(segments@) + ", brightness: "@ + text::decimal(brightness as nat)
                        + " }"@),
                ),
            ),
            CapabilityValue::Raw(raw) => cloud::capability_for(value) == Err::<
                (Seq<char>, Seq<char>, json::JsonView),
                ErrorView,
            >(
                ErrorView::NotImplemented(
                    "control_v2 does not support "@ + ("Raw("@ + json::json_debug(raw@) + ")"@),
                ),
            ),
            _ => cloud::capability_for(value) is Ok,
        },
{
}

/// A list is shown with a comma and a blank between its items, in order.
pub proof fn lists_are_shown_with_commas(parts: Seq<Seq<char>>, part: Seq<char>, n: u8)
    ensures
        text::comma_list(Seq::empty()) == Seq::<char>::empty(),
        text::comma_list(seq![part]) == part,
        parts.len() > 0 ==> text::comma_list(parts.push(part)) == text::comma_list(parts) + ", "@ + part,
        cloud::numbers_text(Seq::empty()) == "["@ + Seq::empty() + "]"@,
        cloud::numbers_text(seq![n]) == "["@ + text::decimal(n as nat) + "]"@,
{
    assert(parts.push(part).drop_last() =~= parts);
    let shown = |n: u8| text::decimal(n as nat);
    assert(Seq::<u8>::empty().map_values(shown) =~= Seq::<Seq<char>>::empty());
    assert(seq![n].map_values(shown) =~= seq![text::decimal(n as nat)]);
}

/// How the parts of a configuration are shown.
pub proof fn configurations_are_shown(
    c: Color,
    brightness: u8,
    kelvin: u32,
    t: Seq<char>,
    v: Seq<char>,
)
    ensures
        config::option_text(None) == "None"@,
        config::option_text(Some(t)) == "Some("@ + t + ")"@,
        config::entry_text(t, v) == text::quoted(t) + ": "@ + v,
        config::color_text(c) == "Color { r: "@ + text::decimal(c.r as nat) + ", g: "@ + text::decimal(
            c.g as nat,
        ) + ", b: "@ + text::decimal(c.b as nat) + " }"@,
        config::scene_text(SceneConfig { brightness, color: Some(c), color_temp: None })
            == "SceneConfig { brightness: "@ + text::decimal(brightness as nat) + ", color: "@ + ("Some("@
            + config::color_text(c) + ")"@) + ", color_temp: "@ + "None"@ + " }"@,
        config::scene_text(SceneConfig { brightness, color: None, color_temp: Some(kelvin) })
            == "SceneConfig { brightness: "@ + text::decimal(brightness as nat) + ", color: "@ + "None"@
            + ", color_temp: "@ + ("Some("@ + text::decimal(kelvin as nat) + ")"@) + " }"@,
        config::preference_text(BackendPreference::Auto) == "Auto"@,
        config::preference_text(BackendPreference::CloudOnly) == "CloudOnly"@,
        config::preference_text(BackendPreference::LocalOnly) == "LocalOnly"@,
{
}

/// A configuration is shown with its fields in order, and of the key only whether
/// there is one.
pub proof fn fields_are_shown_in_order(
    has_key: bool,
    backend: BackendPreference,
    interval: u64,
    aliases: Seq<(String, String)>,
    groups: Seq<(String, Vec<String>)>,
    scenes: Seq<(String, SceneConfig)>,
)
    ensures
        config::config_text(has_key, backend, interval, aliases, groups, scenes) == "Config { api_key: "@
            + (if has_key {
            "Some(\"[REDACTED]\")"@
        } else {
            "None"@
        }) + ", backend: "@ + config::preference_text(backend) + ", discovery_interval_secs: "@
            + text::decimal(interval as nat) + ", aliases: {"@ + config::aliases_text(aliases)
            + "}, groups: {"@ + config::groups_text(groups) + "}, scenes: {"@ + config::scenes_text(scenes)
            + "} }"@,
{
}

/// The first entries of the maps of a configuration are shown alone, and each
/// further one after a comma.
pub proof fn entries_are_shown_with_commas(
    aliases: Seq<(String, String)>,
    alias: (String, String),
    scenes: Seq<(String, SceneConfig)>,
    scene: (String, SceneConfig),
    item: String,
)
    ensures
        config::aliases_text(aliases.push(alias)) == (if aliases.len() == 0 {
            text::quoted(alias.0@) + ": "@ + text::quoted(alias.1@)
        } else {
            config::aliases_text(aliases) + ", "@ + (text::quoted(alias.0@) + ": "@ + text::quoted(alias.1@))
        }),
        config::scenes_text(scenes.push(scene)) == (if scenes.len() == 0 {
            text::quoted(scene.0@) + ": "@ + config::scene_text(scene.1)
        } else {
            config::scenes_text(scenes) + ", "@ + (text::quoted(scene.0@) + ": "@ + config::scene_text(
                scene.1,
            ))
        }),
        config::texts_text(seq![item]) == "["@ + text::quoted(item@) + "]"@,
{
    let a = |e: (String, String)| config::entry_text(e.0@, text::quoted(e.1@));
    assert(aliases.push(alias).map_values(a) =~= aliases.map_values(a).push(a(alias)));
    assert(aliases.map_values(a).push(a(alias)).drop_last() =~= aliases.map_values(a));
    let s = |e: (String, SceneConfig)| config::entry_text(e.0@, config::scene_text(e.1));
    assert(scenes.push(scene).map_values(s) =~= scenes.map_values(s).push(s(scene)));
    assert(scenes.map_values(s).push(s(scene)).drop_last() =~= scenes.map_values(s));
    let q = |t: String| text::quoted(t@);
    assert(seq![item].map_values(q) =~= seq![text::quoted(item@)]);
}

/// A backend for the cloud is shown with its URL and how many devices and
/// capabilities it knows.
pub proof fn backends_are_shown(base: Seq<char>, devices: nat, capabilities: nat)
    ensures
        cloud::cloud_text(base, devices, capabilities) == "CloudBackend { base_url: "@ + text::quoted(base)
            + ", api_key: \"[REDACTED]\", cached_devices: "@ + text::decimal(devices)
            + ", cached_capabilities: "@ + text::decimal(capabilities) + " }"@,
        crate::registry::truth_text(true) == "true"@,
        crate::registry::truth_text(false) == "false"@,
{
}

} // verus!
