//! What is asked of the cloud for a device.
use vstd::prelude::*;

use crate::backend::cloud;
use crate::backend::cloud::CloudView;
use crate::backend::cloud::Method;
use crate::backend::cloud::RequestView;
use crate::backend::cloud::StateStepView;
use crate::backend::url;
use crate::backend::url::UrlView;
use crate::capability::CapabilityView;
use crate::capability::EnumOptionView;
use crate::capability::ParametersView;
use crate::error::ErrorView;
use crate::json;
use crate::json::JsonView;
use crate::types::DeviceStateView;

verus! {

/// What the v2 API is told when it is asked about a device.
pub open spec fn question(cloud: CloudView, id: Seq<char>, request_id: Seq<char>, url: Seq<char>) -> RequestView {
    RequestView {
        method: Method::Post,
        url,
        api_key: cloud.api_key,
        body: Some(
            json::json_bytes(
                JsonView::Object(
                    map![
                        "requestId"@ => JsonView::Text(request_id),
                        "payload"@ => JsonView::Object(map![
                            "sku"@ => JsonView::Text(cloud.models[id]),
                            "device"@ => JsonView::Text(id),
                        ]),
                    ],
                ),
            ),
        ),
    }
}

/// The error for a device whose model is not known.
pub open spec fn not_listed(id: Seq<char>) -> ErrorView {
    ErrorView::DeviceNotFound(id + " (call list_devices first to populate the device cache)"@)
}

/// The scenes of a known device are asked for as soon as one of its capabilities,
/// wherever it stands in the list, is that of dynamic scenes.
pub proof fn scenes_are_asked_for(
    cloud: CloudView,
    id: Seq<char>,
    request_id: Seq<char>,
    url: Seq<char>,
    i: int,
)
    requires
        cloud.models.contains_key(id),
        cloud.capabilities.contains_key(id),
        0 <= i < cloud.capabilities[id].len(),
        cloud.capabilities[id][i].type_ == "devices.capabilities.dynamic_scene"@,
        url::url_joined(cloud.new_base.text, "/router/api/v1/device/scenes"@) == Ok::<Seq<char>, Seq<char>>(
            url,
        ),
    ensures
        cloud::scenes_request(cloud, id, request_id) == Ok::<Option<RequestView>, ErrorView>(
            Some(question(cloud, id, request_id, url)),
        ),
{
    let wanted = |t: Seq<char>| t == "devices.capabilities.dynamic_scene"@;
    assert(wanted(cloud.capabilities[id][i].type_));
}

/// A device none of whose capabilities is that of dynamic scenes has no scenes to
/// ask for.
pub proof fn no_scenes_are_asked_for(cloud: CloudView, id: Seq<char>, request_id: Seq<char>)
    requires
        cloud.capabilities.contains_key(id) ==> forall|i: int|
            0 <= i < cloud.capabilities[id].len() ==> (#[trigger] cloud.capabilities[id][i]).type_
                != "devices.capabilities.dynamic_scene"@,
    ensures
        cloud::scenes_request(cloud, id, request_id) == Ok::<Option<RequestView>, ErrorView>(None),
{
}

/// The DIY scenes of a known device are asked for as soon as the type of one of
/// its capabilities, wherever it stands in the list, speaks of dynamic scenes.
pub proof fn diy_scenes_are_asked_for(
    cloud: CloudView,
    id: Seq<char>,
    request_id: Seq<char>,
    url: Seq<char>,
    i: int,
    before: Seq<char>,
    after: Seq<char>,
)
    requires
        cloud.models.contains_key(id),
        cloud.capabilities.contains_key(id),
        0 <= i < cloud.capabilities[id].len(),
        cloud.capabilities[id][i].type_ == before + "dynamic_scene"@ + after,
        url::url_joined(cloud.new_base.text, "/router/api/v1/device/diy-scenes"@) == Ok::<
            Seq<char>,
            Seq<char>,
        >(url),
    ensures
        cloud::diy_scenes_request(cloud, id, request_id) == Ok::<Option<RequestView>, ErrorView>(
            Some(question(cloud, id, request_id, url)),
        ),
{
    let wanted = |t: Seq<char>| crate::text::occurs("dynamic_scene"@, t);
    let t = cloud.capabilities[id][i].type_;
    let p = "dynamic_scene"@;
    assert(t.subrange(before.len() as int, before.len() as int + p.len()) =~= p);
    assert(crate::text::occurs_at(p, t, before.len() as int));
    assert(wanted(cloud.capabilities[id][i].type_));
}

/// A device none of whose capabilities speaks of dynamic scenes has no DIY scenes
/// to ask for.
pub proof fn no_diy_scenes_are_asked_for(cloud: CloudView, id: Seq<char>, request_id: Seq<char>)
    requires
        cloud.capabilities.contains_key(id) ==> forall|i: int, before: Seq<char>, after: Seq<char>|
            #![trigger cloud.capabilities[id][i], before + "dynamic_scene"@ + after]
            0 <= i < cloud.capabilities[id].len() ==> cloud.capabilities[id][i].type_ != before
                + "dynamic_scene"@ + after,
    ensures
        cloud::diy_scenes_request(cloud, id, request_id) == Ok::<Option<RequestView>, ErrorView>(None),
{
    let p = "dynamic_scene"@;
    let wanted = |t: Seq<char>| crate::text::occurs(p, t);
    if cloud::has_capability(cloud, id, wanted) {
        let caps = cloud.capabilities[id];
        let i = choose|i: int| 0 <= i < caps.len() && wanted(#[trigger] caps[i].type_);
        let t = caps[i].type_;
        let k = choose|k: int| #[trigger] crate::text::occurs_at(p, t, k);
        let before = t.take(k);
        let after = t.skip(k + p.len());
        assert(t.subrange(k, k + p.len()) == p);
        assert(t =~= before + p + after) by {
            assert forall|j: int| 0 <= j < t.len() implies t[j] == (before + p + after)[j] by {
                if k <= j < k + p.len() {
                    assert(t.subrange(k, k + p.len())[j - k] == p[j - k]);
                }
            }
        }
        assert(false);
    }
}

/// Scenes of a device that no list named cannot be asked for.
pub proof fn scenes_of_unknown_devices(cloud: CloudView, id: Seq<char>, request_id: Seq<char>, i: int)
    requires
        !cloud.models.contains_key(id),
        cloud.capabilities.contains_key(id),
        0 <= i < cloud.capabilities[id].len(),
        cloud.capabilities[id][i].type_ == "devices.capabilities.dynamic_scene"@,
    ensures
        cloud::scenes_request(cloud, id, request_id) == Err::<Option<RequestView>, ErrorView>(
            not_listed(id),
        ),
{
    let wanted = |t: Seq<char>| t == "devices.capabilities.dynamic_scene"@;
    assert(wanted(cloud.capabilities[id][i].type_));
}

/// A capability that offers nothing, or that is not the one of work modes, adds no
/// work mode.
pub proof fn capabilities_without_work_modes(caps: Seq<CapabilityView>, cap: CapabilityView)
    requires
        cap.type_ != "devices.capabilities.work_mode"@ || cap.instance != "workMode"@ || (match cap.parameters {
            ParametersView::Enum { options } => options.len() == 0,
            _ => true,
        }),
    ensures
        cloud::all_modes(Seq::empty()) == Seq::<(u32, Seq<char>)>::empty(),
        cloud::all_modes(caps.push(cap)) == cloud::all_modes(caps),
{
    assert(caps.push(cap).drop_last() =~= caps);
    assert(cloud::all_modes(caps) + Seq::<(u32, Seq<char>)>::empty() =~= cloud::all_modes(caps));
}

/// Each further option of the work mode capability adds one work mode at the end,
/// with its number and its name, if its value is a number of 32 bits, and none
/// otherwise.
pub proof fn one_more_work_mode(
    caps: Seq<CapabilityView>,
    options: Seq<EnumOptionView>,
    name: Seq<char>,
    value: JsonView,
    n: u64,
)
    ensures
        ({
            let with = |options: Seq<EnumOptionView>|
                cloud::all_modes(
                    caps.push(
                        CapabilityView {
                            type_: "devices.capabilities.work_mode"@,
                            instance: "workMode"@,
                            parameters: ParametersView::Enum { options },
                        },
                    ),
                );
            let more = with(options.push(EnumOptionView { name, value }));
            &&& value == JsonView::Unsigned(n) && n <= 0xffff_ffff ==> more == with(options).push((n as u32, name))
            &&& value == JsonView::Unsigned(n) && n > 0xffff_ffff ==> more == with(options)
            &&& !(value is Unsigned) ==> more == with(options)
        }),
{
    let cap = |options: Seq<EnumOptionView>|
        CapabilityView {
            type_: "devices.capabilities.work_mode"@,
            instance: "workMode"@,
            parameters: ParametersView::Enum { options },
        };
    let option = EnumOptionView { name, value };
    assert(caps.push(cap(options)).drop_last() =~= caps);
    assert(caps.push(cap(options.push(option))).drop_last() =~= caps);
    assert(options.push(option).drop_last() =~= options);
    assert(cloud::all_modes(caps.push(cap(options))) == cloud::all_modes(caps) + cloud::modes_in(options));
    assert(cloud::all_modes(caps.push(cap(options.push(option)))) == cloud::all_modes(caps) + cloud::modes_in(
        options.push(option),
    ));
    if value is Unsigned && value->Unsigned_0 <= 0xffff_ffff {
        let mode = (value->Unsigned_0 as u32, name);
        assert(cloud::modes_in(options.push(option)) == cloud::modes_in(options).push(mode));
        assert(cloud::all_modes(caps) + cloud::modes_in(options).push(mode) =~= (cloud::all_modes(caps)
            + cloud::modes_in(options)).push(mode));
    }
}

/// The state of a known device is asked of the v2 API first. Where its model is
/// not known, the devices are listed first.
pub proof fn state_is_asked_of_v2(cloud: CloudView, id: Seq<char>, request_id: Seq<char>, url: Seq<char>)
    requires
        url::url_joined(cloud.new_base.text, "/router/api/v1/device/state"@) == Ok::<Seq<char>, Seq<char>>(
            url,
        ),
    ensures
        cloud::state_first_step(cloud, id, request_id) == (if cloud.models.contains_key(id) {
            StateStepView::SendV2(question(cloud, id, request_id, url))
        } else {
            StateStepView::Refresh
        }),
{
}

/// A state that the v2 API gives is the answer. Where it does not know the device,
/// or answers with an error of its own, the legacy API is asked, by device and
/// model; where the model is not known, the devices are listed first. Any other
/// error is the answer.
pub proof fn v2_outcomes_of_a_state_query(
    cloud: CloudView,
    id: Seq<char>,
    state: DeviceStateView,
    e: ErrorView,
    endpoint: Seq<char>,
    parts: UrlView,
    url: Seq<char>,
)
    requires
        url::url_joined(cloud.base.text, "v1/devices/state"@) == Ok::<Seq<char>, Seq<char>>(endpoint),
        url::url_parts(endpoint) == Ok::<UrlView, Seq<char>>(parts),
        parts.text.len() <= u32::MAX,
        url::url_with_pairs(endpoint, "device"@, id, "model"@, cloud.models[id]) == Ok::<
            Seq<char>,
            Seq<char>,
        >(url),
    ensures
        cloud::state_after_v2(cloud, id, Ok(state)) == StateStepView::Finished(Ok(state)),
        cloud::state_after_v2(cloud, id, Err(e)) == (match e {
            ErrorView::DeviceNotFound(_) | ErrorView::Api { .. } => if cloud.models.contains_key(id) {
                StateStepView::SendLegacy(
                    RequestView { method: Method::Get, url, api_key: cloud.api_key, body: None },
                )
            } else {
                StateStepView::Refresh
            },
            _ => StateStepView::Finished(Err(e)),
        }),
        cloud::step_after_refresh(cloud, id) == (if cloud.models.contains_key(id) {
            StateStepView::SendLegacy(
                RequestView { method: Method::Get, url, api_key: cloud.api_key, body: None },
            )
        } else {
            StateStepView::Finished(Err(not_listed(id)))
        }),
{
}

/// A request without a body is a plain GET of the path, with the API key.
pub proof fn lists_are_got(cloud: CloudView, path: Seq<char>, url: Seq<char>, message: Seq<char>)
    ensures
        url::url_joined(cloud.new_base.text, path) == Ok::<Seq<char>, Seq<char>>(url)
            ==> cloud::get_request(cloud, path) == Ok::<RequestView, ErrorView>(
            RequestView { method: Method::Get, url, api_key: cloud.api_key, body: None },
        ),
        url::url_joined(cloud.new_base.text, path) == Err::<Seq<char>, Seq<char>>(message)
            ==> cloud::get_request(cloud, path) == Err::<RequestView, ErrorView>(
            ErrorView::InvalidConfig("invalid new API path '"@ + path + "': "@ + message),
        ),
{
}

/// A payload is posted in an envelope with the request ID, with the API key.
pub proof fn payloads_are_posted(
    cloud: CloudView,
    path: Seq<char>,
    payload: JsonView,
    request_id: Seq<char>,
    url: Seq<char>,
)
    requires
        url::url_joined(cloud.new_base.text, path) == Ok::<Seq<char>, Seq<char>>(url),
    ensures
        cloud::post_request(cloud, path, payload, request_id) == Ok::<RequestView, ErrorView>(
            RequestView {
                method: Method::Post,
                url,
                api_key: cloud.api_key,
                body: Some(
                    json::json_bytes(
                        JsonView::Object(
                            map![
                                "requestId"@ => JsonView::Text(request_id),
                                "payload"@ => payload,
                            ],
                        ),
                    ),
                ),
            },
        ),
{
}

/// A new backend knows no devices and keeps the key. Its URLs and its name are
/// the ones of the service, unless others are given.
pub proof fn new_backends(
    api_key: Seq<char>,
    base_url: Option<Seq<char>>,
    agent: Option<Seq<char>>,
    base: UrlView,
)
    requires
        agent matches Some(t) ==> forall|i: int|
            0 <= i < t.len() ==> (#[trigger] t[i]) as u32 >= 32 && t[i] as u32 != 127,
        url::url_parts(
            match base_url {
                Some(t) => t,
                None => "https://developer-api.govee.com"@,
            },
        ) == Ok::<UrlView, Seq<char>>(base),
        base.scheme == "https"@,
    ensures
        cloud::new_backend(api_key, base_url, agent) == Ok::<CloudView, ErrorView>(
            CloudView {
                base,
                new_base: UrlView {
                    text: "https://openapi.api.govee.com/"@,
                    scheme: "https"@,
                    host: Some("openapi.api.govee.com"@),
                },
                api_key,
                user_agent: match agent {
                    Some(t) => t,
                    None => "govee/"@ + "0.6.0"@,
                },
                models: Map::empty(),
                capabilities: Map::empty(),
            },
        ),
{
}

/// A name with a control character is refused, wherever it stands, and so is a
/// URL that goes over plain HTTP to another machine.
pub proof fn backends_that_are_refused(
    api_key: Seq<char>,
    raw: Seq<char>,
    agent: Seq<char>,
    base: UrlView,
    i: int,
)
    ensures
        0 <= i < agent.len() && ((agent[i] as u32) < 32 || agent[i] as u32 == 127) ==> cloud::new_backend(
            api_key,
            Some(raw),
            Some(agent),
        ) == Err::<CloudView, ErrorView>(
            ErrorView::InvalidConfig("user_agent contains invalid characters"@),
        ),
        url::url_parts(raw) == Ok::<UrlView, Seq<char>>(base) && base.scheme != "https"@ && (match base.host {
            Some(host) => host != "localhost"@ && host != "[::1]"@ && (host.len() < 4 || host[0] != '1'),
            None => true,
        }) ==> cloud::new_backend(api_key, Some(raw), None) == Err::<CloudView, ErrorView>(
            ErrorView::InvalidConfig(
                "base URL"@ + " must use HTTPS (HTTP is only allowed for loopback addresses), got: "@ + raw,
            ),
        ),
{
    if 0 <= i < agent.len() && ((agent[i] as u32) < 32 || agent[i] as u32 == 127) {
        assert(cloud::is_control(agent[i]));
    }
    if base.host is Some {
        crate::laws::addresses::loopback_quads_begin_alike(base.host->Some_0);
    }
}

/// How long a request and a connection may take, and how often a command is tried
/// again.
pub proof fn limits_of_requests()
    ensures
        cloud::DEFAULT_TIMEOUT_SECS == 30,
        cloud::DEFAULT_CONNECT_TIMEOUT_SECS == 10,
        cloud::MAX_RETRIES == 3,
        cloud::MAX_RETRY_AFTER_SECS == 300,
        crate::registry::DISCOVERY_TIMEOUT_SECS == 2,
{
}

} // verus!
