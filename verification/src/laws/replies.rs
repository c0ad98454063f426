//! What the replies of the cloud mean.
use vstd::prelude::*;

use crate::backend::cloud;
use crate::backend::reply::V2Device;
use crate::backend::reply::V2StateResponse;
use crate::backend::reply::V2StateView;
use crate::backend::reply;
use crate::backend::reply::BodyView;
use crate::backend::reply::EnvelopeView;
use crate::backend::reply::NewApiResponse;
use crate::backend::reply::Reading;
use crate::backend::reply::ReplyView;
use crate::backend::reply::V1ControlResponse;
use crate::backend::reply::V1ControlView;
use crate::backend::reply::V1StateResponse;
use crate::backend::reply::V1StateView;
use crate::backend::reply::V2DeviceView;
use crate::backend::state;
use crate::capability::CapabilityStateView;
use crate::decode::FromJson;
use crate::decode;
use crate::error::ErrorView;
use crate::json::JsonView;
use crate::outline::FromText;
use crate::text;
use crate::types::DeviceStateView;
use crate::types::DeviceView;
use crate::types::DiyScene;
use crate::types::DiySceneView;
use crate::types::LightScene;
use crate::types::LightSceneView;

verus! {

/// The error for a reply that is no success, if it is one.
pub open spec fn status_error(status: u16, header: Option<Seq<char>>, message: Seq<char>) -> Option<ErrorView> {
    if status == 429 {
        Some(
            ErrorView::RateLimited {
                retry_after_secs: match header {
                    Some(t) => match text::unsigned_value(t) {
                        Some(n) => n,
                        None => 60,
                    },
                    None => 60,
                },
            },
        )
    } else if status < 200 || status >= 300 {
        Some(ErrorView::Api { code: status, message })
    } else {
        None
    }
}

/// A request that could not be sent, and a reply that is no success, fail alike
/// whatever was asked for.
pub proof fn failures_are_the_same_for_all(
    message: Seq<char>,
    status: u16,
    header: Option<Seq<char>>,
    text: Seq<char>,
)
    requires
        status_error(status, header, text) is Some,
    ensures
        ({
            let e = status_error(status, header, text)->Some_0;
            let sent = Ok(ReplyView { status, retry_after: header, body: BodyView::Text(text) });
            &&& reply::payload_received(sent) == Err::<JsonView, ErrorView>(e)
            &&& reply::v1_list(sent) == Err::<Seq<DeviceView>, ErrorView>(e)
            &&& reply::v2_list(sent) == Err::<Seq<V2DeviceView>, ErrorView>(e)
            &&& cloud::control_received(sent) == Err::<(), ErrorView>(e)
            &&& cloud::v2_state_received(sent) == Err::<DeviceStateView, ErrorView>(e)
            &&& cloud::legacy_state_received(sent) == Err::<DeviceStateView, ErrorView>(e)
        }),
        ({
            let e = ErrorView::Request(message);
            let sent = Err(message);
            &&& reply::payload_received(sent) == Err::<JsonView, ErrorView>(e)
            &&& reply::v1_list(sent) == Err::<Seq<DeviceView>, ErrorView>(e)
            &&& reply::v2_list(sent) == Err::<Seq<V2DeviceView>, ErrorView>(e)
            &&& cloud::control_received(sent) == Err::<(), ErrorView>(e)
            &&& cloud::v2_state_received(sent) == Err::<DeviceStateView, ErrorView>(e)
            &&& cloud::legacy_state_received(sent) == Err::<DeviceStateView, ErrorView>(e)
        }),
{
}

/// The body of a reply is read as bytes where the reply is a success, as text
/// where it is not, and not at all where the server asks to wait.
pub proof fn bodies_are_read(status: u16)
    ensures
        reply::reading_of(status) == (if status == 429 {
            Reading::Nothing
        } else if 200 <= status && status < 300 {
            Reading::Bytes
        } else {
            Reading::Text
        }),
{
}

/// The message of an error is the body, or says why there is none.
pub proof fn messages_of_errors(status: u16, header: Option<Seq<char>>, t: Seq<char>, bytes: Seq<u8>)
    requires
        status != 429,
        status < 200 || status >= 300,
    ensures
        reply::checked_reply(ReplyView { status, retry_after: header, body: BodyView::Text(t) }) == Err::<
            BodyView,
            ErrorView,
        >(ErrorView::Api { code: status, message: t }),
        reply::checked_reply(ReplyView { status, retry_after: header, body: BodyView::Read(bytes) }) == Err::<
            BodyView,
            ErrorView,
        >(ErrorView::Api { code: status, message: reply::lossy_text(bytes) }),
        reply::checked_reply(ReplyView { status, retry_after: header, body: BodyView::Failed(t) }) == Err::<
            BodyView,
            ErrorView,
        >(
            ErrorView::Api {
                code: status,
                message: "<failed to read response body: "@ + t + ">"@,
            },
        ),
{
}

/// A reply of the v2 API that is a success holds an envelope. The payload counts
/// if the code of the envelope is 200. Any other code is an error, which a command
/// too ends with: 429 says to wait a minute, and a code that is no HTTP status
/// counts as 500.
pub proof fn envelopes_are_opened(
    status: u16,
    header: Option<Seq<char>>,
    bytes: Seq<u8>,
    envelope: EnvelopeView,
)
    requires
        200 <= status < 300,
        NewApiResponse::read_text(bytes) == Some(envelope),
    ensures
        ({
            let sent = Ok(ReplyView { status, retry_after: header, body: BodyView::Read(bytes) });
            let e = if envelope.code == 429 {
                ErrorView::RateLimited { retry_after_secs: 60 }
            } else if envelope.code == 404 {
                ErrorView::Api { code: 404, message: "not found: "@ + envelope.msg }
            } else if envelope.code < 65536 {
                ErrorView::Api { code: envelope.code as u16, message: envelope.msg }
            } else {
                ErrorView::Api {
                    code: 500,
                    message: "unexpected status code "@ + text::decimal(envelope.code as nat) + ": "@
                        + envelope.msg,
                }
            };
            &&& envelope.code == 200 ==> reply::payload_received(sent) == Ok::<JsonView, ErrorView>(
                envelope.payload,
            ) && cloud::control_received(sent) == Ok::<(), ErrorView>(())
            &&& envelope.code != 200 ==> reply::payload_received(sent) == Err::<JsonView, ErrorView>(e)
                && cloud::control_received(sent) == Err::<(), ErrorView>(e) && reply::v2_list(sent) == Err::<
                Seq<V2DeviceView>,
                ErrorView,
            >(e) && cloud::v2_state_received(sent) == Err::<DeviceStateView, ErrorView>(e)
        }),
{
}

/// A body that is no envelope, and one that could not be read, are errors of the
/// request.
pub proof fn bodies_that_are_no_envelopes(
    status: u16,
    header: Option<Seq<char>>,
    bytes: Seq<u8>,
    message: Seq<char>,
)
    requires
        200 <= status < 300,
        NewApiResponse::read_text(bytes) is None,
    ensures
        reply::payload_received(
            Ok(ReplyView { status, retry_after: header, body: BodyView::Read(bytes) }),
        ) matches Err(ErrorView::Request(_)),
        reply::payload_received(
            Ok(ReplyView { status, retry_after: header, body: BodyView::Failed(message) }),
        ) == Err::<JsonView, ErrorView>(ErrorView::Request(message)),
{
}

/// A command over the legacy API is done if the code of the reply is 200, and
/// otherwise fails with the code and the message of the reply. The state over the
/// legacy API is the one that the properties of the reply describe.
pub proof fn legacy_replies(
    status: u16,
    header: Option<Seq<char>>,
    bytes: Seq<u8>,
    attempt: u32,
    reply: V1ControlView,
    properties: V1StateView,
)
    requires
        200 <= status < 300,
    ensures
        ({
            let sent = Ok(ReplyView { status, retry_after: header, body: BodyView::Read(bytes) });
            &&& V1ControlResponse::read_text(bytes) == Some(reply) && reply.code == 200
                ==> cloud::next_after_legacy(sent, attempt) == cloud::ControlStepView::Finished(Ok(()))
            &&& V1ControlResponse::read_text(bytes) == Some(reply) && reply.code != 200
                ==> cloud::next_after_legacy(sent, attempt) == cloud::ControlStepView::Finished(
                Err(ErrorView::Api { code: reply.code, message: reply.message }),
            )
            &&& V1StateResponse::read_text(bytes) == Some(properties) && properties.code == 200
                ==> cloud::legacy_state_received(sent) == Ok::<DeviceStateView, ErrorView>(
                state::described_by_properties(properties.properties),
            )
            &&& V1StateResponse::read_text(bytes) == Some(properties) && properties.code != 200
                ==> cloud::legacy_state_received(sent) == Err::<DeviceStateView, ErrorView>(
                ErrorView::Api { code: properties.code, message: properties.message },
            )
        }),
{
}

/// Once the payload is there, a device list, a state and the lists of scenes are
/// what it says, and it is an error where it says none.
pub proof fn payloads_are_read(
    sent: Result<ReplyView, Seq<char>>,
    payload: JsonView,
    devices: Seq<V2DeviceView>,
    caps: Seq<CapabilityStateView>,
    members: Map<Seq<char>, JsonView>,
    scenes: Seq<LightSceneView>,
    diy: Seq<DiySceneView>,
)
    requires
        reply::payload_received(sent) == Ok::<JsonView, ErrorView>(payload),
    ensures
        reply::v2_list(sent) == Ok::<Seq<V2DeviceView>, ErrorView>(devices) <==> decode::read_list::<V2Device>(
            payload,
        ) == Some(devices),
        reply::v2_list(sent) matches Err(e) ==> e is Json,
        V2StateResponse::read(payload) == Some(V2StateView { capabilities: caps }) ==> cloud::v2_state_received(
            sent,
        ) == Ok::<DeviceStateView, ErrorView>(state::described_by_capabilities(caps)),
        V2StateResponse::read(payload) is None ==> (cloud::v2_state_received(sent) matches Err(e) && e is Json),
        payload == JsonView::Object(members) ==> {
            &&& reply::payload_list::<LightScene>(sent, "scenes") == Ok::<Seq<LightSceneView>, ErrorView>(scenes)
                <==> members.contains_key("scenes"@) && decode::read_list::<LightScene>(members["scenes"@])
                == Some(scenes)
            &&& reply::payload_list::<DiyScene>(sent, "diyScenes") == Ok::<Seq<DiySceneView>, ErrorView>(diy)
                <==> members.contains_key("diyScenes"@) && decode::read_list::<DiyScene>(
                members["diyScenes"@],
            ) == Some(diy)
        },
{
}

/// A body that was read as text says what its characters say.
pub proof fn text_bodies_are_read(status: u16, header: Option<Seq<char>>, t: Seq<char>)
    requires
        200 <= status < 300,
    ensures
        reply::payload_received(
            Ok(ReplyView { status, retry_after: header, body: BodyView::Text(t) }),
        ) == reply::payload_received(
            Ok(
                ReplyView {
                    status,
                    retry_after: header,
                    body: BodyView::Read(vstd::utf8::encode_utf8(t)),
                },
            ),
        ),
{
}

} // verus!
