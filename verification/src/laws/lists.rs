//! What comes of the device lists of the cloud.
use vstd::prelude::*;

use crate::backend::cloud;
use crate::backend::cloud::CloudView;
use crate::backend::reply;
use crate::backend::reply::V1DeviceView;
use crate::backend::reply::V1DevicesView;
use crate::backend::reply::V2DeviceView;
use crate::error::ErrorView;
use crate::types;
use crate::types::BackendType;
use crate::types::DeviceView;

verus! {

/// Where neither list names a device, none is listed. Where the v2 list could not
/// be had, what came of the v1 list stands; where the v1 list could not be had,
/// the devices are those of the v2 list.
pub proof fn one_list_is_enough(
    v2: Seq<V2DeviceView>,
    v1: Result<Seq<DeviceView>, ErrorView>,
    e: ErrorView,
)
    ensures
        cloud::listed(Ok(Seq::empty()), Ok(Seq::empty())) == Ok::<Seq<DeviceView>, ErrorView>(Seq::empty()),
        cloud::listed(Err(e), v1) == v1,
        cloud::listed(Ok(v2), Err(e)) == cloud::listed(Ok(v2), Ok(Seq::empty())),
{
}

/// Each further device of the v2 list is listed after the ones before it, under
/// its identifier, with its SKU as the model, its name, no alias and the cloud as
/// its backend; one without a valid identifier is passed over.
pub proof fn one_more_v2_device(list: Seq<V2DeviceView>, d: V2DeviceView)
    ensures
        ({
            let before = cloud::listed(Ok(list), Ok(Seq::empty()))->Ok_0;
            let after = cloud::listed(Ok(list.push(d)), Ok(Seq::empty()));
            match types::device_id(d.device) {
                Ok(id) => after == Ok::<Seq<DeviceView>, ErrorView>(
                    before.push(
                        DeviceView {
                            id,
                            model: d.sku,
                            name: d.device_name,
                            alias: None,
                            backend: BackendType::Cloud,
                        },
                    ),
                ),
                Err(_) => after == Ok::<Seq<DeviceView>, ErrorView>(before),
            }
        }),
{
    assert(list.push(d).drop_last() =~= list);
    let none = Seq::<DeviceView>::empty();
    assert(cloud::v2_devices(list) + none =~= cloud::v2_devices(list));
    assert(cloud::v2_devices(list.push(d)) + none =~= cloud::v2_devices(list.push(d)));
}

/// Each further device of the v1 list is listed after the ones before it, as it
/// is, unless some device of the v2 list has the same identifier.
pub proof fn one_more_v1_device(list: Seq<V2DeviceView>, v1: Seq<DeviceView>, d: DeviceView)
    ensures
        ({
            let before = cloud::listed(Ok(list), Ok(v1))->Ok_0;
            let after = cloud::listed(Ok(list), Ok(v1.push(d)));
            let named = exists|i: int|
                0 <= i < list.len() && types::device_id(#[trigger] list[i].device) == Ok::<
                    Seq<char>,
                    ErrorView,
                >(d.id);
            after == Ok::<Seq<DeviceView>, ErrorView>(
                if named {
                    before
                } else {
                    before.push(d)
                },
            )
        }),
{
    assert(v1.push(d).drop_last() =~= v1);
    let from_v2 = cloud::v2_devices(list);
    let from_v1 = cloud::v1_only(list, v1);
    assert(from_v2 + from_v1.push(d) =~= (from_v2 + from_v1).push(d));
}

/// After a list, the model of a device is the one that the list gives, the last
/// one where it names the device more than once.
pub proof fn models_are_those_listed(
    cloud: CloudView,
    v2: Result<Seq<V2DeviceView>, ErrorView>,
    v1: Result<Seq<DeviceView>, ErrorView>,
    i: int,
)
    requires
        cloud::listed(v2, v1) is Ok,
        0 <= i < cloud::listed(v2, v1)->Ok_0.len(),
        forall|j: int|
            i < j < cloud::listed(v2, v1)->Ok_0.len() ==> (#[trigger] cloud::listed(v2, v1)->Ok_0[j]).id
                != cloud::listed(v2, v1)->Ok_0[i].id,
    ensures
        ({
            let d = cloud::listed(v2, v1)->Ok_0[i];
            let after = cloud::after_listing(cloud, v2, v1);
            after.models.contains_key(d.id) && after.models[d.id] == d.model
        }),
{
    last_model(cloud::listed(v2, v1)->Ok_0, i);
}

proof fn last_model(devices: Seq<DeviceView>, i: int)
    requires
        0 <= i < devices.len(),
        forall|j: int| i < j < devices.len() ==> (#[trigger] devices[j]).id != devices[i].id,
    ensures
        cloud::models_in(devices).contains_key(devices[i].id),
        cloud::models_in(devices)[devices[i].id] == devices[i].model,
    decreases devices.len(),
{
    let rest = devices.drop_last();
    if i < rest.len() {
        assert(devices[devices.len() - 1].id != devices[i].id);
        assert forall|j: int| i < j < rest.len() implies (#[trigger] rest[j]).id != rest[i].id by {
            assert(devices[j].id != devices[i].id);
        }
        last_model(rest, i);
    }
}

/// After a list, no model is known of a device that it does not name.
pub proof fn other_models_are_forgotten(
    cloud: CloudView,
    v2: Result<Seq<V2DeviceView>, ErrorView>,
    v1: Result<Seq<DeviceView>, ErrorView>,
    id: Seq<char>,
)
    requires
        cloud::listed(v2, v1) is Ok,
        forall|j: int|
            0 <= j < cloud::listed(v2, v1)->Ok_0.len() ==> (#[trigger] cloud::listed(v2, v1)->Ok_0[j]).id != id,
    ensures
        !cloud::after_listing(cloud, v2, v1).models.contains_key(id),
{
    no_model(cloud::listed(v2, v1)->Ok_0, id);
}

proof fn no_model(devices: Seq<DeviceView>, id: Seq<char>)
    requires
        forall|j: int| 0 <= j < devices.len() ==> (#[trigger] devices[j]).id != id,
    ensures
        !cloud::models_in(devices).contains_key(id),
    decreases devices.len(),
{
    if devices.len() > 0 {
        let rest = devices.drop_last();
        assert(devices[devices.len() - 1].id != id);
        assert forall|j: int| 0 <= j < rest.len() implies (#[trigger] rest[j]).id != id by {
            assert(devices[j].id != id);
        }
        no_model(rest, id);
    }
}

/// After a v2 list, the capabilities of a device are the ones that the list
/// gives, the last ones where it names the device more than once.
pub proof fn capabilities_are_those_listed(
    cloud: CloudView,
    list: Seq<V2DeviceView>,
    v1: Result<Seq<DeviceView>, ErrorView>,
    i: int,
    id: Seq<char>,
)
    requires
        0 <= i < list.len(),
        types::device_id(list[i].device) == Ok::<Seq<char>, ErrorView>(id),
        forall|j: int|
            i < j < list.len() ==> types::device_id((#[trigger] list[j]).device) != Ok::<Seq<char>, ErrorView>(
                id,
            ),
    ensures
        cloud::after_listing(cloud, Ok(list), v1).capabilities.contains_key(id),
        cloud::after_listing(cloud, Ok(list), v1).capabilities[id] == list[i].capabilities,
{
    last_capabilities(list, i, id);
}

proof fn last_capabilities(list: Seq<V2DeviceView>, i: int, id: Seq<char>)
    requires
        0 <= i < list.len(),
        types::device_id(list[i].device) == Ok::<Seq<char>, ErrorView>(id),
        forall|j: int|
            i < j < list.len() ==> types::device_id((#[trigger] list[j]).device) != Ok::<Seq<char>, ErrorView>(
                id,
            ),
    ensures
        cloud::v2_capabilities(list).contains_key(id),
        cloud::v2_capabilities(list)[id] == list[i].capabilities,
    decreases list.len(),
{
    let rest = list.drop_last();
    if i < rest.len() {
        assert(types::device_id(list[list.len() - 1].device) != Ok::<Seq<char>, ErrorView>(id));
        assert forall|j: int| i < j < rest.len() implies types::device_id((#[trigger] rest[j]).device) != Ok::<
            Seq<char>,
            ErrorView,
        >(id) by {
            assert(types::device_id(list[j].device) != Ok::<Seq<char>, ErrorView>(id));
        }
        last_capabilities(rest, i, id);
    }
}

/// After a v2 list, no capabilities are known of a device that it does not name.
pub proof fn other_capabilities_are_forgotten(
    cloud: CloudView,
    list: Seq<V2DeviceView>,
    v1: Result<Seq<DeviceView>, ErrorView>,
    id: Seq<char>,
)
    requires
        forall|j: int|
            0 <= j < list.len() ==> types::device_id((#[trigger] list[j]).device) != Ok::<Seq<char>, ErrorView>(
                id,
            ),
    ensures
        !cloud::after_listing(cloud, Ok(list), v1).capabilities.contains_key(id),
    decreases list.len(),
{
    if list.len() > 0 {
        let rest = list.drop_last();
        assert(types::device_id(list[list.len() - 1].device) != Ok::<Seq<char>, ErrorView>(id));
        assert forall|j: int| 0 <= j < rest.len() implies types::device_id((#[trigger] rest[j]).device) != Ok::<
            Seq<char>,
            ErrorView,
        >(id) by {
            assert(types::device_id(list[j].device) != Ok::<Seq<char>, ErrorView>(id));
        }
        other_capabilities_are_forgotten(cloud, rest, v1, id);
    }
}

/// A list changes nothing but the models and the capabilities that are known;
/// the capabilities stay where there is no v2 list, and everything where there is
/// none at all.
pub proof fn what_a_list_leaves(
    cloud: CloudView,
    v2: Result<Seq<V2DeviceView>, ErrorView>,
    v1: Result<Seq<DeviceView>, ErrorView>,
)
    ensures
        ({
            let after = cloud::after_listing(cloud, v2, v1);
            &&& after.base == cloud.base
            &&& after.new_base == cloud.new_base
            &&& after.api_key == cloud.api_key
            &&& after.user_agent == cloud.user_agent
            &&& v2 is Err ==> after.capabilities == cloud.capabilities
            &&& v2 is Err && v1 is Err ==> after.models == cloud.models
        }),
{
}

/// A v1 list with another code than 200 is an error with its code and message.
/// Otherwise no device fails, and each further one comes after the ones before
/// it, with its model and name, no alias and the cloud as its backend; one without
/// a valid identifier makes the whole list fail.
pub proof fn one_more_device_of_a_v1_reply(
    devices: Seq<V1DeviceView>,
    d: V1DeviceView,
    code: u16,
    message: Seq<char>,
)
    ensures
        code != 200 ==> reply::v1_listed(V1DevicesView { devices, code, message }) == Err::<
            Seq<DeviceView>,
            ErrorView,
        >(ErrorView::Api { code, message }),
        ({
            let list = |devices: Seq<V1DeviceView>|
                reply::v1_listed(V1DevicesView { devices, code: 200, message });
            let after = list(devices.push(d));
            &&& list(Seq::empty()) == Ok::<Seq<DeviceView>, ErrorView>(Seq::empty())
            &&& match (list(devices), types::device_id(d.device)) {
                (Err(e), _) => after == Err::<Seq<DeviceView>, ErrorView>(e),
                (Ok(_), Err(e)) => after == Err::<Seq<DeviceView>, ErrorView>(e),
                (Ok(before), Ok(id)) => after == Ok::<Seq<DeviceView>, ErrorView>(
                    before.push(
                        DeviceView {
                            id,
                            model: d.model,
                            name: d.device_name,
                            alias: None,
                            backend: BackendType::Cloud,
                        },
                    ),
                ),
            }
        }),
{
    assert(devices.push(d).drop_last() =~= devices);
}

} // verus!
