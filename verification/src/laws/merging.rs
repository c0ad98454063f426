//! What the registry holds of the devices that the backends listed.
use vstd::prelude::*;

use crate::config::BackendPreference;
use crate::error::ErrorView;
use crate::registry;
use crate::registry::RegisteredView;
use crate::registry::RegistryView;
use crate::types::BackendType;
use crate::types::DeviceView;

verus! {

/// The registry that comes of two lists.
pub open spec fn registry_of(
    preference: BackendPreference,
    cloud: Seq<DeviceView>,
    local: Seq<DeviceView>,
) -> RegistryView {
    registry::built(preference, Some(Ok(cloud)), Some(Ok(local)))->Ok_0
}

/// The last device of a cloud list with an identifier counts.
proof fn last_cloud_device(cloud: Seq<DeviceView>, i: int)
    requires
        0 <= i < cloud.len(),
        forall|j: int| i < j < cloud.len() ==> #[trigger] cloud[j].id != cloud[i].id,
    ensures
        registry::with_cloud(cloud).contains_key(cloud[i].id),
        registry::with_cloud(cloud)[cloud[i].id] == (RegisteredView {
            device: cloud[i],
            active_backend: BackendType::Cloud,
        }),
    decreases cloud.len(),
{
    let rest = cloud.drop_last();
    if i < rest.len() {
        assert(cloud[cloud.len() - 1].id != cloud[i].id);
        assert forall|j: int| i < j < rest.len() implies #[trigger] rest[j].id != rest[i].id by {
            assert(cloud[j].id != cloud[i].id);
        }
        last_cloud_device(rest, i);
    }
}

/// What no cloud list names is not there.
proof fn no_cloud_device(cloud: Seq<DeviceView>, id: Seq<char>)
    requires
        forall|j: int| 0 <= j < cloud.len() ==> #[trigger] cloud[j].id != id,
    ensures
        !registry::with_cloud(cloud).contains_key(id),
    decreases cloud.len(),
{
    if cloud.len() > 0 {
        let rest = cloud.drop_last();
        assert(cloud[cloud.len() - 1].id != id);
        assert forall|j: int| 0 <= j < rest.len() implies #[trigger] rest[j].id != id by {
            assert(cloud[j].id != id);
        }
        no_cloud_device(rest, id);
    }
}

/// A local list leaves the devices that it does not name.
proof fn not_in_local(before: Map<Seq<char>, RegisteredView>, local: Seq<DeviceView>, id: Seq<char>)
    requires
        forall|j: int| 0 <= j < local.len() ==> #[trigger] local[j].id != id,
    ensures
        registry::with_local(before, local).contains_key(id) == before.contains_key(id),
        registry::with_local(before, local)[id] == before[id],
    decreases local.len(),
{
    if local.len() > 0 {
        let rest = local.drop_last();
        assert(local[local.len() - 1].id != id);
        assert forall|j: int| 0 <= j < rest.len() implies #[trigger] rest[j].id != id by {
            assert(local[j].id != id);
        }
        not_in_local(before, rest, id);
    }
}

/// The first device of a local list with an identifier counts, unless it was
/// known before.
proof fn first_local_device(before: Map<Seq<char>, RegisteredView>, local: Seq<DeviceView>, i: int)
    requires
        0 <= i < local.len(),
        forall|j: int| 0 <= j < i ==> #[trigger] local[j].id != local[i].id,
    ensures
        registry::with_local(before, local).contains_key(local[i].id),
        ({
            let r = registry::with_local(before, local)[local[i].id];
            let known = before.contains_key(local[i].id);
            let repeated = exists|j: int| i < j < local.len() && #[trigger] local[j].id == local[i].id;
            &&& r.active_backend == BackendType::Local
            &&& known ==> r.device == (DeviceView {
                backend: BackendType::Local,
                ..before[local[i].id].device
            })
            &&& !known && !repeated ==> r.device == local[i]
            &&& !known && repeated ==> r.device == (DeviceView { backend: BackendType::Local, ..local[i] })
        }),
    decreases local.len(),
{
    let rest = local.drop_last();
    let id = local[i].id;
    let n = local.len() - 1;
    if i == n {
        assert forall|j: int| 0 <= j < rest.len() implies #[trigger] rest[j].id != id by {
            assert(local[j].id != id);
        }
        not_in_local(before, rest, id);
    } else {
        assert forall|j: int| 0 <= j < i implies #[trigger] rest[j].id != rest[i].id by {
            assert(local[j].id != id);
        }
        first_local_device(before, rest, i);
        if exists|j: int| i < j < rest.len() && #[trigger] rest[j].id == rest[i].id {
            let j = choose|j: int| i < j < rest.len() && #[trigger] rest[j].id == rest[i].id;
            assert(local[j].id == id);
        }
        if local[n].id != id && exists|j: int| i < j < local.len() && #[trigger] local[j].id == id {
            let j = choose|j: int| i < j < local.len() && #[trigger] local[j].id == id;
            assert(rest[j].id == id);
        }
    }
}

/// A device that only the local list names is registered as the local backend
/// listed it, every field of it, and routed there. Where the list names it more
/// than once, the first one counts, as a local device.
pub proof fn local_devices_are_registered_unchanged(
    preference: BackendPreference,
    cloud: Seq<DeviceView>,
    local: Seq<DeviceView>,
    i: int,
)
    requires
        0 <= i < local.len(),
        forall|j: int| 0 <= j < i ==> #[trigger] local[j].id != local[i].id,
        forall|j: int| 0 <= j < cloud.len() ==> #[trigger] cloud[j].id != local[i].id,
    ensures
        ({
            let devices = registry_of(preference, cloud, local).devices;
            let d = devices[local[i].id].device;
            &&& devices.contains_key(local[i].id)
            &&& devices[local[i].id].active_backend == BackendType::Local
            &&& d.id == local[i].id
            &&& d.model == local[i].model
            &&& d.name == local[i].name
            &&& d.alias == local[i].alias
            &&& d.backend == local[i].backend || d.backend == BackendType::Local
            &&& (forall|j: int| i < j < local.len() ==> #[trigger] local[j].id != local[i].id) ==> d
                == local[i]
            &&& local[i].backend == BackendType::Local ==> d == local[i]
        }),
{
    no_cloud_device(cloud, local[i].id);
    first_local_device(registry::with_cloud(cloud), local, i);
}

/// A device that only the cloud list names is registered as the cloud listed it,
/// every field of it, and routed there. Where the list names it more than once,
/// the last one counts.
pub proof fn cloud_devices_are_registered_unchanged(
    preference: BackendPreference,
    cloud: Seq<DeviceView>,
    local: Seq<DeviceView>,
    i: int,
)
    requires
        0 <= i < cloud.len(),
        forall|j: int| i < j < cloud.len() ==> #[trigger] cloud[j].id != cloud[i].id,
        forall|j: int| 0 <= j < local.len() ==> #[trigger] local[j].id != cloud[i].id,
    ensures
        registry_of(preference, cloud, local).devices.contains_key(cloud[i].id),
        registry_of(preference, cloud, local).devices[cloud[i].id].device == cloud[i],
        registry_of(preference, cloud, local).devices[cloud[i].id].active_backend == BackendType::Cloud,
{
    last_cloud_device(cloud, i);
    not_in_local(registry::with_cloud(cloud), local, cloud[i].id);
}

/// A device that both lists name keeps the model, the name and the alias that the
/// cloud listed, whatever the local list says, and is a local device, routed to
/// the local backend.
pub proof fn devices_of_both_are_local_under_their_cloud_names(
    preference: BackendPreference,
    cloud: Seq<DeviceView>,
    local: Seq<DeviceView>,
    i: int,
    k: int,
)
    requires
        0 <= i < cloud.len(),
        forall|j: int| i < j < cloud.len() ==> #[trigger] cloud[j].id != cloud[i].id,
        0 <= k < local.len(),
        local[k].id == cloud[i].id,
    ensures
        ({
            let devices = registry_of(preference, cloud, local).devices;
            let d = devices[cloud[i].id].device;
            &&& devices.contains_key(cloud[i].id)
            &&& devices[cloud[i].id].active_backend == BackendType::Local
            &&& d.id == cloud[i].id
            &&& d.model == cloud[i].model
            &&& d.name == cloud[i].name
            &&& d.alias == cloud[i].alias
            &&& d.backend == BackendType::Local
        }),
    decreases k,
{
    if forall|j: int| 0 <= j < k ==> #[trigger] local[j].id != local[k].id {
        last_cloud_device(cloud, i);
        first_local_device(registry::with_cloud(cloud), local, k);
    } else {
        let j = choose|j: int| 0 <= j < k && #[trigger] local[j].id == local[k].id;
        devices_of_both_are_local_under_their_cloud_names(preference, cloud, local, i, j);
    }
}

/// Nothing is registered that no list names.
pub proof fn only_listed_devices_are_registered(
    preference: BackendPreference,
    cloud: Seq<DeviceView>,
    local: Seq<DeviceView>,
    id: Seq<char>,
)
    requires
        forall|j: int| 0 <= j < cloud.len() ==> #[trigger] cloud[j].id != id,
        forall|j: int| 0 <= j < local.len() ==> #[trigger] local[j].id != id,
    ensures
        !registry_of(preference, cloud, local).devices.contains_key(id),
{
    no_cloud_device(cloud, id);
    not_in_local(registry::with_cloud(cloud), local, id);
}

/// A backend that is not there lists nothing, and so does a cloud that could not
/// be asked, unless the cloud alone is wanted: that is an error, and so is a
/// local list that could not be had.
pub proof fn lists_that_are_missing(
    preference: BackendPreference,
    cloud: Option<Result<Seq<DeviceView>, ErrorView>>,
    local: Option<Result<Seq<DeviceView>, ErrorView>>,
    c: Seq<DeviceView>,
    l: Seq<DeviceView>,
    e: ErrorView,
    f: ErrorView,
)
    requires
        cloud == None::<Result<Seq<DeviceView>, ErrorView>> || cloud == Some(
            Ok::<Seq<DeviceView>, ErrorView>(c),
        ) || cloud == Some(Err::<Seq<DeviceView>, ErrorView>(e)),
        local == None::<Result<Seq<DeviceView>, ErrorView>> || local == Some(
            Ok::<Seq<DeviceView>, ErrorView>(l),
        ) || local == Some(Err::<Seq<DeviceView>, ErrorView>(f)),
    ensures
        ({
            let r = registry::built(preference, cloud, local);
            let from_cloud = if cloud matches Some(Ok(_)) {
                c
            } else {
                Seq::empty()
            };
            let from_local = if local is Some {
                l
            } else {
                Seq::empty()
            };
            if cloud matches Some(Err(_)) && preference is CloudOnly {
                r == Err::<RegistryView, ErrorView>(e)
            } else if local matches Some(Err(_)) {
                r == Err::<RegistryView, ErrorView>(f)
            } else {
                &&& r is Ok
                &&& r->Ok_0.devices == registry_of(preference, from_cloud, from_local).devices
                &&& r->Ok_0.cloud == cloud is Some
                &&& r->Ok_0.local == local is Some
            }
        }),
{
}

/// Which backends are created: one for the cloud exactly if there is an API key,
/// and one for the local network unless the cloud alone is wanted, which takes a
/// key.
pub proof fn backends_that_are_created(preference: BackendPreference, has_key: bool)
    ensures
        ({
            let r = registry::planned(preference, has_key);
            match preference {
                BackendPreference::Auto => r == Ok::<(bool, bool), ErrorView>((has_key, true)),
                BackendPreference::LocalOnly => r == Ok::<(bool, bool), ErrorView>((has_key, true)),
                BackendPreference::CloudOnly => r == (if has_key {
                    Ok::<(bool, bool), ErrorView>((true, false))
                } else {
                    Err(ErrorView::InvalidConfig("CloudOnly backend requires an API key"@))
                }),
            }
        }),
{
}

/// The registry does without the local backend only where it is not there to be
/// had and is not the one that is wanted.
pub proof fn local_backends_that_fail(preference: BackendPreference, e: ErrorView)
    ensures
        registry::local_failure(preference, e) == (match (preference, e) {
            (BackendPreference::LocalOnly, _) => Some(e),
            (_, ErrorView::BackendUnavailable(_)) => None,
            _ => Some(e),
        }),
{
}

/// A device is handled by the backend that it is routed to, or by none.
pub proof fn devices_are_handled_where_they_are_routed(registry: RegistryView, id: Seq<char>)
    ensures
        ({
            let r = registry::routed(registry, id);
            let active = registry.devices[id].active_backend;
            if !registry.devices.contains_key(id) {
                r == Err::<BackendType, ErrorView>(ErrorView::DeviceNotFound(id))
            } else {
                match active {
                    BackendType::Cloud => r == (if registry.cloud {
                        Ok(BackendType::Cloud)
                    } else {
                        Err(ErrorView::BackendUnavailable("cloud"@))
                    }),
                    BackendType::Local => r == (if registry.local {
                        Ok(BackendType::Local)
                    } else {
                        Err(ErrorView::BackendUnavailable("local"@))
                    }),
                }
            }
        }),
{
}

/// A list of the registered devices holds each of them, and nothing else, once.
pub proof fn registered_devices_are_listed(
    devices: Map<Seq<char>, RegisteredView>,
    list: Seq<DeviceView>,
    id: Seq<char>,
    i: int,
)
    requires
        registry::is_registered_list(devices, list),
    ensures
        devices.contains_key(id) ==> list.contains(devices[id].device),
        0 <= i < list.len() ==> devices.contains_key(list[i].id) && devices[list[i].id].device == list[i],
        list.len() == devices.dom().len(),
{
}

} // verus!
