//! The central device registry.
use vstd::prelude::*;
use vstd::string::*;

use crate::backend::reply;
use crate::config::BackendPreference;
use crate::config::Config;
use crate::error;
use crate::error::joined;
use crate::error::ErrorView;
use crate::error::GoveeError;
use crate::names;
use crate::names::NameMap;
use crate::text;
use crate::text::decimal_text;
use crate::types;
use crate::types::BackendType;
use crate::types::Device;
use crate::types::DeviceId;
use crate::types::DeviceView;

verus! {

/// How long the scan for devices takes at the start, in seconds.
pub const DISCOVERY_TIMEOUT_SECS: u64 = 2;

/// A device after cloud+local merge.
#[derive(Debug)]
pub struct RegisteredDevice {
    pub device: Device,
    /// Which backend handles commands for this device.
    pub active_backend: BackendType,
}

/// What a registered device is.
pub struct RegisteredView {
    pub device: DeviceView,
    pub active_backend: BackendType,
}

impl View for RegisteredDevice {
    type V = RegisteredView;

    open spec fn view(&self) -> RegisteredView {
        RegisteredView { device: self.device@, active_backend: self.active_backend }
    }
}

/// Central device registry with backend selection.
///
/// Merges device lists from cloud and local backends and routes each device to
/// one of them.
pub struct DeviceRegistry {
    devices: NameMap<RegisteredDevice>,
    cloud: bool,
    local: bool,
    config: Config,
}

/// What a registry holds: the devices by identifier, and which backends there
/// are.
#[verifier::ext_equal]
pub struct RegistryView {
    pub devices: Map<Seq<char>, RegisteredView>,
    pub cloud: bool,
    pub local: bool,
}

/// The registered devices by identifier, each by its view.
pub open spec fn registered(devices: Map<Seq<char>, RegisteredDevice>) -> Map<Seq<char>, RegisteredView> {
    devices.map_values(|d: RegisteredDevice| d@)
}

impl View for DeviceRegistry {
    type V = RegistryView;

    closed spec fn view(&self) -> RegistryView {
        RegistryView { devices: registered(self.devices@), cloud: self.cloud, local: self.local }
    }
}

/// Which backends to create.
#[derive(Debug)]
pub struct StartPlan {
    /// Create a cloud backend.
    pub cloud: bool,
    /// Create a local backend.
    pub local: bool,
}

/// Which backends a configuration asks for, by its preference and whether it has
/// an API key: the cloud backend if there is a key, and the local one unless the
/// cloud alone is wanted.
pub open spec fn planned(preference: BackendPreference, has_key: bool) -> Result<(bool, bool), ErrorView> {
    if preference == BackendPreference::CloudOnly && !has_key {
        Err(ErrorView::InvalidConfig("CloudOnly backend requires an API key"@))
    } else {
        Ok((has_key, preference != BackendPreference::CloudOnly))
    }
}

/// What a failure to create the local backend means: an error, or nothing where
/// the registry can do without it.
pub open spec fn local_failure(preference: BackendPreference, e: ErrorView) -> Option<ErrorView> {
    if e is BackendUnavailable && preference != BackendPreference::LocalOnly {
        None
    } else {
        Some(e)
    }
}

/// The devices of a cloud list, each routed to the cloud.
pub open spec fn with_cloud(devices: Seq<DeviceView>) -> Map<Seq<char>, RegisteredView>
    decreases devices.len(),
{
    if devices.len() == 0 {
        Map::empty()
    } else {
        let d = devices.last();
        with_cloud(devices.drop_last()).insert(
            d.id,
            RegisteredView { device: d, active_backend: BackendType::Cloud },
        )
    }
}

/// The registration of a device that is in a local list: what the cloud said of
/// it is kept, but it is routed to the local backend.
pub open spec fn localized(before: Map<Seq<char>, RegisteredView>, d: DeviceView) -> RegisteredView {
    if before.contains_key(d.id) {
        RegisteredView {
            device: DeviceView { backend: BackendType::Local, ..before[d.id].device },
            active_backend: BackendType::Local,
        }
    } else {
        RegisteredView { device: d, active_backend: BackendType::Local }
    }
}

/// The registered devices with those of a local list merged in.
pub open spec fn with_local(before: Map<Seq<char>, RegisteredView>, devices: Seq<DeviceView>) -> Map<
    Seq<char>,
    RegisteredView,
>
    decreases devices.len(),
{
    if devices.len() == 0 {
        before
    } else {
        let merged = with_local(before, devices.drop_last());
        let d = devices.last();
        merged.insert(d.id, localized(merged, d))
    }
}

/// The devices that a backend listed, if there is one.
pub open spec fn list_view(list: Option<Result<Vec<Device>, GoveeError>>) -> Option<
    Result<Seq<DeviceView>, ErrorView>,
> {
    match list {
        Some(r) => Some(reply::devices_outcome(r)),
        None => None,
    }
}

/// The devices of the cloud. A failure to list them counts only where the cloud
/// alone is wanted.
pub open spec fn cloud_part(
    preference: BackendPreference,
    cloud: Option<Result<Seq<DeviceView>, ErrorView>>,
) -> Result<Seq<DeviceView>, ErrorView> {
    match cloud {
        None => Ok(Seq::empty()),
        Some(Ok(devices)) => Ok(devices),
        Some(Err(e)) => if preference == BackendPreference::CloudOnly {
            Err(e)
        } else {
            Ok(Seq::empty())
        },
    }
}

/// The devices of the local network.
pub open spec fn local_part(local: Option<Result<Seq<DeviceView>, ErrorView>>) -> Result<
    Seq<DeviceView>,
    ErrorView,
> {
    match local {
        None => Ok(Seq::empty()),
        Some(r) => r,
    }
}

/// What [`DeviceRegistry::build`] comes to.
pub open spec fn built(
    preference: BackendPreference,
    cloud: Option<Result<Seq<DeviceView>, ErrorView>>,
    local: Option<Result<Seq<DeviceView>, ErrorView>>,
) -> Result<RegistryView, ErrorView> {
    match cloud_part(preference, cloud) {
        Err(e) => Err(e),
        Ok(cloud_devices) => match local_part(local) {
            Err(e) => Err(e),
            Ok(local_devices) => Ok(
                RegistryView {
                    devices: with_local(with_cloud(cloud_devices), local_devices),
                    cloud: cloud is Some,
                    local: local is Some,
                },
            ),
        },
    }
}

/// The backend that a device is routed to, if the backend is there.
pub open spec fn routed(registry: RegistryView, id: Seq<char>) -> Result<BackendType, ErrorView> {
    if !registry.devices.contains_key(id) {
        Err(ErrorView::DeviceNotFound(id))
    } else {
        let active = registry.devices[id].active_backend;
        let there = match active {
            BackendType::Cloud => registry.cloud,
            BackendType::Local => registry.local,
        };
        if there {
            Ok(active)
        } else {
            Err(ErrorView::BackendUnavailable(active.name()))
        }
    }
}

/// Whether each device stands under its own identifier.
pub open spec fn own_ids(devices: Map<Seq<char>, RegisteredView>) -> bool {
    forall|id: Seq<char>| #[trigger] devices.contains_key(id) ==> devices[id].device.id == id
}

/// Whether `list` holds the registered devices, all of them and no other, each
/// once.
pub open spec fn is_registered_list(devices: Map<Seq<char>, RegisteredView>, list: Seq<DeviceView>) -> bool {
    &&& list.len() == devices.dom().len()
    &&& forall|id: Seq<char>| #[trigger]
        devices.contains_key(id) ==> list.contains(devices[id].device)
    &&& forall|i: int|
        0 <= i < list.len() ==> devices.contains_key(#[trigger] list[i].id) && list[i]
            == devices[list[i].id].device
}

impl DeviceRegistry {
    #[verifier::type_invariant]
    spec fn in_place(&self) -> bool {
        own_ids(registered(self.devices@))
    }

    /// The configuration that the registry was built with.
    pub closed spec fn settings(&self) -> Config {
        self.config
    }

    /// Which backends to create for a configuration.
    pub fn start(config: &Config) -> (r: Result<StartPlan, GoveeError>)
        ensures
            match r {
                Ok(plan) => planned(config.preference(), config.key() is Some) == Ok::<
                    (bool, bool),
                    ErrorView,
                >((plan.cloud, plan.local)),
                Err(e) => planned(config.preference(), config.key() is Some) == Err::<
                    (bool, bool),
                    ErrorView,
                >(e@),
            },
    {
        let has_key = config.api_key().is_some();
        if config.backend() == BackendPreference::CloudOnly && !has_key {
            return Err(GoveeError::InvalidConfig("CloudOnly backend requires an API key".to_string()));
        }
        Ok(StartPlan { cloud: has_key, local: config.backend() != BackendPreference::CloudOnly })
    }

    /// Whether to go on after the local backend could not be created.
    pub fn without_local(config: &Config, e: GoveeError) -> (r: Result<(), GoveeError>)
        ensures
            error::outcome(r) == (match local_failure(config.preference(), e@) {
                Some(e) => Err(e),
                None => Ok(()),
            }),
    {
        let unavailable = match &e {
            GoveeError::BackendUnavailable(_) => true,
            _ => false,
        };
        if unavailable && config.backend() != BackendPreference::LocalOnly {
            Ok(())
        } else {
            Err(e)
        }
    }

    /// Whether the local devices are still to be listed, after the cloud devices
    /// were: not where the failed cloud list is fatal.
    pub fn lists_local(config: &Config, cloud: &Option<Result<Vec<Device>, GoveeError>>) -> (r: bool)
        ensures
            r == (cloud_part(config.preference(), list_view(*cloud)) is Ok),
    {
        match cloud {
            Some(Err(_)) => config.backend() != BackendPreference::CloudOnly,
            _ => true,
        }
    }

    /// Merges the device lists of the backends that there are, by MAC address.
    ///
    /// Cloud devices are primary: a device found in both keeps the cloud's name
    /// and is routed to the local backend. A failed cloud list is fatal only
    /// where the cloud alone is wanted, and a failed local list always.
    pub fn build(
        config: Config,
        cloud: Option<Result<Vec<Device>, GoveeError>>,
        local: Option<Result<Vec<Device>, GoveeError>>,
    ) -> (r: Result<DeviceRegistry, GoveeError>)
        ensures
            error::outcome(r) == built(config.preference(), list_view(cloud), list_view(local)),
            r matches Ok(registry) ==> registry.settings() == config,
    {
        let has_cloud = cloud.is_some();
        let has_local = local.is_some();
        let cloud_devices = match cloud {
            Some(Ok(devices)) => devices,
            Some(Err(e)) => {
                if config.backend() == BackendPreference::CloudOnly {
                    return Err(e);
                }
                Vec::new()
            },
            None => Vec::new(),
        };
        let local_devices = match local {
            Some(Ok(devices)) => devices,
            Some(Err(e)) => return Err(e),
            None => Vec::new(),
        };
        let ghost cloud_views = types::device_views(cloud_devices@);
        let ghost local_views = types::device_views(local_devices@);
        proof {
            assert(cloud_part(config.preference(), list_view(cloud)) == Ok::<Seq<DeviceView>, ErrorView>(
                cloud_views,
            )) by {
                assert(cloud_devices@.len() == 0 ==> cloud_views =~= Seq::empty());
            }
            assert(local_part(list_view(local)) == Ok::<Seq<DeviceView>, ErrorView>(local_views)) by {
                assert(local_devices@.len() == 0 ==> local_views =~= Seq::empty());
            }
        }
        let mut devices: NameMap<RegisteredDevice> = NameMap::new();
        assert(registered(devices@) =~= with_cloud(cloud_views.take(0)));
        for i in 0..cloud_devices.len()
            invariant
                cloud_views == types::device_views(cloud_devices@),
                registered(devices@) == with_cloud(cloud_views.take(i as int)),
                own_ids(registered(devices@)),
        {
            let ghost before = devices@;
            let device = cloud_devices[i].clone();
            let id = device.id.to_string();
            let entry = RegisteredDevice { device, active_backend: BackendType::Cloud };
            devices.insert(id, entry);
            proof {
                assert(cloud_views.take(i + 1).drop_last() =~= cloud_views.take(i as int));
                assert(cloud_views.take(i + 1).last() == cloud_devices@[i as int]@);
                assert(registered(devices@) =~= registered(before).insert(id@, entry@));
            }
        }
        let ghost from_cloud = registered(devices@);
        proof {
            assert(cloud_views.take(cloud_devices@.len() as int) =~= cloud_views);
            assert(local_views.take(0) =~= Seq::empty());
        }
        for i in 0..local_devices.len()
            invariant
                local_views == types::device_views(local_devices@),
                registered(devices@) == with_local(from_cloud, local_views.take(i as int)),
                own_ids(registered(devices@)),
        {
            let ghost before = devices@;
            let dev = local_devices[i].clone();
            let id = dev.id.to_string();
            let device = match devices.get(id.as_str()) {
                Some(existing) => {
                    assert(registered(before).contains_key(id@));
                    let mut device = existing.device.clone();
                    device.backend = BackendType::Local;
                    device
                },
                None => {
                    assert(!registered(before).contains_key(id@));
                    dev
                },
            };
            let entry = RegisteredDevice { device, active_backend: BackendType::Local };
            devices.insert(id, entry);
            proof {
                assert(local_views.take(i + 1).drop_last() =~= local_views.take(i as int));
                assert(local_views.take(i + 1).last() == local_devices@[i as int]@);
                assert(registered(devices@) =~= registered(before).insert(id@, entry@));
            }
        }
        assert(local_views.take(local_devices@.len() as int) =~= local_views);
        Ok(DeviceRegistry { devices, cloud: has_cloud, local: has_local, config })
    }

    /// Return all registered devices.
    pub fn devices(&self) -> (r: Vec<Device>)
        ensures
            is_registered_list(self@.devices, types::device_views(r@)),
    {
        proof {
            use_type_invariant(self);
        }
        self.devices.note_distinct();
        let ghost entries = self.devices.entries();
        let n: usize = self.devices.len();
        let mut r: Vec<Device> = Vec::new();
        for i in 0..n
            invariant
                entries == self.devices.entries(),
                n == entries.len(),
                r@.len() == i,
                forall|k: int| 0 <= k < i ==> #[trigger] r@[k] == entries[k].1.device,
        {
            let (_, entry) = self.devices.entry(i);
            r.push(entry.device.clone());
        }
        proof {
            let list = types::device_views(r@);
            assert(self@.devices.dom() =~= self.devices@.dom());
            assert forall|id: Seq<char>| #[trigger] self@.devices.contains_key(id) implies list.contains(
                self@.devices[id].device,
            ) by {
                let k = names::place(entries, id);
                assert(names::has_name(entries, id));
                assert(r@[k] == entries[k].1.device);
                assert(list[k] == self@.devices[id].device);
            }
            assert forall|i: int| 0 <= i < list.len() implies self@.devices.contains_key(
                #[trigger] list[i].id,
            ) && list[i] == self@.devices[list[i].id].device by {
                names::by_name_at(entries, i);
                let id = entries[i].0@;
                assert(r@[i] == entries[i].1.device);
                assert(self@.devices.contains_key(id));
                assert(self@.devices[id].device == list[i]);
            }
        }
        r
    }

    /// Look up a single device by ID.
    pub fn get_device(&self, id: &DeviceId) -> (r: Result<&Device, GoveeError>)
        ensures
            match r {
                Ok(device) => self@.devices.contains_key(id@) && device@ == self@.devices[id@].device,
                Err(e) => !self@.devices.contains_key(id@) && e@ == ErrorView::DeviceNotFound(id@),
            },
    {
        match self.devices.get(id.as_str()) {
            Some(entry) => Ok(&entry.device),
            None => Err(GoveeError::DeviceNotFound(id.to_string())),
        }
    }

    /// Return the backend responsible for the given device.
    pub fn backend_for(&self, id: &DeviceId) -> (r: Result<BackendType, GoveeError>)
        ensures
            error::outcome(r) == routed(self@, id@),
    {
        match self.devices.get(id.as_str()) {
            None => Err(GoveeError::DeviceNotFound(id.to_string())),
            Some(entry) => {
                let there = match entry.active_backend {
                    BackendType::Cloud => self.cloud,
                    BackendType::Local => self.local,
                };
                if there {
                    Ok(entry.active_backend)
                } else {
                    Err(GoveeError::BackendUnavailable(entry.active_backend.to_string()))
                }
            },
        }
    }

    /// The configuration that the registry was built with.
    pub fn config(&self) -> (r: &Config)
        ensures
            *r == self.settings(),
    {
        &self.config
    }

    /// The registry as debug text.
    pub fn debug_text(&self) -> (r: String)
        ensures
            r@ == "DeviceRegistry { device_count: "@ + text::decimal(self@.devices.dom().len()) + ", cloud: "@
                + truth_text(self@.cloud) + ", local: "@ + truth_text(self@.local) + " }"@,
    {
        assert(self@.devices.dom() =~= self.devices@.dom());
        joined(
            "DeviceRegistry { device_count: ",
            decimal_text(self.devices.len() as u64).as_str(),
        ).concat(", cloud: ").concat(show_truth(self.cloud)).concat(", local: ").concat(
            show_truth(self.local),
        ).concat(" }")
    }
}

/// A truth value as text.
pub open spec fn truth_text(b: bool) -> Seq<char> {
    if b {
        "true"@
    } else {
        "false"@
    }
}

fn show_truth(b: bool) -> (r: &'static str)
    ensures
        r@ == truth_text(b),
{
    if b {
        "true"
    } else {
        "false"
    }
}

/// What the registry knows of a device of the cloud list.
proof fn cloud_entries(devices: Seq<DeviceView>, id: Seq<char>)
    ensures
        with_cloud(devices).contains_key(id) <==> (exists|i: int|
            0 <= i < devices.len() && #[trigger] devices[i].id == id),
        with_cloud(devices).contains_key(id) ==> with_cloud(devices)[id].active_backend == BackendType::Cloud
            && with_cloud(devices)[id].device.id == id && devices.contains(with_cloud(devices)[id].device),
    decreases devices.len(),
{
    if devices.len() > 0 {
        let rest = devices.drop_last();
        cloud_entries(rest, id);
        if devices.last().id == id {
            assert(devices[devices.len() - 1].id == id);
        } else {
            if with_cloud(rest).contains_key(id) {
                let i = choose|i: int| 0 <= i < rest.len() && #[trigger] rest[i].id == id;
                assert(devices[i].id == id);
                let d = with_cloud(rest)[id].device;
                let k = choose|k: int| 0 <= k < rest.len() && rest[k] == d;
                assert(devices[k] == d);
            }
            if exists|i: int| 0 <= i < devices.len() && #[trigger] devices[i].id == id {
                let i = choose|i: int| 0 <= i < devices.len() && #[trigger] devices[i].id == id;
                assert(rest[i].id == id);
            }
        }
    }
}

/// Whether a list names a device.
pub open spec fn lists(devices: Seq<DeviceView>, id: Seq<char>) -> bool {
    exists|i: int| 0 <= i < devices.len() && #[trigger] devices[i].id == id
}

/// A device is registered exactly if one of the two lists names it.
pub proof fn all_listed_devices_are_registered(
    cloud: Seq<DeviceView>,
    local: Seq<DeviceView>,
    id: Seq<char>,
)
    ensures
        with_local(with_cloud(cloud), local).contains_key(id) <==> lists(cloud, id) || lists(local, id),
    decreases local.len(),
{
    cloud_entries(cloud, id);
    if local.len() > 0 {
        let rest = local.drop_last();
        all_listed_devices_are_registered(cloud, rest, id);
        if lists(rest, id) {
            let i = choose|i: int| 0 <= i < rest.len() && #[trigger] rest[i].id == id;
            assert(local[i].id == id);
        }
        if local.last().id == id {
            assert(local[local.len() - 1].id == id);
        }
        if lists(local, id) && local.last().id != id {
            let i = choose|i: int| 0 <= i < local.len() && #[trigger] local[i].id == id;
            assert(rest[i].id == id);
        }
    }
}

/// A device that the local list names is routed to the local backend. If the
/// cloud names it too, what the cloud says of it is kept but for the backend.
pub proof fn local_devices_keep_cloud_names(
    cloud: Seq<DeviceView>,
    local: Seq<DeviceView>,
    id: Seq<char>,
)
    requires
        lists(local, id),
    ensures
        with_local(with_cloud(cloud), local)[id].active_backend == BackendType::Local,
        lists(cloud, id) ==> with_local(with_cloud(cloud), local)[id].device == (DeviceView {
            backend: BackendType::Local,
            ..with_cloud(cloud)[id].device
        }),
    decreases local.len(),
{
    cloud_entries(cloud, id);
    let rest = local.drop_last();
    all_listed_devices_are_registered(cloud, rest, id);
    if lists(rest, id) {
        local_devices_keep_cloud_names(cloud, rest, id);
    } else {
        cloud_devices_stay(cloud, rest, id);
        let i = choose|i: int| 0 <= i < local.len() && #[trigger] local[i].id == id;
        assert(i == local.len() - 1) by {
            if i < rest.len() {
                assert(rest[i].id == id);
            }
        }
    }
}

/// A device that the local list does not name stays as the cloud listed it.
pub proof fn cloud_devices_stay(cloud: Seq<DeviceView>, local: Seq<DeviceView>, id: Seq<char>)
    requires
        !lists(local, id),
    ensures
        with_local(with_cloud(cloud), local).contains_key(id) == with_cloud(cloud).contains_key(id),
        with_cloud(cloud).contains_key(id) ==> with_local(with_cloud(cloud), local)[id] == with_cloud(
            cloud,
        )[id],
    decreases local.len(),
{
    if local.len() > 0 {
        let rest = local.drop_last();
        assert(local[local.len() - 1].id != id);
        if lists(rest, id) {
            let i = choose|i: int| 0 <= i < rest.len() && #[trigger] rest[i].id == id;
            assert(local[i].id == id);
        }
        cloud_devices_stay(cloud, rest, id);
    }
}

/// Every registered device is routed to a backend that is there, and each
/// stands under its own identifier.
pub proof fn registered_devices_are_routed(
    preference: BackendPreference,
    cloud: Option<Result<Seq<DeviceView>, ErrorView>>,
    local: Option<Result<Seq<DeviceView>, ErrorView>>,
    id: Seq<char>,
)
    requires
        built(preference, cloud, local) is Ok,
        built(preference, cloud, local)->Ok_0.devices.contains_key(id),
    ensures
        routed(built(preference, cloud, local)->Ok_0, id) is Ok,
        built(preference, cloud, local)->Ok_0.devices[id].device.id == id,
{
    let c = cloud_part(preference, cloud)->Ok_0;
    let l = local_part(local)->Ok_0;
    all_listed_devices_are_registered(c, l, id);
    cloud_entries(c, id);
    registered_under_own_id(c, l, id);
    if lists(l, id) {
        local_devices_keep_cloud_names(c, l, id);
        assert(local is Some);
    } else {
        cloud_devices_stay(c, l, id);
        assert(cloud is Some);
    }
}

proof fn registered_under_own_id(cloud: Seq<DeviceView>, local: Seq<DeviceView>, id: Seq<char>)
    requires
        with_local(with_cloud(cloud), local).contains_key(id),
    ensures
        with_local(with_cloud(cloud), local)[id].device.id == id,
    decreases local.len(),
{
    cloud_entries(cloud, id);
    if local.len() > 0 {
        let rest = local.drop_last();
        if with_local(with_cloud(cloud), rest).contains_key(id) {
            registered_under_own_id(cloud, rest, id);
        }
    }
}

/// The backend field of a registered device says where it is routed, if the
/// lists say truly which backend they come from.
pub proof fn backend_field_matches_routing(
    cloud: Seq<DeviceView>,
    local: Seq<DeviceView>,
    id: Seq<char>,
)
    requires
        forall|i: int| 0 <= i < cloud.len() ==> (#[trigger] cloud[i]).backend == BackendType::Cloud,
        forall|i: int| 0 <= i < local.len() ==> (#[trigger] local[i]).backend == BackendType::Local,
        with_local(with_cloud(cloud), local).contains_key(id),
    ensures
        with_local(with_cloud(cloud), local)[id].device.backend == with_local(
            with_cloud(cloud),
            local,
        )[id].active_backend,
    decreases local.len(),
{
    cloud_entries(cloud, id);
    if local.len() > 0 {
        let rest = local.drop_last();
        assert(local.last().backend == BackendType::Local) by {
            assert(local[local.len() - 1].backend == BackendType::Local);
        }
        assert forall|i: int| 0 <= i < rest.len() implies (#[trigger] rest[i]).backend == BackendType::Local by {
            assert(local[i].backend == BackendType::Local);
        }
        if with_local(with_cloud(cloud), rest).contains_key(id) {
            backend_field_matches_routing(cloud, rest, id);
        }
    } else {
        let d = with_cloud(cloud)[id].device;
        let k = choose|k: int| 0 <= k < cloud.len() && cloud[k] == d;
        assert(cloud[k].backend == BackendType::Cloud);
    }
}

} // verus!
