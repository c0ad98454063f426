//! The device registry.
use std::sync::Arc;

use govee::config::{BackendPreference, Config};
use govee::error::GoveeError;
use govee::names::NameMap;
use govee::registry::DeviceRegistry;
use govee::types::{BackendType, Device, DeviceId};

fn make_device(mac: &str, model: &str, name: &str, backend: BackendType) -> Device {
    Device {
        id: DeviceId::new(mac).unwrap(),
        model: model.into(),
        name: name.into(),
        alias: None,
        backend,
    }
}

fn default_config() -> Config {
    Config::default()
}

fn config(key: Option<&str>, backend: BackendPreference) -> Config {
    Config::new(
        key.map(|k| k.to_string()),
        backend,
        60,
        NameMap::new(),
        NameMap::new(),
        NameMap::new(),
    )
    .ok()
    .unwrap()
}

/// A registry from the lists of the backends that there are.
fn start_with_backends(
    config: Config,
    cloud: Option<Vec<Device>>,
    local: Option<Vec<Device>>,
) -> DeviceRegistry {
    DeviceRegistry::build(config, cloud.map(Ok), local.map(Ok))
        .ok()
        .unwrap()
}

#[test]
fn cloud_only_merge() {
    let cloud_devices = vec![
        make_device(
            "AA:BB:CC:DD:EE:01",
            "H6076",
            "Kitchen Light",
            BackendType::Cloud,
        ),
        make_device(
            "AA:BB:CC:DD:EE:02",
            "H6078",
            "Bedroom Light",
            BackendType::Cloud,
        ),
    ];
    let registry = start_with_backends(default_config(), Some(cloud_devices), None);
    let devices = registry.devices();
    assert_eq!(devices.len(), 2);
}

#[test]
fn local_only_merge() {
    let local_devices = vec![make_device(
        "AA:BB:CC:DD:EE:01",
        "H6076",
        "H6076_AABB",
        BackendType::Local,
    )];
    let registry = start_with_backends(default_config(), None, Some(local_devices));
    let devices = registry.devices();
    assert_eq!(devices.len(), 1);
    assert_eq!(devices[0].name, "H6076_AABB");
}

#[test]
fn overlapping_macs_uses_cloud_name_and_local_backend() {
    let mac = "AA:BB:CC:DD:EE:FF";
    let cloud_devices = vec![make_device(
        mac,
        "H6076",
        "Kitchen Light",
        BackendType::Cloud,
    )];
    let local_devices = vec![make_device(mac, "H6076", "H6076_AABB", BackendType::Local)];
    let registry = start_with_backends(default_config(), Some(cloud_devices), Some(local_devices));

    let devices = registry.devices();
    assert_eq!(devices.len(), 1);
    // Cloud name retained.
    assert_eq!(devices[0].name, "Kitchen Light");

    // Backend routed to local.
    let id = DeviceId::new(mac).unwrap();
    assert_eq!(registry.backend_for(&id).unwrap(), BackendType::Local);
}

#[test]
fn disjoint_devices_all_included() {
    let cloud_devices = vec![make_device(
        "AA:BB:CC:DD:EE:01",
        "H6076",
        "Cloud Only",
        BackendType::Cloud,
    )];
    let local_devices = vec![make_device(
        "AA:BB:CC:DD:EE:02",
        "H6078",
        "Local Only",
        BackendType::Local,
    )];
    let registry = start_with_backends(default_config(), Some(cloud_devices), Some(local_devices));

    assert_eq!(registry.devices().len(), 2);

    let cloud_id = DeviceId::new("AA:BB:CC:DD:EE:01").unwrap();
    let local_id = DeviceId::new("AA:BB:CC:DD:EE:02").unwrap();

    assert_eq!(registry.backend_for(&cloud_id).unwrap(), BackendType::Cloud);
    assert_eq!(registry.backend_for(&local_id).unwrap(), BackendType::Local);
}

#[test]
fn no_backends_empty_registry() {
    let registry = start_with_backends(default_config(), None, None);
    assert!(registry.devices().is_empty());
}

#[test]
fn get_device_existing() {
    let mac = "AA:BB:CC:DD:EE:FF";
    let registry = start_with_backends(
        default_config(),
        Some(vec![make_device(mac, "H6076", "Light", BackendType::Cloud)]),
        None,
    );

    let id = DeviceId::new(mac).unwrap();
    let device = registry.get_device(&id).unwrap();
    assert_eq!(device.name, "Light");
}

#[test]
fn get_device_not_found() {
    let registry = start_with_backends(default_config(), None, None);
    let id = DeviceId::new("AA:BB:CC:DD:EE:FF").unwrap();
    assert!(registry.get_device(&id).is_err());
    assert_eq!(
        registry.get_device(&id).unwrap_err().to_string(),
        "device not found: AA:BB:CC:DD:EE:FF"
    );
}

#[test]
fn backend_for_unknown_device() {
    let registry = start_with_backends(default_config(), None, None);
    let id = DeviceId::new("AA:BB:CC:DD:EE:FF").unwrap();
    let result = registry.backend_for(&id);
    assert!(result.is_err());
    assert!(matches!(result.unwrap_err(), GoveeError::DeviceNotFound(_)));
}

#[test]
fn backend_for_missing_cloud_backend() {
    let cloud_devices = vec![make_device(
        "AA:BB:CC:DD:EE:FF",
        "H6076",
        "Light",
        BackendType::Cloud,
    )];
    let registry = start_with_backends(default_config(), Some(cloud_devices), None);

    let id = DeviceId::new("AA:BB:CC:DD:EE:FF").unwrap();
    // Cloud backend is present, so this should succeed.
    assert!(registry.backend_for(&id).is_ok());
    assert_eq!(registry.backend_for(&id).unwrap(), BackendType::Cloud);
}

#[test]
fn backend_for_local_device_with_available_backend() {
    let local_devices = vec![make_device(
        "AA:BB:CC:DD:EE:FF",
        "H6076",
        "Light",
        BackendType::Local,
    )];
    let registry = start_with_backends(default_config(), None, Some(local_devices));

    let id = DeviceId::new("AA:BB:CC:DD:EE:FF").unwrap();
    assert!(registry.backend_for(&id).is_ok());
    assert_eq!(registry.backend_for(&id).unwrap(), BackendType::Local);
}

#[test]
fn debug_format() {
    let registry = start_with_backends(
        default_config(),
        Some(vec![
            make_device("AA:BB:CC:DD:EE:01", "H6076", "Light 1", BackendType::Cloud),
            make_device("AA:BB:CC:DD:EE:02", "H6078", "Light 2", BackendType::Cloud),
        ]),
        None,
    );

    let debug = registry.debug_text();
    assert!(debug.contains("device_count: 2"));
    assert!(debug.contains("cloud: true"));
    assert!(debug.contains("local: false"));
    assert_eq!(
        debug,
        "DeviceRegistry { device_count: 2, cloud: true, local: false }"
    );
}

#[test]
fn overlapping_device_backend_field_updated() {
    // When merged, Device.backend should reflect the active backend.
    let mac = "AA:BB:CC:DD:EE:FF";
    let cloud_devices = vec![make_device(mac, "H6076", "Light", BackendType::Cloud)];
    let local_devices = vec![make_device(mac, "H6076", "H6076_X", BackendType::Local)];
    let registry = start_with_backends(default_config(), Some(cloud_devices), Some(local_devices));

    let id = DeviceId::new(mac).unwrap();
    let device = registry.get_device(&id).unwrap();
    // Device.backend must match active routing.
    assert_eq!(device.backend, BackendType::Local);
}

#[test]
fn cloud_only_without_api_key_is_error() {
    let result = DeviceRegistry::start(&config(None, BackendPreference::CloudOnly));
    assert!(result.is_err());
    let err = result.unwrap_err().to_string();
    assert!(err.contains("CloudOnly"));
    assert!(err.contains("API key"));
}

#[test]
fn start_plans() {
    let plan = |key, backend| {
        let p = DeviceRegistry::start(&config(key, backend)).unwrap();
        (p.cloud, p.local)
    };
    assert_eq!(plan(Some("k"), BackendPreference::CloudOnly), (true, false));
    assert_eq!(plan(Some("k"), BackendPreference::Auto), (true, true));
    assert_eq!(plan(None, BackendPreference::Auto), (false, true));
    assert_eq!(plan(Some("k"), BackendPreference::LocalOnly), (true, true));
    assert_eq!(plan(None, BackendPreference::LocalOnly), (false, true));
}

#[test]
fn start_without_the_local_backend() {
    let busy = || GoveeError::BackendUnavailable("port 4002".into());
    let auto = config(None, BackendPreference::Auto);
    let local = config(None, BackendPreference::LocalOnly);
    assert!(DeviceRegistry::without_local(&auto, busy()).is_ok());
    assert!(matches!(
        DeviceRegistry::without_local(&local, busy()),
        Err(GoveeError::BackendUnavailable(_))
    ));
    assert!(matches!(
        DeviceRegistry::without_local(&auto, GoveeError::Udp("x".into())),
        Err(GoveeError::Udp(_))
    ));
}

#[test]
fn failed_lists() {
    let fail = || Some(Err(GoveeError::DiscoveryTimeout));
    let some = || {
        Some(Ok(vec![make_device(
            "AA:BB:CC:DD:EE:01",
            "H",
            "L",
            BackendType::Local,
        )]))
    };
    let cloud_only = config(Some("k"), BackendPreference::CloudOnly);
    assert!(DeviceRegistry::build(cloud_only, fail(), None).is_err());
    let auto = config(Some("k"), BackendPreference::Auto);
    let registry = DeviceRegistry::build(auto, fail(), some()).ok().unwrap();
    assert_eq!(registry.devices().len(), 1);
    assert_eq!(registry.config().api_key(), Some("k"));
    let auto = config(Some("k"), BackendPreference::Auto);
    assert!(DeviceRegistry::build(auto, some(), fail()).is_err());
}

fn _assert_send_sync<T: Send + Sync>() {}

#[test]
fn send_sync_assertion() {
    _assert_send_sync::<DeviceRegistry>();
}

#[test]
fn arc_clone_shares_registry() {
    let registry = Arc::new(start_with_backends(
        default_config(),
        Some(vec![make_device(
            "AA:BB:CC:DD:EE:FF",
            "H6076",
            "Light",
            BackendType::Cloud,
        )]),
        None,
    ));

    let clone = Arc::clone(&registry);
    assert_eq!(registry.devices().len(), clone.devices().len());
}

#[test]
fn local_devices_are_not_listed_after_a_fatal_error() {
    let failed = || Some(Err(GoveeError::DiscoveryTimeout));
    let cloud_only = config(Some("key"), BackendPreference::CloudOnly);
    assert!(!DeviceRegistry::lists_local(&cloud_only, &failed()));
    assert!(DeviceRegistry::lists_local(&cloud_only, &Some(Ok(Vec::new()))));
    assert!(DeviceRegistry::lists_local(&cloud_only, &None));
    let auto = config(Some("key"), BackendPreference::Auto);
    assert!(DeviceRegistry::lists_local(&auto, &failed()));
}
