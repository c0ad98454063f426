//! The trait of the backends and what both refuse.
use govee::backend::cloud::{CloudBackend, ControlStep};
use govee::backend::local::LocalBackend;
use govee::backend::{validate_kelvin, Command, GoveeBackend};
use govee::error::GoveeError;
use govee::types::{BackendType, Color, DeviceId};

/// A backend that has nothing but a type.
struct MockBackend {
    backend_type: BackendType,
}

impl MockBackend {
    fn new() -> Self {
        Self {
            backend_type: BackendType::Cloud,
        }
    }

    fn with_backend_type(mut self, backend_type: BackendType) -> Self {
        self.backend_type = backend_type;
        self
    }
}

impl GoveeBackend for MockBackend {
    fn backend_type(&self) -> BackendType {
        self.backend_type
    }
}

fn _assert_send_sync<T: Send + Sync>() {}
fn _assert_object_safe(_: &dyn GoveeBackend) {}

#[test]
fn trait_is_send_sync() {
    _assert_send_sync::<MockBackend>();
    _assert_object_safe(&MockBackend::new());
}

#[test]
fn send_sync_assertions() {
    _assert_send_sync::<LocalBackend>();
    _assert_send_sync::<CloudBackend>();
    _assert_send_sync::<Box<dyn GoveeBackend>>();
}

#[test]
fn mock_backend_type_default_cloud() {
    let mock = MockBackend::new();
    assert_eq!(mock.backend_type(), BackendType::Cloud);
}

#[test]
fn mock_backend_type_configurable() {
    let mock = MockBackend::new().with_backend_type(BackendType::Local);
    assert_eq!(mock.backend_type(), BackendType::Local);
}

#[test]
fn trait_object_dispatch() {
    let mock = MockBackend::new();
    let backend: Box<dyn GoveeBackend> = Box::new(mock);
    assert_eq!(backend.backend_type(), BackendType::Cloud);
    let cloud: Box<dyn GoveeBackend> =
        Box::new(CloudBackend::new("key".into(), None, None).ok().unwrap());
    assert_eq!(cloud.backend_type(), BackendType::Cloud);
    let local: Box<dyn GoveeBackend> = Box::new(LocalBackend::new(1_000, 60).unwrap());
    assert_eq!(local.backend_type(), BackendType::Local);
}

#[test]
fn local_set_color_temp_kelvin_zero_rejected() {
    let result = validate_kelvin(0);
    assert!(result.is_err());
    assert!(matches!(result.unwrap_err(), GoveeError::InvalidConfig(_)));
}

#[test]
fn local_set_color_temp_kelvin_above_10000_rejected() {
    let result = validate_kelvin(10001);
    assert!(result.is_err());
    assert!(matches!(result.unwrap_err(), GoveeError::InvalidConfig(_)));
    assert!(validate_kelvin(10000).is_ok());
    assert!(validate_kelvin(1).is_ok());
}

#[test]
fn both_backends_refuse_the_same_commands() {
    let cloud = CloudBackend::new("key".into(), None, None).ok().unwrap();
    let local = LocalBackend::new(1_000, 60).unwrap();
    let id = DeviceId::new("AA:BB:CC:DD:EE:FF").unwrap();
    for command in [
        Command::Brightness(101),
        Command::Brightness(255),
        Command::ColorTemp(0),
        Command::ColorTemp(10001),
    ] {
        let expected = command.check().unwrap_err().to_string();
        assert_eq!(local.command(&id, command).unwrap_err().to_string(), expected);
        match cloud.begin(&id, command) {
            ControlStep::Finished(Err(e)) => assert_eq!(e.to_string(), expected),
            _ => panic!("the command was sent"),
        }
    }
    for command in [
        Command::Power(true),
        Command::Brightness(100),
        Command::Color(Color::new(1, 2, 3)),
        Command::ColorTemp(10000),
    ] {
        assert!(command.check().is_ok());
    }
}
