//! Messages of the errors.
use govee::backend::local::bind_error;
use govee::error::GoveeError;
use govee::json::Json;

#[test]
fn error_display_api() {
    let err = GoveeError::Api {
        code: 429,
        message: "too many requests".into(),
    };
    assert_eq!(err.to_string(), "API error 429: too many requests");
}

#[test]
fn error_display_rate_limited() {
    let err = GoveeError::RateLimited {
        retry_after_secs: 60,
    };
    assert_eq!(err.to_string(), "rate limited \u{2014} retry after 60s");
}

#[test]
fn error_display_device_not_found() {
    let err = GoveeError::DeviceNotFound("bedroom".into());
    assert_eq!(err.to_string(), "device not found: bedroom");
}

#[test]
fn error_display_discovery_timeout() {
    assert_eq!(
        GoveeError::DiscoveryTimeout.to_string(),
        "discovery timeout"
    );
}

#[test]
fn error_display_not_implemented() {
    let err = GoveeError::NotImplemented("workflow engine".into());
    assert_eq!(err.to_string(), "not implemented: workflow engine");
}

#[test]
fn error_from_io() {
    let io_err = std::io::Error::new(std::io::ErrorKind::AddrInUse, "port 4002 in use");
    let err = bind_error(false, io_err.to_string());
    assert!(matches!(err, GoveeError::Udp(_)));
    assert!(err.to_string().contains("port 4002 in use"));
}

#[test]
fn error_from_serde_json() {
    let err = Json::parse(b"not json").unwrap_err();
    assert!(matches!(err, GoveeError::Serialization(_)));
    let text = serde_json::from_str::<serde_json::Value>("not json")
        .unwrap_err()
        .to_string();
    assert_eq!(err.to_string(), format!("serialization error: {text}"));
}

#[test]
fn error_display_all_others() {
    let t = || "x".to_string();
    assert_eq!(GoveeError::Request(t()).to_string(), "request error: x");
    assert_eq!(GoveeError::Io(t()).to_string(), "I/O error: x");
    assert_eq!(GoveeError::Udp(t()).to_string(), "UDP error: x");
    assert_eq!(
        GoveeError::BackendUnavailable(t()).to_string(),
        "backend unavailable: x"
    );
    assert_eq!(GoveeError::Json(t()).to_string(), "JSON error: x");
    assert_eq!(GoveeError::Config(t()).to_string(), "config error: x");
    assert_eq!(
        GoveeError::InvalidDeviceId(t()).to_string(),
        "invalid device ID: x"
    );
    assert_eq!(
        GoveeError::InvalidConfig(t()).to_string(),
        "invalid config: x"
    );
    assert_eq!(GoveeError::Protocol(t()).to_string(), "protocol error: x");
    assert_eq!(
        GoveeError::RateLimited {
            retry_after_secs: u64::MAX
        }
        .to_string(),
        "rate limited \u{2014} retry after 18446744073709551615s"
    );
}
