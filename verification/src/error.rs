//! The errors of the library.
use vstd::prelude::*;
use vstd::string::*;

use crate::text;
use crate::text::decimal_text;

verus! {

/// Govee domain error type.
#[derive(Debug)]
#[non_exhaustive]
pub enum GoveeError {
    /// An HTTP request failed, or its reply could not be read.
    Request(String),
    /// A file could not be read.
    Io(String),
    /// A datagram socket failed.
    Udp(String),
    /// The API answered with an error code.
    Api { code: u16, message: String },
    /// The API asked to wait.
    RateLimited { retry_after_secs: u64 },
    DeviceNotFound(String),
    BackendUnavailable(String),
    DiscoveryTimeout,
    /// A JSON document could not be read or written.
    Serialization(String),
    /// A JSON document does not have the expected shape.
    Json(String),
    /// A configuration file is not valid TOML.
    Config(String),
    NotImplemented(String),
    InvalidDeviceId(String),
    InvalidBrightness(u8),
    InvalidConfig(String),
    /// A LAN message does not follow the protocol.
    Protocol(String),
}

/// What an error says, its text by characters.
pub enum ErrorView {
    Request(Seq<char>),
    Io(Seq<char>),
    Udp(Seq<char>),
    Api { code: u16, message: Seq<char> },
    RateLimited { retry_after_secs: u64 },
    DeviceNotFound(Seq<char>),
    BackendUnavailable(Seq<char>),
    DiscoveryTimeout,
    Serialization(Seq<char>),
    Json(Seq<char>),
    Config(Seq<char>),
    NotImplemented(Seq<char>),
    InvalidDeviceId(Seq<char>),
    InvalidBrightness(u8),
    InvalidConfig(Seq<char>),
    Protocol(Seq<char>),
}

impl View for GoveeError {
    type V = ErrorView;

    open spec fn view(&self) -> ErrorView {
        match self {
            GoveeError::Request(t) => ErrorView::Request(t@),
            GoveeError::Io(t) => ErrorView::Io(t@),
            GoveeError::Udp(t) => ErrorView::Udp(t@),
            GoveeError::Api { code, message } => ErrorView::Api { code: *code, message: message@ },
            GoveeError::RateLimited { retry_after_secs } => ErrorView::RateLimited {
                retry_after_secs: *retry_after_secs,
            },
            GoveeError::DeviceNotFound(t) => ErrorView::DeviceNotFound(t@),
            GoveeError::BackendUnavailable(t) => ErrorView::BackendUnavailable(t@),
            GoveeError::DiscoveryTimeout => ErrorView::DiscoveryTimeout,
            GoveeError::Serialization(t) => ErrorView::Serialization(t@),
            GoveeError::Json(t) => ErrorView::Json(t@),
            GoveeError::Config(t) => ErrorView::Config(t@),
            GoveeError::NotImplemented(t) => ErrorView::NotImplemented(t@),
            GoveeError::InvalidDeviceId(t) => ErrorView::InvalidDeviceId(t@),
            GoveeError::InvalidBrightness(b) => ErrorView::InvalidBrightness(*b),
            GoveeError::InvalidConfig(t) => ErrorView::InvalidConfig(t@),
            GoveeError::Protocol(t) => ErrorView::Protocol(t@),
        }
    }
}

/// What a fallible function came to, both sides by their views.
pub open spec fn outcome<T: View>(r: Result<T, GoveeError>) -> Result<T::V, ErrorView> {
    match r {
        Ok(value) => Ok(value@),
        Err(error) => Err(error@),
    }
}

impl ErrorView {
    /// The message that people read.
    pub open spec fn message(self) -> Seq<char> {
        match self {
            ErrorView::Request(t) => "request error: "@ + t,
            ErrorView::Io(t) => "I/O error: "@ + t,
            ErrorView::Udp(t) => "UDP error: "@ + t,
            ErrorView::Api { code, message } => "API error "@ + text::decimal(code as nat) + ": "@ + message,
            ErrorView::RateLimited { retry_after_secs } => "rate limited \u{2014} retry after "@ + text::decimal(
                retry_after_secs as nat,
            ) + "s"@,
            ErrorView::DeviceNotFound(t) => "device not found: "@ + t,
            ErrorView::BackendUnavailable(t) => "backend unavailable: "@ + t,
            ErrorView::DiscoveryTimeout => "discovery timeout"@,
            ErrorView::Serialization(t) => "serialization error: "@ + t,
            ErrorView::Json(t) => "JSON error: "@ + t,
            ErrorView::Config(t) => "config error: "@ + t,
            ErrorView::NotImplemented(t) => "not implemented: "@ + t,
            ErrorView::InvalidDeviceId(t) => "invalid device ID: "@ + t,
            ErrorView::InvalidBrightness(b) => "brightness must be 0\u{2013}100, got "@ + text::decimal(b as nat),
            ErrorView::InvalidConfig(t) => "invalid config: "@ + t,
            ErrorView::Protocol(t) => "protocol error: "@ + t,
        }
    }
}

/// `head` followed by `tail`.
pub(crate) fn joined(head: &str, tail: &str) -> (r: String)
    ensures
        r@ == head@ + tail@,
{
    head.to_string().concat(tail)
}

impl GoveeError {
    /// The message that people read.
    pub fn to_string(&self) -> (r: String)
        ensures
            r@ == self@.message(),
    {
        match self {
            GoveeError::Request(t) => joined("request error: ", t.as_str()),
            GoveeError::Io(t) => joined("I/O error: ", t.as_str()),
            GoveeError::Udp(t) => joined("UDP error: ", t.as_str()),
            GoveeError::Api { code, message } => {
                joined("API error ", decimal_text(*code as u64).as_str()).concat(": ").concat(message.as_str())
            },
            GoveeError::RateLimited { retry_after_secs } => {
                joined("rate limited \u{2014} retry after ", decimal_text(*retry_after_secs).as_str()).concat("s")
            },
            GoveeError::DeviceNotFound(t) => joined("device not found: ", t.as_str()),
            GoveeError::BackendUnavailable(t) => joined("backend unavailable: ", t.as_str()),
            GoveeError::DiscoveryTimeout => "discovery timeout".to_string(),
            GoveeError::Serialization(t) => joined("serialization error: ", t.as_str()),
            GoveeError::Json(t) => joined("JSON error: ", t.as_str()),
            GoveeError::Config(t) => joined("config error: ", t.as_str()),
            GoveeError::NotImplemented(t) => joined("not implemented: ", t.as_str()),
            GoveeError::InvalidDeviceId(t) => joined("invalid device ID: ", t.as_str()),
            GoveeError::InvalidBrightness(b) => {
                joined("brightness must be 0\u{2013}100, got ", decimal_text(*b as u64).as_str())
            },
            GoveeError::InvalidConfig(t) => joined("invalid config: ", t.as_str()),
            GoveeError::Protocol(t) => joined("protocol error: ", t.as_str()),
        }
    }
}

} // verus!
