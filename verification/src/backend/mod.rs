//! The ways to reach a device.
use vstd::prelude::*;

use crate::config::MAX_KELVIN;
use crate::error;
use crate::error::ErrorView;
use crate::error::GoveeError;
use crate::types::BackendType;
use crate::types::Color;

pub mod cloud;
pub mod local;
pub mod reply;
pub mod state;
pub mod url;

verus! {

/// Unified interface of the backends.
///
/// Implemented by [`CloudBackend`](cloud::CloudBackend) and
/// [`LocalBackend`](local::LocalBackend). The trait is object-safe
/// (`Box<dyn GoveeBackend>`) and requires `Send + Sync`.
pub trait GoveeBackend: Send + Sync {
    /// Which backend type this implementation represents.
    fn backend_type(&self) -> (r: BackendType);
}

/// A command to a device.
#[derive(Debug, Clone, Copy, PartialEq, Eq, Structural)]
pub enum Command {
    /// Turn the device on or off.
    Power(bool),
    /// Set the brightness in percent.
    Brightness(u8),
    /// Set the color.
    Color(Color),
    /// Set the color temperature in Kelvin.
    ColorTemp(u32),
}

/// Why a color temperature is refused.
pub open spec fn kelvin_refusal(kelvin: u32) -> Option<ErrorView> {
    if kelvin == 0 || kelvin > MAX_KELVIN {
        Some(ErrorView::InvalidConfig("color temperature must be 1-10000K"@))
    } else {
        None
    }
}

/// Validate color temperature range (1-10000K).
pub fn validate_kelvin(kelvin: u32) -> (r: Result<(), GoveeError>)
    ensures
        error::outcome(r) == (match kelvin_refusal(kelvin) {
            Some(e) => Err(e),
            None => Ok(()),
        }),
{
    if kelvin == 0 || kelvin > MAX_KELVIN {
        return Err(GoveeError::InvalidConfig("color temperature must be 1-10000K".to_string()));
    }
    Ok(())
}

/// Why a command is refused, whichever backend it goes to.
pub open spec fn refusal(command: Command) -> Option<ErrorView> {
    match command {
        Command::Brightness(value) => if value > 100 {
            Some(ErrorView::InvalidBrightness(value))
        } else {
            None
        },
        Command::ColorTemp(kelvin) => kelvin_refusal(kelvin),
        _ => None,
    }
}

impl Command {
    /// Refuses a brightness above 100 and a color temperature outside
    /// 1-10000K.
    pub fn check(self) -> (r: Result<(), GoveeError>)
        ensures
            error::outcome(r) == (match refusal(self) {
                Some(e) => Err(e),
                None => Ok(()),
            }),
    {
        match self {
            Command::Brightness(value) => if value > 100 {
                Err(GoveeError::InvalidBrightness(value))
            } else {
                Ok(())
            },
            Command::ColorTemp(kelvin) => validate_kelvin(kelvin),
            _ => Ok(()),
        }
    }
}

} // verus!
