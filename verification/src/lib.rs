//! Control of Govee lighting devices.
//!
//! The library decides: which request to send, what a reply means, which backend
//! a device is routed to. It does no input or output of its own.
pub mod backend;
pub mod capability;
pub mod config;
pub mod decode;
pub mod error;
pub mod json;
pub mod laws;
pub mod names;
pub mod outline;
pub mod net;
pub mod registry;
pub mod scene;
pub mod text;
pub mod types;

pub use capability::{
    Capability, CapabilityParameters, CapabilityState, CapabilityValue, DynamicSceneValue,
    EnumOption, IntRange, StateValue, StructField,
};
