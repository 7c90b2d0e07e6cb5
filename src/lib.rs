//! Resolution of the capability profile of a live OpenGL or OpenGL ES context.
//!
//! The crate is split in a pure gate evaluator ([`gate`]), which decides from a
//! version and a set of extensions whether a capability exists and how it must be
//! queried, and a resolver ([`capabilities`]) that asks an injected
//! [`query::StateQuery`] for raw values, normalises them and assembles the
//! immutable [`capabilities::Capabilities`] record.

pub mod capabilities;
pub mod decode;
pub mod extensions;
pub mod gate;
pub mod glsl;
pub mod query;
pub mod version;

pub use capabilities::{Capabilities, get_capabilities, resolve_capabilities};
pub use decode::{CapabilityError, ReleaseBehavior};
pub use extensions::ExtensionsList;
pub use gate::{Feature, GatePath, is_available};
pub use glsl::{get_supported_glsl, supported_glsl};
pub use query::StateQuery;
pub use version::{Api, Version};
