//! A set-once verbosity level for command-line tools.
//!
//! A [`Verbosity`] is one of three ordered tiers. A [`Registry`] holds one
//! level behind a latch: the first caller to set it wins, and every later
//! attempt is ignored.

pub mod level;
pub mod registry;
pub mod text;

pub use crate::level::Verbosity;
pub use crate::registry::Registry;
pub use crate::registry::RegistryState;
pub use crate::text::InvalidLevel;
