//! Installs a program from the binary inside its container image: registry
//! resolution, ordered layer application and a version-gated install decision.

pub mod text;
pub mod version;
pub mod registry;
pub mod install;
pub mod listing;
