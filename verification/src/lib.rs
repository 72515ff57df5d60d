//! Sandbox rules and registry for plugins loaded into a host application.
//!
//! Plugins run inside the host and hand it strings: ids, cache keys,
//! configuration names. This library decides which of those strings may
//! reach a path, where below the host's roots the path lies, and which
//! plugins the host knows. It touches no file itself.

pub mod api;
pub mod config;
pub mod ident;
pub mod lifecycle;
pub mod paths;
pub mod plugin;
pub mod registry;

pub use api::VoltPluginAPI;
pub use registry::PluginRegistry;
