//! Instance bootstrap for a Vulkan renderer: layer negotiation, the
//! creation request, routing of driver diagnostics, and the lifecycle that
//! keeps teardown in reverse order of acquisition.
pub mod names;
pub mod error;
pub mod builder;
pub mod diagnostics;
pub mod lifecycle;
