//! Planning and checking of a hardware video-encode session bootstrap.
//!
//! The crate decides every step of bringing up an H.264 encode session on a
//! Vulkan device: which physical device and queue family to use, what the
//! logical device must enable, which loader resolves which entry point, and
//! whether the driver's answers allow the session to be created. The calls
//! into the driver are made by the caller; the crate works on plain values
//! and tells the caller what to ask next.
//!
//! `pipeline::App` ties the steps together. The modules `instance`,
//! `select`, `device`, `loader` and `session` hold the decisions of the
//! five stages, `release` the order of teardown, `laws` what holds of every
//! run, and `driver` the few values that are taken from the `ash` bindings.

pub mod device;
pub mod driver;
pub mod error;
pub mod instance;
pub mod laws;
pub mod loader;
pub mod pipeline;
pub mod release;
pub mod search;
pub mod select;
pub mod session;

pub use crate::error::BootstrapError;
pub use crate::pipeline::App;
