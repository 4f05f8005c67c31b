//! Resolution of the platform-specific `netcoredbg` executable.
//!
//! The crate decides; its host acts. A resolution is a small state machine:
//! each state names the one request the host has to carry out next (probe a
//! path, query the release registry, download an archive, ...) and the answer
//! to that request moves the machine on, until it finishes with the absolute
//! path of the executable or with an error.
pub mod binary_manager;
pub mod error;
pub mod laws;
pub mod layout;
pub mod logger;
pub mod machine;
pub mod platform;
pub mod protocol;
pub mod release;
pub mod resolution;
pub mod text;
