//! Launch planning for the `winws` traffic-shaping tool.
//!
//! The crate decides what a launcher has to do: which configuration to fall
//! back to, which files must sit next to the launcher, and which argument
//! list each mode hands to the tool. Probing the file system and spawning the
//! process are left to the caller.

pub mod config;
pub mod launch;
pub mod profile;
pub mod startup;
