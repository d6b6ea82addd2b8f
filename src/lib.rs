//! Resolution, provisioning and launch planning for the `rumdl` language server.

pub mod platform;
pub mod release;
pub mod resolver;
pub mod laws;
