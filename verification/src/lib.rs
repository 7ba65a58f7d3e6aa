//! Verified core of an HTTPS client plugin for SA-MP / Open Multiplayer servers.

pub mod text;
pub mod headers;
pub mod errors;
pub mod encoding;
pub mod payload;
pub mod state;
pub mod ops;
pub mod urls;
pub mod https;
pub mod natives;
pub mod laws;
