//! The background service: its wire messages, file locations and the
//! decisions it takes on client requests.

pub mod lifecycle;
pub mod protocol;
pub mod server;
pub mod session;
