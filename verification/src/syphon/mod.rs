//! The Syphon frame sharing protocol: wire level names and message ids,
//! server descriptions, message payloads, and the decisions of clients,
//! servers and the server directory.

pub mod constants;
pub mod description;
pub mod message;
pub mod client;
pub mod server;
pub mod directory;
pub mod receiver;
pub mod surface;
