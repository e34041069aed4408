//! Core logic of the AkiSpace desktop-clone tool: the named-pipe frame
//! protocol, the nonce handshake, whitelist ACL construction, mouse batching,
//! settings, environment checks and the application state machine.
pub mod ipc;
pub mod text;
pub mod input;
pub mod settings;
pub mod password;
pub mod session;
pub mod environment;
pub mod logging;
pub mod launcher;
pub mod rdp;
pub mod app;
