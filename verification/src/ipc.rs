pub mod acl;
pub mod client;
pub mod frame;
pub mod nonce;
pub mod server;
pub mod wire;
