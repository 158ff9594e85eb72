//! Bridges a remote client, over a message-stream connection, to a locally
//! run analysis engine: provisions the engine's files on first use, then
//! relays text both ways between the engine's standard streams and the
//! connection.

pub mod archive;
pub mod assets;
pub mod endpoint;
pub mod engine;
pub mod path;
pub mod provision;
pub mod relay;
