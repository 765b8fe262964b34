pub mod bytes;
pub mod cli;
pub mod client;
pub mod codec;
pub mod error;
pub mod quic;
pub mod schema;
pub mod server;
pub mod swarm;
pub mod text;
pub mod frame;
