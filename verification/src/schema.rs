pub mod data;
pub mod quicfs;
pub mod rpc;
