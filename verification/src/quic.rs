pub mod client;
pub mod events;
pub mod partial;
pub mod response;
pub mod server;
pub mod token;
