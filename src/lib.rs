pub mod error;
pub mod message;
pub mod router;
pub mod server;
pub mod transport;
