//! Verified classification of connection failures for a Kafka backup client: which
//! errors mean that the connection to a broker is lost, so that reconnecting and
//! retrying is worth while.

pub mod error;
pub mod io_error;
pub mod kafka;
pub mod platform;
pub mod text;

pub use error::Error;
