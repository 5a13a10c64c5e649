//! The Kafka client side of the library.

pub mod answers;
pub mod connection_error;
pub mod laws;

pub use connection_error::{
    connection_io_error, is_connection_error, is_connection_error_on, is_connection_io_kind,
    is_connection_io_kind_on, is_legacy_connection_message, request_timeout_error,
};
