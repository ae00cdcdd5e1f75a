//! Network primitives: socket status codes.

pub mod socket_status;

pub use self::socket_status::SocketStatus;
