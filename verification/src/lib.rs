//! Core of a minimal HTTP/1.1 server: request parsing, route
//! classification, response construction and byte-exact serialization.
//! The surrounding TCP driver performs the I/O and calls into this crate.

pub mod http;
pub mod request;
pub mod response;
pub mod router;
pub mod text;
