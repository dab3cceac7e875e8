//! What travels between host and device: framed messages and the errors of
//! the links that carry them.

pub mod error;
pub mod udp;
