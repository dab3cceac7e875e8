//! The protocol messages that the client and the coin flows exchange with a
//! device, as plain values.

pub mod btc;
pub mod common;
pub mod management;
