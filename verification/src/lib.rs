//! A client library for hardware wallets of the Trezor family: the message
//! catalogue, the request/response discipline of the client, the emulator
//! discovery handshake and the Bitcoin transaction-signing flow.

pub mod message_type;
pub mod protos;
pub mod transport;
pub mod error;
pub mod client;
pub mod btc;
pub mod cli;
