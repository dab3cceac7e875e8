//! The Bitcoin application: transactions as the signing flow reads them,
//! the requests for keys, addresses and signatures, and the dialogue in
//! which the device asks for the parts of a transaction it signs.

pub mod error;
pub mod flows;
pub mod requests;
pub mod types;
pub mod utils;
