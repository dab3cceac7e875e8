//! Multi-step dialogues with the device.

pub mod sign_tx;
