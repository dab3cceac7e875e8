//! Messages shared by every interaction: acknowledgements, failures and the
//! interaction requests a device may answer with.

use vstd::prelude::*;

use crate::message_type::{MessageType, TrezorMessage};

verus! {

/// The device completed the request.
#[derive(Clone, Debug, PartialEq)]
pub struct Success {
    /// An optional human-readable note from the device.
    pub message: Option<String>,
}

/// The device refused or failed the request.
#[derive(Clone, Debug, PartialEq)]
pub struct Failure {
    /// The failure code, as the wire carries it.
    pub code: Option<i32>,
    /// A human-readable explanation.
    pub message: Option<String>,
}

/// The device waits for the user to press a button.
#[derive(Clone, Debug, PartialEq)]
pub struct ButtonRequest {
    /// What the button press is about, as the wire carries it.
    pub code: Option<i32>,
    /// How many pages the device shows.
    pub pages: Option<u32>,
}

/// The host acknowledges a button request and lets the device go on.
#[derive(Clone, Debug, PartialEq)]
pub struct ButtonAck {}

/// The device asks for the PIN through its scrambled matrix.
#[derive(Clone, Debug, PartialEq)]
pub struct PinMatrixRequest {
    /// Which PIN is asked for, as the wire carries it.
    pub matrix_type: Option<i32>,
}

/// The device asks for the passphrase.
#[derive(Clone, Debug, PartialEq)]
pub struct PassphraseRequest {
    /// Whether the passphrase is to be entered on the device itself.
    pub on_device: Option<bool>,
}

impl ButtonAck {
    /// The acknowledgement, which carries no field.
    pub fn new() -> (r: ButtonAck)
        ensures
            r == (ButtonAck {}),
    {
        ButtonAck {}
    }
}

impl TrezorMessage for Success {
    open spec fn spec_message_type() -> MessageType {
        MessageType::Success
    }

    fn message_type() -> (t: MessageType) {
        MessageType::Success
    }
}

impl TrezorMessage for Failure {
    open spec fn spec_message_type() -> MessageType {
        MessageType::Failure
    }

    fn message_type() -> (t: MessageType) {
        MessageType::Failure
    }
}

impl TrezorMessage for ButtonRequest {
    open spec fn spec_message_type() -> MessageType {
        MessageType::ButtonRequest
    }

    fn message_type() -> (t: MessageType) {
        MessageType::ButtonRequest
    }
}

impl TrezorMessage for ButtonAck {
    open spec fn spec_message_type() -> MessageType {
        MessageType::ButtonAck
    }

    fn message_type() -> (t: MessageType) {
        MessageType::ButtonAck
    }
}

impl TrezorMessage for PinMatrixRequest {
    open spec fn spec_message_type() -> MessageType {
        MessageType::PinMatrixRequest
    }

    fn message_type() -> (t: MessageType) {
        MessageType::PinMatrixRequest
    }
}

impl TrezorMessage for PassphraseRequest {
    open spec fn spec_message_type() -> MessageType {
        MessageType::PassphraseRequest
    }

    fn message_type() -> (t: MessageType) {
        MessageType::PassphraseRequest
    }
}

} // verus!
