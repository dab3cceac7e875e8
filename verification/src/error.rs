//! Errors of the client.

use vstd::prelude::*;

use crate::message_type::MessageType;
use crate::protos::btc::TxRequest;
use crate::protos::common::{ButtonRequest, Failure, PassphraseRequest, PinMatrixRequest};
use crate::transport;
use crate::transport::error::prefixed;

verus! {

/// An error of the protobuf decoder, carried through unread.
#[verifier::external_type_specification]
#[verifier::external_body]
pub struct ExDecodeError(prost::DecodeError);

/// An error of the protobuf encoder, carried through unread.
#[verifier::external_type_specification]
#[verifier::external_body]
pub struct ExEncodeError(prost::EncodeError);

/// What can go wrong when talking to a device.
#[derive(Debug)]
pub enum Error {
    /// Less than one device was plugged in.
    NoDeviceFound,
    /// More than one device was plugged in.
    DeviceNotUnique,
    /// Transport error connecting to device.
    TransportConnect(transport::error::Error),
    /// Transport error while beginning a session.
    TransportBeginSession(transport::error::Error),
    /// Transport error while ending a session.
    TransportEndSession(transport::error::Error),
    /// Transport error while sending a message.
    TransportSendMessage(transport::error::Error),
    /// Transport error while receiving a message.
    TransportReceiveMessage(transport::error::Error),
    /// Received an unexpected message type from the device.
    UnexpectedMessageType(MessageType),
    /// Error reading protobuf messages.
    DecodeError(prost::DecodeError),
    /// Error encoding protobuf messages.
    EncodeError(prost::EncodeError),
    /// A failure message was returned by the device.
    FailureResponse(Failure),
    /// The given Bitcoin network is not supported.
    UnsupportedNetwork,
    /// Provided entropy is not 32 bytes.
    InvalidEntropy,
    /// The device referenced a non-existing input or output index.
    TxRequestInvalidIndex(usize),
    /// Device produced invalid TxRequest message.
    MalformedTxRequest(TxRequest),
    /// User provided invalid PSBT.
    InvalidPsbt(String),
    /// Failed to parse from string.
    ToString(String),
    /// The device waits for a button press.
    ButtonRequest(ButtonRequest),
    /// The device asks for the PIN.
    PinMatrixRequest(PinMatrixRequest),
    /// The device asks for the passphrase.
    PassphraseRequest(PassphraseRequest),
}

/// The outcome of a client operation.
pub type Result<T> = std::result::Result<T, Error>;

impl From<prost::DecodeError> for Error {
    fn from(e: prost::DecodeError) -> (r: Error) {
        Error::DecodeError(e)
    }
}

impl vstd::std_specs::convert::FromSpecImpl<prost::DecodeError> for Error {
    open spec fn obeys_from_spec() -> bool {
        true
    }

    open spec fn from_spec(e: prost::DecodeError) -> Error {
        Error::DecodeError(e)
    }
}

impl From<prost::EncodeError> for Error {
    fn from(e: prost::EncodeError) -> (r: Error) {
        Error::EncodeError(e)
    }
}

impl vstd::std_specs::convert::FromSpecImpl<prost::EncodeError> for Error {
    open spec fn obeys_from_spec() -> bool {
        true
    }

    open spec fn from_spec(e: prost::EncodeError) -> Error {
        Error::EncodeError(e)
    }
}


/// Writes a failure message of the device as `Debug` formats it; the text
/// it writes is not stated.
#[verifier::external_body]
fn failure_debug_text(f: &Failure) -> String {
    format!("{:?}", f)
}

/// Whether `text` is the message of `e`: a fixed sentence for each kind of
/// error; for a failure of the device a fixed beginning followed by the
/// failure as `Debug` writes it; and for an invalid PSBT or a text that
/// does not parse, a sentence around that text.
pub open spec fn is_message_of(e: &Error, text: Seq<char>) -> bool {
    match e {
        Error::NoDeviceFound => text == "Less than one device was plugged in."@,
        Error::DeviceNotUnique => text == "More than one device was plugged in."@,
        Error::TransportConnect(_) => text == "Transport error connecting to device."@,
        Error::TransportBeginSession(_) => text == "Transport error while beginning a session."@,
        Error::TransportEndSession(_) => text == "Transport error while ending a session."@,
        Error::TransportSendMessage(_) => text == "Transport error while sending a message."@,
        Error::TransportReceiveMessage(_) => text
            == "Transport error while receiving a message."@,
        Error::UnexpectedMessageType(_) => text
            == "Received an unexpected message type from the device."@,
        Error::DecodeError(_) => text == "Error reading or writing protobuf messages."@,
        Error::EncodeError(_) => text == "Error encoding protobuf messages"@,
        Error::FailureResponse(_) => "failure received: "@.is_prefix_of(text),
        Error::UnsupportedNetwork => text == "The given Bitcoin network is not supported."@,
        Error::InvalidEntropy => text == "Provided entropy is not 32 bytes."@,
        Error::TxRequestInvalidIndex(_) => text
            == "The device referenced a non-existing input or output index."@,
        Error::MalformedTxRequest(_) => text == "Invalid TxRequest"@,
        Error::InvalidPsbt(m) => text == "Invalid PSBT: "@ + m@,
        Error::ToString(m) => text == "Failed to parse '"@ + m@ + "' from string"@,
        Error::ButtonRequest(_) => text == "User button request"@,
        Error::PinMatrixRequest(_) => text == "Pin matrix request"@,
        Error::PassphraseRequest(_) => text == "Passphrase request"@,
    }
}

impl Error {
    /// The message that describes this error.
    pub fn message(&self) -> (r: String)
        ensures
            is_message_of(self, r@),
    {
        match self {
            Error::NoDeviceFound => "Less than one device was plugged in.".to_owned(),
            Error::DeviceNotUnique => "More than one device was plugged in.".to_owned(),
            Error::TransportConnect(_) => "Transport error connecting to device.".to_owned(),
            Error::TransportBeginSession(_) =>
                "Transport error while beginning a session.".to_owned(),
            Error::TransportEndSession(_) => "Transport error while ending a session.".to_owned(),
            Error::TransportSendMessage(_) =>
                "Transport error while sending a message.".to_owned(),
            Error::TransportReceiveMessage(_) =>
                "Transport error while receiving a message.".to_owned(),
            Error::UnexpectedMessageType(_) =>
                "Received an unexpected message type from the device.".to_owned(),
            Error::DecodeError(_) => "Error reading or writing protobuf messages.".to_owned(),
            Error::EncodeError(_) => "Error encoding protobuf messages".to_owned(),
            Error::FailureResponse(f) => prefixed(
                "failure received: ",
                failure_debug_text(f).as_str(),
            ),
            Error::UnsupportedNetwork => "The given Bitcoin network is not supported.".to_owned(),
            Error::InvalidEntropy => "Provided entropy is not 32 bytes.".to_owned(),
            Error::TxRequestInvalidIndex(_) =>
                "The device referenced a non-existing input or output index.".to_owned(),
            Error::MalformedTxRequest(_) => "Invalid TxRequest".to_owned(),
            Error::InvalidPsbt(m) => prefixed("Invalid PSBT: ", m.as_str()),
            Error::ToString(m) => {
                let mut s = prefixed("Failed to parse '", m.as_str());
                s.append("' from string");
                s
            },
            Error::ButtonRequest(_) => "User button request".to_owned(),
            Error::PinMatrixRequest(_) => "Pin matrix request".to_owned(),
            Error::PassphraseRequest(_) => "Passphrase request".to_owned(),
        }
    }
}

} // verus!
