//! Errors of the links to a device.

use vstd::prelude::*;

use rusb::Error as UsbError;

verus! {

/// An error of the HID library, carried through unread.
#[verifier::external_type_specification]
#[verifier::external_body]
pub struct ExHidError(hidapi_rusb::HidError);

/// An error of the USB library, carried through unread.
#[verifier::external_type_specification]
#[verifier::external_body]
pub struct ExUsbError(UsbError);

/// An I/O error, carried through unread.
#[verifier::external_type_specification]
#[verifier::external_body]
pub struct ExIoError(std::io::Error);

/// What can go wrong on a link to a device.
#[derive(Debug)]
pub enum Error {
    /// Error from the HID library.
    Hid(hidapi_rusb::HidError),
    /// Error from the USB library.
    Usb(UsbError),
    /// I/O error.
    Io(std::io::Error),
    /// The device to connect to was not found.
    DeviceNotFound,
    /// The device is no longer available.
    DeviceDisconnected,
    /// The HID version supported by the device was unknown.
    UnknownHidVersion,
    /// The device produced a data chunk of unexpected size.
    UnexpectedChunkSizeFromDevice(usize),
    /// Timeout expired while reading from device.
    DeviceReadTimeout,
    /// The device sent a chunk with a wrong magic value.
    DeviceBadMagic,
    /// The device sent a message with a wrong session id.
    DeviceBadSessionId,
    /// The device sent an unexpected sequence number.
    DeviceUnexpectedSequenceNumber,
    /// Received a non-existing message type from the device.
    InvalidMessageType(u32),
    /// Unable to determine device serial number.
    NoDeviceSerial,
}

impl From<hidapi_rusb::HidError> for Error {
    fn from(e: hidapi_rusb::HidError) -> (r: Error) {
        Error::Hid(e)
    }
}

impl vstd::std_specs::convert::FromSpecImpl<hidapi_rusb::HidError> for Error {
    open spec fn obeys_from_spec() -> bool {
        true
    }

    open spec fn from_spec(e: hidapi_rusb::HidError) -> Error {
        Error::Hid(e)
    }
}

impl From<UsbError> for Error {
    fn from(e: UsbError) -> (r: Error) {
        Error::Usb(e)
    }
}

impl vstd::std_specs::convert::FromSpecImpl<UsbError> for Error {
    open spec fn obeys_from_spec() -> bool {
        true
    }

    open spec fn from_spec(e: UsbError) -> Error {
        Error::Usb(e)
    }
}

impl From<std::io::Error> for Error {
    fn from(e: std::io::Error) -> (r: Error) {
        Error::Io(e)
    }
}

impl vstd::std_specs::convert::FromSpecImpl<std::io::Error> for Error {
    open spec fn obeys_from_spec() -> bool {
        true
    }

    open spec fn from_spec(e: std::io::Error) -> Error {
        Error::Io(e)
    }
}


/// A text made of a fixed beginning and a detail after it.
pub(crate) fn prefixed(prefix: &str, detail: &str) -> (r: String)
    ensures
        r@ == prefix@ + detail@,
        prefix@.is_prefix_of(r@),
{
    let mut s = prefix.to_owned();
    s.append(detail);
    proof {
        assert(s@.subrange(0, prefix@.len() as int) =~= prefix@);
    }
    s
}

/// Calls the `Display` of a HID library error; the text it writes is not
/// stated.
#[verifier::external_body]
fn hid_error_text(e: &hidapi_rusb::HidError) -> String {
    e.to_string()
}

/// Calls the `Display` of a USB library error; the text it writes is not
/// stated.
#[verifier::external_body]
fn usb_error_text(e: &UsbError) -> String {
    e.to_string()
}

/// Calls the `Display` of an I/O error; the text it writes is not stated.
#[verifier::external_body]
fn io_error_text(e: &std::io::Error) -> String {
    e.to_string()
}

/// Whether `text` is the message of `e`: a fixed sentence for each kind of
/// error, and for an error of a library beneath the link a fixed beginning
/// followed by that library's own text.
pub open spec fn is_message_of(e: &Error, text: Seq<char>) -> bool {
    match e {
        Error::Hid(_) => "HID error: "@.is_prefix_of(text),
        Error::Usb(_) => "USB error: "@.is_prefix_of(text),
        Error::Io(_) => "IO error: "@.is_prefix_of(text),
        Error::DeviceNotFound => text == "The device to connect to was not found"@,
        Error::DeviceDisconnected => text == "The device is no longer available."@,
        Error::UnknownHidVersion => text == "The HID version supported by the device was unknown."@,
        Error::UnexpectedChunkSizeFromDevice(_) => text
            == "The device produced a data chunk of unexpected size."@,
        Error::DeviceReadTimeout => text == "Timeout expired while reading from device."@,
        Error::DeviceBadMagic => text == "The device sent a chunk with a wrong magic value."@,
        Error::DeviceBadSessionId => text == "The device sent a message with a wrong session id."@,
        Error::DeviceUnexpectedSequenceNumber => text
            == "The device sent an unexpected sequence number."@,
        Error::InvalidMessageType(_) => text
            == "Received a non-existing message type from the device."@,
        Error::NoDeviceSerial => text == "Unable to determine device serial number."@,
    }
}

impl Error {
    /// The message that describes this error.
    pub fn message(&self) -> (r: String)
        ensures
            is_message_of(self, r@),
    {
        match self {
            Error::Hid(e) => prefixed("HID error: ", hid_error_text(e).as_str()),
            Error::Usb(e) => prefixed("USB error: ", usb_error_text(e).as_str()),
            Error::Io(e) => prefixed("IO error: ", io_error_text(e).as_str()),
            Error::DeviceNotFound => "The device to connect to was not found".to_owned(),
            Error::DeviceDisconnected => "The device is no longer available.".to_owned(),
            Error::UnknownHidVersion => "The HID version supported by the device was unknown.".to_owned(),
            Error::UnexpectedChunkSizeFromDevice(_) =>
                "The device produced a data chunk of unexpected size.".to_owned(),
            Error::DeviceReadTimeout => "Timeout expired while reading from device.".to_owned(),
            Error::DeviceBadMagic => "The device sent a chunk with a wrong magic value.".to_owned(),
            Error::DeviceBadSessionId =>
                "The device sent a message with a wrong session id.".to_owned(),
            Error::DeviceUnexpectedSequenceNumber =>
                "The device sent an unexpected sequence number.".to_owned(),
            Error::InvalidMessageType(_) =>
                "Received a non-existing message type from the device.".to_owned(),
            Error::NoDeviceSerial => "Unable to determine device serial number.".to_owned(),
        }
    }
}

} // verus!
