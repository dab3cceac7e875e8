//! Messages that set up, inspect and maintain a device.

use vstd::prelude::*;

use crate::message_type::{MessageType, TrezorMessage};

verus! {

/// Opens (or resumes) a session and asks for the device's features.
#[derive(Clone, Debug, PartialEq)]
pub struct Initialize {
    /// The session to resume, if any.
    pub session_id: Option<Vec<u8>>,
}

/// Asks the device to echo a message back.
#[derive(Clone, Debug, PartialEq)]
pub struct Ping {
    /// The text to echo.
    pub message: Option<String>,
}

/// Starts setting, changing or removing the PIN.
#[derive(Clone, Debug, PartialEq)]
pub struct ChangePin {
    /// Set to remove the PIN instead of setting it.
    pub remove: Option<bool>,
}

/// Erases the device.
#[derive(Clone, Debug, PartialEq)]
pub struct WipeDevice {}

/// Asks the device to back up its seed.
#[derive(Clone, Debug, PartialEq)]
pub struct BackupDevice {}

/// How the recovery words are entered.
#[derive(Clone, Copy, Debug, PartialEq, Eq, Structural)]
pub enum RecoveryDeviceType {
    /// The host types words whose letters the device scrambles.
    ScrambledWords,
    /// The host enters words through a matrix shown on the device.
    Matrix,
}

/// Restores a device from its recovery words.
#[derive(Clone, Debug, PartialEq)]
pub struct RecoveryDevice {
    /// How many recovery words there are.
    pub word_count: Option<u32>,
    /// Whether to protect the seed with a passphrase.
    pub passphrase_protection: Option<bool>,
    /// Whether to protect the device with a PIN.
    pub pin_protection: Option<bool>,
    /// The device language.
    pub language: Option<String>,
    /// The device label.
    pub label: Option<String>,
    /// Whether only words of the wordlist are accepted.
    pub enforce_wordlist: Option<bool>,
    /// How the words are entered.
    pub recovery_type: Option<RecoveryDeviceType>,
    /// The U2F counter to start from.
    pub u2f_counter: Option<u32>,
    /// Only check the words against the stored seed.
    pub dry_run: Option<bool>,
}

/// Creates a new seed on the device.
#[derive(Clone, Debug, PartialEq)]
pub struct ResetDevice {
    /// Whether to show the device's entropy.
    pub display_random: Option<bool>,
    /// The strength of the seed, in bits.
    pub strength: Option<u32>,
    /// Whether to protect the seed with a passphrase.
    pub passphrase_protection: Option<bool>,
    /// Whether to protect the device with a PIN.
    pub pin_protection: Option<bool>,
    /// The device language.
    pub language: Option<String>,
    /// The device label.
    pub label: Option<String>,
    /// The U2F counter to start from.
    pub u2f_counter: Option<u32>,
    /// Whether to skip the backup for now.
    pub skip_backup: Option<bool>,
    /// Whether the seed is never to be backed up.
    pub no_backup: Option<bool>,
}

/// The device asks for host entropy to mix into the new seed.
#[derive(Clone, Debug, PartialEq)]
pub struct EntropyRequest {}

/// Changes settings of the device.
#[derive(Clone, Debug, PartialEq)]
pub struct ApplySettings {
    /// The device language.
    pub language: Option<String>,
    /// The device label.
    pub label: Option<String>,
    /// Whether to use a passphrase.
    pub use_passphrase: Option<bool>,
    /// The homescreen image.
    pub homescreen: Option<Vec<u8>>,
    /// The delay before the device locks itself, in milliseconds.
    pub auto_lock_delay_ms: Option<u32>,
}

/// What a device reports about itself.
#[derive(Clone, Debug, PartialEq)]
pub struct Features {
    /// The vendor.
    pub vendor: Option<String>,
    /// The major firmware version.
    pub major_version: u32,
    /// The minor firmware version.
    pub minor_version: u32,
    /// The patch firmware version.
    pub patch_version: u32,
    /// The device's identifier.
    pub device_id: Option<String>,
    /// Whether a PIN protects the device.
    pub pin_protection: Option<bool>,
    /// Whether a passphrase protects the seed.
    pub passphrase_protection: Option<bool>,
    /// The device label.
    pub label: Option<String>,
    /// Whether the device holds a seed.
    pub initialized: Option<bool>,
    /// The vendor of the firmware.
    pub fw_vendor: Option<String>,
}

/// The text that a field holds, or the empty text where it is unset.
pub open spec fn text_or_empty(field: Option<String>) -> Seq<char> {
    match field {
        Some(s) => s@,
        None => Seq::empty(),
    }
}

/// The flag that a field holds, or `false` where it is unset.
pub open spec fn flag_or_false(field: Option<bool>) -> bool {
    match field {
        Some(b) => b,
        None => false,
    }
}

fn text_of(field: &Option<String>) -> (r: &str)
    ensures
        r@ == text_or_empty(*field),
{
    match field {
        Some(s) => s.as_str(),
        None => {
            let e = "";
            proof {
                reveal_strlit("");
            }
            e
        },
    }
}

fn flag_of(field: &Option<bool>) -> (r: bool)
    ensures
        r == flag_or_false(*field),
{
    match field {
        Some(b) => *b,
        None => false,
    }
}

impl Features {
    /// The firmware vendor, or the empty text where the device sent none.
    pub fn fw_vendor(&self) -> (r: &str)
        ensures
            r@ == text_or_empty(self.fw_vendor),
    {
        text_of(&self.fw_vendor)
    }

    /// The device identifier, or the empty text where the device sent none.
    pub fn device_id(&self) -> (r: &str)
        ensures
            r@ == text_or_empty(self.device_id),
    {
        text_of(&self.device_id)
    }

    /// The label, or the empty text where the device sent none.
    pub fn label(&self) -> (r: &str)
        ensures
            r@ == text_or_empty(self.label),
    {
        text_of(&self.label)
    }

    /// Whether the device holds a seed (`false` where it did not say).
    pub fn initialized(&self) -> (r: bool)
        ensures
            r == flag_or_false(self.initialized),
    {
        flag_of(&self.initialized)
    }

    /// Whether a PIN protects the device (`false` where it did not say).
    pub fn pin_protection(&self) -> (r: bool)
        ensures
            r == flag_or_false(self.pin_protection),
    {
        flag_of(&self.pin_protection)
    }

    /// Whether a passphrase protects the seed (`false` where it did not say).
    pub fn passphrase_protection(&self) -> (r: bool)
        ensures
            r == flag_or_false(self.passphrase_protection),
    {
        flag_of(&self.passphrase_protection)
    }
}

impl TrezorMessage for Initialize {
    open spec fn spec_message_type() -> MessageType {
        MessageType::Initialize
    }

    fn message_type() -> (t: MessageType) {
        MessageType::Initialize
    }
}

impl TrezorMessage for Ping {
    open spec fn spec_message_type() -> MessageType {
        MessageType::Ping
    }

    fn message_type() -> (t: MessageType) {
        MessageType::Ping
    }
}

impl TrezorMessage for ChangePin {
    open spec fn spec_message_type() -> MessageType {
        MessageType::ChangePin
    }

    fn message_type() -> (t: MessageType) {
        MessageType::ChangePin
    }
}

impl TrezorMessage for WipeDevice {
    open spec fn spec_message_type() -> MessageType {
        MessageType::WipeDevice
    }

    fn message_type() -> (t: MessageType) {
        MessageType::WipeDevice
    }
}

impl TrezorMessage for BackupDevice {
    open spec fn spec_message_type() -> MessageType {
        MessageType::BackupDevice
    }

    fn message_type() -> (t: MessageType) {
        MessageType::BackupDevice
    }
}

impl TrezorMessage for RecoveryDevice {
    open spec fn spec_message_type() -> MessageType {
        MessageType::RecoveryDevice
    }

    fn message_type() -> (t: MessageType) {
        MessageType::RecoveryDevice
    }
}

impl TrezorMessage for ResetDevice {
    open spec fn spec_message_type() -> MessageType {
        MessageType::ResetDevice
    }

    fn message_type() -> (t: MessageType) {
        MessageType::ResetDevice
    }
}

impl TrezorMessage for EntropyRequest {
    open spec fn spec_message_type() -> MessageType {
        MessageType::EntropyRequest
    }

    fn message_type() -> (t: MessageType) {
        MessageType::EntropyRequest
    }
}

impl TrezorMessage for ApplySettings {
    open spec fn spec_message_type() -> MessageType {
        MessageType::ApplySettings
    }

    fn message_type() -> (t: MessageType) {
        MessageType::ApplySettings
    }
}

impl TrezorMessage for Features {
    open spec fn spec_message_type() -> MessageType {
        MessageType::Features
    }

    fn message_type() -> (t: MessageType) {
        MessageType::Features
    }
}

} // verus!
