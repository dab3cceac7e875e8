//! The client side of a device: what it remembers about the device, the
//! requests it sends and how it reads the device's answers.

use vstd::prelude::*;

use crate::error::Error;
use crate::message_type::{MessageType, TrezorMessage};
use crate::protos::btc as proto_btc;
use crate::protos::common::{
    ButtonAck, ButtonRequest, Failure, PassphraseRequest, PinMatrixRequest, Success,
};
use crate::protos::management::{
    EntropyRequest,
    ApplySettings, BackupDevice, ChangePin, Features, Initialize, Ping, RecoveryDevice,
    RecoveryDeviceType, ResetDevice, WipeDevice,
};

verus! {

/// The family a device belongs to.
#[derive(Clone, Copy, Debug, PartialEq, Eq, Structural)]
pub enum Model {
    /// The first-generation device.
    Trezor1,
    /// The second-generation device.
    Trezor2,
    /// The second-generation device in bootloader mode.
    Trezor2Bl,
    /// The firmware emulator.
    Emulator,
}

/// A message as it travels: its type code and its encoded payload.
#[derive(Clone, Debug)]
pub struct ProtoMessage(pub MessageType, pub Vec<u8>);

impl ProtoMessage {
    /// Frames the encoded payload of a message of kind `S`.
    pub fn for_message<S: TrezorMessage>(payload: Vec<u8>) -> (r: ProtoMessage)
        ensures
            r.0 == S::spec_message_type(),
            r.1@ == payload@,
    {
        ProtoMessage(S::message_type(), payload)
    }

    /// The type code of the message.
    pub fn message_type(&self) -> (r: MessageType)
        ensures
            r == self.0,
    {
        self.0
    }

    /// The encoded payload.
    pub fn payload(&self) -> (r: &[u8])
        ensures
            r@ == self.1@,
    {
        self.1.as_slice()
    }

    /// The encoded payload, taken out of the frame.
    pub fn into_payload(self) -> (r: Vec<u8>)
        ensures
            r == self.1,
    {
        self.1
    }
}

/// How the client reads the device's answer to a request whose expected
/// answer is of some kind: as that answer, as one of the requests for user
/// interaction, as a failure, or as something it did not expect. Each
/// carries the answer's payload.
#[derive(Clone, Debug)]
pub enum Response {
    /// The expected answer.
    Expected(Vec<u8>),
    /// The device waits for a button press.
    ButtonRequest(Vec<u8>),
    /// The device asks for the PIN.
    PinMatrixRequest(Vec<u8>),
    /// The device asks for the passphrase.
    PassphraseRequest(Vec<u8>),
    /// The device reports a failure.
    Failure(Vec<u8>),
    /// An answer of a type the request does not allow.
    Unexpected(MessageType, Vec<u8>),
}

/// The reading of an answer, as a function of the expected and the received
/// type codes.
pub open spec fn classify(expected: MessageType, received: MessageType, payload: Vec<u8>) -> Response {
    if received == expected {
        Response::Expected(payload)
    } else {
        match received {
            MessageType::ButtonRequest => Response::ButtonRequest(payload),
            MessageType::PinMatrixRequest => Response::PinMatrixRequest(payload),
            MessageType::PassphraseRequest => Response::PassphraseRequest(payload),
            MessageType::Failure => Response::Failure(payload),
            other => Response::Unexpected(other, payload),
        }
    }
}

/// The payload an answer carries, however it is read.
pub open spec fn response_payload(r: Response) -> Vec<u8> {
    match r {
        Response::Expected(p) => p,
        Response::ButtonRequest(p) => p,
        Response::PinMatrixRequest(p) => p,
        Response::PassphraseRequest(p) => p,
        Response::Failure(p) => p,
        Response::Unexpected(_, p) => p,
    }
}

/// Reading an answer never alters its payload; it is read as the expected
/// answer exactly when its type is the expected one; and it is unexpected
/// exactly when it is neither the expected answer nor a failure nor one of
/// the three requests for user interaction, in which case its type is
/// reported.
pub proof fn lemma_classify_reads_by_type(expected: MessageType, received: MessageType, payload: Vec<u8>)
    ensures
        response_payload(classify(expected, received, payload)) == payload,
        classify(expected, received, payload) is Expected <==> received == expected,
        classify(expected, received, payload) is Unexpected <==> {
            &&& received != expected
            &&& received != MessageType::ButtonRequest
            &&& received != MessageType::PinMatrixRequest
            &&& received != MessageType::PassphraseRequest
            &&& received != MessageType::Failure
        },
        classify(expected, received, payload) matches Response::Unexpected(t, _) ==> t == received,
{
}

/// Every message kind travels under the type code of its own name, so a
/// frame made for a message announces what it is: a request for an address
/// is framed as `GetAddress`, a request to sign a message as
/// `SignMessage`, and no two kinds share a code.
pub proof fn lemma_message_kinds_travel_under_their_own_codes()
    ensures
        <Initialize as TrezorMessage>::spec_message_type() == MessageType::Initialize,
        <Ping as TrezorMessage>::spec_message_type() == MessageType::Ping,
        <ChangePin as TrezorMessage>::spec_message_type() == MessageType::ChangePin,
        <WipeDevice as TrezorMessage>::spec_message_type() == MessageType::WipeDevice,
        <BackupDevice as TrezorMessage>::spec_message_type() == MessageType::BackupDevice,
        <RecoveryDevice as TrezorMessage>::spec_message_type() == MessageType::RecoveryDevice,
        <ResetDevice as TrezorMessage>::spec_message_type() == MessageType::ResetDevice,
        <EntropyRequest as TrezorMessage>::spec_message_type() == MessageType::EntropyRequest,
        <ApplySettings as TrezorMessage>::spec_message_type() == MessageType::ApplySettings,
        <Features as TrezorMessage>::spec_message_type() == MessageType::Features,
        <Success as TrezorMessage>::spec_message_type() == MessageType::Success,
        <Failure as TrezorMessage>::spec_message_type() == MessageType::Failure,
        <ButtonRequest as TrezorMessage>::spec_message_type() == MessageType::ButtonRequest,
        <ButtonAck as TrezorMessage>::spec_message_type() == MessageType::ButtonAck,
        <PinMatrixRequest as TrezorMessage>::spec_message_type() == MessageType::PinMatrixRequest,
        <PassphraseRequest as TrezorMessage>::spec_message_type() == MessageType::PassphraseRequest,
        <proto_btc::GetPublicKey as TrezorMessage>::spec_message_type() == MessageType::GetPublicKey,
        <proto_btc::PublicKey as TrezorMessage>::spec_message_type() == MessageType::PublicKey,
        <proto_btc::GetAddress as TrezorMessage>::spec_message_type() == MessageType::GetAddress,
        <proto_btc::Address as TrezorMessage>::spec_message_type() == MessageType::Address,
        <proto_btc::SignTx as TrezorMessage>::spec_message_type() == MessageType::SignTx,
        <proto_btc::TxRequest as TrezorMessage>::spec_message_type() == MessageType::TxRequest,
        <proto_btc::TxAck as TrezorMessage>::spec_message_type() == MessageType::TxAck,
        <proto_btc::SignMessage as TrezorMessage>::spec_message_type() == MessageType::SignMessage,
        <proto_btc::MessageSignature as TrezorMessage>::spec_message_type() == MessageType::MessageSignature,
{
}

/// How a non-expected answer is read depends only on the type it carries,
/// never on the answer that was expected: reading it against two different
/// expectations, neither of which it meets, gives the same result.
pub proof fn lemma_classify_ignores_expectation_when_unmet(
    expected1: MessageType,
    expected2: MessageType,
    received: MessageType,
    payload: Vec<u8>,
)
    requires
        received != expected1,
        received != expected2,
    ensures
        classify(expected1, received, payload) == classify(expected2, received, payload),
{
}

/// An answer that was not expected is read by its own type: a button
/// request as a button request, a PIN request as a PIN request, a
/// passphrase request as a passphrase request and a failure as a failure,
/// each with the payload it came with, whatever answer was expected.
pub proof fn lemma_interaction_requests_read_as_themselves(expected: MessageType, payload: Vec<u8>)
    ensures
        expected != MessageType::ButtonRequest ==> classify(
            expected,
            MessageType::ButtonRequest,
            payload,
        ) == Response::ButtonRequest(payload),
        expected != MessageType::PinMatrixRequest ==> classify(
            expected,
            MessageType::PinMatrixRequest,
            payload,
        ) == Response::PinMatrixRequest(payload),
        expected != MessageType::PassphraseRequest ==> classify(
            expected,
            MessageType::PassphraseRequest,
            payload,
        ) == Response::PassphraseRequest(payload),
        expected != MessageType::Failure ==> classify(expected, MessageType::Failure, payload)
            == Response::Failure(payload),
{
}

/// Reads the device's answer to a request whose expected answer is a
/// message of kind `R`.
pub fn classify_response<R: TrezorMessage>(resp: ProtoMessage) -> (r: Response)
    ensures
        r == classify(R::spec_message_type(), resp.0, resp.1),
{
    let expected = R::message_type();
    let received = resp.message_type();
    if received == expected {
        return Response::Expected(resp.into_payload());
    }
    match received {
        MessageType::ButtonRequest => Response::ButtonRequest(resp.into_payload()),
        MessageType::PinMatrixRequest => Response::PinMatrixRequest(resp.into_payload()),
        MessageType::PassphraseRequest => Response::PassphraseRequest(resp.into_payload()),
        MessageType::Failure => Response::Failure(resp.into_payload()),
        other => Response::Unexpected(other, resp.into_payload()),
    }
}

/// An answer of the device once its payload is decoded as the reading of
/// its type says: the expected message, a request for user interaction, a
/// failure, or the type of an answer that was not expected.
#[derive(Clone, Debug)]
pub enum Answer<R> {
    /// The expected message.
    Expected(R),
    /// The device waits for a button press.
    ButtonRequest(ButtonRequest),
    /// The device asks for the PIN.
    PinMatrixRequest(PinMatrixRequest),
    /// The device asks for the passphrase.
    PassphraseRequest(PassphraseRequest),
    /// The device reports a failure.
    Failure(Failure),
    /// An answer of a type the request does not allow.
    Unexpected(MessageType),
}

/// What a call returns for a decoded answer: the expected message, or the
/// error that reports any other answer.
pub fn answer_result<R>(answer: Answer<R>) -> (r: Result<R, Error>)
    ensures
        match answer {
            Answer::Expected(m) => r == Ok::<R, Error>(m),
            Answer::ButtonRequest(m) => r matches Err(Error::ButtonRequest(e)) && e == m,
            Answer::PinMatrixRequest(m) => r matches Err(Error::PinMatrixRequest(e)) && e == m,
            Answer::PassphraseRequest(m) => r matches Err(Error::PassphraseRequest(e)) && e == m,
            Answer::Failure(m) => r matches Err(Error::FailureResponse(e)) && e == m,
            Answer::Unexpected(t) => r matches Err(Error::UnexpectedMessageType(u)) && u == t,
        },
{
    match answer {
        Answer::Expected(m) => Ok(m),
        Answer::ButtonRequest(m) => Err(Error::ButtonRequest(m)),
        Answer::PinMatrixRequest(m) => Err(Error::PinMatrixRequest(m)),
        Answer::PassphraseRequest(m) => Err(Error::PassphraseRequest(m)),
        Answer::Failure(m) => Err(Error::FailureResponse(m)),
        Answer::Unexpected(t) => Err(Error::UnexpectedMessageType(t)),
    }
}

/// A device, seen from the host: its model, the features it last reported
/// and the link that reaches it.
pub struct Trezor<T> {
    model: Model,
    features: Option<Features>,
    transport: T,
}

impl<T> Trezor<T> {
    /// The model of the device.
    pub closed spec fn spec_model(&self) -> Model {
        self.model
    }

    /// The features the device last reported, if any.
    pub closed spec fn spec_features(&self) -> Option<Features> {
        self.features
    }

    /// The link to the device.
    pub closed spec fn spec_transport(&self) -> T {
        self.transport
    }

    /// A device of the given model reached through `transport`; it has not
    /// reported its features yet.
    pub fn new_with_transport(model: Model, transport: T) -> (r: Trezor<T>)
        ensures
            r.spec_model() == model,
            r.spec_features() is None,
            r.spec_transport() == transport,
    {
        Trezor { model, transport, features: None }
    }

    /// The model of the device.
    pub fn model(&self) -> (r: Model)
        ensures
            r == self.spec_model(),
    {
        self.model
    }

    /// The features the device last reported, if any.
    pub fn features(&self) -> (r: Option<&Features>)
        ensures
            r == match self.spec_features() {
                Some(f) => Some(&f),
                None => None::<&Features>,
            },
    {
        match &self.features {
            Some(f) => Some(f),
            None => None,
        }
    }

    /// The link to the device, to send and receive through.
    pub fn transport(&mut self) -> (r: &mut T)
        ensures
            *r == old(self).spec_transport(),
            final(self).spec_model() == old(self).spec_model(),
            final(self).spec_features() == old(self).spec_features(),
            final(self).spec_transport() == *final(r),
    {
        &mut self.transport
    }

    /// Records the features the device answered an `Initialize` with.
    pub fn init_device(&mut self, features: Features)
        ensures
            final(self).spec_features() == Some(features),
            final(self).spec_model() == old(self).spec_model(),
            final(self).spec_transport() == old(self).spec_transport(),
    {
        self.features = Some(features);
    }

    /// The `Initialize` request, resuming `session_id` where one is given.
    pub fn initialize(&self, session_id: Option<Vec<u8>>) -> (r: Initialize)
        ensures
            r.session_id == session_id,
    {
        Initialize { session_id }
    }

    /// The `Ping` request that asks the device to echo `message`.
    pub fn ping(&self, message: &str) -> (r: Ping)
        ensures
            r.message matches Some(m) && m@ == message@,
    {
        Ping { message: Some(message.to_owned()) }
    }

    /// The `ChangePin` request: it asks to remove the PIN where `remove`
    /// holds and leaves the field unset otherwise.
    pub fn change_pin(&self, remove: bool) -> (r: ChangePin)
        ensures
            r.remove == (if remove { Some(true) } else { None::<bool> }),
    {
        if remove {
            ChangePin { remove: Some(true) }
        } else {
            ChangePin { remove: None }
        }
    }

    /// The `WipeDevice` request.
    pub fn wipe_device(&self) -> (r: WipeDevice)
        ensures
            r == (WipeDevice {}),
    {
        WipeDevice {}
    }

    /// The `RecoveryDevice` request: scrambled words, wordlist enforced,
    /// English, and the caller's choices for the rest.
    pub fn recover_device(
        &self,
        word_count: u32,
        passphrase_protection: bool,
        pin_protection: bool,
        label: String,
        dry_run: bool,
    ) -> (r: RecoveryDevice)
        ensures
            r.word_count == Some(word_count),
            r.passphrase_protection == Some(passphrase_protection),
            r.pin_protection == Some(pin_protection),
            r.label == Some(label),
            r.enforce_wordlist == Some(true),
            r.dry_run == Some(dry_run),
            r.recovery_type == Some(RecoveryDeviceType::ScrambledWords),
            r.language matches Some(l) && l@ == "english"@,
            r.u2f_counter is None,
    {
        let english = "english";
        proof {
            reveal_strlit("english");
        }
        RecoveryDevice {
            word_count: Some(word_count),
            passphrase_protection: Some(passphrase_protection),
            pin_protection: Some(pin_protection),
            language: Some(english.to_owned()),
            label: Some(label),
            enforce_wordlist: Some(true),
            recovery_type: Some(RecoveryDeviceType::ScrambledWords),
            u2f_counter: None,
            dry_run: Some(dry_run),
        }
    }

    /// The `ResetDevice` request; the strength travels as a 32-bit number.
    pub fn reset_device(
        &self,
        display_random: bool,
        strength: usize,
        passphrase_protection: bool,
        pin_protection: bool,
        label: String,
        skip_backup: bool,
        no_backup: bool,
    ) -> (r: ResetDevice)
        ensures
            r.display_random == Some(display_random),
            r.strength == Some(strength as u32),
            r.passphrase_protection == Some(passphrase_protection),
            r.pin_protection == Some(pin_protection),
            r.label == Some(label),
            r.skip_backup == Some(skip_backup),
            r.no_backup == Some(no_backup),
            r.language is None,
            r.u2f_counter is None,
    {
        ResetDevice {
            display_random: Some(display_random),
            strength: Some(strength as u32),
            passphrase_protection: Some(passphrase_protection),
            pin_protection: Some(pin_protection),
            language: None,
            label: Some(label),
            u2f_counter: None,
            skip_backup: Some(skip_backup),
            no_backup: Some(no_backup),
        }
    }

    /// The `BackupDevice` request.
    pub fn backup(&self) -> (r: BackupDevice)
        ensures
            r == (BackupDevice {}),
    {
        BackupDevice {}
    }

    /// The `ApplySettings` request: each given setting is set, each absent
    /// one left unset; the lock delay travels as a 32-bit number.
    pub fn apply_settings(
        &self,
        label: Option<String>,
        use_passphrase: Option<bool>,
        homescreen: Option<Vec<u8>>,
        auto_lock_delay_ms: Option<usize>,
    ) -> (r: ApplySettings)
        ensures
            r.label == label,
            r.use_passphrase == use_passphrase,
            r.homescreen == homescreen,
            r.auto_lock_delay_ms == (match auto_lock_delay_ms {
                Some(d) => Some(d as u32),
                None => None::<u32>,
            }),
            r.language is None,
    {
        let delay = match auto_lock_delay_ms {
            Some(d) => Some(d as u32),
            None => None,
        };
        ApplySettings {
            language: None,
            label,
            use_passphrase,
            homescreen,
            auto_lock_delay_ms: delay,
        }
    }
}

/// The stages of the PIN-change dialogue. The host sends `ChangePin` and
/// then one `ButtonAck` for each further stage; the device answers every
/// message with a button request.
#[derive(Clone, Copy, Debug, PartialEq, Eq, Structural)]
pub enum ChangePinStage {
    /// `ChangePin` was answered: the device asks to confirm the change.
    Requested,
    /// The change was confirmed: the device waits for the new PIN.
    Confirmed,
    /// The new PIN was entered: the device waits for it to be repeated.
    PinEntered,
    /// The new PIN was repeated: nothing more is to be acknowledged.
    PinConfirmed,
}

/// The stage that follows `stage`, if the dialogue goes on.
pub open spec fn next_stage(stage: ChangePinStage) -> Option<ChangePinStage> {
    match stage {
        ChangePinStage::Requested => Some(ChangePinStage::Confirmed),
        ChangePinStage::Confirmed => Some(ChangePinStage::PinEntered),
        ChangePinStage::PinEntered => Some(ChangePinStage::PinConfirmed),
        ChangePinStage::PinConfirmed => None,
    }
}

impl ChangePinStage {
    /// The stage after the device has answered this stage's acknowledgement
    /// with a button request; `None` once the PIN has been repeated.
    pub fn advance(self) -> (r: Option<ChangePinStage>)
        ensures
            r == next_stage(self),
    {
        match self {
            ChangePinStage::Requested => Some(ChangePinStage::Confirmed),
            ChangePinStage::Confirmed => Some(ChangePinStage::PinEntered),
            ChangePinStage::PinEntered => Some(ChangePinStage::PinConfirmed),
            ChangePinStage::PinConfirmed => None,
        }
    }

    /// The acknowledgement that moves the dialogue on from this stage.
    pub fn acknowledgement(self) -> (r: ButtonAck)
        requires
            next_stage(self) is Some,
        ensures
            r == (ButtonAck {}),
    {
        ButtonAck::new()
    }
}

/// The PIN-change dialogue goes through its four stages in order: after the
/// answer to `ChangePin` come exactly three acknowledgements, and then the
/// dialogue is over.
pub proof fn lemma_change_pin_dialogue_length()
    ensures
        next_stage(ChangePinStage::Requested) == Some(ChangePinStage::Confirmed),
        next_stage(ChangePinStage::Confirmed) == Some(ChangePinStage::PinEntered),
        next_stage(ChangePinStage::PinEntered) == Some(ChangePinStage::PinConfirmed),
        next_stage(ChangePinStage::PinConfirmed) is None,
        forall|s: ChangePinStage| next_stage(s) != Some(ChangePinStage::Requested),
{
}

} // verus!
