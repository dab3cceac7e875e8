use trezor_api::client::{answer_result, classify_response, Answer, ChangePinStage, Model, ProtoMessage, Response, Trezor};
use trezor_api::error::Error;
use trezor_api::message_type::{MessageType, TrezorMessage};
use trezor_api::protos::common::{ButtonAck, ButtonRequest, Failure, Success};
use trezor_api::protos::management::{Features, Initialize, RecoveryDeviceType};

fn features() -> Features {
    Features {
        vendor: Some("trezor.io".to_string()),
        major_version: 2,
        minor_version: 4,
        patch_version: 3,
        device_id: None,
        pin_protection: Some(true),
        passphrase_protection: None,
        label: Some("mine".to_string()),
        initialized: Some(true),
        fw_vendor: None,
    }
}

#[test]
fn frame_carries_message_type_and_payload() {
    let m = ProtoMessage::for_message::<Initialize>(vec![1, 2, 3]);
    assert_eq!(m.message_type(), MessageType::Initialize);
    assert_eq!(m.payload(), &[1, 2, 3]);
    assert_eq!(m.into_payload(), vec![1, 2, 3]);
}

#[test]
fn message_types_of_messages() {
    assert_eq!(<Success as TrezorMessage>::message_type(), MessageType::Success);
    assert_eq!(<Failure as TrezorMessage>::message_type(), MessageType::Failure);
    assert_eq!(<ButtonAck as TrezorMessage>::message_type(), MessageType::ButtonAck);
    assert_eq!(<Features as TrezorMessage>::message_type(), MessageType::Features);
}

#[test]
fn expected_answer_is_read_as_expected() {
    let r = classify_response::<Features>(ProtoMessage(MessageType::Features, vec![9]));
    assert!(matches!(r, Response::Expected(p) if p == vec![9]));
}

#[test]
fn expected_type_wins_over_interaction_reading() {
    let r = classify_response::<ButtonRequest>(ProtoMessage(MessageType::ButtonRequest, vec![4]));
    assert!(matches!(r, Response::Expected(p) if p == vec![4]));
}

#[test]
fn interaction_requests_and_failures_are_recognised() {
    let b = classify_response::<Success>(ProtoMessage(MessageType::ButtonRequest, vec![1]));
    assert!(matches!(b, Response::ButtonRequest(p) if p == vec![1]));
    let p = classify_response::<Success>(ProtoMessage(MessageType::PinMatrixRequest, vec![2]));
    assert!(matches!(p, Response::PinMatrixRequest(x) if x == vec![2]));
    let q = classify_response::<Success>(ProtoMessage(MessageType::PassphraseRequest, vec![3]));
    assert!(matches!(q, Response::PassphraseRequest(x) if x == vec![3]));
    let f = classify_response::<Success>(ProtoMessage(MessageType::Failure, vec![5]));
    assert!(matches!(f, Response::Failure(x) if x == vec![5]));
}

#[test]
fn other_answers_are_unexpected() {
    let r = classify_response::<Success>(ProtoMessage(MessageType::Features, vec![7, 7]));
    assert!(matches!(r, Response::Unexpected(MessageType::Features, p) if p == vec![7, 7]));
}

#[test]
fn new_device_has_no_features_until_initialized() {
    let mut t = Trezor::new_with_transport(Model::Emulator, 5u8);
    assert_eq!(t.model(), Model::Emulator);
    assert!(t.features().is_none());
    t.init_device(features());
    assert_eq!(t.features(), Some(&features()));
    assert_eq!(*t.transport(), 5u8);
}

#[test]
fn feature_accessors_default_when_unset() {
    let f = features();
    assert_eq!(f.fw_vendor(), "");
    assert_eq!(f.device_id(), "");
    assert_eq!(f.label(), "mine");
    assert!(f.initialized());
    assert!(f.pin_protection());
    assert!(!f.passphrase_protection());
}

#[test]
fn request_builders() {
    let t = Trezor::new_with_transport(Model::Trezor1, ());
    assert_eq!(t.initialize(Some(vec![1, 2])).session_id, Some(vec![1, 2]));
    assert_eq!(t.initialize(None).session_id, None);
    assert_eq!(t.ping("hello").message, Some("hello".to_string()));
    assert_eq!(t.change_pin(true).remove, Some(true));
    assert_eq!(t.change_pin(false).remove, None);
}

#[test]
fn recover_device_uses_scrambled_english_words() {
    let t = Trezor::new_with_transport(Model::Trezor2, ());
    let r = t.recover_device(24, true, false, "lbl".to_string(), true);
    assert_eq!(r.word_count, Some(24));
    assert_eq!(r.passphrase_protection, Some(true));
    assert_eq!(r.pin_protection, Some(false));
    assert_eq!(r.label, Some("lbl".to_string()));
    assert_eq!(r.enforce_wordlist, Some(true));
    assert_eq!(r.dry_run, Some(true));
    assert_eq!(r.recovery_type, Some(RecoveryDeviceType::ScrambledWords));
    assert_eq!(r.language, Some("english".to_string()));
    assert_eq!(r.u2f_counter, None);
}

#[test]
fn reset_device_sends_strength_as_u32() {
    let t = Trezor::new_with_transport(Model::Trezor2, ());
    let r = t.reset_device(false, 256, true, true, "x".to_string(), false, true);
    assert_eq!(r.strength, Some(256));
    assert_eq!(r.display_random, Some(false));
    assert_eq!(r.no_backup, Some(true));
    assert_eq!(r.skip_backup, Some(false));
    assert_eq!(r.language, None);
}

#[test]
fn apply_settings_sets_only_given_fields() {
    let t = Trezor::new_with_transport(Model::Trezor2, ());
    let r = t.apply_settings(Some("a".to_string()), None, Some(vec![0]), Some(600_000));
    assert_eq!(r.label, Some("a".to_string()));
    assert_eq!(r.use_passphrase, None);
    assert_eq!(r.homescreen, Some(vec![0]));
    assert_eq!(r.auto_lock_delay_ms, Some(600_000));
    let s = t.apply_settings(None, Some(true), None, None);
    assert_eq!(s.label, None);
    assert_eq!(s.use_passphrase, Some(true));
    assert_eq!(s.auto_lock_delay_ms, None);
}

#[test]
fn change_pin_dialogue_acknowledges_three_times() {
    let mut stage = ChangePinStage::Requested;
    let mut acks = 0;
    while let Some(next) = stage.advance() {
        let _ = stage.acknowledgement();
        acks += 1;
        stage = next;
    }
    assert_eq!(acks, 3);
    assert_eq!(stage, ChangePinStage::PinConfirmed);
}

#[test]
fn errors_convert_from_decode_errors() {
    let e: Error = prost::DecodeError::new("bad").into();
    assert!(matches!(e, Error::DecodeError(_)));
}

#[test]
fn answers_other_than_the_expected_are_errors() {
    let ok: Result<Success, Error> = answer_result(Answer::Expected(Success { message: Some("hi".to_string()) }));
    assert!(matches!(ok, Ok(Success { message: Some(m) }) if m == "hi"));
    let button: Result<Success, Error> = answer_result(Answer::ButtonRequest(ButtonRequest { code: Some(8), pages: None }));
    assert!(matches!(button, Err(Error::ButtonRequest(ButtonRequest { code: Some(8), pages: None }))));
    let failure: Result<Success, Error> =
        answer_result(Answer::Failure(Failure { code: Some(4), message: Some("cancelled".to_string()) }));
    match failure {
        Err(e) => {
            assert!(matches!(e, Error::FailureResponse(_)));
            assert!(e.message().starts_with("failure received: "));
        }
        Ok(_) => panic!("a failure is an error"),
    }
    let unexpected: Result<Success, Error> = answer_result(Answer::Unexpected(MessageType::Features));
    assert!(matches!(unexpected, Err(Error::UnexpectedMessageType(MessageType::Features))));
}

#[test]
fn client_error_messages() {
    assert_eq!(Error::NoDeviceFound.message(), "Less than one device was plugged in.");
    assert_eq!(Error::PinMatrixRequest(trezor_api::protos::common::PinMatrixRequest { matrix_type: None }).message(), "Pin matrix request");
    assert_eq!(Error::InvalidEntropy.message(), "Provided entropy is not 32 bytes.");
}
