use secp256k1::ecdsa::{RecoverableSignature, RecoveryId};
use trezor_api::btc::error::BtcError;
use trezor_api::btc::flows::sign_tx::{
    ack_input_request, ack_meta_request, ack_output_request, SignTxProgress,
};
use trezor_api::btc::requests::{
    get_address, message_signature_from_response, public_key_from_response, sign_message,
    sign_tx, GetPublicKey,
};
use trezor_api::btc::types::{
    ChildNumber, DerivationPath, KeySource, Network, OutPoint, PartiallySignedTransaction,
    PsbtInput, PsbtOutput, Transaction, TxIn, TxOut,
};
use trezor_api::btc::utils::{coin_name, convert_path, from_rev_bytes, psbt_find_input, to_rev_bytes};
use trezor_api::error::Error;
use trezor_api::protos::btc::{
    InputScriptType, MessageSignature, OutputScriptType, PublicKey, RequestType, TxRequest,
    TxRequestDetails, TxRequestSerialized,
};

fn hex(s: &str) -> Vec<u8> {
    (0..s.len()).step_by(2).map(|i| u8::from_str_radix(&s[i..i + 2], 16).unwrap()).collect()
}

const P2PKH: &str = "76a914162c5ea71c0b23f5b9022ef047c4a86470a5b07088ac";
const P2SH: &str = "a914162c5ea71c0b23f5b9022ef047c4a86470a5b07087";
const P2WPKH: &str = "0014162c5ea71c0b23f5b9022ef047c4a86470a5b070";

fn txid(b: u8) -> Vec<u8> {
    (0..32u8).map(|i| i ^ b).collect()
}

fn path() -> DerivationPath {
    DerivationPath(vec![
        ChildNumber::Hardened { index: 84 },
        ChildNumber::Normal { index: 7 },
    ])
}

fn key_source() -> KeySource {
    KeySource { pubkey: vec![2; 33], fingerprint: vec![1, 2, 3, 4], path: path() }
}

fn prev_tx() -> Transaction {
    Transaction {
        version: 1,
        lock_time: 0,
        input: vec![TxIn {
            previous_output: OutPoint { txid: txid(9), vout: 3 },
            script_sig: vec![0xaa, 0xbb],
            sequence: 0xffff_ffff,
        }],
        output: vec![
            TxOut { value: 5000, script_pubkey: hex(P2PKH) },
            TxOut { value: 7000, script_pubkey: hex(P2WPKH) },
        ],
    }
}

fn psbt() -> PartiallySignedTransaction {
    PartiallySignedTransaction {
        unsigned_tx: Transaction {
            version: 2,
            lock_time: 600_000,
            input: vec![
                TxIn {
                    previous_output: OutPoint { txid: txid(1), vout: 1 },
                    script_sig: vec![],
                    sequence: 0xffff_fffd,
                },
                TxIn {
                    previous_output: OutPoint { txid: txid(2), vout: 0 },
                    script_sig: vec![0x01],
                    sequence: 0,
                },
            ],
            output: vec![
                TxOut { value: 1000, script_pubkey: hex(P2PKH) },
                TxOut { value: 0, script_pubkey: vec![0x6a, 0x03, 0x61, 0x62, 0x63] },
            ],
        },
        inputs: vec![
            PsbtInput {
                non_witness_utxo: Some(prev_tx()),
                witness_utxo: None,
                hd_keypaths: vec![key_source()],
                witness_script: None,
                partial_sigs: vec![],
                final_script_sig: None,
                final_script_witness: None,
            },
            PsbtInput {
                non_witness_utxo: None,
                witness_utxo: Some(TxOut { value: 42, script_pubkey: hex(P2WPKH) }),
                hd_keypaths: vec![],
                witness_script: None,
                partial_sigs: vec![],
                final_script_sig: None,
                final_script_witness: None,
            },
        ],
        outputs: vec![
            PsbtOutput { redeem_script: None, witness_script: None, hd_keypaths: vec![] },
            PsbtOutput {
                redeem_script: None,
                witness_script: None,
                hd_keypaths: vec![key_source()],
            },
        ],
    }
}

fn request(kind: RequestType, index: Option<u32>, tx_hash: Option<Vec<u8>>) -> TxRequest {
    TxRequest {
        request_type: Some(kind),
        details: Some(TxRequestDetails { request_index: index, tx_hash }),
        serialized: None,
    }
}

fn rev(v: &[u8]) -> Vec<u8> {
    v.iter().rev().cloned().collect()
}

#[test]
fn coin_names() {
    assert_eq!(coin_name(Network::Bitcoin).unwrap(), "Bitcoin");
    assert_eq!(coin_name(Network::Testnet).unwrap(), "Testnet");
    assert!(matches!(coin_name(Network::Regtest), Err(Error::UnsupportedNetwork)));
    assert!(matches!(coin_name(Network::Signet), Err(Error::UnsupportedNetwork)));
}

#[test]
fn path_conversion_sets_hardened_bit() {
    assert_eq!(convert_path(&path()), vec![0x8000_0054, 7]);
    assert_eq!(convert_path(&DerivationPath(vec![])), Vec::<u32>::new());
}

#[test]
fn reversed_hashes_round_trip() {
    let h = txid(5);
    let r = to_rev_bytes(&h);
    assert_eq!(r, rev(&h));
    assert_eq!(from_rev_bytes(&r), Some(h));
    assert_eq!(from_rev_bytes(&[1, 2, 3]), None);
}

#[test]
fn input_script_types_follow_spent_script() {
    let cases: Vec<(Vec<u8>, Option<Vec<u8>>, InputScriptType)> = vec![
        (hex(P2PKH), None, InputScriptType::SpendAddress),
        (hex(P2WPKH), None, InputScriptType::SpendWitness),
        (hex(P2SH), Some(vec![0x51]), InputScriptType::SpendP2shWitness),
        (hex(P2SH), None, InputScriptType::External),
        (vec![0x6a], None, InputScriptType::External),
    ];
    for (script, witness_script, expected) in cases {
        let mut p = psbt();
        p.inputs[1].witness_utxo = Some(TxOut { value: 1, script_pubkey: script });
        p.inputs[1].witness_script = witness_script;
        let ack = ack_input_request(&request(RequestType::TxInput, Some(1), None), &p).unwrap();
        assert_eq!(ack.tx.unwrap().inputs[0].script_type, Some(expected));
    }
}

#[test]
fn output_addresses_follow_script_and_network() {
    let mut p = psbt();
    p.unsigned_tx.output[0].script_pubkey = hex(P2SH);
    let o = ack_output_request(&request(RequestType::TxOutput, Some(0), None), &p, Network::Bitcoin)
        .unwrap()
        .tx
        .unwrap()
        .outputs
        .remove(0);
    assert_eq!(o.address, Some("33iFwdLuRpW1uK1RTRqsoi8rR4NpDzk66k".to_string()));
    let t = ack_output_request(&request(RequestType::TxOutput, Some(0), None), &psbt(), Network::Testnet)
        .unwrap()
        .tx
        .unwrap()
        .outputs
        .remove(0);
    assert!(t.address.unwrap().starts_with(|c| c == 'm' || c == 'n'));
}

#[test]
fn find_input_by_txid() {
    let p = psbt();
    let found = psbt_find_input(&p, &txid(2)).unwrap();
    assert_eq!(found.witness_utxo.as_ref().unwrap().value, 42);
    assert!(matches!(psbt_find_input(&p, &txid(3)), Err(BtcError::TxRequestUnknownTxid(t)) if t == txid(3)));
    let mut short = psbt();
    short.inputs.truncate(1);
    assert!(matches!(
        psbt_find_input(&short, &txid(2)),
        Err(BtcError::Client(Error::TxRequestInvalidIndex(1)))
    ));
}

#[test]
fn input_of_signed_transaction() {
    let ack = ack_input_request(&request(RequestType::TxInput, Some(0), None), &psbt()).unwrap();
    let tx = ack.tx.unwrap();
    assert_eq!(tx.inputs.len(), 1);
    let i = &tx.inputs[0];
    assert_eq!(i.prev_hash, rev(&txid(1)));
    assert_eq!(i.prev_index, 1);
    assert_eq!(i.script_sig, Some(vec![]));
    assert_eq!(i.address_n, vec![0x8000_0054, 7]);
    assert_eq!(i.script_type, Some(InputScriptType::SpendWitness));
    assert_eq!(i.amount, Some(7000));
}

#[test]
fn input_with_witness_utxo() {
    let ack = ack_input_request(&request(RequestType::TxInput, Some(1), None), &psbt()).unwrap();
    let i = &ack.tx.unwrap().inputs[0];
    assert_eq!(i.address_n, Vec::<u32>::new());
    assert_eq!(i.amount, Some(42));
    assert_eq!(i.script_type, Some(InputScriptType::SpendWitness));
}

#[test]
fn input_of_previous_transaction() {
    let req = request(RequestType::TxInput, Some(0), Some(rev(&txid(1))));
    let ack = ack_input_request(&req, &psbt()).unwrap();
    let i = &ack.tx.unwrap().inputs[0];
    assert_eq!(i.prev_hash, rev(&txid(9)));
    assert_eq!(i.prev_index, 3);
    assert_eq!(i.script_sig, Some(vec![0xaa, 0xbb]));
    assert_eq!(i.script_type, None);
    assert_eq!(i.amount, None);
}

#[test]
fn input_request_errors() {
    let p = psbt();
    let no_index = request(RequestType::TxInput, None, None);
    assert!(matches!(
        ack_input_request(&no_index, &p),
        Err(BtcError::Client(Error::MalformedTxRequest(r))) if r == no_index
    ));
    let bad_hash = request(RequestType::TxInput, Some(0), Some(vec![1, 2]));
    assert!(matches!(
        ack_input_request(&bad_hash, &p),
        Err(BtcError::Client(Error::MalformedTxRequest(_)))
    ));
    let no_tx = request(RequestType::TxInput, Some(0), Some(rev(&txid(2))));
    assert!(matches!(
        ack_input_request(&no_tx, &p),
        Err(BtcError::PsbtMissingInputTx(h)) if h == txid(2)
    ));
    let far = request(RequestType::TxInput, Some(5), None);
    assert!(matches!(
        ack_input_request(&far, &p),
        Err(BtcError::Client(Error::TxRequestInvalidIndex(5)))
    ));
    let mut bad = psbt();
    bad.inputs[0].non_witness_utxo.as_mut().unwrap().output.truncate(1);
    assert!(matches!(
        ack_input_request(&request(RequestType::TxInput, Some(0), None), &bad),
        Err(BtcError::Client(Error::InvalidPsbt(m))) if m == "invalid utxo for PSBT input 0"
    ));
    bad.inputs[1].witness_utxo = None;
    assert!(matches!(
        ack_input_request(&request(RequestType::TxInput, Some(1), None), &bad),
        Err(BtcError::Client(Error::InvalidPsbt(m))) if m == "no utxo for PSBT input 1"
    ));
    bad.inputs.truncate(1);
    assert!(matches!(
        ack_input_request(&request(RequestType::TxInput, Some(1), None), &bad),
        Err(BtcError::Client(Error::InvalidPsbt(m))) if m == "not enough psbt inputs"
    ));
}

#[test]
fn output_of_signed_transaction() {
    let ack = ack_output_request(&request(RequestType::TxOutput, Some(0), None), &psbt(), Network::Bitcoin)
        .unwrap();
    let tx = ack.tx.unwrap();
    assert_eq!(tx.outputs.len(), 1);
    let o = &tx.outputs[0];
    assert_eq!(o.amount, 1000);
    assert_eq!(o.address, Some("132F25rTsvBdp9JzLLBHP5mvGY66i1xdiM".to_string()));
    assert_eq!(o.script_type, OutputScriptType::PayToAddress);
    assert_eq!(o.address_n, Vec::<u32>::new());
}

#[test]
fn op_return_change_output() {
    let ack = ack_output_request(&request(RequestType::TxOutput, Some(1), None), &psbt(), Network::Bitcoin)
        .unwrap();
    let o = &ack.tx.unwrap().outputs[0];
    assert_eq!(o.script_type, OutputScriptType::PayToOpReturn);
    assert_eq!(o.op_return_data, Some(vec![0x03, 0x61, 0x62, 0x63]));
    assert_eq!(o.address_n, vec![0x8000_0054, 7]);
    assert_eq!(o.address, None);
}

#[test]
fn witness_change_outputs() {
    let mut p = psbt();
    p.unsigned_tx.output[1].script_pubkey = hex(P2WPKH);
    p.outputs[1].witness_script = Some(vec![0x51]);
    let o = ack_output_request(&request(RequestType::TxOutput, Some(1), None), &p, Network::Testnet)
        .unwrap()
        .tx
        .unwrap()
        .outputs
        .remove(0);
    assert_eq!(o.script_type, OutputScriptType::PayToWitness);
    p.outputs[1].redeem_script = Some(vec![0x52]);
    let o = ack_output_request(&request(RequestType::TxOutput, Some(1), None), &p, Network::Testnet)
        .unwrap()
        .tx
        .unwrap()
        .outputs
        .remove(0);
    assert_eq!(o.script_type, OutputScriptType::PayToP2shWitness);
}

#[test]
fn output_of_previous_transaction() {
    let req = request(RequestType::TxOutput, Some(1), Some(rev(&txid(1))));
    let tx = ack_output_request(&req, &psbt(), Network::Bitcoin).unwrap().tx.unwrap();
    assert_eq!(tx.bin_outputs.len(), 1);
    assert_eq!(tx.bin_outputs[0].amount, 7000);
    assert_eq!(tx.bin_outputs[0].script_pubkey, hex(P2WPKH));
    let witness_only = request(RequestType::TxOutput, Some(9), Some(rev(&txid(2))));
    let tx = ack_output_request(&witness_only, &psbt(), Network::Bitcoin).unwrap().tx.unwrap();
    assert_eq!(tx.bin_outputs[0].amount, 42);
}

#[test]
fn output_request_errors() {
    let p = psbt();
    let far = request(RequestType::TxOutput, Some(2), None);
    assert!(matches!(
        ack_output_request(&far, &p, Network::Bitcoin),
        Err(BtcError::Client(Error::TxRequestInvalidIndex(2)))
    ));
    let mut q = psbt();
    q.outputs.truncate(1);
    assert!(matches!(
        ack_output_request(&request(RequestType::TxOutput, Some(1), None), &q, Network::Bitcoin),
        Err(BtcError::Client(Error::InvalidPsbt(m))) if m == "output indices don't match"
    ));
    let mut r = psbt();
    r.inputs[1].witness_utxo = None;
    assert!(matches!(
        ack_output_request(&request(RequestType::TxOutput, Some(0), Some(rev(&txid(2)))), &r, Network::Bitcoin),
        Err(BtcError::Client(Error::InvalidPsbt(m))) if m == "not all inputs have utxo data"
    ));
}

#[test]
fn meta_of_transactions() {
    let own = ack_meta_request(&request(RequestType::TxMeta, None, None), &psbt()).unwrap().tx.unwrap();
    assert_eq!(own.version, Some(2));
    assert_eq!(own.lock_time, Some(600_000));
    assert_eq!(own.inputs_cnt, Some(2));
    assert_eq!(own.outputs_cnt, Some(2));
    let prev = ack_meta_request(&request(RequestType::TxMeta, None, Some(rev(&txid(1)))), &psbt())
        .unwrap()
        .tx
        .unwrap();
    assert_eq!(prev.version, Some(1));
    assert_eq!(prev.inputs_cnt, Some(1));
    let no_details = TxRequest { request_type: Some(RequestType::TxMeta), details: None, serialized: None };
    assert!(matches!(
        ack_meta_request(&no_details, &psbt()),
        Err(BtcError::Client(Error::MalformedTxRequest(_)))
    ));
}

#[test]
fn progress_reports_signatures_and_parts() {
    let req = TxRequest {
        request_type: Some(RequestType::TxInput),
        details: Some(TxRequestDetails { request_index: Some(0), tx_hash: None }),
        serialized: Some(TxRequestSerialized {
            signature_index: Some(1),
            signature: Some(vec![0x30, 0x44]),
            serialized_tx: Some(vec![0x02, 0x00]),
        }),
    };
    let p = SignTxProgress::new(req.clone());
    assert!(!p.finished());
    assert!(p.has_signature());
    assert_eq!(p.get_signature(), Some((1usize, &[0x30u8, 0x44][..])));
    assert!(p.has_serialized_tx_part());
    assert_eq!(p.get_serialized_tx_part(), Some(&[0x02u8, 0x00][..]));
    assert_eq!(p.tx_request(), &req);
    let ack = p.ack_psbt(&psbt(), Network::Bitcoin).unwrap();
    assert_eq!(ack.tx.unwrap().inputs.len(), 1);

    let done = SignTxProgress::new(TxRequest {
        request_type: Some(RequestType::TxFinished),
        details: None,
        serialized: Some(TxRequestSerialized { signature_index: None, signature: Some(vec![1]), serialized_tx: None }),
    });
    assert!(done.finished());
    assert!(!done.has_signature());
    assert_eq!(done.get_signature(), None);
    assert_eq!(done.get_serialized_tx_part(), None);
}

#[test]
fn missing_request_type_means_input() {
    let p = SignTxProgress::new(TxRequest { request_type: None, details: None, serialized: None });
    assert!(!p.finished());
}

#[test]
fn public_key_request_and_answer() {
    let opts = GetPublicKey {
        path: path(),
        script_type: InputScriptType::SpendAddress,
        network: Network::Testnet,
        show_display: true,
    };
    let req = opts.request().unwrap();
    assert_eq!(req.address_n, vec![0x8000_0054, 7]);
    assert_eq!(req.coin_name, Some("Testnet".to_string()));
    assert_eq!(req.show_display, Some(true));
    let bad = GetPublicKey { path: path(), script_type: InputScriptType::SpendAddress, network: Network::Regtest, show_display: false };
    assert!(matches!(bad.request(), Err(BtcError::Client(Error::UnsupportedNetwork))));

    let good = public_key_from_response(PublicKey {
        xpub: "xpub661MyMwAqRbcFtXgS5sYJABqqG9YLmC4Q1Rdap9gSE8NqtwybGhePY2gZ29ESFjqJoCu1Rupje8YtGqsefD265TMg7usUDFdp6W1EGMcet8".to_string(),
    });
    assert!(good.is_ok());
    let wrong = public_key_from_response(PublicKey { xpub: "xpubnope".to_string() });
    assert!(matches!(wrong, Err(BtcError::Client(Error::ToString(s))) if s == "xpubnope"));
}

#[test]
fn address_and_sign_tx_requests() {
    let a = get_address(&path(), InputScriptType::SpendWitness, Network::Bitcoin, false).unwrap();
    assert_eq!(a.coin_name, Some("Bitcoin".to_string()));
    assert_eq!(a.script_type, Some(InputScriptType::SpendWitness));
    let s = sign_tx(&psbt(), Network::Bitcoin).unwrap();
    assert_eq!(s.inputs_count, 2);
    assert_eq!(s.outputs_count, 2);
    assert_eq!(s.version, Some(2));
    assert_eq!(s.lock_time, Some(600_000));
}

#[test]
fn messages_are_normalized_before_signing() {
    let decomposed = "e\u{0301}";
    let req = sign_message(decomposed, &path(), InputScriptType::SpendAddress, Network::Bitcoin).unwrap();
    assert_eq!(req.message, vec![0xc3, 0xa9]);
    assert!(matches!(
        sign_message("x", &path(), InputScriptType::SpendAddress, Network::Regtest),
        Err(BtcError::Client(Error::UnsupportedNetwork))
    ));
}

#[test]
fn message_signatures_are_parsed() {
    let mut sig = vec![31u8];
    sig.extend(vec![1u8; 64]);
    let ok = message_signature_from_response(MessageSignature { address: "addr".to_string(), signature: sig });
    assert!(matches!(ok, Ok((a, _)) if a == "addr"));
    let short = message_signature_from_response(MessageSignature { address: "a".to_string(), signature: vec![27; 10] });
    assert!(matches!(short, Err(BtcError::Secp256k1(_))));
    let mut bad_id = vec![40u8];
    bad_id.extend(vec![1u8; 64]);
    assert!(matches!(
        message_signature_from_response(MessageSignature { address: "a".to_string(), signature: bad_id }),
        Err(BtcError::Secp256k1(_))
    ));
    let mut overflow = vec![27u8];
    overflow.extend(vec![0xffu8; 64]);
    assert!(matches!(
        message_signature_from_response(MessageSignature { address: "a".to_string(), signature: overflow }),
        Err(BtcError::Secp256k1(_))
    ));
}

#[test]
fn hardened_and_normal_children_differ() {
    let h = convert_path(&DerivationPath(vec![ChildNumber::Hardened { index: 1 }]));
    let n = convert_path(&DerivationPath(vec![ChildNumber::Normal { index: 1 }]));
    assert_ne!(h, n);
    assert_eq!(h, vec![0x8000_0001]);
    assert_eq!(n, vec![1]);
}

#[test]
fn previous_output_index_is_ignored_for_witness_only_inputs() {
    let p = psbt();
    let a = ack_output_request(&request(RequestType::TxOutput, Some(0), Some(rev(&txid(2)))), &p, Network::Bitcoin)
        .unwrap();
    let b = ack_output_request(&request(RequestType::TxOutput, Some(3), Some(rev(&txid(2)))), &p, Network::Bitcoin)
        .unwrap();
    assert_eq!(a, b);
}

#[test]
fn public_key_is_the_one_its_text_spells() {
    let text = "xpub661MyMwAqRbcFtXgS5sYJABqqG9YLmC4Q1Rdap9gSE8NqtwybGhePY2gZ29ESFjqJoCu1Rupje8YtGqsefD265TMg7usUDFdp6W1EGMcet8";
    let key = public_key_from_response(PublicKey { xpub: text.to_string() }).unwrap();
    let expected: bitcoin::util::bip32::ExtendedPubKey = text.parse().unwrap();
    assert_eq!(key, expected);
}

#[test]
fn signature_recovery_id_comes_from_the_header() {
    let body = vec![1u8; 64];
    for (header, id) in [(27u8, 0), (28, 1), (30, 3), (31, 0), (33, 2), (34, 3)] {
        let mut sig = vec![header];
        sig.extend(body.clone());
        let (_, parsed) =
            message_signature_from_response(MessageSignature { address: "a".to_string(), signature: sig }).unwrap();
        let expected = RecoverableSignature::from_compact(&body, RecoveryId::from_i32(id).unwrap()).unwrap();
        assert_eq!(parsed, expected);
        assert_eq!(parsed.serialize_compact().0.to_i32(), id);
    }
}

#[test]
fn signature_header_below_27_is_rejected() {
    for header in [0u8, 3, 26] {
        let mut sig = vec![header];
        sig.extend(vec![1u8; 64]);
        assert!(matches!(
            message_signature_from_response(MessageSignature { address: "a".to_string(), signature: sig }),
            Err(BtcError::Secp256k1(_))
        ));
    }
}

#[test]
fn hashes_are_written_last_byte_first() {
    assert_eq!(trezor_api::btc::error::hash_text(&[0x01, 0xab, 0x00]), "00ab01");
    assert_eq!(trezor_api::btc::error::hash_text(&[]), "");
    let id = txid(5);
    let shown = <bitcoin::hashes::sha256d::Hash as bitcoin::hashes::Hash>::from_slice(&id).unwrap().to_string();
    assert_eq!(trezor_api::btc::error::hash_text(&id), shown);
}

#[test]
fn numbers_are_written_in_decimal() {
    assert_eq!(trezor_api::btc::utils::decimal_text(0), "0");
    assert_eq!(trezor_api::btc::utils::decimal_text(7), "7");
    assert_eq!(trezor_api::btc::utils::decimal_text(1234), "1234");
    assert_eq!(trezor_api::btc::utils::decimal_text(usize::MAX), usize::MAX.to_string());
}

#[test]
fn bitcoin_error_messages() {
    assert_eq!(
        BtcError::TxRequestUnknownTxid(vec![0x01, 0xab]).message(),
        "The device referenced an unknown TXID: ab01"
    );
    assert_eq!(
        BtcError::PsbtMissingInputTx(vec![0xff]).message(),
        "The PSBT is missing the full tx for given input: ff"
    );
    assert_eq!(
        BtcError::Client(Error::ToString("xpubnope".to_string())).message(),
        "Failed to parse 'xpubnope' from string"
    );
    assert_eq!(BtcError::Client(Error::InvalidPsbt("no utxo".to_string())).message(), "Invalid PSBT: no utxo");
    assert_eq!(BtcError::Client(Error::UnsupportedNetwork).message(), "The given Bitcoin network is not supported.");
    let secp = BtcError::Secp256k1(secp256k1::Error::InvalidSignature).message();
    assert_eq!(secp, format!("Elliptic curve crypto error: {}", secp256k1::Error::InvalidSignature));
}

fn signed(index: u32, sig: Vec<u8>) -> SignTxProgress {
    SignTxProgress::new(TxRequest {
        request_type: Some(RequestType::TxInput),
        details: None,
        serialized: Some(TxRequestSerialized { signature_index: Some(index), signature: Some(sig), serialized_tx: None }),
    })
}

#[test]
fn witness_signatures_go_into_the_witness() {
    let mut p = psbt();
    signed(0, vec![0x30, 0x44, 0x02]).apply_signature(&mut p).unwrap();
    assert_eq!(p.inputs[0].final_script_witness, Some(vec![vec![0x30, 0x44, 0x02, 0x01], vec![2; 33]]));
    assert_eq!(p.inputs[0].final_script_sig, None);
    assert!(p.inputs[0].partial_sigs.is_empty());
    assert_eq!(p.inputs[1].final_script_witness, None);
    assert_eq!(p.inputs[1].final_script_sig, None);
}

#[test]
fn pubkey_hash_signatures_go_into_the_unlocking_script() {
    let mut p = psbt();
    p.unsigned_tx.input[0].previous_output.vout = 0;
    signed(0, vec![0x30, 0x44, 0x02]).apply_signature(&mut p).unwrap();
    let mut expected = vec![4u8, 0x30, 0x44, 0x02, 0x01, 33];
    expected.extend(vec![2u8; 33]);
    assert_eq!(p.inputs[0].final_script_sig, Some(expected));
    assert_eq!(p.inputs[0].final_script_witness, None);
}

#[test]
fn other_signatures_are_collected_under_their_key() {
    let mut p = psbt();
    p.inputs[1].witness_utxo = Some(TxOut { value: 42, script_pubkey: hex(P2SH) });
    p.inputs[1].hd_keypaths = vec![key_source()];
    signed(1, vec![0x30, 0x01]).apply_signature(&mut p).unwrap();
    assert_eq!(p.inputs[1].partial_sigs, vec![(vec![2u8; 33], vec![0x30, 0x01, 0x01])]);
    signed(1, vec![0x30, 0x02]).apply_signature(&mut p).unwrap();
    assert_eq!(p.inputs[1].partial_sigs, vec![(vec![2u8; 33], vec![0x30, 0x02, 0x01])]);
    assert_eq!(p.inputs[1].final_script_sig, None);
    assert_eq!(p.inputs[1].final_script_witness, None);
}

#[test]
fn signatures_that_cannot_be_placed_are_reported() {
    let mut p = psbt();
    assert!(matches!(
        signed(1, vec![0x30]).apply_signature(&mut p),
        Err(BtcError::Client(Error::InvalidPsbt(m))) if m == "no single key for PSBT input 1"
    ));
    assert!(matches!(
        signed(5, vec![0x30]).apply_signature(&mut p),
        Err(BtcError::Client(Error::TxRequestInvalidIndex(5)))
    ));
    let none = SignTxProgress::new(request(RequestType::TxInput, Some(0), None));
    none.apply_signature(&mut p).unwrap();
    assert!(p.inputs.iter().all(|i| i.final_script_sig.is_none() && i.final_script_witness.is_none() && i.partial_sigs.is_empty()));
}
