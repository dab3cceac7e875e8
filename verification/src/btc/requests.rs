//! The requests of the Bitcoin application and how their answers are read.

use vstd::prelude::*;

use ::bitcoin::util::bip32::ExtendedPubKey;
use secp256k1::ecdsa::RecoverableSignature;

use crate::btc::error::BtcError;
use crate::btc::types::{DerivationPath, Network, PartiallySignedTransaction};
use crate::btc::utils::{
    coin_name, convert_path, extended_pubkey_from_str, nfc, normalize_nfc,
    parse_recoverable_signature, parsed_xpub, path_codes, signature_parse, signature_parses,
    spec_coin_name,
};
use crate::error::Error;
use crate::protos::btc as proto;
use crate::protos::btc::InputScriptType;

verus! {

/// What to ask for when asking for an extended public key.
pub struct GetPublicKey {
    /// The derivation path of the key.
    pub path: DerivationPath,
    /// The script type the key is for.
    pub script_type: InputScriptType,
    /// The network whose version bytes to use.
    pub network: Network,
    /// Whether to show the key on the device.
    pub show_display: bool,
}

/// Whether `r` reports that `network` has no coin name.
pub open spec fn unsupported_network<T>(r: Result<T, BtcError>) -> bool {
    r matches Err(BtcError::Client(Error::UnsupportedNetwork))
}

/// The coin name of `network` as a request field.
fn coin_field(network: Network) -> (r: Result<Option<String>, BtcError>)
    ensures
        match spec_coin_name(network) {
            Some(name) => r matches Ok(Some(s)) && s@ == name,
            None => unsupported_network(r),
        },
{
    match coin_name(network) {
        Ok(s) => Ok(Some(s)),
        Err(e) => Err(BtcError::Client(e)),
    }
}

impl GetPublicKey {
    /// The request for the key these options describe; the network must
    /// have a coin name.
    pub fn request(&self) -> (r: Result<proto::GetPublicKey, BtcError>)
        ensures
            match spec_coin_name(self.network) {
                Some(name) => r matches Ok(req) && {
                    &&& req.address_n@ == path_codes(self.path.0@)
                    &&& req.show_display == Some(self.show_display)
                    &&& req.coin_name matches Some(c) && c@ == name
                    &&& req.script_type == Some(self.script_type)
                },
                None => unsupported_network(r),
            },
    {
        let coin = match coin_field(self.network) {
            Ok(c) => c,
            Err(e) => return Err(e),
        };
        Ok(proto::GetPublicKey {
            address_n: convert_path(&self.path),
            show_display: Some(self.show_display),
            coin_name: coin,
            script_type: Some(self.script_type),
        })
    }
}

/// Reads the extended public key the device answered with: the key its
/// text spells; a text that does not parse is reported with the text.
pub fn public_key_from_response(resp: proto::PublicKey) -> (r: Result<ExtendedPubKey, BtcError>)
    ensures
        r is Ok <==> parsed_xpub(resp.xpub@) is Some,
        r matches Ok(k) ==> parsed_xpub(resp.xpub@) == Some(k),
        r matches Err(e) ==> (e matches BtcError::Client(Error::ToString(s)) && s@ == resp.xpub@),
{
    match extended_pubkey_from_str(resp.xpub.as_str()) {
        Ok(k) => Ok(k),
        Err(_) => Err(BtcError::Client(Error::ToString(resp.xpub))),
    }
}

/// The request for the address at `path`; the network must have a coin
/// name.
pub fn get_address(
    path: &DerivationPath,
    script_type: InputScriptType,
    network: Network,
    show_display: bool,
) -> (r: Result<proto::GetAddress, BtcError>)
    ensures
        match spec_coin_name(network) {
            Some(name) => r matches Ok(req) && {
                &&& req.address_n@ == path_codes(path.0@)
                &&& req.coin_name matches Some(c) && c@ == name
                &&& req.show_display == Some(show_display)
                &&& req.script_type == Some(script_type)
            },
            None => unsupported_network(r),
        },
{
    let coin = match coin_field(network) {
        Ok(c) => c,
        Err(e) => return Err(e),
    };
    Ok(proto::GetAddress {
        address_n: convert_path(path),
        coin_name: coin,
        show_display: Some(show_display),
        script_type: Some(script_type),
    })
}

/// The request that starts signing the transaction of `psbt`; the counts
/// and the version travel as 32-bit numbers, and the network must have a
/// coin name.
pub fn sign_tx(psbt: &PartiallySignedTransaction, network: Network) -> (r: Result<
    proto::SignTx,
    BtcError,
>)
    ensures
        match spec_coin_name(network) {
            Some(name) => r matches Ok(req) && {
                let tx = psbt.unsigned_tx;
                &&& req.inputs_count == tx.input@.len() as u32
                &&& req.outputs_count == tx.output@.len() as u32
                &&& req.coin_name matches Some(c) && c@ == name
                &&& req.version == Some(tx.version as u32)
                &&& req.lock_time == Some(tx.lock_time)
            },
            None => unsupported_network(r),
        },
{
    let tx = &psbt.unsigned_tx;
    let coin = match coin_field(network) {
        Ok(c) => c,
        Err(e) => return Err(e),
    };
    Ok(proto::SignTx {
        inputs_count: tx.input.len() as u32,
        outputs_count: tx.output.len() as u32,
        coin_name: coin,
        version: Some(tx.version as u32),
        lock_time: Some(tx.lock_time),
    })
}

/// The bytes that carry a message to be signed: its Unicode normalization
/// form C, encoded in UTF-8.
pub open spec fn message_payload(message: Seq<char>) -> Seq<u8> {
    vstd::utf8::encode_utf8(nfc(message))
}

/// Two messages with the same normalization form C travel as the same
/// bytes, so the device is asked to sign the same thing.
pub proof fn lemma_equal_nfc_equal_payload(m1: Seq<char>, m2: Seq<char>)
    requires
        nfc(m1) == nfc(m2),
    ensures
        message_payload(m1) == message_payload(m2),
{
}

/// The request to sign `message` with the key at `path`: the message
/// travels normalized to Unicode form C and encoded in UTF-8, and the
/// network must have a coin name.
pub fn sign_message(
    message: &str,
    path: &DerivationPath,
    script_type: InputScriptType,
    network: Network,
) -> (r: Result<proto::SignMessage, BtcError>)
    ensures
        match spec_coin_name(network) {
            Some(name) => r matches Ok(req) && {
                &&& req.address_n@ == path_codes(path.0@)
                &&& req.message@ == message_payload(message@)
                &&& req.coin_name matches Some(c) && c@ == name
                &&& req.script_type == Some(script_type)
            },
            None => unsupported_network(r),
        },
{
    let normalized = normalize_nfc(message);
    let msg_bytes = vstd::slice::slice_to_vec(normalized.as_str().as_bytes());
    let coin = match coin_field(network) {
        Ok(c) => c,
        Err(e) => return Err(e),
    };
    Ok(proto::SignMessage {
        address_n: convert_path(path),
        message: msg_bytes,
        coin_name: coin,
        script_type: Some(script_type),
    })
}

/// What reading a signed message gives: the address with the parsed
/// signature, or the elliptic-curve error of the parse.
pub open spec fn message_signature_result(resp: proto::MessageSignature) -> Result<
    (String, RecoverableSignature),
    BtcError,
> {
    match signature_parse(resp.signature@) {
        Ok(s) => Ok((resp.address, s)),
        Err(e) => Err(BtcError::Secp256k1(e)),
    }
}

/// Reads the signed message the device answered with: the address and the
/// recoverable signature that the 65 signature bytes spell.
pub fn message_signature_from_response(resp: proto::MessageSignature) -> (r: Result<
    (String, RecoverableSignature),
    BtcError,
>)
    ensures
        r is Ok <==> signature_parses(resp.signature@),
        r == message_signature_result(resp),
{
    match parse_recoverable_signature(resp.signature.as_slice()) {
        Ok(sig) => Ok((resp.address, sig)),
        Err(e) => Err(BtcError::Secp256k1(e)),
    }
}

} // verus!
