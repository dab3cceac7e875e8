//! Messages of the Bitcoin application: keys, addresses, message signing and
//! the transaction-signing dialogue.

use vstd::prelude::*;

use crate::message_type::{MessageType, TrezorMessage};

verus! {

/// How an input is spent.
#[derive(Clone, Copy, Debug, PartialEq, Eq, Structural)]
pub enum InputScriptType {
    /// Pay-to-public-key-hash.
    SpendAddress,
    /// Bare multisig.
    SpendMultisig,
    /// An input the device does not sign.
    External,
    /// Native segregated witness.
    SpendWitness,
    /// Segregated witness nested in pay-to-script-hash.
    SpendP2shWitness,
}

/// How an output is paid.
#[derive(Clone, Copy, Debug, PartialEq, Eq, Structural)]
pub enum OutputScriptType {
    /// To an address.
    PayToAddress,
    /// To a script hash.
    PayToScriptHash,
    /// To a bare multisig.
    PayToMultisig,
    /// To an `OP_RETURN` data carrier.
    PayToOpReturn,
    /// To a native segregated-witness program.
    PayToWitness,
    /// To a segregated-witness program nested in pay-to-script-hash.
    PayToP2shWitness,
}

/// What the device asks for next while it signs a transaction.
#[derive(Clone, Copy, Debug, PartialEq, Eq, Structural)]
pub enum RequestType {
    /// An input.
    TxInput,
    /// An output.
    TxOutput,
    /// The transaction's metadata.
    TxMeta,
    /// Nothing: signing is over.
    TxFinished,
    /// A slice of the transaction's extra data.
    TxExtraData,
}

/// Asks for the extended public key at a path.
#[derive(Clone, Debug, PartialEq)]
pub struct GetPublicKey {
    /// The derivation path, as child numbers.
    pub address_n: Vec<u32>,
    /// Whether to show the key on the device.
    pub show_display: Option<bool>,
    /// The coin whose version bytes to use.
    pub coin_name: Option<String>,
    /// The script type the key is for.
    pub script_type: Option<InputScriptType>,
}

/// An extended public key.
#[derive(Clone, Debug, PartialEq)]
pub struct PublicKey {
    /// The key in its base58 serialisation.
    pub xpub: String,
}

/// Asks for the address at a path.
#[derive(Clone, Debug, PartialEq)]
pub struct GetAddress {
    /// The derivation path, as child numbers.
    pub address_n: Vec<u32>,
    /// The coin of the address.
    pub coin_name: Option<String>,
    /// Whether to show the address on the device.
    pub show_display: Option<bool>,
    /// The script type of the address.
    pub script_type: Option<InputScriptType>,
}

/// An address.
#[derive(Clone, Debug, PartialEq)]
pub struct Address {
    /// The address text.
    pub address: String,
}

/// Starts signing a transaction.
#[derive(Clone, Debug, PartialEq)]
pub struct SignTx {
    /// How many outputs the transaction has.
    pub outputs_count: u32,
    /// How many inputs the transaction has.
    pub inputs_count: u32,
    /// The coin of the transaction.
    pub coin_name: Option<String>,
    /// The transaction version.
    pub version: Option<u32>,
    /// The transaction lock time.
    pub lock_time: Option<u32>,
}

/// Asks the device to sign a message with the key at a path.
#[derive(Clone, Debug, PartialEq)]
pub struct SignMessage {
    /// The derivation path, as child numbers.
    pub address_n: Vec<u32>,
    /// The message bytes.
    pub message: Vec<u8>,
    /// The coin whose message prefix to use.
    pub coin_name: Option<String>,
    /// The script type of the signing address.
    pub script_type: Option<InputScriptType>,
}

/// A signed message.
#[derive(Clone, Debug, PartialEq)]
pub struct MessageSignature {
    /// The address whose key signed.
    pub address: String,
    /// The signature: a header byte and the compact signature.
    pub signature: Vec<u8>,
}

/// Which item the device asks for.
#[derive(Clone, Debug, PartialEq)]
pub struct TxRequestDetails {
    /// The index of the input or output asked for.
    pub request_index: Option<u32>,
    /// The previous transaction the item belongs to, in reversed byte order;
    /// absent for the transaction being signed.
    pub tx_hash: Option<Vec<u8>>,
}

/// What the device hands back while it signs.
#[derive(Clone, Debug, PartialEq)]
pub struct TxRequestSerialized {
    /// The input that `signature` signs.
    pub signature_index: Option<u32>,
    /// A signature of one input.
    pub signature: Option<Vec<u8>>,
    /// A part of the serialised signed transaction.
    pub serialized_tx: Option<Vec<u8>>,
}

/// The device's request during the signing dialogue.
#[derive(Clone, Debug, PartialEq)]
pub struct TxRequest {
    /// What is asked for.
    pub request_type: Option<RequestType>,
    /// Which item is asked for.
    pub details: Option<TxRequestDetails>,
    /// What the device hands back with the request.
    pub serialized: Option<TxRequestSerialized>,
}

/// An input as the device wants it.
#[derive(Clone, Debug, PartialEq)]
pub struct TxInputType {
    /// The derivation path of the key that spends the input, if known.
    pub address_n: Vec<u32>,
    /// The spent transaction's id, in reversed byte order.
    pub prev_hash: Vec<u8>,
    /// The index of the spent output.
    pub prev_index: u32,
    /// The unlocking script.
    pub script_sig: Option<Vec<u8>>,
    /// The sequence number.
    pub sequence: Option<u32>,
    /// How the input is spent.
    pub script_type: Option<InputScriptType>,
    /// The value of the spent output.
    pub amount: Option<u64>,
}

/// An output of a previous transaction, in its serialised form.
#[derive(Clone, Debug, PartialEq)]
pub struct TxOutputBinType {
    /// The value.
    pub amount: u64,
    /// The locking script.
    pub script_pubkey: Vec<u8>,
}

/// An output of the transaction being signed.
#[derive(Clone, Debug, PartialEq)]
pub struct TxOutputType {
    /// The destination address, where one is known.
    pub address: Option<String>,
    /// The derivation path of a change output's key.
    pub address_n: Vec<u32>,
    /// The value.
    pub amount: u64,
    /// How the output is paid.
    pub script_type: OutputScriptType,
    /// The data of an `OP_RETURN` output.
    pub op_return_data: Option<Vec<u8>>,
}

/// The part of a transaction that an acknowledgement carries.
#[derive(Clone, Debug, PartialEq)]
pub struct TransactionType {
    /// The version.
    pub version: Option<u32>,
    /// Inputs.
    pub inputs: Vec<TxInputType>,
    /// Outputs of a previous transaction.
    pub bin_outputs: Vec<TxOutputBinType>,
    /// Outputs of the transaction being signed.
    pub outputs: Vec<TxOutputType>,
    /// The lock time.
    pub lock_time: Option<u32>,
    /// How many inputs the transaction has.
    pub inputs_cnt: Option<u32>,
    /// How many outputs the transaction has.
    pub outputs_cnt: Option<u32>,
}

/// The host's answer to a request of the signing dialogue.
#[derive(Clone, Debug, PartialEq)]
pub struct TxAck {
    /// The data asked for.
    pub tx: Option<TransactionType>,
}

impl TransactionType {
    /// A transaction part with every field unset.
    pub fn new() -> (r: TransactionType)
        ensures
            r.version is None,
            r.inputs@.len() == 0,
            r.bin_outputs@.len() == 0,
            r.outputs@.len() == 0,
            r.lock_time is None,
            r.inputs_cnt is None,
            r.outputs_cnt is None,
    {
        TransactionType {
            version: None,
            inputs: Vec::new(),
            bin_outputs: Vec::new(),
            outputs: Vec::new(),
            lock_time: None,
            inputs_cnt: None,
            outputs_cnt: None,
        }
    }
}

impl TxRequest {
    /// What is asked for; a request that does not say asks for an input.
    pub open spec fn spec_request_type(&self) -> RequestType {
        match self.request_type {
            Some(t) => t,
            None => RequestType::TxInput,
        }
    }

    /// What is asked for; a request that does not say asks for an input.
    pub fn get_request_type(&self) -> (r: RequestType)
        ensures
            r == self.spec_request_type(),
    {
        match self.request_type {
            Some(t) => t,
            None => RequestType::TxInput,
        }
    }
}

/// The bytes an optional byte field holds.
pub open spec fn opt_bytes(field: Option<Vec<u8>>) -> Option<Seq<u8>> {
    match field {
        Some(v) => Some(v@),
        None => None,
    }
}

fn copy_opt_bytes(field: &Option<Vec<u8>>) -> (r: Option<Vec<u8>>)
    ensures
        opt_bytes(r) == opt_bytes(*field),
{
    match field {
        Some(v) => Some(vstd::slice::slice_to_vec(v.as_slice())),
        None => None,
    }
}

impl TxRequestDetails {
    /// Whether two details ask for the same item.
    pub open spec fn same(self, other: TxRequestDetails) -> bool {
        &&& self.request_index == other.request_index
        &&& opt_bytes(self.tx_hash) == opt_bytes(other.tx_hash)
    }

    /// A copy of the details.
    pub fn copy(&self) -> (r: TxRequestDetails)
        ensures
            r.same(*self),
    {
        TxRequestDetails { request_index: self.request_index, tx_hash: copy_opt_bytes(&self.tx_hash) }
    }
}

impl TxRequestSerialized {
    /// Whether two serialized parts carry the same data.
    pub open spec fn same(self, other: TxRequestSerialized) -> bool {
        &&& self.signature_index == other.signature_index
        &&& opt_bytes(self.signature) == opt_bytes(other.signature)
        &&& opt_bytes(self.serialized_tx) == opt_bytes(other.serialized_tx)
    }

    /// A copy of the serialized part.
    pub fn copy(&self) -> (r: TxRequestSerialized)
        ensures
            r.same(*self),
    {
        TxRequestSerialized {
            signature_index: self.signature_index,
            signature: copy_opt_bytes(&self.signature),
            serialized_tx: copy_opt_bytes(&self.serialized_tx),
        }
    }
}

impl TxRequest {
    /// Whether two requests carry the same data.
    pub open spec fn same(self, other: TxRequest) -> bool {
        &&& self.request_type == other.request_type
        &&& match (self.details, other.details) {
            (Some(a), Some(b)) => a.same(b),
            (None, None) => true,
            _ => false,
        }
        &&& match (self.serialized, other.serialized) {
            (Some(a), Some(b)) => a.same(b),
            (None, None) => true,
            _ => false,
        }
    }

    /// A copy of the request.
    pub fn copy(&self) -> (r: TxRequest)
        ensures
            r.same(*self),
    {
        let details = match &self.details {
            Some(d) => Some(d.copy()),
            None => None,
        };
        let serialized = match &self.serialized {
            Some(s) => Some(s.copy()),
            None => None,
        };
        TxRequest { request_type: self.request_type, details, serialized }
    }
}

impl TrezorMessage for GetPublicKey {
    open spec fn spec_message_type() -> MessageType {
        MessageType::GetPublicKey
    }

    fn message_type() -> (t: MessageType) {
        MessageType::GetPublicKey
    }
}

impl TrezorMessage for PublicKey {
    open spec fn spec_message_type() -> MessageType {
        MessageType::PublicKey
    }

    fn message_type() -> (t: MessageType) {
        MessageType::PublicKey
    }
}

impl TrezorMessage for GetAddress {
    open spec fn spec_message_type() -> MessageType {
        MessageType::GetAddress
    }

    fn message_type() -> (t: MessageType) {
        MessageType::GetAddress
    }
}

impl TrezorMessage for Address {
    open spec fn spec_message_type() -> MessageType {
        MessageType::Address
    }

    fn message_type() -> (t: MessageType) {
        MessageType::Address
    }
}

impl TrezorMessage for SignTx {
    open spec fn spec_message_type() -> MessageType {
        MessageType::SignTx
    }

    fn message_type() -> (t: MessageType) {
        MessageType::SignTx
    }
}

impl TrezorMessage for TxRequest {
    open spec fn spec_message_type() -> MessageType {
        MessageType::TxRequest
    }

    fn message_type() -> (t: MessageType) {
        MessageType::TxRequest
    }
}

impl TrezorMessage for TxAck {
    open spec fn spec_message_type() -> MessageType {
        MessageType::TxAck
    }

    fn message_type() -> (t: MessageType) {
        MessageType::TxAck
    }
}

impl TrezorMessage for SignMessage {
    open spec fn spec_message_type() -> MessageType {
        MessageType::SignMessage
    }

    fn message_type() -> (t: MessageType) {
        MessageType::SignMessage
    }
}

impl TrezorMessage for MessageSignature {
    open spec fn spec_message_type() -> MessageType {
        MessageType::MessageSignature
    }

    fn message_type() -> (t: MessageType) {
        MessageType::MessageSignature
    }
}

} // verus!
