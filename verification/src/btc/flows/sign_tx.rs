//! The transaction-signing dialogue: the device asks for the parts of the
//! transaction it signs (and of the transactions it spends from), and the
//! host answers each request from a partially signed transaction.

use vstd::prelude::*;
use vstd::string::*;

use crate::btc::error::BtcError;
use crate::btc::types::{
    KeySource, Network, PartiallySignedTransaction, PsbtInput, PsbtOutput, Transaction, TxIn,
    TxOut,
};
use crate::btc::utils::{
    address_from_script, convert_path, decimal, decimal_text, first_spend, has_spend,
    path_codes, psbt_find_input, script_address, script_is_op_return, script_is_p2pkh,
    script_is_p2sh, script_is_v0_p2wpkh, script_is_v0_p2wsh, spec_address_recognized,
    spec_is_op_return, spec_is_p2pkh, spec_is_p2sh, spec_is_v0_p2wpkh, spec_is_v0_p2wsh,
    to_rev_bytes, from_rev_bytes, bytes_eq,
};
use crate::error::Error;
use crate::protos::btc::{
    opt_bytes, InputScriptType, OutputScriptType, RequestType, TransactionType, TxAck,
    TxInputType, TxOutputBinType, TxOutputType, TxRequest,
};

verus! {

// ----------------------------------------------------------------------
// How a step fails
// ----------------------------------------------------------------------

/// The ways an answer to a request cannot be made, as the contracts name
/// them.
pub enum AckFailure {
    /// The request lacks what it must say.
    Malformed,
    /// No input of the transaction spends from the transaction asked about.
    UnknownTxid(Seq<u8>),
    /// The PSBT lacks the full transaction an input spends from.
    MissingInputTx(Seq<u8>),
    /// The request names an input or output that does not exist.
    InvalidIndex(int),
    /// The PSBT lacks data the answer needs, with the explanation given.
    InvalidPsbt(Seq<char>),
}

/// Whether `e` is the error that reports `f` for the request `req`.
pub open spec fn is_failure(e: BtcError, f: AckFailure, req: TxRequest) -> bool {
    match f {
        AckFailure::Malformed => e matches BtcError::Client(Error::MalformedTxRequest(c)) && c.same(
            req,
        ),
        AckFailure::UnknownTxid(h) => e matches BtcError::TxRequestUnknownTxid(t) && t@ == h,
        AckFailure::MissingInputTx(h) => e matches BtcError::PsbtMissingInputTx(t) && t@ == h,
        AckFailure::InvalidIndex(i) => e matches BtcError::Client(Error::TxRequestInvalidIndex(j))
            && j == i,
        AckFailure::InvalidPsbt(m) => e matches BtcError::Client(Error::InvalidPsbt(s)) && s@ == m,
    }
}

/// Whether the result reports `failure` where there is one, and otherwise
/// is an answer that satisfies `correct`.
pub open spec fn reports(
    r: Result<TxAck, BtcError>,
    failure: Option<AckFailure>,
    req: TxRequest,
    correct: spec_fn(TxAck) -> bool,
) -> bool {
    match failure {
        Some(f) => r matches Err(e) && is_failure(e, f, req),
        None => r matches Ok(ack) && correct(ack),
    }
}

fn malformed(req: &TxRequest) -> (e: BtcError)
    ensures
        is_failure(e, AckFailure::Malformed, *req),
{
    BtcError::Client(Error::MalformedTxRequest(req.copy()))
}

// ----------------------------------------------------------------------
// What a request asks for
// ----------------------------------------------------------------------

/// The index the request names, if it names one.
pub open spec fn request_index_of(req: TxRequest) -> Option<u32> {
    match req.details {
        Some(d) => d.request_index,
        None => None,
    }
}

/// The (reversed) id of the previous transaction the request is about, if
/// it is about one.
pub open spec fn tx_hash_of(req: TxRequest) -> Option<Seq<u8>> {
    match req.details {
        Some(d) => opt_bytes(d.tx_hash),
        None => None,
    }
}

/// Why the PSBT input that spends from `hash` cannot be found, if it cannot.
pub open spec fn find_input_failure(psbt: PartiallySignedTransaction, hash: Seq<u8>) -> Option<
    AckFailure,
> {
    if !has_spend(psbt.unsigned_tx, hash) {
        Some(AckFailure::UnknownTxid(hash))
    } else if first_spend(psbt.unsigned_tx, hash) >= psbt.inputs@.len() {
        Some(AckFailure::InvalidIndex(first_spend(psbt.unsigned_tx, hash)))
    } else {
        None
    }
}

/// The PSBT input that spends from `hash`.
pub open spec fn found_input(psbt: PartiallySignedTransaction, hash: Seq<u8>) -> PsbtInput {
    psbt.inputs@[first_spend(psbt.unsigned_tx, hash)]
}

/// Reads the reversed id of a previous transaction and finds the PSBT input
/// that spends from it.
fn dependency<'a>(
    psbt: &'a PartiallySignedTransaction,
    req: &TxRequest,
    rev_hash: &Vec<u8>,
) -> (r: Result<(Vec<u8>, &'a PsbtInput), BtcError>)
    ensures
        rev_hash@.len() != 32 ==> (r matches Err(e) && is_failure(e, AckFailure::Malformed, *req)),
        rev_hash@.len() == 32 ==> match find_input_failure(*psbt, rev_hash@.reverse()) {
            Some(f) => r matches Err(e) && is_failure(e, f, *req),
            None => r matches Ok((h, inp)) && h@ == rev_hash@.reverse() && *inp == found_input(
                *psbt,
                rev_hash@.reverse(),
            ),
        },
{
    let hash = match from_rev_bytes(rev_hash.as_slice()) {
        Some(h) => h,
        None => return Err(malformed(req)),
    };
    match psbt_find_input(psbt, hash.as_slice()) {
        Ok(inp) => Ok((hash, inp)),
        Err(e) => Err(e),
    }
}

/// The path of the only key of a list, as the device expects it; no path
/// where the list does not hold exactly one key.
pub open spec fn keypath_codes(keys: Seq<KeySource>) -> Seq<u32> {
    if keys.len() == 1 {
        path_codes(keys[0].path.0@)
    } else {
        Seq::empty()
    }
}

fn single_keypath(keys: &Vec<KeySource>) -> (r: Vec<u32>)
    ensures
        r@ == keypath_codes(keys@),
{
    if keys.len() == 1 {
        convert_path(&keys[0].path)
    } else {
        Vec::new()
    }
}

// ----------------------------------------------------------------------
// Inputs
// ----------------------------------------------------------------------

/// How an input that spends an output with locking script `script` is
/// spent, where the PSBT may know a witness script for it.
pub open spec fn spec_input_script_type(script: Seq<u8>, has_witness_script: bool) -> InputScriptType {
    if spec_is_p2pkh(script) {
        InputScriptType::SpendAddress
    } else if spec_is_v0_p2wpkh(script) || spec_is_v0_p2wsh(script) {
        InputScriptType::SpendWitness
    } else if spec_is_p2sh(script) && has_witness_script {
        InputScriptType::SpendP2shWitness
    } else {
        InputScriptType::External
    }
}

fn input_script_type(script: &[u8], has_witness_script: bool) -> (r: InputScriptType)
    ensures
        r == spec_input_script_type(script@, has_witness_script),
{
    if script_is_p2pkh(script) {
        InputScriptType::SpendAddress
    } else if script_is_v0_p2wpkh(script) || script_is_v0_p2wsh(script) {
        InputScriptType::SpendWitness
    } else if script_is_p2sh(script) && has_witness_script {
        InputScriptType::SpendP2shWitness
    } else {
        InputScriptType::External
    }
}

/// Why the output an input spends cannot be found in its PSBT input, if it
/// cannot: the PSBT must hold the output itself or the whole transaction.
pub open spec fn spent_output_failure(pin: PsbtInput, vout: u32, index: nat) -> Option<Seq<char>> {
    match pin.witness_utxo {
        Some(_) => None,
        None => match pin.non_witness_utxo {
            Some(tx) => if vout < tx.output@.len() {
                None
            } else {
                Some("invalid utxo for PSBT input "@ + decimal(index))
            },
            None => Some("no utxo for PSBT input "@ + decimal(index)),
        },
    }
}

/// The output an input spends, as its PSBT input gives it.
pub open spec fn spent_output(pin: PsbtInput, vout: u32) -> TxOut {
    match pin.witness_utxo {
        Some(o) => o,
        None => pin.non_witness_utxo.unwrap().output@[vout as int],
    }
}

fn message_with_index(prefix: &str, index: usize) -> (r: String)
    ensures
        r@ == prefix@ + decimal(index as nat),
{
    let mut s = prefix.to_owned();
    let digits = decimal_text(index);
    s.append(digits.as_str());
    s
}

fn find_spent_output<'a>(pin: &'a PsbtInput, vout: u32, index: usize) -> (r: Result<&'a TxOut, BtcError>)
    ensures
        match spent_output_failure(*pin, vout, index as nat) {
            Some(m) => r matches Err(BtcError::Client(Error::InvalidPsbt(s))) && s@ == m,
            None => r matches Ok(o) && *o == spent_output(*pin, vout),
        },
{
    match &pin.witness_utxo {
        Some(o) => Ok(o),
        None => match &pin.non_witness_utxo {
            Some(tx) => {
                if (vout as usize) < tx.output.len() {
                    Ok(&tx.output[vout as usize])
                } else {
                    let p = "invalid utxo for PSBT input ";
                    proof {
                        reveal_strlit("invalid utxo for PSBT input ");
                    }
                    Err(BtcError::Client(Error::InvalidPsbt(message_with_index(p, index))))
                }
            },
            None => {
                let p = "no utxo for PSBT input ";
                proof {
                    reveal_strlit("no utxo for PSBT input ");
                }
                Err(BtcError::Client(Error::InvalidPsbt(message_with_index(p, index))))
            },
        },
    }
}

/// Why an input request cannot be answered, if it cannot.
pub open spec fn input_ack_failure(req: TxRequest, psbt: PartiallySignedTransaction) -> Option<
    AckFailure,
> {
    match request_index_of(req) {
        None => Some(AckFailure::Malformed),
        Some(i) => match tx_hash_of(req) {
            Some(h) => if h.len() != 32 {
                Some(AckFailure::Malformed)
            } else {
                match find_input_failure(psbt, h.reverse()) {
                    Some(f) => Some(f),
                    None => match found_input(psbt, h.reverse()).non_witness_utxo {
                        None => Some(AckFailure::MissingInputTx(h.reverse())),
                        Some(tx) => if i >= tx.input@.len() {
                            Some(AckFailure::InvalidIndex(i as int))
                        } else {
                            None
                        },
                    },
                }
            },
            None => if i >= psbt.unsigned_tx.input@.len() {
                Some(AckFailure::InvalidIndex(i as int))
            } else if i >= psbt.inputs@.len() {
                Some(AckFailure::InvalidPsbt("not enough psbt inputs"@))
            } else {
                match spent_output_failure(
                    psbt.inputs@[i as int],
                    psbt.unsigned_tx.input@[i as int].previous_output.vout,
                    i as nat,
                ) {
                    Some(m) => Some(AckFailure::InvalidPsbt(m)),
                    None => None,
                }
            },
        },
    }
}

/// The input an input request asks for.
pub open spec fn requested_input(req: TxRequest, psbt: PartiallySignedTransaction) -> TxIn {
    let i = request_index_of(req).unwrap() as int;
    match tx_hash_of(req) {
        Some(h) => found_input(psbt, h.reverse()).non_witness_utxo.unwrap().input@[i],
        None => psbt.unsigned_tx.input@[i],
    }
}

/// Whether `t` describes the input `input`: the spent output in the
/// device's byte order and the unlocking script.
pub open spec fn describes_input(t: TxInputType, input: TxIn) -> bool {
    &&& t.prev_hash@ == input.previous_output.txid@.reverse()
    &&& t.prev_index == input.previous_output.vout
    &&& opt_bytes(t.script_sig) == Some(input.script_sig@)
    &&& t.sequence is None
}

/// Whether an acknowledgement carries exactly one input and nothing else.
pub open spec fn carries_one_input(ack: TxAck) -> bool {
    &&& ack.tx matches Some(tx)
    &&& tx.inputs@.len() == 1
    &&& tx.bin_outputs@.len() == 0
    &&& tx.outputs@.len() == 0
    &&& tx.version is None
    &&& tx.lock_time is None
    &&& tx.inputs_cnt is None
    &&& tx.outputs_cnt is None
}

/// Whether `ack` is the right answer to an input request: the requested
/// input, and, for an input of the transaction being signed, the key path
/// (where exactly one key is known), how it is spent and its value.
pub open spec fn input_ack_correct(req: TxRequest, psbt: PartiallySignedTransaction, ack: TxAck) -> bool {
    &&& carries_one_input(ack)
    &&& {
        let t = ack.tx.unwrap().inputs@[0];
        let input = requested_input(req, psbt);
        &&& describes_input(t, input)
        &&& match tx_hash_of(req) {
            Some(_) => t.address_n@.len() == 0 && t.script_type is None && t.amount is None,
            None => {
                let pin = psbt.inputs@[request_index_of(req).unwrap() as int];
                let out = spent_output(pin, input.previous_output.vout);
                &&& t.address_n@ == keypath_codes(pin.hd_keypaths@)
                &&& t.script_type == Some(
                    spec_input_script_type(out.script_pubkey@, pin.witness_script is Some),
                )
                &&& t.amount == Some(out.value)
            },
        }
    }
}

/// How an input of the transaction being signed is declared to the device
/// follows from the bytes of the output it spends: a pay-to-pubkey-hash
/// script (`76 a9 14 <20 bytes> 88 ac`) is spent by address; a version-0
/// witness program of 20 or 32 bytes (`00 14 <20 bytes>` or
/// `00 20 <32 bytes>`), whatever else the PSBT knows, is spent by witness;
/// and an input is declared as a witness nested in pay-to-script-hash
/// exactly where it spends a pay-to-script-hash script (`a9 14 <20 bytes>
/// 87`) and the PSBT knows its witness script. An input of a previous
/// transaction carries no script type.
pub proof fn lemma_input_script_type_follows_spent_script(
    req: TxRequest,
    psbt: PartiallySignedTransaction,
    ack: TxAck,
)
    requires
        input_ack_correct(req, psbt, ack),
    ensures
        tx_hash_of(req) is Some ==> ack.tx.unwrap().inputs@[0].script_type is None,
        tx_hash_of(req) is None ==> {
            let t = ack.tx.unwrap().inputs@[0];
            let i = request_index_of(req).unwrap() as int;
            let pin = psbt.inputs@[i];
            let script = spent_output(pin, psbt.unsigned_tx.input@[i].previous_output.vout).script_pubkey@;
            &&& (script.len() == 25 && script[0] == 0x76 && script[1] == 0xa9 && script[2] == 0x14
                && script[23] == 0x88 && script[24] == 0xac) ==> t.script_type == Some(
                InputScriptType::SpendAddress,
            )
            &&& (script.len() == 22 && script[0] == 0x00 && script[1] == 0x14) ==> t.script_type
                == Some(InputScriptType::SpendWitness)
            &&& (script.len() == 34 && script[0] == 0x00 && script[1] == 0x20) ==> t.script_type
                == Some(InputScriptType::SpendWitness)
            &&& (t.script_type == Some(InputScriptType::SpendP2shWitness) <==> (script.len() == 23
                && script[0] == 0xa9 && script[1] == 0x14 && script[22] == 0x87
                && pin.witness_script is Some))
        },
{
}

/// Answers a request for an input, of the transaction being signed or of a
/// previous transaction.
pub fn ack_input_request(req: &TxRequest, psbt: &PartiallySignedTransaction) -> (r: Result<
    TxAck,
    BtcError,
>)
    ensures
        reports(r, input_ack_failure(*req, *psbt), *req, |ack| input_ack_correct(*req, *psbt, ack)),
{
    let (index, tx_hash) = match &req.details {
        Some(d) => match d.request_index {
            Some(i) => (i, &d.tx_hash),
            None => return Err(malformed(req)),
        },
        None => return Err(malformed(req)),
    };
    let input_index = index as usize;
    let input: &TxIn = match tx_hash {
        Some(h) => {
            let (hash, inp) = match dependency(psbt, req, h) {
                Ok(found) => found,
                Err(e) => return Err(e),
            };
            match &inp.non_witness_utxo {
                Some(tx) => {
                    if input_index < tx.input.len() {
                        &tx.input[input_index]
                    } else {
                        return Err(BtcError::Client(Error::TxRequestInvalidIndex(input_index)));
                    }
                },
                None => return Err(BtcError::PsbtMissingInputTx(hash)),
            }
        },
        None => {
            if input_index < psbt.unsigned_tx.input.len() {
                &psbt.unsigned_tx.input[input_index]
            } else {
                return Err(BtcError::Client(Error::TxRequestInvalidIndex(input_index)));
            }
        },
    };
    let mut data_input = TxInputType {
        address_n: Vec::new(),
        prev_hash: to_rev_bytes(&input.previous_output.txid),
        prev_index: input.previous_output.vout,
        script_sig: Some(vstd::slice::slice_to_vec(input.script_sig.as_slice())),
        sequence: None,
        script_type: None,
        amount: None,
    };
    if tx_hash.is_none() {
        if input_index >= psbt.inputs.len() {
            let m = "not enough psbt inputs";
            proof {
                reveal_strlit("not enough psbt inputs");
            }
            return Err(BtcError::Client(Error::InvalidPsbt(m.to_owned())));
        }
        let psbt_input = &psbt.inputs[input_index];
        let txout = match find_spent_output(psbt_input, input.previous_output.vout, input_index) {
            Ok(o) => o,
            Err(e) => return Err(e),
        };
        data_input.address_n = single_keypath(&psbt_input.hd_keypaths);
        data_input.script_type = Some(
            input_script_type(txout.script_pubkey.as_slice(), psbt_input.witness_script.is_some()),
        );
        data_input.amount = Some(txout.value);
    }
    let mut txdata = TransactionType::new();
    txdata.inputs.push(data_input);
    Ok(TxAck { tx: Some(txdata) })
}

// ----------------------------------------------------------------------
// Outputs
// ----------------------------------------------------------------------

/// How an output of the transaction being signed is paid. Where exactly one
/// key of the output is known, the output is taken for change: an
/// `OP_RETURN` output stays one, and an output with a witness script pays to
/// a witness program (nested in pay-to-script-hash where there is also a
/// redeem script). Every other output pays to an address.
pub open spec fn spec_output_script_type(script: Seq<u8>, pout: PsbtOutput) -> OutputScriptType {
    if pout.hd_keypaths@.len() == 1 {
        if spec_is_op_return(script) {
            OutputScriptType::PayToOpReturn
        } else if pout.witness_script is Some {
            if pout.redeem_script is Some {
                OutputScriptType::PayToP2shWitness
            } else {
                OutputScriptType::PayToWitness
            }
        } else {
            OutputScriptType::PayToAddress
        }
    } else {
        OutputScriptType::PayToAddress
    }
}

/// Why an output request cannot be answered, if it cannot.
pub open spec fn output_ack_failure(req: TxRequest, psbt: PartiallySignedTransaction) -> Option<
    AckFailure,
> {
    match request_index_of(req) {
        None => Some(AckFailure::Malformed),
        Some(i) => match tx_hash_of(req) {
            Some(h) => if h.len() != 32 {
                Some(AckFailure::Malformed)
            } else {
                match find_input_failure(psbt, h.reverse()) {
                    Some(f) => Some(f),
                    None => {
                        let inp = found_input(psbt, h.reverse());
                        match inp.non_witness_utxo {
                            Some(tx) => if i >= tx.output@.len() {
                                Some(AckFailure::InvalidIndex(i as int))
                            } else {
                                None
                            },
                            None => match inp.witness_utxo {
                                Some(_) => None,
                                None => Some(
                                    AckFailure::InvalidPsbt("not all inputs have utxo data"@),
                                ),
                            },
                        }
                    },
                }
            },
            None => if i >= psbt.unsigned_tx.output@.len() {
                Some(AckFailure::InvalidIndex(i as int))
            } else if i >= psbt.outputs@.len() {
                Some(AckFailure::InvalidPsbt("output indices don't match"@))
            } else {
                None
            },
        },
    }
}

/// The output of a previous transaction that an output request asks for:
/// from the whole transaction where the PSBT holds it, else the spent
/// output itself.
pub open spec fn requested_previous_output(req: TxRequest, psbt: PartiallySignedTransaction) -> TxOut {
    let i = request_index_of(req).unwrap() as int;
    let inp = found_input(psbt, tx_hash_of(req).unwrap().reverse());
    match inp.non_witness_utxo {
        Some(tx) => tx.output@[i],
        None => inp.witness_utxo.unwrap(),
    }
}

/// Whether `ack` is the right answer to an output request: for a previous
/// transaction, the output in its serialised form; for the transaction being
/// signed, the value, the address where the script has one, and, for a
/// change output, the key path and how it is paid.
pub open spec fn output_ack_correct(
    req: TxRequest,
    psbt: PartiallySignedTransaction,
    network: Network,
    ack: TxAck,
) -> bool {
    &&& ack.tx matches Some(tx)
    &&& tx.inputs@.len() == 0
    &&& tx.version is None
    &&& tx.lock_time is None
    &&& tx.inputs_cnt is None
    &&& tx.outputs_cnt is None
    &&& match tx_hash_of(req) {
        Some(_) => {
            let out = requested_previous_output(req, psbt);
            &&& tx.outputs@.len() == 0
            &&& tx.bin_outputs@.len() == 1
            &&& tx.bin_outputs@[0].amount == out.value
            &&& tx.bin_outputs@[0].script_pubkey@ == out.script_pubkey@
        },
        None => {
            let i = request_index_of(req).unwrap() as int;
            let out = psbt.unsigned_tx.output@[i];
            let pout = psbt.outputs@[i];
            let script = out.script_pubkey@;
            let t = tx.outputs@[0];
            &&& tx.bin_outputs@.len() == 0
            &&& tx.outputs@.len() == 1
            &&& t.amount == out.value
            &&& (t.address is Some <==> spec_address_recognized(script))
            &&& (t.address matches Some(a) ==> a@ == script_address(script, network))
            &&& t.address_n@ == keypath_codes(pout.hd_keypaths@)
            &&& t.script_type == spec_output_script_type(script, pout)
            &&& (t.script_type == OutputScriptType::PayToOpReturn) == (opt_bytes(t.op_return_data)
                is Some)
            &&& (opt_bytes(t.op_return_data) matches Some(d) ==> d == script.subrange(
                1,
                script.len() as int,
            ))
        },
    }
}

/// How an output of the transaction being signed is declared to the device:
/// only an output with exactly one known key is taken for change and gets
/// that key's path. A change output is declared as paying to a witness
/// program only where the PSBT knows its witness script (nested in
/// pay-to-script-hash exactly where it also knows a redeem script), and as
/// `OP_RETURN` data only where its script starts with `6a`, the data being
/// the rest of the script. Every other output, a single-key change output
/// without a witness script among them, pays to an address.
pub proof fn lemma_output_script_type_follows_psbt(
    req: TxRequest,
    psbt: PartiallySignedTransaction,
    network: Network,
    ack: TxAck,
)
    requires
        output_ack_correct(req, psbt, network, ack),
        tx_hash_of(req) is None,
    ensures
        ({
            let t = ack.tx.unwrap().outputs@[0];
            let i = request_index_of(req).unwrap() as int;
            let pout = psbt.outputs@[i];
            let script = psbt.unsigned_tx.output@[i].script_pubkey@;
            let op_return = script.len() > 0 && script[0] == 0x6a;
            &&& pout.hd_keypaths@.len() != 1 ==> t.script_type == OutputScriptType::PayToAddress
                && t.address_n@.len() == 0
            &&& pout.hd_keypaths@.len() == 1 ==> t.address_n@ == path_codes(
                pout.hd_keypaths@[0].path.0@,
            )
            &&& t.script_type == OutputScriptType::PayToWitness ==> pout.hd_keypaths@.len() == 1
                && !op_return && pout.witness_script is Some && pout.redeem_script is None
            &&& t.script_type == OutputScriptType::PayToP2shWitness ==> pout.hd_keypaths@.len()
                == 1 && !op_return && pout.witness_script is Some && pout.redeem_script is Some
            &&& (pout.hd_keypaths@.len() == 1 && !op_return && pout.witness_script is None)
                ==> t.script_type == OutputScriptType::PayToAddress
            &&& (pout.hd_keypaths@.len() == 1 && !op_return && pout.witness_script is Some) ==> (
            t.script_type == OutputScriptType::PayToWitness || t.script_type
                == OutputScriptType::PayToP2shWitness)
            &&& t.script_type == OutputScriptType::PayToOpReturn <==> (pout.hd_keypaths@.len()
                == 1 && op_return)
            &&& t.script_type == OutputScriptType::PayToOpReturn ==> opt_bytes(t.op_return_data)
                == Some(script.subrange(1, script.len() as int))
        }),
{
}

/// Answers a request for an output, of the transaction being signed or of
/// a previous transaction.
pub fn ack_output_request(
    req: &TxRequest,
    psbt: &PartiallySignedTransaction,
    network: Network,
) -> (r: Result<TxAck, BtcError>)
    ensures
        reports(
            r,
            output_ack_failure(*req, *psbt),
            *req,
            |ack| output_ack_correct(*req, *psbt, network, ack),
        ),
{
    let (index, tx_hash) = match &req.details {
        Some(d) => match d.request_index {
            Some(i) => (i, &d.tx_hash),
            None => return Err(malformed(req)),
        },
        None => return Err(malformed(req)),
    };
    let output_index = index as usize;
    let mut txdata = TransactionType::new();
    match tx_hash {
        Some(h) => {
            let (_hash, inp) = match dependency(psbt, req, h) {
                Ok(found) => found,
                Err(e) => return Err(e),
            };
            let output: &TxOut = match &inp.non_witness_utxo {
                Some(tx) => {
                    if output_index < tx.output.len() {
                        &tx.output[output_index]
                    } else {
                        return Err(BtcError::Client(Error::TxRequestInvalidIndex(output_index)));
                    }
                },
                None => match &inp.witness_utxo {
                    Some(utxo) => utxo,
                    None => {
                        let m = "not all inputs have utxo data";
                        proof {
                            reveal_strlit("not all inputs have utxo data");
                        }
                        return Err(BtcError::Client(Error::InvalidPsbt(m.to_owned())));
                    },
                },
            };
            let bin_output = TxOutputBinType {
                amount: output.value,
                script_pubkey: vstd::slice::slice_to_vec(output.script_pubkey.as_slice()),
            };
            txdata.bin_outputs.push(bin_output);
        },
        None => {
            if output_index >= psbt.unsigned_tx.output.len() {
                return Err(BtcError::Client(Error::TxRequestInvalidIndex(output_index)));
            }
            let output = &psbt.unsigned_tx.output[output_index];
            let script = output.script_pubkey.as_slice();
            let address = address_from_script(script, network);
            if output_index >= psbt.outputs.len() {
                let m = "output indices don't match";
                proof {
                    reveal_strlit("output indices don't match");
                }
                return Err(BtcError::Client(Error::InvalidPsbt(m.to_owned())));
            }
            let psbt_output = &psbt.outputs[output_index];
            let mut data_output = TxOutputType {
                address,
                address_n: Vec::new(),
                amount: output.value,
                script_type: OutputScriptType::PayToAddress,
                op_return_data: None,
            };
            if psbt_output.hd_keypaths.len() == 1 {
                data_output.address_n = single_keypath(&psbt_output.hd_keypaths);
                if script_is_op_return(script) {
                    data_output.script_type = OutputScriptType::PayToOpReturn;
                    data_output.op_return_data = Some(
                        vstd::slice::slice_to_vec(
                            vstd::slice::slice_subrange(script, 1, script.len()),
                        ),
                    );
                } else if psbt_output.witness_script.is_some() {
                    if psbt_output.redeem_script.is_some() {
                        data_output.script_type = OutputScriptType::PayToP2shWitness;
                    } else {
                        data_output.script_type = OutputScriptType::PayToWitness;
                    }
                } else {
                    data_output.script_type = OutputScriptType::PayToAddress;
                }
            }
            txdata.outputs.push(data_output);
        },
    }
    Ok(TxAck { tx: Some(txdata) })
}

// ----------------------------------------------------------------------
// Metadata
// ----------------------------------------------------------------------

/// Why a metadata request cannot be answered, if it cannot. Unlike the
/// other requests it needs no index.
pub open spec fn meta_ack_failure(req: TxRequest, psbt: PartiallySignedTransaction) -> Option<
    AckFailure,
> {
    match req.details {
        None => Some(AckFailure::Malformed),
        Some(_) => match tx_hash_of(req) {
            Some(h) => if h.len() != 32 {
                Some(AckFailure::Malformed)
            } else {
                match find_input_failure(psbt, h.reverse()) {
                    Some(f) => Some(f),
                    None => match found_input(psbt, h.reverse()).non_witness_utxo {
                        None => Some(AckFailure::MissingInputTx(h.reverse())),
                        Some(_) => None,
                    },
                }
            },
            None => None,
        },
    }
}

/// The transaction a metadata request is about.
pub open spec fn requested_transaction(req: TxRequest, psbt: PartiallySignedTransaction) -> Transaction {
    match tx_hash_of(req) {
        Some(h) => found_input(psbt, h.reverse()).non_witness_utxo.unwrap(),
        None => psbt.unsigned_tx,
    }
}

/// Whether `ack` is the right answer to a metadata request: the version,
/// lock time and the numbers of inputs and outputs of the transaction.
pub open spec fn meta_ack_correct(req: TxRequest, psbt: PartiallySignedTransaction, ack: TxAck) -> bool {
    let t = requested_transaction(req, psbt);
    &&& ack.tx matches Some(tx)
    &&& tx.version == Some(t.version as u32)
    &&& tx.lock_time == Some(t.lock_time)
    &&& tx.inputs_cnt == Some(t.input@.len() as u32)
    &&& tx.outputs_cnt == Some(t.output@.len() as u32)
    &&& tx.inputs@.len() == 0
    &&& tx.bin_outputs@.len() == 0
    &&& tx.outputs@.len() == 0
}

/// Answers a request for the metadata of the transaction being signed or
/// of a previous transaction.
pub fn ack_meta_request(req: &TxRequest, psbt: &PartiallySignedTransaction) -> (r: Result<
    TxAck,
    BtcError,
>)
    ensures
        reports(r, meta_ack_failure(*req, *psbt), *req, |ack| meta_ack_correct(*req, *psbt, ack)),
{
    let tx_hash = match &req.details {
        Some(d) => &d.tx_hash,
        None => return Err(malformed(req)),
    };
    let tx: &Transaction = match tx_hash {
        Some(h) => {
            let (hash, inp) = match dependency(psbt, req, h) {
                Ok(found) => found,
                Err(e) => return Err(e),
            };
            match &inp.non_witness_utxo {
                Some(t) => t,
                None => return Err(BtcError::PsbtMissingInputTx(hash)),
            }
        },
        None => &psbt.unsigned_tx,
    };
    let mut txdata = TransactionType::new();
    txdata.version = Some(tx.version as u32);
    txdata.lock_time = Some(tx.lock_time);
    txdata.inputs_cnt = Some(tx.input.len() as u32);
    txdata.outputs_cnt = Some(tx.output.len() as u32);
    Ok(TxAck { tx: Some(txdata) })
}

// ----------------------------------------------------------------------
// Signatures
// ----------------------------------------------------------------------

/// The sighash type the device signs with: all inputs and all outputs.
pub const SIGHASH_ALL: u8 = 1;

/// The script instruction that pushes `data`: a length prefix of the
/// smallest form that holds the length (one byte below 76, then
/// `OP_PUSHDATA1`, `OP_PUSHDATA2`, `OP_PUSHDATA4`, each with a
/// little-endian length), then the bytes.
pub open spec fn push_data(data: Seq<u8>) -> Seq<u8> {
    let n = data.len();
    if n < 0x4c {
        seq![n as u8] + data
    } else if n < 0x100 {
        seq![0x4cu8, n as u8] + data
    } else if n < 0x10000 {
        seq![0x4du8, (n % 0x100) as u8, (n / 0x100) as u8] + data
    } else {
        seq![
            0x4eu8,
            (n % 0x100) as u8,
            ((n / 0x100) % 0x100) as u8,
            ((n / 0x10000) % 0x100) as u8,
            ((n / 0x1000000) % 0x100) as u8,
        ] + data
    }
}

/// Appends to `script` the instruction that pushes `data`.
fn append_push(script: &mut Vec<u8>, data: &[u8])
    ensures
        final(script)@ == old(script)@ + push_data(data@),
{
    let n = data.len();
    if n < 0x4c {
        script.push(n as u8);
    } else if n < 0x100 {
        script.push(0x4c);
        script.push(n as u8);
    } else if n < 0x10000 {
        script.push(0x4d);
        script.push((n % 0x100) as u8);
        script.push((n / 0x100) as u8);
    } else {
        script.push(0x4e);
        script.push((n % 0x100) as u8);
        script.push(((n / 0x100) % 0x100) as u8);
        script.push(((n / 0x10000) % 0x100) as u8);
        script.push(((n / 0x1000000) % 0x100) as u8);
    }
    let mut bytes = vstd::slice::slice_to_vec(data);
    script.append(&mut bytes);
    proof {
        let n = data@.len();
        if n < 0x4c {
            assert(final(script)@ =~= old(script)@ + push_data(data@));
        } else if n < 0x100 {
            assert(final(script)@ =~= old(script)@ + push_data(data@));
        } else if n < 0x10000 {
            assert(final(script)@ =~= old(script)@ + push_data(data@));
        } else {
            assert(final(script)@ =~= old(script)@ + push_data(data@));
        }
    }
}

/// Whether entry `k` is the first of `sigs` made with `key`.
pub open spec fn is_first_sig_of(sigs: Seq<(Vec<u8>, Vec<u8>)>, k: int, key: Seq<u8>) -> bool {
    &&& 0 <= k < sigs.len()
    &&& sigs[k].0@ == key
    &&& forall|j: int| 0 <= j < k ==> sigs[j].0@ != key
}

/// Whether `sigs` holds a signature made with `key`.
pub open spec fn has_sig_of(sigs: Seq<(Vec<u8>, Vec<u8>)>, key: Seq<u8>) -> bool {
    exists|k: int| 0 <= k < sigs.len() && sigs[k].0@ == key
}

/// Whether `new` is `old` with `sig` recorded under `key`: the first entry
/// made with `key` takes the new signature, and where there is none the
/// entry is added at the end.
pub open spec fn records_sig(
    old: Seq<(Vec<u8>, Vec<u8>)>,
    new: Seq<(Vec<u8>, Vec<u8>)>,
    key: Seq<u8>,
    sig: Seq<u8>,
) -> bool {
    if has_sig_of(old, key) {
        let k = choose|k: int| is_first_sig_of(old, k, key);
        &&& new.len() == old.len()
        &&& new[k].0@ == key
        &&& new[k].1@ == sig
        &&& forall|j: int| 0 <= j < old.len() && j != k ==> new[j] == old[j]
    } else {
        &&& new.len() == old.len() + 1
        &&& new.subrange(0, old.len() as int) == old
        &&& new.last().0@ == key
        &&& new.last().1@ == sig
    }
}

/// Records `sig` under `key` in a list of signatures.
fn record_sig(sigs: &mut Vec<(Vec<u8>, Vec<u8>)>, key: Vec<u8>, sig: Vec<u8>)
    ensures
        records_sig(old(sigs)@, final(sigs)@, key@, sig@),
{
    let n = sigs.len();
    let mut idx: usize = 0;
    while idx < n
        invariant
            n == sigs@.len(),
            idx <= n,
            forall|j: int| 0 <= j < idx ==> sigs@[j].0@ != key@,
        ensures
            idx == n || (idx < n && sigs@[idx as int].0@ == key@),
        decreases n - idx,
    {
        if bytes_eq(sigs[idx].0.as_slice(), key.as_slice()) {
            break;
        }
        idx = idx + 1;
    }
    let ghost before = sigs@;
    if idx == n {
        assert(!has_sig_of(before, key@));
        sigs.push((key, sig));
        assert(sigs@.subrange(0, before.len() as int) =~= before);
    } else {
        proof {
            assert(is_first_sig_of(before, idx as int, key@));
            let k = choose|k: int| is_first_sig_of(before, k, key@);
            assert(is_first_sig_of(before, k, key@));
            if k < idx {
            } else if k > idx {
                assert(before[idx as int].0@ == key@);
            }
            assert(k == idx);
        }
        sigs.remove(idx);
        sigs.insert(idx, (key, sig));
        assert(sigs@ =~= before.update(idx as int, sigs@[idx as int]));
    }
}

/// The signature as the PSBT keeps it: the device's signature with the
/// sighash type appended.
pub open spec fn with_sighash(sig: Seq<u8>) -> Seq<u8> {
    sig.push(SIGHASH_ALL)
}

/// Whether `new` is the PSBT input `old`, spending an output locked by
/// `script`, with the signature `sig` made with `key` put where it belongs:
/// for a pay-to-pubkey-hash output, the finished unlocking script that
/// pushes the signature and the key; for a pay-to-witness-pubkey-hash
/// output, the finished witness of the signature and the key; for any
/// other output, the input's collected signatures. Nothing else changes.
pub open spec fn signed_input(old: PsbtInput, new: PsbtInput, script: Seq<u8>, key: Seq<u8>, sig: Seq<u8>) -> bool {
    &&& new.non_witness_utxo == old.non_witness_utxo
    &&& new.witness_utxo == old.witness_utxo
    &&& new.hd_keypaths == old.hd_keypaths
    &&& new.witness_script == old.witness_script
    &&& if spec_is_p2pkh(script) {
        &&& new.final_script_sig matches Some(s) && s@ == push_data(with_sighash(sig)) + push_data(key)
        &&& new.final_script_witness == old.final_script_witness
        &&& new.partial_sigs == old.partial_sigs
    } else if spec_is_v0_p2wpkh(script) {
        &&& new.final_script_witness matches Some(w) && w@.len() == 2 && w@[0]@ == with_sighash(sig)
            && w@[1]@ == key
        &&& new.final_script_sig == old.final_script_sig
        &&& new.partial_sigs == old.partial_sigs
    } else {
        &&& records_sig(old.partial_sigs@, new.partial_sigs@, key, with_sighash(sig))
        &&& new.final_script_sig == old.final_script_sig
        &&& new.final_script_witness == old.final_script_witness
    }
}

/// The input a signature handed back in `req` is for.
pub open spec fn signature_index_of(req: TxRequest) -> int {
    req.serialized.unwrap().signature_index.unwrap() as int
}

/// The signature handed back in `req`.
pub open spec fn signature_of(req: TxRequest) -> Seq<u8> {
    req.serialized.unwrap().signature.unwrap()@
}

/// Why the signature handed back in `req` cannot be put into `psbt`, if it
/// cannot: its input must exist, the PSBT must give the output the input
/// spends, and it must know the one key that signs the input.
pub open spec fn signature_failure(req: TxRequest, psbt: PartiallySignedTransaction) -> Option<
    AckFailure,
> {
    let i = signature_index_of(req);
    if i >= psbt.inputs@.len() || i >= psbt.unsigned_tx.input@.len() {
        Some(AckFailure::InvalidIndex(i))
    } else {
        let pin = psbt.inputs@[i];
        match spent_output_failure(pin, psbt.unsigned_tx.input@[i].previous_output.vout, i as nat) {
            Some(m) => Some(AckFailure::InvalidPsbt(m)),
            None => if pin.hd_keypaths@.len() != 1 {
                Some(AckFailure::InvalidPsbt("no single key for PSBT input "@ + decimal(i as nat)))
            } else {
                None
            },
        }
    }
}

/// Whether `new` is `old` with the signature handed back in `req` put into
/// its input.
pub open spec fn signature_applied(req: TxRequest, old: PartiallySignedTransaction, new: PartiallySignedTransaction) -> bool {
    let i = signature_index_of(req);
    let pin = old.inputs@[i];
    let spent = spent_output(pin, old.unsigned_tx.input@[i].previous_output.vout);
    &&& new.unsigned_tx == old.unsigned_tx
    &&& new.outputs == old.outputs
    &&& new.inputs@.len() == old.inputs@.len()
    &&& forall|j: int| 0 <= j < old.inputs@.len() && j != i ==> new.inputs@[j] == old.inputs@[j]
    &&& signed_input(pin, new.inputs@[i], spent.script_pubkey@, pin.hd_keypaths@[0].pubkey@, signature_of(req))
}

// ----------------------------------------------------------------------
// The dialogue
// ----------------------------------------------------------------------

/// The device's latest request in the signing dialogue. The device asks for
/// parts of the transaction and of the transactions it spends from, and
/// may hand back signatures and parts of the signed transaction on the way;
/// `apply_signature` adds a signature handed back to the PSBT. Check
/// `finished` first: only an unfinished dialogue can be answered.
pub struct SignTxProgress {
    req: TxRequest,
}

/// Whether the request hands back a signature together with its input.
pub open spec fn spec_has_signature(req: TxRequest) -> bool {
    req.serialized matches Some(s) && s.signature_index is Some && s.signature is Some
}

/// Whether the request hands back a part of the signed transaction.
pub open spec fn spec_has_serialized_tx_part(req: TxRequest) -> bool {
    req.serialized matches Some(s) && s.serialized_tx is Some
}

impl SignTxProgress {
    /// The request the dialogue is at.
    pub closed spec fn request(&self) -> TxRequest {
        self.req
    }

    /// The dialogue at the device's request `req`.
    pub fn new(req: TxRequest) -> (r: SignTxProgress)
        ensures
            r.request() == req,
    {
        SignTxProgress { req }
    }

    /// The request the dialogue is at.
    pub fn tx_request(&self) -> (r: &TxRequest)
        ensures
            *r == self.request(),
    {
        &self.req
    }

    /// Whether the device has finished signing.
    pub fn finished(&self) -> (r: bool)
        ensures
            r == (self.request().spec_request_type() == RequestType::TxFinished),
    {
        self.req.get_request_type() == RequestType::TxFinished
    }

    /// Whether the device handed back a signature.
    pub fn has_signature(&self) -> (r: bool)
        ensures
            r == spec_has_signature(self.request()),
    {
        match &self.req.serialized {
            Some(s) => s.signature_index.is_some() && s.signature.is_some(),
            None => false,
        }
    }

    /// The signature the device handed back, with the index of the input
    /// it signs.
    pub fn get_signature(&self) -> (r: Option<(usize, &[u8])>)
        ensures
            r is Some <==> spec_has_signature(self.request()),
            r matches Some((i, sig)) ==> {
                let s = self.request().serialized.unwrap();
                &&& i == s.signature_index.unwrap() as usize
                &&& sig@ == s.signature.unwrap()@
            },
    {
        match &self.req.serialized {
            Some(s) => match (&s.signature_index, &s.signature) {
                (Some(i), Some(sig)) => Some((*i as usize, sig.as_slice())),
                _ => None,
            },
            None => None,
        }
    }

    /// Whether the device handed back a part of the signed transaction.
    pub fn has_serialized_tx_part(&self) -> (r: bool)
        ensures
            r == spec_has_serialized_tx_part(self.request()),
    {
        match &self.req.serialized {
            Some(s) => s.serialized_tx.is_some(),
            None => false,
        }
    }

    /// The part of the signed transaction the device handed back.
    pub fn get_serialized_tx_part(&self) -> (r: Option<&[u8]>)
        ensures
            r is Some <==> spec_has_serialized_tx_part(self.request()),
            r matches Some(part) ==> part@ == self.request().serialized.unwrap().serialized_tx.unwrap()@,
    {
        match &self.req.serialized {
            Some(s) => match &s.serialized_tx {
                Some(part) => Some(part.as_slice()),
                None => None,
            },
            None => None,
        }
    }

    /// Adds the signature the device handed back, if any, to the input of
    /// `psbt` it signs: into the finished unlocking script or witness where
    /// the spent output is pay-to-pubkey-hash or pay-to-witness-pubkey-hash,
    /// and to the input's collected signatures otherwise. The PSBT is left
    /// as it was where there is no signature or it cannot be placed.
    pub fn apply_signature(&self, psbt: &mut PartiallySignedTransaction) -> (r: Result<(), BtcError>)
        ensures
            !spec_has_signature(self.request()) ==> r is Ok && *final(psbt) == *old(psbt),
            spec_has_signature(self.request()) ==> match signature_failure(self.request(), *old(psbt)) {
                Some(f) => r matches Err(e) && is_failure(e, f, self.request())
                    && *final(psbt) == *old(psbt),
                None => r is Ok && signature_applied(self.request(), *old(psbt), *final(psbt)),
            },
    {
        let (index, sig) = match self.get_signature() {
            Some(found) => found,
            None => return Ok(()),
        };
        if index >= psbt.inputs.len() || index >= psbt.unsigned_tx.input.len() {
            return Err(BtcError::Client(Error::TxRequestInvalidIndex(index)));
        }
        let vout = psbt.unsigned_tx.input[index].previous_output.vout;
        let script = match find_spent_output(&psbt.inputs[index], vout, index) {
            Ok(o) => vstd::slice::slice_to_vec(o.script_pubkey.as_slice()),
            Err(e) => return Err(e),
        };
        if psbt.inputs[index].hd_keypaths.len() != 1 {
            let p = "no single key for PSBT input ";
            proof {
                reveal_strlit("no single key for PSBT input ");
            }
            return Err(BtcError::Client(Error::InvalidPsbt(message_with_index(p, index))));
        }
        let key = vstd::slice::slice_to_vec(psbt.inputs[index].hd_keypaths[0].pubkey.as_slice());
        let mut full_sig = vstd::slice::slice_to_vec(sig);
        full_sig.push(SIGHASH_ALL);
        let ghost before = *psbt;
        let mut input = psbt.inputs.remove(index);
        if script_is_p2pkh(script.as_slice()) {
            let mut unlocking: Vec<u8> = Vec::new();
            append_push(&mut unlocking, full_sig.as_slice());
            append_push(&mut unlocking, key.as_slice());
            assert(unlocking@ =~= push_data(full_sig@) + push_data(key@));
            input.final_script_sig = Some(unlocking);
        } else if script_is_v0_p2wpkh(script.as_slice()) {
            let mut witness: Vec<Vec<u8>> = Vec::new();
            witness.push(full_sig);
            witness.push(key);
            input.final_script_witness = Some(witness);
        } else {
            record_sig(&mut input.partial_sigs, key, full_sig);
        }
        psbt.inputs.insert(index, input);
        proof {
            assert(psbt.inputs@ =~= before.inputs@.update(index as int, psbt.inputs@[index as int]));
        }
        Ok(())
    }

    /// The answer to the device's request, made from `psbt`: the input,
    /// output or metadata asked for. The dialogue must not be finished, and
    /// requests for extra data are not answered.
    pub fn ack_psbt(&self, psbt: &PartiallySignedTransaction, network: Network) -> (r: Result<
        TxAck,
        BtcError,
    >)
        requires
            self.request().spec_request_type() != RequestType::TxFinished,
            self.request().spec_request_type() != RequestType::TxExtraData,
        ensures
            self.request().spec_request_type() == RequestType::TxInput ==> reports(
                r,
                input_ack_failure(self.request(), *psbt),
                self.request(),
                |ack| input_ack_correct(self.request(), *psbt, ack),
            ),
            self.request().spec_request_type() == RequestType::TxOutput ==> reports(
                r,
                output_ack_failure(self.request(), *psbt),
                self.request(),
                |ack| output_ack_correct(self.request(), *psbt, network, ack),
            ),
            self.request().spec_request_type() == RequestType::TxMeta ==> reports(
                r,
                meta_ack_failure(self.request(), *psbt),
                self.request(),
                |ack| meta_ack_correct(self.request(), *psbt, ack),
            ),
    {
        match self.req.get_request_type() {
            RequestType::TxInput => ack_input_request(&self.req, psbt),
            RequestType::TxOutput => ack_output_request(&self.req, psbt, network),
            RequestType::TxMeta => ack_meta_request(&self.req, psbt),
            _ => vstd::pervasive::unreached(),
        }
    }
}

} // verus!
