//! Bitcoin data as the library reads it: networks, derivation paths and
//! partially signed transactions.

use vstd::prelude::*;

verus! {

/// A Bitcoin network.
#[derive(Clone, Copy, Debug, PartialEq, Eq, Structural)]
pub enum Network {
    /// The main network.
    Bitcoin,
    /// The public test network.
    Testnet,
    /// The signet test network.
    Signet,
    /// A private regression-test network.
    Regtest,
}

/// One step of a BIP-32 derivation path; the index is below 2^31.
#[derive(Clone, Copy, Debug, PartialEq, Eq, Structural)]
pub enum ChildNumber {
    /// A non-hardened child.
    Normal { index: u32 },
    /// A hardened child.
    Hardened { index: u32 },
}

/// A BIP-32 derivation path.
#[derive(Clone, Debug)]
pub struct DerivationPath(pub Vec<ChildNumber>);

/// Whether a child number's index is below 2^31.
pub open spec fn child_well_formed(c: ChildNumber) -> bool {
    match c {
        ChildNumber::Normal { index } => index < 0x8000_0000,
        ChildNumber::Hardened { index } => index < 0x8000_0000,
    }
}

/// Whether every step of the path has an index below 2^31.
pub open spec fn path_well_formed(path: Seq<ChildNumber>) -> bool {
    forall|i: int| 0 <= i < path.len() ==> child_well_formed(#[trigger] path[i])
}

/// The 32-bit form of a child number: the index, with the top bit set for a
/// hardened child.
pub open spec fn child_number_code(c: ChildNumber) -> u32 {
    match c {
        ChildNumber::Normal { index } => index,
        ChildNumber::Hardened { index } => index | 0x8000_0000u32,
    }
}

/// A reference to an output of a previous transaction.
#[derive(Clone, Debug)]
pub struct OutPoint {
    /// The id of the previous transaction, in internal byte order.
    pub txid: Vec<u8>,
    /// The index of the output in that transaction.
    pub vout: u32,
}

/// A transaction input.
#[derive(Clone, Debug)]
pub struct TxIn {
    /// The output it spends.
    pub previous_output: OutPoint,
    /// The unlocking script.
    pub script_sig: Vec<u8>,
    /// The sequence number.
    pub sequence: u32,
}

/// A transaction output.
#[derive(Clone, Debug)]
pub struct TxOut {
    /// The value, in satoshi.
    pub value: u64,
    /// The locking script.
    pub script_pubkey: Vec<u8>,
}

/// A transaction.
#[derive(Clone, Debug)]
pub struct Transaction {
    /// The version.
    pub version: i32,
    /// The lock time.
    pub lock_time: u32,
    /// The inputs.
    pub input: Vec<TxIn>,
    /// The outputs.
    pub output: Vec<TxOut>,
}

/// Where a key comes from: the master key's fingerprint and the path from
/// it.
#[derive(Clone, Debug)]
pub struct KeySource {
    /// The public key.
    pub pubkey: Vec<u8>,
    /// The fingerprint of the master key.
    pub fingerprint: Vec<u8>,
    /// The derivation path from the master key.
    pub path: DerivationPath,
}

/// What a PSBT knows about one input of the transaction.
#[derive(Clone, Debug)]
pub struct PsbtInput {
    /// The whole transaction whose output the input spends.
    pub non_witness_utxo: Option<Transaction>,
    /// The output the input spends, for segregated-witness inputs.
    pub witness_utxo: Option<TxOut>,
    /// The sources of the keys involved, ordered by public key.
    pub hd_keypaths: Vec<KeySource>,
    /// The witness script.
    pub witness_script: Option<Vec<u8>>,
    /// The signatures collected for the input, each with the sighash type
    /// appended, under the public key that made it.
    pub partial_sigs: Vec<(Vec<u8>, Vec<u8>)>,
    /// The finished unlocking script of the input.
    pub final_script_sig: Option<Vec<u8>>,
    /// The finished witness of the input, one item per element.
    pub final_script_witness: Option<Vec<Vec<u8>>>,
}

/// What a PSBT knows about one output of the transaction.
#[derive(Clone, Debug)]
pub struct PsbtOutput {
    /// The redeem script.
    pub redeem_script: Option<Vec<u8>>,
    /// The witness script.
    pub witness_script: Option<Vec<u8>>,
    /// The sources of the keys involved, ordered by public key.
    pub hd_keypaths: Vec<KeySource>,
}

/// A partially signed transaction.
#[derive(Clone, Debug)]
pub struct PartiallySignedTransaction {
    /// The transaction without signatures.
    pub unsigned_tx: Transaction,
    /// What is known about each input, in the order of the inputs.
    pub inputs: Vec<PsbtInput>,
    /// What is known about each output, in the order of the outputs.
    pub outputs: Vec<PsbtOutput>,
}

} // verus!
