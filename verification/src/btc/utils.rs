//! Conversions between Bitcoin data and what the device expects, and the
//! calls into the Bitcoin libraries that the flows rest on.

use vstd::prelude::*;

use ::bitcoin::blockdata::script::Script;
use bitcoin_hashes::sha256d;
use ::bitcoin::util::address::Address as BitcoinAddress;
use ::bitcoin::util::bip32::Error as Bip32Error;
use ::bitcoin::util::bip32::ExtendedPubKey;
use secp256k1::ecdsa::{RecoverableSignature, RecoveryId};
use secp256k1::Error as SecpError;
use unicode_normalization::UnicodeNormalization;

use crate::btc::error::BtcError;
use crate::btc::types::{
    child_number_code, child_well_formed, path_well_formed, ChildNumber, DerivationPath, Network, PartiallySignedTransaction,
    PsbtInput, Transaction,
};
use crate::error::Error;

verus! {

/// A recoverable ECDSA signature, carried through unread.
#[verifier::external_type_specification]
#[verifier::external_body]
pub struct ExRecoverableSignature(RecoverableSignature);

/// A recovery id of an ECDSA signature, carried through unread.
#[verifier::external_type_specification]
#[verifier::external_body]
pub struct ExRecoveryId(RecoveryId);

/// An extended public key, carried through unread.
#[verifier::external_type_specification]
#[verifier::external_body]
pub struct ExExtendedPubKey(ExtendedPubKey);

/// An error of BIP-32 parsing, carried through unread.
#[verifier::external_type_specification]
#[verifier::external_body]
pub struct ExBip32Error(Bip32Error);

// ----------------------------------------------------------------------
// Coin names and derivation paths
// ----------------------------------------------------------------------

/// The coin name the device uses for a network, where it has one.
pub open spec fn spec_coin_name(network: Network) -> Option<Seq<char>> {
    match network {
        Network::Bitcoin => Some("Bitcoin"@),
        Network::Testnet => Some("Testnet"@),
        _ => None,
    }
}

/// The coin name the device uses for `network`; only the main network and
/// the public test network have one.
pub fn coin_name(network: Network) -> (r: Result<String, Error>)
    ensures
        match spec_coin_name(network) {
            Some(name) => r matches Ok(s) && s@ == name,
            None => r matches Err(Error::UnsupportedNetwork),
        },
{
    match network {
        Network::Bitcoin => {
            let s = "Bitcoin";
            proof {
                reveal_strlit("Bitcoin");
            }
            Ok(s.to_owned())
        },
        Network::Testnet => {
            let s = "Testnet";
            proof {
                reveal_strlit("Testnet");
            }
            Ok(s.to_owned())
        },
        _ => Err(Error::UnsupportedNetwork),
    }
}

/// The path as the device expects it: one 32-bit child number per step.
pub open spec fn path_codes(path: Seq<ChildNumber>) -> Seq<u32> {
    Seq::new(path.len(), |i: int| child_number_code(path[i]))
}

/// The 32-bit form of one child number.
fn child_number_to_u32(c: ChildNumber) -> (r: u32)
    ensures
        r == child_number_code(c),
{
    match c {
        ChildNumber::Normal { index } => index,
        ChildNumber::Hardened { index } => index | 0x8000_0000,
    }
}

/// The derivation path as the device expects it.
pub fn convert_path(path: &DerivationPath) -> (r: Vec<u32>)
    ensures
        r@ == path_codes(path.0@),
{
    let mut out: Vec<u32> = Vec::new();
    let n = path.0.len();
    for i in 0..n
        invariant
            n == path.0@.len(),
            out@ =~= path_codes(path.0@).take(i as int),
    {
        out.push(child_number_to_u32(path.0[i]));
    }
    assert(out@ =~= path_codes(path.0@));
    out
}

/// The device form of a child number tells hardened from normal children
/// and keeps the index: for indices below 2^31, the code of a hardened child
/// has the top bit set, that of a normal child does not, and equal codes
/// come from equal child numbers.
pub proof fn lemma_child_number_code_injective(a: ChildNumber, b: ChildNumber)
    requires
        child_well_formed(a),
        child_well_formed(b),
    ensures
        (a is Hardened) <==> child_number_code(a) >= 0x8000_0000,
        child_number_code(a) == child_number_code(b) ==> a == b,
{
    match a {
        ChildNumber::Normal { index: x } => {
            match b {
                ChildNumber::Normal { index: y } => {},
                ChildNumber::Hardened { index: y } => {
                    assert(y < 0x8000_0000 ==> (y | 0x8000_0000u32) >= 0x8000_0000) by (bit_vector);
                },
            }
        },
        ChildNumber::Hardened { index: x } => {
            assert(x < 0x8000_0000 ==> (x | 0x8000_0000u32) >= 0x8000_0000) by (bit_vector);
            match b {
                ChildNumber::Normal { index: y } => {},
                ChildNumber::Hardened { index: y } => {
                    assert(x < 0x8000_0000 && y < 0x8000_0000 && (x | 0x8000_0000u32) == (y
                        | 0x8000_0000u32) ==> x == y) by (bit_vector);
                },
            }
        },
    }
}

/// A well-formed derivation path is determined by the child numbers the
/// device receives for it.
pub proof fn lemma_path_codes_injective(p: Seq<ChildNumber>, q: Seq<ChildNumber>)
    requires
        path_well_formed(p),
        path_well_formed(q),
        path_codes(p) == path_codes(q),
    ensures
        p == q,
{
    assert(p.len() == path_codes(p).len());
    assert(q.len() == path_codes(q).len());
    assert forall|i: int| 0 <= i < p.len() implies p[i] == q[i] by {
        assert(path_codes(p)[i] == path_codes(q)[i]);
        assert(path_codes(p)[i] == child_number_code(p[i]));
        assert(path_codes(q)[i] == child_number_code(q[i]));
        assert(child_well_formed(p[i]));
        assert(child_well_formed(q[i]));
        lemma_child_number_code_injective(p[i], q[i]);
    }
    assert(p =~= q);
}

// ----------------------------------------------------------------------
// Transaction ids in reversed byte order
// ----------------------------------------------------------------------

/// Makes a double-SHA256 hash from its 32 bytes: `None` for any other
/// length. Calls `sha256d::Hash::from_slice`, which fails exactly when the
/// slice is not 32 bytes long and otherwise keeps the bytes as they are.
#[verifier::external_body]
fn hash_from_slice(bytes: &[u8]) -> (r: Option<Vec<u8>>)
    ensures
        r is Some <==> bytes@.len() == 32,
        r matches Some(h) ==> h@ == bytes@,
{
    match <sha256d::Hash as bitcoin_hashes::Hash>::from_slice(bytes) {
        Ok(h) => Some(<sha256d::Hash as bitcoin_hashes::Hash>::into_inner(h).to_vec()),
        Err(_) => None,
    }
}

/// The bytes of `v` in reverse order.
fn reversed(v: &[u8]) -> (r: Vec<u8>)
    ensures
        r@ == v@.reverse(),
{
    let mut out: Vec<u8> = Vec::new();
    let n = v.len();
    let mut k: usize = n;
    while k > 0
        invariant
            k <= n,
            n == v@.len(),
            out@.len() == n - k,
            forall|i: int| 0 <= i < n - k ==> out@[i] == v@[n - 1 - i],
        decreases k,
    {
        k = k - 1;
        out.push(v[k]);
    }
    assert(out@ =~= v@.reverse());
    out
}

/// The transaction id whose reversed byte representation is `rev`, if it
/// has the length of a hash.
pub open spec fn spec_from_rev_bytes(rev: Seq<u8>) -> Option<Seq<u8>> {
    if rev.len() == 32 {
        Some(rev.reverse())
    } else {
        None
    }
}

/// The hash whose reversed byte representation is `rev_bytes`; `None`
/// unless it is 32 bytes long.
pub fn from_rev_bytes(rev_bytes: &[u8]) -> (r: Option<Vec<u8>>)
    ensures
        match spec_from_rev_bytes(rev_bytes@) {
            Some(h) => r matches Some(v) && v@ == h,
            None => r is None,
        },
{
    let bytes = reversed(rev_bytes);
    hash_from_slice(bytes.as_slice())
}

/// The reversed byte representation of a hash.
pub fn to_rev_bytes(hash: &Vec<u8>) -> (r: Vec<u8>)
    ensures
        r@ == hash@.reverse(),
{
    reversed(hash.as_slice())
}

/// Reversing the byte representation of a hash and reading it back gives
/// the hash again, and reading a reversed representation and reversing it
/// gives the representation again.
pub proof fn lemma_rev_bytes_roundtrip(hash: Seq<u8>, rev: Seq<u8>)
    ensures
        hash.len() == 32 ==> spec_from_rev_bytes(hash.reverse()) == Some(hash),
        spec_from_rev_bytes(rev) matches Some(h) ==> h.reverse() == rev,
{
    assert(hash.reverse().reverse() =~= hash);
    assert(rev.reverse().reverse() =~= rev);
}

// ----------------------------------------------------------------------
// Finding inputs of a PSBT
// ----------------------------------------------------------------------

/// Whether two byte strings are equal.
pub fn bytes_eq(a: &[u8], b: &[u8]) -> (r: bool)
    ensures
        r == (a@ == b@),
{
    if a.len() != b.len() {
        return false;
    }
    let n = a.len();
    for i in 0..n
        invariant
            n == a@.len(),
            n == b@.len(),
            forall|j: int| 0 <= j < i ==> a@[j] == b@[j],
    {
        if a[i] != b[i] {
            return false;
        }
    }
    assert(a@ =~= b@);
    true
}

/// Whether input `i` of `tx` spends an output of the transaction `txid`.
pub open spec fn spends(tx: Transaction, i: int, txid: Seq<u8>) -> bool {
    tx.input@[i].previous_output.txid@ == txid
}

/// Whether input `i` of `tx` is the first that spends an output of `txid`.
pub open spec fn is_first_spend(tx: Transaction, i: int, txid: Seq<u8>) -> bool {
    &&& 0 <= i < tx.input@.len()
    &&& spends(tx, i, txid)
    &&& forall|j: int| 0 <= j < i ==> !spends(tx, j, txid)
}

/// The first input of `tx` that spends an output of `txid`.
pub open spec fn first_spend(tx: Transaction, txid: Seq<u8>) -> int {
    choose|i: int| is_first_spend(tx, i, txid)
}

/// Whether some input of `tx` spends an output of `txid`.
pub open spec fn has_spend(tx: Transaction, txid: Seq<u8>) -> bool {
    exists|i: int| 0 <= i < tx.input@.len() && spends(tx, i, txid)
}

/// The first input of the transaction that spends an output of `txid`, as
/// the PSBT describes it.
pub fn psbt_find_input<'a>(psbt: &'a PartiallySignedTransaction, txid: &[u8]) -> (r: Result<
    &'a PsbtInput,
    BtcError,
>)
    ensures
        !has_spend(psbt.unsigned_tx, txid@) ==> (r matches Err(BtcError::TxRequestUnknownTxid(t))
            && t@ == txid@),
        has_spend(psbt.unsigned_tx, txid@) ==> {
            let k = first_spend(psbt.unsigned_tx, txid@);
            &&& is_first_spend(psbt.unsigned_tx, k, txid@)
            &&& k < psbt.inputs@.len() ==> (r matches Ok(inp) && *inp == psbt.inputs@[k])
            &&& k >= psbt.inputs@.len() ==> (r matches Err(
                BtcError::Client(Error::TxRequestInvalidIndex(idx)),
            ) && idx == k)
        },
{
    let inputs = &psbt.unsigned_tx.input;
    let n = inputs.len();
    let mut idx: usize = 0;
    while idx < n
        invariant
            n == inputs@.len(),
            *inputs == psbt.unsigned_tx.input,
            idx <= n,
            forall|j: int| 0 <= j < idx ==> !spends(psbt.unsigned_tx, j, txid@),
        ensures
            idx == n || (idx < n && spends(psbt.unsigned_tx, idx as int, txid@)),
        decreases n - idx,
    {
        if bytes_eq(inputs[idx].previous_output.txid.as_slice(), txid) {
            break;
        }
        idx = idx + 1;
    }
    if idx == n {
        assert(!has_spend(psbt.unsigned_tx, txid@));
        return Err(BtcError::TxRequestUnknownTxid(vstd::slice::slice_to_vec(txid)));
    }
    proof {
        assert(is_first_spend(psbt.unsigned_tx, idx as int, txid@));
        let k = first_spend(psbt.unsigned_tx, txid@);
        assert(is_first_spend(psbt.unsigned_tx, k, txid@));
        if k < idx {
        } else if k > idx {
            assert(!spends(psbt.unsigned_tx, idx as int, txid@));
        }
        assert(k == idx);
    }
    if idx < psbt.inputs.len() {
        Ok(&psbt.inputs[idx])
    } else {
        Err(BtcError::Client(Error::TxRequestInvalidIndex(idx)))
    }
}

// ----------------------------------------------------------------------
// Script templates
// ----------------------------------------------------------------------

/// Whether a locking script pays to a public-key hash:
/// `OP_DUP OP_HASH160 <20 bytes> OP_EQUALVERIFY OP_CHECKSIG`.
pub open spec fn spec_is_p2pkh(s: Seq<u8>) -> bool {
    &&& s.len() == 25
    &&& s[0] == 0x76u8
    &&& s[1] == 0xa9u8
    &&& s[2] == 0x14u8
    &&& s[23] == 0x88u8
    &&& s[24] == 0xacu8
}

/// Whether a locking script pays to a script hash:
/// `OP_HASH160 <20 bytes> OP_EQUAL`.
pub open spec fn spec_is_p2sh(s: Seq<u8>) -> bool {
    &&& s.len() == 23
    &&& s[0] == 0xa9u8
    &&& s[1] == 0x14u8
    &&& s[22] == 0x87u8
}

/// Whether a locking script is a version-0 witness program of 20 bytes.
pub open spec fn spec_is_v0_p2wpkh(s: Seq<u8>) -> bool {
    &&& s.len() == 22
    &&& s[0] == 0x00u8
    &&& s[1] == 0x14u8
}

/// Whether a locking script is a version-0 witness program of 32 bytes.
pub open spec fn spec_is_v0_p2wsh(s: Seq<u8>) -> bool {
    &&& s.len() == 34
    &&& s[0] == 0x00u8
    &&& s[1] == 0x20u8
}

/// Whether a script starts with `OP_RETURN`.
pub open spec fn spec_is_op_return(s: Seq<u8>) -> bool {
    s.len() > 0 && s[0] == 0x6au8
}

/// Whether a script is a witness program: a version push (0 or 1 to 16)
/// followed by one push of 2 to 40 bytes that fills the script.
pub open spec fn spec_is_witness_program(s: Seq<u8>) -> bool {
    &&& 4 <= s.len() <= 42
    &&& (s[0] == 0x00u8 || (0x51u8 <= s[0] && s[0] <= 0x60u8))
    &&& 0x02u8 <= s[1] && s[1] <= 0x28u8
    &&& s.len() - 2 == s[1]
}

/// Whether an address can be made from a locking script.
pub open spec fn spec_address_recognized(s: Seq<u8>) -> bool {
    ||| spec_is_p2pkh(s)
    ||| spec_is_p2sh(s)
    ||| (spec_is_witness_program(s) && (s[0] != 0x00u8 || spec_is_v0_p2wpkh(s) || spec_is_v0_p2wsh(s)))
}

/// Calls `Script::is_p2pkh`, which checks the byte pattern of
/// `spec_is_p2pkh`.
#[verifier::external_body]
pub(crate) fn script_is_p2pkh(script: &[u8]) -> (r: bool)
    ensures
        r == spec_is_p2pkh(script@),
{
    Script::from(script.to_vec()).is_p2pkh()
}

/// Calls `Script::is_p2sh`, which checks the byte pattern of
/// `spec_is_p2sh`.
#[verifier::external_body]
pub(crate) fn script_is_p2sh(script: &[u8]) -> (r: bool)
    ensures
        r == spec_is_p2sh(script@),
{
    Script::from(script.to_vec()).is_p2sh()
}

/// Calls `Script::is_v0_p2wpkh`, which checks the byte pattern of
/// `spec_is_v0_p2wpkh`.
#[verifier::external_body]
pub(crate) fn script_is_v0_p2wpkh(script: &[u8]) -> (r: bool)
    ensures
        r == spec_is_v0_p2wpkh(script@),
{
    Script::from(script.to_vec()).is_v0_p2wpkh()
}

/// Calls `Script::is_v0_p2wsh`, which checks the byte pattern of
/// `spec_is_v0_p2wsh`.
#[verifier::external_body]
pub(crate) fn script_is_v0_p2wsh(script: &[u8]) -> (r: bool)
    ensures
        r == spec_is_v0_p2wsh(script@),
{
    Script::from(script.to_vec()).is_v0_p2wsh()
}

/// Calls `Script::is_op_return`, which checks whether the first byte is
/// `OP_RETURN`.
#[verifier::external_body]
pub(crate) fn script_is_op_return(script: &[u8]) -> (r: bool)
    ensures
        r == spec_is_op_return(script@),
{
    Script::from(script.to_vec()).is_op_return()
}

/// The text of the address that pays to a locking script on a network.
pub uninterp spec fn script_address(script: Seq<u8>, network: Network) -> Seq<char>;

/// Calls `Address::from_script` and, where it succeeds, writes the address
/// out with its `Display`. The library states when an address exists (the
/// templates `Payload::from_script` accepts) and names its text; the base58
/// and bech32 encodings that make the text are not restated.
#[verifier::external_body]
pub(crate) fn address_from_script(script: &[u8], network: Network) -> (r: Option<String>)
    ensures
        r is Some <==> spec_address_recognized(script@),
        r matches Some(a) ==> a@ == script_address(script@, network),
{
    let net = match network {
        Network::Bitcoin => ::bitcoin::network::constants::Network::Bitcoin,
        Network::Testnet => ::bitcoin::network::constants::Network::Testnet,
        Network::Signet => ::bitcoin::network::constants::Network::Signet,
        Network::Regtest => ::bitcoin::network::constants::Network::Regtest,
    };
    match BitcoinAddress::from_script(&Script::from(script.to_vec()), net) {
        Ok(a) => Some(a.to_string()),
        Err(_) => None,
    }
}

// ----------------------------------------------------------------------
// Keys and signatures
// ----------------------------------------------------------------------

/// The extended public key that a text spells, if it is a well-formed one.
pub uninterp spec fn parsed_xpub(text: Seq<char>) -> Option<ExtendedPubKey>;

/// Calls `ExtendedPubKey::from_str`, which decodes base58check and then the
/// 78-byte BIP-32 serialisation. The contract claims that the call is a
/// function of the text: it succeeds exactly where `parsed_xpub` gives a
/// key, and then returns that key. Which error it reports is not stated.
#[verifier::external_body]
pub(crate) fn extended_pubkey_from_str(text: &str) -> (r: Result<ExtendedPubKey, Bip32Error>)
    ensures
        r is Ok <==> parsed_xpub(text@) is Some,
        r matches Ok(k) ==> parsed_xpub(text@) == Some(k),
{
    <ExtendedPubKey as std::str::FromStr>::from_str(text)
}

/// What `RecoveryId::from_i32` gives for the number `id`.
pub uninterp spec fn recovery_id_parse(id: int) -> Result<RecoveryId, SecpError>;

/// Calls `RecoveryId::from_i32`, which accepts exactly the ids 0 to 3. The
/// contract claims that the result, the id or the error, is a function of
/// the number, named by `recovery_id_parse`.
#[verifier::external_body]
fn recovery_id_from_i32(id: i32) -> (r: Result<RecoveryId, SecpError>)
    ensures
        r is Ok <==> 0 <= id <= 3,
        r == recovery_id_parse(id as int),
{
    RecoveryId::from_i32(id)
}

/// The order of the group of secp256k1.
pub open spec fn secp256k1_order() -> nat {
    0xFFFFFFFFFFFFFFFFFFFFFFFFFFFFFFFEBAAEDCE6AF48A03BBFD25E8CD0364141nat
}

/// The number that bytes spell, most significant byte first.
pub open spec fn big_endian(bytes: Seq<u8>) -> nat
    decreases bytes.len(),
{
    if bytes.len() == 0 {
        0
    } else {
        big_endian(bytes.drop_last()) * 256 + bytes.last() as nat
    }
}

/// Whether 64 bytes are a compact signature: two big-endian scalars, each
/// below the group order.
pub open spec fn compact_signature_valid(data: Seq<u8>) -> bool {
    &&& data.len() == 64
    &&& big_endian(data.subrange(0, 32)) < secp256k1_order()
    &&& big_endian(data.subrange(32, 64)) < secp256k1_order()
}

/// What `RecoverableSignature::from_compact` gives for 64 bytes and a
/// recovery id.
pub uninterp spec fn compact_parse(data: Seq<u8>, id: RecoveryId) -> Result<RecoverableSignature, SecpError>;

/// Calls `RecoverableSignature::from_compact`. The contract claims that it
/// succeeds exactly on the bytes `compact_signature_valid` holds of (64
/// bytes, each 32-byte scalar below the group order, as libsecp256k1's
/// parser checks), and that the result, the signature or the error, is a
/// function of the bytes and the recovery id, named by `compact_parse`.
#[verifier::external_body]
fn recoverable_from_compact(data: &[u8], id: RecoveryId) -> (r: Result<
    RecoverableSignature,
    SecpError,
>)
    ensures
        r is Ok <==> compact_signature_valid(data@),
        r == compact_parse(data@, id),
{
    RecoverableSignature::from_compact(data, id)
}

/// The error with which a signature of the wrong length is rejected.
pub uninterp spec fn wrong_length_error(sig: Seq<u8>) -> SecpError;

/// The `secp256k1::Error::InvalidSignature` value, with which a signature
/// of the wrong length is rejected before any parsing. The value is the
/// same for every signature; the contract claims only that the same
/// signature gives the same error, through the name `wrong_length_error`.
#[verifier::external_body]
fn invalid_signature_error(sig: &[u8]) -> (r: SecpError)
    ensures
        r == wrong_length_error(sig@),
{
    SecpError::InvalidSignature
}

/// The recovery id that the header byte of a signature names:
/// `27 + id`, or `31 + id` for a compressed key. A header below 27 names
/// a negative number, which is no recovery id.
pub open spec fn header_recovery_id(header: u8) -> int {
    if header >= 31 {
        header - 31
    } else {
        header - 27
    }
}

/// Whether a 65-byte signature is one that parses: its header names a
/// recovery id from 0 to 3, and the 64 bytes after it are a valid compact
/// signature.
pub open spec fn signature_parses(sig: Seq<u8>) -> bool {
    &&& sig.len() == 65
    &&& 0 <= header_recovery_id(sig[0]) <= 3
    &&& compact_signature_valid(sig.subrange(1, 65))
}

/// What parsing a signature gives: the error for a wrong length, the
/// error for a header that names no recovery id, or what the compact
/// parser gives for the 64 bytes after the header with that id.
pub open spec fn signature_parse(sig: Seq<u8>) -> Result<RecoverableSignature, SecpError> {
    if sig.len() != 65 {
        Err(wrong_length_error(sig))
    } else {
        match recovery_id_parse(header_recovery_id(sig[0])) {
            Ok(id) => compact_parse(sig.subrange(1, 65), id),
            Err(e) => Err(e),
        }
    }
}

/// Parses a 65-byte signature: a header byte naming the recovery id,
/// followed by the 64-byte compact signature.
pub fn parse_recoverable_signature(sig: &[u8]) -> (r: Result<RecoverableSignature, SecpError>)
    ensures
        r is Ok <==> signature_parses(sig@),
        r == signature_parse(sig@),
{
    if sig.len() != 65 {
        return Err(invalid_signature_error(sig));
    }
    let header = sig[0];
    let id: i32 = if header >= 31 {
        header as i32 - 31
    } else {
        header as i32 - 27
    };
    let rec_id = match recovery_id_from_i32(id) {
        Ok(r) => r,
        Err(e) => return Err(e),
    };
    let compact = vstd::slice::slice_subrange(sig, 1, 65);
    recoverable_from_compact(compact, rec_id)
}

// ----------------------------------------------------------------------
// Text
// ----------------------------------------------------------------------

/// The Unicode normalization form C of a text.
pub uninterp spec fn nfc(text: Seq<char>) -> Seq<char>;

/// Calls the `nfc` adaptor of `unicode_normalization` and collects its
/// characters: canonical decomposition followed by canonical composition.
#[verifier::external_body]
pub(crate) fn normalize_nfc(text: &str) -> (r: String)
    ensures
        r@ == nfc(text@),
{
    text.nfc().collect::<String>()
}

/// The decimal digits of a number, most significant first, without leading
/// zeros (`"0"` for zero).
pub open spec fn decimal(n: nat) -> Seq<char>
    decreases n,
{
    if n < 10 {
        seq![(n + 48) as char]
    } else {
        decimal(n / 10).push(((n % 10) + 48) as char)
    }
}

/// The text of one decimal digit.
fn digit_text(d: usize) -> (r: &'static str)
    requires
        d < 10,
    ensures
        r@ == seq![(d + 48) as char],
{
    proof {
        reveal_strlit("0");
        reveal_strlit("1");
        reveal_strlit("2");
        reveal_strlit("3");
        reveal_strlit("4");
        reveal_strlit("5");
        reveal_strlit("6");
        reveal_strlit("7");
        reveal_strlit("8");
        reveal_strlit("9");
    }
    match d {
        0 => "0",
        1 => "1",
        2 => "2",
        3 => "3",
        4 => "4",
        5 => "5",
        6 => "6",
        7 => "7",
        8 => "8",
        _ => "9",
    }
}

/// Writes a number in decimal, as `to_string` does.
pub fn decimal_text(n: usize) -> (r: String)
    ensures
        r@ == decimal(n as nat),
    decreases n,
{
    if n < 10 {
        digit_text(n).to_owned()
    } else {
        let mut s = decimal_text(n / 10);
        s.append(digit_text(n % 10));
        s
    }
}

} // verus!
