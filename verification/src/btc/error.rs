//! Errors of the Bitcoin application.

use vstd::prelude::*;

use ::bitcoin::consensus::encode::Error as ConsensusError;
use ::bitcoin::util::base58::Error as Base58Error;
use secp256k1::Error as SecpError;

use crate::error::{is_message_of as is_client_message_of, Error};
use crate::transport::error::prefixed;

verus! {

/// An error of base58 decoding, carried through unread.
#[verifier::external_type_specification]
#[verifier::external_body]
pub struct ExBase58Error(Base58Error);

/// An error of the consensus encoding, carried through unread.
#[verifier::external_type_specification]
#[verifier::external_body]
pub struct ExConsensusError(ConsensusError);

/// An error of the elliptic-curve library, carried through unread.
#[verifier::external_type_specification]
#[verifier::external_body]
pub struct ExSecpError(SecpError);

/// What can go wrong in the Bitcoin application.
#[derive(Debug)]
pub enum BtcError {
    /// Error in Base58 decoding.
    Base58(Base58Error),
    /// The device referenced an unknown transaction id.
    TxRequestUnknownTxid(Vec<u8>),
    /// The PSBT is missing the full transaction for a given input.
    PsbtMissingInputTx(Vec<u8>),
    /// Error encoding or decoding a Bitcoin data structure.
    BitcoinEncode(ConsensusError),
    /// Elliptic curve crypto error.
    Secp256k1(SecpError),
    /// An error of the client.
    Client(Error),
}

impl From<Error> for BtcError {
    fn from(e: Error) -> (r: BtcError) {
        BtcError::Client(e)
    }
}

impl vstd::std_specs::convert::FromSpecImpl<Error> for BtcError {
    open spec fn obeys_from_spec() -> bool {
        true
    }

    open spec fn from_spec(e: Error) -> BtcError {
        BtcError::Client(e)
    }
}

impl From<Base58Error> for BtcError {
    fn from(e: Base58Error) -> (r: BtcError) {
        BtcError::Base58(e)
    }
}

impl vstd::std_specs::convert::FromSpecImpl<Base58Error> for BtcError {
    open spec fn obeys_from_spec() -> bool {
        true
    }

    open spec fn from_spec(e: Base58Error) -> BtcError {
        BtcError::Base58(e)
    }
}

impl From<ConsensusError> for BtcError {
    fn from(e: ConsensusError) -> (r: BtcError) {
        BtcError::BitcoinEncode(e)
    }
}

impl vstd::std_specs::convert::FromSpecImpl<ConsensusError> for BtcError {
    open spec fn obeys_from_spec() -> bool {
        true
    }

    open spec fn from_spec(e: ConsensusError) -> BtcError {
        BtcError::BitcoinEncode(e)
    }
}

impl From<SecpError> for BtcError {
    fn from(e: SecpError) -> (r: BtcError) {
        BtcError::Secp256k1(e)
    }
}

impl vstd::std_specs::convert::FromSpecImpl<SecpError> for BtcError {
    open spec fn obeys_from_spec() -> bool {
        true
    }

    open spec fn from_spec(e: SecpError) -> BtcError {
        BtcError::Secp256k1(e)
    }
}


/// The lowercase hexadecimal digit of a number below 16.
pub open spec fn hex_digit(d: int) -> char {
    if d < 10 {
        (d + 48) as char
    } else {
        (d + 87) as char
    }
}

/// Bytes in lowercase hexadecimal, last byte first: how a double-SHA256
/// hash, such as a transaction id, is written.
pub open spec fn hex_reversed(bytes: Seq<u8>) -> Seq<char>
    decreases bytes.len(),
{
    if bytes.len() == 0 {
        Seq::empty()
    } else {
        hex_reversed(bytes.drop_first()) + seq![hex_digit((bytes[0] / 16) as int), hex_digit((bytes[0] % 16) as int)]
    }
}

fn hex_digit_text(d: u8) -> (r: &'static str)
    requires
        d < 16,
    ensures
        r@ == seq![hex_digit(d as int)],
{
    proof {
        reveal_strlit("0");
        reveal_strlit("1");
        reveal_strlit("2");
        reveal_strlit("3");
        reveal_strlit("4");
        reveal_strlit("5");
        reveal_strlit("6");
        reveal_strlit("7");
        reveal_strlit("8");
        reveal_strlit("9");
        reveal_strlit("a");
        reveal_strlit("b");
        reveal_strlit("c");
        reveal_strlit("d");
        reveal_strlit("e");
        reveal_strlit("f");
    }
    match d {
        0 => "0",
        1 => "1",
        2 => "2",
        3 => "3",
        4 => "4",
        5 => "5",
        6 => "6",
        7 => "7",
        8 => "8",
        9 => "9",
        10 => "a",
        11 => "b",
        12 => "c",
        13 => "d",
        14 => "e",
        _ => "f",
    }
}

/// Writes a hash as its `Display` does: in hexadecimal, last byte first.
pub fn hash_text(bytes: &[u8]) -> (r: String)
    ensures
        r@ == hex_reversed(bytes@),
{
    let mut s = String::new();
    let mut i: usize = bytes.len();
    proof {
        assert(bytes@.subrange(i as int, bytes@.len() as int) =~= Seq::<u8>::empty());
    }
    while i > 0
        invariant
            i <= bytes@.len(),
            s@ == hex_reversed(bytes@.subrange(i as int, bytes@.len() as int)),
        decreases i,
    {
        let b = bytes[i - 1];
        s.append(hex_digit_text(b / 16));
        s.append(hex_digit_text(b % 16));
        proof {
            let tail = bytes@.subrange(i - 1, bytes@.len() as int);
            assert(tail.drop_first() =~= bytes@.subrange(i as int, bytes@.len() as int));
            assert(tail[0] == b);
        }
        i = i - 1;
    }
    proof {
        assert(bytes@.subrange(0, bytes@.len() as int) =~= bytes@);
    }
    s
}

/// Calls the `Display` of a base58 error; the text it writes is not stated.
#[verifier::external_body]
fn base58_error_text(e: &Base58Error) -> String {
    e.to_string()
}

/// Calls the `Display` of a consensus-encoding error; the text it writes is
/// not stated.
#[verifier::external_body]
fn consensus_error_text(e: &ConsensusError) -> String {
    e.to_string()
}

/// Calls the `Display` of an elliptic-curve library error; the text it
/// writes is not stated.
#[verifier::external_body]
fn secp_error_text(e: &SecpError) -> String {
    e.to_string()
}

/// Whether `text` is the message of `e`: a fixed beginning followed by the
/// detail, which for an unknown or missing transaction is its id as a hash
/// is written; an error of the client has the client's message.
pub open spec fn is_message_of(e: &BtcError, text: Seq<char>) -> bool {
    match e {
        BtcError::Base58(_) => "Error in Base58 decoding: "@.is_prefix_of(text),
        BtcError::TxRequestUnknownTxid(h) => text == "The device referenced an unknown TXID: "@
            + hex_reversed(h@),
        BtcError::PsbtMissingInputTx(h) => text
            == "The PSBT is missing the full tx for given input: "@ + hex_reversed(h@),
        BtcError::BitcoinEncode(_) => "Error encoding/decoding a Bitcoin data structure: "@.is_prefix_of(
            text,
        ),
        BtcError::Secp256k1(_) => "Elliptic curve crypto error: "@.is_prefix_of(text),
        BtcError::Client(c) => is_client_message_of(c, text),
    }
}

impl BtcError {
    /// The message that describes this error.
    pub fn message(&self) -> (r: String)
        ensures
            is_message_of(self, r@),
    {
        match self {
            BtcError::Base58(e) => prefixed(
                "Error in Base58 decoding: ",
                base58_error_text(e).as_str(),
            ),
            BtcError::TxRequestUnknownTxid(h) => prefixed(
                "The device referenced an unknown TXID: ",
                hash_text(h.as_slice()).as_str(),
            ),
            BtcError::PsbtMissingInputTx(h) => prefixed(
                "The PSBT is missing the full tx for given input: ",
                hash_text(h.as_slice()).as_str(),
            ),
            BtcError::BitcoinEncode(e) => prefixed(
                "Error encoding/decoding a Bitcoin data structure: ",
                consensus_error_text(e).as_str(),
            ),
            BtcError::Secp256k1(e) => prefixed(
                "Elliptic curve crypto error: ",
                secp_error_text(e).as_str(),
            ),
            BtcError::Client(c) => c.message(),
        }
    }
}

} // verus!
