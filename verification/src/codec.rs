//! Decoding of oracle-fetched bytes through the consensus codec crates.
//!
//! Every function here is a trusted wrapper around one outside decoding
//! routine.  Each result is a pure function of the input bytes, so it is
//! given a name (an uninterpreted spec function) that the wrapper's
//! contract ties the returned value to; the verified logic above speaks
//! of those names exactly.

use vstd::prelude::*;

use alloy_eips::eip2718::Decodable2718;
use alloy_rlp::Decodable;
use kona_protocol::L1BlockInfoTx;
use op_alloy_consensus::OpTxEnvelope;

use crate::bytes::{addr_from_bytes, hash256_from_bytes, word256_from_be};
use crate::types::{Header, L1Info, ProviderError};

verus! {

/// A transaction envelope as far as this library reads it: either an
/// L1-attributes deposit carrying its calldata, or any other valid
/// transaction.
#[derive(Clone, Debug, PartialEq)]
pub enum ParsedTx {
    Deposit { input: Vec<u8> },
    Other,
}

/// The mathematical value of a [`ParsedTx`].
pub enum ParsedTxView {
    Deposit { input: Seq<u8> },
    Other,
}

impl View for ParsedTx {
    type V = ParsedTxView;

    open spec fn view(&self) -> ParsedTxView {
        match self {
            ParsedTx::Deposit { input } => ParsedTxView::Deposit { input: input@ },
            ParsedTx::Other => ParsedTxView::Other,
        }
    }
}

/// The header RLP decoding yields for the given bytes, if they parse.
pub uninterp spec fn header_decoded(b: Seq<u8>) -> Option<Header>;

/// The typed-envelope decoding yields for the given bytes, if they
/// parse: the deposit calldata for a deposit, `Other` for any other
/// valid transaction.
pub uninterp spec fn tx_parsed(b: Seq<u8>) -> Option<ParsedTxView>;

/// The L1-attributes values decoded from deposit calldata, if it
/// parses.
pub uninterp spec fn l1_info_decoded(b: Seq<u8>) -> Option<L1Info>;

/// Relies on `alloy_consensus::Header`'s `alloy_rlp::Decodable` impl:
/// the decoded header fields are a function of the input bytes alone.
#[verifier::external_body]
pub(crate) fn decode_header(bytes: &Vec<u8>) -> (r: Result<Header, ProviderError>)
    ensures
        r is Ok <==> header_decoded(bytes@) is Some,
        r is Ok ==> r->Ok_0 == header_decoded(bytes@)->0,
        r is Err ==> r->Err_0 == ProviderError::DecodeError,
{
    let h = match alloy_consensus::Header::decode(&mut bytes.as_slice()) {
        Ok(h) => h,
        Err(_) => return Err(ProviderError::DecodeError),
    };
    Ok(Header {
        number: h.number,
        parent_hash: hash256_from_bytes(&h.parent_hash.0),
        timestamp: h.timestamp,
        transactions_root: hash256_from_bytes(&h.transactions_root.0),
        gas_limit: h.gas_limit,
    })
}

/// Relies on `op_alloy_consensus::OpTxEnvelope::decode_2718`: whether
/// the bytes form a valid typed transaction envelope, and a deposit's
/// calldata, are a function of the bytes alone.
#[verifier::external_body]
pub(crate) fn parse_tx(bytes: &Vec<u8>) -> (r: Option<ParsedTx>)
    ensures
        r is Some <==> tx_parsed(bytes@) is Some,
        r is Some ==> r->0@ == tx_parsed(bytes@)->0,
{
    match OpTxEnvelope::decode_2718(&mut bytes.as_slice()) {
        Err(_) => None,
        Ok(OpTxEnvelope::Deposit(d)) => Some(ParsedTx::Deposit { input: d.input.to_vec() }),
        Ok(_) => Some(ParsedTx::Other),
    }
}

/// Relies on `kona_protocol::L1BlockInfoTx::decode_calldata` and its
/// accessors (`id`, `sequence_number`, `batcher_address`,
/// `l1_fee_overhead`, `l1_fee_scalar`, `blob_base_fee_scalar`): the
/// decoded values are a function of the calldata alone.  For a
/// post-Ecotone transaction both scalar accessors widen a 32-bit
/// field, so those values fit in 32 bits.
#[verifier::external_body]
pub(crate) fn decode_l1_info(bytes: &Vec<u8>) -> (r: Option<L1Info>)
    ensures
        r == l1_info_decoded(bytes@),
        r matches Some(i) ==> (!i.is_bedrock ==> i.fee_scalar.l0 <= 0xFFFFFFFF
            && i.blob_scalar.l0 <= 0xFFFFFFFF),
{
    let i = match L1BlockInfoTx::decode_calldata(bytes) {
        Ok(v) => v, Err(_) => return None,
    };
    let d = i.id();
    Some(L1Info {
        number: d.number, block_hash: hash256_from_bytes(&d.hash.0),
        sequence_number: i.sequence_number(), batcher_address: addr_from_bytes(&i.batcher_address().0.0),
        l1_fee_overhead: word256_from_be(&i.l1_fee_overhead().to_be_bytes::<32>()),
        fee_scalar: word256_from_be(&i.l1_fee_scalar().to_be_bytes::<32>()),
        blob_scalar: word256_from_be(&i.blob_base_fee_scalar().to_be_bytes::<32>()),
        is_bedrock: matches!(i, L1BlockInfoTx::Bedrock(_)),
    })
}

} // verus!
