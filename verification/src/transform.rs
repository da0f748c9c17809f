//! Pure, oracle-free transforms from a payload to the L2 block info
//! and system configuration derived from it, plus value copies for the
//! payload types.
//!
//! For the rollup's genesis block both transforms come from the rollup
//! configuration; for any later block they come from the block's first
//! transaction, which must be an L1-attributes deposit whose calldata
//! decodes.  Any failure is a `DerivationError` for the lookup that
//! triggered it.

use vstd::prelude::*;

use crate::bytes::copy_byte_lists;
use crate::codec::{decode_l1_info, l1_info_decoded, parse_tx, tx_parsed, ParsedTx, ParsedTxView};
use crate::types::{
    BlockId, BlockInfo, L1Info, L2BlockInfo, Payload, PayloadView, ProviderError, RollupConfig,
    SystemConfig, Word256,
};

verus! {

/// Copies a payload; the copy holds the same value.
pub fn clone_payload(p: &Payload) -> (r: Payload)
    ensures
        r@ == p@,
{
    Payload {
        block_hash: p.block_hash,
        parent_hash: p.parent_hash,
        block_number: p.block_number,
        timestamp: p.timestamp,
        gas_limit: p.gas_limit,
        transactions: copy_byte_lists(&p.transactions),
        has_withdrawals: p.has_withdrawals,
    }
}

/// The block info carried by a payload.
pub open spec fn spec_block_info_of(p: PayloadView) -> BlockInfo {
    BlockInfo {
        hash: p.block_hash,
        number: p.block_number,
        parent_hash: p.parent_hash,
        timestamp: p.timestamp,
    }
}

/// The L1-attributes values of a payload's first transaction, if that
/// transaction is a deposit whose calldata decodes.
pub open spec fn spec_l1_info_of(p: PayloadView) -> Option<L1Info> {
    if p.transactions.len() == 0 {
        None
    } else {
        match tx_parsed(p.transactions[0]) {
            Some(ParsedTxView::Deposit { input }) => l1_info_decoded(input),
            _ => None,
        }
    }
}

/// The fee scalar in force: a pre-Ecotone info transaction carries it
/// directly; afterwards it is re-encoded from the base-fee and
/// blob-base-fee scalars under the versioned leading byte.
pub open spec fn spec_scalar_of(info: L1Info) -> Word256 {
    if info.is_bedrock {
        info.fee_scalar
    } else {
        Word256 {
            l0: ((info.blob_scalar.l0 * 0x100000000 + info.fee_scalar.l0) as int) as u64,
            l1: 0,
            l2: 0,
            l3: 0x0100000000000000,
        }
    }
}

/// The L2 block info derived from a payload: the genesis block takes
/// its L1 origin from the rollup configuration (its hash must match
/// the configured genesis); any other block takes origin and sequence
/// number from its L1-attributes deposit.
pub open spec fn spec_info_from_payload(p: PayloadView, cfg: RollupConfig) -> Result<
    L2BlockInfo,
    ProviderError,
> {
    if p.block_number == cfg.genesis_l2.number {
        if p.block_hash != cfg.genesis_l2.hash {
            Err(ProviderError::DerivationError)
        } else {
            Ok(L2BlockInfo { block_info: spec_block_info_of(p), l1_origin: cfg.genesis_l1, seq_num: 0 })
        }
    } else {
        match spec_l1_info_of(p) {
            Some(info) => Ok(
                L2BlockInfo {
                    block_info: spec_block_info_of(p),
                    l1_origin: BlockId { hash: info.block_hash, number: info.number },
                    seq_num: info.sequence_number,
                },
            ),
            None => Err(ProviderError::DerivationError),
        }
    }
}

/// The system configuration derived from a payload: the genesis block
/// takes the configured genesis system configuration; any other block
/// takes batcher address, overhead and fee scalar from its
/// L1-attributes deposit and the gas limit from its header.
pub open spec fn spec_config_from_payload(p: PayloadView, cfg: RollupConfig) -> Result<
    SystemConfig,
    ProviderError,
> {
    if p.block_number == cfg.genesis_l2.number {
        if p.block_hash != cfg.genesis_l2.hash {
            Err(ProviderError::DerivationError)
        } else {
            match cfg.genesis_system_config {
                Some(sc) => Ok(sc),
                None => Err(ProviderError::DerivationError),
            }
        }
    } else {
        match spec_l1_info_of(p) {
            Some(info) => Ok(
                SystemConfig {
                    batcher_address: info.batcher_address,
                    overhead: info.l1_fee_overhead,
                    scalar: spec_scalar_of(info),
                    gas_limit: p.gas_limit,
                },
            ),
            None => Err(ProviderError::DerivationError),
        }
    }
}

/// Extracts the L1-attributes values from a payload's first
/// transaction.
fn l1_info_of(p: &Payload) -> (r: Option<L1Info>)
    ensures
        r == spec_l1_info_of(p@),
        r matches Some(i) ==> (!i.is_bedrock ==> i.fee_scalar.l0 <= 0xFFFFFFFF
            && i.blob_scalar.l0 <= 0xFFFFFFFF),
{
    if p.transactions.len() == 0 {
        return None;
    }
    proof {
        assert(p@.transactions[0] == p.transactions@[0]@);
    }
    match parse_tx(&p.transactions[0]) {
        Some(ParsedTx::Deposit { input }) => decode_l1_info(&input),
        _ => None,
    }
}

/// The effective fee scalar of an L1-attributes transaction.
fn effective_scalar(info: &L1Info) -> (w: Word256)
    requires
        !info.is_bedrock ==> info.fee_scalar.l0 <= 0xFFFFFFFF && info.blob_scalar.l0
            <= 0xFFFFFFFF,
    ensures
        w == spec_scalar_of(*info),
{
    if info.is_bedrock {
        info.fee_scalar
    } else {
        Word256 {
            l0: info.blob_scalar.l0 * 0x100000000 + info.fee_scalar.l0,
            l1: 0,
            l2: 0,
            l3: 0x0100000000000000,
        }
    }
}

/// Derives the L2 block info a payload stands for.
pub fn payload_to_l2_block_info(p: &Payload, cfg: &RollupConfig) -> (r: Result<
    L2BlockInfo,
    ProviderError,
>)
    ensures
        r == spec_info_from_payload(p@, *cfg),
{
    let block_info = BlockInfo {
        hash: p.block_hash,
        number: p.block_number,
        parent_hash: p.parent_hash,
        timestamp: p.timestamp,
    };
    if p.block_number == cfg.genesis_l2.number {
        if p.block_hash != cfg.genesis_l2.hash {
            return Err(ProviderError::DerivationError);
        }
        return Ok(L2BlockInfo { block_info, l1_origin: cfg.genesis_l1, seq_num: 0 });
    }
    match l1_info_of(p) {
        Some(info) => Ok(
            L2BlockInfo {
                block_info,
                l1_origin: BlockId { hash: info.block_hash, number: info.number },
                seq_num: info.sequence_number,
            },
        ),
        None => Err(ProviderError::DerivationError),
    }
}

/// Derives the system configuration in force at a payload's block.
pub fn payload_to_system_config(p: &Payload, cfg: &RollupConfig) -> (r: Result<
    SystemConfig,
    ProviderError,
>)
    ensures
        r == spec_config_from_payload(p@, *cfg),
{
    if p.block_number == cfg.genesis_l2.number {
        if p.block_hash != cfg.genesis_l2.hash {
            return Err(ProviderError::DerivationError);
        }
        return match cfg.genesis_system_config {
            Some(sc) => Ok(sc),
            None => Err(ProviderError::DerivationError),
        };
    }
    match l1_info_of(p) {
        Some(info) => Ok(
            SystemConfig {
                batcher_address: info.batcher_address,
                overhead: info.l1_fee_overhead,
                scalar: effective_scalar(&info),
                gas_limit: p.gas_limit,
            },
        ),
        None => Err(ProviderError::DerivationError),
    }
}

} // verus!
