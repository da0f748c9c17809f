//! Scenarios for the derivation driver: startup discovery against a
//! populated oracle, the harvest of prepared attributes up to the
//! claim block, and the non-fatal handling of every other step
//! outcome.

use alloy_eips::eip2718::Encodable2718;
use alloy_primitives::{Address, Bytes, Sealable, TxKind, B256, U256};

use client_utils::bytes::hash256_from_bytes;
use client_utils::driver::{find_startup_info, MultiBlockDerivationDriver};
use client_utils::provider::MultiblockOracleL2ChainProvider;
use client_utils::stores::{L1BlockTable, Oracle, TrieWalker};
use client_utils::types::{
    AttributesWithParent, BlockId, BlockInfo, BootInfo, Hash256, KeyKind, L2BlockInfo,
    PayloadAttributes, PreimageKey, ProviderError, RollupConfig, SealedHeader, StageError,
    StepOutcome,
};

fn h256(b: u8) -> Hash256 {
    hash256_from_bytes(&[b; 32])
}

fn kkey(h: Hash256) -> PreimageKey {
    PreimageKey { kind: KeyKind::Keccak256, hash: h }
}

fn encode_header(number: u64, parent: [u8; 32], timestamp: u64, tx_root: [u8; 32]) -> Vec<u8> {
    let h = alloy_consensus::Header {
        number,
        parent_hash: B256::from(parent),
        timestamp,
        transactions_root: B256::from(tx_root),
        gas_limit: 30_000_000,
        ..Default::default()
    };
    alloy_rlp::encode(&h)
}

fn deposit_tx_bytes() -> Vec<u8> {
    let info = kona_protocol::L1BlockInfoBedrock {
        number: 77,
        time: 1000,
        base_fee: 7,
        block_hash: B256::from([9u8; 32]),
        sequence_number: 4,
        batcher_address: Address::from([0xAA; 20]),
        l1_fee_overhead: U256::from(11u64),
        l1_fee_scalar: U256::from(12u64),
    };
    let tx = op_alloy_consensus::TxDeposit {
        source_hash: B256::ZERO,
        from: Address::ZERO,
        to: TxKind::Call(Address::ZERO),
        mint: 0,
        value: U256::ZERO,
        gas_limit: 1_000_000,
        is_system_transaction: false,
        input: Bytes::from(info.encode_calldata().to_vec()),
    };
    op_alloy_consensus::OpTxEnvelope::Deposit(tx.seal_slow()).encoded_2718()
}

fn test_boot(output_root: Hash256) -> BootInfo {
    BootInfo {
        l1_head: h256(0xE1),
        l2_output_root: output_root,
        l2_claim: h256(0xE2),
        l2_claim_block: 6,
        chain_id: 10,
        rollup_config: RollupConfig {
            genesis_l1: BlockId { hash: h256(0xF1), number: 70 },
            genesis_l2: BlockId { hash: h256(0xF2), number: 0 },
            genesis_system_config: None,
            canyon_time: Some(500),
        },
    }
}

/// A provider whose head (block 5) is named by the output root, with a
/// single-deposit transactions trie, and an L1 table resolving the
/// deposit's recorded origin number.
fn startup_fixture() -> (MultiblockOracleL2ChainProvider, L1BlockTable) {
    let output_root = h256(0x10);
    let h5 = h256(5);
    let tx_root = h256(0x55);
    let header5 = encode_header(5, [4; 32], 1000, [0x55; 32]);
    let mut preimage = vec![0u8; 128];
    preimage[96..128].copy_from_slice(&[5; 32]);
    let oracle = Oracle::new(vec![(kkey(output_root), preimage), (kkey(h5), header5)]);
    let walker = TrieWalker::new(vec![(tx_root, vec![deposit_tx_bytes()])]);
    let provider = MultiblockOracleL2ChainProvider::new(test_boot(output_root), oracle, walker);
    let l1_origin = BlockInfo {
        hash: hash256_from_bytes(&[9u8; 32]),
        number: 77,
        parent_hash: h256(0x4C),
        timestamp: 999,
    };
    let l1 = L1BlockTable::new(vec![(77, l1_origin)]);
    (provider, l1)
}

fn attrs_for(block: u64) -> AttributesWithParent {
    AttributesWithParent {
        attributes: PayloadAttributes {
            timestamp: 1000 + block,
            transactions: vec![vec![block as u8]],
            no_tx_pool: true,
            gas_limit: 30_000_000,
        },
        parent: L2BlockInfo {
            block_info: BlockInfo {
                hash: h256(block as u8),
                number: block - 1,
                parent_hash: h256((block - 1) as u8),
                timestamp: 999 + block,
            },
            l1_origin: BlockId { hash: h256(0x4C), number: 77 },
            seq_num: 0,
        },
        is_last_in_span: false,
    }
}

/// A driver positioned at safe head 10 with claim block 11, as the
/// harvest scenarios need; built directly since the pipeline and
/// executor that would advance it live outside the library.
fn driver() -> MultiBlockDerivationDriver {
    MultiBlockDerivationDriver {
        l2_safe_head: attrs_for(10).parent,
        l2_safe_head_header: SealedHeader {
            header: client_utils::types::Header {
                number: 9,
                parent_hash: h256(8),
                timestamp: 1009,
                transactions_root: h256(0x99),
                gas_limit: 30_000_000,
            },
            hash: h256(9),
        },
        l2_claim_block: 11,
    }
}

#[test]
fn find_startup_info_resolves_head_hash_from_output_root() {
    // The output-root preimage's bytes 96..128 name the head hash:
    // the resolved header must be sealed with exactly that hash.
    let (mut provider, mut l1) = startup_fixture();
    let (l1_origin, safe_head, header) = find_startup_info(&mut provider, &mut l1).unwrap();
    assert_eq!(header.hash, hash256_from_bytes(&[5u8; 32]));
    assert_eq!(header.header.number, 5);
    assert_eq!(safe_head.block_info.number, 5);
    assert_eq!(safe_head.l1_origin.number, 77);
    assert_eq!(l1_origin.number, 77);
    assert_eq!(l1_origin.hash, hash256_from_bytes(&[9u8; 32]));
}

#[test]
fn find_startup_info_without_output_root_fails() {
    let (_, mut l1) = startup_fixture();
    let oracle = Oracle::new(vec![]);
    let walker = TrieWalker::new(vec![]);
    let mut provider = MultiblockOracleL2ChainProvider::new(test_boot(h256(0x10)), oracle, walker);
    assert_eq!(find_startup_info(&mut provider, &mut l1), Err(ProviderError::OracleError));
}

#[test]
fn find_startup_info_short_preimage_is_invalid_output_root() {
    let (_, mut l1) = startup_fixture();
    let output_root = h256(0x10);
    let oracle = Oracle::new(vec![(kkey(output_root), vec![0u8; 96])]);
    let walker = TrieWalker::new(vec![]);
    let mut provider =
        MultiblockOracleL2ChainProvider::new(test_boot(output_root), oracle, walker);
    assert_eq!(find_startup_info(&mut provider, &mut l1), Err(ProviderError::InvalidOutputRoot));
}

#[test]
fn new_driver_holds_startup_values() {
    let (mut provider, mut l1) = startup_fixture();
    let (driver, origin) = MultiBlockDerivationDriver::new(&mut provider, &mut l1).unwrap();
    assert_eq!(driver.l2_claim_block, 6);
    assert_eq!(driver.l2_safe_head.block_info.number, 5);
    assert_eq!(driver.l2_safe_head_header.hash, hash256_from_bytes(&[5u8; 32]));
    assert_eq!(origin.number, 77);
    assert_eq!(driver.clone_l2_safe_head_header(), driver.l2_safe_head_header);
}

#[test]
fn produce_payloads_harvests_up_to_claim_block_inclusive() {
    // Attributes for blocks 10, 11, 12 with claim block 11: the run
    // takes attrs(10) and attrs(11) and stops before attrs(12).
    let d = driver();
    let mut queue = vec![attrs_for(10), attrs_for(11), attrs_for(12)];
    let harvested = d.produce_payloads(StepOutcome::PreparedAttributes, &mut queue);
    assert_eq!(harvested, vec![attrs_for(10), attrs_for(11)]);
    assert_eq!(queue, vec![attrs_for(12)]);
}

#[test]
fn produce_payloads_drains_everything_below_claim() {
    let d = driver();
    let mut queue = vec![attrs_for(8), attrs_for(9)];
    let harvested = d.produce_payloads(StepOutcome::PreparedAttributes, &mut queue);
    assert_eq!(harvested, vec![attrs_for(8), attrs_for(9)]);
    assert!(queue.is_empty());
}

#[test]
fn produce_payloads_not_enough_data_returns_empty() {
    let d = driver();
    let mut queue = vec![attrs_for(10)];
    let harvested =
        d.produce_payloads(StepOutcome::StepFailed(StageError::NotEnoughData), &mut queue);
    assert!(harvested.is_empty());
    assert_eq!(queue, vec![attrs_for(10)]);
}

#[test]
fn produce_payloads_other_outcomes_return_empty() {
    let d = driver();
    let mut queue: Vec<AttributesWithParent> = Vec::new();
    assert!(d.produce_payloads(StepOutcome::AdvancedOrigin, &mut queue).is_empty());
    assert!(d
        .produce_payloads(StepOutcome::OriginAdvanceErr(StageError::Other), &mut queue)
        .is_empty());
    assert!(d.produce_payloads(StepOutcome::StepFailed(StageError::Other), &mut queue).is_empty());
}

#[test]
fn update_safe_head_replaces_cursor() {
    let mut d = driver();
    let new_head = attrs_for(10).parent;
    let new_header = SealedHeader {
        header: client_utils::types::Header {
            number: 9,
            parent_hash: h256(8),
            timestamp: 1009,
            transactions_root: h256(0x99),
            gas_limit: 30_000_000,
        },
        hash: h256(9),
    };
    d.update_safe_head(new_head, new_header);
    assert_eq!(d.l2_safe_head, new_head);
    assert_eq!(d.l2_safe_head_header, new_header);
    assert_eq!(d.l2_claim_block, 11);
}
