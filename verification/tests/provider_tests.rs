//! End-to-end scenarios for the oracle-backed chain provider, run
//! against real consensus encodings: headers are RLP-encoded with the
//! consensus codec, transactions are typed-envelope encoded, and
//! L1-attributes calldata is produced by the protocol codec.

use alloy_eips::eip2718::Encodable2718;
use alloy_primitives::{Address, Bytes, Sealable, TxKind, B256, U256};

use client_utils::bytes::{addr_from_bytes, hash256_from_bytes, word256_from_be};
use client_utils::provider::MultiblockOracleL2ChainProvider;
use client_utils::stores::{Oracle, TrieWalker};
use client_utils::types::{
    BlockId, BootInfo, Hash256, KeyKind, Payload, PreimageKey, ProviderError, RollupConfig,
    SealedHeader, SystemConfig, Word256,
};

fn h256(b: u8) -> Hash256 {
    hash256_from_bytes(&[b; 32])
}

fn kkey(h: Hash256) -> PreimageKey {
    PreimageKey { kind: KeyKind::Keccak256, hash: h }
}

fn encode_header(
    number: u64,
    parent: [u8; 32],
    timestamp: u64,
    tx_root: [u8; 32],
    gas: u64,
) -> Vec<u8> {
    let h = alloy_consensus::Header {
        number,
        parent_hash: B256::from(parent),
        timestamp,
        transactions_root: B256::from(tx_root),
        gas_limit: gas,
        ..Default::default()
    };
    alloy_rlp::encode(&h)
}

fn deposit_tx_bytes(calldata: Vec<u8>) -> Vec<u8> {
    let tx = op_alloy_consensus::TxDeposit {
        source_hash: B256::ZERO,
        from: Address::ZERO,
        to: TxKind::Call(Address::ZERO),
        mint: 0,
        value: U256::ZERO,
        gas_limit: 1_000_000,
        is_system_transaction: false,
        input: Bytes::from(calldata),
    };
    let env = op_alloy_consensus::OpTxEnvelope::Deposit(tx.seal_slow());
    env.encoded_2718()
}

fn bedrock_calldata() -> Vec<u8> {
    let info = kona_protocol::L1BlockInfoBedrock {
        number: 77,
        time: 1000,
        base_fee: 7,
        block_hash: B256::from([9u8; 32]),
        sequence_number: 4,
        batcher_address: Address::from([0xAA; 20]),
        l1_fee_overhead: U256::from(11u64),
        l1_fee_scalar: U256::from(12u64),
    };
    info.encode_calldata().to_vec()
}

fn test_config() -> RollupConfig {
    RollupConfig {
        genesis_l1: BlockId { hash: h256(0xF1), number: 70 },
        genesis_l2: BlockId { hash: h256(0xF2), number: 0 },
        genesis_system_config: None,
        canyon_time: Some(500),
    }
}

fn test_boot(output_root: Hash256) -> BootInfo {
    BootInfo {
        l1_head: h256(0xE1),
        l2_output_root: output_root,
        l2_claim: h256(0xE2),
        l2_claim_block: 6,
        chain_id: 10,
        rollup_config: test_config(),
    }
}

/// A chain of headers 3 <- 4 <- 5, the head (block 5) named by the
/// output root preimage, and a transactions trie for block 5 holding
/// one deposit transaction.
fn test_provider(tx_leaves: Vec<Vec<u8>>) -> MultiblockOracleL2ChainProvider {
    let output_root = h256(0x10);
    let h3 = h256(3);
    let h4 = h256(4);
    let h5 = h256(5);
    let tx_root = h256(0x55);

    let header3 = encode_header(3, [0x02; 32], 900, [0x33; 32], 30_000_000);
    let header4 = encode_header(4, [3; 32], 950, [0x44; 32], 30_000_000);
    let header5 = encode_header(5, [4; 32], 1000, [0x55; 32], 30_000_000);

    let mut preimage = vec![0u8; 128];
    preimage[96..128].copy_from_slice(&[5; 32]);

    let entries = vec![
        (kkey(output_root), preimage),
        (kkey(h3), header3),
        (kkey(h4), header4),
        (kkey(h5), header5),
    ];
    let oracle = Oracle::new(entries);
    let walker = TrieWalker::new(vec![(tx_root, tx_leaves)]);
    MultiblockOracleL2ChainProvider::new(test_boot(output_root), oracle, walker)
}

#[test]
fn header_by_hash_decodes_and_seals() {
    let mut provider = test_provider(vec![]);
    let sealed = provider.header_by_hash(h256(4)).unwrap();
    assert_eq!(sealed.hash, h256(4));
    assert_eq!(sealed.header.number, 4);
    assert_eq!(sealed.header.timestamp, 950);
    assert_eq!(sealed.header.parent_hash, h256(3));
    assert_eq!(sealed.header.gas_limit, 30_000_000);
}

#[test]
fn header_by_hash_missing_is_oracle_error() {
    let mut provider = test_provider(vec![]);
    assert_eq!(provider.header_by_hash(h256(0x77)), Err(ProviderError::OracleError));
}

#[test]
fn header_by_hash_undecodable_bytes_is_decode_error() {
    let oracle = Oracle::new(vec![(kkey(h256(0x31)), vec![0x01, 0x02])]);
    let walker = TrieWalker::new(vec![]);
    let mut provider =
        MultiblockOracleL2ChainProvider::new(test_boot(h256(0x10)), oracle, walker);
    assert_eq!(provider.header_by_hash(h256(0x31)), Err(ProviderError::DecodeError));
}

#[test]
fn header_by_number_walks_back_to_requested_number() {
    let mut provider = test_provider(vec![]);
    let sealed = provider.header_by_number(3).unwrap();
    assert_eq!(sealed.header.number, 3);
    assert_eq!(sealed.hash, h256(3));
}

#[test]
fn header_by_number_beyond_head_is_range_error() {
    let mut provider = test_provider(vec![]);
    assert_eq!(provider.header_by_number(6), Err(ProviderError::RangeError));
}

#[test]
fn header_by_number_is_idempotent() {
    let mut provider = test_provider(vec![]);
    let first = provider.header_by_number(4).unwrap();
    let second = provider.header_by_number(4).unwrap();
    assert_eq!(first, second);
}

#[test]
fn payload_by_number_assembles_block() {
    let leaf = deposit_tx_bytes(bedrock_calldata());
    let mut provider = test_provider(vec![leaf.clone()]);
    let payload = provider.payload_by_number(5).unwrap();
    assert_eq!(payload.block_number, 5);
    assert_eq!(payload.block_hash, h256(5));
    assert_eq!(payload.parent_hash, h256(4));
    assert_eq!(payload.timestamp, 1000);
    assert_eq!(payload.transactions, vec![leaf]);
    // Canyon activates at 500, the header timestamp is 1000.
    assert!(payload.has_withdrawals);
}

#[test]
fn payload_by_number_cached_lookup_is_byte_identical() {
    let leaf = deposit_tx_bytes(bedrock_calldata());
    let mut provider = test_provider(vec![leaf]);
    let first = provider.payload_by_number(5).unwrap();
    let second = provider.payload_by_number(5).unwrap();
    assert_eq!(first, second);
}

#[test]
fn payload_with_malformed_leaf_fails_and_caches_nothing() {
    let good = deposit_tx_bytes(bedrock_calldata());
    let mut provider = test_provider(vec![good, vec![0xFF, 0x00, 0x01]]);
    assert_eq!(provider.payload_by_number(5), Err(ProviderError::DecodeError));
    // Nothing was cached: the lookup fails again rather than serving a
    // partial payload.
    assert_eq!(provider.payload_by_number(5), Err(ProviderError::DecodeError));
}

#[test]
fn header_walk_rejects_non_decreasing_parent() {
    // Block 5's parent resolves to a header whose number does not
    // decrease: the walk reports malformed chain data instead of
    // looping.
    let output_root = h256(0x10);
    let h5 = h256(5);
    let h4 = h256(4);
    let header5 = encode_header(5, [4; 32], 1000, [0x55; 32], 30_000_000);
    let bogus_parent = encode_header(9, [3; 32], 950, [0x44; 32], 30_000_000);
    let mut preimage = vec![0u8; 128];
    preimage[96..128].copy_from_slice(&[5; 32]);
    let oracle = Oracle::new(vec![
        (kkey(output_root), preimage),
        (kkey(h5), header5),
        (kkey(h4), bogus_parent),
    ]);
    let walker = TrieWalker::new(vec![]);
    let mut provider =
        MultiblockOracleL2ChainProvider::new(test_boot(output_root), oracle, walker);
    assert_eq!(provider.header_by_number(2), Err(ProviderError::DecodeError));
}

#[test]
fn l2_block_info_reads_l1_attributes_deposit() {
    let leaf = deposit_tx_bytes(bedrock_calldata());
    let mut provider = test_provider(vec![leaf]);
    let info = provider.l2_block_info_by_number(5).unwrap();
    assert_eq!(info.block_info.number, 5);
    assert_eq!(info.block_info.hash, h256(5));
    assert_eq!(info.l1_origin.number, 77);
    assert_eq!(info.l1_origin.hash, hash256_from_bytes(&[9u8; 32]));
    assert_eq!(info.seq_num, 4);
}

#[test]
fn system_config_from_bedrock_attributes() {
    let leaf = deposit_tx_bytes(bedrock_calldata());
    let mut provider = test_provider(vec![leaf]);
    let cfg = test_config();
    let sc = provider.system_config_by_number(5, &cfg).unwrap();
    assert_eq!(sc.batcher_address, addr_from_bytes(&[0xAA; 20]));
    assert_eq!(sc.overhead, word256_from_be(&U256::from(11u64).to_be_bytes::<32>()));
    assert_eq!(sc.scalar, word256_from_be(&U256::from(12u64).to_be_bytes::<32>()));
    assert_eq!(sc.gas_limit, 30_000_000);
}

#[test]
fn l2_block_info_without_transactions_is_derivation_error() {
    let mut provider = test_provider(vec![]);
    assert_eq!(provider.l2_block_info_by_number(5), Err(ProviderError::DerivationError));
}

#[test]
fn commit_populates_all_caches_and_serves_them() {
    let leaf = deposit_tx_bytes(bedrock_calldata());
    // A provider with no usable oracle data at all: everything below
    // must be served from the committed values.
    let oracle = Oracle::new(vec![]);
    let walker = TrieWalker::new(vec![]);
    let mut provider =
        MultiblockOracleL2ChainProvider::new(test_boot(h256(0x10)), oracle, walker);

    let header = SealedHeader {
        header: client_utils::types::Header {
            number: 8,
            parent_hash: h256(7),
            timestamp: 1100,
            transactions_root: h256(0x88),
            gas_limit: 30_000_000,
        },
        hash: h256(8),
    };
    let payload = Payload {
        block_hash: h256(8),
        parent_hash: h256(7),
        block_number: 8,
        timestamp: 1100,
        gas_limit: 30_000_000,
        transactions: vec![leaf.clone()],
        has_withdrawals: true,
    };
    let cfg = test_config();
    let info = provider.update_cache(&header, payload.clone(), &cfg).unwrap();
    assert_eq!(info.block_info.number, 8);
    assert_eq!(info.l1_origin.number, 77);
    assert_eq!(info.seq_num, 4);

    // All four caches answer for block 8 without any oracle data.
    assert_eq!(provider.header_by_number(8).unwrap(), header);
    assert_eq!(provider.payload_by_number(8).unwrap(), payload);
    assert_eq!(provider.l2_block_info_by_number(8).unwrap(), info);
    let sc = provider.system_config_by_number(8, &cfg).unwrap();
    let expected = SystemConfig {
        batcher_address: addr_from_bytes(&[0xAA; 20]),
        overhead: word256_from_be(&U256::from(11u64).to_be_bytes::<32>()),
        scalar: word256_from_be(&U256::from(12u64).to_be_bytes::<32>()),
        gas_limit: 30_000_000,
    };
    assert_eq!(sc, expected);
}

#[test]
fn commit_with_failing_transform_inserts_nothing() {
    // A non-genesis payload without transactions cannot be transformed:
    // the commit fails and no cache gains an entry.
    let oracle = Oracle::new(vec![]);
    let walker = TrieWalker::new(vec![]);
    let mut provider =
        MultiblockOracleL2ChainProvider::new(test_boot(h256(0x10)), oracle, walker);
    let header = SealedHeader {
        header: client_utils::types::Header {
            number: 8,
            parent_hash: h256(7),
            timestamp: 1100,
            transactions_root: h256(0x88),
            gas_limit: 30_000_000,
        },
        hash: h256(8),
    };
    let payload = Payload {
        block_hash: h256(8),
        parent_hash: h256(7),
        block_number: 8,
        timestamp: 1100,
        gas_limit: 30_000_000,
        transactions: vec![],
        has_withdrawals: true,
    };
    let cfg = test_config();
    assert_eq!(
        provider.update_cache(&header, payload, &cfg),
        Err(ProviderError::DerivationError)
    );
    // The header cache stayed empty: the lookup still has to resolve
    // through the (empty) oracle and fails there.
    assert_eq!(provider.header_by_number(8), Err(ProviderError::OracleError));
}

#[test]
fn genesis_block_info_comes_from_config() {
    // A payload standing exactly at the configured genesis block.
    let cfg = RollupConfig {
        genesis_l1: BlockId { hash: h256(0xF1), number: 70 },
        genesis_l2: BlockId { hash: h256(0xF2), number: 3 },
        genesis_system_config: Some(SystemConfig {
            batcher_address: addr_from_bytes(&[1; 20]),
            overhead: Word256 { l0: 1, l1: 0, l2: 0, l3: 0 },
            scalar: Word256 { l0: 2, l1: 0, l2: 0, l3: 0 },
            gas_limit: 5,
        }),
        canyon_time: None,
    };
    let payload = Payload {
        block_hash: h256(0xF2),
        parent_hash: h256(2),
        block_number: 3,
        timestamp: 900,
        gas_limit: 30_000_000,
        transactions: vec![],
        has_withdrawals: false,
    };
    let info = client_utils::transform::payload_to_l2_block_info(&payload, &cfg).unwrap();
    assert_eq!(info.l1_origin, cfg.genesis_l1);
    assert_eq!(info.seq_num, 0);
    let sc = client_utils::transform::payload_to_system_config(&payload, &cfg).unwrap();
    assert_eq!(sc, cfg.genesis_system_config.unwrap());
}

#[test]
fn genesis_hash_mismatch_is_derivation_error() {
    let cfg = RollupConfig {
        genesis_l1: BlockId { hash: h256(0xF1), number: 70 },
        genesis_l2: BlockId { hash: h256(0xF2), number: 3 },
        genesis_system_config: None,
        canyon_time: None,
    };
    let payload = Payload {
        block_hash: h256(0xBB),
        parent_hash: h256(2),
        block_number: 3,
        timestamp: 900,
        gas_limit: 30_000_000,
        transactions: vec![],
        has_withdrawals: false,
    };
    assert_eq!(
        client_utils::transform::payload_to_l2_block_info(&payload, &cfg),
        Err(ProviderError::DerivationError)
    );
}

#[test]
fn trie_node_and_bytecode_fetches() {
    let code_hash = h256(0x21);
    let node_hash = h256(0x22);
    let oracle = Oracle::new(vec![
        (kkey(code_hash), vec![0x60, 0x60]),
        (kkey(node_hash), vec![0x01, 0x02, 0x03]),
    ]);
    let walker = TrieWalker::new(vec![]);
    let mut provider =
        MultiblockOracleL2ChainProvider::new(test_boot(h256(0x10)), oracle, walker);
    assert_eq!(provider.trie_node_preimage(node_hash).unwrap(), vec![0x01, 0x02, 0x03]);
    assert_eq!(provider.bytecode_by_hash(code_hash).unwrap(), vec![0x60, 0x60]);
    assert_eq!(provider.trie_node_preimage(h256(0x23)), Err(ProviderError::OracleError));
    assert!(provider.hint_trie_node(node_hash).is_ok());
    assert!(provider.hint_account_proof(addr_from_bytes(&[2; 20]), 5).is_ok());
    assert!(provider
        .hint_storage_proof(addr_from_bytes(&[2; 20]), Word256 { l0: 1, l1: 0, l2: 0, l3: 0 }, 5)
        .is_ok());
}
