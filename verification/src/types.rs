//! Plain data model: hashes, headers, block infos, payloads, rollup
//! configuration and the error kinds shared by the provider and driver.

use vstd::prelude::*;

verus! {

/// The sequence of byte-sequence values held by a list of byte vectors.
pub open spec fn views_of(v: Vec<Vec<u8>>) -> Seq<Seq<u8>> {
    Seq::new(v@.len(), |i: int| v@[i]@)
}

/// A 32-byte hash, held as four 64-bit words in big-endian order
/// (`w0` covers bytes 0..8 of the hash, `w3` bytes 24..32).
#[derive(Clone, Copy, Debug, PartialEq, Eq, Structural)]
pub struct Hash256 {
    pub w0: u64,
    pub w1: u64,
    pub w2: u64,
    pub w3: u64,
}

/// The hash domain of a preimage key.
#[derive(Clone, Copy, Debug, PartialEq, Eq, Structural)]
pub enum KeyKind {
    Keccak256,
    Sha256,
    Precompile,
}

/// A typed preimage key: the sole addressing scheme for oracle data.
#[derive(Clone, Copy, Debug, PartialEq, Eq, Structural)]
pub struct PreimageKey {
    pub kind: KeyKind,
    pub hash: Hash256,
}

/// A 20-byte account address: `hi` covers bytes 0..4, `mid` bytes 4..12,
/// `lo` bytes 12..20, each big-endian.
#[derive(Clone, Copy, Debug, PartialEq, Eq, Structural)]
pub struct Addr {
    pub hi: u32,
    pub mid: u64,
    pub lo: u64,
}

/// A 256-bit unsigned quantity held as four 64-bit limbs, least
/// significant limb first.
#[derive(Clone, Copy, Debug, PartialEq, Eq, Structural)]
pub struct Word256 {
    pub l0: u64,
    pub l1: u64,
    pub l2: u64,
    pub l3: u64,
}

/// The fields of an L2 block header that this library reads.
#[derive(Clone, Copy, Debug, PartialEq, Eq, Structural)]
pub struct Header {
    pub number: u64,
    pub parent_hash: Hash256,
    pub timestamp: u64,
    pub transactions_root: Hash256,
    pub gas_limit: u64,
}

/// A header together with the hash it was addressed by.  Headers are
/// sealed with the key they were fetched under; the hash is not
/// recomputed from the header bytes.
#[derive(Clone, Copy, Debug, PartialEq, Eq, Structural)]
pub struct SealedHeader {
    pub header: Header,
    pub hash: Hash256,
}

/// Minimal information about a block.
#[derive(Clone, Copy, Debug, PartialEq, Eq, Structural)]
pub struct BlockInfo {
    pub hash: Hash256,
    pub number: u64,
    pub parent_hash: Hash256,
    pub timestamp: u64,
}

/// A block number together with its hash.
#[derive(Clone, Copy, Debug, PartialEq, Eq, Structural)]
pub struct BlockId {
    pub hash: Hash256,
    pub number: u64,
}

/// Information about an L2 block: its own block info, the L1 origin it
/// was derived from, and its position within the origin's epoch.
#[derive(Clone, Copy, Debug, PartialEq, Eq, Structural)]
pub struct L2BlockInfo {
    pub block_info: BlockInfo,
    pub l1_origin: BlockId,
    pub seq_num: u64,
}

/// The system configuration in force at a given L2 block.
#[derive(Clone, Copy, Debug, PartialEq, Eq, Structural)]
pub struct SystemConfig {
    pub batcher_address: Addr,
    pub overhead: Word256,
    pub scalar: Word256,
    pub gas_limit: u64,
}

/// The values read out of an L1-attributes deposit transaction.
#[derive(Clone, Copy, Debug, PartialEq, Eq, Structural)]
pub struct L1Info {
    pub number: u64,
    pub block_hash: Hash256,
    pub sequence_number: u64,
    pub batcher_address: Addr,
    pub l1_fee_overhead: Word256,
    /// Before Ecotone: the full fee scalar.  Afterwards: the base-fee
    /// scalar, a 32-bit value.
    pub fee_scalar: Word256,
    /// The blob-base-fee scalar, a 32-bit value; zero before Ecotone.
    pub blob_scalar: Word256,
    pub is_bedrock: bool,
}

/// The rollup configuration fields this library consults.
#[derive(Clone, Copy, Debug, PartialEq)]
pub struct RollupConfig {
    pub genesis_l1: BlockId,
    pub genesis_l2: BlockId,
    pub genesis_system_config: Option<SystemConfig>,
    pub canyon_time: Option<u64>,
}

impl RollupConfig {
    /// Whether the Canyon fork is active at the given timestamp.
    pub open spec fn spec_is_canyon_active(self, timestamp: u64) -> bool {
        match self.canyon_time {
            Some(t) => timestamp >= t,
            None => false,
        }
    }

    pub fn is_canyon_active(&self, timestamp: u64) -> (r: bool)
        ensures
            r == self.spec_is_canyon_active(timestamp),
    {
        match self.canyon_time {
            Some(t) => timestamp >= t,
            None => false,
        }
    }
}

/// Immutable configuration fixed at the start of a derivation run.
#[derive(Clone, Copy, Debug, PartialEq)]
pub struct BootInfo {
    pub l1_head: Hash256,
    pub l2_output_root: Hash256,
    pub l2_claim: Hash256,
    pub l2_claim_block: u64,
    pub chain_id: u64,
    pub rollup_config: RollupConfig,
}

/// The error kinds surfaced by the provider and driver.
#[derive(Clone, Copy, Debug, PartialEq, Eq, Structural)]
pub enum ProviderError {
    /// A fetch or hint could not be served.
    OracleError,
    /// Malformed header, transaction or trie bytes.
    DecodeError,
    /// The startup output-root commitment was malformed.
    InvalidOutputRoot,
    /// A block number beyond the known head was requested.
    RangeError,
    /// A payload-to-info or payload-to-config transform failed.
    DerivationError,
}

/// An execution payload envelope: the header fields and raw transaction
/// list reconstructed for one L2 block.
#[derive(Clone, Debug, PartialEq)]
pub struct Payload {
    pub block_hash: Hash256,
    pub parent_hash: Hash256,
    pub block_number: u64,
    pub timestamp: u64,
    pub gas_limit: u64,
    /// The raw, typed-envelope-encoded transactions, in trie order.
    pub transactions: Vec<Vec<u8>>,
    /// Whether an (empty) withdrawals list is part of the block body.
    pub has_withdrawals: bool,
}

/// The mathematical value of a [`Payload`].
pub struct PayloadView {
    pub block_hash: Hash256,
    pub parent_hash: Hash256,
    pub block_number: u64,
    pub timestamp: u64,
    pub gas_limit: u64,
    pub transactions: Seq<Seq<u8>>,
    pub has_withdrawals: bool,
}

impl View for Payload {
    type V = PayloadView;

    open spec fn view(&self) -> PayloadView {
        PayloadView {
            block_hash: self.block_hash,
            parent_hash: self.parent_hash,
            block_number: self.block_number,
            timestamp: self.timestamp,
            gas_limit: self.gas_limit,
            transactions: views_of(self.transactions),
            has_withdrawals: self.has_withdrawals,
        }
    }
}

/// The payload attributes derived for one prospective L2 block.
#[derive(Clone, Debug, PartialEq)]
pub struct PayloadAttributes {
    pub timestamp: u64,
    pub transactions: Vec<Vec<u8>>,
    pub no_tx_pool: bool,
    pub gas_limit: u64,
}

/// The mathematical value of a [`PayloadAttributes`].
pub struct PayloadAttributesView {
    pub timestamp: u64,
    pub transactions: Seq<Seq<u8>>,
    pub no_tx_pool: bool,
    pub gas_limit: u64,
}

impl View for PayloadAttributes {
    type V = PayloadAttributesView;

    open spec fn view(&self) -> PayloadAttributesView {
        PayloadAttributesView {
            timestamp: self.timestamp,
            transactions: views_of(self.transactions),
            no_tx_pool: self.no_tx_pool,
            gas_limit: self.gas_limit,
        }
    }
}

/// Attributes paired with the parent block they build on: the pipeline's
/// unit of output.
#[derive(Clone, Debug, PartialEq)]
pub struct AttributesWithParent {
    pub attributes: PayloadAttributes,
    pub parent: L2BlockInfo,
    pub is_last_in_span: bool,
}

/// The mathematical value of an [`AttributesWithParent`].
pub struct AttributesWithParentView {
    pub attributes: PayloadAttributesView,
    pub parent: L2BlockInfo,
    pub is_last_in_span: bool,
}

impl View for AttributesWithParent {
    type V = AttributesWithParentView;

    open spec fn view(&self) -> AttributesWithParentView {
        AttributesWithParentView {
            attributes: self.attributes@,
            parent: self.parent,
            is_last_in_span: self.is_last_in_span,
        }
    }
}

/// The errors a pipeline stage can report while stepping.
#[derive(Clone, Copy, Debug, PartialEq, Eq, Structural)]
pub enum StageError {
    /// The stage needs more L1 data before it can progress: an
    /// expected, retry-worthy condition.
    NotEnoughData,
    /// Any other stage failure.
    Other,
}

/// The outcome of one derivation-pipeline step.
#[derive(Clone, Copy, Debug, PartialEq, Eq, Structural)]
pub enum StepOutcome {
    /// The pipeline prepared payload attributes that can be drained.
    PreparedAttributes,
    /// The pipeline advanced its L1 origin; no attributes yet.
    AdvancedOrigin,
    /// Advancing the origin failed; retryable.
    OriginAdvanceErr(StageError),
    /// The step itself failed.
    StepFailed(StageError),
}

/// The hints this library emits before fetching, naming the data about
/// to be requested.
#[derive(Clone, Copy, Debug, PartialEq, Eq, Structural)]
pub enum Hint {
    StartingL2Output(Hash256),
    L2BlockHeader(Hash256),
    L2Transactions(Hash256),
    L2Code(Hash256),
    L2StateNode(Hash256),
    L2AccountProof(u64, Addr),
    L2AccountStorageProof(u64, Addr, Word256),
}

} // verus!
