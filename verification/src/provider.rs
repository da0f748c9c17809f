//! The oracle-backed L2 chain provider: answers header, payload,
//! block-info and system-config queries through the hint/fetch oracle
//! and the trie walker, verifies what it returns against the requested
//! commitments, and caches results by block number.
//!
//! Every operation's contract is stated against [`ProviderModel`], the
//! mathematical value of the provider: the content-addressed preimage
//! store, the trie-walker table, and the four number-keyed caches.  A
//! pure mirror function defines both the result and the next model of
//! each lookup, and the executable code is proved to match it.

use vstd::prelude::*;

use crate::bytes::{hash_at, spec_hash_at};
use crate::cache::{NumCache, PayloadCache};
use crate::codec::{decode_header, header_decoded, parse_tx, tx_parsed};
use crate::transform::{
    clone_payload, payload_to_l2_block_info, payload_to_system_config, spec_config_from_payload,
    spec_info_from_payload,
};
use crate::stores::{Oracle, TrieWalker};
use crate::types::{
    Addr, BootInfo, Hash256, Header, Hint, KeyKind, L2BlockInfo, Payload, PayloadView,
    PreimageKey, ProviderError, RollupConfig, SealedHeader, SystemConfig, Word256,
};

verus! {

broadcast use vstd::set::group_set_axioms, vstd::map::group_map_axioms;

/// The keccak-domain preimage key for a hash.
pub open spec fn keccak_key(h: Hash256) -> PreimageKey {
    PreimageKey { kind: KeyKind::Keccak256, hash: h }
}

/// The mathematical value of the provider: boot configuration, the
/// injected oracle and trie tables, and the four caches as maps.
pub struct ProviderModel {
    pub boot: BootInfo,
    pub preimages: Map<PreimageKey, Seq<u8>>,
    pub tries: Map<Hash256, Seq<Seq<u8>>>,
    pub headers: Map<u64, SealedHeader>,
    pub infos: Map<u64, L2BlockInfo>,
    pub payloads: Map<u64, PayloadView>,
    pub configs: Map<u64, SystemConfig>,
}

/// The header resolved for a hash: the keccak preimage of the hash,
/// RLP-decoded and sealed with the hash it was requested under.
pub open spec fn spec_header_at(m: ProviderModel, hash: Hash256) -> Result<
    SealedHeader,
    ProviderError,
> {
    if !m.preimages.contains_key(keccak_key(hash)) {
        Err(ProviderError::OracleError)
    } else {
        match header_decoded(m.preimages[keccak_key(hash)]) {
            Some(h) => Ok(SealedHeader { header: h, hash }),
            None => Err(ProviderError::DecodeError),
        }
    }
}

/// The safe head resolved from the boot configuration's output root:
/// the root's keccak preimage must be the fixed 128-byte output-root
/// encoding, whose bytes 96..128 are the head block hash.
pub open spec fn spec_head(m: ProviderModel) -> Result<SealedHeader, ProviderError> {
    if !m.preimages.contains_key(keccak_key(m.boot.l2_output_root)) {
        Err(ProviderError::OracleError)
    } else if m.preimages[keccak_key(m.boot.l2_output_root)].len() != 128 {
        Err(ProviderError::InvalidOutputRoot)
    } else {
        spec_header_at(m, spec_hash_at(m.preimages[keccak_key(m.boot.l2_output_root)], 96))
    }
}

/// The result of walking parent links back from `cur` until a header
/// with number `n` is reached.  A parent whose number does not decrease
/// is malformed chain data, as is a walk that skips past `n`.
pub open spec fn spec_walk(m: ProviderModel, cur: SealedHeader, n: u64) -> Result<
    SealedHeader,
    ProviderError,
>
    decreases cur.header.number,
{
    if cur.header.number == n {
        Ok(cur)
    } else if cur.header.number < n {
        Err(ProviderError::DecodeError)
    } else {
        match spec_header_at(m, cur.header.parent_hash) {
            Err(e) => Err(e),
            Ok(p) => if p.header.number >= cur.header.number {
                Err(ProviderError::DecodeError)
            } else {
                spec_walk(m, p, n)
            },
        }
    }
}

/// The result of a header lookup by number: the cache short-circuits;
/// otherwise the head is resolved from the output root and parent links
/// are walked back to `n`.  A number beyond the head is out of range.
pub open spec fn spec_header_lookup(m: ProviderModel, n: u64) -> Result<
    SealedHeader,
    ProviderError,
> {
    if m.headers.contains_key(n) {
        Ok(m.headers[n])
    } else {
        match spec_head(m) {
            Err(e) => Err(e),
            Ok(head) => if n > head.header.number {
                Err(ProviderError::RangeError)
            } else {
                spec_walk(m, head, n)
            },
        }
    }
}

/// The provider model after a header lookup: a resolved header is
/// cached under its number; nothing else changes.
pub open spec fn spec_header_next(m: ProviderModel, n: u64) -> ProviderModel {
    if m.headers.contains_key(n) {
        m
    } else {
        match spec_header_lookup(m, n) {
            Ok(h) => ProviderModel { headers: m.headers.insert(n, h), ..m },
            Err(_) => m,
        }
    }
}

/// Whether every trie leaf parses as a valid typed transaction
/// envelope.
pub open spec fn spec_txs_valid(txs: Seq<Seq<u8>>) -> bool {
    forall|i: int| 0 <= i < txs.len() ==> #[trigger] tx_parsed(txs[i]) is Some
}

/// The payload assembled from a resolved header and the ordered raw
/// leaves of its transactions trie.  The empty withdrawals list is
/// present exactly when the Canyon fork is active at the header's
/// timestamp.
pub open spec fn spec_payload_of(boot: BootInfo, h: SealedHeader, txs: Seq<Seq<u8>>) -> PayloadView {
    PayloadView {
        block_hash: h.hash,
        parent_hash: h.header.parent_hash,
        block_number: h.header.number,
        timestamp: h.header.timestamp,
        gas_limit: h.header.gas_limit,
        transactions: txs,
        has_withdrawals: boot.rollup_config.spec_is_canyon_active(h.header.timestamp),
    }
}

/// The result of a payload lookup: the cache short-circuits; otherwise
/// the header is resolved, the transactions trie under its commitment
/// root is walked, and every leaf must decode — a single malformed
/// leaf fails the whole lookup with `DecodeError`.
pub open spec fn spec_payload_lookup(m: ProviderModel, n: u64) -> Result<
    PayloadView,
    ProviderError,
> {
    if m.payloads.contains_key(n) {
        Ok(m.payloads[n])
    } else {
        match spec_header_lookup(m, n) {
            Err(e) => Err(e),
            Ok(h) => if !m.tries.contains_key(h.header.transactions_root) {
                Err(ProviderError::OracleError)
            } else if !spec_txs_valid(m.tries[h.header.transactions_root]) {
                Err(ProviderError::DecodeError)
            } else {
                Ok(spec_payload_of(m.boot, h, m.tries[h.header.transactions_root]))
            },
        }
    }
}

/// The provider model after a payload lookup: the resolved header is
/// cached, and the payload is cached only when the whole lookup
/// succeeded — a failed decode inserts nothing.
pub open spec fn spec_payload_next(m: ProviderModel, n: u64) -> ProviderModel {
    if m.payloads.contains_key(n) {
        m
    } else {
        let m1 = spec_header_next(m, n);
        match spec_payload_lookup(m, n) {
            Ok(p) => ProviderModel { payloads: m1.payloads.insert(n, p), ..m1 },
            Err(_) => m1,
        }
    }
}

/// The result of an L2-block-info lookup: the cache short-circuits;
/// otherwise the value is derived from the payload by a pure
/// transform, whose failure is a `DerivationError`.
pub open spec fn spec_info_lookup(m: ProviderModel, n: u64) -> Result<
    L2BlockInfo,
    ProviderError,
> {
    if m.infos.contains_key(n) {
        Ok(m.infos[n])
    } else {
        match spec_payload_lookup(m, n) {
            Err(e) => Err(e),
            Ok(p) => spec_info_from_payload(p, m.boot.rollup_config),
        }
    }
}

/// The provider model after an L2-block-info lookup.
pub open spec fn spec_info_next(m: ProviderModel, n: u64) -> ProviderModel {
    if m.infos.contains_key(n) {
        m
    } else {
        let m1 = spec_payload_next(m, n);
        match spec_info_lookup(m, n) {
            Ok(i) => ProviderModel { infos: m1.infos.insert(n, i), ..m1 },
            Err(_) => m1,
        }
    }
}

/// The result of a system-config lookup against the given rollup
/// configuration: the cache short-circuits; otherwise the value is
/// derived from the payload by a pure transform.
pub open spec fn spec_config_lookup(m: ProviderModel, n: u64, cfg: RollupConfig) -> Result<
    SystemConfig,
    ProviderError,
> {
    if m.configs.contains_key(n) {
        Ok(m.configs[n])
    } else {
        match spec_payload_lookup(m, n) {
            Err(e) => Err(e),
            Ok(p) => spec_config_from_payload(p, cfg),
        }
    }
}

/// The provider model after a system-config lookup.
pub open spec fn spec_config_next(m: ProviderModel, n: u64, cfg: RollupConfig) -> ProviderModel {
    if m.configs.contains_key(n) {
        m
    } else {
        let m1 = spec_payload_next(m, n);
        match spec_config_lookup(m, n, cfg) {
            Ok(c) => ProviderModel { configs: m1.configs.insert(n, c), ..m1 },
            Err(_) => m1,
        }
    }
}

/// The provider model after committing a trusted header and payload:
/// when both transforms succeed, all four caches gain an entry for the
/// header's number, consistent with the committed values; nothing is
/// fetched through the oracle.  A failed transform inserts nothing.
pub open spec fn spec_commit_next(
    m: ProviderModel,
    h: SealedHeader,
    p: PayloadView,
    cfg: RollupConfig,
) -> ProviderModel {
    if spec_info_from_payload(p, cfg) is Ok && spec_config_from_payload(p, cfg) is Ok {
        ProviderModel {
            headers: m.headers.insert(h.header.number, h),
            payloads: m.payloads.insert(h.header.number, p),
            configs: m.configs.insert(h.header.number, spec_config_from_payload(p, cfg)->Ok_0),
            infos: m.infos.insert(h.header.number, spec_info_from_payload(p, cfg)->Ok_0),
            ..m
        }
    } else {
        m
    }
}

/// The oracle-backed, caching L2 chain provider.
pub struct MultiblockOracleL2ChainProvider {
    boot: BootInfo,
    oracle: Oracle,
    walker: TrieWalker,
    header_cache: NumCache<SealedHeader>,
    info_cache: NumCache<L2BlockInfo>,
    payload_cache: PayloadCache,
    config_cache: NumCache<SystemConfig>,
}

impl View for MultiblockOracleL2ChainProvider {
    type V = ProviderModel;

    closed spec fn view(&self) -> ProviderModel {
        ProviderModel {
            boot: self.boot,
            preimages: Map::new(
                |k: PreimageKey| self.oracle.store(k) is Some,
                |k: PreimageKey| self.oracle.store(k)->0,
            ),
            tries: Map::new(
                |r: Hash256| self.walker.leaves(r) is Some,
                |r: Hash256| self.walker.leaves(r)->0,
            ),
            headers: Map::new(
                |n: u64| self.header_cache.lookup(n) is Some,
                |n: u64| self.header_cache.lookup(n)->0,
            ),
            infos: Map::new(
                |n: u64| self.info_cache.lookup(n) is Some,
                |n: u64| self.info_cache.lookup(n)->0,
            ),
            payloads: Map::new(
                |n: u64| self.payload_cache.lookup(n) is Some,
                |n: u64| self.payload_cache.lookup(n)->0,
            ),
            configs: Map::new(
                |n: u64| self.config_cache.lookup(n) is Some,
                |n: u64| self.config_cache.lookup(n)->0,
            ),
        }
    }
}

impl MultiblockOracleL2ChainProvider {
    /// How many oracle operations (fetches and hints) have been made.
    pub closed spec fn oracle_ops(self) -> nat {
        self.oracle.ops()
    }

    /// How many trie walks have been performed.
    pub closed spec fn walker_walks(self) -> nat {
        self.walker.walks()
    }

    /// The hints emitted so far, oldest first.
    pub closed spec fn hints(self) -> Seq<Hint> {
        self.oracle.hints()
    }

    /// Two provider values whose stores, caches and boot configuration
    /// agree have the same model, whatever their operation counters.
    proof fn lemma_same_view(a: Self, b: Self)
        requires
            a.oracle.raw() == b.oracle.raw(),
            a.walker.raw() == b.walker.raw(),
            a.header_cache == b.header_cache,
            a.info_cache == b.info_cache,
            a.payload_cache == b.payload_cache,
            a.config_cache == b.config_cache,
            a.boot == b.boot,
        ensures
            a@ == b@,
    {
        assert(a@.preimages =~= b@.preimages);
        assert(a@.tries =~= b@.tries);
    }

    /// The boot configuration this provider was created over.
    pub fn boot(&self) -> (b: BootInfo)
        ensures
            b == self@.boot,
    {
        self.boot
    }

    /// Creates a provider over the given boot configuration, preimage
    /// oracle and trie walker, with all caches empty.
    pub fn new(boot: BootInfo, oracle: Oracle, walker: TrieWalker) -> (r: Self)
        ensures
            r@.boot == boot,
            forall|k: PreimageKey| #![auto]
                r@.preimages.contains_key(k) <==> oracle.store(k) is Some,
            forall|k: PreimageKey| #![auto]
                oracle.store(k) is Some ==> r@.preimages[k] == oracle.store(k)->0,
            forall|t: Hash256| #![auto] r@.tries.contains_key(t) <==> walker.leaves(t) is Some,
            forall|t: Hash256| #![auto]
                walker.leaves(t) is Some ==> r@.tries[t] == walker.leaves(t)->0,
            r@.headers =~= Map::<u64, SealedHeader>::empty(),
            r@.infos =~= Map::<u64, L2BlockInfo>::empty(),
            r@.payloads =~= Map::<u64, PayloadView>::empty(),
            r@.configs =~= Map::<u64, SystemConfig>::empty(),
            r.oracle_ops() == oracle.ops(),
            r.walker_walks() == walker.walks(),
            r.hints() == oracle.hints(),
    {
        let r = MultiblockOracleL2ChainProvider {
            boot,
            oracle,
            walker,
            header_cache: NumCache::new(),
            info_cache: NumCache::new(),
            payload_cache: PayloadCache::new(),
            config_cache: NumCache::new(),
        };
        proof {
            assert(r@.headers =~= Map::<u64, SealedHeader>::empty());
            assert(r@.infos =~= Map::<u64, L2BlockInfo>::empty());
            assert(r@.payloads =~= Map::<u64, PayloadView>::empty());
            assert(r@.configs =~= Map::<u64, SystemConfig>::empty());
        }
        r
    }

    /// Resolves a header by hash: hints the header's hash, fetches its
    /// keccak preimage, RLP-decodes it, and seals the result with the
    /// requested hash.  The hash is not recomputed from the bytes; all
    /// correctness rests on the oracle addressing data by content hash.
    pub fn header_by_hash(&mut self, hash: Hash256) -> (r: Result<SealedHeader, ProviderError>)
        ensures
            r == spec_header_at(old(self)@, hash),
            final(self)@ == old(self)@,
            final(self).oracle_ops() == old(self).oracle_ops() + 2,
            final(self).walker_walks() == old(self).walker_walks(),
            final(self).hints() == old(self).hints().push(Hint::L2BlockHeader(hash)),
    {
        self.oracle.hint(Hint::L2BlockHeader(hash));
        let key = PreimageKey { kind: KeyKind::Keccak256, hash };
        let fetched = self.oracle.fetch(key);
        proof {
            Self::lemma_same_view(*old(self), *self);
        }
        let bytes = match fetched {
            Ok(b) => b,
            Err(_) => {
                return Err(ProviderError::OracleError);
            },
        };
        match decode_header(&bytes) {
            Ok(h) => Ok(SealedHeader { header: h, hash }),
            Err(_) => Err(ProviderError::DecodeError),
        }
    }

    /// Resolves the safe head named by the boot configuration's output
    /// root: hints and fetches the output-root preimage, reads the head
    /// block hash from its bytes 96..128, and resolves that header.
    pub(crate) fn resolve_head(&mut self) -> (r: Result<SealedHeader, ProviderError>)
        ensures
            r == spec_head(old(self)@),
            final(self)@ == old(self)@,
            final(self).walker_walks() == old(self).walker_walks(),
    {
        self.oracle.hint(Hint::StartingL2Output(self.boot.l2_output_root));
        let key = PreimageKey { kind: KeyKind::Keccak256, hash: self.boot.l2_output_root };
        let fetched = self.oracle.fetch(key);
        proof {
            Self::lemma_same_view(*old(self), *self);
        }
        let bytes = match fetched {
            Ok(b) => b,
            Err(_) => {
                return Err(ProviderError::OracleError);
            },
        };
        if bytes.len() != 128 {
            return Err(ProviderError::InvalidOutputRoot);
        }
        let head_hash = hash_at(&bytes, 96);
        self.header_by_hash(head_hash)
    }

    /// Returns the header for an L2 block number.  The number-keyed
    /// cache is consulted first; on a miss the head is resolved from
    /// the output root and parent links are walked back until the
    /// header's own number equals the request, which is then cached.
    /// Requesting a number greater than the head's fails with
    /// `RangeError`; a cache hit performs no oracle operations.
    #[verifier::loop_isolation(false)]
    pub fn header_by_number(&mut self, block_number: u64) -> (r: Result<
        SealedHeader,
        ProviderError,
    >)
        ensures
            r == spec_header_lookup(old(self)@, block_number),
            final(self)@ == spec_header_next(old(self)@, block_number),
            old(self)@.headers.contains_key(block_number) ==> {
                &&& final(self).oracle_ops() == old(self).oracle_ops()
                &&& final(self).walker_walks() == old(self).walker_walks()
                &&& final(self).hints() == old(self).hints()
            },
    {
        let ghost m = old(self)@;
        if let Some(h) = self.header_cache.get(block_number) {
            return Ok(h);
        }
        proof {
            assert(!m.headers.contains_key(block_number));
        }
        let head = match self.resolve_head() {
            Ok(h) => h,
            Err(e) => {
                return Err(e);
            },
        };
        if block_number > head.header.number {
            return Err(ProviderError::RangeError);
        }
        let mut cur = head;
        while cur.header.number > block_number
            invariant
                self@ == m,
                self.boot == old(self).boot,
                spec_walk(m, cur, block_number) == spec_walk(m, head, block_number),
            decreases cur.header.number,
        {
            let parent_res = self.header_by_hash(cur.header.parent_hash);
            proof {
                assert(parent_res == spec_header_at(m, cur.header.parent_hash));
                assert(parent_res is Err ==> spec_walk(m, cur, block_number) == Result::<
                    SealedHeader,
                    ProviderError,
                >::Err(parent_res->Err_0));
            }
            let parent = match parent_res {
                Ok(p) => p,
                Err(e) => {
                    return Err(e);
                },
            };
            if parent.header.number >= cur.header.number {
                return Err(ProviderError::DecodeError);
            }
            cur = parent;
        }
        if cur.header.number < block_number {
            return Err(ProviderError::DecodeError);
        }
        self.header_cache.insert(block_number, cur);
        proof {
            assert(self@.headers =~= m.headers.insert(block_number, cur));
            assert(self@.preimages =~= m.preimages);
            assert(self@.tries =~= m.tries);
            assert(self@.infos =~= m.infos);
            assert(self@.payloads =~= m.payloads);
            assert(self@.configs =~= m.configs);
        }
        Ok(cur)
    }

    /// Returns the execution payload envelope for an L2 block number.
    /// The payload cache is consulted first; on a miss the header is
    /// resolved, a hint names the transactions about to be requested,
    /// the transactions trie is walked, and every leaf must decode as a
    /// typed transaction envelope — any malformed leaf aborts the whole
    /// lookup with `DecodeError` and nothing is cached.  A cache hit
    /// performs no oracle operations and no trie walk.
    #[verifier::loop_isolation(false)]
    pub fn payload_by_number(&mut self, number: u64) -> (r: Result<Payload, ProviderError>)
        ensures
            r is Ok <==> spec_payload_lookup(old(self)@, number) is Ok,
            r is Ok ==> r->Ok_0@ == spec_payload_lookup(old(self)@, number)->Ok_0,
            r is Err ==> r->Err_0 == spec_payload_lookup(old(self)@, number)->Err_0,
            final(self)@ == spec_payload_next(old(self)@, number),
            old(self)@.payloads.contains_key(number) ==> {
                &&& final(self).oracle_ops() == old(self).oracle_ops()
                &&& final(self).walker_walks() == old(self).walker_walks()
                &&& final(self).hints() == old(self).hints()
            },
    {
        let ghost m = old(self)@;
        if let Some(p) = self.payload_cache.get(number) {
            return Ok(p);
        }
        proof {
            assert(!m.payloads.contains_key(number));
        }
        let header = match self.header_by_number(number) {
            Ok(h) => h,
            Err(e) => {
                return Err(e);
            },
        };
        let ghost m1 = self@;
        let ghost before_hint = *self;
        self.oracle.hint(Hint::L2Transactions(header.hash));
        proof {
            Self::lemma_same_view(before_hint, *self);
        }
        let ghost before_walk = *self;
        let walked = self.walker.walk(header.header.transactions_root);
        proof {
            Self::lemma_same_view(before_walk, *self);
        }
        let leaves = match walked {
            Ok(l) => l,
            Err(_) => {
                return Err(ProviderError::OracleError);
            },
        };
        let ghost leaf_views = crate::types::views_of(leaves);
        proof {
            assert(leaf_views == m.tries[header.header.transactions_root]);
        }
        let leaf_count: usize = leaves.len();
        let mut i: usize = 0;
        while i < leaf_count
            invariant
                i <= leaf_count,
                forall|j: int| 0 <= j < i ==> #[trigger] tx_parsed(leaf_views[j]) is Some,
            decreases leaf_count - i,
        {
            let parsed = parse_tx(&leaves[i]);
            proof {
                assert(leaves@[i as int]@ == leaf_views[i as int]);
            }
            match parsed {
                None => {
                    proof {
                        assert(!spec_txs_valid(leaf_views));
                    }
                    return Err(ProviderError::DecodeError);
                },
                Some(_) => {},
            }
            i = i + 1;
        }
        proof {
            assert(spec_txs_valid(leaf_views));
        }
        let has_withdrawals = self.boot.rollup_config.is_canyon_active(header.header.timestamp);
        let payload = Payload {
            block_hash: header.hash,
            parent_hash: header.header.parent_hash,
            block_number: header.header.number,
            timestamp: header.header.timestamp,
            gas_limit: header.header.gas_limit,
            transactions: leaves,
            has_withdrawals,
        };
        proof {
            assert(payload@ == spec_payload_of(m.boot, header, leaf_views));
        }
        let copy = clone_payload(&payload);
        self.payload_cache.insert(number, copy);
        proof {
            assert(self@.payloads =~= m1.payloads.insert(number, payload@));
            assert(self@.preimages =~= m1.preimages);
            assert(self@.tries =~= m1.tries);
            assert(self@.headers =~= m1.headers);
            assert(self@.infos =~= m1.infos);
            assert(self@.configs =~= m1.configs);
        }
        Ok(payload)
    }

    /// Returns the L2 block info for a block number.  The info cache
    /// is consulted first; on a miss the info is derived from the
    /// block's payload by a pure, oracle-free transform and cached.
    /// A transform failure is a fatal `DerivationError` for this
    /// lookup and caches nothing.  A cache hit performs no oracle
    /// operations and no trie walk.
    pub fn l2_block_info_by_number(&mut self, number: u64) -> (r: Result<
        L2BlockInfo,
        ProviderError,
    >)
        ensures
            r == spec_info_lookup(old(self)@, number),
            final(self)@ == spec_info_next(old(self)@, number),
            old(self)@.infos.contains_key(number) ==> {
                &&& final(self).oracle_ops() == old(self).oracle_ops()
                &&& final(self).walker_walks() == old(self).walker_walks()
                &&& final(self).hints() == old(self).hints()
            },
    {
        let ghost m = old(self)@;
        if let Some(info) = self.info_cache.get(number) {
            return Ok(info);
        }
        proof {
            assert(!m.infos.contains_key(number));
        }
        let payload = match self.payload_by_number(number) {
            Ok(p) => p,
            Err(e) => {
                return Err(e);
            },
        };
        let ghost m1 = self@;
        let cfg = self.boot.rollup_config;
        let info = match payload_to_l2_block_info(&payload, &cfg) {
            Ok(i) => i,
            Err(e) => {
                return Err(e);
            },
        };
        self.info_cache.insert(number, info);
        proof {
            assert(self@.infos =~= m1.infos.insert(number, info));
            assert(self@.preimages =~= m1.preimages);
            assert(self@.tries =~= m1.tries);
            assert(self@.headers =~= m1.headers);
            assert(self@.payloads =~= m1.payloads);
            assert(self@.configs =~= m1.configs);
        }
        Ok(info)
    }

    /// Returns the system configuration in force at a block number,
    /// derived against the given rollup configuration.  The config
    /// cache is consulted first; on a miss the value is derived from
    /// the block's payload and cached.  A cache hit performs no oracle
    /// operations and no trie walk.
    pub fn system_config_by_number(&mut self, number: u64, rollup_config: &RollupConfig) -> (r:
        Result<SystemConfig, ProviderError>)
        ensures
            r == spec_config_lookup(old(self)@, number, *rollup_config),
            final(self)@ == spec_config_next(old(self)@, number, *rollup_config),
            old(self)@.configs.contains_key(number) ==> {
                &&& final(self).oracle_ops() == old(self).oracle_ops()
                &&& final(self).walker_walks() == old(self).walker_walks()
                &&& final(self).hints() == old(self).hints()
            },
    {
        let ghost m = old(self)@;
        if let Some(sc) = self.config_cache.get(number) {
            return Ok(sc);
        }
        proof {
            assert(!m.configs.contains_key(number));
        }
        let payload = match self.payload_by_number(number) {
            Ok(p) => p,
            Err(e) => {
                return Err(e);
            },
        };
        let ghost m1 = self@;
        let sc = match payload_to_system_config(&payload, rollup_config) {
            Ok(s) => s,
            Err(e) => {
                return Err(e);
            },
        };
        self.config_cache.insert(number, sc);
        proof {
            assert(self@.configs =~= m1.configs.insert(number, sc));
            assert(self@.preimages =~= m1.preimages);
            assert(self@.tries =~= m1.tries);
            assert(self@.headers =~= m1.headers);
            assert(self@.payloads =~= m1.payloads);
            assert(self@.infos =~= m1.infos);
        }
        Ok(sc)
    }

    /// Commits a trusted header and payload produced by local block
    /// execution: the only write path into the caches that bypasses
    /// the oracle.  Both transforms are derived first; on success the
    /// header, payload, system config and L2 block info are cached
    /// under the header's number and the info is returned, with zero
    /// oracle operations.  Whether the number already holds a
    /// different value is not checked: overwriting with inconsistent
    /// data is a correctness bug in the caller.
    pub fn update_cache(
        &mut self,
        header: &SealedHeader,
        payload: Payload,
        cfg: &RollupConfig,
    ) -> (r: Result<L2BlockInfo, ProviderError>)
        ensures
            r is Ok <==> spec_info_from_payload(payload@, *cfg) is Ok && spec_config_from_payload(
                payload@,
                *cfg,
            ) is Ok,
            r is Ok ==> r->Ok_0 == spec_info_from_payload(payload@, *cfg)->Ok_0,
            r is Err ==> r->Err_0 == ProviderError::DerivationError,
            final(self)@ == spec_commit_next(old(self)@, *header, payload@, *cfg),
            final(self).oracle_ops() == old(self).oracle_ops(),
            final(self).walker_walks() == old(self).walker_walks(),
            final(self).hints() == old(self).hints(),
    {
        let ghost m = old(self)@;
        let ghost pv = payload@;
        let info = match payload_to_l2_block_info(&payload, cfg) {
            Ok(i) => i,
            Err(_) => {
                return Err(ProviderError::DerivationError);
            },
        };
        let sc = match payload_to_system_config(&payload, cfg) {
            Ok(s) => s,
            Err(_) => {
                return Err(ProviderError::DerivationError);
            },
        };
        let n: u64 = header.header.number;
        self.header_cache.insert(n, *header);
        self.payload_cache.insert(n, payload);
        self.config_cache.insert(n, sc);
        self.info_cache.insert(n, info);
        proof {
            assert(self@.headers =~= m.headers.insert(n, *header));
            assert(self@.payloads =~= m.payloads.insert(n, pv));
            assert(self@.configs =~= m.configs.insert(n, sc));
            assert(self@.infos =~= m.infos.insert(n, info));
            assert(self@.preimages =~= m.preimages);
            assert(self@.tries =~= m.tries);
        }
        Ok(info)
    }

    /// Fetches a trie-node preimage by hash.  Trie nodes are stored
    /// under keccak-domain keys; the hint for them is assumed to have
    /// been sent already, so this is a bare fetch.
    pub fn trie_node_preimage(&mut self, hash: Hash256) -> (r: Result<Vec<u8>, ProviderError>)
        ensures
            final(self)@ == old(self)@,
            final(self).oracle_ops() == old(self).oracle_ops() + 1,
            final(self).walker_walks() == old(self).walker_walks(),
            final(self).hints() == old(self).hints(),
            r is Ok <==> old(self)@.preimages.contains_key(keccak_key(hash)),
            r is Ok ==> r->Ok_0@ == old(self)@.preimages[keccak_key(hash)],
            r is Err ==> r->Err_0 == ProviderError::OracleError,
    {
        let res = self.oracle.fetch(PreimageKey { kind: KeyKind::Keccak256, hash });
        proof {
            Self::lemma_same_view(*old(self), *self);
        }
        res
    }

    /// Fetches contract bytecode by hash, hinting first: code is
    /// assumed not to have been announced yet.
    pub fn bytecode_by_hash(&mut self, hash: Hash256) -> (r: Result<Vec<u8>, ProviderError>)
        ensures
            final(self)@ == old(self)@,
            final(self).oracle_ops() == old(self).oracle_ops() + 2,
            final(self).walker_walks() == old(self).walker_walks(),
            final(self).hints() == old(self).hints().push(Hint::L2Code(hash)),
            r is Ok <==> old(self)@.preimages.contains_key(keccak_key(hash)),
            r is Ok ==> r->Ok_0@ == old(self)@.preimages[keccak_key(hash)],
            r is Err ==> r->Err_0 == ProviderError::OracleError,
    {
        self.oracle.hint(Hint::L2Code(hash));
        let res = self.oracle.fetch(PreimageKey { kind: KeyKind::Keccak256, hash });
        proof {
            Self::lemma_same_view(*old(self), *self);
        }
        res
    }

    /// Announces a state trie node about to be requested.  A failure to
    /// deliver a hint would be a fatal `OracleError`; the modelled hint
    /// channel always accepts.
    pub fn hint_trie_node(&mut self, hash: Hash256) -> (r: Result<(), ProviderError>)
        ensures
            final(self)@ == old(self)@,
            final(self).oracle_ops() == old(self).oracle_ops() + 1,
            final(self).walker_walks() == old(self).walker_walks(),
            final(self).hints() == old(self).hints().push(Hint::L2StateNode(hash)),
            r is Ok,
    {
        self.oracle.hint(Hint::L2StateNode(hash));
        proof {
            Self::lemma_same_view(*old(self), *self);
        }
        Ok(())
    }

    /// Announces an account proof about to be requested.
    pub fn hint_account_proof(&mut self, address: Addr, block_number: u64) -> (r: Result<
        (),
        ProviderError,
    >)
        ensures
            final(self)@ == old(self)@,
            final(self).oracle_ops() == old(self).oracle_ops() + 1,
            final(self).walker_walks() == old(self).walker_walks(),
            final(self).hints() == old(self).hints().push(
                Hint::L2AccountProof(block_number, address),
            ),
            r is Ok,
    {
        self.oracle.hint(Hint::L2AccountProof(block_number, address));
        proof {
            Self::lemma_same_view(*old(self), *self);
        }
        Ok(())
    }

    /// Announces a storage proof about to be requested.
    pub fn hint_storage_proof(&mut self, address: Addr, slot: Word256, block_number: u64) -> (r:
        Result<(), ProviderError>)
        ensures
            final(self)@ == old(self)@,
            final(self).oracle_ops() == old(self).oracle_ops() + 1,
            final(self).walker_walks() == old(self).walker_walks(),
            final(self).hints() == old(self).hints().push(
                Hint::L2AccountStorageProof(block_number, address, slot),
            ),
            r is Ok,
    {
        self.oracle.hint(Hint::L2AccountStorageProof(block_number, address, slot));
        proof {
            Self::lemma_same_view(*old(self), *self);
        }
        Ok(())
    }
}

} // verus!
