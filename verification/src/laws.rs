//! The library's cross-cutting guarantees, proved over the provider's
//! model: cached keys answer from the cache and leave the model
//! unchanged, lookups are idempotent, the header walk lands exactly on
//! the requested number, and a commit makes all four caches answer for
//! the committed block.  Together with each operation's own contract —
//! which states that a cache hit performs no oracle operations and no
//! trie walk — these close the caching discipline end to end.

use vstd::prelude::*;

use crate::provider::{
    spec_commit_next, spec_config_lookup, spec_config_next, spec_head, spec_header_at,
    spec_header_lookup, spec_header_next, spec_info_lookup, spec_info_next, spec_payload_lookup,
    spec_payload_next, spec_walk, ProviderModel,
};
use crate::transform::{spec_config_from_payload, spec_info_from_payload};
use crate::types::{L2BlockInfo, PayloadView, ProviderError, RollupConfig, SealedHeader, SystemConfig};

verus! {

/// A key held by the header cache answers from the cache: the lookup
/// returns exactly the cached value and the model does not change, so
/// the operation's contract adds that no oracle work happens.
pub proof fn lemma_cached_header_lookup(m: ProviderModel, n: u64)
    requires
        m.headers.contains_key(n),
    ensures
        spec_header_lookup(m, n) == Ok::<SealedHeader, ProviderError>(m.headers[n]),
        spec_header_next(m, n) == m,
{
}

/// A key held by the payload cache answers from the cache,
/// byte-identically, with no model change.
pub proof fn lemma_cached_payload_lookup(m: ProviderModel, n: u64)
    requires
        m.payloads.contains_key(n),
    ensures
        spec_payload_lookup(m, n) == Ok::<PayloadView, ProviderError>(m.payloads[n]),
        spec_payload_next(m, n) == m,
{
}

/// A key held by the block-info cache answers from the cache with no
/// model change.
pub proof fn lemma_cached_info_lookup(m: ProviderModel, n: u64)
    requires
        m.infos.contains_key(n),
    ensures
        spec_info_lookup(m, n) == Ok::<L2BlockInfo, ProviderError>(m.infos[n]),
        spec_info_next(m, n) == m,
{
}

/// A key held by the system-config cache answers from the cache with
/// no model change, whatever rollup configuration the lookup names.
pub proof fn lemma_cached_config_lookup(m: ProviderModel, n: u64, cfg: RollupConfig)
    requires
        m.configs.contains_key(n),
    ensures
        spec_config_lookup(m, n, cfg) == Ok::<SystemConfig, ProviderError>(m.configs[n]),
        spec_config_next(m, n, cfg) == m,
{
}

/// A successful header lookup caches its result: looking the same
/// number up again answers identically from the cache and leaves the
/// model unchanged.
pub proof fn lemma_header_lookup_idempotent(m: ProviderModel, n: u64)
    requires
        spec_header_lookup(m, n) is Ok,
    ensures
        spec_header_next(m, n).headers.contains_key(n),
        spec_header_lookup(spec_header_next(m, n), n) == spec_header_lookup(m, n),
        spec_header_next(spec_header_next(m, n), n) == spec_header_next(m, n),
{
    let m1 = spec_header_next(m, n);
    if m.headers.contains_key(n) {
        assert(m1 == m);
    } else {
        assert(m1.headers.contains_key(n));
        assert(m1.headers[n] == spec_header_lookup(m, n)->Ok_0);
    }
}

/// A successful payload lookup caches its result: looking the same
/// number up again returns byte-identical data from the cache and
/// leaves the model unchanged.
pub proof fn lemma_payload_lookup_idempotent(m: ProviderModel, n: u64)
    requires
        spec_payload_lookup(m, n) is Ok,
    ensures
        spec_payload_next(m, n).payloads.contains_key(n),
        spec_payload_lookup(spec_payload_next(m, n), n) == spec_payload_lookup(m, n),
        spec_payload_next(spec_payload_next(m, n), n) == spec_payload_next(m, n),
{
    let m1 = spec_payload_next(m, n);
    if m.payloads.contains_key(n) {
        assert(m1 == m);
    } else {
        assert(m1.payloads.contains_key(n));
        assert(m1.payloads[n] == spec_payload_lookup(m, n)->Ok_0);
    }
}

/// A successful block-info lookup caches its result and is idempotent.
pub proof fn lemma_info_lookup_idempotent(m: ProviderModel, n: u64)
    requires
        spec_info_lookup(m, n) is Ok,
    ensures
        spec_info_next(m, n).infos.contains_key(n),
        spec_info_lookup(spec_info_next(m, n), n) == spec_info_lookup(m, n),
        spec_info_next(spec_info_next(m, n), n) == spec_info_next(m, n),
{
    let m1 = spec_info_next(m, n);
    if m.infos.contains_key(n) {
        assert(m1 == m);
    } else {
        assert(m1.infos.contains_key(n));
        assert(m1.infos[n] == spec_info_lookup(m, n)->Ok_0);
    }
}

/// The header walk only ever lands exactly on the requested number: a
/// successful walk from any starting header yields a header whose
/// number equals `n`.  (That the walk terminates is part of its
/// definition: every step strictly decreases the header number.)
pub proof fn lemma_walk_lands_on_number(m: ProviderModel, cur: SealedHeader, n: u64)
    ensures
        spec_walk(m, cur, n) is Ok ==> spec_walk(m, cur, n)->Ok_0.header.number == n,
    decreases cur.header.number,
{
    if cur.header.number == n {
    } else if cur.header.number < n {
    } else {
        match spec_header_at(m, cur.header.parent_hash) {
            Err(_) => {},
            Ok(p) => {
                if p.header.number < cur.header.number {
                    lemma_walk_lands_on_number(m, p, n);
                }
            },
        }
    }
}

/// A number beyond the resolved head, absent from the cache, is out of
/// range.
pub proof fn lemma_beyond_head_is_range_error(m: ProviderModel, n: u64)
    requires
        !m.headers.contains_key(n),
        spec_head(m) is Ok,
        n > spec_head(m)->Ok_0.header.number,
    ensures
        spec_header_lookup(m, n) == Err::<SealedHeader, ProviderError>(ProviderError::RangeError),
{
}

/// A payload lookup whose trie holds any malformed transaction leaf
/// fails with `DecodeError` and caches no payload: partial caching of
/// a bad payload cannot occur.
pub proof fn lemma_bad_leaf_fails_and_caches_nothing(m: ProviderModel, n: u64)
    requires
        !m.payloads.contains_key(n),
        spec_header_lookup(m, n) is Ok,
        m.tries.contains_key(spec_header_lookup(m, n)->Ok_0.header.transactions_root),
        !crate::provider::spec_txs_valid(
            m.tries[spec_header_lookup(m, n)->Ok_0.header.transactions_root],
        ),
    ensures
        spec_payload_lookup(m, n) == Err::<PayloadView, ProviderError>(ProviderError::DecodeError),
        spec_payload_next(m, n).payloads == m.payloads,
{
    let m1 = spec_header_next(m, n);
    assert(m1.payloads == m.payloads);
}

/// After a commit of a trusted header and payload whose transforms
/// succeed, all four caches hold entries for the header's number
/// consistent with the committed values, and a subsequent payload
/// lookup for that number answers byte-identically from the cache with
/// no model change — so, by the lookup's contract, with zero oracle
/// operations.
pub proof fn lemma_commit_populates_caches(
    m: ProviderModel,
    h: SealedHeader,
    p: PayloadView,
    cfg: RollupConfig,
)
    requires
        spec_info_from_payload(p, cfg) is Ok,
        spec_config_from_payload(p, cfg) is Ok,
    ensures
        ({
            let m1 = spec_commit_next(m, h, p, cfg);
            let k = h.header.number;
            &&& m1.headers.contains_key(k) && m1.headers[k] == h
            &&& m1.payloads.contains_key(k) && m1.payloads[k] == p
            &&& m1.infos.contains_key(k) && m1.infos[k] == spec_info_from_payload(p, cfg)->Ok_0
            &&& m1.configs.contains_key(k) && m1.configs[k] == spec_config_from_payload(
                p,
                cfg,
            )->Ok_0
            &&& spec_payload_lookup(m1, k) == Ok::<PayloadView, ProviderError>(p)
            &&& spec_payload_next(m1, k) == m1
            &&& spec_header_lookup(m1, k) == Ok::<SealedHeader, ProviderError>(h)
            &&& spec_header_next(m1, k) == m1
        }),
{
}

} // verus!
