//! The injected data sources the provider and driver run against: the
//! content-addressed preimage oracle, the ordered trie walker, and the
//! L1 chain lookup.  Each is modelled as an in-memory table — exactly
//! the shape a deterministic re-run of a derivation receives, where the
//! complete witness is a precomputed key-to-value store — together with
//! a ghost operation counter, so that contracts can state when a lookup
//! performs no oracle work at all.

use vstd::prelude::*;

use crate::cache::assoc;
use crate::bytes::{copy_bytes, copy_byte_lists};
use crate::types::{views_of, BlockInfo, Hash256, Hint, PreimageKey, ProviderError};

verus! {

/// The hint/fetch preimage oracle: a content-addressed store of raw
/// preimages, plus a one-way hint channel.  Fetches and hints each
/// count as one oracle operation.
pub struct Oracle {
    entries: Vec<(PreimageKey, Vec<u8>)>,
    hint_history: Ghost<Seq<Hint>>,
    op_count: Ghost<nat>,
}

impl Oracle {
    /// The raw entry list backing the store.
    pub closed spec fn raw(self) -> Seq<(PreimageKey, Vec<u8>)> {
        self.entries@
    }

    /// The preimage held for a key, if any.
    pub open spec fn store(self, key: PreimageKey) -> Option<Seq<u8>> {
        match assoc(self.raw(), key) {
            Some(v) => Some(v@),
            None => None,
        }
    }

    /// How many oracle operations (fetches and hints) have been made.
    pub closed spec fn ops(self) -> nat {
        self.op_count@
    }

    /// The hints emitted so far, oldest first.
    pub closed spec fn hints(self) -> Seq<Hint> {
        self.hint_history@
    }

    pub fn new(entries: Vec<(PreimageKey, Vec<u8>)>) -> (r: Self)
        ensures
            r.raw() == entries@,
            r.ops() == 0,
            r.hints() == Seq::<Hint>::empty(),
    {
        Oracle { entries, hint_history: Ghost(Seq::empty()), op_count: Ghost(0) }
    }

    /// Emits a hint announcing data about to be requested.  The hint
    /// channel of the modelled store always accepts.
    pub fn hint(&mut self, h: Hint)
        ensures
            final(self).raw() == old(self).raw(),
            final(self).ops() == old(self).ops() + 1,
            final(self).hints() == old(self).hints().push(h),
    {
        self.hint_history = Ghost(self.hint_history@.push(h));
        self.op_count = Ghost(self.op_count@ + 1);
    }

    /// Fetches the preimage for a key.  Fails with `OracleError` when
    /// the store holds no data for it.
    pub fn fetch(&mut self, key: PreimageKey) -> (r: Result<Vec<u8>, ProviderError>)
        ensures
            final(self).raw() == old(self).raw(),
            final(self).ops() == old(self).ops() + 1,
            final(self).hints() == old(self).hints(),
            r is Ok <==> old(self).store(key) is Some,
            r is Ok ==> r->Ok_0@ == old(self).store(key)->0,
            r is Err ==> r->Err_0 == ProviderError::OracleError,
    {
        self.op_count = Ghost(self.op_count@ + 1);
        let len: usize = self.entries.len();
        let mut i: usize = 0;
        assert(self.entries@.skip(0) =~= self.entries@);
        while i < len
            invariant
                i <= len,
                len == self.entries@.len(),
                self.entries@ == old(self).entries@,
                self.op_count@ == old(self).op_count@ + 1,
                self.hint_history@ == old(self).hint_history@,
                assoc(self.entries@.skip(i as int), key) == assoc(self.entries@, key),
            decreases len - i,
        {
            let ghost rest = self.entries@.skip(i as int);
            if self.entries[i].0 == key {
                assert(rest[0] == self.entries@[i as int]);
                return Ok(copy_bytes(&self.entries[i].1));
            }
            assert(rest[0] == self.entries@[i as int]);
            assert(rest.skip(1) =~= self.entries@.skip(i as int + 1));
            i = i + 1;
        }
        assert(self.entries@.skip(len as int) =~= Seq::<(PreimageKey, Vec<u8>)>::empty());
        Err(ProviderError::OracleError)
    }
}

/// The ordered trie walker: given a root commitment it yields the
/// ordered raw leaves of the transactions trie under that root,
/// hydrated through the oracle.  Modelled as an injected table from
/// root to leaf list, with a ghost count of walks performed.
pub struct TrieWalker {
    lists: Vec<(Hash256, Vec<Vec<u8>>)>,
    walk_count: Ghost<nat>,
}

impl TrieWalker {
    /// The raw table backing the walker.
    pub closed spec fn raw(self) -> Seq<(Hash256, Vec<Vec<u8>>)> {
        self.lists@
    }

    /// The ordered leaves under a root, if the walker can hydrate them.
    pub open spec fn leaves(self, root: Hash256) -> Option<Seq<Seq<u8>>> {
        match assoc(self.raw(), root) {
            Some(l) => Some(views_of(l)),
            None => None,
        }
    }

    /// How many trie walks have been performed.
    pub closed spec fn walks(self) -> nat {
        self.walk_count@
    }

    pub fn new(lists: Vec<(Hash256, Vec<Vec<u8>>)>) -> (r: Self)
        ensures
            r.raw() == lists@,
            r.walks() == 0,
    {
        TrieWalker { lists, walk_count: Ghost(0) }
    }

    /// Walks the trie rooted at `root`, returning its ordered raw
    /// leaves.  Fails with `OracleError` when the root cannot be
    /// hydrated.
    pub fn walk(&mut self, root: Hash256) -> (r: Result<Vec<Vec<u8>>, ProviderError>)
        ensures
            final(self).raw() == old(self).raw(),
            final(self).walks() == old(self).walks() + 1,
            r is Ok <==> old(self).leaves(root) is Some,
            r is Ok ==> views_of(r->Ok_0) == old(self).leaves(root)->0,
            r is Err ==> r->Err_0 == ProviderError::OracleError,
    {
        self.walk_count = Ghost(self.walk_count@ + 1);
        let len: usize = self.lists.len();
        let mut i: usize = 0;
        assert(self.lists@.skip(0) =~= self.lists@);
        while i < len
            invariant
                i <= len,
                len == self.lists@.len(),
                self.lists@ == old(self).lists@,
                self.walk_count@ == old(self).walk_count@ + 1,
                assoc(self.lists@.skip(i as int), root) == assoc(self.lists@, root),
            decreases len - i,
        {
            let ghost rest = self.lists@.skip(i as int);
            if self.lists[i].0 == root {
                assert(rest[0] == self.lists@[i as int]);
                return Ok(copy_byte_lists(&self.lists[i].1));
            }
            assert(rest[0] == self.lists@[i as int]);
            assert(rest.skip(1) =~= self.lists@.skip(i as int + 1));
            i = i + 1;
        }
        assert(self.lists@.skip(len as int) =~= Seq::<(Hash256, Vec<Vec<u8>>)>::empty());
        Err(ProviderError::OracleError)
    }
}

/// The L1 chain lookup the driver resolves its origin block from:
/// an injected table from L1 block number to block info, with a ghost
/// count of queries made.
pub struct L1BlockTable {
    entries: Vec<(u64, BlockInfo)>,
    query_count: Ghost<nat>,
}

impl L1BlockTable {
    /// The raw table backing the lookup.
    pub closed spec fn raw(self) -> Seq<(u64, BlockInfo)> {
        self.entries@
    }

    /// The block info recorded for an L1 block number, if any.
    pub open spec fn info(self, n: u64) -> Option<BlockInfo> {
        assoc(self.raw(), n)
    }

    /// How many L1 lookups have been made.
    pub closed spec fn queries(self) -> nat {
        self.query_count@
    }

    pub fn new(entries: Vec<(u64, BlockInfo)>) -> (r: Self)
        ensures
            r.raw() == entries@,
            r.queries() == 0,
    {
        L1BlockTable { entries, query_count: Ghost(0) }
    }

    /// Returns the block info for an L1 block number.  Fails with
    /// `OracleError` when the table holds no entry for it.
    pub fn block_info_by_number(&mut self, n: u64) -> (r: Result<BlockInfo, ProviderError>)
        ensures
            final(self).raw() == old(self).raw(),
            final(self).queries() == old(self).queries() + 1,
            r is Ok <==> old(self).info(n) is Some,
            r is Ok ==> r->Ok_0 == old(self).info(n)->0,
            r is Err ==> r->Err_0 == ProviderError::OracleError,
    {
        self.query_count = Ghost(self.query_count@ + 1);
        let len: usize = self.entries.len();
        let mut i: usize = 0;
        assert(self.entries@.skip(0) =~= self.entries@);
        while i < len
            invariant
                i <= len,
                len == self.entries@.len(),
                self.entries@ == old(self).entries@,
                self.query_count@ == old(self).query_count@ + 1,
                assoc(self.entries@.skip(i as int), n) == assoc(self.entries@, n),
            decreases len - i,
        {
            let ghost rest = self.entries@.skip(i as int);
            if self.entries[i].0 == n {
                assert(rest[0] == self.entries@[i as int]);
                return Ok(self.entries[i].1);
            }
            assert(rest[0] == self.entries@[i as int]);
            assert(rest.skip(1) =~= self.entries@.skip(i as int + 1));
            i = i + 1;
        }
        assert(self.entries@.skip(len as int) =~= Seq::<(u64, BlockInfo)>::empty());
        Err(ProviderError::OracleError)
    }
}

} // verus!
