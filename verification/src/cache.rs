//! Number-keyed caches owned by the chain provider.  Entries are kept in
//! an association list; the most recent insertion for a key shadows any
//! older entry, so an insert behaves as a map update.

use vstd::prelude::*;

use crate::types::{Payload, PayloadView};

verus! {

/// First-match lookup in an association sequence.
pub open spec fn assoc<K, V>(s: Seq<(K, V)>, k: K) -> Option<V>
    decreases s.len(),
{
    if s.len() == 0 {
        None
    } else if s[0].0 == k {
        Some(s[0].1)
    } else {
        assoc(s.skip(1), k)
    }
}

/// A cache from block number to a copyable value.
pub struct NumCache<V> {
    entries: Vec<(u64, V)>,
}

impl<V: Copy> NumCache<V> {
    /// The map this cache holds, as a partial lookup function.
    pub closed spec fn lookup(self, n: u64) -> Option<V> {
        assoc(self.entries@, n)
    }

    pub open spec fn contains(self, n: u64) -> bool {
        self.lookup(n) is Some
    }

    pub fn new() -> (r: Self)
        ensures
            forall|m: u64| r.lookup(m) == None::<V>,
    {
        let r = NumCache { entries: Vec::new() };
        assert(forall|m: u64| r.lookup(m) == None::<V>);
        r
    }

    pub fn get(&self, n: u64) -> (r: Option<V>)
        ensures
            r == self.lookup(n),
    {
        let len: usize = self.entries.len();
        let mut i: usize = 0;
        assert(self.entries@.skip(0) =~= self.entries@);
        while i < len
            invariant
                i <= len,
                len == self.entries@.len(),
                assoc(self.entries@.skip(i as int), n) == self.lookup(n),
            decreases len - i,
        {
            let ghost rest = self.entries@.skip(i as int);
            if self.entries[i].0 == n {
                assert(rest[0] == self.entries@[i as int]);
                return Some(self.entries[i].1);
            }
            assert(rest[0] == self.entries@[i as int]);
            assert(rest.skip(1) =~= self.entries@.skip(i as int + 1));
            i = i + 1;
        }
        assert(self.entries@.skip(len as int) =~= Seq::<(u64, V)>::empty());
        None
    }

    pub fn insert(&mut self, n: u64, v: V)
        ensures
            final(self).lookup(n) == Some(v),
            forall|m: u64| m != n ==> final(self).lookup(m) == old(self).lookup(m),
    {
        let ghost before = self.entries@;
        self.entries.insert(0, (n, v));
        assert(self.entries@.skip(1) =~= before);
        assert forall|m: u64| m != n implies #[trigger] assoc(self.entries@, m) == assoc(
            before,
            m,
        ) by {
            assert(self.entries@[0].0 != m);
        }
    }
}

/// A cache from block number to an execution payload.  Payloads hold
/// owned byte vectors, so lookups hand back a fresh copy whose value
/// equals the cached one.
pub struct PayloadCache {
    entries: Vec<(u64, Payload)>,
}

impl PayloadCache {
    /// The map this cache holds, over payload values.
    pub closed spec fn lookup(self, n: u64) -> Option<PayloadView> {
        match assoc(self.entries@, n) {
            Some(p) => Some(p@),
            None => None,
        }
    }

    pub open spec fn contains(self, n: u64) -> bool {
        self.lookup(n) is Some
    }

    pub fn new() -> (r: Self)
        ensures
            forall|m: u64| r.lookup(m) == None::<PayloadView>,
    {
        let r = PayloadCache { entries: Vec::new() };
        assert(forall|m: u64| r.lookup(m) == None::<PayloadView>);
        r
    }

    pub fn get(&self, n: u64) -> (r: Option<Payload>)
        ensures
            r is Some <==> self.lookup(n) is Some,
            r is Some ==> r->0@ == self.lookup(n)->0,
    {
        let len: usize = self.entries.len();
        let mut i: usize = 0;
        assert(self.entries@.skip(0) =~= self.entries@);
        while i < len
            invariant
                i <= len,
                len == self.entries@.len(),
                assoc(self.entries@.skip(i as int), n) == assoc(self.entries@, n),
            decreases len - i,
        {
            let ghost rest = self.entries@.skip(i as int);
            if self.entries[i].0 == n {
                assert(rest[0] == self.entries@[i as int]);
                return Some(crate::transform::clone_payload(&self.entries[i].1));
            }
            assert(rest[0] == self.entries@[i as int]);
            assert(rest.skip(1) =~= self.entries@.skip(i as int + 1));
            i = i + 1;
        }
        assert(self.entries@.skip(len as int) =~= Seq::<(u64, Payload)>::empty());
        None
    }

    pub fn insert(&mut self, n: u64, p: Payload)
        ensures
            final(self).lookup(n) == Some(p@),
            forall|m: u64| m != n ==> final(self).lookup(m) == old(self).lookup(m),
    {
        let ghost before = self.entries@;
        self.entries.insert(0, (n, p));
        assert(self.entries@.skip(1) =~= before);
        assert forall|m: u64| m != n implies #[trigger] assoc(self.entries@, m) == assoc(
            before,
            m,
        ) by {
            assert(self.entries@[0].0 != m);
        }
    }
}

} // verus!
