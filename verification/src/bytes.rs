//! Big-endian byte readers used to interpret fixed-layout preimages and
//! to convert 32-byte hashes, 20-byte addresses and 256-bit quantities
//! into the library's word-based representations.

use vstd::prelude::*;

use crate::types::{Addr, Hash256, Word256};

verus! {

/// The value of the 8 bytes at `off` read as one big-endian integer.
pub open spec fn spec_be_u64(b: Seq<u8>, off: int) -> int {
    b[off] * 0x100000000000000
        + b[off + 1] * 0x1000000000000
        + b[off + 2] * 0x10000000000
        + b[off + 3] * 0x100000000
        + b[off + 4] * 0x1000000
        + b[off + 5] * 0x10000
        + b[off + 6] * 0x100
        + b[off + 7]
}

/// The value of the 4 bytes at `off` read as one big-endian integer.
pub open spec fn spec_be_u32(b: Seq<u8>, off: int) -> int {
    b[off] * 0x1000000 + b[off + 1] * 0x10000 + b[off + 2] * 0x100 + b[off + 3]
}

/// The 32 bytes at `off` read as a [`Hash256`].
pub open spec fn spec_hash_at(b: Seq<u8>, off: int) -> Hash256 {
    Hash256 {
        w0: spec_be_u64(b, off) as u64,
        w1: spec_be_u64(b, off + 8) as u64,
        w2: spec_be_u64(b, off + 16) as u64,
        w3: spec_be_u64(b, off + 24) as u64,
    }
}

/// The 20 bytes at `off` read as an [`Addr`].
pub open spec fn spec_addr_at(b: Seq<u8>, off: int) -> Addr {
    Addr {
        hi: spec_be_u32(b, off) as u32,
        mid: spec_be_u64(b, off + 4) as u64,
        lo: spec_be_u64(b, off + 12) as u64,
    }
}

/// The 32 bytes at `off` read as a big-endian [`Word256`].
pub open spec fn spec_word_at(b: Seq<u8>, off: int) -> Word256 {
    Word256 {
        l0: spec_be_u64(b, off + 24) as u64,
        l1: spec_be_u64(b, off + 16) as u64,
        l2: spec_be_u64(b, off + 8) as u64,
        l3: spec_be_u64(b, off) as u64,
    }
}

/// Reads the 8 bytes at `off` as a big-endian integer.
pub fn be_u64_at(v: &Vec<u8>, off: usize) -> (r: u64)
    requires
        off + 8 <= v@.len(),
    ensures
        r == spec_be_u64(v@, off as int),
{
    let n: usize = v.len();
    assert(off + 8 <= n);
    (v[off] as u64) * 0x100000000000000
        + (v[off + 1] as u64) * 0x1000000000000
        + (v[off + 2] as u64) * 0x10000000000
        + (v[off + 3] as u64) * 0x100000000
        + (v[off + 4] as u64) * 0x1000000
        + (v[off + 5] as u64) * 0x10000
        + (v[off + 6] as u64) * 0x100
        + (v[off + 7] as u64)
}

/// Reads the 32 bytes at `off` as a [`Hash256`].
pub fn hash_at(v: &Vec<u8>, off: usize) -> (h: Hash256)
    requires
        off + 32 <= v@.len(),
    ensures
        h == spec_hash_at(v@, off as int),
{
    let n: usize = v.len();
    assert(off + 32 <= n);
    Hash256 {
        w0: be_u64_at(v, off),
        w1: be_u64_at(v, off + 8),
        w2: be_u64_at(v, off + 16),
        w3: be_u64_at(v, off + 24),
    }
}

/// Reads a 32-byte array as a [`Hash256`].
pub fn hash256_from_bytes(b: &[u8; 32]) -> (h: Hash256)
    ensures
        h == spec_hash_at(b@, 0),
{
    let v: Vec<u8> = slice_to_vec(b.as_slice());
    hash_at(&v, 0)
}

/// Reads a 20-byte array as an [`Addr`].
pub fn addr_from_bytes(b: &[u8; 20]) -> (a: Addr)
    ensures
        a == spec_addr_at(b@, 0),
{
    let v: Vec<u8> = slice_to_vec(b.as_slice());
    let hi: u32 = (v[0] as u32) * 0x1000000 + (v[1] as u32) * 0x10000 + (v[2] as u32) * 0x100
        + (v[3] as u32);
    Addr { hi, mid: be_u64_at(&v, 4), lo: be_u64_at(&v, 12) }
}

/// Reads a 32-byte array as a big-endian [`Word256`].
pub fn word256_from_be(b: &[u8; 32]) -> (w: Word256)
    ensures
        w == spec_word_at(b@, 0),
{
    let v: Vec<u8> = slice_to_vec(b.as_slice());
    Word256 {
        l0: be_u64_at(&v, 24),
        l1: be_u64_at(&v, 16),
        l2: be_u64_at(&v, 8),
        l3: be_u64_at(&v, 0),
    }
}

/// Copies a byte slice into an owned vector.
pub fn slice_to_vec(s: &[u8]) -> (r: Vec<u8>)
    ensures
        r@ == s@,
{
    let mut r: Vec<u8> = Vec::new();
    let mut i: usize = 0;
    while i < s.len()
        invariant
            i <= s@.len(),
            r@ == s@.subrange(0, i as int),
        decreases s@.len() - i,
    {
        let b: u8 = *vstd::slice::slice_index_get(s, i);
        r.push(b);
        i = i + 1;
    }
    assert(r@ == s@);
    r
}

/// Copies a byte vector.
pub fn copy_bytes(v: &Vec<u8>) -> (r: Vec<u8>)
    ensures
        r@ == v@,
{
    let mut r: Vec<u8> = Vec::new();
    let mut i: usize = 0;
    while i < v.len()
        invariant
            i <= v@.len(),
            r@ == v@.subrange(0, i as int),
        decreases v@.len() - i,
    {
        r.push(v[i]);
        i = i + 1;
    }
    assert(r@ == v@);
    r
}

/// Copies a list of byte vectors.
pub fn copy_byte_lists(v: &Vec<Vec<u8>>) -> (r: Vec<Vec<u8>>)
    ensures
        crate::types::views_of(r) == crate::types::views_of(*v),
{
    let mut r: Vec<Vec<u8>> = Vec::new();
    let mut i: usize = 0;
    while i < v.len()
        invariant
            i <= v@.len(),
            r@.len() == i,
            forall|j: int| 0 <= j < i ==> r@[j]@ == v@[j]@,
        decreases v@.len() - i,
    {
        r.push(copy_bytes(&v[i]));
        i = i + 1;
    }
    assert(crate::types::views_of(r) =~= crate::types::views_of(*v));
    r
}

} // verus!
