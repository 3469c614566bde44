//! Byte vectors: zero-filled ones and copies.
use vstd::prelude::*;

verus! {

/// A copy of `v`.
pub fn copy_bytes(v: &Vec<u8>) -> (c: Vec<u8>)
    ensures
        c@ == v@,
{
    let mut c: Vec<u8> = Vec::new();
    let mut i: usize = 0;
    while i < v.len()
        invariant
            i <= v.len(),
            c@ == v@.subrange(0, i as int),
        decreases v.len() - i,
    {
        c.push(v[i]);
        i = i + 1;
    }
    assert(c@ =~= v@);
    c
}

/// A vector of `n` zero bytes.
pub fn zeroed(n: usize) -> (v: Vec<u8>)
    ensures
        v@ == Seq::new(n as nat, |i: int| 0u8),
{
    let mut v: Vec<u8> = Vec::new();
    while v.len() < n
        invariant
            v.len() <= n,
            forall|k: int| 0 <= k < v.len() ==> v@[k] == 0,
        decreases n - v.len(),
    {
        v.push(0);
    }
    assert(v@ =~= Seq::new(n as nat, |i: int| 0u8));
    v
}

} // verus!
