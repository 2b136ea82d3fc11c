//! Small verified helpers shared by the registry and transfer code.

use vstd::prelude::*;

verus! {

/// The sequence of `n` zero bytes: the initial contents of a freshly
/// allocated image buffer.
pub open spec fn zero_seq(n: nat) -> Seq<u8> {
    Seq::new(n, |i: int| 0u8)
}

/// Allocates a byte vector of length `n`, all zero.
pub fn zero_bytes(n: usize) -> (v: Vec<u8>)
    ensures
        v@ == zero_seq(n as nat),
{
    let mut v: Vec<u8> = Vec::new();
    let mut i: usize = 0;
    while i < n
        invariant
            i <= n,
            v@ =~= zero_seq(i as nat),
        decreases n - i,
    {
        v.push(0u8);
        i += 1;
        proof {
            assert(v@ =~= zero_seq(i as nat));
        }
    }
    proof {
        assert(v@ =~= zero_seq(n as nat));
    }
    v
}

/// Copies a vector of plain values element by element.
pub fn copy_vec<T: Copy>(src: &Vec<T>) -> (v: Vec<T>)
    ensures
        v@ == src@,
{
    let mut v: Vec<T> = Vec::new();
    let mut i: usize = 0;
    while i < src.len()
        invariant
            i <= src@.len(),
            v@ =~= src@.take(i as int),
        decreases src@.len() - i,
    {
        v.push(src[i]);
        i += 1;
        proof {
            assert(v@ =~= src@.take(i as int));
        }
    }
    proof {
        assert(src@.take(src@.len() as int) =~= src@);
    }
    v
}

/// String comparison by view, used to resolve registry names.
pub fn str_eq(a: &str, b: &str) -> (r: bool)
    ensures
        r == (a@ == b@),
{
    let sa: String = a.to_owned();
    let sb: String = b.to_owned();
    sa == sb
}

} // verus!
