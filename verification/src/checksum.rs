//! Additive checksum over byte slices.
//!
//! The wire protocol uses a plain byte sum, not a cyclic-redundancy code:
//! the sum of the byte values, accumulated without overflow checking in a
//! 32-bit accumulator. The full 32-bit width checksums firmware chunks; the
//! low 16 bits checksum frame headers. The weakness of the scheme is part of
//! the wire format and is preserved exactly.

use vstd::prelude::*;
use vstd::arithmetic::div_mod::lemma_small_mod;
use vstd::seq_lib::{commutative_foldl, lemma_fold_left_permutation};

verus! {

/// Mathematical sum of the byte values of a sequence.
pub open spec fn sum_bytes(s: Seq<u8>) -> int {
    s.fold_left(0int, |acc: int, b: u8| acc + b)
}

/// The 32-bit accumulator value: the byte sum reduced modulo 2^32, exactly
/// what repeated wrapping addition in a `u32` produces.
pub open spec fn checksum32(s: Seq<u8>) -> u32 {
    (sum_bytes(s) % 0x1_0000_0000) as u32
}

/// Dropping the last element subtracts its value from the sum.
pub proof fn lemma_sum_bytes_last(s: Seq<u8>)
    requires
        s.len() > 0,
    ensures
        sum_bytes(s) == sum_bytes(s.drop_last()) + s.last(),
{
}

/// The byte sum lies between 0 and 255 per byte summed.
pub proof fn lemma_sum_bytes_bounds(s: Seq<u8>)
    ensures
        0 <= sum_bytes(s) <= 255 * s.len(),
    decreases s.len(),
{
    if s.len() > 0 {
        lemma_sum_bytes_last(s);
        lemma_sum_bytes_bounds(s.drop_last());
    }
}

/// The checksum is insensitive to byte order: any two sequences holding the
/// same bytes (as a multiset, so in any order) have the same sum. This is
/// what distinguishes the scheme from a cyclic-redundancy code, whose value
/// depends on position.
pub proof fn lemma_sum_bytes_permutation(s1: Seq<u8>, s2: Seq<u8>)
    requires
        s1.to_multiset() == s2.to_multiset(),
    ensures
        sum_bytes(s1) == sum_bytes(s2),
{
    let f = |acc: int, b: u8| acc + b;
    assert(commutative_foldl(f));
    lemma_fold_left_permutation(s1, s2, f, 0int);
}

/// Sum of the byte values of `data`, accumulated in a `u32` without overflow
/// checking (wrapping on overflow, which a slice shorter than about 16 MiB
/// can never reach).
pub fn updater_calc_crc(data: &[u8]) -> (r: u32)
    ensures
        r == checksum32(data@),
        sum_bytes(data@) < 0x1_0000_0000 ==> r == sum_bytes(data@),
{
    let mut sum: u32 = 0;
    let mut i: usize = 0;
    while i < data.len()
        invariant
            i <= data@.len(),
            sum == checksum32(data@.subrange(0, i as int)),
        decreases data@.len() - i,
    {
        proof {
            let pre = data@.subrange(0, i as int);
            let post = data@.subrange(0, i + 1 as int);
            assert(post.drop_last() =~= pre);
            lemma_sum_bytes_last(post);
            lemma_sum_bytes_bounds(pre);
            assert((sum_bytes(pre) % 0x1_0000_0000 + data@[i as int]) % 0x1_0000_0000
                == (sum_bytes(pre) + data@[i as int]) % 0x1_0000_0000) by {
                vstd::arithmetic::div_mod::lemma_add_mod_noop(
                    sum_bytes(pre),
                    data@[i as int] as int,
                    0x1_0000_0000,
                );
                lemma_small_mod(data@[i as int] as nat, 0x1_0000_0000);
            }
        }
        sum = sum.wrapping_add(data[i] as u32);
        i = i + 1;
    }
    proof {
        assert(data@.subrange(0, data@.len() as int) =~= data@);
        lemma_sum_bytes_bounds(data@);
        if sum_bytes(data@) < 0x1_0000_0000 {
            lemma_small_mod(sum_bytes(data@) as nat, 0x1_0000_0000);
        }
    }
    sum
}

} // verus!
