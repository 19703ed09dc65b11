//! Safe-zone reconciliation: the encapsulator marks the coordinates whose
//! noisy values sit safely near an anchor and harvests one bit from each;
//! the decapsulator harvests bits from the same positions, driven by the
//! received (public) mask. Both sides write through constant-time selects
//! and advance their write index without branching.

use vstd::prelude::*;
use crate::params::{N, MASK_LEN};
use crate::ct;
use crate::ct::{bit_of, spec_safe_zone};

verus! {

/// The key bit taken from a noisy value: bit 6, the bit that tells the
/// anchor pair `{32, 96}` from `{160, 224}` apart.
pub open spec fn spec_key_bit(b: u8) -> u8 {
    (b >> 6u8) & 1
}

/// The bits the encapsulator harvests from the first `n` coordinates of
/// `v`: one key bit for every coordinate in the safe zone, in order.
pub open spec fn enc_bits(v: Seq<u8>, n: int) -> Seq<u8>
    decreases n,
{
    if n <= 0 {
        Seq::empty()
    } else if spec_safe_zone(v[n - 1]) == 1 {
        enc_bits(v, n - 1).push(spec_key_bit(v[n - 1]))
    } else {
        enc_bits(v, n - 1)
    }
}

/// The bits the decapsulator harvests from the first `n` coordinates of
/// `v` under the received mask: one key bit per set mask bit, in order.
pub open spec fn dec_bits(v: Seq<u8>, mask: Seq<u8>, n: int) -> Seq<u8>
    decreases n,
{
    if n <= 0 {
        Seq::empty()
    } else if bit_of(mask, n - 1) == 1 {
        dec_bits(v, mask, n - 1).push(spec_key_bit(v[n - 1]))
    } else {
        dec_bits(v, mask, n - 1)
    }
}

/// The number of set bits among the first `n` bits of the mask.
pub open spec fn popcount_upto(mask: Seq<u8>, n: int) -> int
    decreases n,
{
    if n <= 0 {
        0
    } else {
        popcount_upto(mask, n - 1) + bit_of(mask, n - 1)
    }
}

/// The number of set bits of the whole mask.
pub open spec fn popcount(mask: Seq<u8>) -> int {
    popcount_upto(mask, 8 * mask.len() as int)
}

proof fn lemma_popcount_congruent(m1: Seq<u8>, m2: Seq<u8>, n: int)
    requires
        forall|j: int| 0 <= j < n ==> bit_of(m1, j) == bit_of(m2, j),
    ensures
        popcount_upto(m1, n) == popcount_upto(m2, n),
    decreases n,
{
    if n > 0 {
        lemma_popcount_congruent(m1, m2, n - 1);
    }
}

/// A mask whose bits record exactly which coordinates are safe makes the
/// decapsulator's harvest agree bit-for-bit with the encapsulator's: the
/// deterministic half of round-trip agreement. Coordinates where noise
/// moved the decapsulator's value are outside this statement.
pub proof fn lemma_harvest_agreement(v: Seq<u8>, mask: Seq<u8>, n: int)
    requires
        forall|j: int| 0 <= j < n ==> bit_of(mask, j) == spec_safe_zone(v[j]),
    ensures
        dec_bits(v, mask, n) == enc_bits(v, n),
    decreases n,
{
    if n > 0 {
        lemma_harvest_agreement(v, mask, n - 1);
    }
}

proof fn lemma_zero_byte_bits(o: u8)
    by (bit_vector)
    ensures
        o < 8 ==> (0u8 >> o) & 1 == 0,
{
}

/// A vector of `len` zero bytes.
pub fn zero_bytes(len: usize) -> (r: Vec<u8>)
    ensures
        r@.len() == len,
        forall|t: int| 0 <= t < len ==> #[trigger] r@[t] == 0u8,
{
    let mut r: Vec<u8> = Vec::new();
    let mut i: usize = 0;
    while i < len
        invariant
            0 <= i <= len,
            r@.len() == i,
            forall|t: int| 0 <= t < i ==> #[trigger] r@[t] == 0u8,
        decreases len - i,
    {
        r.push(0u8);
        i += 1;
    }
    r
}

/// Safe-zone selection on the encapsulator's noisy values: returns the
/// mask recording which coordinates are safe, a scratch buffer whose
/// first `cnt` bytes are the harvested bits, and the count of safe
/// coordinates, which always equals the mask's population count.
pub fn safe_select(v: &Vec<u8>) -> (r: (Vec<u8>, Vec<u8>, u16))
    requires
        v@.len() == N,
    ensures
        r.0@.len() == MASK_LEN,
        forall|j: int| 0 <= j < N ==> bit_of(r.0@, j) == spec_safe_zone(v@[j]),
        r.2 as int == popcount(r.0@),
        r.2 as int == enc_bits(v@, N as int).len(),
        r.2 <= N,
        r.1@.len() == N,
        r.1@.subrange(0, r.2 as int) == enc_bits(v@, N as int),
{
    let mut mask = zero_bytes(MASK_LEN);
    let mut buf = zero_bytes(N);
    let mut widx: usize = 0;
    proof {
        assert forall|j: int| 0 <= j < 8 * MASK_LEN implies bit_of(mask@, j) == 0u32 by {
            lemma_zero_byte_bits((j % 8) as u8);
        }
    }
    let mut idx: usize = 0;
    while idx < N
        invariant
            v@.len() == N,
            mask@.len() == MASK_LEN,
            buf@.len() == N,
            0 <= idx <= N,
            widx as int == enc_bits(v@, idx as int).len(),
            widx <= idx,
            forall|j: int| 0 <= j < idx ==> bit_of(mask@, j) == spec_safe_zone(v@[j]),
            forall|j: int| idx <= j < 8 * MASK_LEN ==> bit_of(mask@, j) == 0u32,
            widx as int == popcount_upto(mask@, idx as int),
            buf@.subrange(0, widx as int) == enc_bits(v@, idx as int),
        decreases N - idx,
    {
        let ghost mask_before = mask@;
        let ghost buf_before = buf@;
        let val = v[idx];
        let safe = ct::safe_zone(val);
        ct::bit_set(&mut mask, idx, safe);
        proof {
            lemma_popcount_congruent(mask@, mask_before, idx as int);
        }
        let bit = (val >> 6u8) & 1;
        let bold = buf[widx];
        buf.set(widx, ct::sel_u8(bit, bold, safe));
        proof {
            if safe == 1 {
                assert(buf@.subrange(0, widx + 1) =~= enc_bits(v@, idx + 1));
            } else {
                assert(buf@ =~= buf_before);
                assert(buf@.subrange(0, widx as int) == enc_bits(v@, idx + 1));
            }
        }
        widx = widx + (safe as usize);
        idx += 1;
    }
    let cnt = widx as u16;
    (mask, buf, cnt)
}

/// Mask-driven harvest on the decapsulator's noisy values: returns a
/// scratch buffer whose first `widx` bytes are the harvested bits, and
/// the write index `widx`. The mask is public, so the data-independent
/// select here protects only the harvested values themselves.
pub fn mask_harvest(v: &Vec<u8>, mask: &Vec<u8>) -> (r: (Vec<u8>, usize))
    requires
        v@.len() == N,
        mask@.len() == MASK_LEN,
    ensures
        r.1 <= N,
        r.1 as int == dec_bits(v@, mask@, N as int).len(),
        r.0@.len() == N,
        r.0@.subrange(0, r.1 as int) == dec_bits(v@, mask@, N as int),
{
    let mut buf = zero_bytes(N);
    let mut widx: usize = 0;
    let mut idx: usize = 0;
    while idx < N
        invariant
            v@.len() == N,
            mask@.len() == MASK_LEN,
            buf@.len() == N,
            0 <= idx <= N,
            widx as int == dec_bits(v@, mask@, idx as int).len(),
            widx <= idx,
            buf@.subrange(0, widx as int) == dec_bits(v@, mask@, idx as int),
        decreases N - idx,
    {
        let ghost buf_before = buf@;
        let val = v[idx];
        let sel = ct::bit_get(mask.as_slice(), idx);
        let bit = (val >> 6u8) & 1;
        let bold = buf[widx];
        buf.set(widx, ct::sel_u8(bit, bold, sel));
        proof {
            if sel == 1 {
                assert(buf@.subrange(0, widx + 1) =~= dec_bits(v@, mask@, idx + 1));
            } else {
                assert(buf@ =~= buf_before);
                assert(buf@.subrange(0, widx as int) == dec_bits(v@, mask@, idx + 1));
            }
        }
        widx = widx + (sel as usize);
        idx += 1;
    }
    (buf, widx)
}

} // verus!
