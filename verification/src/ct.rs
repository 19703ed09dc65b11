//! Branchless constant-time primitives.
//!
//! Every function here computes its result by arithmetic on masks derived
//! from sign bits, never by a branch on the data, so its running time is
//! independent of the (possibly secret) values it is given.

use vstd::prelude::*;
use vstd::wrapping::i32_specs;

verus! {

/// The value of the ternary sampling map on a pseudo-random byte:
/// the bottom two bits choose among `{-1, 0, 1, 0}`.
pub open spec fn spec_ternary(b: u8) -> i16 {
    if b % 4 == 0 {
        -1i16
    } else if b % 4 == 2 {
        1i16
    } else {
        0i16
    }
}

/// Distance from a byte value to the nearest of the four anchor points
/// `{32, 96, 160, 224}`.
pub open spec fn spec_min_dist(v: u8) -> int {
    let d1 = abs_int(v - 32);
    let d2 = abs_int(v - 96);
    let d3 = abs_int(v - 160);
    let d4 = abs_int(v - 224);
    min_int(min_int(d1, d2), min_int(d3, d4))
}

pub open spec fn abs_int(x: int) -> int {
    if x < 0 {
        -x
    } else {
        x
    }
}

pub open spec fn min_int(a: int, b: int) -> int {
    if a < b {
        a
    } else {
        b
    }
}

/// A byte is in the safe zone when it lies strictly closer than 12
/// to one of the four anchors.
pub open spec fn spec_safe_zone(v: u8) -> u32 {
    if spec_min_dist(v) < 12 {
        1u32
    } else {
        0u32
    }
}

/// Bit `i` of a byte string, least significant bit of each byte first.
pub open spec fn bit_of(s: Seq<u8>, i: int) -> u32 {
    ((s[i / 8] >> ((i % 8) as u8)) & 1) as u32
}

/// Arithmetic right shift by 31: all-ones for a negative word, zero otherwise.
pub fn sign32(x: i32) -> (r: i32)
    ensures
        r == (if x < 0 { -1i32 } else { 0i32 }),
{
    proof {
        assert(x < 0 ==> x >> 31i32 == -1i32) by (bit_vector);
        assert(x >= 0 ==> x >> 31i32 == 0i32) by (bit_vector);
    }
    x >> 31
}

/// Branchless absolute value; like `i32::wrapping_abs`, it maps
/// `i32::MIN` to itself.
pub fn abs32(x: i32) -> (r: i32)
    ensures
        x != i32::MIN ==> r == abs_int(x as int),
        x == i32::MIN ==> r == i32::MIN,
{
    let m = sign32(x);
    proof {
        assert(x ^ 0i32 == x) by (bit_vector);
        assert(x ^ -1i32 == -1i32 - x) by (bit_vector);
    }
    (x ^ m).wrapping_sub(m)
}

/// Branchless minimum; exact whenever `a - b` does not overflow.
pub fn min32(a: i32, b: i32) -> (r: i32)
    ensures
        i32::MIN <= a - b <= i32::MAX ==> r == min_int(a as int, b as int),
{
    let d = a.wrapping_sub(b);
    let m = sign32(d);
    proof {
        assert(d & 0i32 == 0i32) by (bit_vector);
        assert(d & -1i32 == d) by (bit_vector);
    }
    b.wrapping_add(d & m)
}

/// Branchless strictly-less-than as 0/1; exact whenever `a - b` does
/// not overflow.
pub fn lt32(a: i32, b: i32) -> (r: u32)
    ensures
        i32::MIN <= a - b <= i32::MAX ==> r == (if a < b { 1u32 } else { 0u32 }),
{
    let d = a.wrapping_sub(b);
    proof {
        assert((d as u32) >> 31u32 == (if d < 0 { 1u32 } else { 0u32 })) by (bit_vector);
    }
    (d as u32) >> 31
}

/// Branchless equality test as 0/1.
pub fn eq32(a: i32, b: i32) -> (r: u32)
    ensures
        r == (if a == b { 1u32 } else { 0u32 }),
{
    let diff = a ^ b;
    let z = (diff | 0i32.wrapping_sub(diff)) as u32;
    proof {
        assert(a == b ==> (a ^ b) == 0i32) by (bit_vector);
        assert(a != b ==> (a ^ b) != 0i32) by (bit_vector);
        assert(((0i32 | i32_specs::wrapping_sub(0i32, 0i32)) as u32) >> 31u32 == 0u32)
            by (bit_vector);
        assert(forall|d: i32|
            d != 0i32 ==> ((d | #[trigger] i32_specs::wrapping_sub(0i32, d)) as u32) >> 31u32
                == 1u32) by (bit_vector);
        assert(1u32 ^ 0u32 == 1u32 && 1u32 ^ 1u32 == 0u32) by (bit_vector);
    }
    1 ^ (z >> 31)
}

/// Branchless two-way select on bytes: `a` when `cond` is 1, `b` when 0.
pub fn sel_u8(a: u8, b: u8, cond: u32) -> (r: u8)
    requires
        cond <= 1,
    ensures
        r == (if cond == 1 { a } else { b }),
{
    let mask = 0u8.wrapping_sub(cond as u8);
    proof {
        assert((a & 0u8) | (b & !0u8) == b) by (bit_vector);
        assert((a & 255u8) | (b & !255u8) == a) by (bit_vector);
    }
    (a & mask) | (b & !mask)
}

/// Branchless two-way select on 16-bit words: `a` when `cond` is 1, `b` when 0.
pub fn sel_i16(a: i16, b: i16, cond: u32) -> (r: i16)
    requires
        cond <= 1,
    ensures
        r == (if cond == 1 { a } else { b }),
{
    let mask = 0i16.wrapping_sub(cond as i16);
    proof {
        assert((a & 0i16) | (b & !0i16) == b) by (bit_vector);
        assert((a & -1i16) | (b & !-1i16) == a) by (bit_vector);
    }
    (a & mask) | (b & !mask)
}

proof fn lemma_index_split(i: usize)
    by (bit_vector)
    ensures
        i >> 3usize == i / 8,
        i & 7 == i % 8,
        i % 8 < 8,
{
}

proof fn lemma_or_bit(b: u8, v: u8, off: u8, o2: u8)
    by (bit_vector)
    requires
        off < 8,
        o2 < 8,
        v <= 1,
    ensures
        o2 != off ==> ((b | (v << off)) >> o2) & 1 == (b >> o2) & 1,
        ((b | (v << off)) >> off) & 1 == (if v == 1 { 1u8 } else { (b >> off) & 1 }),
{
}

/// OR bit `v` into position `i` of the byte string, leaving every other
/// bit as it was.
pub fn bit_set(arr: &mut Vec<u8>, i: usize, v: u32)
    requires
        i < 8 * old(arr)@.len(),
        v <= 1,
    ensures
        final(arr)@.len() == old(arr)@.len(),
        forall|j: int|
            0 <= j < 8 * old(arr)@.len() && j != i ==> bit_of(final(arr)@, j) == bit_of(
                old(arr)@,
                j,
            ),
        bit_of(final(arr)@, i as int) == (if v == 1 {
            1u32
        } else {
            bit_of(old(arr)@, i as int)
        }),
{
    proof {
        lemma_index_split(i);
    }
    let bi = i >> 3;
    let off = (i & 7) as u8;
    let b = arr[bi];
    arr.set(bi, b | ((v as u8) << off));
    proof {
        assert forall|j: int| 0 <= j < 8 * old(arr)@.len() && j != i implies bit_of(
            final(arr)@,
            j,
        ) == bit_of(old(arr)@, j) by {
            if j / 8 == i as int / 8 {
                lemma_or_bit(b, v as u8, off, (j % 8) as u8);
            }
        }
        lemma_or_bit(b, v as u8, off, off);
    }
}

/// Extract bit `i` of the byte string as 0/1.
pub fn bit_get(arr: &[u8], i: usize) -> (r: u32)
    requires
        i < 8 * arr@.len(),
    ensures
        r == bit_of(arr@, i as int),
        r <= 1,
{
    proof {
        lemma_index_split(i);
        assert(forall|b: u8, off: u8| off < 8 ==> ((b >> off) & 1) <= 1) by (bit_vector);
    }
    let b = arr[i >> 3];
    let off = (i & 7) as u8;
    ((b >> off) & 1) as u32
}

/// Constant-time ternary sampler: maps the bottom two bits of a byte
/// through `{0 -> -1, 1 -> 0, 2 -> 1, 3 -> 0}`.
pub fn ternary(r: u8) -> (t: i16)
    ensures
        t == spec_ternary(r),
        -1 <= t <= 1,
{
    proof {
        assert((r & 3) == r % 4 && (r & 3) < 4) by (bit_vector);
    }
    let val = (r & 3) as i32;
    let base = val - 1;
    let is_three = eq32(val, 3);
    sel_i16(0, base as i16, is_three)
}

/// The ternary map reads nothing but the bottom two bits of its input.
pub proof fn lemma_ternary_low_bits(b1: u8, b2: u8)
    requires
        b1 & 3 == b2 & 3,
    ensures
        spec_ternary(b1) == spec_ternary(b2),
{
    assert(b1 & 3 == b2 & 3 ==> b1 % 4 == b2 % 4) by (bit_vector);
}

/// Safe-zone predicate: 1 iff the byte lies strictly closer than 12 to
/// one of the four anchors `{32, 96, 160, 224}`.
pub fn safe_zone(v: u8) -> (r: u32)
    ensures
        r == spec_safe_zone(v),
        r <= 1,
{
    let val = v as i32;
    let d1 = abs32(val - 32);
    let d2 = abs32(val - 96);
    let d3 = abs32(val - 160);
    let d4 = abs32(val - 224);
    let m = min32(min32(d1, d2), min32(d3, d4));
    lt32(m, 12)
}

/// Two equally long byte strings that differ in a single position are
/// unequal as sequences, whatever the position.
pub proof fn lemma_single_byte_difference(a: Seq<u8>, b: Seq<u8>, i: int)
    requires
        a.len() == b.len(),
        0 <= i < a.len(),
        a[i] != b[i],
    ensures
        a != b,
{
}

proof fn lemma_or_zero(x: u8, y: u8)
    by (bit_vector)
    ensures
        (x | y) == 0 <==> (x == 0 && y == 0),
        (x ^ y) == 0 <==> x == y,
{
}

/// Constant-time slice comparison: true iff the lengths match and every
/// byte agrees, folding all differences into one accumulator so that the
/// time spent does not depend on where a difference sits.
pub fn eq_slice(a: &[u8], b: &[u8]) -> (r: bool)
    ensures
        r == (a@ == b@),
{
    if a.len() != b.len() {
        proof {
            assert(a@.len() != b@.len() ==> a@ != b@);
        }
        return false;
    }
    let mut diff = 0u8;
    let mut i: usize = 0;
    while i < a.len()
        invariant
            a@.len() == b@.len(),
            0 <= i <= a@.len(),
            diff == 0 <==> (forall|j: int| 0 <= j < i ==> a@[j] == b@[j]),
        decreases a@.len() - i,
    {
        proof {
            lemma_or_zero(diff, a@[i as int] ^ b@[i as int]);
            lemma_or_zero(a@[i as int], b@[i as int]);
        }
        diff = diff | (a[i] ^ b[i]);
        i += 1;
    }
    proof {
        if forall|j: int| 0 <= j < a@.len() ==> a@[j] == b@[j] {
            assert(a@ =~= b@);
        }
    }
    diff == 0
}

} // verus!
