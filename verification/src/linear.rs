//! The linear core: component-wise matrix-vector products and scalar
//! inner products under the 13-bit mask and the compression shift.
//!
//! Coordinate `j` of every output depends only on coordinate `j` of each
//! input vector; the sum runs over the `l` index alone. There is no
//! cross-coordinate mixing: the scheme works over plain LWE per
//! coordinate, not over a polynomial ring.

use vstd::prelude::*;
use vstd::wrapping::i32_specs;
use vstd::arithmetic::div_mod::{lemma_small_mod, lemma_mod_add_multiples_vanish};
use crate::params::{N, K, VEC_LEN, MAT_LEN, Q_MASK, SHIFT};

verus! {

/// Compression of an accumulated scalar: keep the bottom 13 bits, then
/// shift 5 of them away, leaving an 8-bit value.
pub open spec fn spec_compress(acc: i32) -> u8 {
    ((acc & Q_MASK) >> SHIFT) as u8
}

/// The low byte of an accumulated scalar.
pub open spec fn spec_lowbyte(acc: i32) -> u8 {
    (acc & 0xFFi32) as u8
}

/// Partial sum over the first `l` of the `K` terms of coordinate `(i, j)`
/// of the product `A * s`, with `A` indexed row-first.
pub open spec fn dot_row(a: Seq<i16>, s: Seq<i16>, i: int, j: int, l: int) -> int
    decreases l,
{
    if l <= 0 {
        0
    } else {
        dot_row(a, s, i, j, l - 1) + a[i * (K * N) + (l - 1) * N + j] * s[(l - 1) * N + j]
    }
}

/// Partial sum for the transposed product `A^T * r`: the first matrix
/// index runs over `l`, the second is fixed at `i`.
pub open spec fn dot_col(a: Seq<i16>, r: Seq<i16>, i: int, j: int, l: int) -> int
    decreases l,
{
    if l <= 0 {
        0
    } else {
        dot_col(a, r, i, j, l - 1) + a[(l - 1) * (K * N) + i * N + j] * r[(l - 1) * N + j]
    }
}

/// Partial sum of the scalar inner product at coordinate `j`, between a
/// compressed byte vector and a ternary vector.
pub open spec fn dot_inner(x: Seq<u8>, y: Seq<i16>, j: int, l: int) -> int
    decreases l,
{
    if l <= 0 {
        0
    } else {
        dot_inner(x, y, j, l - 1) + x[(l - 1) * N + j] * y[(l - 1) * N + j]
    }
}

/// The compressed vector `b = compress(A * s)`, flattened as `K` blocks
/// of `N` bytes.
pub open spec fn spec_b_vec(a: Seq<i16>, s: Seq<i16>) -> Seq<u8> {
    Seq::new(VEC_LEN as nat, |t: int| spec_compress(dot_row(a, s, t / N as int, t % N as int, K as int) as i32))
}

/// The compressed vector `u = compress(A^T * r)`, flattened as `K` blocks
/// of `N` bytes.
pub open spec fn spec_u_vec(a: Seq<i16>, r: Seq<i16>) -> Seq<u8> {
    Seq::new(VEC_LEN as nat, |t: int| spec_compress(dot_col(a, r, t / N as int, t % N as int, K as int) as i32))
}

/// The `N` low bytes of the scalar inner products between `x` and `y`.
pub open spec fn spec_v_vec(x: Seq<u8>, y: Seq<i16>) -> Seq<u8> {
    Seq::new(N as nat, |j: int| spec_lowbyte(dot_inner(x, y, j, K as int) as i32))
}

/// Every coefficient of the matrix lies in `[0, Q_MASK]`.
pub open spec fn matrix_in_range(a: Seq<i16>) -> bool {
    forall|t: int| 0 <= t < a.len() ==> 0 <= #[trigger] a[t] <= Q_MASK
}

/// Every coefficient of the vector is ternary.
pub open spec fn ternary_seq(s: Seq<i16>) -> bool {
    forall|t: int| 0 <= t < s.len() ==> -1 <= #[trigger] s[t] <= 1
}

proof fn lemma_signed_crop_id(p: int)
    requires
        i32::MIN <= p <= i32::MAX,
    ensures
        i32_specs::signed_crop(p) == p as i32,
{
    let r = 0x1_0000_0000int;
    if p >= 0 {
        lemma_small_mod(p as nat, r as nat);
    } else {
        lemma_mod_add_multiples_vanish(p, r);
        lemma_small_mod((p + r) as nat, r as nat);
    }
}

proof fn lemma_compress_range(acc: i32)
    by (bit_vector)
    ensures
        0 <= (acc & 0x1FFFi32) >> 5u32 < 256,
        0 <= acc & 0xFFi32 < 256,
{
}

/// A product of an in-range matrix coefficient and a ternary coefficient
/// stays within `[-Q_MASK, Q_MASK]`.
proof fn lemma_term_bound(a: int, s: int)
    requires
        0 <= a <= Q_MASK,
        -1 <= s <= 1,
    ensures
        -(Q_MASK as int) <= a * s <= Q_MASK,
{
    if s == -1 {
        assert(a * s == -a);
    } else if s == 0 {
        assert(a * s == 0);
    } else {
        assert(a * s == a);
    }
}

/// A product of a byte and a ternary coefficient stays within `[-255, 255]`.
proof fn lemma_byte_term_bound(x: int, s: int)
    requires
        0 <= x <= 255,
        -1 <= s <= 1,
    ensures
        -255 <= x * s <= 255,
{
    if s == -1 {
        assert(x * s == -x);
    } else if s == 0 {
        assert(x * s == 0);
    } else {
        assert(x * s == x);
    }
}

/// Compute `b = compress(A * s)`.
pub fn matvec_row(a: &Vec<i16>, s: &Vec<i16>) -> (b: Vec<u8>)
    requires
        a@.len() == MAT_LEN,
        s@.len() == VEC_LEN,
        matrix_in_range(a@),
        ternary_seq(s@),
    ensures
        b@ == spec_b_vec(a@, s@),
        b@.len() == VEC_LEN,
{
    let mut b: Vec<u8> = Vec::new();
    let mut i: usize = 0;
    while i < K
        invariant
            a@.len() == MAT_LEN,
            s@.len() == VEC_LEN,
            matrix_in_range(a@),
            ternary_seq(s@),
            0 <= i <= K,
            b@.len() == i * N,
            forall|t: int|
                0 <= t < i * N ==> #[trigger] b@[t] == spec_compress(
                    dot_row(a@, s@, t / N as int, t % N as int, K as int) as i32,
                ),
        decreases K - i,
    {
        let mut j: usize = 0;
        while j < N
            invariant
                a@.len() == MAT_LEN,
                s@.len() == VEC_LEN,
                matrix_in_range(a@),
                ternary_seq(s@),
                0 <= i < K,
                0 <= j <= N,
                b@.len() == i * N + j,
                forall|t: int|
                    0 <= t < i * N + j ==> #[trigger] b@[t] == spec_compress(
                        dot_row(a@, s@, t / N as int, t % N as int, K as int) as i32,
                    ),
            decreases N - j,
        {
            let mut acc: i32 = 0;
            let mut l: usize = 0;
            while l < K
                invariant
                    a@.len() == MAT_LEN,
                    s@.len() == VEC_LEN,
                    matrix_in_range(a@),
                    ternary_seq(s@),
                    0 <= i < K,
                    0 <= j < N,
                    0 <= l <= K,
                    acc == dot_row(a@, s@, i as int, j as int, l as int),
                    -(l as int) * Q_MASK <= acc <= (l as int) * Q_MASK,
                decreases K - l,
            {
                let idx_a = i * (K * N) + l * N + j;
                let idx_s = l * N + j;
                let av = a[idx_a];
                let sv = s[idx_s];
                proof {
                    lemma_term_bound(av as int, sv as int);
                    lemma_signed_crop_id((av as int) * (sv as int));
                }
                let term = (av as i32).wrapping_mul(sv as i32);
                acc = acc.wrapping_add(term);
                l += 1;
            }
            proof {
                lemma_compress_range(acc);
                assert((i * N + j) / N as int == i && (i * N + j) % N as int == j) by (nonlinear_arith)
                    requires 0 <= j < N, 0 <= i, N == 256;
            }
            b.push(((acc & Q_MASK) >> SHIFT) as u8);
            j += 1;
        }
        i += 1;
    }
    proof {
        assert(b@ =~= spec_b_vec(a@, s@));
    }
    b
}

/// Compute `u = compress(A^T * r)`.
pub fn matvec_col(a: &Vec<i16>, r: &Vec<i16>) -> (u: Vec<u8>)
    requires
        a@.len() == MAT_LEN,
        r@.len() == VEC_LEN,
        matrix_in_range(a@),
        ternary_seq(r@),
    ensures
        u@ == spec_u_vec(a@, r@),
        u@.len() == VEC_LEN,
{
    let mut u: Vec<u8> = Vec::new();
    let mut i: usize = 0;
    while i < K
        invariant
            a@.len() == MAT_LEN,
            r@.len() == VEC_LEN,
            matrix_in_range(a@),
            ternary_seq(r@),
            0 <= i <= K,
            u@.len() == i * N,
            forall|t: int|
                0 <= t < i * N ==> #[trigger] u@[t] == spec_compress(
                    dot_col(a@, r@, t / N as int, t % N as int, K as int) as i32,
                ),
        decreases K - i,
    {
        let mut j: usize = 0;
        while j < N
            invariant
                a@.len() == MAT_LEN,
                r@.len() == VEC_LEN,
                matrix_in_range(a@),
                ternary_seq(r@),
                0 <= i < K,
                0 <= j <= N,
                u@.len() == i * N + j,
                forall|t: int|
                    0 <= t < i * N + j ==> #[trigger] u@[t] == spec_compress(
                        dot_col(a@, r@, t / N as int, t % N as int, K as int) as i32,
                    ),
            decreases N - j,
        {
            let mut acc: i32 = 0;
            let mut l: usize = 0;
            while l < K
                invariant
                    a@.len() == MAT_LEN,
                    r@.len() == VEC_LEN,
                    matrix_in_range(a@),
                    ternary_seq(r@),
                    0 <= i < K,
                    0 <= j < N,
                    0 <= l <= K,
                    acc == dot_col(a@, r@, i as int, j as int, l as int),
                    -(l as int) * Q_MASK <= acc <= (l as int) * Q_MASK,
                decreases K - l,
            {
                proof {
                    assert(l * (K * N) <= 4 * (K * N)) by (nonlinear_arith)
                        requires l <= 4;
                }
                let idx_a = l * (K * N) + i * N + j;
                let idx_r = l * N + j;
                let av = a[idx_a];
                let rv = r[idx_r];
                proof {
                    lemma_term_bound(av as int, rv as int);
                    lemma_signed_crop_id((av as int) * (rv as int));
                }
                let term = (av as i32).wrapping_mul(rv as i32);
                acc = acc.wrapping_add(term);
                l += 1;
            }
            proof {
                lemma_compress_range(acc);
                assert((i * N + j) / N as int == i && (i * N + j) % N as int == j) by (nonlinear_arith)
                    requires 0 <= j < N, 0 <= i, N == 256;
            }
            u.push(((acc & Q_MASK) >> SHIFT) as u8);
            j += 1;
        }
        i += 1;
    }
    proof {
        assert(u@ =~= spec_u_vec(a@, r@));
    }
    u
}

/// Compute the `N` low bytes of the coordinate-wise inner products
/// between a compressed byte vector and a ternary vector.
pub fn inner_prods(x: &Vec<u8>, y: &Vec<i16>) -> (v: Vec<u8>)
    requires
        x@.len() == VEC_LEN,
        y@.len() == VEC_LEN,
        ternary_seq(y@),
    ensures
        v@ == spec_v_vec(x@, y@),
        v@.len() == N,
{
    let mut v: Vec<u8> = Vec::with_capacity(N);
    let mut j: usize = 0;
    while j < N
        invariant
            x@.len() == VEC_LEN,
            y@.len() == VEC_LEN,
            ternary_seq(y@),
            0 <= j <= N,
            v@.len() == j,
            forall|t: int|
                0 <= t < j ==> #[trigger] v@[t] == spec_lowbyte(
                    dot_inner(x@, y@, t, K as int) as i32,
                ),
        decreases N - j,
    {
        let mut acc: i32 = 0;
        let mut l: usize = 0;
        while l < K
            invariant
                x@.len() == VEC_LEN,
                y@.len() == VEC_LEN,
                ternary_seq(y@),
                0 <= j < N,
                0 <= l <= K,
                acc == dot_inner(x@, y@, j as int, l as int),
                -(l as int) * 255 <= acc <= (l as int) * 255,
            decreases K - l,
        {
            let idx = l * N + j;
            let xv = x[idx];
            let yv = y[idx];
            proof {
                lemma_byte_term_bound(xv as int, yv as int);
                lemma_signed_crop_id((xv as int) * (yv as int));
            }
            let term = (xv as i32).wrapping_mul(yv as i32);
            acc = acc.wrapping_add(term);
            l += 1;
        }
        proof {
            lemma_compress_range(acc);
        }
        v.push((acc & 0xFF) as u8);
        j += 1;
    }
    proof {
        assert(v@ =~= spec_v_vec(x@, y@));
    }
    v
}

} // verus!
