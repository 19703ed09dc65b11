//! Deterministic expanders: a 32-byte seed grows into the public matrix,
//! and a seed grows into a ternary secret or noise vector. The two use
//! distinct domain tags, so the same seed material never collides between
//! the matrix role and the secret role.

use vstd::prelude::*;
use crate::params::{SEED_LEN, MAT_LEN, DOM_MATRIX, DOM_SECRET, Q_MASK};
use crate::hashing::{shake256_xof, mir_shake_xof};
use crate::ct;
use crate::sensitive::wipe_bytes;

verus! {

/// A matrix coefficient: the bottom 13 bits of a little-endian 16-bit
/// word read from the expansion stream.
pub open spec fn coeff_from_bytes(lo: u8, hi: u8) -> i16 {
    ((((lo as u16) | ((hi as u16) << 8u16)) as i32) & Q_MASK) as i16
}

/// The public matrix expanded from a seed: `MAT_LEN` coefficients taken
/// from `2 * MAT_LEN` bytes of the matrix-domain SHAKE-256 stream.
pub open spec fn spec_matrix(seed: Seq<u8>) -> Seq<i16> {
    let bytes = shake256_xof(DOM_MATRIX, seed, (2 * MAT_LEN) as nat);
    Seq::new(MAT_LEN as nat, |t: int| coeff_from_bytes(bytes[2 * t], bytes[2 * t + 1]))
}

/// A ternary vector expanded from a seed: one byte of the secret-domain
/// SHAKE-256 stream per coefficient, mapped through the ternary sampler.
pub open spec fn spec_secret(seed: Seq<u8>, len: nat) -> Seq<i16> {
    let bytes = shake256_xof(DOM_SECRET, seed, len);
    Seq::new(len, |t: int| ct::spec_ternary(bytes[t]))
}

proof fn lemma_coeff_range(lo: u8, hi: u8)
    by (bit_vector)
    ensures
        0 <= (((lo as u16) | ((hi as u16) << 8u16)) as i32) & 0x1FFFi32 <= 0x1FFF,
{
}

/// Expand a seed into the public matrix `A`. The result is a function of
/// the seed alone, and every coefficient lies in `[0, Q_MASK]`.
pub fn gen_matrix_a(seed: &Vec<u8>) -> (m: Vec<i16>)
    requires
        seed@.len() == SEED_LEN,
    ensures
        m@ == spec_matrix(seed@),
        m@.len() == MAT_LEN,
        forall|t: int| 0 <= t < MAT_LEN ==> 0 <= #[trigger] m@[t] <= Q_MASK,
{
    let mut buf = mir_shake_xof(2 * MAT_LEN, seed.as_slice(), DOM_MATRIX);
    let ghost bytes = buf@;
    let mut m: Vec<i16> = Vec::with_capacity(MAT_LEN);
    let mut i: usize = 0;
    while i < MAT_LEN
        invariant
            buf@ == bytes,
            bytes.len() == 2 * MAT_LEN,
            0 <= i <= MAT_LEN,
            m@.len() == i,
            forall|t: int|
                0 <= t < i ==> #[trigger] m@[t] == coeff_from_bytes(bytes[2 * t], bytes[2 * t + 1]),
            forall|t: int| 0 <= t < i ==> 0 <= #[trigger] m@[t] <= Q_MASK,
        decreases MAT_LEN - i,
    {
        let lo = buf[2 * i];
        let hi = buf[2 * i + 1];
        let val: u16 = (lo as u16) | ((hi as u16) << 8u16);
        proof {
            lemma_coeff_range(lo, hi);
        }
        m.push(((val as i32) & Q_MASK) as i16);
        i += 1;
    }
    wipe_bytes(&mut buf);
    proof {
        assert(m@ =~= spec_matrix(seed@));
    }
    m
}

/// Expand a seed into `len` ternary coefficients. The result is a function
/// of the seed and length alone, and every coefficient lies in `{-1, 0, 1}`.
pub fn gen_secret_from_seed(seed: &Vec<u8>, len: usize) -> (s: Vec<i16>)
    ensures
        s@ == spec_secret(seed@, len as nat),
        s@.len() == len,
        forall|t: int| 0 <= t < len ==> -1 <= #[trigger] s@[t] <= 1,
{
    let mut buf = mir_shake_xof(len, seed.as_slice(), DOM_SECRET);
    let ghost bytes = buf@;
    let mut s: Vec<i16> = Vec::with_capacity(len);
    let mut i: usize = 0;
    while i < len
        invariant
            buf@ == bytes,
            bytes.len() == len,
            0 <= i <= len,
            s@.len() == i,
            forall|t: int| 0 <= t < i ==> #[trigger] s@[t] == ct::spec_ternary(bytes[t]),
            forall|t: int| 0 <= t < i ==> -1 <= #[trigger] s@[t] <= 1,
        decreases len - i,
    {
        s.push(ct::ternary(buf[i]));
        i += 1;
    }
    wipe_bytes(&mut buf);
    proof {
        assert(s@ =~= spec_secret(seed@, len as nat));
    }
    s
}

} // verus!
