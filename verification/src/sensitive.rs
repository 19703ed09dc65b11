//! Fresh randomness and guaranteed wiping of secret buffers.

use vstd::prelude::*;
use rand::RngCore;
use rand::rngs::OsRng;
use zeroize::Zeroize;

verus! {

/// Relies on rand's `OsRng::fill_bytes`: fills the buffer with bytes from
/// the operating system's random source, and panics rather than continue
/// if that source fails.
#[verifier::external_body]
pub(crate) fn os_random(len: usize) -> (r: Vec<u8>)
    ensures
        r@.len() == len,
{
    let mut buf = vec![0u8; len];
    OsRng.fill_bytes(&mut buf);
    buf
}

/// Relies on zeroize's `Zeroize` for `Vec`: every element and the spare
/// capacity are overwritten with zeros through writes the optimizer cannot
/// elide, and the vector is left empty.
#[verifier::external_body]
pub(crate) fn wipe_bytes(buf: &mut Vec<u8>)
    ensures
        final(buf)@.len() == 0,
    opens_invariants none
    no_unwind
{
    buf.zeroize();
}

/// Relies on zeroize's `Zeroize` for `Vec`: every element and the spare
/// capacity are overwritten with zeros through writes the optimizer cannot
/// elide, and the vector is left empty.
#[verifier::external_body]
pub(crate) fn wipe_coeffs(buf: &mut Vec<i16>)
    ensures
        final(buf)@.len() == 0,
    opens_invariants none
    no_unwind
{
    buf.zeroize();
}

} // verus!
