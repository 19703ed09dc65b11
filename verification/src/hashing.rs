//! Domain-separated hash engine: a SHAKE-256 extendable-output function
//! and a SHA3-256 key-derivation hash, each absorbing a one-byte domain
//! tag before the data.
//!
//! What the two digests are as byte functions is not written out here;
//! their outputs are named by uninterpreted spec functions, so that every
//! contract downstream speaks of the same stream for the same inputs.

use vstd::prelude::*;
use sha3::{Shake256, Sha3_256, Digest};
use sha3::digest::{Update, ExtendableOutput, XofReader};

verus! {

/// The SHAKE-256 stream squeezed to `out_len` bytes after absorbing the
/// domain tag and then the data.
pub uninterp spec fn shake256_xof(domain: u8, data: Seq<u8>, out_len: nat) -> Seq<u8>;

/// The SHA3-256 digest of the domain tag followed by the data.
pub uninterp spec fn sha3_256_digest(domain: u8, data: Seq<u8>) -> Seq<u8>;

/// Relies on sha3's `Shake256` (`update`, `finalize_xof`, `XofReader::read`):
/// the squeezed stream is a function of the absorbed bytes alone, and `read`
/// fills the whole buffer it is given.
#[verifier::external_body]
pub(crate) fn mir_shake_xof(out_len: usize, data: &[u8], domain: u8) -> (r: Vec<u8>)
    ensures
        r@ == shake256_xof(domain, data@, out_len as nat),
        r@.len() == out_len,
{
    let mut hasher = Shake256::default();
    hasher.update(&[domain]);
    hasher.update(data);
    let mut reader = hasher.finalize_xof();
    let mut out = vec![0u8; out_len];
    reader.read(&mut out);
    out
}

/// Relies on sha3's `Sha3_256`: a 32-byte digest that is a function of the
/// absorbed bytes alone.
#[verifier::external_body]
pub(crate) fn mir_sha3_256(data: &[u8], domain: u8) -> (r: Vec<u8>)
    ensures
        r@ == sha3_256_digest(domain, data@),
        r@.len() == 32,
{
    let mut hasher = Sha3_256::new();
    Digest::update(&mut hasher, &[domain]);
    Digest::update(&mut hasher, data);
    hasher.finalize().to_vec()
}

/// SHAKE-256 of `(domain || data)`, squeezed into `out_len` bytes.
pub fn xof(out_len: usize, data: &[u8], domain: u8) -> (r: Vec<u8>)
    ensures
        r@ == shake256_xof(domain, data@, out_len as nat),
        r@.len() == out_len,
{
    mir_shake_xof(out_len, data, domain)
}

/// SHA3-256 of `(domain || data)`.
pub fn hash(data: &[u8], domain: u8) -> (r: Vec<u8>)
    ensures
        r@ == sha3_256_digest(domain, data@),
        r@.len() == 32,
{
    mir_sha3_256(data, domain)
}

} // verus!
