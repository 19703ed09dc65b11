//! The KEM top level: key generation, encapsulation and decapsulation,
//! together with the public-key, ciphertext, shared-key and secret-vault
//! containers. Secret material lives in owned buffers that are wiped on
//! destruction; the long-term secret is reachable only through a scoped
//! callback.

use vstd::prelude::*;
use crate::params::{N, SEED_LEN, SHARED_LEN, VEC_LEN, MASK_LEN, DOM_HASH};
use crate::ct;
use crate::ct::{bit_of, spec_safe_zone};
use crate::expand::{spec_matrix, spec_secret, gen_matrix_a, gen_secret_from_seed};
use crate::linear::{spec_b_vec, spec_u_vec, spec_v_vec, ternary_seq, matvec_row, matvec_col,
    inner_prods};
use crate::recon::{enc_bits, dec_bits, popcount, zero_bytes, safe_select, mask_harvest,
    lemma_harvest_agreement};
use crate::hashing::{sha3_256_digest, mir_sha3_256};
use crate::sensitive::{os_random, wipe_bytes, wipe_coeffs};

verus! {

/// Public key: the seed that regenerates the matrix `A`, and the
/// compressed vector `b`. Carries no secrets.
#[derive(Clone)]
pub struct MirPubkey {
    pub seed: Vec<u8>,
    pub b: Vec<u8>,
}

impl MirPubkey {
    /// The seed has its fixed length and `b` holds one compressed
    /// coefficient per coordinate.
    pub open spec fn wf(&self) -> bool {
        self.seed@.len() == SEED_LEN && self.b@.len() == VEC_LEN
    }
}

impl Default for MirPubkey {
    /// An all-zero public key of the right shape.
    fn default() -> (r: Self)
        ensures
            r.wf(),
            forall|t: int| 0 <= t < SEED_LEN ==> #[trigger] r.seed@[t] == 0u8,
            forall|t: int| 0 <= t < VEC_LEN ==> #[trigger] r.b@[t] == 0u8,
    {
        MirPubkey { seed: zero_bytes(SEED_LEN), b: zero_bytes(VEC_LEN) }
    }
}

impl Drop for MirPubkey {
    /// Wipes both buffers; kept for defense in depth, the key is public.
    fn drop(&mut self)
        opens_invariants none
        no_unwind
    {
        wipe_bytes(&mut self.seed);
        wipe_bytes(&mut self.b);
    }
}

/// Ciphertext: the compressed vector `u`, one mask bit per coordinate
/// telling the decapsulator which coordinates are reliable, and the
/// number of set mask bits. Publicly observable.
#[derive(Clone)]
pub struct MirCiphertext {
    pub u: Vec<u8>,
    pub mask: Vec<u8>,
    pub cnt: u16,
}

impl MirCiphertext {
    /// `u` holds one byte per coordinate and the mask one bit per
    /// coordinate.
    pub open spec fn wf(&self) -> bool {
        self.u@.len() == VEC_LEN && self.mask@.len() == MASK_LEN
    }
}

/// The 32-byte shared secret. Wiped on destruction.
#[derive(Clone)]
pub struct MirSharedKey {
    pub key: Vec<u8>,
}

impl Drop for MirSharedKey {
    fn drop(&mut self)
        opens_invariants none
        no_unwind
    {
        wipe_bytes(&mut self.key);
    }
}

/// Protected container for the secret vector `s`. The coefficients are
/// reachable only through a scoped callback, so no caller can hold a
/// long-lived alias to the inner buffer, and the buffer is overwritten
/// with zeros when the vault is destroyed.
pub struct MirSecretVault {
    secret_s: Vec<i16>,
}

impl View for MirSecretVault {
    type V = Seq<i16>;

    closed spec fn view(&self) -> Seq<i16> {
        self.secret_s@
    }
}

impl MirSecretVault {
    /// The vault holds one ternary coefficient per coordinate.
    pub open spec fn wf(&self) -> bool {
        self@.len() == VEC_LEN && ternary_seq(self@)
    }

    pub fn new(s: Vec<i16>) -> (vault: Self)
        ensures
            vault@ == s@,
    {
        MirSecretVault { secret_s: s }
    }

    /// Run a callback over a read-only view of the secret coefficients;
    /// the borrow ends before `access` returns.
    pub fn access<F, R>(&self, f: F) -> (r: R) where F: FnOnce(&Vec<i16>) -> R,
        requires
            forall|v: &Vec<i16>| v@ == self@ ==> #[trigger] call_requires(f, (v,)),
        ensures
            exists|v: &Vec<i16>| v@ == self@ && #[trigger] call_ensures(f, (v,), r),
    {
        f(&self.secret_s)
    }
}

impl Drop for MirSecretVault {
    fn drop(&mut self)
        opens_invariants none
        no_unwind
    {
        wipe_coeffs(&mut self.secret_s);
    }
}

/// What a ciphertext and shared key produced from a given public key and
/// ephemeral seed look like: with `r` the ternary expansion of the seed
/// and `v` the noisy inner products, `u` is the compressed transposed
/// product, the mask records exactly the safe coordinates of `v`, the
/// count is the number of harvested bits, and the key is the hash of
/// those bits.
pub open spec fn encaps_rel(pk: MirPubkey, eph: Seq<u8>, ct: MirCiphertext, key: MirSharedKey) -> bool {
    let r = spec_secret(eph, VEC_LEN as nat);
    let a = spec_matrix(pk.seed@);
    let v = spec_v_vec(pk.b@, r);
    &&& ct.u@ == spec_u_vec(a, r)
    &&& (forall|j: int| 0 <= j < N ==> bit_of(ct.mask@, j) == spec_safe_zone(v[j]))
    &&& ct.cnt as int == enc_bits(v, N as int).len()
    &&& key.key@ == sha3_256_digest(DOM_HASH, enc_bits(v, N as int))
}

fn sub_bytes(v: &Vec<u8>, start: usize, end: usize) -> (r: Vec<u8>)
    requires
        start <= end <= v@.len(),
    ensures
        r@ == v@.subrange(start as int, end as int),
{
    let mut r: Vec<u8> = Vec::with_capacity(end - start);
    let mut i: usize = start;
    while i < end
        invariant
            start <= i <= end <= v@.len(),
            r@.len() == i - start,
            forall|t: int| 0 <= t < i - start ==> #[trigger] r@[t] == v@[start + t],
        decreases end - i,
    {
        r.push(v[i]);
        i += 1;
    }
    proof {
        assert(r@ =~= v@.subrange(start as int, end as int));
    }
    r
}

/// Generate a key pair: one drawn master buffer splits into the public
/// seed and a secret seed; the vault owns the ternary expansion of the
/// secret half, and the public key's `b` is the compressed product of
/// the seed-expanded matrix with that secret.
pub fn keygen() -> (r: (MirPubkey, MirSecretVault))
    ensures
        r.0.wf(),
        r.1.wf(),
        r.0.b@ == spec_b_vec(spec_matrix(r.0.seed@), r.1@),
        exists|m: Seq<u8>|
            m.len() == 2 * SEED_LEN && r.0.seed@ == m.subrange(0, SEED_LEN as int) && r.1@
                == spec_secret(m.subrange(SEED_LEN as int, 2 * SEED_LEN as int), VEC_LEN as nat),
{
    let mut master = os_random(2 * SEED_LEN);
    let ghost m = master@;
    let seed_pub = sub_bytes(&master, 0, SEED_LEN);
    let mut seed_sec = sub_bytes(&master, SEED_LEN, 2 * SEED_LEN);
    let s = gen_secret_from_seed(&seed_sec, VEC_LEN);
    wipe_bytes(&mut master);
    wipe_bytes(&mut seed_sec);
    let a = gen_matrix_a(&seed_pub);
    let b = matvec_row(&a, &s);
    let pk = MirPubkey { seed: seed_pub, b };
    let vault = MirSecretVault::new(s);
    proof {
        assert(m.len() == 2 * SEED_LEN && pk.seed@ == m.subrange(0, SEED_LEN as int) && vault@
            == spec_secret(m.subrange(SEED_LEN as int, 2 * SEED_LEN as int), VEC_LEN as nat));
    }
    (pk, vault)
}

/// Encapsulate against a public key with a caller-supplied ephemeral
/// seed: a deterministic function of its two arguments.
pub fn encaps_from_seed(pk: &MirPubkey, eph_seed: &Vec<u8>) -> (r: (MirCiphertext, MirSharedKey))
    requires
        pk.wf(),
        eph_seed@.len() == SEED_LEN,
    ensures
        r.0.wf(),
        r.0.cnt as int == popcount(r.0.mask@),
        r.0.cnt <= N,
        r.1.key@.len() == SHARED_LEN,
        encaps_rel(*pk, eph_seed@, r.0, r.1),
{
    let mut r_vec = gen_secret_from_seed(eph_seed, VEC_LEN);
    let a = gen_matrix_a(&pk.seed);
    let u = matvec_col(&a, &r_vec);
    let mut v = inner_prods(&pk.b, &r_vec);
    let (mask, mut buf, cnt) = safe_select(&v);
    let bits = &buf.as_slice()[0..cnt as usize];
    let key = mir_sha3_256(bits, DOM_HASH);
    wipe_coeffs(&mut r_vec);
    wipe_bytes(&mut v);
    wipe_bytes(&mut buf);
    let ct = MirCiphertext { u, mask, cnt };
    let shared = MirSharedKey { key };
    (ct, shared)
}

/// Encapsulate a fresh shared secret for the given public key. The count
/// always equals the mask's population count, and ciphertext and key
/// stand in the encapsulation relation for the drawn ephemeral seed.
pub fn encaps(pk: &MirPubkey) -> (r: (MirCiphertext, MirSharedKey))
    requires
        pk.wf(),
    ensures
        r.0.wf(),
        r.0.cnt as int == popcount(r.0.mask@),
        r.0.cnt <= N,
        r.1.key@.len() == SHARED_LEN,
        exists|eph: Seq<u8>| eph.len() == SEED_LEN && encaps_rel(*pk, eph, r.0, r.1),
{
    let mut eph_seed = os_random(SEED_LEN);
    let ghost eph = eph_seed@;
    let out = encaps_from_seed(pk, &eph_seed);
    wipe_bytes(&mut eph_seed);
    proof {
        assert(eph.len() == SEED_LEN && encaps_rel(*pk, eph, out.0, out.1));
    }
    out
}

/// Decapsulate: recompute the noisy inner products from `u` and the
/// vaulted secret, harvest the bits the mask points at, and hash them
/// into the shared key.
pub fn decaps(ct: &MirCiphertext, vault: &MirSecretVault) -> (shared: MirSharedKey)
    requires
        ct.wf(),
        vault.wf(),
    ensures
        shared.key@ == sha3_256_digest(
            DOM_HASH,
            dec_bits(spec_v_vec(ct.u@, vault@), ct.mask@, N as int),
        ),
        shared.key@.len() == SHARED_LEN,
{
    let inner = |s: &Vec<i16>| -> (vp: Vec<u8>)
        requires
            s@.len() == VEC_LEN,
            ternary_seq(s@),
            ct.u@.len() == VEC_LEN,
        ensures
            vp@ == spec_v_vec(ct.u@, s@),
        {
            inner_prods(&ct.u, s)
        };
    let mut v_prime = vault.access(inner);
    let (mut buf, widx) = mask_harvest(&v_prime, &ct.mask);
    let bits = &buf.as_slice()[0..widx];
    let key = mir_sha3_256(bits, DOM_HASH);
    wipe_bytes(&mut v_prime);
    wipe_bytes(&mut buf);
    MirSharedKey { key }
}

/// Round-trip agreement on the noise-free path: when the decapsulator's
/// noisy vector coincides with the encapsulator's, the key decapsulation
/// derives is exactly the encapsulated key. A coordinate where the two
/// noisy vectors differ is outside this statement.
pub proof fn lemma_agreement(
    pk: MirPubkey,
    eph: Seq<u8>,
    ct: MirCiphertext,
    key: MirSharedKey,
    s: Seq<i16>,
)
    requires
        encaps_rel(pk, eph, ct, key),
        spec_v_vec(ct.u@, s) == spec_v_vec(pk.b@, spec_secret(eph, VEC_LEN as nat)),
    ensures
        sha3_256_digest(DOM_HASH, dec_bits(spec_v_vec(ct.u@, s), ct.mask@, N as int)) == key.key@,
{
    lemma_harvest_agreement(spec_v_vec(pk.b@, spec_secret(eph, VEC_LEN as nat)), ct.mask@, N as int);
}

/// One full round trip with fresh randomness: true iff the encapsulator's
/// and decapsulator's 32-byte keys agree. The result is exactly the
/// comparison of the decapsulated key against the encapsulated one, for
/// some key pair and ciphertext standing in the contracts' relations.
pub fn self_test() -> (ok: bool)
    ensures
        exists|pk: MirPubkey, s: Seq<i16>, eph: Seq<u8>, ct: MirCiphertext, kb: MirSharedKey|
            #![trigger encaps_rel(pk, eph, ct, kb), spec_v_vec(ct.u@, s)]
            {
                &&& pk.wf()
                &&& s.len() == VEC_LEN
                &&& ternary_seq(s)
                &&& pk.b@ == spec_b_vec(spec_matrix(pk.seed@), s)
                &&& eph.len() == SEED_LEN
                &&& encaps_rel(pk, eph, ct, kb)
                &&& ok == (sha3_256_digest(
                    DOM_HASH,
                    dec_bits(spec_v_vec(ct.u@, s), ct.mask@, N as int),
                ) == kb.key@)
            },
{
    let (pk, vault) = keygen();
    let ghost gpk = pk;
    let ghost gs = vault@;
    let (ct, key_bob) = encaps(&pk);
    let ghost gct = ct;
    let ghost gkb = key_bob;
    let ghost geph = choose|e: Seq<u8>| e.len() == SEED_LEN && encaps_rel(pk, e, ct, key_bob);
    let key_alice = decaps(&ct, &vault);
    let ok = ct::eq_slice(key_alice.key.as_slice(), key_bob.key.as_slice());
    proof {
        assert(geph.len() == SEED_LEN && encaps_rel(gpk, geph, gct, gkb));
        assert(ok == (sha3_256_digest(
            DOM_HASH,
            dec_bits(spec_v_vec(gct.u@, gs), gct.mask@, N as int),
        ) == gkb.key@));
    }
    ok
}

} // verus!
