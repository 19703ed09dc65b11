//! A lattice-based key-encapsulation mechanism over LWE with safe-zone
//! reconciliation: branchless constant-time primitives, deterministic
//! seed expansion through SHAKE-256, component-wise linear algebra under
//! a 13-bit mask, and a SHA3-256 key derivation step.

pub mod params;
pub mod ct;
pub mod hashing;
mod sensitive;
pub mod expand;
pub mod linear;
pub mod recon;
pub mod kem;

pub use ct::{sign32, abs32, min32, lt32, eq32, sel_u8, sel_i16, bit_set, bit_get, ternary,
    safe_zone, eq_slice};
pub use params::{N, K, Q_MASK, SHIFT, SEED_LEN, SHARED_LEN};
pub use hashing::{xof, hash};
pub use expand::{gen_matrix_a, gen_secret_from_seed};
pub use kem::{MirPubkey, MirCiphertext, MirSharedKey, MirSecretVault, keygen, encaps,
    encaps_from_seed, decaps, self_test};
