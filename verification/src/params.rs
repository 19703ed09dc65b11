//! Fixed scheme parameters and domain-separation tags.

use vstd::prelude::*;

verus! {

/// Coordinates per vector.
pub const N: usize = 256;

/// Vectors per matrix row and column.
pub const K: usize = 5;

/// 13-bit scalar mask applied before compression.
pub const Q_MASK: i32 = 0x1FFF;

/// Right shift compressing a masked 13-bit scalar to 8 bits.
pub const SHIFT: u32 = 5;

/// Length in bytes of an expansion seed.
pub const SEED_LEN: usize = 32;

/// Length in bytes of the shared key.
pub const SHARED_LEN: usize = 32;

/// Coefficients in one vector of the scheme: `K * N`.
pub const VEC_LEN: usize = 1280;

/// Coefficients in the public matrix: `K * K * N`.
pub const MAT_LEN: usize = 6400;

/// Bytes in the reconciliation mask: `N / 8`.
pub const MASK_LEN: usize = 32;

/// Domain-separation tag for matrix expansion.
pub const DOM_MATRIX: u8 = 0x00;

/// Domain-separation tag for secret expansion.
pub const DOM_SECRET: u8 = 0x01;

/// Domain-separation tag for the key-derivation hash.
pub const DOM_HASH: u8 = 0x02;

} // verus!
