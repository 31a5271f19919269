//! The zigzag scan order of an 8x8 block.
//!
//! Scan position `k` reads in-block position `ZIGZAG[k]`: the scan walks the
//! anti-diagonals of the block from the lowest spatial frequency (the DC
//! term, position 0) to the highest (position 63).  The zigzag-tail
//! selection policy reverses this order to cut high frequencies first.

use vstd::prelude::*;

verus! {

/// The fixed zigzag permutation of the 64 in-block positions.
pub const ZIGZAG: [usize; 64] = [
    0, 8, 1, 2, 9, 16, 24, 17, 10, 3, 4, 11, 18, 25, 32, 40, 33, 26, 19, 12, 5, 6, 13, 20, 27, 34,
    41, 48, 56, 49, 42, 35, 28, 21, 14, 7, 15, 22, 29, 36, 43, 50, 57, 58, 51, 44, 37, 30, 23, 31,
    38, 45, 52, 59, 60, 53, 46, 39, 47, 54, 61, 62, 55, 63,
];

/// Every scan position names an in-block position.
pub proof fn lemma_zigzag_in_range(k: int)
    requires
        0 <= k < 64,
    ensures
        ZIGZAG[k] < 64,
{
}

/// The scan is a permutation: two scan positions never name the same
/// in-block position.
pub proof fn lemma_zigzag_is_permutation(k1: int, k2: int)
    requires
        0 <= k1 < 64,
        0 <= k2 < 64,
        k1 != k2,
    ensures
        ZIGZAG[k1] != ZIGZAG[k2],
{
}

} // verus!
