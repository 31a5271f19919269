//! The four coefficient-selection policies.
//!
//! Each policy maps the 64 transformed coefficients of one block to 64
//! coefficients, zeroing a subset and leaving every other entry untouched.
//! The policies compare only coefficient magnitudes, so they are stated and
//! proved exactly over the sign-and-magnitude-key representation.

use crate::coef::{mags_of, Coef};
use crate::sorting::{sort_keys, sorted_mags};
use crate::zigzag::{lemma_zigzag_in_range, ZIGZAG};
use crate::FilterError;
use vstd::prelude::*;

verus! {

/// Number of coefficients in one 8x8 block.
pub const BLOCK_LEN: usize = 64;

/// The zonal (low-pass triangular) selection: position `i` at block row
/// `i / 8` and column `i % 8` is zeroed exactly when row + column >= 8,
/// whatever its magnitude.
pub open spec fn zonal_spec(s: Seq<Coef>) -> Seq<Coef> {
    Seq::new(
        s.len(),
        |i: int|
            if i % 8 + i / 8 >= 8 {
                Coef::zero_spec()
            } else {
                s[i]
            },
    )
}

/// The magnitude-threshold selection: a coefficient is zeroed exactly when
/// its magnitude is strictly below the threshold's magnitude key; every
/// other coefficient is kept verbatim, sign included.
pub open spec fn threshold_spec(s: Seq<Coef>, key: u64) -> Seq<Coef> {
    Seq::new(
        s.len(),
        |i: int|
            if s[i].mag < key {
                Coef::zero_spec()
            } else {
                s[i]
            },
    )
}

/// How many of the 64 magnitudes a fraction policy nominally removes, less
/// one: `floor(64 * percent / 100)`.
pub open spec fn bound_spec(percent: u8) -> int {
    64 * percent / 100
}

/// The index of the cutoff magnitude in the ascending order: the bound
/// itself, clamped into the block (a percentage of 100 names every entry).
pub open spec fn cut_index_spec(percent: u8) -> int {
    if bound_spec(percent) < 64 {
        bound_spec(percent)
    } else {
        63
    }
}

/// The cutoff of the global-fraction policy: the magnitude below or at
/// which everything is removed, namely the `bound + 1`-th smallest of the
/// block's 64 magnitude keys.
pub open spec fn fraction_cutoff(s: Seq<Coef>, percent: u8) -> u64 {
    sorted_mags(mags_of(s))[cut_index_spec(percent)]
}

/// The global smallest-magnitude-fraction selection: a coefficient is
/// zeroed exactly when its magnitude is one of the `bound + 1` smallest,
/// that is, at or below the cutoff.  Several coefficients sharing the
/// cutoff magnitude are all removed together.
pub open spec fn global_fraction_spec(s: Seq<Coef>, percent: u8) -> Seq<Coef> {
    Seq::new(
        s.len(),
        |i: int|
            if s[i].mag <= fraction_cutoff(s, percent) {
                Coef::zero_spec()
            } else {
                s[i]
            },
    )
}

/// Whether the magnitude with key `m`, read as a coefficient value, equals
/// the signed coefficient `e`.  A magnitude is never negative, so a
/// negative entry matches nothing; the two zeros are the same value.
pub open spec fn matches_entry(e: Coef, m: u64) -> bool {
    (!e.neg && e.mag == m) || (e.mag == 0 && m == 0)
}

/// The block's coefficients along the zigzag scan, reversed: entry `j`
/// reads in-block position `ZIGZAG[63 - j]`, so the highest spatial
/// frequencies come first.
pub open spec fn zigzag_reversed(s: Seq<Coef>) -> Seq<Coef> {
    Seq::new(64, |j: int| s[ZIGZAG[63 - j] as int])
}

/// How many leading entries of the reversed zigzag scan form the tail that
/// the zigzag-fraction policy removes: `bound + 1`, clamped to the block.
pub open spec fn tail_len_spec(percent: u8) -> int {
    if bound_spec(percent) + 1 < 64 {
        bound_spec(percent) + 1
    } else {
        64
    }
}

/// Whether the magnitude with key `m` appears, as a value, among the first
/// `bound + 1` entries of the reversed zigzag scan of `s`.
pub open spec fn in_zigzag_tail(s: Seq<Coef>, percent: u8, m: u64) -> bool {
    exists|j: int| 0 <= j < tail_len_spec(percent) && matches_entry(zigzag_reversed(s)[j], m)
}

/// The zigzag-tail-fraction selection: a coefficient is zeroed exactly
/// when its magnitude appears among the first `bound + 1` entries of the
/// reversed zigzag ordering of the block.
pub open spec fn zigzag_fraction_spec(s: Seq<Coef>, percent: u8) -> Seq<Coef> {
    Seq::new(
        s.len(),
        |i: int|
            if in_zigzag_tail(s, percent, s[i].mag) {
                Coef::zero_spec()
            } else {
                s[i]
            },
    )
}

/// Applies the zonal low-pass policy to one transformed block.
pub fn task1(coefs: &Vec<Coef>) -> (r: Vec<Coef>)
    requires
        coefs@.len() == BLOCK_LEN,
    ensures
        r@ == zonal_spec(coefs@),
{
    let mut r: Vec<Coef> = Vec::new();
    let mut i: usize = 0;
    while i < BLOCK_LEN
        invariant
            0 <= i <= BLOCK_LEN,
            coefs@.len() == BLOCK_LEN,
            r@.len() == i,
            forall|m: int| 0 <= m < i ==> r@[m] == zonal_spec(coefs@)[m],
        decreases BLOCK_LEN - i,
    {
        let x = i % 8;
        let y = i / 8;
        if x + y >= 8 {
            r.push(Coef::zero());
        } else {
            r.push(coefs[i]);
        }
        i = i + 1;
    }
    proof {
        assert(r@ =~= zonal_spec(coefs@));
    }
    r
}

/// Applies the magnitude-threshold policy to one transformed block.  The
/// threshold is handed over as the magnitude key of the threshold value.
pub fn task2(coefs: &Vec<Coef>, key: u64) -> (r: Vec<Coef>)
    requires
        coefs@.len() == BLOCK_LEN,
    ensures
        r@ == threshold_spec(coefs@, key),
{
    let mut r: Vec<Coef> = Vec::new();
    let mut i: usize = 0;
    while i < BLOCK_LEN
        invariant
            0 <= i <= BLOCK_LEN,
            coefs@.len() == BLOCK_LEN,
            r@.len() == i,
            forall|m: int| 0 <= m < i ==> r@[m] == threshold_spec(coefs@, key)[m],
        decreases BLOCK_LEN - i,
    {
        let c = coefs[i];
        if c.mag < key {
            r.push(Coef::zero());
        } else {
            r.push(c);
        }
        i = i + 1;
    }
    proof {
        assert(r@ =~= threshold_spec(coefs@, key));
    }
    r
}

/// Applies the global smallest-magnitude-fraction policy to one
/// transformed block: the `floor(64 * percent / 100) + 1` smallest
/// magnitudes are removed, duplicates of the cutoff magnitude with them.
pub fn task3(coefs: &Vec<Coef>, percent: u8) -> (r: Vec<Coef>)
    requires
        coefs@.len() == BLOCK_LEN,
        percent <= 100,
    ensures
        r@ == global_fraction_spec(coefs@, percent),
{
    let mut mags: Vec<u64> = Vec::new();
    let mut i: usize = 0;
    while i < BLOCK_LEN
        invariant
            0 <= i <= BLOCK_LEN,
            coefs@.len() == BLOCK_LEN,
            mags@.len() == i,
            forall|m: int| 0 <= m < i ==> mags@[m] == coefs@[m].mag,
        decreases BLOCK_LEN - i,
    {
        mags.push(coefs[i].mag);
        i = i + 1;
    }
    proof {
        assert(mags@ =~= mags_of(coefs@));
    }
    sort_keys(&mut mags);
    let bound = (64 * (percent as usize)) / 100;
    let cut_index = if bound < 64 {
        bound
    } else {
        63
    };
    let cutoff = mags[cut_index];
    proof {
        assert(cutoff == fraction_cutoff(coefs@, percent));
    }
    let mut r: Vec<Coef> = Vec::new();
    let mut i: usize = 0;
    while i < BLOCK_LEN
        invariant
            0 <= i <= BLOCK_LEN,
            coefs@.len() == BLOCK_LEN,
            percent <= 100,
            cutoff == fraction_cutoff(coefs@, percent),
            r@.len() == i,
            forall|m: int| 0 <= m < i ==> r@[m] == global_fraction_spec(coefs@, percent)[m],
        decreases BLOCK_LEN - i,
    {
        let c = coefs[i];
        if c.mag <= cutoff {
            r.push(Coef::zero());
        } else {
            r.push(c);
        }
        i = i + 1;
    }
    proof {
        assert(r@ =~= global_fraction_spec(coefs@, percent));
    }
    r
}

/// Applies the zigzag-tail-fraction policy to one transformed block: a
/// coefficient is removed exactly when its magnitude appears, as a value,
/// among the first `floor(64 * percent / 100) + 1` entries of the reversed
/// zigzag scan of the block.
pub fn task4(coefs: &Vec<Coef>, percent: u8) -> (r: Vec<Coef>)
    requires
        coefs@.len() == BLOCK_LEN,
        percent <= 100,
    ensures
        r@ == zigzag_fraction_spec(coefs@, percent),
{
    let bound = (64 * (percent as usize)) / 100;
    let tail_len = if bound + 1 < 64 {
        bound + 1
    } else {
        64
    };
    proof {
        assert(tail_len == tail_len_spec(percent));
    }
    let mut r: Vec<Coef> = Vec::new();
    let mut i: usize = 0;
    while i < BLOCK_LEN
        invariant
            0 <= i <= BLOCK_LEN,
            coefs@.len() == BLOCK_LEN,
            percent <= 100,
            1 <= tail_len <= 64,
            tail_len == tail_len_spec(percent),
            r@.len() == i,
            forall|m: int| 0 <= m < i ==> r@[m] == zigzag_fraction_spec(coefs@, percent)[m],
        decreases BLOCK_LEN - i,
    {
        let c = coefs[i];
        let mut hit = false;
        let mut j: usize = 0;
        while j < tail_len
            invariant
                0 <= j <= tail_len,
                1 <= tail_len <= 64,
                tail_len == tail_len_spec(percent),
                coefs@.len() == BLOCK_LEN,
                c == coefs@[i as int],
                0 <= i < BLOCK_LEN,
                hit == exists|m: int|
                    0 <= m < j && matches_entry(zigzag_reversed(coefs@)[m], c.mag),
            decreases tail_len - j,
        {
            proof {
                lemma_zigzag_in_range(63 - j);
            }
            let e = coefs[ZIGZAG[63 - j]];
            proof {
                assert(e == zigzag_reversed(coefs@)[j as int]);
            }
            if (!e.neg && e.mag == c.mag) || (e.mag == 0 && c.mag == 0) {
                hit = true;
                proof {
                    assert(matches_entry(zigzag_reversed(coefs@)[j as int], c.mag));
                }
            }
            j = j + 1;
        }
        proof {
            assert(hit == in_zigzag_tail(coefs@, percent, c.mag));
        }
        if hit {
            r.push(Coef::zero());
        } else {
            r.push(c);
        }
        i = i + 1;
    }
    proof {
        assert(r@ =~= zigzag_fraction_spec(coefs@, percent));
    }
    r
}

/// One of the four interchangeable coefficient-selection policies.
///
/// A threshold is carried as the magnitude key of the threshold value; a
/// key of zero keeps every coefficient, so `Threshold { key: 0 }` is the
/// no-op policy.  A fraction percentage lies in 0 ..= 100.
#[derive(Clone, Copy, PartialEq, Eq, Structural, Debug)]
pub enum Policy {
    /// Zonal low-pass: keep the upper-left triangle of the block.
    Zonal,
    /// Zero the magnitudes strictly below the key.
    Threshold { key: u64 },
    /// Zero the globally smallest fraction of the magnitudes.
    GlobalFraction { percent: u8 },
    /// Zero the tail of the reversed zigzag scan.
    ZigzagFraction { percent: u8 },
}

impl Policy {
    /// The policy's parameter lies in its declared domain.
    pub open spec fn wf(self) -> bool {
        match self {
            Policy::Zonal => true,
            Policy::Threshold { .. } => true,
            Policy::GlobalFraction { percent } => percent <= 100,
            Policy::ZigzagFraction { percent } => percent <= 100,
        }
    }

    /// Rejects a parameter outside its domain before any block is touched.
    pub fn validate(&self) -> (r: Result<(), FilterError>)
        ensures
            r is Ok <==> self.wf(),
            r is Err ==> r->Err_0 == FilterError::InvalidParameter,
    {
        match self {
            Policy::GlobalFraction { percent } => {
                if *percent <= 100 {
                    Ok(())
                } else {
                    Err(FilterError::InvalidParameter)
                }
            },
            Policy::ZigzagFraction { percent } => {
                if *percent <= 100 {
                    Ok(())
                } else {
                    Err(FilterError::InvalidParameter)
                }
            },
            _ => Ok(()),
        }
    }
}

/// What each policy makes of a block of 64 coefficients.
pub open spec fn select_spec(p: Policy, s: Seq<Coef>) -> Seq<Coef> {
    match p {
        Policy::Zonal => zonal_spec(s),
        Policy::Threshold { key } => threshold_spec(s, key),
        Policy::GlobalFraction { percent } => global_fraction_spec(s, percent),
        Policy::ZigzagFraction { percent } => zigzag_fraction_spec(s, percent),
    }
}

/// Applies the chosen policy to one transformed block.
pub fn select(p: &Policy, coefs: &Vec<Coef>) -> (r: Vec<Coef>)
    requires
        p.wf(),
        coefs@.len() == BLOCK_LEN,
    ensures
        r@ == select_spec(*p, coefs@),
{
    match p {
        Policy::Zonal => task1(coefs),
        Policy::Threshold { key } => task2(coefs, *key),
        Policy::GlobalFraction { percent } => task3(coefs, *percent),
        Policy::ZigzagFraction { percent } => task4(coefs, *percent),
    }
}

} // verus!
