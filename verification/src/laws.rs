//! The laws of the selection policies.
//!
//! These facts hold of every block, not just of tested ones: a policy only
//! keeps or zeroes, never alters; applying the zonal policy twice is
//! applying it once; raising the magnitude threshold never zeroes fewer
//! coefficients; and on a block of pairwise distinct magnitudes the
//! global-fraction policy zeroes exactly its nominal count.

use crate::coef::{mags_of, Coef};
use crate::counting::{
    count_if, lemma_count_if_map, lemma_count_if_permutation, lemma_count_if_pointwise,
    lemma_count_if_prefix,
};
use crate::policy::{
    bound_spec, cut_index_spec, fraction_cutoff, global_fraction_spec, select_spec,
    threshold_spec, zonal_spec, Policy,
};
use crate::sorting::{lemma_mag_leq_total, mag_leq, sorted_mags};
use vstd::prelude::*;
use vstd::relations::sorted_by;

verus! {

/// The predicate that an entry of a filtered block is the exact zero.
pub open spec fn is_zero_coef() -> spec_fn(Coef) -> bool {
    |c: Coef| c == Coef::zero_spec()
}

/// How many entries of a block are the exact zero coefficient.
pub open spec fn zero_count(s: Seq<Coef>) -> int {
    count_if(s, is_zero_coef())
}

/// Law: every policy only removes.  Each entry of a filtered block is
/// either the matching input coefficient, untouched, or the exact zero.
pub proof fn lemma_select_only_zeroes(p: Policy, s: Seq<Coef>)
    requires
        s.len() == 64,
    ensures
        select_spec(p, s).len() == 64,
        forall|i: int|
            0 <= i < 64 ==> (#[trigger] select_spec(p, s)[i] == s[i] || select_spec(p, s)[i]
                == Coef::zero_spec()),
{
}

/// Law: the threshold policy with a zero key is the no-op policy.  No
/// magnitude is strictly below zero, so every coefficient is kept.
pub proof fn lemma_threshold_zero_keeps_all(s: Seq<Coef>)
    ensures
        threshold_spec(s, 0) == s,
{
    assert(threshold_spec(s, 0) =~= s);
}

/// Law: the zonal policy is idempotent.  Applying it twice gives the block
/// that applying it once gives: the coefficients it removed stay zero and
/// the kept triangle is untouched again.
pub proof fn lemma_zonal_idempotent(s: Seq<Coef>)
    ensures
        zonal_spec(zonal_spec(s)) == zonal_spec(s),
{
    assert(zonal_spec(zonal_spec(s)) =~= zonal_spec(s));
}

/// Law: the magnitude-threshold policy is monotone in its threshold.  For
/// one block, a larger threshold key never leaves fewer exact zeros.
pub proof fn lemma_threshold_monotone(s: Seq<Coef>, key1: u64, key2: u64)
    requires
        key1 <= key2,
    ensures
        zero_count(threshold_spec(s, key1)) <= zero_count(threshold_spec(s, key2)),
{
    let p1 = |c: Coef| c.mag < key1 || c == Coef::zero_spec();
    let p2 = |c: Coef| c.mag < key2 || c == Coef::zero_spec();
    lemma_count_if_map(threshold_spec(s, key1), s, is_zero_coef(), p1);
    lemma_count_if_map(threshold_spec(s, key2), s, is_zero_coef(), p2);
    lemma_count_if_pointwise(s, p1, p2);
}

/// Law: on a block whose 64 magnitudes are pairwise distinct, the
/// global-fraction policy zeroes exactly `floor(64 * percent / 100) + 1`
/// coefficients.  A percentage of 100 is left out: its nominal count, 65,
/// exceeds the block, and every coefficient is zeroed instead.
pub proof fn lemma_global_fraction_exact(s: Seq<Coef>, percent: u8)
    requires
        s.len() == 64,
        percent <= 99,
        forall|i: int, j: int| 0 <= i < j < 64 ==> s[i].mag != s[j].mag,
    ensures
        zero_count(global_fraction_spec(s, percent)) == bound_spec(percent) + 1,
{
    broadcast use vstd::seq_lib::group_to_multiset_ensures;

    let mags = mags_of(s);
    let t = sorted_mags(mags);
    let b = bound_spec(percent);
    let cutoff = fraction_cutoff(s, percent);
    let ple = |m: u64| m <= cutoff;
    lemma_mag_leq_total();
    mags.lemma_sort_by_ensures(mag_leq());
    assert(t.len() == mags.len()) by {
        assert(t.to_multiset().len() == mags.to_multiset().len());
    }
    assert(b <= 63);
    assert(cut_index_spec(percent) == b);
    // zeroed entries of the result are the entries at or below the cutoff
    assert forall|i: int| 0 <= i < s.len() implies (is_zero_coef()(
        #[trigger] global_fraction_spec(s, percent)[i],
    ) <==> ple(#[trigger] mags[i])) by {
        if mags[i] <= cutoff {
            assert(global_fraction_spec(s, percent)[i] == Coef::zero_spec());
        } else {
            assert(global_fraction_spec(s, percent)[i] == s[i]);
            assert(s[i].mag > cutoff);
            assert(s[i] != Coef::zero_spec());
        }
    }
    lemma_count_if_map(global_fraction_spec(s, percent), mags, is_zero_coef(), ple);
    // counting below the cutoff is invariant under sorting
    lemma_count_if_permutation(mags, t, ple);
    // the sorted magnitudes are still pairwise distinct
    assert(mags.no_duplicates()) by {
        assert forall|i: int, j: int|
            0 <= i < mags.len() && 0 <= j < mags.len() && i != j implies mags[i] != mags[j] by {
            if i < j {
                assert(s[i].mag != s[j].mag);
            } else {
                assert(s[j].mag != s[i].mag);
            }
        }
    }
    mags.lemma_multiset_has_no_duplicates();
    t.lemma_multiset_has_no_duplicates_conv();
    // at or below the cutoff is exactly the sorted prefix of length b + 1
    assert forall|m: int| 0 <= m < b + 1 implies ple(#[trigger] t[m]) by {
        assert(mag_leq()(t[m], t[b]));
    }
    assert forall|m: int| b + 1 <= m < t.len() implies !ple(#[trigger] t[m]) by {
        assert(mag_leq()(t[b], t[m]));
        assert(t[m] != t[b]);
    }
    lemma_count_if_prefix(t, ple, b + 1);
}

} // verus!
