//! A verified ascending sort of magnitude keys.
//!
//! The global-fraction selection policy ranks the 64 coefficient magnitudes
//! of a block; its contract speaks of the sorted sequence of magnitude keys.
//! The insertion sort here is proved to return exactly that sequence.

use vstd::prelude::*;
use vstd::relations::{sorted_by, total_ordering};
use vstd::seq_lib::lemma_sorted_unique;

verus! {

/// The ascending order on magnitude keys.
pub open spec fn mag_leq() -> spec_fn(u64, u64) -> bool {
    |x: u64, y: u64| x <= y
}

/// The magnitude keys of `s` in ascending order.
pub open spec fn sorted_mags(s: Seq<u64>) -> Seq<u64> {
    s.sort_by(mag_leq())
}

/// `mag_leq` is a total ordering, as the sorting lemmas of the standard
/// library require.
pub proof fn lemma_mag_leq_total()
    ensures
        total_ordering(mag_leq()),
{
}

/// Sorts the keys in `v` ascending; the result is exactly the sorted
/// sequence that `sorted_mags` denotes.
pub fn sort_keys(v: &mut Vec<u64>)
    ensures
        final(v)@ == sorted_mags(old(v)@),
        final(v)@.len() == old(v)@.len(),
{
    let ghost orig: Seq<u64> = v@;
    let n = v.len();
    let mut i: usize = 1;
    if n < 2 {
        proof {
            lemma_mag_leq_total();
            orig.lemma_sort_by_ensures(mag_leq());
            lemma_sorted_unique(v@, sorted_mags(orig), mag_leq());
            assert(v@ =~= sorted_mags(orig));
        }
        return ;
    }
    while i < n
        invariant
            1 <= i <= n,
            n == v@.len(),
            v@.to_multiset() == orig.to_multiset(),
            sorted_by(v@.subrange(0, i as int), mag_leq()),
        decreases n - i,
    {
        let ghost before: Seq<u64> = v@;
        let x = v.remove(i);
        proof {
            broadcast use vstd::seq_lib::group_to_multiset_ensures;

            assert(v@.subrange(0, i as int) =~= before.subrange(0, i as int));
        }
        let ghost removed: Seq<u64> = v@;
        let mut k: usize = i;
        while k > 0 && v[k - 1] > x
            invariant
                0 <= k <= i,
                v@ == removed,
                i < n,
                n - 1 == v@.len(),
                forall|m: int| k <= m < i ==> x < #[trigger] v@[m],
            decreases k,
        {
            k = k - 1;
        }
        proof {
            let pre = v@;
            let sub = pre.subrange(0, i as int);
            let s = pre.insert(k as int, x);
            assert(sorted_by(sub, mag_leq()));
            assert forall|a: int, b: int| 0 <= a < b < i + 1 implies mag_leq()(s[a], s[b]) by {
                if b < k {
                    assert(mag_leq()(sub[a], sub[b]));
                    assert(s[a] == sub[a] && s[b] == sub[b]);
                } else if b == k {
                    // the new element goes above everything before it
                    assert(s[b] == x && s[a] == sub[a]);
                    assert(pre[k - 1] <= x);
                    if a < k - 1 {
                        assert(mag_leq()(sub[a], sub[k - 1]));
                    }
                } else if a < k {
                    assert(s[a] == sub[a] && s[b] == sub[b - 1]);
                    if a < b - 1 {
                        assert(mag_leq()(sub[a], sub[b - 1]));
                    }
                } else if a == k {
                    // the new element goes below everything it passed
                    assert(s[a] == x && s[b] == sub[b - 1]);
                    assert(x < pre[b - 1]);
                } else {
                    assert(s[a] == sub[a - 1] && s[b] == sub[b - 1]);
                    assert(mag_leq()(sub[a - 1], sub[b - 1]));
                }
            }
        }
        v.insert(k, x);
        proof {
            broadcast use vstd::seq_lib::group_to_multiset_ensures;
            broadcast use vstd::seq_lib::to_multiset_insert;
            broadcast use vstd::multiset::group_multiset_axioms;

            assert(before[i as int] == x);
            assert(removed.to_multiset() =~= before.to_multiset().remove(x));
            assert(v@.to_multiset() =~= removed.to_multiset().insert(x));
            assert(before.to_multiset().contains(x));
            assert(v@.to_multiset() =~= before.to_multiset());
            assert(sorted_by(v@.subrange(0, i as int + 1), mag_leq()));
        }
        i = i + 1;
    }
    proof {
        lemma_mag_leq_total();
        orig.lemma_sort_by_ensures(mag_leq());
        assert(v@.subrange(0, n as int) =~= v@);
        lemma_sorted_unique(v@, sorted_mags(orig), mag_leq());
        assert(v@ =~= sorted_mags(orig));
    }
}

} // verus!
