//! Counting the elements of a sequence that satisfy a predicate, and the
//! facts about such counts that the policy laws rest on: a pointwise weaker
//! predicate never counts more, the count is invariant under permutation,
//! and when the predicate holds exactly on a prefix the count is that
//! prefix's length.

use vstd::multiset::Multiset;
use vstd::prelude::*;

verus! {

/// How many elements of `s` satisfy `pred`.
pub open spec fn count_if<A>(s: Seq<A>, pred: spec_fn(A) -> bool) -> int
    decreases s.len(),
{
    if s.len() == 0 {
        0
    } else {
        count_if(s.drop_last(), pred) + if pred(s.last()) {
            1int
        } else {
            0int
        }
    }
}

/// An element-by-element weaker predicate never counts more elements.
pub proof fn lemma_count_if_pointwise<A>(s: Seq<A>, p1: spec_fn(A) -> bool, p2: spec_fn(A) -> bool)
    requires
        forall|i: int| 0 <= i < s.len() && #[trigger] p1(s[i]) ==> p2(s[i]),
    ensures
        count_if(s, p1) <= count_if(s, p2),
    decreases s.len(),
{
    if s.len() > 0 {
        assert(forall|i: int|
            0 <= i < s.drop_last().len() && #[trigger] p1(s.drop_last()[i]) ==> p2(
                s.drop_last()[i],
            ));
        lemma_count_if_pointwise(s.drop_last(), p1, p2);
    }
}

/// Two equally long sequences whose predicates agree position by position
/// have the same count.
pub proof fn lemma_count_if_map<A, B>(
    s: Seq<A>,
    t: Seq<B>,
    p: spec_fn(A) -> bool,
    q: spec_fn(B) -> bool,
)
    requires
        s.len() == t.len(),
        forall|i: int| 0 <= i < s.len() ==> (p(#[trigger] s[i]) <==> q(#[trigger] t[i])),
    ensures
        count_if(s, p) == count_if(t, q),
    decreases s.len(),
{
    if s.len() > 0 {
        lemma_count_if_map(s.drop_last(), t.drop_last(), p, q);
    }
}

/// The count equals the size of the multiset of satisfying elements, which
/// ties the count to the sequence's multiset alone.
pub proof fn lemma_count_if_multiset<A>(s: Seq<A>, pred: spec_fn(A) -> bool)
    ensures
        count_if(s, pred) == s.to_multiset().filter(pred).len(),
    decreases s.len(),
{
    broadcast use vstd::seq_lib::group_to_multiset_ensures;
    broadcast use vstd::multiset::group_multiset_axioms;

    if s.len() == 0 {
        assert(s.to_multiset() =~= Multiset::<A>::empty());
        assert(s.to_multiset().filter(pred) =~= Multiset::<A>::empty());
    } else {
        let d = s.drop_last();
        let x = s.last();
        lemma_count_if_multiset(d, pred);
        assert(s =~= d.push(x));
        assert(s.to_multiset() =~= d.to_multiset().insert(x));
        if pred(x) {
            assert(s.to_multiset().filter(pred) =~= d.to_multiset().filter(pred).insert(x));
        } else {
            assert(s.to_multiset().filter(pred) =~= d.to_multiset().filter(pred));
        }
    }
}

/// Two sequences with the same multiset have the same count.
pub proof fn lemma_count_if_permutation<A>(s: Seq<A>, t: Seq<A>, pred: spec_fn(A) -> bool)
    requires
        s.to_multiset() == t.to_multiset(),
    ensures
        count_if(s, pred) == count_if(t, pred),
{
    lemma_count_if_multiset(s, pred);
    lemma_count_if_multiset(t, pred);
}

/// When the predicate holds on the first `k` elements and fails on all the
/// later ones, the count is exactly `k`.
pub proof fn lemma_count_if_prefix<A>(s: Seq<A>, pred: spec_fn(A) -> bool, k: int)
    requires
        0 <= k <= s.len(),
        forall|i: int| 0 <= i < k ==> pred(#[trigger] s[i]),
        forall|i: int| k <= i < s.len() ==> !pred(#[trigger] s[i]),
    ensures
        count_if(s, pred) == k,
    decreases s.len(),
{
    if s.len() > 0 {
        if k == s.len() {
            lemma_count_if_prefix(s.drop_last(), pred, k - 1);
        } else {
            lemma_count_if_prefix(s.drop_last(), pred, k);
        }
    }
}

} // verus!
