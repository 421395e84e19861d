//! Facts about filtering a sequence by a test that none, or exactly one, of
//! its items passes.

use vstd::prelude::*;

verus! {

/// A test that no item passes keeps nothing.
pub(crate) proof fn lemma_filter_nothing<A>(s: Seq<A>, pred: spec_fn(A) -> bool)
    requires
        forall|i: int| 0 <= i < s.len() ==> !pred(#[trigger] s[i]),
    ensures
        s.filter(pred) == Seq::<A>::empty(),
    decreases s.len(),
{
    reveal(Seq::filter);
    if s.len() > 0 {
        lemma_filter_nothing(s.drop_last(), pred);
    }
}

/// A test that the item at `k` passes, and no other, keeps that item alone.
pub(crate) proof fn lemma_filter_only<A>(s: Seq<A>, pred: spec_fn(A) -> bool, k: int)
    requires
        0 <= k < s.len(),
        pred(s[k]),
        forall|i: int| 0 <= i < s.len() && i != k ==> !pred(#[trigger] s[i]),
    ensures
        s.filter(pred) == seq![s[k]],
    decreases s.len(),
{
    reveal(Seq::filter);
    if k == s.len() - 1 {
        lemma_filter_nothing(s.drop_last(), pred);
    } else {
        lemma_filter_only(s.drop_last(), pred, k);
    }
}

proof fn lemma_filter_empty_means_none<A>(s: Seq<A>, pred: spec_fn(A) -> bool)
    requires
        s.filter(pred).len() == 0,
    ensures
        forall|i: int| 0 <= i < s.len() ==> !pred(#[trigger] s[i]),
{
    assert forall|i: int| 0 <= i < s.len() implies !pred(#[trigger] s[i]) by {
        if pred(s[i]) {
            s.lemma_filter_contains(pred, i);
        }
    }
}

/// Where a test keeps one item, it is the item at some index `k`, and no
/// item elsewhere passes the test.
pub(crate) proof fn lemma_single_index<A>(s: Seq<A>, pred: spec_fn(A) -> bool) -> (k: int)
    requires
        s.filter(pred).len() == 1,
    ensures
        0 <= k < s.len(),
        s[k] == s.filter(pred)[0],
        pred(s[k]),
        forall|i: int| 0 <= i < s.len() && i != k ==> !pred(#[trigger] s[i]),
    decreases s.len(),
{
    reveal(Seq::filter);
    let rest = s.drop_last();
    if pred(s.last()) {
        lemma_filter_empty_means_none(rest, pred);
        assert forall|i: int| 0 <= i < s.len() && i != s.len() - 1 implies !pred(
            #[trigger] s[i],
        ) by {
            assert(rest[i] == s[i]);
        }
        s.len() - 1
    } else {
        let k = lemma_single_index(rest, pred);
        assert forall|i: int| 0 <= i < s.len() && i != k implies !pred(#[trigger] s[i]) by {
            if i < rest.len() {
                assert(rest[i] == s[i]);
            }
        }
        k
    }
}

} // verus!
