//! The pending tasks of an executor, kept in a `BTreeSet` of tokens, seen as the listing
//! of those tokens in increasing order.
use super::executor::ascending;
use super::laws::law_listing_is_determined;
use std::collections::BTreeSet;
use vstd::laws_cmp::obeys_cmp;
use vstd::prelude::*;
use vstd::std_specs::btree::{axiom_increasing_seq_meaning, increasing_seq, spec_btree_keys_iter};
use vstd::std_specs::cmp::OrdSpec;
use vstd::std_specs::iter::IteratorSpec;

verus! {

broadcast use vstd::std_specs::btree::group_btree_axioms, vstd::laws_cmp::group_laws_cmp;

/// `listing` lists the tokens of `set`, each once, in increasing order.
pub open spec fn lists(listing: Seq<usize>, set: Set<usize>) -> bool {
    &&& ascending(listing)
    &&& forall|x: usize| #[trigger] listing.contains(x) <==> set.contains(x)
}

/// The tokens of `set` in increasing order.
pub open spec fn sorted_listing(set: Set<usize>) -> Seq<usize> {
    choose|listing: Seq<usize>| lists(listing, set)
}

/// The set of a `BTreeSet` of tokens has a listing in increasing order: the order in
/// which the set's iterator yields its tokens.
pub proof fn lemma_btree_listing(set: &BTreeSet<usize>)
    ensures
        lists(sorted_listing(set@), set@),
        sorted_listing(set@) == spec_btree_keys_iter(set).remaining().unref(),
        sorted_listing(set@).len() == set@.len(),
        set@.finite(),
{
    let r = spec_btree_keys_iter(set).remaining();
    let u = r.unref();
    assert(increasing_seq(r));
    assert(obeys_cmp::<usize>());
    assert(obeys_cmp::<&usize>());
    axiom_increasing_seq_meaning::<&usize>(r);
    assert forall|i: int, j: int| 0 <= i < j < u.len() implies u[i] < u[j] by {
        assert(r[i] == u[i]);
        assert(r[j] == u[j]);
        assert((&r[i]).cmp_spec(&r[j]) is Less);
    }
    assert forall|x: usize| #[trigger] u.contains(x) <==> set@.contains(x) by {
        if u.contains(x) {
            assert(u.to_set().contains(x));
        }
        if set@.contains(x) {
            assert(u.to_set().contains(x));
        }
    }
    assert(lists(u, set@));
    let q = sorted_listing(set@);
    assert(lists(q, set@));
    law_listing_is_determined(q, u);
    assert(u.len() == r.len());
    assert(u.to_set().finite());
}

} // verus!
