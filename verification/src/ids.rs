//! Sets of identifiers, listed in ascending order.
//!
//! A strictly ascending list is fixed by the set of its members, so a set of
//! identifiers that is listed this way has one listing and no other.

use vstd::prelude::*;

verus! {

/// Each member of the list is less than the next.
pub open spec fn ascending(ids: Seq<usize>) -> bool {
    forall|i: int, j: int| 0 <= i < j < ids.len() ==> ids[i] < ids[j]
}

/// The ascending listing of a finite set of identifiers.
pub open spec fn ascending_ids(set: Set<usize>) -> Seq<usize> {
    choose|ids: Seq<usize>| ascending(ids) && ids.to_set() == set
}

/// Two ascending lists with the same members are the same list.
pub proof fn lemma_ascending_unique(a: Seq<usize>, b: Seq<usize>)
    requires
        ascending(a),
        ascending(b),
        a.to_set() == b.to_set(),
    ensures
        a == b,
    decreases a.len(),
{
    if a.len() == 0 || b.len() == 0 {
        if b.len() > 0 {
            assert(b.to_set().contains(b[0]));
        }
        if a.len() > 0 {
            assert(a.to_set().contains(a[0]));
        }
    } else {
        // The last member of each list is the greatest member of the set.
        assert(a.to_set().contains(a.last()));
        assert(b.to_set().contains(b.last()));
        let a0 = a.drop_last();
        let b0 = b.drop_last();
        assert forall|v: usize| a0.to_set().contains(v) <==> b0.to_set().contains(v) by {
            if a0.contains(v) {
                assert(a.to_set().contains(v));
                let j = choose|j: int| 0 <= j < b.len() && b[j] == v;
                assert(b0[j] == v);
            }
            if b0.contains(v) {
                assert(b.to_set().contains(v));
                let j = choose|j: int| 0 <= j < a.len() && a[j] == v;
                assert(a0[j] == v);
            }
        }
        assert(a0.to_set() =~= b0.to_set());
        lemma_ascending_unique(a0, b0);
        assert(b =~= b0.push(b.last()));
    }
}

/// An ascending list is the ascending listing of its members.
pub proof fn lemma_ascending_ids(ids: Seq<usize>)
    requires
        ascending(ids),
    ensures
        ascending_ids(ids.to_set()) == ids,
{
    lemma_ascending_unique(ascending_ids(ids.to_set()), ids);
}

/// Every set of identifiers has an ascending listing.
pub proof fn lemma_ascending_ids_lists(set: Set<usize>)
    ensures
        ascending(ascending_ids(set)),
        ascending_ids(set).to_set() == set,
{
    lemma_listing_below(set, usize::MAX as nat + 1);
}

/// A set of identifiers below `bound` has an ascending listing.
proof fn lemma_listing_below(set: Set<usize>, bound: nat)
    requires
        bound <= usize::MAX + 1,
        forall|x: usize| set.contains(x) ==> x < bound,
    ensures
        exists|ids: Seq<usize>| ascending(ids) && ids.to_set() == set,
    decreases bound,
{
    if bound == 0 {
        let ids = Seq::<usize>::empty();
        assert(ids.to_set() =~= set);
        assert(ascending(ids) && ids.to_set() == set);
    } else {
        let top = (bound - 1) as usize;
        let lower = set.remove(top);
        lemma_listing_below(lower, (bound - 1) as nat);
        let below = choose|ids: Seq<usize>| ascending(ids) && ids.to_set() == lower;
        if set.contains(top) {
            let ids = below.push(top);
            assert forall|i: int, j: int| 0 <= i < j < ids.len() implies ids[i] < ids[j] by {
                assert(lower.contains(below[i]));
            }
            below.lemma_push_to_set_commute(top);
            assert(ids.to_set() =~= set);
            assert(ascending(ids) && ids.to_set() == set);
        } else {
            assert(lower =~= set);
        }
    }
}

/// Placing `id` in an ascending list, after the members that are less and
/// before those that are greater, keeps the list ascending and adds `id` to
/// its members.
proof fn lemma_insert_ascending(before: Seq<usize>, at: int, id: usize)
    requires
        ascending(before),
        0 <= at <= before.len(),
        forall|i: int| 0 <= i < at ==> before[i] < id,
        forall|i: int| at <= i < before.len() ==> id < before[i],
    ensures
        ascending(before.insert(at, id)),
        before.insert(at, id).to_set() == before.to_set().insert(id),
{
    let after = before.insert(at, id);
    before.insert_ensures(at, id);
    assert forall|v: usize| after.to_set().contains(v) <==> before.to_set().insert(id).contains(
        v,
    ) by {
        if after.contains(v) {
            let i = choose|i: int| 0 <= i < after.len() && after[i] == v;
            if i < at {
                assert(before[i] == v);
            } else if i > at {
                assert(before[i - 1] == v);
            }
        }
        if before.contains(v) {
            let i = choose|i: int| 0 <= i < before.len() && before[i] == v;
            if i < at {
                assert(after[i] == v);
            } else {
                assert(after[i + 1] == v);
            }
        }
        assert(after[at] == id);
    }
    assert(after.to_set() =~= before.to_set().insert(id));
}

/// Puts `id` at its place in the ascending list `ids`, unless it is there
/// already.
pub fn insert_ascending(ids: &mut Vec<usize>, id: usize)
    requires
        ascending(old(ids)@),
    ensures
        ascending(final(ids)@),
        final(ids)@.to_set() == old(ids)@.to_set().insert(id),
{
    let mut at: usize = 0;
    while at < ids.len() && ids[at] < id
        invariant
            at <= ids.len(),
            ids@ == old(ids)@,
            forall|i: int| 0 <= i < at ==> ids@[i] < id,
        decreases ids.len() - at,
    {
        at = at + 1;
    }
    if at == ids.len() || ids[at] != id {
        proof {
            lemma_insert_ascending(ids@, at as int, id);
        }
        ids.insert(at, id);
    } else {
        assert(ids@.to_set() =~= ids@.to_set().insert(id)) by {
            assert(ids@.contains(ids@[at as int]));
        }
    }
}

} // verus!
