//! Selection of the bodies that a body interacts with.
//!
//! Bodies carry a stable id apart from their place in the collection. A body
//! takes gravity from every entry of the tick's snapshot whose id differs from
//! its own, and collides with every such entry that the overlap rule admits.
//! Both selections are returned as indices into the snapshot, in order.
use core::cmp::Ordering;
use vstd::prelude::*;
use crate::band::{collides, collision_verdict};

verus! {

/// The indices, in increasing order, of the entries of `ids` that differ from `id`.
pub open spec fn partner_indices(id: u32, ids: Seq<u32>) -> Seq<int>
    decreases ids.len(),
{
    if ids.len() == 0 {
        seq![]
    } else {
        let rest = partner_indices(id, ids.drop_last());
        if ids.last() != id {
            rest.push(ids.len() - 1)
        } else {
            rest
        }
    }
}

/// The indices, in increasing order, of the entries that collide with the
/// body `id`: entry `j` has id `ids[j]` and comparison outcomes `lower[j]`,
/// `upper[j]`.
pub open spec fn colliding_indices(
    id: u32,
    ids: Seq<u32>,
    lower: Seq<Option<Ordering>>,
    upper: Seq<Option<Ordering>>,
    inclusive: bool,
) -> Seq<int>
    decreases ids.len(),
{
    if ids.len() == 0 {
        seq![]
    } else {
        let n = ids.len() - 1;
        let rest = colliding_indices(
            id,
            ids.drop_last(),
            lower.subrange(0, n),
            upper.subrange(0, n),
            inclusive,
        );
        if collides(id, ids[n], lower[n], upper[n], inclusive) {
            rest.push(n)
        } else {
            rest
        }
    }
}

/// The view of a vector of indices as a sequence of integers.
pub open spec fn as_ints(v: Seq<usize>) -> Seq<int> {
    v.map_values(|x: usize| x as int)
}

/// Indices of the snapshot entries whose gravity acts on the body `self_id`.
pub fn interaction_partners(self_id: u32, ids: &Vec<u32>) -> (r: Vec<usize>)
    ensures
        as_ints(r@) == partner_indices(self_id, ids@),
{
    let mut r: Vec<usize> = Vec::new();
    let mut i: usize = 0;
    while i < ids.len()
        invariant
            i <= ids.len(),
            as_ints(r@) == partner_indices(self_id, ids@.subrange(0, i as int)),
        decreases ids.len() - i,
    {
        let ghost before = r@;
        assert(ids@.subrange(0, i + 1).drop_last() =~= ids@.subrange(0, i as int));
        if ids[i] != self_id {
            r.push(i);
            assert(as_ints(r@) =~= as_ints(before).push(i as int));
        }
        i = i + 1;
    }
    assert(ids@.subrange(0, ids.len() as int) =~= ids@);
    r
}

/// Indices of the snapshot entries that collide with the body `self_id`,
/// given the comparison outcomes of the overlap rule for each entry.
pub fn overlapping_partners(
    self_id: u32,
    ids: &Vec<u32>,
    lower: &Vec<Option<Ordering>>,
    upper: &Vec<Option<Ordering>>,
    inclusive: bool,
) -> (r: Vec<usize>)
    requires
        lower.len() == ids.len(),
        upper.len() == ids.len(),
    ensures
        as_ints(r@) == colliding_indices(self_id, ids@, lower@, upper@, inclusive),
{
    let mut r: Vec<usize> = Vec::new();
    let mut i: usize = 0;
    while i < ids.len()
        invariant
            i <= ids.len(),
            lower.len() == ids.len(),
            upper.len() == ids.len(),
            as_ints(r@) == colliding_indices(
                self_id,
                ids@.subrange(0, i as int),
                lower@.subrange(0, i as int),
                upper@.subrange(0, i as int),
                inclusive,
            ),
        decreases ids.len() - i,
    {
        let ghost before = r@;
        assert(ids@.subrange(0, i + 1).drop_last() =~= ids@.subrange(0, i as int));
        assert(lower@.subrange(0, i + 1).subrange(0, i as int) =~= lower@.subrange(0, i as int));
        assert(upper@.subrange(0, i + 1).subrange(0, i as int) =~= upper@.subrange(0, i as int));
        if collision_verdict(self_id, ids[i], lower[i], upper[i], inclusive) {
            r.push(i);
            assert(as_ints(r@) =~= as_ints(before).push(i as int));
        }
        i = i + 1;
    }
    assert(ids@.subrange(0, ids.len() as int) =~= ids@);
    assert(lower@.subrange(0, ids.len() as int) =~= lower@);
    assert(upper@.subrange(0, ids.len() as int) =~= upper@);
    r
}

/// A body never takes gravity from itself: every selected index holds an id
/// other than `id`, and every entry with another id is selected.
pub proof fn lemma_self_excluded(id: u32, ids: Seq<u32>)
    ensures
        forall|k: int|
            0 <= k < partner_indices(id, ids).len() ==> {
                let j = #[trigger] partner_indices(id, ids)[k];
                0 <= j < ids.len() && ids[j] != id
            },
        forall|j: int| 0 <= j < ids.len() && ids[j] != id ==> partner_indices(id, ids).contains(j),
    decreases ids.len(),
{
    if ids.len() > 0 {
        let rest = ids.drop_last();
        lemma_self_excluded(id, rest);
        let p = partner_indices(id, ids);
        let q = partner_indices(id, rest);
        assert forall|j: int| 0 <= j < ids.len() && ids[j] != id implies p.contains(j) by {
            if j < ids.len() - 1 {
                assert(rest[j] == ids[j]);
                let k = choose|k: int| 0 <= k < q.len() && q[k] == j;
                assert(p[k] == j);
            } else {
                assert(p[p.len() - 1] == j);
            }
        }
    }
}

/// With no other entries in the snapshot, nothing acts on a body.
pub proof fn lemma_no_partners_without_others(id: u32, ids: Seq<u32>)
    requires
        forall|j: int| 0 <= j < ids.len() ==> ids[j] == id,
    ensures
        partner_indices(id, ids) == Seq::<int>::empty(),
    decreases ids.len(),
{
    if ids.len() > 0 {
        lemma_no_partners_without_others(id, ids.drop_last());
    }
}

/// Every index selected for collision holds another id and an overlap.
pub proof fn lemma_collisions_sound(
    id: u32,
    ids: Seq<u32>,
    lower: Seq<Option<Ordering>>,
    upper: Seq<Option<Ordering>>,
    inclusive: bool,
)
    requires
        lower.len() == ids.len(),
        upper.len() == ids.len(),
    ensures
        forall|k: int|
            0 <= k < colliding_indices(id, ids, lower, upper, inclusive).len() ==> {
                let j = #[trigger] colliding_indices(id, ids, lower, upper, inclusive)[k];
                0 <= j < ids.len() && collides(id, ids[j], lower[j], upper[j], inclusive)
            },
    decreases ids.len(),
{
    if ids.len() > 0 {
        let n = ids.len() - 1;
        let (l, u) = (lower.subrange(0, n), upper.subrange(0, n));
        lemma_collisions_sound(id, ids.drop_last(), l, u, inclusive);
        let p = colliding_indices(id, ids, lower, upper, inclusive);
        let q = colliding_indices(id, ids.drop_last(), l, u, inclusive);
        assert forall|k: int| 0 <= k < p.len() implies {
            let j = #[trigger] p[k];
            0 <= j < ids.len() && collides(id, ids[j], lower[j], upper[j], inclusive)
        } by {
            if k < q.len() {
                let j = q[k];
                assert(ids.drop_last()[j] == ids[j]);
                assert(l[j] == lower[j]);
                assert(u[j] == upper[j]);
            }
        }
    }
}

} // verus!
