//! Ids in ascending order.
//!
//! Containers and patterns are kept in hash maps, which have no order of
//! their own. Wherever an order is needed (the tab that shows a container,
//! the fresh ids given to what is loaded) it is the ascending order of the
//! ids, stated through the rank of an id in its set.

use std::collections::HashMap;
use vstd::prelude::*;
use vstd::std_specs::iter::IteratorSpec;

verus! {

broadcast use vstd::std_specs::hash::group_hash_axioms;

/// The ids of `ids` that are smaller than `id`.
pub open spec fn below(ids: Set<usize>, id: usize) -> Set<usize> {
    ids.filter(|x: usize| x < id)
}

/// How many ids of `ids` are smaller than `id`: the place of `id` when the
/// ids are put in ascending order, counted from zero.
pub open spec fn rank(ids: Set<usize>, id: usize) -> nat {
    below(ids, id).len()
}

/// The id of `ids` whose rank is `n`, if there is one.
pub open spec fn with_rank(ids: Set<usize>, n: nat) -> Option<usize> {
    if exists|id: usize| ids.contains(id) && rank(ids, id) == n {
        Some(choose|id: usize| ids.contains(id) && rank(ids, id) == n)
    } else {
        None
    }
}

/// Each element is smaller than the ones after it.
pub open spec fn ascending(s: Seq<usize>) -> bool {
    forall|i: int, j: int| 0 <= i < j < s.len() ==> s[i] < s[j]
}

/// Of two ids of a finite set, the smaller one has the smaller rank.
pub proof fn lemma_rank_increases(ids: Set<usize>, a: usize, b: usize)
    requires
        ids.finite(),
        ids.contains(a),
        a < b,
    ensures
        rank(ids, a) < rank(ids, b),
{
    let low = below(ids, a);
    let high = below(ids, b);
    vstd::set_lib::lemma_len_subset(low.insert(a), high);
}

/// No two ids of a finite set have the same rank.
pub proof fn lemma_rank_is_injective(ids: Set<usize>, a: usize, b: usize)
    requires
        ids.finite(),
        ids.contains(a),
        ids.contains(b),
        rank(ids, a) == rank(ids, b),
    ensures
        a == b,
{
    if a < b {
        lemma_rank_increases(ids, a, b);
    } else if b < a {
        lemma_rank_increases(ids, b, a);
    }
}

/// The rank of an id of a finite set is below the size of the set.
pub proof fn lemma_rank_is_bounded(ids: Set<usize>, id: usize)
    requires
        ids.finite(),
        ids.contains(id),
    ensures
        rank(ids, id) < ids.len(),
{
    let low = below(ids, id);
    vstd::set_lib::lemma_len_subset(low.insert(id), ids);
}

/// In a finite set, the id found for a rank is the only id with that rank.
pub proof fn lemma_with_rank(ids: Set<usize>, id: usize)
    requires
        ids.finite(),
        ids.contains(id),
    ensures
        with_rank(ids, rank(ids, id)) == Some(id),
{
    let n = rank(ids, id);
    let found = choose|x: usize| ids.contains(x) && rank(ids, x) == n;
    lemma_rank_is_injective(ids, found, id);
}

/// In an ascending sequence each element stands at its rank.
pub proof fn lemma_rank_in_ascending(s: Seq<usize>, i: int)
    requires
        ascending(s),
        0 <= i < s.len(),
    ensures
        rank(s.to_set(), s[i]) == i,
{
    let before = s.take(i);
    let smaller = below(s.to_set(), s[i]);
    assert(smaller =~= before.to_set()) by {
        assert forall|x: usize| #[trigger]
            before.to_set().contains(x) implies smaller.contains(x) by {
            let j = choose|j: int| 0 <= j < before.len() && before[j] == x;
        }
        assert forall|x: usize| #[trigger]
            smaller.contains(x) implies before.to_set().contains(x) by {
            let j = choose|j: int| 0 <= j < s.len() && s[j] == x;
            assert(before[j] == x);
        }
    }
    before.unique_seq_to_set();
}

/// An ascending sequence is as long as the set of its elements is large.
pub proof fn lemma_ascending_len(s: Seq<usize>)
    requires
        ascending(s),
    ensures
        s.len() == s.to_set().len(),
{
    s.unique_seq_to_set();
}

/// In a finite set no id has a rank as large as the set, and the ranks below
/// that are those of the elements of its ascending sequence.
pub proof fn lemma_with_rank_in_ascending(s: Seq<usize>, n: nat)
    requires
        ascending(s),
    ensures
        with_rank(s.to_set(), n) == if n < s.len() {
            Some(s[n as int])
        } else {
            None
        },
{
    let ids = s.to_set();
    vstd::seq_lib::seq_to_set_is_finite(s);
    lemma_ascending_len(s);
    if n < s.len() {
        lemma_rank_in_ascending(s, n as int);
        lemma_with_rank(ids, s[n as int]);
    } else {
        assert forall|id: usize| ids.contains(id) implies rank(ids, id) != n by {
            lemma_rank_is_bounded(ids, id);
        }
    }
}

/// Puts `id` at its place in an ascending vector, unless it is there already.
fn insert_ascending(v: &mut Vec<usize>, id: usize)
    requires
        ascending(old(v)@),
    ensures
        ascending(final(v)@),
        final(v)@.to_set() == old(v)@.to_set().insert(id),
{
    let mut i: usize = 0;
    while i < v.len() && v[i] < id
        invariant
            i <= v.len(),
            forall|j: int| 0 <= j < i ==> v@[j] < id,
        decreases v.len() - i,
    {
        i += 1;
    }
    if i >= v.len() || v[i] != id {
        let ghost before = v@;
        v.insert(i, id);
        let ghost wanted = before.to_set().insert(id);
        assert(v@.to_set() =~= wanted) by {
            assert forall|x: usize| #[trigger]
                wanted.contains(x) implies v@.to_set().contains(x) by {
                if x == id {
                    assert(v@[i as int] == x);
                } else {
                    let j = choose|j: int| 0 <= j < before.len() && before[j] == x;
                    if j < i {
                        assert(v@[j] == x);
                    } else {
                        assert(v@[j + 1] == x);
                    }
                }
            }
        }
    }
}

/// The ids under which `m` holds something, in ascending order.
pub fn sorted_ids<V>(m: &HashMap<usize, V>) -> (ids: Vec<usize>)
    ensures
        ascending(ids@),
        ids@.to_set() == m@.dom(),
        ids@.len() == m@.dom().len(),
        forall|n: nat| with_rank(m@.dom(), n) == if n < ids@.len() {
            Some(ids@[n as int])
        } else {
            None
        },
{
    let mut ids: Vec<usize> = Vec::new();
    for k in it: m.keys()
        invariant
            it.seq() == m.keys().remaining(),
            ascending(ids@),
            ids@.to_set() == it.seq().take(it.index()).unref().to_set(),
    {
        let ghost seen = it.seq().take(it.index()).unref();
        insert_ascending(&mut ids, *k);
        assert(it.seq().take(it.index() + 1).unref() =~= seen.push(*k));
        proof {
            seen.lemma_push_to_set_commute(*k);
        }
    }
    proof {
        let all = m.keys().remaining();
        assert(all.take(all.len() as int) =~= all);
        lemma_ascending_len(ids@);
        assert forall|n: nat| with_rank(m@.dom(), n) == if n < ids@.len() {
            Some(ids@[n as int])
        } else {
            None
        } by {
            lemma_with_rank_in_ascending(ids@, n);
        }
    }
    ids
}

} // verus!
