//! Sets of small numbers held in a `BTreeSet<u8>`: the pressed keys are
//! kept as the set of their positions in their enum's declaration, which
//! orders them as the enum's derived `Ord` does.

use std::collections::BTreeSet;
use vstd::prelude::*;
use vstd::std_specs::cmp::OrdSpec;
use vstd::std_specs::iter::IteratorSpec;
use vstd::std_specs::btree::{increasing_seq, spec_btree_keys_iter};

verus! {

broadcast use vstd::std_specs::btree::group_btree_axioms, vstd::laws_cmp::group_laws_cmp;

/// An empty set.
pub fn rank_set_new() -> (s: BTreeSet<u8>)
    ensures
        s@ == Set::<u8>::empty(),
{
    BTreeSet::new()
}

/// Adds `rank` to the set.
pub fn rank_set_insert(s: &mut BTreeSet<u8>, rank: u8)
    ensures
        final(s)@ == old(s)@.insert(rank),
{
    s.insert(rank);
}

/// Takes `rank` out of the set.
pub fn rank_set_remove(s: &mut BTreeSet<u8>, rank: u8)
    ensures
        final(s)@ == old(s)@.remove(rank),
{
    s.remove(&rank);
}

/// Empties the set.
pub fn rank_set_clear(s: &mut BTreeSet<u8>)
    ensures
        final(s)@ == Set::<u8>::empty(),
{
    s.clear();
}

/// Whether `rank` is in the set.
pub fn rank_set_contains(s: &BTreeSet<u8>, rank: u8) -> (r: bool)
    ensures
        r == s@.contains(rank),
{
    s.contains(&rank)
}

proof fn lemma_increasing_refs(keys: Seq<&u8>)
    requires
        increasing_seq(keys),
    ensures
        forall|a: int, b: int| 0 <= a < b < keys.len() ==> *keys[a] < *keys[b],
{
    assert(vstd::laws_cmp::obeys_cmp::<u8>());
    assert(vstd::laws_cmp::obeys_cmp::<&u8>());
    vstd::std_specs::btree::axiom_increasing_seq_meaning(keys);
    assert forall|a: int, b: int| 0 <= a < b < keys.len() implies *keys[a] < *keys[b] by {
        assert(OrdSpec::cmp_spec(&keys[a], &keys[b]) is Less);
    }
}

/// The elements of the set in ascending order.
pub fn rank_set_ascending(s: &BTreeSet<u8>) -> (v: Vec<u8>)
    ensures
        v@.to_set() == s@,
        forall|a: int, b: int| 0 <= a < b < v@.len() ==> v@[a] < v@[b],
{
    let ghost keys = spec_btree_keys_iter(s).remaining();
    proof {
        vstd::std_specs::btree::axiom_spec_btree_keys_iter(s);
        lemma_increasing_refs(keys);
    }
    let mut v: Vec<u8> = Vec::new();
    for x in it: s.iter()
        invariant
            it.seq() == keys,
            v@ == keys.take(it.index() as int).map_values(|r: &u8| *r),
    {
        v.push(*x);
        assert(v@ =~= keys.take(it.index() + 1).map_values(|r: &u8| *r));
    }
    assert(v@ =~= keys.map_values(|r: &u8| *r));
    assert(keys.unref() =~= keys.map_values(|r: &u8| *r));
    v
}

} // verus!
