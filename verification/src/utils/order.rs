//! Facts about the key order of `BTreeMap` iteration over `usize` keys.
use std::collections::BTreeMap;

use vstd::prelude::*;
use vstd::std_specs::btree::{increasing_seq, key_obeys_cmp_spec, spec_btree_map_iter};
use vstd::std_specs::cmp::OrdSpec;
use vstd::std_specs::iter::IteratorSpec;

verus! {

/// `usize` keys obey the comparison laws that `BTreeMap` relies on.
pub proof fn lemma_usize_keys_ordered()
    ensures
        key_obeys_cmp_spec::<usize>(),
        vstd::laws_cmp::obeys_cmp::<usize>(),
{
    broadcast use vstd::std_specs::btree::group_btree_axioms;
    broadcast use vstd::laws_cmp::group_laws_cmp;

    assert(vstd::laws_cmp::obeys_cmp::<usize>());
}

/// The entries that iterating `m` yields are its key/value pairs, and
/// every key of `m` occurs among them.
pub proof fn lemma_btree_iteration(m: &BTreeMap<usize, u64>)
    ensures
        ({
            let r = spec_btree_map_iter(m).remaining();
            &&& r.len() == m@.dom().len()
            &&& forall|i: int|
                0 <= i < r.len() ==> m@.contains_key(*(#[trigger] r[i]).0) && m@[*r[i].0] == *r[i].1
            &&& forall|k: usize| #[trigger]
                m@.contains_key(k) ==> exists|i: int| 0 <= i < r.len() && *r[i].0 == k
        }),
{
    broadcast use vstd::std_specs::btree::group_btree_axioms;

    let r = spec_btree_map_iter(m).remaining();
    assert(r.len() == m@.dom().len());
    assert forall|i: int| 0 <= i < r.len() implies m@.contains_key(*(#[trigger] r[i]).0) && m@[*r[i].0]
        == *r[i].1 by {
        assert(m@.contains_key(*r[i].0));
    }
    assert forall|k: usize| #[trigger] m@.contains_key(k) implies exists|i: int|
        0 <= i < r.len() && *r[i].0 == k by {
        assert(r.contains((&k, &m@[k])));
        let i = choose|i: int| 0 <= i < r.len() && r[i] == (&k, &m@[k]);
        assert(*r[i].0 == k);
    }
}

/// An increasing sequence of `usize` values is strictly increasing.
pub proof fn lemma_increasing_usize(s: Seq<usize>)
    requires
        increasing_seq(s),
    ensures
        forall|i: int, j: int| 0 <= i < j < s.len() ==> s[i] < s[j],
{
    broadcast use vstd::laws_cmp::group_laws_cmp;

    assert(vstd::laws_cmp::obeys_cmp::<usize>());
    vstd::std_specs::btree::axiom_increasing_seq_meaning::<usize>(s);
    assert forall|i: int, j: int| 0 <= i < j < s.len() implies s[i] < s[j] by {
        assert(s[i].cmp_spec(&s[j]) is Less);
    }
}

} // verus!
