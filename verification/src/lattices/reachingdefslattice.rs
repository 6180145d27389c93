use crate::lattices::{Lattice, Order, ValueLattice};
use std::collections::BTreeSet;
use vstd::prelude::*;

verus! {

broadcast use {
    vstd::std_specs::btree::group_btree_axioms,
    vstd::laws_cmp::group_laws_cmp,
    vstd::seq_lib::group_seq_properties,
};

/// A program point: the address of a machine instruction and the index of a
/// statement among those it was lifted to.
#[derive(Clone, Copy, Debug, PartialEq, Eq, Structural, Hash)]
pub struct LocIdx {
    pub addr: u64,
    pub idx: u32,
}

/// The set of program points whose definitions may reach a location; the
/// set of a point is kept as the pair `(addr, idx)`. Larger sets lie lower:
/// the meet is the union.
#[derive(Clone, Debug)]
pub struct ReachingDefnLattice {
    pub defs: BTreeSet<(u64, u32)>,
}

impl View for ReachingDefnLattice {
    type V = Set<(u64, u32)>;

    open spec fn view(&self) -> Set<(u64, u32)> {
        self.defs@
    }
}

/// The elements of a set, each once, in increasing order.
fn set_elements(a: &BTreeSet<(u64, u32)>) -> (r: Vec<(u64, u32)>)
    ensures
        r@.to_set() == a@,
        r@.no_duplicates(),
{
    let mut r: Vec<(u64, u32)> = Vec::new();
    for x in it: a.iter()
        invariant
            r@ == it.seq().unref().take(it.index() as int),
            it.seq().unref().to_set() == a@,
            it.seq().unref().no_duplicates(),
            it.index() == it.seq().len() ==> r@ == it.seq().unref(),
    {
        r.push(*x);
    }
    r
}

/// Whether every element of `a` is in `b`.
fn set_is_subset(a: &BTreeSet<(u64, u32)>, b: &BTreeSet<(u64, u32)>) -> (r: bool)
    ensures
        r == a@.subset_of(b@),
{
    let elems = set_elements(a);
    let mut i: usize = 0;
    while i < elems.len()
        invariant
            i <= elems@.len(),
            elems@.to_set() == a@,
            forall|j: int| 0 <= j < i ==> b@.contains(#[trigger] elems@[j]),
        decreases elems@.len() - i,
    {
        if !b.contains(&elems[i]) {
            assert(elems@.to_set().contains(elems@[i as int]));
            return false;
        }
        i = i + 1;
    }
    assert forall|y: (u64, u32)| a@.contains(y) implies b@.contains(y) by {
        assert(elems@.to_set().contains(y));
    }
    true
}

impl ReachingDefnLattice {
    pub fn is_empty(&self) -> (r: bool)
        ensures
            r == (self@ == Set::<(u64, u32)>::empty()),
    {
        let r = self.defs.is_empty();
        proof {
            if !r {
                assert(!self@.is_empty());
            }
        }
        r
    }
}

impl Lattice for ReachingDefnLattice {
    open spec fn spec_meet(a: Set<(u64, u32)>, b: Set<(u64, u32)>) -> Set<(u64, u32)> {
        a.union(b)
    }

    open spec fn spec_order(a: Set<(u64, u32)>, b: Set<(u64, u32)>) -> Option<Order> {
        if a == b {
            Some(Order::Equal)
        } else if a.subset_of(b) {
            Some(Order::Greater)
        } else if b.subset_of(a) {
            Some(Order::Less)
        } else {
            None
        }
    }

    open spec fn spec_bot() -> Set<(u64, u32)> {
        Set::empty()
    }

    fn meet(&self, other: &Self, _loc_idx: &LocIdx) -> (r: Self) {
        let mut defs = self.defs.clone();
        let elems = set_elements(&other.defs);
        let mut i: usize = 0;
        while i < elems.len()
            invariant
                i <= elems@.len(),
                elems@.to_set() == other@,
                defs@ == self@.union(elems@.take(i as int).to_set()),
            decreases elems@.len() - i,
        {
            proof {
                assert(elems@.take(i + 1) =~= elems@.take(i as int).push(elems@[i as int]));
                assert(elems@.take(i + 1).to_set() =~= elems@.take(i as int).to_set().insert(
                    elems@[i as int],
                ));
            }
            defs.insert(elems[i]);
            i = i + 1;
        }
        proof {
            assert(elems@.take(i as int) =~= elems@);
        }
        ReachingDefnLattice { defs }
    }

    fn order(&self, other: &Self) -> (r: Option<Order>) {
        let le = set_is_subset(&self.defs, &other.defs);
        let ge = set_is_subset(&other.defs, &self.defs);
        if le && ge {
            proof {
                assert(self@ =~= other@);
            }
            Some(Order::Equal)
        } else if le {
            Some(Order::Greater)
        } else if ge {
            Some(Order::Less)
        } else {
            None
        }
    }

    fn same(&self, other: &Self) -> (r: bool) {
        let le = set_is_subset(&self.defs, &other.defs);
        let ge = set_is_subset(&other.defs, &self.defs);
        if le && ge {
            assert(self@ =~= other@);
        }
        le && ge
    }

    fn bot() -> (r: Self) {
        ReachingDefnLattice { defs: BTreeSet::new() }
    }

    fn duplicate(&self) -> (r: Self) {
        ReachingDefnLattice { defs: self.defs.clone() }
    }

    proof fn lemma_meet_not_above(a: Set<(u64, u32)>, b: Set<(u64, u32)>) {
        if a.union(b).subset_of(a) {
            assert(a.union(b) =~= a);
        }
    }
}

impl ValueLattice for ReachingDefnLattice {
    proof fn lemma_not_below_meet(a: Set<(u64, u32)>, b: Set<(u64, u32)>) {
        if a != a.union(b) && a.union(b).subset_of(a) {
            assert(a =~= a.union(b));
        }
    }

    proof fn lemma_meet_commutative(a: Set<(u64, u32)>, b: Set<(u64, u32)>) {
        assert(a.union(b) =~= b.union(a));
    }

    proof fn lemma_meet_idempotent(a: Set<(u64, u32)>) {
        assert(a.union(a) =~= a);
    }

    proof fn lemma_order_reflexive(a: Set<(u64, u32)>) {
    }
}

impl Default for ReachingDefnLattice {
    fn default() -> (r: Self)
        ensures
            r@ == Set::<(u64, u32)>::empty(),
    {
        ReachingDefnLattice { defs: BTreeSet::new() }
    }
}

/// The set holding one program point.
pub fn singleton(loc_idx: LocIdx) -> (r: ReachingDefnLattice)
    ensures
        r@ == set![(loc_idx.addr, loc_idx.idx)],
{
    let mut bset = BTreeSet::new();
    bset.insert((loc_idx.addr, loc_idx.idx));
    proof {
        assert(bset@ =~= set![(loc_idx.addr, loc_idx.idx)]);
    }
    ReachingDefnLattice { defs: bset }
}

/// The set holding the point `(addr, idx)`.
pub fn loc(addr: u64, idx: u32) -> (r: ReachingDefnLattice)
    ensures
        r@ == set![(addr, idx)],
{
    singleton(LocIdx { addr: addr, idx: idx })
}

} // verus!
