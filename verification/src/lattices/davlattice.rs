use crate::lattices::reachingdefslattice::{LocIdx, ReachingDefnLattice};
use crate::lattices::{ordering_of, to_ordering, Lattice, Order, ValueLattice};
use std::cmp::Ordering;
use vstd::prelude::*;
use vstd::std_specs::cmp::{PartialEqSpecImpl, PartialOrdSpecImpl};

verus! {

/// A dependent abstract value: an offset that is unknown, not yet checked
/// (with the definitions it depends on), or checked.
#[derive(Clone, Debug)]
pub enum DAV {
    Unknown,
    Unchecked(ReachingDefnLattice),
    Checked,
}

/// The abstract content of a [`DAV`].
pub enum DavView {
    Unknown,
    Unchecked(Set<(u64, u32)>),
    Checked,
}

impl View for DAV {
    type V = DavView;

    open spec fn view(&self) -> DavView {
        match self {
            DAV::Unknown => DavView::Unknown,
            DAV::Unchecked(x) => DavView::Unchecked(x@),
            DAV::Checked => DavView::Checked,
        }
    }
}

impl Lattice for DAV {
    open spec fn spec_meet(a: DavView, b: DavView) -> DavView {
        match (a, b) {
            (DavView::Unknown, _) => DavView::Unknown,
            (_, DavView::Unknown) => DavView::Unknown,
            (DavView::Unchecked(x), DavView::Unchecked(y)) => if x == y {
                a
            } else {
                DavView::Unknown
            },
            (DavView::Checked, DavView::Checked) => a,
            (DavView::Unchecked(_), DavView::Checked) => a,
            (DavView::Checked, DavView::Unchecked(_)) => b,
        }
    }

    open spec fn spec_order(a: DavView, b: DavView) -> Option<Order> {
        match (a, b) {
            (DavView::Unknown, DavView::Unknown) => Some(Order::Equal),
            (DavView::Unknown, _) => Some(Order::Less),
            (DavView::Unchecked(x), DavView::Unchecked(y)) => if x == y {
                Some(Order::Equal)
            } else {
                None
            },
            (DavView::Unchecked(_), DavView::Checked) => Some(Order::Less),
            (DavView::Checked, DavView::Checked) => Some(Order::Equal),
            (DavView::Checked, DavView::Unchecked(_)) => Some(Order::Greater),
            (DavView::Unchecked(_), DavView::Unknown) => Some(Order::Greater),
            (DavView::Checked, DavView::Unknown) => Some(Order::Greater),
        }
    }

    open spec fn spec_bot() -> DavView {
        DavView::Unknown
    }

    fn meet(&self, other: &Self, _loc_idx: &LocIdx) -> (r: Self) {
        match (self, other) {
            (DAV::Unknown, _) => DAV::Unknown,
            (_, DAV::Unknown) => DAV::Unknown,
            (DAV::Unchecked(x), DAV::Unchecked(y)) => {
                if x.same(y) {
                    self.duplicate()
                } else {
                    DAV::Unknown
                }
            },
            (DAV::Checked, DAV::Checked) => self.duplicate(),
            (DAV::Unchecked(_), DAV::Checked) => self.duplicate(),
            (DAV::Checked, DAV::Unchecked(_)) => other.duplicate(),
        }
    }

    fn order(&self, other: &Self) -> (r: Option<Order>) {
        match (self, other) {
            (DAV::Unknown, DAV::Unknown) => Some(Order::Equal),
            (DAV::Unknown, _) => Some(Order::Less),
            (DAV::Unchecked(x), DAV::Unchecked(y)) => {
                if x.same(y) {
                    Some(Order::Equal)
                } else {
                    None
                }
            },
            (DAV::Unchecked(_), DAV::Checked) => Some(Order::Less),
            (DAV::Checked, DAV::Checked) => Some(Order::Equal),
            (DAV::Checked, DAV::Unchecked(_)) => Some(Order::Greater),
            (DAV::Unchecked(_), DAV::Unknown) => Some(Order::Greater),
            (DAV::Checked, DAV::Unknown) => Some(Order::Greater),
        }
    }

    fn same(&self, other: &Self) -> (r: bool) {
        match (self, other) {
            (DAV::Unknown, DAV::Unknown) => true,
            (DAV::Unchecked(x), DAV::Unchecked(y)) => x.same(y),
            (DAV::Checked, DAV::Checked) => true,
            _ => false,
        }
    }

    fn bot() -> (r: Self) {
        DAV::Unknown
    }

    fn duplicate(&self) -> (r: Self) {
        match self {
            DAV::Unknown => DAV::Unknown,
            DAV::Unchecked(x) => DAV::Unchecked(x.duplicate()),
            DAV::Checked => DAV::Checked,
        }
    }

    proof fn lemma_meet_not_above(a: DavView, b: DavView) {
    }
}

impl ValueLattice for DAV {
    proof fn lemma_not_below_meet(a: DavView, b: DavView) {
    }

    proof fn lemma_meet_commutative(a: DavView, b: DavView) {
    }

    proof fn lemma_meet_idempotent(a: DavView) {
    }

    proof fn lemma_order_reflexive(a: DavView) {
    }
}

impl PartialEq for DAV {
    fn eq(&self, other: &Self) -> (r: bool) {
        self.same(other)
    }
}

impl PartialEqSpecImpl for DAV {
    open spec fn obeys_eq_spec() -> bool {
        true
    }

    open spec fn eq_spec(&self, other: &Self) -> bool {
        self@ == other@
    }
}

impl Eq for DAV {

}

impl PartialOrd for DAV {
    fn partial_cmp(&self, other: &Self) -> (r: Option<Ordering>) {
        to_ordering(self.order(other))
    }
}

impl PartialOrdSpecImpl for DAV {
    open spec fn obeys_partial_cmp_spec() -> bool {
        true
    }

    open spec fn partial_cmp_spec(&self, other: &Self) -> Option<Ordering> {
        ordering_of(Self::spec_order(self@, other@))
    }
}

impl Default for DAV {
    fn default() -> (r: Self)
        ensures
            r@ == DavView::Unknown,
    {
        DAV::Unknown
    }
}

} // verus!
