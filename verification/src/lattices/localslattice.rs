use crate::ir::types::X86Regs;
use crate::lattices::reachingdefslattice::LocIdx;
use crate::lattices::{ordering_of, to_ordering, Lattice, Order, ValueLattice, VariableState};
use std::cmp::Ordering;
use vstd::prelude::*;
use vstd::std_specs::cmp::{PartialEqSpecImpl, PartialOrdSpecImpl};

verus! {

/// Whether a location is initialized, or still holds a register's value from
/// function entry.
#[derive(Clone, Copy, Debug, PartialEq, Eq, Structural, Hash)]
pub enum SlotVal {
    Uninit,
    Init,
    InitialRegVal(X86Regs),
}

impl View for SlotVal {
    type V = SlotVal;

    open spec fn view(&self) -> SlotVal {
        *self
    }
}

impl Lattice for SlotVal {
    open spec fn spec_meet(a: SlotVal, b: SlotVal) -> SlotVal {
        match (a, b) {
            (SlotVal::Init, SlotVal::Init) => SlotVal::Init,
            (SlotVal::Uninit, _) => SlotVal::Uninit,
            (_, SlotVal::Uninit) => SlotVal::Uninit,
            (SlotVal::Init, SlotVal::InitialRegVal(_)) => SlotVal::Uninit,
            (SlotVal::InitialRegVal(_), SlotVal::Init) => SlotVal::Uninit,
            (SlotVal::InitialRegVal(r1), SlotVal::InitialRegVal(r2)) => if r1 == r2 {
                SlotVal::InitialRegVal(r1)
            } else {
                SlotVal::Uninit
            },
        }
    }

    /// Two initial register values compare equal when they are the same
    /// register, and not at all otherwise.
    open spec fn spec_order(a: SlotVal, b: SlotVal) -> Option<Order> {
        match (a, b) {
            (SlotVal::Uninit, SlotVal::Uninit) => Some(Order::Equal),
            (SlotVal::Uninit, _) => Some(Order::Less),
            (_, SlotVal::Uninit) => Some(Order::Greater),
            (SlotVal::Init, SlotVal::Init) => Some(Order::Equal),
            (SlotVal::Init, _) => Some(Order::Greater),
            (_, SlotVal::Init) => Some(Order::Less),
            (SlotVal::InitialRegVal(r1), SlotVal::InitialRegVal(r2)) => if r1 == r2 {
                Some(Order::Equal)
            } else {
                None
            },
        }
    }

    open spec fn spec_bot() -> SlotVal {
        SlotVal::Uninit
    }

    fn meet(&self, other: &Self, _loc: &LocIdx) -> (r: Self) {
        match (*self, *other) {
            (SlotVal::Init, SlotVal::Init) => SlotVal::Init,
            (SlotVal::Uninit, _) => SlotVal::Uninit,
            (_, SlotVal::Uninit) => SlotVal::Uninit,
            (SlotVal::Init, SlotVal::InitialRegVal(_)) => SlotVal::Uninit,
            (SlotVal::InitialRegVal(_), SlotVal::Init) => SlotVal::Uninit,
            (SlotVal::InitialRegVal(r1), SlotVal::InitialRegVal(r2)) => {
                if r1 == r2 {
                    SlotVal::InitialRegVal(r1)
                } else {
                    SlotVal::Uninit
                }
            },
        }
    }

    fn order(&self, other: &Self) -> (r: Option<Order>) {
        match (*self, *other) {
            (SlotVal::Uninit, SlotVal::Uninit) => Some(Order::Equal),
            (SlotVal::Uninit, _) => Some(Order::Less),
            (_, SlotVal::Uninit) => Some(Order::Greater),
            (SlotVal::Init, SlotVal::Init) => Some(Order::Equal),
            (SlotVal::Init, _) => Some(Order::Greater),
            (_, SlotVal::Init) => Some(Order::Less),
            (SlotVal::InitialRegVal(r1), SlotVal::InitialRegVal(r2)) => {
                if r1 == r2 {
                    Some(Order::Equal)
                } else {
                    None
                }
            },
        }
    }

    fn same(&self, other: &Self) -> (r: bool) {
        *self == *other
    }

    fn bot() -> (r: Self) {
        SlotVal::Uninit
    }

    fn duplicate(&self) -> (r: Self) {
        *self
    }

    proof fn lemma_meet_not_above(a: SlotVal, b: SlotVal) {
    }
}

impl ValueLattice for SlotVal {
    proof fn lemma_not_below_meet(a: SlotVal, b: SlotVal) {
    }

    proof fn lemma_meet_commutative(a: SlotVal, b: SlotVal) {
    }

    proof fn lemma_meet_idempotent(a: SlotVal) {
    }

    proof fn lemma_order_reflexive(a: SlotVal) {
    }
}

impl PartialOrd for SlotVal {
    fn partial_cmp(&self, other: &Self) -> (r: Option<Ordering>) {
        to_ordering(self.order(other))
    }
}

impl PartialOrdSpecImpl for SlotVal {
    open spec fn obeys_partial_cmp_spec() -> bool {
        true
    }

    open spec fn partial_cmp_spec(&self, other: &Self) -> Option<Ordering> {
        ordering_of(Self::spec_order(self@, other@))
    }
}

impl Default for SlotVal {
    fn default() -> (r: Self)
        ensures
            r == SlotVal::Uninit,
    {
        SlotVal::Uninit
    }
}

pub type LocalsLattice = VariableState<SlotVal>;

} // verus!
