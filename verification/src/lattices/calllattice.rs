use crate::lattices::davlattice::{DavView, DAV};
use crate::lattices::reachingdefslattice::LocIdx;
use crate::lattices::{ordering_of, to_ordering, Lattice, Order, ValueLattice, VariableState};
use std::cmp::Ordering;
use vstd::prelude::*;
use vstd::std_specs::cmp::{PartialEqSpecImpl, PartialOrdSpecImpl};

verus! {

/// What the call-safety analysis knows of a value.
#[derive(Clone, Debug)]
pub enum CallCheckValue {
    GuestTableBase,
    LucetTablesBase,
    TableSize,
    /// The type of the function whose table index is in the register.
    TypeOf(u8),
    PtrOffset(DAV),
    FnPtr,
    CheckedVal,
    CheckFlag(u32, u8),
}

/// The abstract content of a [`CallCheckValue`].
pub enum CallView {
    GuestTableBase,
    LucetTablesBase,
    TableSize,
    TypeOf(u8),
    PtrOffset(DavView),
    FnPtr,
    CheckedVal,
    CheckFlag(u32, u8),
}

impl View for CallCheckValue {
    type V = CallView;

    open spec fn view(&self) -> CallView {
        match self {
            CallCheckValue::GuestTableBase => CallView::GuestTableBase,
            CallCheckValue::LucetTablesBase => CallView::LucetTablesBase,
            CallCheckValue::TableSize => CallView::TableSize,
            CallCheckValue::TypeOf(r) => CallView::TypeOf(*r),
            CallCheckValue::PtrOffset(d) => CallView::PtrOffset(d@),
            CallCheckValue::FnPtr => CallView::FnPtr,
            CallCheckValue::CheckedVal => CallView::CheckedVal,
            CallCheckValue::CheckFlag(a, r) => CallView::CheckFlag(*a, *r),
        }
    }
}

impl CallCheckValue {
    pub fn same_value(&self, other: &Self) -> (r: bool)
        ensures
            r == (self@ == other@),
    {
        match (self, other) {
            (CallCheckValue::GuestTableBase, CallCheckValue::GuestTableBase) => true,
            (CallCheckValue::LucetTablesBase, CallCheckValue::LucetTablesBase) => true,
            (CallCheckValue::TableSize, CallCheckValue::TableSize) => true,
            (CallCheckValue::TypeOf(a), CallCheckValue::TypeOf(b)) => *a == *b,
            (CallCheckValue::PtrOffset(a), CallCheckValue::PtrOffset(b)) => a.same(b),
            (CallCheckValue::FnPtr, CallCheckValue::FnPtr) => true,
            (CallCheckValue::CheckedVal, CallCheckValue::CheckedVal) => true,
            (CallCheckValue::CheckFlag(a1, r1), CallCheckValue::CheckFlag(a2, r2)) => *a1 == *a2
                && *r1 == *r2,
            _ => false,
        }
    }

    pub fn copy_value(&self) -> (r: Self)
        ensures
            r@ == self@,
    {
        match self {
            CallCheckValue::GuestTableBase => CallCheckValue::GuestTableBase,
            CallCheckValue::LucetTablesBase => CallCheckValue::LucetTablesBase,
            CallCheckValue::TableSize => CallCheckValue::TableSize,
            CallCheckValue::TypeOf(r) => CallCheckValue::TypeOf(*r),
            CallCheckValue::PtrOffset(d) => CallCheckValue::PtrOffset(d.duplicate()),
            CallCheckValue::FnPtr => CallCheckValue::FnPtr,
            CallCheckValue::CheckedVal => CallCheckValue::CheckedVal,
            CallCheckValue::CheckFlag(a, r) => CallCheckValue::CheckFlag(*a, *r),
        }
    }
}

/// A [`CallCheckValue`], or nothing known (the bottom). Distinct values meet
/// at the bottom, except two pointer offsets, which meet at the meet of their
/// offsets.
#[derive(Clone, Debug)]
pub struct CallCheckValueLattice {
    pub v: Option<CallCheckValue>,
}

pub type CallCheckLattice = VariableState<CallCheckValueLattice>;

impl View for CallCheckValueLattice {
    type V = Option<CallView>;

    open spec fn view(&self) -> Option<CallView> {
        match self.v {
            Some(x) => Some(x@),
            None => None,
        }
    }
}

impl CallCheckValueLattice {
    pub fn new(v: CallCheckValue) -> (r: Self)
        ensures
            r@ == Some(v@),
    {
        CallCheckValueLattice { v: Some(v) }
    }
}

impl Lattice for CallCheckValueLattice {
    open spec fn spec_meet(a: Option<CallView>, b: Option<CallView>) -> Option<CallView> {
        if a == b {
            a
        } else {
            match (a, b) {
                (Some(CallView::PtrOffset(x)), Some(CallView::PtrOffset(y))) => Some(
                    CallView::PtrOffset(DAV::spec_meet(x, y)),
                ),
                _ => None,
            }
        }
    }

    open spec fn spec_order(a: Option<CallView>, b: Option<CallView>) -> Option<Order> {
        match (a, b) {
            (None, None) => Some(Order::Equal),
            (None, _) => Some(Order::Less),
            (_, None) => Some(Order::Greater),
            (Some(x), Some(y)) => match (x, y) {
                (CallView::PtrOffset(dx), CallView::PtrOffset(dy)) => DAV::spec_order(dx, dy),
                _ => if x == y {
                    Some(Order::Equal)
                } else {
                    None
                },
            },
        }
    }

    open spec fn spec_bot() -> Option<CallView> {
        None
    }

    fn meet(&self, other: &Self, loc_idx: &LocIdx) -> (r: Self) {
        if self.same(other) {
            self.duplicate()
        } else {
            match (&self.v, &other.v) {
                (Some(CallCheckValue::PtrOffset(x)), Some(CallCheckValue::PtrOffset(y))) => {
                    CallCheckValueLattice { v: Some(CallCheckValue::PtrOffset(x.meet(y, loc_idx))) }
                },
                _ => CallCheckValueLattice { v: None },
            }
        }
    }

    fn order(&self, other: &Self) -> (r: Option<Order>) {
        match (&self.v, &other.v) {
            (None, None) => Some(Order::Equal),
            (None, _) => Some(Order::Less),
            (_, None) => Some(Order::Greater),
            (Some(x), Some(y)) => match (x, y) {
                (CallCheckValue::PtrOffset(dx), CallCheckValue::PtrOffset(dy)) => dx.order(dy),
                _ => {
                    if x.same_value(y) {
                        Some(Order::Equal)
                    } else {
                        None
                    }
                },
            },
        }
    }

    fn same(&self, other: &Self) -> (r: bool) {
        match (&self.v, &other.v) {
            (None, None) => true,
            (Some(x), Some(y)) => x.same_value(y),
            _ => false,
        }
    }

    fn bot() -> (r: Self) {
        CallCheckValueLattice { v: None }
    }

    fn duplicate(&self) -> (r: Self) {
        match &self.v {
            Some(x) => CallCheckValueLattice { v: Some(x.copy_value()) },
            None => CallCheckValueLattice { v: None },
        }
    }

    proof fn lemma_meet_not_above(a: Option<CallView>, b: Option<CallView>) {
        if a != b {
            match (a, b) {
                (Some(CallView::PtrOffset(x)), Some(CallView::PtrOffset(y))) => {
                    DAV::lemma_meet_not_above(x, y);
                },
                _ => {},
            }
        } else {
            match a {
                Some(CallView::PtrOffset(x)) => DAV::lemma_order_reflexive(x),
                _ => {},
            }
        }
    }
}

impl ValueLattice for CallCheckValueLattice {
    proof fn lemma_not_below_meet(a: Option<CallView>, b: Option<CallView>) {
        if a != b {
            match (a, b) {
                (Some(CallView::PtrOffset(x)), Some(CallView::PtrOffset(y))) => {
                    DAV::lemma_not_below_meet(x, y);
                },
                _ => {},
            }
        } else {
            match a {
                Some(CallView::PtrOffset(x)) => DAV::lemma_order_reflexive(x),
                _ => {},
            }
        }
    }

    proof fn lemma_meet_commutative(a: Option<CallView>, b: Option<CallView>) {
        match (a, b) {
            (Some(CallView::PtrOffset(x)), Some(CallView::PtrOffset(y))) => {
                DAV::lemma_meet_commutative(x, y);
            },
            _ => {},
        }
    }

    proof fn lemma_meet_idempotent(a: Option<CallView>) {
    }

    proof fn lemma_order_reflexive(a: Option<CallView>) {
        match a {
            Some(CallView::PtrOffset(x)) => DAV::lemma_order_reflexive(x),
            _ => {},
        }
    }
}

impl PartialEq for CallCheckValueLattice {
    fn eq(&self, other: &Self) -> (r: bool) {
        self.same(other)
    }
}

impl PartialEqSpecImpl for CallCheckValueLattice {
    open spec fn obeys_eq_spec() -> bool {
        true
    }

    open spec fn eq_spec(&self, other: &Self) -> bool {
        self@ == other@
    }
}

impl Eq for CallCheckValueLattice {

}

impl PartialOrd for CallCheckValueLattice {
    fn partial_cmp(&self, other: &Self) -> (r: Option<Ordering>) {
        to_ordering(self.order(other))
    }
}

impl PartialOrdSpecImpl for CallCheckValueLattice {
    open spec fn obeys_partial_cmp_spec() -> bool {
        true
    }

    open spec fn partial_cmp_spec(&self, other: &Self) -> Option<Ordering> {
        ordering_of(Self::spec_order(self@, other@))
    }
}

impl Default for CallCheckValueLattice {
    fn default() -> (r: Self)
        ensures
            r@ is None,
    {
        CallCheckValueLattice { v: None }
    }
}

} // verus!
