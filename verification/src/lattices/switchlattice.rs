use crate::ir::types::X86Regs;
use crate::lattices::reachingdefslattice::ReachingDefnLattice;
use crate::lattices::{ConstLattice, ConstValue, Lattice, VariableState};
use vstd::prelude::*;

verus! {

/// What the jump-table analysis knows of a value.
#[derive(Clone, Debug)]
pub enum SwitchValue {
    SwitchBase(u32),
    /// The flag set by comparing a register (with its definitions) to a bound.
    ZF(u32, X86Regs, ReachingDefnLattice),
    UpperBound(u32),
    /// base + bound
    JmpOffset(u32, u32),
    /// base + bound
    JmpTarget(u32, u32),
}

/// The abstract content of a [`SwitchValue`].
pub enum SwitchView {
    SwitchBase(u32),
    ZF(u32, X86Regs, Set<(u64, u32)>),
    UpperBound(u32),
    JmpOffset(u32, u32),
    JmpTarget(u32, u32),
}

impl View for SwitchValue {
    type V = SwitchView;

    open spec fn view(&self) -> SwitchView {
        match self {
            SwitchValue::SwitchBase(b) => SwitchView::SwitchBase(*b),
            SwitchValue::ZF(b, r, d) => SwitchView::ZF(*b, *r, d@),
            SwitchValue::UpperBound(b) => SwitchView::UpperBound(*b),
            SwitchValue::JmpOffset(a, b) => SwitchView::JmpOffset(*a, *b),
            SwitchValue::JmpTarget(a, b) => SwitchView::JmpTarget(*a, *b),
        }
    }
}

impl ConstValue for SwitchValue {
    fn same_value(&self, other: &Self) -> (r: bool) {
        match (self, other) {
            (SwitchValue::SwitchBase(a), SwitchValue::SwitchBase(b)) => *a == *b,
            (SwitchValue::ZF(a1, r1, d1), SwitchValue::ZF(a2, r2, d2)) => *a1 == *a2 && *r1 == *r2
                && d1.same(d2),
            (SwitchValue::UpperBound(a), SwitchValue::UpperBound(b)) => *a == *b,
            (SwitchValue::JmpOffset(a1, b1), SwitchValue::JmpOffset(a2, b2)) => *a1 == *a2 && *b1
                == *b2,
            (SwitchValue::JmpTarget(a1, b1), SwitchValue::JmpTarget(a2, b2)) => *a1 == *a2 && *b1
                == *b2,
            _ => false,
        }
    }

    fn copy_value(&self) -> (r: Self) {
        match self {
            SwitchValue::SwitchBase(b) => SwitchValue::SwitchBase(*b),
            SwitchValue::ZF(b, r, d) => SwitchValue::ZF(*b, *r, d.duplicate()),
            SwitchValue::UpperBound(b) => SwitchValue::UpperBound(*b),
            SwitchValue::JmpOffset(a, b) => SwitchValue::JmpOffset(*a, *b),
            SwitchValue::JmpTarget(a, b) => SwitchValue::JmpTarget(*a, *b),
        }
    }
}

pub type SwitchValueLattice = ConstLattice<SwitchValue>;

pub type SwitchLattice = VariableState<SwitchValueLattice>;

} // verus!
