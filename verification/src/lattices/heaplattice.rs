use crate::lattices::{ConstLattice, ConstValue, VariableState};
use vstd::prelude::*;

verus! {

/// What the heap-safety analysis knows of a value.
#[derive(Clone, Copy, Debug, PartialEq, Eq, Structural)]
pub enum HeapValue {
    HeapBase,
    /// Any value below 4 GiB.
    Bounded4GB,
    LucetTables,
    GuestTable0,
    GlobalsBase,
    /// A value loaded from the program's own constant data.
    RIPConst,
    /// The heap base plus a value below 4 GiB.
    HeapAddr,
}

impl View for HeapValue {
    type V = HeapValue;

    open spec fn view(&self) -> HeapValue {
        *self
    }
}

impl ConstValue for HeapValue {
    fn same_value(&self, other: &Self) -> (r: bool) {
        *self == *other
    }

    fn copy_value(&self) -> (r: Self) {
        *self
    }
}

pub type HeapValueLattice = ConstLattice<HeapValue>;

pub type HeapLattice = VariableState<HeapValueLattice>;

} // verus!
