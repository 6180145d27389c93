use crate::lattices::ConstLattice;
use vstd::prelude::*;

verus! {

/// The growth of the stack since function entry, the extent of the stack that
/// has been probed, and the growth saved in the frame pointer.
pub type StackGrowthLattice = ConstLattice<(i64, i64, i64)>;

impl ConstLattice<(i64, i64, i64)> {
    pub fn get_stackgrowth(&self) -> (r: Option<i64>)
        ensures
            r == match self.v {
                Some(t) => Some(t.0),
                None => None,
            },
    {
        match self.v {
            Some((x, _, _)) => Some(x),
            None => None,
        }
    }

    pub fn get_probestack(&self) -> (r: Option<i64>)
        ensures
            r == match self.v {
                Some(t) => Some(t.1),
                None => None,
            },
    {
        match self.v {
            Some((_, p, _)) => Some(p),
            None => None,
        }
    }

    pub fn get_rbp(&self) -> (r: Option<i64>)
        ensures
            r == match self.v {
                Some(t) => Some(t.2),
                None => None,
            },
    {
        match self.v {
            Some((_, _, rbp)) => Some(rbp),
            None => None,
        }
    }
}

} // verus!
