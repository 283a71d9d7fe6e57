//! The value domain of the reaching definitions analysis.

use crate::ir::types::LocIdx;
use crate::lattices::{Atom, ConstLattice};
use crate::lattices::state_lattice::VariableState;
use vstd::prelude::*;

verus! {

impl Atom for LocIdx {
    fn same(&self, other: &Self) -> (r: bool) {
        self.addr == other.addr && self.idx == other.idx
    }

    fn duplicate(&self) -> (r: Self) {
        LocIdx { addr: self.addr, idx: self.idx }
    }
}

/// The statement that last wrote a variable, where there is exactly one.
pub type ReachingDefnLattice = ConstLattice<LocIdx>;

/// The abstract state of the reaching definitions analysis.
pub type ReachLattice = VariableState<ReachingDefnLattice>;

} // verus!
