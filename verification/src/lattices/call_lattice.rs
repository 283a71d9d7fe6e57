//! The value domain of the call analysis.

use crate::lattices::{Atom, ConstLattice};
use crate::lattices::state_lattice::VariableState;
use vstd::prelude::*;

verus! {

/// What a value is known to be, as far as indirect calls go.
#[derive(Clone, Copy, Debug, PartialEq, Eq, Structural, Hash)]
pub enum CallCheckValue {
    /// The address of the table of function pointers.
    GuestTableBase,
    /// The address of the table of tables.
    LucetTablesBase,
    /// The number of entries of the table of function pointers.
    TableSize,
    /// An index that was checked to be below the table size.
    CheckedVal,
    /// A checked index scaled to the size of a table entry.
    PtrOffset,
    /// A function pointer loaded from the table at a checked index.
    FnPtr,
}

impl Atom for CallCheckValue {
    fn same(&self, other: &Self) -> (r: bool) {
        *self == *other
    }

    fn duplicate(&self) -> (r: Self) {
        *self
    }
}

pub type CallCheckValueLattice = ConstLattice<CallCheckValue>;

/// The abstract state of the call analysis.
pub type CallCheckLattice = VariableState<CallCheckValueLattice>;

} // verus!
