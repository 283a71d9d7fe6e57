//! The value domain of the switch analysis.

use crate::lattices::{Atom, ConstLattice};
use vstd::prelude::*;

verus! {

/// The role that a value plays in a jump through a jump table.
#[derive(Clone, Copy, Debug, PartialEq, Eq, Structural, Hash)]
pub enum SwitchValue {
    /// The address of a jump table.
    SwitchBase(u32),
    /// A number known to be below the given bound.
    UpperBound(u32),
    /// An entry loaded from a jump table, with an index below the given
    /// bound.
    JmpOffset(u32),
    /// The target of a jump through the table at the given address, with
    /// the given number of entries.
    JmpTarget(u32, u32),
}

impl Atom for SwitchValue {
    fn same(&self, other: &Self) -> (r: bool) {
        *self == *other
    }

    fn duplicate(&self) -> (r: Self) {
        *self
    }
}

pub type SwitchValueLattice = ConstLattice<SwitchValue>;

} // verus!
