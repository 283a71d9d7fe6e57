//! The value domain of the heap analysis.

use crate::lattices::{Atom, ConstLattice};
use vstd::prelude::*;

verus! {

/// What a value is known to be, as far as heap safety goes.
#[derive(Clone, Copy, Debug, PartialEq, Eq, Structural, Hash)]
pub enum HeapValue {
    /// The start of linear memory.
    HeapBase,
    /// A number below 2^32.
    Bounded4GB,
    /// The address of the table of tables.
    LucetTables,
    /// The address of the first guest table.
    GuestTable0,
    /// The address of the globals.
    GlobalsBase,
    /// An address within linear memory: the heap base plus a number below
    /// 2^32.
    HeapAddr,
}

impl Atom for HeapValue {
    fn same(&self, other: &Self) -> (r: bool) {
        *self == *other
    }

    fn duplicate(&self) -> (r: Self) {
        *self
    }
}

pub type HeapValueLattice = ConstLattice<HeapValue>;

} // verus!
