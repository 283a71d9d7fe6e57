//! The domain of the stack growth analysis: how far the stack has grown
//! since function entry, and how much of it has been probed.

use crate::lattices::ConstLattice;
use vstd::prelude::*;

verus! {

/// The pair `(growth, probed)`, or `None` where it is not known.
pub type StackGrowthLattice = ConstLattice<(i64, i64)>;

impl StackGrowthLattice {
    /// The growth of the stack, where it is known.
    pub fn get_stackgrowth(&self) -> (r: Option<i64>)
        ensures
            r == match self.v {
                Some((stackgrowth, _)) => Some(stackgrowth),
                None => None,
            },
    {
        match self.v {
            Some((stackgrowth, _)) => Some(stackgrowth),
            None => None,
        }
    }

    /// The size of the probed region, where it is known.
    pub fn get_probestack(&self) -> (r: Option<i64>)
        ensures
            r == match self.v {
                Some((_, probestack)) => Some(probestack),
                None => None,
            },
    {
        match self.v {
            Some((_, probestack)) => Some(probestack),
            None => None,
        }
    }
}

} // verus!
