//! The reaching definitions analysis: for each register and stack slot the
//! statement that last wrote it, where there is exactly one.

use crate::analyses::{copy_to_successors, same_to_all, AbstractAnalyzer};
use crate::ir::types::{LocIdx, SpecStmt, Stmt, Value};
use crate::ir::x64::{IRMap, SpecBlock};
use crate::lattices::reaching_defs_lattice::{ReachingDefnLattice, ReachLattice};
use crate::lattices::state_lattice::{
    adjust_stack_offset_spec, on_call_spec, set_spec, StateError, StateView, VariableState,
    VarState,
};
use vstd::prelude::*;

verus! {

/// The content of a [`ReachLattice`].
pub type ReachState = StateView<Option<LocIdx>>;

/// The reaching definitions analysis.
pub struct ReachingDefnAnalyzer {}

/// The state of the reaching definitions analysis behind the statement at
/// a location: what the statement writes was last written there.
pub open spec fn reach_aexec_spec(s: ReachState, stmt: SpecStmt, loc: LocIdx) -> Result<ReachState, StateError> {
    match stmt {
        SpecStmt::Clear(dst, _) => set_spec(s, dst, Some(loc)),
        SpecStmt::Unop(_, dst, _) => set_spec(s, dst, Some(loc)),
        SpecStmt::Binop(opcode, dst, src1, src2) => match set_spec(s, dst, Some(loc)) {
            Err(e) => Err(e),
            Ok(next) => adjust_stack_offset_spec(next, opcode, dst, src1, src2),
        },
        SpecStmt::Call(_) => Ok(on_call_spec(s)),
        _ => Ok(s),
    }
}

impl ReachingDefnAnalyzer {
    fn define(in_state: &mut ReachLattice, dst: &Value, loc_idx: &LocIdx) -> (r: Result<(), StateError>)
        ensures
            match r {
                Ok(()) => set_spec(old(in_state)@, *dst, Some(*loc_idx)) == Ok::<ReachState, StateError>(
                    final(in_state)@,
                ),
                Err(e) => set_spec(old(in_state)@, *dst, Some(*loc_idx)) == Err::<ReachState, StateError>(e)
                    && final(in_state)@ == old(in_state)@,
            },
    {
        in_state.set(dst, ReachingDefnLattice::new(*loc_idx))
    }
}

impl AbstractAnalyzer for ReachingDefnAnalyzer {
    type State = ReachLattice;

    open spec fn init_spec(&self) -> ReachState {
        StateView { stack_offset: 0, slots: Map::empty() }
    }

    open spec fn aexec_spec(&self, state: ReachState, stmt: SpecStmt, loc: LocIdx) -> Result<
        ReachState,
        StateError,
    > {
        reach_aexec_spec(state, stmt, loc)
    }

    fn init_state(&self) -> (r: ReachLattice) {
        VariableState::new()
    }

    fn aexec(&self, in_state: &mut ReachLattice, stmt: &Stmt, loc_idx: &LocIdx) -> (r: Result<(), StateError>) {
        match stmt {
            Stmt::Clear(dst, _srcs) => Self::define(in_state, dst, loc_idx),
            Stmt::Unop(_, dst, _) => Self::define(in_state, dst, loc_idx),
            Stmt::Binop(opcode, dst, src1, src2) => {
                match Self::define(in_state, dst, loc_idx) {
                    Err(e) => Err(e),
                    Ok(()) => in_state.adjust_stack_offset(opcode, dst, src1, src2),
                }
            },
            Stmt::Call(_) => {
                in_state.on_call();
                Ok(())
            },
            _ => Ok(()),
        }
    }

    open spec fn process_branch_spec(
        &self,
        irmap: Map<u64, SpecBlock>,
        state: ReachState,
        succ_addrs: Seq<u64>,
        addr: u64,
    ) -> Seq<(u64, ReachState)> {
        same_to_all(state, succ_addrs)
    }

    fn process_branch(&self, irmap: &IRMap, in_state: &ReachLattice, succ_addrs: &Vec<u64>, addr: &u64) -> (r:
        Vec<(u64, ReachLattice)>) {
        copy_to_successors(in_state, succ_addrs)
    }
}

} // verus!
