//! The stack growth analysis: how far the stack has grown since function
//! entry, and how many bytes below the stack pointer have been probed.

use crate::analyses::{
    aexec_stmts_from, copy_to_successors, push_pop_stmts, same_to_all, AbstractAnalyzer,
};
use crate::ir::types::{Binopcode, LocIdx, SpecStmt, Stmt, Unopcode, Value, X86Regs};
use crate::ir::utils::{is_rsp, is_rsp_spec};
use crate::ir::x64::{IRMap, SpecBlock};
use crate::lattices::ConstLattice;
use crate::lattices::stack_growth_lattice::StackGrowthLattice;
use crate::lattices::state_lattice::{in_i64, StateError};
use vstd::prelude::*;

verus! {

/// The content of a [`StackGrowthLattice`]: the pair `(growth, probed)`
/// where it is known.
pub type StackState = Option<(i64, i64)>;

/// The stack growth analysis.
pub struct StackAnalyzer {}

/// Whether a value is the stack pointer at any width.
pub open spec fn is_any_rsp_spec(v: Value) -> bool {
    match v {
        Value::Reg(X86Regs::Rsp, _) => true,
        _ => false,
    }
}

/// Whether a value is the stack pointer at any width.
pub fn is_any_rsp(v: &Value) -> (r: bool)
    ensures
        r == is_any_rsp_spec(*v),
{
    match v {
        Value::Reg(X86Regs::Rsp, _) => true,
        _ => false,
    }
}

/// The state with the growth changed by `delta` bytes. An unknown state
/// stays unknown.
pub open spec fn grown(s: StackState, delta: int) -> Result<StackState, StateError> {
    match s {
        None => Ok(None),
        Some((growth, probed)) => if in_i64(growth + delta) {
            Ok(Some(((growth + delta) as i64, probed)))
        } else {
            Err(StateError::OffsetOverflow)
        },
    }
}

/// The state with `n` more bytes probed. An unknown state stays unknown.
pub open spec fn probed_more(s: StackState, n: u64) -> Result<StackState, StateError> {
    match s {
        None => Ok(None),
        Some((growth, probed)) => if in_i64(probed + n) {
            Ok(Some((growth, (probed + n) as i64)))
        } else {
            Err(StateError::OffsetOverflow)
        },
    }
}

/// The state behind `dst = src1 op src2`. The stack pointer is written
/// only by `rsp = rsp - k` and `rsp = rsp + k` with a constant `k > 0`: the
/// first grows the stack by `k`, the second shrinks it by `k`.
pub open spec fn stack_binop_spec(s: StackState, opcode: Binopcode, dst: Value, src1: Value, src2: Value) -> Result<
    StackState,
    StateError,
> {
    if !is_any_rsp_spec(dst) {
        Ok(s)
    } else if !is_rsp_spec(dst) || !is_rsp_spec(src1) {
        Err(StateError::IllegalRspWrite)
    } else {
        match src2 {
            Value::Imm(_, _, k) => if k <= 0 {
                Err(StateError::IllegalRspWrite)
            } else {
                match opcode {
                    Binopcode::Sub => grown(s, k as int),
                    Binopcode::Add => grown(s, -k),
                    _ => Err(StateError::IllegalRspWrite),
                }
            },
            _ => Err(StateError::IllegalRspWrite),
        }
    }
}

/// The state of the stack growth analysis behind a statement. Any write to
/// the stack pointer that is not one of the two accepted forms is an
/// error.
pub open spec fn stack_aexec_spec(s: StackState, stmt: SpecStmt) -> Result<StackState, StateError> {
    match stmt {
        SpecStmt::ProbeStack(n) => probed_more(s, n),
        SpecStmt::Binop(opcode, dst, src1, src2) => stack_binop_spec(s, opcode, dst, src1, src2),
        SpecStmt::Unop(_, dst, _) => if is_any_rsp_spec(dst) {
            Err(StateError::IllegalRspWrite)
        } else {
            Ok(s)
        },
        SpecStmt::Clear(dst, _) => if is_any_rsp_spec(dst) {
            Err(StateError::IllegalRspWrite)
        } else {
            Ok(s)
        },
        _ => Ok(s),
    }
}

impl StackAnalyzer {
    fn grow(in_state: &mut StackGrowthLattice, delta: i64) -> (r: Result<(), StateError>)
        ensures
            match r {
                Ok(()) => grown(old(in_state)@, delta as int) == Ok::<StackState, StateError>(final(in_state)@),
                Err(e) => grown(old(in_state)@, delta as int) == Err::<StackState, StateError>(e),
            },
    {
        match in_state.v {
            None => Ok(()),
            Some((growth, probed)) => match growth.checked_add(delta) {
                None => Err(StateError::OffsetOverflow),
                Some(sum) => {
                    in_state.v = Some((sum, probed));
                    Ok(())
                },
            },
        }
    }

    fn probe(in_state: &mut StackGrowthLattice, n: u64) -> (r: Result<(), StateError>)
        ensures
            match r {
                Ok(()) => probed_more(old(in_state)@, n) == Ok::<StackState, StateError>(final(in_state)@),
                Err(e) => probed_more(old(in_state)@, n) == Err::<StackState, StateError>(e),
            },
    {
        match in_state.v {
            None => Ok(()),
            Some((growth, probed)) => {
                let sum: i128 = probed as i128 + n as i128;
                if sum > i64::MAX as i128 {
                    Err(StateError::OffsetOverflow)
                } else {
                    in_state.v = Some((growth, sum as i64));
                    Ok(())
                }
            },
        }
    }

    /// Passes a state through `dst = src1 op src2`.
    pub fn aexec_binop(
        &self,
        in_state: &mut StackGrowthLattice,
        opcode: &Binopcode,
        dst: &Value,
        src1: &Value,
        src2: &Value,
    ) -> (r: Result<(), StateError>)
        ensures
            match r {
                Ok(()) => stack_binop_spec(old(in_state)@, *opcode, *dst, *src1, *src2) == Ok::<
                    StackState,
                    StateError,
                >(final(in_state)@),
                Err(e) => stack_binop_spec(old(in_state)@, *opcode, *dst, *src1, *src2) == Err::<
                    StackState,
                    StateError,
                >(e),
            },
    {
        if !is_any_rsp(dst) {
            return Ok(());
        }
        if !is_rsp(dst) || !is_rsp(src1) {
            return Err(StateError::IllegalRspWrite);
        }
        match src2 {
            Value::Imm(_, _, k) => {
                if *k <= 0 {
                    return Err(StateError::IllegalRspWrite);
                }
                match opcode {
                    Binopcode::Sub => Self::grow(in_state, *k),
                    Binopcode::Add => Self::grow(in_state, -*k),
                    _ => Err(StateError::IllegalRspWrite),
                }
            },
            _ => Err(StateError::IllegalRspWrite),
        }
    }
}

impl AbstractAnalyzer for StackAnalyzer {
    type State = StackGrowthLattice;

    open spec fn init_spec(&self) -> StackState {
        Some((0i64, 0i64))
    }

    open spec fn aexec_spec(&self, state: StackState, stmt: SpecStmt, loc: LocIdx) -> Result<
        StackState,
        StateError,
    > {
        stack_aexec_spec(state, stmt)
    }

    fn init_state(&self) -> (r: StackGrowthLattice) {
        ConstLattice { v: Some((0, 0)) }
    }

    fn aexec(&self, in_state: &mut StackGrowthLattice, stmt: &Stmt, loc_idx: &LocIdx) -> (r: Result<
        (),
        StateError,
    >) {
        match stmt {
            Stmt::ProbeStack(n) => Self::probe(in_state, *n),
            Stmt::Binop(opcode, dst, src1, src2) => self.aexec_binop(in_state, opcode, dst, src1, src2),
            Stmt::Unop(_, dst, _) => {
                if is_any_rsp(dst) {
                    Err(StateError::IllegalRspWrite)
                } else {
                    Ok(())
                }
            },
            Stmt::Clear(dst, _) => {
                if is_any_rsp(dst) {
                    Err(StateError::IllegalRspWrite)
                } else {
                    Ok(())
                }
            },
            _ => Ok(()),
        }
    }

    open spec fn process_branch_spec(
        &self,
        irmap: Map<u64, SpecBlock>,
        state: StackState,
        succ_addrs: Seq<u64>,
        addr: u64,
    ) -> Seq<(u64, StackState)> {
        same_to_all(state, succ_addrs)
    }

    fn process_branch(&self, irmap: &IRMap, in_state: &StackGrowthLattice, succ_addrs: &Vec<u64>, addr: &u64) -> (r: Vec<
        (u64, StackGrowthLattice),
    >) {
        copy_to_successors(in_state, succ_addrs)
    }
}

/// `push reg; pop reg` leaves the stack state as it was, for every
/// register but the stack pointer.
pub proof fn lemma_push_pop_keeps_stack_state(analyzer: StackAnalyzer, s: StackState, reg: X86Regs, addr: u64)
    requires
        reg != X86Regs::Rsp,
        aexec_stmts_from(analyzer, s, addr, push_pop_stmts(reg), 0) is Ok,
    ensures
        aexec_stmts_from(analyzer, s, addr, push_pop_stmts(reg), 0) == Ok::<
            StackState,
            StateError,
        >(s),
{
    reveal_with_fuel(aexec_stmts_from, 5);
}

/// A move into a register other than the stack pointer has no effect on
/// the stack state, whatever is moved: `xor reg, reg` is `mov reg, 0`.
pub proof fn lemma_stack_move_is_neutral(s: StackState, opcode: Unopcode, dst: Value, src: Value)
    requires
        !is_any_rsp_spec(dst),
    ensures
        stack_aexec_spec(s, SpecStmt::Unop(opcode, dst, src)) == Ok::<StackState, StateError>(s),
{
}

} // verus!
