//! The stack checker: every access relative to the stack pointer lies
//! within the probed region, and the stack is back where it was at each
//! return.

use crate::analyses::stack_analyzer::{StackAnalyzer, StackState};
use crate::checkers::Checker;
use crate::ir::types::{LocIdx, SpecStmt, Stmt, Value};
use crate::ir::utils::{extract_stack_offset, stack_offset_spec};
use crate::lattices::stack_growth_lattice::StackGrowthLattice;
use vstd::prelude::*;

verus! {

/// The stack checker.
pub struct StackChecker {}

/// Whether an operand is safe as far as the stack goes: an access at
/// `[rsp + d]` needs a known state with `-d <= probed`.
pub open spec fn stack_access_ok(s: StackState, v: Value) -> bool {
    match v {
        Value::Mem(_, memargs) => match stack_offset_spec(memargs) {
            Some(offset) => match s {
                Some((_, probed)) => -offset <= probed,
                None => false,
            },
            None => true,
        },
        _ => true,
    }
}

/// Whether a statement is safe as far as the stack goes: its operands are
/// safe, and at a return the stack has not grown.
pub open spec fn stack_statement_ok(s: StackState, stmt: SpecStmt) -> bool {
    match stmt {
        SpecStmt::Ret => match s {
            Some((growth, _)) => growth == 0,
            None => false,
        },
        _ => stack_operands_ok(s, stmt),
    }
}

/// Whether every value of a list is safe.
pub open spec fn all_stack_ok(s: StackState, values: Seq<Value>) -> bool {
    forall|i: int| 0 <= i < values.len() ==> stack_access_ok(s, #[trigger] values[i])
}

/// Whether every operand of a move, an operation or a clear is safe. Other
/// statements have no operands to judge.
pub open spec fn stack_operands_ok(s: StackState, stmt: SpecStmt) -> bool {
    match stmt {
        SpecStmt::Unop(_, dst, src) => stack_access_ok(s, dst) && stack_access_ok(s, src),
        SpecStmt::Binop(_, dst, src1, src2) => stack_access_ok(s, dst) && stack_access_ok(s, src1) && stack_access_ok(s, src2),
        SpecStmt::Clear(dst, srcs) => stack_access_ok(s, dst) && all_stack_ok(s, srcs),
        _ => true,
    }
}

impl StackChecker {
    /// Whether every value of a list is safe.
    pub fn check_all(&self, state: &StackGrowthLattice, values: &Vec<Value>) -> (r: bool)
        ensures
            r == all_stack_ok(state@, values@),
    {
        let mut i: usize = 0;
        while i < values.len()
            invariant
                i <= values.len(),
                forall|j: int| 0 <= j < i ==> stack_access_ok(state@, #[trigger] values@[j]),
            decreases values.len() - i,
        {
            if !self.check_access(state, &values[i]) {
                return false;
            }
            i = i + 1;
        }
        true
    }

    /// Whether an operand is safe as far as the stack goes.
    pub fn check_access(&self, state: &StackGrowthLattice, v: &Value) -> (r: bool)
        ensures
            r == stack_access_ok(state@, *v),
    {
        match v {
            Value::Mem(_, memargs) => match extract_stack_offset(memargs) {
                Some(offset) => match state.get_probestack() {
                    Some(probed) => -(offset as i128) <= probed as i128,
                    None => false,
                },
                None => true,
            },
            _ => true,
        }
    }
}

impl Checker for StackChecker {
    type Analyzer = StackAnalyzer;

    open spec fn check_statement_spec(&self, state: StackState, stmt: SpecStmt, loc: LocIdx) -> bool {
        stack_statement_ok(state, stmt)
    }

    fn check_statement(&self, state: &StackGrowthLattice, stmt: &Stmt, loc_idx: &LocIdx) -> (r: bool) {
        match stmt {
            Stmt::Ret => match state.get_stackgrowth() {
                Some(growth) => growth == 0,
                None => false,
            },
            Stmt::Unop(_, dst, src) => self.check_access(state, dst) && self.check_access(state, src),
            Stmt::Binop(_, dst, src1, src2) => self.check_access(state, dst) && self.check_access(state, src1)
                && self.check_access(state, src2),
            Stmt::Clear(dst, srcs) => self.check_access(state, dst) && self.check_all(state, srcs),
            _ => true,
        }
    }
}

} // verus!
