//! The call checker: every indirect call goes through a function pointer
//! of the table, and every direct call stays inside the module.

use crate::analyses::call_analyzer::{CallAnalyzer, CallState};
use crate::checkers::Checker;
use crate::ir::types::{LocIdx, SpecStmt, Stmt, Value};
use crate::lattices::call_lattice::{CallCheckLattice, CallCheckValue, CallCheckValueLattice};
use crate::lattices::state_lattice::reg_value;
use vstd::prelude::*;

verus! {

/// The call checker of a module whose code lies at the addresses
/// `[code_start, code_end)`.
pub struct CallChecker {
    pub code_start: u64,
    pub code_end: u64,
}

/// The address that a direct call at `addr` with the given displacement
/// goes to: the call is 5 bytes long.
pub open spec fn direct_call_target(addr: u64, displacement: i64) -> int {
    addr + 5 + displacement
}

/// Whether a statement is safe as far as calls go. A call through a
/// register needs a function pointer of the table in it; a direct call
/// must go to an address inside the module; no other call is safe.
pub open spec fn call_statement_ok(code_start: u64, code_end: u64, s: CallState, stmt: SpecStmt, loc: LocIdx) -> bool {
    match stmt {
        SpecStmt::Call(Value::Reg(reg, size)) => reg_value::<CallCheckValueLattice>(s, reg, size) == Some(
            CallCheckValue::FnPtr,
        ),
        SpecStmt::Call(Value::Imm(_, _, displacement)) => code_start <= direct_call_target(
            loc.addr,
            displacement,
        ) < code_end,
        SpecStmt::Call(_) => false,
        _ => true,
    }
}

impl Checker for CallChecker {
    type Analyzer = CallAnalyzer;

    open spec fn check_statement_spec(&self, state: CallState, stmt: SpecStmt, loc: LocIdx) -> bool {
        call_statement_ok(self.code_start, self.code_end, state, stmt, loc)
    }

    fn check_statement(&self, state: &CallCheckLattice, stmt: &Stmt, loc_idx: &LocIdx) -> (r: bool) {
        match stmt {
            Stmt::Call(Value::Reg(reg, size)) => match state.get_reg(*reg, *size).v {
                Some(CallCheckValue::FnPtr) => true,
                _ => false,
            },
            Stmt::Call(Value::Imm(_, _, displacement)) => {
                let target: i128 = loc_idx.addr as i128 + 5 + *displacement as i128;
                self.code_start as i128 <= target && target < self.code_end as i128
            },
            Stmt::Call(_) => false,
            _ => true,
        }
    }
}

} // verus!
