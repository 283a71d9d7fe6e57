//! The heap checker: every memory access goes to the stack, to the heap,
//! to the globals or to one of the runtime's tables.

use crate::analyses::heap_analyzer::{
    is_globalbase_access, is_globalbase_access_spec, HeapAnalyzer, HeapLattice, HeapState,
};
use crate::checkers::Checker;
use crate::ir::types::{LocIdx, MemArg, MemArgs, SpecStmt, Stmt, ValSize, Value};
use crate::ir::utils::{extract_stack_offset, stack_offset_spec};
use crate::lattices::heap_lattice::{HeapValue, HeapValueLattice};
use crate::lattices::state_lattice::reg_value;
use vstd::prelude::*;

verus! {

/// The heap checker.
pub struct HeapChecker {}

/// The first term of an address.
pub open spec fn base_arg(memargs: MemArgs) -> MemArg {
    match memargs {
        MemArgs::Mem1Arg(a) => a,
        MemArgs::Mem2Args(a, _) => a,
        MemArgs::Mem3Args(a, _, _) => a,
        MemArgs::MemScale(a, _, _) => a,
    }
}

/// Whether an abstract value is an address that may be accessed: an
/// address inside the heap, the address of the globals, or the address of
/// one of the runtime's tables.
pub open spec fn is_accessible(v: Option<HeapValue>) -> bool {
    v == Some(HeapValue::HeapAddr) || v == Some(HeapValue::GlobalsBase) || v == Some(HeapValue::LucetTables)
        || v == Some(HeapValue::GuestTable0)
}

/// Whether the first term of an address is a 64-bit register that holds an
/// address that may be accessed.
pub open spec fn has_accessible_base(s: HeapState, memargs: MemArgs) -> bool {
    match base_arg(memargs) {
        MemArg::Reg(reg, ValSize::Size64) => is_accessible(reg_value::<HeapValueLattice>(s, reg, ValSize::Size64)),
        _ => false,
    }
}

/// Whether an operand is safe as far as the heap goes. A memory access is
/// safe if it has the form `[rsp]` or `[rsp + constant]`, if it reads the
/// address of the globals from `[heap base + _]`, or if its first term holds
/// an address that may be accessed.
pub open spec fn heap_access_ok(s: HeapState, v: Value) -> bool {
    match v {
        Value::Mem(_, memargs) => stack_offset_spec(memargs) is Some || is_globalbase_access_spec(s, memargs)
            || has_accessible_base(s, memargs),
        _ => true,
    }
}

/// Whether every value of a list is safe.
pub open spec fn all_heap_ok(s: HeapState, values: Seq<Value>) -> bool {
    forall|i: int| 0 <= i < values.len() ==> heap_access_ok(s, #[trigger] values[i])
}

/// Whether every operand of a move, an operation or a clear is safe. Other
/// statements have no operands to judge.
pub open spec fn heap_operands_ok(s: HeapState, stmt: SpecStmt) -> bool {
    match stmt {
        SpecStmt::Unop(_, dst, src) => heap_access_ok(s, dst) && heap_access_ok(s, src),
        SpecStmt::Binop(_, dst, src1, src2) => heap_access_ok(s, dst) && heap_access_ok(s, src1) && heap_access_ok(s, src2),
        SpecStmt::Clear(dst, srcs) => heap_access_ok(s, dst) && all_heap_ok(s, srcs),
        _ => true,
    }
}

impl HeapChecker {
    /// Whether every value of a list is safe.
    pub fn check_all(&self, state: &HeapLattice, values: &Vec<Value>) -> (r: bool)
        ensures
            r == all_heap_ok(state@, values@),
    {
        let mut i: usize = 0;
        while i < values.len()
            invariant
                i <= values.len(),
                forall|j: int| 0 <= j < i ==> heap_access_ok(state@, #[trigger] values@[j]),
            decreases values.len() - i,
        {
            if !self.check_mem_access(state, &values[i]) {
                return false;
            }
            i = i + 1;
        }
        true
    }

    /// Whether an operand is safe as far as the heap goes.
    pub fn check_mem_access(&self, state: &HeapLattice, v: &Value) -> (r: bool)
        ensures
            r == heap_access_ok(state@, *v),
    {
        match v {
            Value::Mem(_, memargs) => {
                if extract_stack_offset(memargs).is_some() {
                    return true;
                }
                if is_globalbase_access(state, memargs) {
                    return true;
                }
                let base = match memargs {
                    MemArgs::Mem1Arg(a) => a,
                    MemArgs::Mem2Args(a, _) => a,
                    MemArgs::Mem3Args(a, _, _) => a,
                    MemArgs::MemScale(a, _, _) => a,
                };
                match base {
                    MemArg::Reg(reg, ValSize::Size64) => match state.get_reg(*reg, ValSize::Size64).v {
                        Some(HeapValue::HeapAddr) => true,
                        Some(HeapValue::GlobalsBase) => true,
                        Some(HeapValue::LucetTables) => true,
                        Some(HeapValue::GuestTable0) => true,
                        _ => false,
                    },
                    _ => false,
                }
            },
            _ => true,
        }
    }
}

impl Checker for HeapChecker {
    type Analyzer = HeapAnalyzer;

    open spec fn check_statement_spec(&self, state: HeapState, stmt: SpecStmt, loc: LocIdx) -> bool {
        heap_operands_ok(state, stmt)
    }

    fn check_statement(&self, state: &HeapLattice, stmt: &Stmt, loc_idx: &LocIdx) -> (r: bool) {
        match stmt {
            Stmt::Unop(_, dst, src) => self.check_mem_access(state, dst) && self.check_mem_access(state, src),
            Stmt::Binop(_, dst, src1, src2) => self.check_mem_access(state, dst) && self.check_mem_access(
                state,
                src1,
            ) && self.check_mem_access(state, src2),
            Stmt::Clear(dst, srcs) => self.check_mem_access(state, dst) && self.check_all(state, srcs),
            _ => true,
        }
    }
}

} // verus!
