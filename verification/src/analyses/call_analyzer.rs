//! The call analysis: which registers and stack slots hold a function
//! pointer that was loaded from the table of function pointers at an index
//! that was checked against the size of the table.

use crate::analyses::{copy_to_successors, same_to_all, states_view, AbstractAnalyzer};
use crate::ir::instr::Opcode;
use crate::ir::types::{
    block_view, stmts_view, Binopcode, LocIdx, MemArg, MemArgs, SpecStmt, Stmt, StmtResult, ValSize,
    Value, VwMetadata, X86Regs,
};
use crate::ir::utils::{extract_stack_offset, stack_offset_spec};
use crate::ir::x64::{irmap_view, IRMap, SpecBlock};
use crate::lattices::{ConstLattice, Semilattice};
use crate::lattices::call_lattice::{CallCheckLattice, CallCheckValue, CallCheckValueLattice};
use crate::lattices::state_lattice::{
    access_bytes, access_size, adjust_stack_offset_spec, load_check, load_spec, on_call_spec,
    reg_value, reg_written, set_spec, StateError, StateView, VariableState, VarState,
};
use vstd::prelude::*;

verus! {

broadcast use vstd::std_specs::hash::group_hash_axioms;

/// The content of a [`CallCheckLattice`].
pub type CallState = StateView<Option<CallCheckValue>>;

/// The call analysis of a module with the given metadata.
pub struct CallAnalyzer {
    pub metadata: VwMetadata,
}

/// What a 64-bit register term of an address holds; nothing for any other
/// term.
pub open spec fn memarg_value(s: CallState, arg: MemArg) -> Option<CallCheckValue> {
    match arg {
        MemArg::Reg(reg, ValSize::Size64) => reg_value::<CallCheckValueLattice>(s, reg, ValSize::Size64),
        _ => None,
    }
}

/// Whether an address is that of the size of the table of function
/// pointers: `[table of tables + 8]`.
pub open spec fn is_table_size_spec(s: CallState, memargs: MemArgs) -> bool {
    match memargs {
        MemArgs::Mem2Args(base, MemArg::Imm(_, _, 8)) => memarg_value(s, base) == Some(
            CallCheckValue::LucetTablesBase,
        ),
        _ => false,
    }
}

/// Whether an address is that of a function pointer: `[table + offset + 8]`
/// with the table of function pointers and the scaled checked index, in
/// either order.
pub open spec fn is_fn_ptr_spec(s: CallState, memargs: MemArgs) -> bool {
    match memargs {
        MemArgs::Mem3Args(a, b, MemArg::Imm(_, _, 8)) => (memarg_value(s, a) == Some(
            CallCheckValue::GuestTableBase,
        ) && memarg_value(s, b) == Some(CallCheckValue::PtrOffset)) || (memarg_value(s, a) == Some(
            CallCheckValue::PtrOffset,
        ) && memarg_value(s, b) == Some(CallCheckValue::GuestTableBase)),
        _ => false,
    }
}

/// The abstract value of an immediate: the tables by their addresses.
pub open spec fn call_imm_spec(metadata: VwMetadata, immval: i64) -> Option<CallCheckValue> {
    if immval as u64 == metadata.guest_table_0 {
        Some(CallCheckValue::GuestTableBase)
    } else if immval as u64 == metadata.lucet_tables {
        Some(CallCheckValue::LucetTablesBase)
    } else {
        None
    }
}

/// The abstract value of a source operand.
pub open spec fn call_eval_spec(metadata: VwMetadata, s: CallState, value: Value) -> Result<
    Option<CallCheckValue>,
    StateError,
> {
    match value {
        Value::Mem(memsize, memargs) => if is_table_size_spec(s, memargs) {
            Ok(Some(CallCheckValue::TableSize))
        } else if is_fn_ptr_spec(s, memargs) {
            Ok(Some(CallCheckValue::FnPtr))
        } else {
            match stack_offset_spec(memargs) {
                Some(offset) => match load_check(s, offset, access_bytes(memsize)) {
                    Err(e) => Err(e),
                    Ok(()) => Ok(load_spec::<CallCheckValueLattice>(s, offset, access_bytes(memsize))),
                },
                None => Ok(None),
            }
        },
        Value::Reg(reg, size) => Ok(reg_value::<CallCheckValueLattice>(s, reg, size)),
        Value::Imm(_, _, immval) => Ok(call_imm_spec(metadata, immval)),
        Value::RIPConst => Ok(None),
    }
}

/// The state behind `dst = src1 op src2`, before the stack pointer is
/// followed: a checked index shifted left by 4 is the offset of a table
/// entry; the destination of any other operation becomes unknown.
pub open spec fn call_binop_spec(
    metadata: VwMetadata,
    s: CallState,
    opcode: Binopcode,
    dst: Value,
    src1: Value,
    src2: Value,
) -> Result<CallState, StateError> {
    match opcode {
        Binopcode::Shl => match call_eval_spec(metadata, s, src1) {
            Err(e) => Err(e),
            Ok(v) => if v == Some(CallCheckValue::CheckedVal) && src2 is Imm && src2->Imm_2 == 4 {
                set_spec(s, dst, Some(CallCheckValue::PtrOffset))
            } else {
                set_spec(s, dst, None)
            },
        },
        _ => set_spec(s, dst, None),
    }
}

/// The state of the call analysis behind a statement.
pub open spec fn call_aexec_spec(metadata: VwMetadata, s: CallState, stmt: SpecStmt) -> Result<
    CallState,
    StateError,
> {
    match stmt {
        SpecStmt::Clear(dst, _) => set_spec(s, dst, None),
        SpecStmt::Unop(_, dst, src) => match call_eval_spec(metadata, s, src) {
            Err(e) => Err(e),
            Ok(v) => set_spec(s, dst, v),
        },
        SpecStmt::Binop(opcode, dst, src1, src2) => match call_binop_spec(metadata, s, opcode, dst, src1, src2) {
            Err(e) => Err(e),
            Ok(next) => adjust_stack_offset_spec(next, opcode, dst, src1, src2),
        },
        SpecStmt::Call(_) => Ok(on_call_spec(s)),
        _ => Ok(s),
    }
}

/// A check of an index against the size of the table at the end of a
/// block: the register that holds the index, the width at which it is
/// read, the register that holds the size, and whether the index is below
/// the size on the edge that is taken.
pub type SizeCheck = (X86Regs, ValSize, X86Regs, bool);

/// On which edge of a conditional jump behind `cmp index, size` the index
/// is below the size: where `jnb` falls through, and where `jb` is taken.
pub open spec fn below_on_edge(opcode: Opcode) -> Option<bool> {
    match opcode {
        Opcode::JNB => Some(false),
        Opcode::JB => Some(true),
        _ => None,
    }
}

/// The comparison of two registers at the end of a block, if the block
/// ends with one followed by a conditional jump that tells that the first
/// is below the second.
pub open spec fn size_check_spec(block: SpecBlock) -> Option<SizeCheck> {
    if block.len() >= 2 && block[block.len() - 1].1.len() == 1 && block[block.len() - 2].1.len() >= 1 {
        match (block[block.len() - 2].1[0], block[block.len() - 1].1[0]) {
            (
                SpecStmt::Binop(Binopcode::Cmp, _, Value::Reg(index, size), Value::Reg(limit, ValSize::Size64)),
                SpecStmt::Branch(opcode, _),
            ) => match below_on_edge(opcode) {
                Some(taken) => Some((index, size, limit, taken)),
                None => None,
            },
            _ => None,
        }
    } else {
        None
    }
}

/// The state that flows to each successor. Behind a comparison of an index
/// with a register that holds the size of the table, with two successors,
/// the first being where the jump falls through and the second where it is
/// taken, the index is a checked index on the edge on which it is below
/// the size. Otherwise every successor gets the state behind the block.
pub open spec fn call_branch_spec(
    irmap: Map<u64, SpecBlock>,
    state: CallState,
    succ_addrs: Seq<u64>,
    addr: u64,
) -> Seq<(u64, CallState)> {
    if succ_addrs.len() == 2 && irmap.contains_key(addr) && size_check_spec(irmap[addr]) is Some && reg_value::<
        CallCheckValueLattice,
    >(state, size_check_spec(irmap[addr])->Some_0.2, ValSize::Size64) == Some(CallCheckValue::TableSize) {
        let (index, size, _, taken) = size_check_spec(irmap[addr])->Some_0;
        let refined = reg_written(state, index, size, Some(CallCheckValue::CheckedVal));
        if taken {
            seq![(succ_addrs[0], state), (succ_addrs[1], refined)]
        } else {
            seq![(succ_addrs[0], refined), (succ_addrs[1], state)]
        }
    } else {
        same_to_all(state, succ_addrs)
    }
}

/// The comparison of two registers at the end of a block.
pub fn find_size_check(block: &Vec<StmtResult>) -> (r: Option<SizeCheck>)
    ensures
        r == size_check_spec(block_view(block@)),
{
    let n: usize = block.len();
    if n < 2 {
        return None;
    }
    let ghost view = block_view(block@);
    assert(view[n - 1] == (block@[n - 1].0, stmts_view(block@[n - 1].1@)));
    assert(view[n - 2] == (block@[n - 2].0, stmts_view(block@[n - 2].1@)));
    let last = &block[n - 1].1;
    let before = &block[n - 2].1;
    if last.len() != 1 || before.len() < 1 {
        return None;
    }
    assert(view[n - 1].1[0] == last@[0]@);
    assert(view[n - 2].1[0] == before@[0]@);
    match (&before[0], &last[0]) {
        (
            Stmt::Binop(Binopcode::Cmp, _, Value::Reg(index, size), Value::Reg(limit, ValSize::Size64)),
            Stmt::Branch(opcode, _),
        ) => {
            match opcode {
                Opcode::JNB => Some((*index, *size, *limit, false)),
                Opcode::JB => Some((*index, *size, *limit, true)),
                _ => None,
            }
        },
        _ => None,
    }
}

impl CallAnalyzer {
    fn memarg(in_state: &CallCheckLattice, arg: &MemArg) -> (r: Option<CallCheckValue>)
        ensures
            r == memarg_value(in_state@, *arg),
    {
        match arg {
            MemArg::Reg(reg, ValSize::Size64) => in_state.get_reg(*reg, ValSize::Size64).v,
            _ => None,
        }
    }

    /// Whether an address is that of the size of the table of function
    /// pointers.
    pub fn is_table_size(&self, in_state: &CallCheckLattice, memargs: &MemArgs) -> (r: bool)
        ensures
            r == is_table_size_spec(in_state@, *memargs),
    {
        match memargs {
            MemArgs::Mem2Args(base, MemArg::Imm(_, _, 8)) => match Self::memarg(in_state, base) {
                Some(CallCheckValue::LucetTablesBase) => true,
                _ => false,
            },
            _ => false,
        }
    }

    /// Whether an address is that of a function pointer in the table.
    pub fn is_fn_ptr(&self, in_state: &CallCheckLattice, memargs: &MemArgs) -> (r: bool)
        ensures
            r == is_fn_ptr_spec(in_state@, *memargs),
    {
        match memargs {
            MemArgs::Mem3Args(a, b, MemArg::Imm(_, _, 8)) => {
                match (Self::memarg(in_state, a), Self::memarg(in_state, b)) {
                    (Some(CallCheckValue::GuestTableBase), Some(CallCheckValue::PtrOffset)) => true,
                    (Some(CallCheckValue::PtrOffset), Some(CallCheckValue::GuestTableBase)) => true,
                    _ => false,
                }
            },
            _ => false,
        }
    }

    /// The abstract value of a source operand.
    pub fn aeval_unop(&self, in_state: &CallCheckLattice, value: &Value) -> (r: Result<
        CallCheckValueLattice,
        StateError,
    >)
        ensures
            match r {
                Ok(v) => call_eval_spec(self.metadata, in_state@, *value) == Ok::<Option<CallCheckValue>, StateError>(
                    v@,
                ),
                Err(e) => call_eval_spec(self.metadata, in_state@, *value) == Err::<
                    Option<CallCheckValue>,
                    StateError,
                >(e),
            },
    {
        match value {
            Value::Mem(memsize, memargs) => {
                if self.is_table_size(in_state, memargs) {
                    return Ok(ConstLattice { v: Some(CallCheckValue::TableSize) });
                }
                if self.is_fn_ptr(in_state, memargs) {
                    return Ok(ConstLattice { v: Some(CallCheckValue::FnPtr) });
                }
                match extract_stack_offset(memargs) {
                    Some(offset) => in_state.get_stack_slot(offset, access_size(memsize)),
                    None => Ok(ConstLattice { v: None }),
                }
            },
            Value::Reg(reg, size) => Ok(in_state.get_reg(*reg, *size)),
            Value::Imm(_, _, immval) => {
                if (#[verifier::truncate] (*immval as u64)) == self.metadata.guest_table_0 {
                    Ok(ConstLattice { v: Some(CallCheckValue::GuestTableBase) })
                } else if (#[verifier::truncate] (*immval as u64)) == self.metadata.lucet_tables {
                    Ok(ConstLattice { v: Some(CallCheckValue::LucetTablesBase) })
                } else {
                    Ok(ConstLattice { v: None })
                }
            },
            Value::RIPConst => Ok(ConstLattice { v: None }),
        }
    }

    /// Passes a state through `dst = src1 op src2`, the stack pointer
    /// aside.
    pub fn aexec_binop(
        &self,
        in_state: &mut CallCheckLattice,
        opcode: &Binopcode,
        dst: &Value,
        src1: &Value,
        src2: &Value,
    ) -> (r: Result<(), StateError>)
        ensures
            match r {
                Ok(()) => call_binop_spec(self.metadata, old(in_state)@, *opcode, *dst, *src1, *src2) == Ok::<
                    CallState,
                    StateError,
                >(final(in_state)@),
                Err(e) => call_binop_spec(self.metadata, old(in_state)@, *opcode, *dst, *src1, *src2) == Err::<
                    CallState,
                    StateError,
                >(e),
            },
    {
        match opcode {
            Binopcode::Shl => {
                let v = match self.aeval_unop(in_state, src1) {
                    Ok(v) => v,
                    Err(e) => { return Err(e); },
                };
                let by_four: bool = match src2 {
                    Value::Imm(_, _, 4) => true,
                    _ => false,
                };
                match v.v {
                    Some(CallCheckValue::CheckedVal) => {
                        if by_four {
                            return in_state.set(dst, ConstLattice { v: Some(CallCheckValue::PtrOffset) });
                        }
                    },
                    _ => {},
                }
                in_state.set_to_bot(dst)
            },
            _ => in_state.set_to_bot(dst),
        }
    }
}

impl AbstractAnalyzer for CallAnalyzer {
    type State = CallCheckLattice;

    open spec fn init_spec(&self) -> CallState {
        StateView { stack_offset: 0, slots: Map::empty() }
    }

    open spec fn aexec_spec(&self, state: CallState, stmt: SpecStmt, loc: LocIdx) -> Result<CallState, StateError> {
        call_aexec_spec(self.metadata, state, stmt)
    }

    fn init_state(&self) -> (r: CallCheckLattice) {
        VariableState::new()
    }

    fn aexec(&self, in_state: &mut CallCheckLattice, stmt: &Stmt, loc_idx: &LocIdx) -> (r: Result<
        (),
        StateError,
    >) {
        match stmt {
            Stmt::Clear(dst, _srcs) => in_state.set_to_bot(dst),
            Stmt::Unop(_, dst, src) => {
                let v = match self.aeval_unop(in_state, src) {
                    Ok(v) => v,
                    Err(e) => { return Err(e); },
                };
                in_state.set(dst, v)
            },
            Stmt::Binop(opcode, dst, src1, src2) => {
                match self.aexec_binop(in_state, opcode, dst, src1, src2) {
                    Err(e) => Err(e),
                    Ok(()) => in_state.adjust_stack_offset(opcode, dst, src1, src2),
                }
            },
            Stmt::Call(_) => {
                in_state.on_call();
                Ok(())
            },
            _ => Ok(()),
        }
    }

    open spec fn process_branch_spec(
        &self,
        irmap: Map<u64, SpecBlock>,
        state: CallState,
        succ_addrs: Seq<u64>,
        addr: u64,
    ) -> Seq<(u64, CallState)> {
        call_branch_spec(irmap, state, succ_addrs, addr)
    }

    fn process_branch(&self, irmap: &IRMap, in_state: &CallCheckLattice, succ_addrs: &Vec<u64>, addr: &u64) -> (r:
        Vec<(u64, CallCheckLattice)>) {
        if succ_addrs.len() == 2 {
            match irmap.get(addr) {
                None => {},
                Some(block) => {
                    assert(irmap_view(irmap@)[*addr] == block_view(block@));
                    match find_size_check(block) {
                        None => {},
                        Some((index, size, limit, taken)) => {
                            let is_size: bool = match in_state.get_reg(limit, ValSize::Size64).v {
                                Some(CallCheckValue::TableSize) => true,
                                _ => false,
                            };
                            if is_size {
                                let mut refined = in_state.duplicate();
                                refined.set_reg(index, size, ConstLattice { v: Some(CallCheckValue::CheckedVal) });
                                let plain = in_state.duplicate();
                                let mut out: Vec<(u64, CallCheckLattice)> = Vec::new();
                                if taken {
                                    out.push((succ_addrs[0], plain));
                                    out.push((succ_addrs[1], refined));
                                } else {
                                    out.push((succ_addrs[0], refined));
                                    out.push((succ_addrs[1], plain));
                                }
                                assert(states_view(out@) =~= call_branch_spec(
                                    irmap_view(irmap@),
                                    in_state@,
                                    succ_addrs@,
                                    *addr,
                                ));
                                return out;
                            }
                        },
                    }
                },
            }
        }
        copy_to_successors(in_state, succ_addrs)
    }
}

} // verus!
