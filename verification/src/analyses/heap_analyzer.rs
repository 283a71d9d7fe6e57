//! The heap analysis: which registers and stack slots hold the heap base, a
//! number below 2^32, an address inside the heap, or the address of one of
//! the runtime's tables.

use crate::analyses::{
    aexec_stmts_from, copy_to_successors, push_pop_stmts, same_to_all, AbstractAnalyzer,
};
use crate::ir::types::{
    Binopcode, ImmType, LocIdx, MemArg, MemArgs, SpecStmt, Stmt, Unopcode, ValSize, Value,
    VwMetadata, X86Regs,
};
use crate::ir::utils::{extract_stack_offset, stack_offset_spec};
use crate::ir::x64::{IRMap, SpecBlock};
use crate::lattices::ConstLattice;
use crate::lattices::heap_lattice::{HeapValue, HeapValueLattice};
use crate::lattices::state_lattice::{
    access_bytes, access_size, adjust_stack_offset_spec, load_check, load_spec, on_call_spec,
    reg_value, reg_written, set_spec, SlotView, StateError, StateView, VariableState, VarIndex,
    VarState,
};
use vstd::prelude::*;

verus! {

/// The abstract state of the heap analysis.
pub type HeapLattice = VariableState<HeapValueLattice>;

/// The content of a [`HeapLattice`].
pub type HeapState = StateView<Option<HeapValue>>;

/// The heap analysis of a module with the given metadata.
pub struct HeapAnalyzer {
    pub metadata: VwMetadata,
}

/// Whether an address has the form `[base + _]` with a 64-bit register that
/// holds the heap base: such an access reads the address of the globals.
pub open spec fn is_globalbase_access_spec(s: HeapState, memargs: MemArgs) -> bool {
    match memargs {
        MemArgs::Mem2Args(MemArg::Reg(reg, ValSize::Size64), _) => reg_value::<HeapValueLattice>(
            s,
            reg,
            ValSize::Size64,
        ) == Some(HeapValue::HeapBase),
        _ => false,
    }
}

/// Whether an address has the form `[base + _]` with a 64-bit register that
/// holds the heap base.
pub fn is_globalbase_access(in_state: &HeapLattice, memargs: &MemArgs) -> (r: bool)
    ensures
        r == is_globalbase_access_spec(in_state@, *memargs),
{
    if let MemArgs::Mem2Args(arg1, _arg2) = memargs {
        if let MemArg::Reg(regnum, ValSize::Size64) = arg1 {
            let base = in_state.get_reg(*regnum, ValSize::Size64);
            if let Some(v) = base.v {
                if let HeapValue::HeapBase = v {
                    return true;
                }
            }
        }
    };
    false
}

/// The abstract value of an immediate: the tables by their addresses, and
/// `Bounded4GB` for a number in `[0, 2^32)`.
pub open spec fn heap_imm_spec(metadata: VwMetadata, immval: i64) -> Option<HeapValue> {
    if immval as u64 == metadata.guest_table_0 {
        Some(HeapValue::GuestTable0)
    } else if immval as u64 == metadata.lucet_tables {
        Some(HeapValue::LucetTables)
    } else if 0 <= immval < 0x1_0000_0000 {
        Some(HeapValue::Bounded4GB)
    } else {
        None
    }
}

/// The abstract value of a source operand.
///
/// A register read at 32 bits or less holds a number below 2^32. A read of
/// `[heap base + _]` gives the address of the globals. A read of a stack
/// slot gives what was stored there.
pub open spec fn heap_eval_spec(metadata: VwMetadata, s: HeapState, value: Value) -> Result<
    Option<HeapValue>,
    StateError,
> {
    match value {
        Value::Mem(memsize, memargs) => if is_globalbase_access_spec(s, memargs) {
            Ok(Some(HeapValue::GlobalsBase))
        } else {
            match stack_offset_spec(memargs) {
                Some(offset) => match load_check(s, offset, access_bytes(memsize)) {
                    Err(e) => Err(e),
                    Ok(()) => Ok(load_spec::<HeapValueLattice>(s, offset, access_bytes(memsize))),
                },
                None => Ok(None),
            }
        },
        Value::Reg(reg, size) => if size == ValSize::SizeOther {
            Ok(None)
        } else if size.bits() <= 32 {
            Ok(Some(HeapValue::Bounded4GB))
        } else {
            Ok(reg_value::<HeapValueLattice>(s, reg, ValSize::Size64))
        },
        Value::Imm(_, _, immval) => Ok(heap_imm_spec(metadata, immval)),
        Value::RIPConst => Ok(None),
    }
}

/// Whether two values are the heap base and a number below 2^32, in either
/// order.
pub open spec fn is_heap_sum(a: Option<HeapValue>, b: Option<HeapValue>) -> bool {
    (a == Some(HeapValue::HeapBase) && b == Some(HeapValue::Bounded4GB)) || (a == Some(
        HeapValue::Bounded4GB,
    ) && b == Some(HeapValue::HeapBase))
}

/// The state behind `dst = src1 op src2`, before the stack pointer is
/// followed: the sum of the heap base and a number below 2^32, on 64-bit
/// registers, is an address inside the heap; the destination of any other
/// operation becomes unknown.
pub open spec fn heap_binop_spec(s: HeapState, opcode: Binopcode, dst: Value, src1: Value, src2: Value) -> Result<
    HeapState,
    StateError,
> {
    let sum = opcode == Binopcode::Add && match (dst, src1, src2) {
        (
            Value::Reg(_, ValSize::Size64),
            Value::Reg(rs1, ValSize::Size64),
            Value::Reg(rs2, ValSize::Size64),
        ) => is_heap_sum(
            reg_value::<HeapValueLattice>(s, rs1, ValSize::Size64),
            reg_value::<HeapValueLattice>(s, rs2, ValSize::Size64),
        ),
        _ => false,
    };
    if sum {
        Ok(reg_written(s, dst->Reg_0, ValSize::Size64, Some(HeapValue::HeapAddr)))
    } else {
        set_spec(s, dst, None)
    }
}

/// The state of the heap analysis behind a statement.
pub open spec fn heap_aexec_spec(metadata: VwMetadata, s: HeapState, stmt: SpecStmt) -> Result<
    HeapState,
    StateError,
> {
    match stmt {
        SpecStmt::Clear(dst, _) => set_spec(s, dst, None),
        SpecStmt::Unop(_, dst, src) => match heap_eval_spec(metadata, s, src) {
            Err(e) => Err(e),
            Ok(v) => set_spec(s, dst, v),
        },
        SpecStmt::Binop(opcode, dst, src1, src2) => match heap_binop_spec(s, opcode, dst, src1, src2) {
            Err(e) => Err(e),
            Ok(next) => adjust_stack_offset_spec(next, opcode, dst, src1, src2),
        },
        SpecStmt::Call(_) => Ok(on_call_spec(s)),
        _ => Ok(s),
    }
}

/// The state of the heap analysis at function entry: `rdi` holds the heap
/// base.
pub open spec fn heap_init_spec() -> HeapState {
    StateView {
        stack_offset: 0,
        slots: Map::<VarIndex, SlotView<
            Option<HeapValue>,
        >>::empty().insert(
            VarIndex::Reg(X86Regs::Rdi),
            SlotView { size: 64, value: Some(HeapValue::HeapBase) },
        ),
    }
}

impl HeapAnalyzer {
    /// The abstract value of a source operand.
    pub fn aeval_unop(&self, in_state: &HeapLattice, value: &Value) -> (r: Result<HeapValueLattice, StateError>)
        ensures
            match r {
                Ok(v) => heap_eval_spec(self.metadata, in_state@, *value) == Ok::<Option<HeapValue>, StateError>(
                    v@,
                ),
                Err(e) => heap_eval_spec(self.metadata, in_state@, *value) == Err::<
                    Option<HeapValue>,
                    StateError,
                >(e),
            },
    {
        match value {
            Value::Mem(memsize, memargs) => {
                if is_globalbase_access(in_state, memargs) {
                    return Ok(HeapValueLattice::new(HeapValue::GlobalsBase));
                }
                match extract_stack_offset(memargs) {
                    Some(offset) => in_state.get_stack_slot(offset, access_size(memsize)),
                    None => Ok(ConstLattice { v: None }),
                }
            },
            Value::Reg(regnum, size) => {
                if let ValSize::SizeOther = size {
                    return Ok(ConstLattice { v: None });
                };
                if size.to_u32() <= 32 {
                    Ok(HeapValueLattice::new(HeapValue::Bounded4GB))
                } else {
                    Ok(in_state.get_reg(*regnum, ValSize::Size64))
                }
            },
            Value::Imm(_, _, immval) => {
                if (#[verifier::truncate] (*immval as u64)) == self.metadata.guest_table_0 {
                    Ok(HeapValueLattice::new(HeapValue::GuestTable0))
                } else if (#[verifier::truncate] (*immval as u64)) == self.metadata.lucet_tables {
                    Ok(HeapValueLattice::new(HeapValue::LucetTables))
                } else if (*immval >= 0) && (*immval < 0x1_0000_0000) {
                    Ok(HeapValueLattice::new(HeapValue::Bounded4GB))
                } else {
                    Ok(ConstLattice { v: None })
                }
            },
            Value::RIPConst => Ok(ConstLattice { v: None }),
        }
    }

    /// Passes a state through `dst = src`.
    pub fn aexec_unop(&self, in_state: &mut HeapLattice, dst: &Value, src: &Value, _loc_idx: &LocIdx) -> (r:
        Result<(), StateError>)
        ensures
            match r {
                Ok(()) => heap_aexec_spec(
                    self.metadata,
                    old(in_state)@,
                    SpecStmt::Unop(Unopcode::Mov, *dst, *src),
                ) == Ok::<HeapState, StateError>(final(in_state)@),
                Err(e) => heap_aexec_spec(
                    self.metadata,
                    old(in_state)@,
                    SpecStmt::Unop(Unopcode::Mov, *dst, *src),
                ) == Err::<HeapState, StateError>(e),
            },
    {
        let v = match self.aeval_unop(in_state, src) {
            Ok(v) => v,
            Err(e) => { return Err(e); },
        };
        in_state.set(dst, v)
    }

    /// Passes a state through `dst = src1 op src2`, the stack pointer
    /// aside.
    pub fn aexec_binop(
        &self,
        in_state: &mut HeapLattice,
        opcode: &Binopcode,
        dst: &Value,
        src1: &Value,
        src2: &Value,
        _loc_idx: &LocIdx,
    ) -> (r: Result<(), StateError>)
        ensures
            match r {
                Ok(()) => heap_binop_spec(old(in_state)@, *opcode, *dst, *src1, *src2) == Ok::<
                    HeapState,
                    StateError,
                >(final(in_state)@),
                Err(e) => heap_binop_spec(old(in_state)@, *opcode, *dst, *src1, *src2) == Err::<
                    HeapState,
                    StateError,
                >(e),
            },
    {
        match opcode {
            Binopcode::Add => {
                if let (
                    Value::Reg(rd, ValSize::Size64),
                    Value::Reg(rs1, ValSize::Size64),
                    Value::Reg(rs2, ValSize::Size64),
                ) = (*dst, *src1, *src2) {
                    let rs1_val = in_state.get_reg(rs1, ValSize::Size64).v;
                    let rs2_val = in_state.get_reg(rs2, ValSize::Size64).v;
                    match (rs1_val, rs2_val) {
                        (Some(HeapValue::HeapBase), Some(HeapValue::Bounded4GB))
                        | (Some(HeapValue::Bounded4GB), Some(HeapValue::HeapBase)) => {
                            in_state.set_reg(rd, ValSize::Size64, ConstLattice { v: Some(HeapValue::HeapAddr) });
                            return Ok(());
                        },
                        _ => {},
                    }
                }
            },
            _ => {},
        }
        in_state.set_to_bot(dst)
    }
}

impl AbstractAnalyzer for HeapAnalyzer {
    type State = HeapLattice;

    open spec fn init_spec(&self) -> HeapState {
        heap_init_spec()
    }

    open spec fn aexec_spec(&self, state: HeapState, stmt: SpecStmt, loc: LocIdx) -> Result<
        HeapState,
        StateError,
    > {
        heap_aexec_spec(self.metadata, state, stmt)
    }

    fn init_state(&self) -> (r: HeapLattice) {
        let mut result: HeapLattice = VariableState::new();
        result.set_reg(X86Regs::Rdi, ValSize::Size64, HeapValueLattice::new(HeapValue::HeapBase));
        result
    }

    fn aexec(&self, in_state: &mut HeapLattice, stmt: &Stmt, loc_idx: &LocIdx) -> (r: Result<(), StateError>) {
        match stmt {
            Stmt::Clear(dst, _srcs) => in_state.set_to_bot(dst),
            Stmt::Unop(_, dst, src) => self.aexec_unop(in_state, dst, src, loc_idx),
            Stmt::Binop(opcode, dst, src1, src2) => {
                match self.aexec_binop(in_state, opcode, dst, src1, src2, loc_idx) {
                    Err(e) => Err(e),
                    Ok(()) => in_state.adjust_stack_offset(opcode, dst, src1, src2),
                }
            },
            Stmt::Call(_) => {
                in_state.on_call();
                Ok(())
            },
            _ => Ok(()),
        }
    }

    open spec fn process_branch_spec(
        &self,
        irmap: Map<u64, SpecBlock>,
        state: HeapState,
        succ_addrs: Seq<u64>,
        addr: u64,
    ) -> Seq<(u64, HeapState)> {
        same_to_all(state, succ_addrs)
    }

    fn process_branch(&self, irmap: &IRMap, in_state: &HeapLattice, succ_addrs: &Vec<u64>, addr: &u64) -> (r: Vec<
        (u64, HeapLattice),
    >) {
        copy_to_successors(in_state, succ_addrs)
    }
}

/// `push reg; pop reg` leaves the heap state as it was, as far as it can be
/// read: the stack pointer is where it was, and every register but the
/// stack pointer holds what it held.
pub proof fn lemma_push_pop_keeps_heap_state(analyzer: HeapAnalyzer, s: HeapState, reg: X86Regs, addr: u64)
    requires
        aexec_stmts_from(analyzer, s, addr, push_pop_stmts(reg), 0) is Ok,
    ensures
        ({
            let t = aexec_stmts_from(
                analyzer,
                s,
                addr,
                push_pop_stmts(reg),
                0,
            )->Ok_0;
            &&& t.stack_offset == s.stack_offset
            &&& forall|other: X86Regs, size: ValSize|
                other != X86Regs::Rsp ==> #[trigger] reg_value::<HeapValueLattice>(t, other, size)
                    == reg_value::<HeapValueLattice>(s, other, size)
        }),
{
    reveal_with_fuel(aexec_stmts_from, 5);
}

/// A move of the constant 0 has one effect on the heap state whatever the
/// kind and the width of the immediate: `xor reg, reg`, which lowers to
/// such a move, is `mov reg, 0`.
pub proof fn lemma_heap_move_of_zero(
    metadata: VwMetadata,
    s: HeapState,
    dst: Value,
    kind: ImmType,
    size: ValSize,
)
    ensures
        heap_aexec_spec(
            metadata,
            s,
            SpecStmt::Unop(
                Unopcode::Mov,
                dst,
                Value::Imm(ImmType::Signed, ValSize::Size64, 0),
            ),
        ) == heap_aexec_spec(
            metadata,
            s,
            SpecStmt::Unop(Unopcode::Mov, dst, Value::Imm(kind, size, 0)),
        ),
{
}

/// `lea reg, [rip + disp]` assigns the register what the constant
/// `addr + len + disp` is in the heap domain.
pub proof fn lemma_heap_lea_constant(metadata: VwMetadata, s: HeapState, reg: X86Regs, target: i64)
    ensures
        heap_aexec_spec(
            metadata,
            s,
            SpecStmt::Unop(
                Unopcode::Mov,
                Value::Reg(reg, ValSize::Size64),
                Value::Imm(ImmType::Signed, ValSize::Size64, target),
            ),
        ) == Ok::<HeapState, StateError>(
            reg_written(s, reg, ValSize::Size64, heap_imm_spec(metadata, target)),
        ),
{
}

} // verus!
