//! The switch analysis: which registers and stack slots hold the address of
//! a jump table, an index that was checked against a bound, an entry of a
//! jump table, or the target of a jump through one.

use crate::analyses::{
    aexec_stmts_from, copy_to_successors, push_pop_stmts, same_to_all, states_view,
    AbstractAnalyzer,
};
use crate::ir::instr::Opcode;
use crate::ir::types::{
    block_view, stmts_view, Binopcode, ImmType, LocIdx, MemArg, MemArgs, SpecStmt, Stmt, StmtResult,
    Unopcode, ValSize, Value, VwMetadata, X86Regs,
};
use crate::ir::utils::{extract_stack_offset, stack_offset_spec};
use crate::ir::x64::{irmap_view, IRMap, SpecBlock};
use crate::lattices::{ConstLattice, Semilattice};
use crate::lattices::state_lattice::{
    access_bytes, access_size, adjust_stack_offset_spec, load_check, load_spec, on_call_spec,
    reg_value, reg_written, set_spec, StateError, StateView, VariableState, VarState,
};
use crate::lattices::switch_lattice::{SwitchValue, SwitchValueLattice};
use vstd::prelude::*;

verus! {

broadcast use vstd::std_specs::hash::group_hash_axioms;

/// The abstract state of the switch analysis.
pub type SwitchLattice = VariableState<SwitchValueLattice>;

/// The content of a [`SwitchLattice`].
pub type SwitchState = StateView<Option<SwitchValue>>;

/// The switch analysis of a module with the given metadata.
pub struct SwitchAnalyzer {
    pub metadata: VwMetadata,
}

/// The abstract value of a read of a jump table entry: the address has the
/// form `[base + index * 4]`, the base holds the address of a jump table
/// and the index is known to be below a bound.
pub open spec fn table_read_spec(s: SwitchState, memargs: MemArgs) -> Option<SwitchValue> {
    match memargs {
        MemArgs::MemScale(MemArg::Reg(base, base_size), MemArg::Reg(index, index_size), MemArg::Imm(_, _, 4)) => {
            match (
                reg_value::<SwitchValueLattice>(s, base, base_size),
                reg_value::<SwitchValueLattice>(s, index, index_size),
            ) {
                (Some(SwitchValue::SwitchBase(_)), Some(SwitchValue::UpperBound(bound))) => Some(
                    SwitchValue::JmpOffset(bound),
                ),
                _ => None,
            }
        },
        _ => None,
    }
}

/// The abstract value of a source operand. A constant that fits in 32 bits
/// may be the address of a jump table.
pub open spec fn switch_eval_spec(s: SwitchState, value: Value) -> Result<Option<SwitchValue>, StateError> {
    match value {
        Value::Mem(memsize, memargs) => match stack_offset_spec(memargs) {
            Some(offset) => match load_check(s, offset, access_bytes(memsize)) {
                Err(e) => Err(e),
                Ok(()) => Ok(load_spec::<SwitchValueLattice>(s, offset, access_bytes(memsize))),
            },
            None => Ok(table_read_spec(s, memargs)),
        },
        Value::Reg(reg, size) => Ok(reg_value::<SwitchValueLattice>(s, reg, size)),
        Value::Imm(_, _, immval) => if 0 <= immval <= u32::MAX {
            Ok(Some(SwitchValue::SwitchBase(immval as u32)))
        } else {
            Ok(None)
        },
        Value::RIPConst => Ok(None),
    }
}

/// The abstract value of a sum: the address of a jump table plus one of its
/// entries is the target of a jump through the table.
pub open spec fn switch_sum_spec(a: Option<SwitchValue>, b: Option<SwitchValue>) -> Option<SwitchValue> {
    match (a, b) {
        (Some(SwitchValue::SwitchBase(base)), Some(SwitchValue::JmpOffset(bound))) => Some(
            SwitchValue::JmpTarget(base, bound),
        ),
        (Some(SwitchValue::JmpOffset(bound)), Some(SwitchValue::SwitchBase(base))) => Some(
            SwitchValue::JmpTarget(base, bound),
        ),
        _ => None,
    }
}

/// The state behind `dst = src1 op src2`, before the stack pointer is
/// followed: a sum may be the target of a jump through a table, the
/// destination of any other operation becomes unknown.
pub open spec fn switch_binop_spec(s: SwitchState, opcode: Binopcode, dst: Value, src1: Value, src2: Value) -> Result<
    SwitchState,
    StateError,
> {
    match opcode {
        Binopcode::Add => match switch_eval_spec(s, src1) {
            Err(e) => Err(e),
            Ok(a) => match switch_eval_spec(s, src2) {
                Err(e) => Err(e),
                Ok(b) => set_spec(s, dst, switch_sum_spec(a, b)),
            },
        },
        _ => set_spec(s, dst, None),
    }
}

/// The state of the switch analysis behind a statement.
pub open spec fn switch_aexec_spec(s: SwitchState, stmt: SpecStmt) -> Result<SwitchState, StateError> {
    match stmt {
        SpecStmt::Clear(dst, _) => set_spec(s, dst, None),
        SpecStmt::Unop(_, dst, src) => match switch_eval_spec(s, src) {
            Err(e) => Err(e),
            Ok(v) => set_spec(s, dst, v),
        },
        SpecStmt::Binop(opcode, dst, src1, src2) => match switch_binop_spec(s, opcode, dst, src1, src2) {
            Err(e) => Err(e),
            Ok(next) => adjust_stack_offset_spec(next, opcode, dst, src1, src2),
        },
        SpecStmt::Call(_) => Ok(on_call_spec(s)),
        _ => Ok(s),
    }
}

/// What a conditional jump behind `cmp index, k` tells about the index, and
/// on which edge: whether the edge is the one that is taken, and the bound
/// that the index is below on that edge.
///
/// `ja` and `jnb` leave the range on the edge that is taken, so the bound
/// holds where they fall through; `jb` and `jna` enter it.
pub open spec fn bound_on_edge(opcode: Opcode, k: i64) -> Option<(bool, u32)> {
    if 0 <= k < u32::MAX {
        match opcode {
            Opcode::JA => Some((false, (k + 1) as u32)),
            Opcode::JNB => Some((false, k as u32)),
            Opcode::JB => Some((true, k as u32)),
            Opcode::JNA => Some((true, (k + 1) as u32)),
            _ => None,
        }
    } else {
        None
    }
}

/// A bounds check at the end of a block: the register that is checked, the
/// width at which it is read, whether the bound holds on the edge that is
/// taken, and the bound.
pub type BoundsCheck = (X86Regs, ValSize, bool, u32);

/// The bounds check at the end of a block, if the block ends with a
/// comparison of a register with a constant followed by a conditional jump
/// that tells a bound.
pub open spec fn bounds_check_spec(block: SpecBlock) -> Option<BoundsCheck> {
    if block.len() >= 2 && block[block.len() - 1].1.len() == 1 && block[block.len() - 2].1.len() >= 1 {
        match (block[block.len() - 2].1[0], block[block.len() - 1].1[0]) {
            (
                SpecStmt::Binop(Binopcode::Cmp, _, Value::Reg(reg, size), Value::Imm(_, _, k)),
                SpecStmt::Branch(opcode, _),
            ) => match bound_on_edge(opcode, k) {
                Some((taken, bound)) => Some((reg, size, taken, bound)),
                None => None,
            },
            _ => None,
        }
    } else {
        None
    }
}

/// The state that flows to each successor. Behind a bounds check with two
/// successors, the first being where the jump falls through and the second
/// where it is taken, the register that was checked is below the bound on
/// the edge on which the check passed. Otherwise every successor gets the
/// state behind the block.
pub open spec fn switch_branch_spec(
    irmap: Map<u64, SpecBlock>,
    state: SwitchState,
    succ_addrs: Seq<u64>,
    addr: u64,
) -> Seq<(u64, SwitchState)> {
    if succ_addrs.len() == 2 && irmap.contains_key(addr) && bounds_check_spec(irmap[addr]) is Some {
        let (reg, size, taken, bound) = bounds_check_spec(irmap[addr])->Some_0;
        let refined = reg_written(state, reg, size, Some(SwitchValue::UpperBound(bound)));
        if taken {
            seq![(succ_addrs[0], state), (succ_addrs[1], refined)]
        } else {
            seq![(succ_addrs[0], refined), (succ_addrs[1], state)]
        }
    } else {
        same_to_all(state, succ_addrs)
    }
}

/// What a conditional jump behind `cmp index, k` tells about the index.
pub fn edge_bound(opcode: Opcode, k: i64) -> (r: Option<(bool, u32)>)
    ensures
        r == bound_on_edge(opcode, k),
{
    if 0 <= k && k < u32::MAX as i64 {
        match opcode {
            Opcode::JA => Some((false, (k + 1) as u32)),
            Opcode::JNB => Some((false, k as u32)),
            Opcode::JB => Some((true, k as u32)),
            Opcode::JNA => Some((true, (k + 1) as u32)),
            _ => None,
        }
    } else {
        None
    }
}

/// The bounds check at the end of a block.
pub fn find_bounds_check(block: &Vec<StmtResult>) -> (r: Option<BoundsCheck>)
    ensures
        r == bounds_check_spec(block_view(block@)),
{
    let n: usize = block.len();
    if n < 2 {
        return None;
    }
    let ghost view = block_view(block@);
    assert(view[n - 1] == (block@[n - 1].0, stmts_view(block@[n - 1].1@)));
    assert(view[n - 2] == (block@[n - 2].0, stmts_view(block@[n - 2].1@)));
    let last = &block[n - 1].1;
    let before = &block[n - 2].1;
    if last.len() != 1 || before.len() < 1 {
        return None;
    }
    assert(view[n - 1].1[0] == last@[0]@);
    assert(view[n - 2].1[0] == before@[0]@);
    match (&before[0], &last[0]) {
        (Stmt::Binop(Binopcode::Cmp, _, Value::Reg(reg, size), Value::Imm(_, _, k)), Stmt::Branch(opcode, _)) => {
            match edge_bound(*opcode, *k) {
                Some((taken, bound)) => Some((*reg, *size, taken, bound)),
                None => None,
            }
        },
        _ => None,
    }
}

impl SwitchAnalyzer {
    /// The abstract value of a source operand.
    pub fn aeval_unop(&self, in_state: &SwitchLattice, value: &Value) -> (r: Result<SwitchValueLattice, StateError>)
        ensures
            match r {
                Ok(v) => switch_eval_spec(in_state@, *value) == Ok::<Option<SwitchValue>, StateError>(v@),
                Err(e) => switch_eval_spec(in_state@, *value) == Err::<Option<SwitchValue>, StateError>(e),
            },
    {
        match value {
            Value::Mem(memsize, memargs) => match extract_stack_offset(memargs) {
                Some(offset) => in_state.get_stack_slot(offset, access_size(memsize)),
                None => {
                    if let MemArgs::MemScale(
                        MemArg::Reg(base, base_size),
                        MemArg::Reg(index, index_size),
                        MemArg::Imm(_, _, 4),
                    ) = memargs {
                        let base_val = in_state.get_reg(*base, *base_size).v;
                        let index_val = in_state.get_reg(*index, *index_size).v;
                        if let (Some(SwitchValue::SwitchBase(_)), Some(SwitchValue::UpperBound(bound))) = (
                            base_val,
                            index_val,
                        ) {
                            return Ok(ConstLattice { v: Some(SwitchValue::JmpOffset(bound)) });
                        }
                    }
                    Ok(ConstLattice { v: None })
                },
            },
            Value::Reg(reg, size) => Ok(in_state.get_reg(*reg, *size)),
            Value::Imm(_, _, immval) => {
                if 0 <= *immval && *immval <= u32::MAX as i64 {
                    Ok(ConstLattice { v: Some(SwitchValue::SwitchBase(*immval as u32)) })
                } else {
                    Ok(ConstLattice { v: None })
                }
            },
            Value::RIPConst => Ok(ConstLattice { v: None }),
        }
    }

    /// Passes a state through `dst = src1 op src2`, the stack pointer
    /// aside.
    pub fn aexec_binop(
        &self,
        in_state: &mut SwitchLattice,
        opcode: &Binopcode,
        dst: &Value,
        src1: &Value,
        src2: &Value,
    ) -> (r: Result<(), StateError>)
        ensures
            match r {
                Ok(()) => switch_binop_spec(old(in_state)@, *opcode, *dst, *src1, *src2) == Ok::<
                    SwitchState,
                    StateError,
                >(final(in_state)@),
                Err(e) => switch_binop_spec(old(in_state)@, *opcode, *dst, *src1, *src2) == Err::<
                    SwitchState,
                    StateError,
                >(e),
            },
    {
        match opcode {
            Binopcode::Add => {
                let a = match self.aeval_unop(in_state, src1) {
                    Ok(v) => v,
                    Err(e) => { return Err(e); },
                };
                let b = match self.aeval_unop(in_state, src2) {
                    Ok(v) => v,
                    Err(e) => { return Err(e); },
                };
                let sum: Option<SwitchValue> = match (a.v, b.v) {
                    (Some(SwitchValue::SwitchBase(base)), Some(SwitchValue::JmpOffset(bound))) => Some(
                        SwitchValue::JmpTarget(base, bound),
                    ),
                    (Some(SwitchValue::JmpOffset(bound)), Some(SwitchValue::SwitchBase(base))) => Some(
                        SwitchValue::JmpTarget(base, bound),
                    ),
                    _ => None,
                };
                in_state.set(dst, ConstLattice { v: sum })
            },
            _ => in_state.set_to_bot(dst),
        }
    }
}

impl AbstractAnalyzer for SwitchAnalyzer {
    type State = SwitchLattice;

    open spec fn init_spec(&self) -> SwitchState {
        StateView { stack_offset: 0, slots: Map::empty() }
    }

    open spec fn aexec_spec(&self, state: SwitchState, stmt: SpecStmt, loc: LocIdx) -> Result<
        SwitchState,
        StateError,
    > {
        switch_aexec_spec(state, stmt)
    }

    fn init_state(&self) -> (r: SwitchLattice) {
        VariableState::new()
    }

    fn aexec(&self, in_state: &mut SwitchLattice, stmt: &Stmt, loc_idx: &LocIdx) -> (r: Result<(), StateError>) {
        match stmt {
            Stmt::Clear(dst, _srcs) => in_state.set_to_bot(dst),
            Stmt::Unop(_, dst, src) => {
                let v = match self.aeval_unop(in_state, src) {
                    Ok(v) => v,
                    Err(e) => { return Err(e); },
                };
                in_state.set(dst, v)
            },
            Stmt::Binop(opcode, dst, src1, src2) => {
                match self.aexec_binop(in_state, opcode, dst, src1, src2) {
                    Err(e) => Err(e),
                    Ok(()) => in_state.adjust_stack_offset(opcode, dst, src1, src2),
                }
            },
            Stmt::Call(_) => {
                in_state.on_call();
                Ok(())
            },
            _ => Ok(()),
        }
    }

    open spec fn process_branch_spec(
        &self,
        irmap: Map<u64, SpecBlock>,
        state: SwitchState,
        succ_addrs: Seq<u64>,
        addr: u64,
    ) -> Seq<(u64, SwitchState)> {
        switch_branch_spec(irmap, state, succ_addrs, addr)
    }

    fn process_branch(&self, irmap: &IRMap, in_state: &SwitchLattice, succ_addrs: &Vec<u64>, addr: &u64) -> (r:
        Vec<(u64, SwitchLattice)>) {
        if succ_addrs.len() == 2 {
            match irmap.get(addr) {
                None => {},
                Some(block) => {
                    assert(irmap_view(irmap@)[*addr] == block_view(block@));
                    match find_bounds_check(block) {
                        None => {},
                        Some((reg, size, taken, bound)) => {
                            let mut refined = in_state.duplicate();
                            refined.set_reg(reg, size, ConstLattice { v: Some(SwitchValue::UpperBound(bound)) });
                            let plain = in_state.duplicate();
                            let mut out: Vec<(u64, SwitchLattice)> = Vec::new();
                            if taken {
                                out.push((succ_addrs[0], plain));
                                out.push((succ_addrs[1], refined));
                            } else {
                                out.push((succ_addrs[0], refined));
                                out.push((succ_addrs[1], plain));
                            }
                            assert(states_view(out@) =~= switch_branch_spec(
                                irmap_view(irmap@),
                                in_state@,
                                succ_addrs@,
                                *addr,
                            ));
                            return out;
                        },
                    }
                },
            }
        }
        copy_to_successors(in_state, succ_addrs)
    }
}

/// `push reg; pop reg` leaves the switch state as it was, as far as it can
/// be read: the stack pointer is where it was, and every register but the
/// stack pointer holds what it held.
pub proof fn lemma_push_pop_keeps_switch_state(analyzer: SwitchAnalyzer, s: SwitchState, reg: X86Regs, addr: u64)
    requires
        aexec_stmts_from(analyzer, s, addr, push_pop_stmts(reg), 0) is Ok,
    ensures
        ({
            let t = aexec_stmts_from(
                analyzer,
                s,
                addr,
                push_pop_stmts(reg),
                0,
            )->Ok_0;
            &&& t.stack_offset == s.stack_offset
            &&& forall|other: X86Regs, size: ValSize|
                other != X86Regs::Rsp ==> #[trigger] reg_value::<SwitchValueLattice>(t, other, size)
                    == reg_value::<SwitchValueLattice>(s, other, size)
        }),
{
    reveal_with_fuel(aexec_stmts_from, 5);
}

/// A move of the constant 0 has one effect on the switch state whatever
/// the kind and the width of the immediate: `xor reg, reg` is `mov reg, 0`.
pub proof fn lemma_switch_move_of_zero(s: SwitchState, dst: Value, kind: ImmType, size: ValSize)
    ensures
        switch_aexec_spec(
            s,
            SpecStmt::Unop(
                Unopcode::Mov,
                dst,
                Value::Imm(ImmType::Signed, ValSize::Size64, 0),
            ),
        ) == switch_aexec_spec(s, SpecStmt::Unop(Unopcode::Mov, dst, Value::Imm(kind, size, 0))),
{
}

} // verus!
