use veriwasm::ir::types::{Binopcode, ImmType, LocIdx, MemArg, MemArgs, ValSize, Value, X86Regs};
use veriwasm::lattices::heap_lattice::{HeapValue, HeapValueLattice};
use veriwasm::lattices::state_lattice::{StateError, VarIndex, VarState, VariableState};
use veriwasm::lattices::{ConstLattice, Lattice, Semilattice};

type State = VariableState<HeapValueLattice>;

fn atom(v: HeapValue) -> HeapValueLattice {
    ConstLattice { v: Some(v) }
}

fn bot() -> HeapValueLattice {
    ConstLattice { v: None }
}

fn rsp() -> Value {
    Value::Reg(X86Regs::Rsp, ValSize::Size64)
}

fn imm(n: i64) -> Value {
    Value::Imm(ImmType::Signed, ValSize::Size64, n)
}

fn stack_at(offset: i64, size: ValSize) -> Value {
    Value::Mem(
        size,
        MemArgs::Mem2Args(
            MemArg::Reg(X86Regs::Rsp, ValSize::Size64),
            MemArg::Imm(ImmType::Signed, ValSize::Size32, offset),
        ),
    )
}

#[test]
fn new_state_is_empty() {
    let s = State::new();
    assert_eq!(s.stack_offset(), 0);
    assert_eq!(s.len(), 0);
    assert!(s.same(&State::bot()));
    assert!(s.same(&State::default()));
    assert!(s.get_var_slot(&VarIndex::Reg(X86Regs::Rax)) == bot());
}

#[test]
fn store_then_load_gives_the_value() {
    let mut s = State::new();
    assert_eq!(s.update_stack_slot(16, atom(HeapValue::HeapBase), 8), Ok(()));
    assert!(s.get_stack_slot(16, 8) == Ok(atom(HeapValue::HeapBase)));
    assert!(s.get_stack_slot(16, 4) == Ok(bot()));
    assert!(s.get_stack_slot(24, 8) == Ok(bot()));
    assert_eq!(s.update_stack_slot(32, atom(HeapValue::Bounded4GB), 4), Ok(()));
    assert!(s.get_stack_slot(32, 4) == Ok(atom(HeapValue::Bounded4GB)));
    assert!(s.get_stack_slot(32, 8) == Ok(bot()));
    assert_eq!(s.len(), 2);
}

#[test]
fn an_eight_byte_store_evicts_its_neighbours() {
    let mut s = State::new();
    assert_eq!(s.update_stack_slot(20, atom(HeapValue::Bounded4GB), 4), Ok(()));
    assert_eq!(s.update_stack_slot(12, atom(HeapValue::HeapBase), 8), Ok(()));
    // the store at 16 overlaps the 8-byte slot at 12 and the slot at 20
    assert_eq!(s.update_stack_slot(16, atom(HeapValue::GlobalsBase), 8), Ok(()));
    assert!(s.get_stack_slot(20, 4) == Ok(bot()));
    assert!(s.get_stack_slot(12, 8) == Ok(bot()));
    assert!(s.get_stack_slot(16, 8) == Ok(atom(HeapValue::GlobalsBase)));
    assert_eq!(s.len(), 1);
}

#[test]
fn a_four_byte_store_keeps_the_slot_above_and_a_small_slot_below() {
    let mut s = State::new();
    assert_eq!(s.update_stack_slot(20, atom(HeapValue::Bounded4GB), 4), Ok(()));
    assert_eq!(s.update_stack_slot(12, atom(HeapValue::Bounded4GB), 4), Ok(()));
    assert_eq!(s.update_stack_slot(16, atom(HeapValue::HeapBase), 4), Ok(()));
    assert!(s.get_stack_slot(20, 4) == Ok(atom(HeapValue::Bounded4GB)));
    assert!(s.get_stack_slot(12, 4) == Ok(atom(HeapValue::Bounded4GB)));
    assert!(s.get_stack_slot(16, 4) == Ok(atom(HeapValue::HeapBase)));
    // an 8-byte slot below is evicted by a 4-byte store too
    let mut t = State::new();
    assert_eq!(t.update_stack_slot(12, atom(HeapValue::HeapBase), 8), Ok(()));
    assert_eq!(t.update_stack_slot(16, atom(HeapValue::Bounded4GB), 4), Ok(()));
    assert!(t.get_stack_slot(12, 8) == Ok(bot()));
}

#[test]
fn refused_stores_and_loads() {
    let mut s = State::new();
    assert_eq!(s.update_stack_slot(3, bot(), 4), Err(StateError::MisalignedStack));
    assert_eq!(s.update_stack_slot(8, bot(), 16), Err(StateError::StoreTooLarge));
    assert_eq!(s.update_stack_slot(i64::MAX - 3, bot(), 4), Err(StateError::OffsetOverflow));
    assert_eq!(s.len(), 0);
    assert!(s.get_stack_slot(8, 2) == Err(StateError::LoadSize));
    assert!(s.get_stack_slot(8, 16) == Err(StateError::LoadSize));
    assert_eq!(s.update_stack_offset(8), Ok(()));
    assert!(s.get_stack_slot(i64::MAX, 4) == Err(StateError::OffsetOverflow));
}

#[test]
fn the_stack_offset_moves_the_slots() {
    let mut s = State::new();
    assert_eq!(s.update_stack_slot(0, atom(HeapValue::HeapBase), 8), Ok(()));
    assert_eq!(s.update_stack_offset(-8), Ok(()));
    assert_eq!(s.stack_offset(), -8);
    assert!(s.get_stack_slot(0, 8) == Ok(bot()));
    assert!(s.get_stack_slot(8, 8) == Ok(atom(HeapValue::HeapBase)));
    assert_eq!(s.update_stack_offset(6), Err(StateError::MisalignedStack));
    assert_eq!(s.stack_offset(), -8);
    assert_eq!(s.update_stack_offset(i64::MIN), Err(StateError::OffsetOverflow));
    assert_eq!(s.stack_offset(), -8);
}

#[test]
fn registers_by_number() {
    let mut s = State::new();
    assert_eq!(s.update_reg_slot(&7, &ValSize::Size64, atom(HeapValue::HeapBase)), Ok(()));
    assert!(s.get_reg_slot(&7, &ValSize::Size64) == Ok(atom(HeapValue::HeapBase)));
    assert!(s.get_reg(X86Regs::Rdi, ValSize::Size64) == atom(HeapValue::HeapBase));
    assert!(s.get_var_slot(&VarIndex::Reg(X86Regs::Rdi)) == atom(HeapValue::HeapBase));
    assert!(s.get_reg_slot(&7, &ValSize::SizeOther) == Ok(bot()));
    assert!(s.get_reg_slot(&6, &ValSize::Size64) == Ok(bot()));
    assert!(s.get_reg_slot(&37, &ValSize::Size64) == Err(StateError::UnknownRegister));
    assert_eq!(s.update_reg_slot(&37, &ValSize::Size64, bot()), Err(StateError::UnknownRegister));
    assert_eq!(s.update_reg_slot(&6, &ValSize::SizeOther, atom(HeapValue::HeapBase)), Ok(()));
    assert!(s.get_reg_slot(&6, &ValSize::Size64) == Ok(bot()));
    let entries = s.entries();
    assert_eq!(entries.len(), 1);
    assert_eq!(entries[0].0, VarIndex::Reg(X86Regs::Rdi));
    assert_eq!(entries[0].1.size, 64);
}

#[test]
fn reading_and_writing_through_values() {
    let mut s = State::new();
    assert_eq!(s.set(&Value::Reg(X86Regs::Rax, ValSize::Size64), atom(HeapValue::HeapBase)), Ok(()));
    assert!(s.get(&Value::Reg(X86Regs::Rax, ValSize::Size64)) == Ok(Some(atom(HeapValue::HeapBase))));
    assert_eq!(s.set(&stack_at(8, ValSize::Size64), atom(HeapValue::Bounded4GB)), Ok(()));
    assert!(s.get(&stack_at(8, ValSize::Size64)) == Ok(Some(atom(HeapValue::Bounded4GB))));
    assert!(s.get(&stack_at(8, ValSize::Size32)) == Ok(Some(bot())));
    assert!(s.get(&stack_at(8, ValSize::Size8)) == Err(StateError::LoadSize));
    let top = Value::Mem(ValSize::Size64, MemArgs::Mem1Arg(MemArg::Reg(X86Regs::Rsp, ValSize::Size64)));
    assert_eq!(s.set(&top, atom(HeapValue::HeapAddr)), Ok(()));
    assert!(s.get(&top) == Ok(Some(atom(HeapValue::HeapAddr))));
    let heap = Value::Mem(ValSize::Size64, MemArgs::Mem1Arg(MemArg::Reg(X86Regs::Rax, ValSize::Size64)));
    assert!(s.get(&heap) == Ok(None));
    assert_eq!(s.set(&heap, atom(HeapValue::HeapAddr)), Ok(()));
    assert!(s.get(&imm(3)) == Ok(None));
    assert!(s.get(&Value::RIPConst) == Ok(None));
    assert_eq!(s.set(&imm(3), bot()), Err(StateError::WriteToImmediate));
    assert_eq!(s.set(&Value::RIPConst, bot()), Err(StateError::WriteToConstant));
    assert_eq!(s.set_to_bot(&Value::Reg(X86Regs::Rax, ValSize::Size64)), Ok(()));
    assert!(s.get(&Value::Reg(X86Regs::Rax, ValSize::Size64)) == Ok(Some(bot())));
}

#[test]
fn a_call_forgets_the_registers() {
    let mut s = State::new();
    s.set_reg(X86Regs::Rdi, ValSize::Size64, atom(HeapValue::HeapBase));
    s.set_reg(X86Regs::Rbx, ValSize::Size64, atom(HeapValue::HeapAddr));
    s.set_reg(X86Regs::Zmm3, ValSize::Size128, atom(HeapValue::Bounded4GB));
    assert_eq!(s.update_stack_slot(8, atom(HeapValue::Bounded4GB), 8), Ok(()));
    s.on_call();
    assert!(s.get_reg(X86Regs::Rdi, ValSize::Size64) == bot());
    assert!(s.get_reg(X86Regs::Rbx, ValSize::Size64) == bot());
    assert!(s.get_reg(X86Regs::Zmm3, ValSize::Size128) == bot());
    assert!(s.get_stack_slot(8, 8) == Ok(atom(HeapValue::Bounded4GB)));
    assert_eq!(s.len(), 1);
}

#[test]
fn following_the_stack_pointer() {
    let mut s = State::new();
    assert_eq!(s.adjust_stack_offset(&Binopcode::Sub, &rsp(), &rsp(), &imm(8)), Ok(()));
    assert_eq!(s.stack_offset(), -8);
    assert_eq!(s.adjust_stack_offset(&Binopcode::Add, &rsp(), &rsp(), &imm(24)), Ok(()));
    assert_eq!(s.stack_offset(), 16);
    let rax = Value::Reg(X86Regs::Rax, ValSize::Size64);
    assert_eq!(s.adjust_stack_offset(&Binopcode::Add, &rax, &rsp(), &imm(24)), Ok(()));
    assert_eq!(s.stack_offset(), 16);
    assert_eq!(s.adjust_stack_offset(&Binopcode::And, &rsp(), &rsp(), &imm(8)), Err(StateError::IllegalRspWrite));
    assert_eq!(s.adjust_stack_offset(&Binopcode::Add, &rsp(), &rax, &imm(8)), Err(StateError::IllegalRspWrite));
    assert_eq!(s.adjust_stack_offset(&Binopcode::Add, &rsp(), &rsp(), &rax), Err(StateError::IllegalRspWrite));
    let esp = Value::Reg(X86Regs::Rsp, ValSize::Size32);
    assert_eq!(s.adjust_stack_offset(&Binopcode::Add, &esp, &esp, &imm(8)), Err(StateError::IllegalRspWrite));
    assert_eq!(s.adjust_stack_offset(&Binopcode::Add, &rsp(), &rsp(), &imm(2)), Err(StateError::MisalignedStack));
    assert_eq!(
        s.adjust_stack_offset(&Binopcode::Sub, &rsp(), &rsp(), &imm(i64::MIN)),
        Err(StateError::OffsetOverflow)
    );
    assert_eq!(s.stack_offset(), 16);
}

#[test]
fn meet_of_states_is_pointwise() {
    let loc = LocIdx { addr: 0, idx: 0 };
    let mut a = State::new();
    a.set_reg(X86Regs::Rax, ValSize::Size64, atom(HeapValue::HeapBase));
    a.set_reg(X86Regs::Rbx, ValSize::Size64, atom(HeapValue::HeapAddr));
    a.set_reg(X86Regs::Rcx, ValSize::Size32, atom(HeapValue::Bounded4GB));
    a.set_reg(X86Regs::Rdx, ValSize::Size64, atom(HeapValue::Bounded4GB));
    let mut b = State::new();
    b.set_reg(X86Regs::Rax, ValSize::Size64, atom(HeapValue::HeapBase));
    b.set_reg(X86Regs::Rbx, ValSize::Size64, atom(HeapValue::Bounded4GB));
    b.set_reg(X86Regs::Rcx, ValSize::Size64, atom(HeapValue::Bounded4GB));
    b.set_reg(X86Regs::Rsi, ValSize::Size64, atom(HeapValue::Bounded4GB));
    let m = a.meet(&b, &loc);
    assert!(m.get_reg(X86Regs::Rax, ValSize::Size64) == atom(HeapValue::HeapBase));
    assert!(m.get_reg(X86Regs::Rbx, ValSize::Size64) == bot());
    assert!(m.get_reg(X86Regs::Rcx, ValSize::Size64) == bot());
    assert!(m.get_reg(X86Regs::Rdx, ValSize::Size64) == bot());
    assert!(m.get_reg(X86Regs::Rsi, ValSize::Size64) == bot());
    // rax with its value, rbx with the least element; the others are dropped
    assert_eq!(m.len(), 2);
    assert!(m.same(&b.meet(&a, &loc)));
    assert!(m.leq(&a));
    assert!(m.leq(&b));
    assert!(!a.leq(&b));
    assert!(a.meet(&a, &loc).same(&a));
    assert_eq!(a.leq(&m), a.meet(&m, &loc).same(&a));
    assert_eq!(m.leq(&a), m.meet(&a, &loc).same(&m));
    let c = a.clone_state();
    assert!(c.same(&a));
    assert!(a.meet(&b, &loc).meet(&c, &loc).same(&a.meet(&b.meet(&c, &loc), &loc)));
}

#[test]
fn states_with_different_stack_offsets_do_not_compare() {
    let loc = LocIdx { addr: 0, idx: 0 };
    let a = State::new();
    let mut b = State::new();
    assert_eq!(b.update_stack_offset(8), Ok(()));
    assert!(!a.leq(&b));
    assert!(!b.leq(&a));
    assert!(!a.same(&b));
    assert_eq!(a.meet(&b, &loc).stack_offset(), 0);
    assert_eq!(b.meet(&a, &loc).stack_offset(), 8);
    let mut c = State::new();
    assert_eq!(c.update_stack_offset(8), Ok(()));
    assert_eq!(b.meet(&c, &loc).stack_offset(), 8);
    assert!(b.leq(&c));
    assert_eq!(a == b, false);
    assert_eq!(b == c, true);
    assert_eq!(a < b, false);
    assert_eq!(a > b, false);
    assert_eq!(b <= c, true);
    c.set_reg(X86Regs::Rax, ValSize::Size64, atom(HeapValue::HeapBase));
    assert_eq!(b < c, true);
    assert_eq!(c > b, true);
    assert_eq!(b == c, false);
    let mut d = State::new();
    assert_eq!(d.update_stack_offset(8), Ok(()));
    d.set_reg(X86Regs::Rbx, ValSize::Size64, atom(HeapValue::HeapBase));
    assert_eq!(c < d, false);
    assert_eq!(c > d, false);
    assert_eq!(c == d, false);
}
