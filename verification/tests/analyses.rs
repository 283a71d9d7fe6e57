use std::collections::HashMap;
use veriwasm::analyses::heap_analyzer::{is_globalbase_access, HeapAnalyzer, HeapLattice};
use veriwasm::analyses::stack_analyzer::StackAnalyzer;
use veriwasm::analyses::worklist::{is_fixpoint, run_worklist, BasicBlock, Cfg, WorklistError};
use veriwasm::analyses::{analyze_block, AbstractAnalyzer};
use veriwasm::checkers::heap_checker::HeapChecker;
use veriwasm::checkers::stack_checker::StackChecker;
use veriwasm::checkers::{check, Checker};
use veriwasm::ir::instr::Opcode;
use veriwasm::ir::types::{
    Binopcode, ImmType, LocIdx, MemArg, MemArgs, Stmt, Unopcode, ValSize, Value, VwMetadata, X86Regs,
};
use veriwasm::ir::x64::IRMap;
use veriwasm::lattices::heap_lattice::{HeapValue, HeapValueLattice};
use veriwasm::lattices::stack_growth_lattice::StackGrowthLattice;
use veriwasm::lattices::state_lattice::StateError;
use veriwasm::lattices::{ConstLattice, Semilattice};

fn metadata() -> VwMetadata {
    VwMetadata { guest_table_0: 0x5000, lucet_tables: 0x6000, lucet_probestack: 0x9000 }
}

fn heap() -> HeapAnalyzer {
    HeapAnalyzer { metadata: metadata() }
}

fn atom(v: HeapValue) -> HeapValueLattice {
    ConstLattice { v: Some(v) }
}

fn bot() -> HeapValueLattice {
    ConstLattice { v: None }
}

fn reg64(r: X86Regs) -> Value {
    Value::Reg(r, ValSize::Size64)
}

fn imm(n: i64) -> Value {
    Value::Imm(ImmType::Signed, ValSize::Size64, n)
}

fn mem1(r: X86Regs, size: ValSize) -> Value {
    Value::Mem(size, MemArgs::Mem1Arg(MemArg::Reg(r, ValSize::Size64)))
}

fn mem2(r: X86Regs, offset: i64, size: ValSize) -> Value {
    Value::Mem(
        size,
        MemArgs::Mem2Args(MemArg::Reg(r, ValSize::Size64), MemArg::Imm(ImmType::Signed, ValSize::Size32, offset)),
    )
}

fn loc() -> LocIdx {
    LocIdx { addr: 0, idx: 0 }
}

#[test]
fn heap_entry_state_has_the_heap_base_in_rdi() {
    let s = heap().init_state();
    assert!(s.get_reg(X86Regs::Rdi, ValSize::Size64) == atom(HeapValue::HeapBase));
    assert_eq!(s.len(), 1);
    assert_eq!(s.stack_offset(), 0);
}

#[test]
fn heap_values_of_operands() {
    let a = heap();
    let mut s = a.init_state();
    assert!(a.aeval_unop(&s, &Value::Reg(X86Regs::Rax, ValSize::Size32)) == Ok(atom(HeapValue::Bounded4GB)));
    assert!(a.aeval_unop(&s, &Value::Reg(X86Regs::Rax, ValSize::Size8)) == Ok(atom(HeapValue::Bounded4GB)));
    assert!(a.aeval_unop(&s, &Value::Reg(X86Regs::Rax, ValSize::SizeOther)) == Ok(bot()));
    assert!(a.aeval_unop(&s, &reg64(X86Regs::Rax)) == Ok(bot()));
    assert!(a.aeval_unop(&s, &reg64(X86Regs::Rdi)) == Ok(atom(HeapValue::HeapBase)));
    assert!(a.aeval_unop(&s, &imm(0x5000)) == Ok(atom(HeapValue::GuestTable0)));
    assert!(a.aeval_unop(&s, &imm(0x6000)) == Ok(atom(HeapValue::LucetTables)));
    assert!(a.aeval_unop(&s, &imm(0)) == Ok(atom(HeapValue::Bounded4GB)));
    assert!(a.aeval_unop(&s, &imm(0xffff_ffff)) == Ok(atom(HeapValue::Bounded4GB)));
    assert!(a.aeval_unop(&s, &imm(0x1_0000_0000)) == Ok(bot()));
    assert!(a.aeval_unop(&s, &imm(-1)) == Ok(bot()));
    assert!(a.aeval_unop(&s, &Value::RIPConst) == Ok(bot()));
    assert!(a.aeval_unop(&s, &mem2(X86Regs::Rdi, 8, ValSize::Size64)) == Ok(atom(HeapValue::GlobalsBase)));
    assert!(a.aeval_unop(&s, &mem2(X86Regs::Rax, 8, ValSize::Size64)) == Ok(bot()));
    assert!(a.aeval_unop(&s, &mem1(X86Regs::Rdi, ValSize::Size64)) == Ok(bot()));
    assert_eq!(s.update_stack_slot(8, atom(HeapValue::HeapAddr), 8), Ok(()));
    assert!(a.aeval_unop(&s, &mem2(X86Regs::Rsp, 8, ValSize::Size64)) == Ok(atom(HeapValue::HeapAddr)));
    assert!(a.aeval_unop(&s, &mem2(X86Regs::Rsp, 8, ValSize::Size32)) == Ok(bot()));
    assert!(a.aeval_unop(&s, &mem2(X86Regs::Rsp, 8, ValSize::Size16)) == Err(StateError::LoadSize));
}

#[test]
fn globals_are_read_through_the_heap_base() {
    let s = heap().init_state();
    let through_rdi = MemArgs::Mem2Args(
        MemArg::Reg(X86Regs::Rdi, ValSize::Size64),
        MemArg::Imm(ImmType::Signed, ValSize::Size32, -8),
    );
    let through_rax = MemArgs::Mem2Args(
        MemArg::Reg(X86Regs::Rax, ValSize::Size64),
        MemArg::Imm(ImmType::Signed, ValSize::Size32, -8),
    );
    let narrow = MemArgs::Mem2Args(
        MemArg::Reg(X86Regs::Rdi, ValSize::Size32),
        MemArg::Imm(ImmType::Signed, ValSize::Size32, -8),
    );
    assert_eq!(is_globalbase_access(&s, &through_rdi), true);
    assert_eq!(is_globalbase_access(&s, &through_rax), false);
    assert_eq!(is_globalbase_access(&s, &narrow), false);
    assert_eq!(is_globalbase_access(&s, &MemArgs::Mem1Arg(MemArg::Reg(X86Regs::Rdi, ValSize::Size64))), false);
}

#[test]
fn heap_base_plus_a_bounded_number_is_a_heap_address() {
    let a = heap();
    let mut s = a.init_state();
    let mov = Stmt::Unop(Unopcode::Mov, reg64(X86Regs::Rcx), Value::Reg(X86Regs::Rax, ValSize::Size32));
    assert_eq!(a.aexec(&mut s, &mov, &loc()), Ok(()));
    assert!(s.get_reg(X86Regs::Rcx, ValSize::Size64) == atom(HeapValue::Bounded4GB));
    let add = Stmt::Binop(Binopcode::Add, reg64(X86Regs::Rdx), reg64(X86Regs::Rdi), reg64(X86Regs::Rcx));
    assert_eq!(a.aexec(&mut s, &add, &loc()), Ok(()));
    assert!(s.get_reg(X86Regs::Rdx, ValSize::Size64) == atom(HeapValue::HeapAddr));
    let swapped = Stmt::Binop(Binopcode::Add, reg64(X86Regs::Rbx), reg64(X86Regs::Rcx), reg64(X86Regs::Rdi));
    assert_eq!(a.aexec(&mut s, &swapped, &loc()), Ok(()));
    assert!(s.get_reg(X86Regs::Rbx, ValSize::Size64) == atom(HeapValue::HeapAddr));
    let other = Stmt::Binop(Binopcode::Add, reg64(X86Regs::Rdx), reg64(X86Regs::Rcx), reg64(X86Regs::Rcx));
    assert_eq!(a.aexec(&mut s, &other, &loc()), Ok(()));
    assert!(s.get_reg(X86Regs::Rdx, ValSize::Size64) == bot());
    let sub = Stmt::Binop(Binopcode::Sub, reg64(X86Regs::Rbx), reg64(X86Regs::Rdi), reg64(X86Regs::Rcx));
    assert_eq!(a.aexec(&mut s, &sub, &loc()), Ok(()));
    assert!(s.get_reg(X86Regs::Rbx, ValSize::Size64) == bot());
    let zf = Value::Reg(X86Regs::Zf, ValSize::Size8);
    let cmp = Stmt::Binop(Binopcode::Cmp, zf, reg64(X86Regs::Rdi), reg64(X86Regs::Rcx));
    assert_eq!(a.aexec(&mut s, &cmp, &loc()), Ok(()));
    assert!(s.get_reg(X86Regs::Rdi, ValSize::Size64) == atom(HeapValue::HeapBase));
    assert!(s.get_reg(X86Regs::Zf, ValSize::Size8) == bot());
    let clear = Stmt::Clear(reg64(X86Regs::Rdi), vec![]);
    assert_eq!(a.aexec(&mut s, &clear, &loc()), Ok(()));
    assert!(s.get_reg(X86Regs::Rdi, ValSize::Size64) == bot());
}

#[test]
fn heap_analysis_of_a_push_and_a_pop() {
    let a = heap();
    let mut s = a.init_state();
    let before = s.clone_state();
    let eight = imm(8);
    let top = mem1(X86Regs::Rsp, ValSize::Size64);
    let stmts = vec![
        Stmt::Binop(Binopcode::Sub, reg64(X86Regs::Rsp), reg64(X86Regs::Rsp), eight),
        Stmt::Unop(Unopcode::Mov, top, reg64(X86Regs::Rdi)),
        Stmt::Unop(Unopcode::Mov, reg64(X86Regs::Rdi), top),
        Stmt::Binop(Binopcode::Add, reg64(X86Regs::Rsp), reg64(X86Regs::Rsp), eight),
    ];
    for stmt in stmts.iter() {
        assert_eq!(a.aexec(&mut s, stmt, &loc()), Ok(()));
    }
    assert_eq!(s.stack_offset(), before.stack_offset());
    for reg in X86Regs::iter() {
        assert!(s.get_reg(reg, ValSize::Size64) == before.get_reg(reg, ValSize::Size64));
    }
    assert!(s.get_stack_slot(-8, 8) == Ok(atom(HeapValue::HeapBase)));
}

#[test]
fn a_call_clobbers_the_registers_of_the_heap_state() {
    let a = heap();
    let mut s = a.init_state();
    assert_eq!(a.aexec(&mut s, &Stmt::Call(imm(0x40)), &loc()), Ok(()));
    assert!(s.get_reg(X86Regs::Rdi, ValSize::Size64) == bot());
    assert_eq!(a.aexec(&mut s, &Stmt::Ret, &loc()), Ok(()));
    assert_eq!(
        a.aexec(&mut s, &Stmt::Unop(Unopcode::Mov, imm(1), imm(2)), &loc()),
        Err(StateError::WriteToImmediate)
    );
}

#[test]
fn stack_growth_transitions() {
    let a = StackAnalyzer {};
    let rsp = reg64(X86Regs::Rsp);
    let mut s = a.init_state();
    assert_eq!(s.v, Some((0, 0)));
    assert_eq!(a.aexec(&mut s, &Stmt::ProbeStack(0x1000), &loc()), Ok(()));
    assert_eq!(s.v, Some((0, 0x1000)));
    assert_eq!(a.aexec(&mut s, &Stmt::Binop(Binopcode::Sub, rsp, rsp, imm(24)), &loc()), Ok(()));
    assert_eq!(s.v, Some((24, 0x1000)));
    assert_eq!(a.aexec(&mut s, &Stmt::Binop(Binopcode::Add, rsp, rsp, imm(8)), &loc()), Ok(()));
    assert_eq!(s.v, Some((16, 0x1000)));
    assert_eq!(a.aexec(&mut s, &Stmt::Ret, &loc()), Ok(()));
    assert_eq!(a.aexec(&mut s, &Stmt::Call(imm(4)), &loc()), Ok(()));
    let rax = reg64(X86Regs::Rax);
    assert_eq!(a.aexec(&mut s, &Stmt::Binop(Binopcode::Add, rax, rsp, imm(8)), &loc()), Ok(()));
    assert_eq!(s.v, Some((16, 0x1000)));
    let mut unknown = StackGrowthLattice { v: None };
    assert_eq!(a.aexec(&mut unknown, &Stmt::ProbeStack(8), &loc()), Ok(()));
    assert_eq!(a.aexec(&mut unknown, &Stmt::Binop(Binopcode::Sub, rsp, rsp, imm(8)), &loc()), Ok(()));
    assert_eq!(unknown.v, None);
}

#[test]
fn other_writes_to_the_stack_pointer_are_errors() {
    let a = StackAnalyzer {};
    let rsp = reg64(X86Regs::Rsp);
    let esp = Value::Reg(X86Regs::Rsp, ValSize::Size32);
    let rax = reg64(X86Regs::Rax);
    let illegal = vec![
        Stmt::Unop(Unopcode::Mov, rsp, rax),
        Stmt::Clear(rsp, vec![]),
        Stmt::Binop(Binopcode::And, rsp, rsp, imm(8)),
        Stmt::Binop(Binopcode::Sub, rsp, rsp, imm(0)),
        Stmt::Binop(Binopcode::Add, rsp, rsp, imm(-8)),
        Stmt::Binop(Binopcode::Sub, rsp, rsp, rax),
        Stmt::Binop(Binopcode::Sub, rsp, rax, imm(8)),
        Stmt::Binop(Binopcode::Sub, esp, esp, imm(8)),
    ];
    for stmt in illegal.iter() {
        let mut s = a.init_state();
        assert_eq!(a.aexec(&mut s, stmt, &loc()), Err(StateError::IllegalRspWrite));
        let mut unknown = StackGrowthLattice { v: None };
        assert_eq!(a.aexec(&mut unknown, stmt, &loc()), Err(StateError::IllegalRspWrite));
    }
    let mut s = StackGrowthLattice { v: Some((i64::MAX - 4, i64::MAX)) };
    assert_eq!(
        a.aexec(&mut s, &Stmt::Binop(Binopcode::Sub, rsp, rsp, imm(8)), &loc()),
        Err(StateError::OffsetOverflow)
    );
    assert_eq!(a.aexec(&mut s, &Stmt::ProbeStack(1), &loc()), Err(StateError::OffsetOverflow));
}

#[test]
fn stack_checker_predicate() {
    let c = StackChecker {};
    let s = StackGrowthLattice { v: Some((8, 0x1000)) };
    let unknown = StackGrowthLattice { v: None };
    let load = |offset: i64| Stmt::Unop(Unopcode::Mov, reg64(X86Regs::Rax), mem2(X86Regs::Rsp, offset, ValSize::Size64));
    assert_eq!(c.check_statement(&s, &load(8), &loc()), true);
    assert_eq!(c.check_statement(&s, &load(-0x1000), &loc()), true);
    assert_eq!(c.check_statement(&s, &load(-0x1001), &loc()), false);
    assert_eq!(c.check_statement(&unknown, &load(8), &loc()), false);
    let heap_load = Stmt::Unop(Unopcode::Mov, reg64(X86Regs::Rax), mem2(X86Regs::Rdi, -0x2000, ValSize::Size64));
    assert_eq!(c.check_statement(&unknown, &heap_load, &loc()), true);
    let store = Stmt::Binop(Binopcode::Add, mem1(X86Regs::Rsp, ValSize::Size64), imm(1), imm(2));
    assert_eq!(c.check_statement(&s, &store, &loc()), true);
    assert_eq!(c.check_statement(&unknown, &store, &loc()), false);
    let clear = Stmt::Clear(reg64(X86Regs::Rax), vec![imm(1), mem2(X86Regs::Rsp, -0x2000, ValSize::Size64)]);
    assert_eq!(c.check_statement(&s, &clear, &loc()), false);
    assert_eq!(c.check_statement(&s, &Stmt::Ret, &loc()), false);
    assert_eq!(c.check_statement(&StackGrowthLattice { v: Some((0, 0)) }, &Stmt::Ret, &loc()), true);
    assert_eq!(c.check_statement(&unknown, &Stmt::Ret, &loc()), false);
    assert_eq!(c.check_statement(&unknown, &Stmt::Undefined, &loc()), true);
}

#[test]
fn heap_checker_predicate() {
    let a = heap();
    let c = HeapChecker {};
    let mut s = a.init_state();
    s.set_reg(X86Regs::Rax, ValSize::Size64, atom(HeapValue::HeapAddr));
    s.set_reg(X86Regs::Rbx, ValSize::Size64, atom(HeapValue::GlobalsBase));
    s.set_reg(X86Regs::Rcx, ValSize::Size64, atom(HeapValue::LucetTables));
    s.set_reg(X86Regs::Rdx, ValSize::Size64, atom(HeapValue::GuestTable0));
    s.set_reg(X86Regs::Rsi, ValSize::Size64, atom(HeapValue::Bounded4GB));
    let load = |v: Value| Stmt::Unop(Unopcode::Mov, reg64(X86Regs::R8), v);
    assert_eq!(c.check_statement(&s, &load(mem1(X86Regs::Rax, ValSize::Size32)), &loc()), true);
    assert_eq!(c.check_statement(&s, &load(mem2(X86Regs::Rbx, 8, ValSize::Size32)), &loc()), true);
    assert_eq!(c.check_statement(&s, &load(mem1(X86Regs::Rcx, ValSize::Size64)), &loc()), true);
    assert_eq!(c.check_statement(&s, &load(mem1(X86Regs::Rdx, ValSize::Size64)), &loc()), true);
    assert_eq!(c.check_statement(&s, &load(mem1(X86Regs::Rsi, ValSize::Size64)), &loc()), false);
    assert_eq!(c.check_statement(&s, &load(mem1(X86Regs::R9, ValSize::Size64)), &loc()), false);
    assert_eq!(c.check_statement(&s, &load(mem1(X86Regs::Rdi, ValSize::Size64)), &loc()), false);
    assert_eq!(c.check_statement(&s, &load(mem2(X86Regs::Rdi, 16, ValSize::Size64)), &loc()), true);
    assert_eq!(c.check_statement(&s, &load(mem2(X86Regs::Rsp, 16, ValSize::Size64)), &loc()), true);
    assert_eq!(c.check_statement(&s, &load(mem1(X86Regs::Rsp, ValSize::Size64)), &loc()), true);
    let absolute = Value::Mem(ValSize::Size64, MemArgs::Mem1Arg(MemArg::Imm(ImmType::Unsigned, ValSize::Size32, 64)));
    assert_eq!(c.check_statement(&s, &load(absolute), &loc()), false);
    let store = Stmt::Unop(Unopcode::Mov, mem1(X86Regs::Rsi, ValSize::Size64), imm(1));
    assert_eq!(c.check_statement(&s, &store, &loc()), false);
    let binop = Stmt::Binop(Binopcode::Add, reg64(X86Regs::R8), imm(1), mem1(X86Regs::Rsi, ValSize::Size64));
    assert_eq!(c.check_statement(&s, &binop, &loc()), false);
    let clear = Stmt::Clear(reg64(X86Regs::R8), vec![mem1(X86Regs::Rax, ValSize::Size64), mem1(X86Regs::Rsi, ValSize::Size64)]);
    assert_eq!(c.check_statement(&s, &clear, &loc()), false);
    assert_eq!(c.check_statement(&s, &Stmt::Call(mem1(X86Regs::Rsi, ValSize::Size64)), &loc()), true);
}

fn two_block_function() -> (Cfg, IRMap) {
    let rsp = reg64(X86Regs::Rsp);
    let mut irmap: IRMap = HashMap::new();
    irmap.insert(
        0x10,
        vec![
            (0x10, vec![Stmt::Binop(Binopcode::Sub, rsp, rsp, imm(8))]),
            (0x14, vec![Stmt::Unop(Unopcode::Mov, mem1(X86Regs::Rsp, ValSize::Size64), reg64(X86Regs::Rdi))]),
            (0x18, vec![Stmt::Branch(Opcode::JZ, imm(4))]),
        ],
    );
    irmap.insert(
        0x20,
        vec![
            (0x20, vec![Stmt::Unop(Unopcode::Mov, reg64(X86Regs::Rax), mem1(X86Regs::Rsp, ValSize::Size64))]),
            (0x24, vec![Stmt::Binop(Binopcode::Add, rsp, rsp, imm(8))]),
            (0x28, vec![Stmt::Ret]),
        ],
    );
    let mut edges: HashMap<u64, Vec<u64>> = HashMap::new();
    edges.insert(0x10, vec![0x20]);
    let cfg = Cfg {
        entrypoint: 0x10,
        blocks: vec![BasicBlock { start: 0x10, end: 0x20 }, BasicBlock { start: 0x20, end: 0x29 }],
        edges,
    };
    (cfg, irmap)
}

#[test]
fn worklist_over_two_blocks() {
    let (cfg, irmap) = two_block_function();
    let stack = StackAnalyzer {};
    let result = run_worklist(&cfg, &irmap, &stack, 100).unwrap();
    assert_eq!(result.len(), 2);
    assert_eq!(result[0].0, 0x10);
    assert_eq!(result[0].1.v, Some((0, 0)));
    assert_eq!(result[1].0, 0x20);
    assert_eq!(result[1].1.v, Some((8, 0)));
    assert_eq!(is_fixpoint(&cfg, &irmap, &stack, &result), true);
    // the accesses at [rsp] lie at offset 0, which is always within the probed region
    assert_eq!(check(&StackChecker {}, &stack, &result, &irmap), true);

    let a = heap();
    let result = run_worklist(&cfg, &irmap, &a, 100).unwrap();
    assert_eq!(result.len(), 2);
    assert_eq!(result[1].1.stack_offset(), -8);
    assert!(result[1].1.get_stack_slot(0, 8) == Ok(atom(HeapValue::HeapBase)));
    assert_eq!(check(&HeapChecker {}, &a, &result, &irmap), true);
    let after = analyze_block(&a, &result[1].1, &irmap[&0x20]).unwrap();
    assert!(after.get_reg(X86Regs::Rax, ValSize::Size64) == atom(HeapValue::HeapBase));
    assert_eq!(after.stack_offset(), 0);
}

#[test]
fn worklist_errors() {
    let (cfg, irmap) = two_block_function();
    let stack = StackAnalyzer {};
    assert_eq!(run_worklist(&cfg, &irmap, &stack, 1).err(), Some(WorklistError::OutOfFuel));
    assert_eq!(run_worklist(&cfg, &irmap, &stack, 0).err(), Some(WorklistError::OutOfFuel));
    let (mut cfg, irmap) = two_block_function();
    cfg.edges.insert(0x20, vec![0x30]);
    assert_eq!(run_worklist(&cfg, &irmap, &stack, 100).err(), Some(WorklistError::MissingBlock(0x30)));
    let (cfg, mut irmap) = two_block_function();
    irmap.insert(0x20, vec![(0x20, vec![Stmt::Clear(reg64(X86Regs::Rsp), vec![])])]);
    assert_eq!(
        run_worklist(&cfg, &irmap, &stack, 100).err(),
        Some(WorklistError::Malformed(StateError::IllegalRspWrite))
    );
}

#[test]
fn a_loop_reaches_a_fixpoint() {
    let mut irmap: IRMap = HashMap::new();
    irmap.insert(0x10, vec![(0x10, vec![Stmt::Unop(Unopcode::Mov, reg64(X86Regs::Rax), imm(1))])]);
    irmap.insert(
        0x20,
        vec![
            (0x20, vec![Stmt::Unop(Unopcode::Mov, reg64(X86Regs::Rax), reg64(X86Regs::Rbx))]),
            (0x24, vec![Stmt::Branch(Opcode::JNZ, imm(-4))]),
        ],
    );
    irmap.insert(0x30, vec![(0x30, vec![Stmt::Ret])]);
    let mut edges: HashMap<u64, Vec<u64>> = HashMap::new();
    edges.insert(0x10, vec![0x20]);
    edges.insert(0x20, vec![0x20, 0x30]);
    let cfg = Cfg {
        entrypoint: 0x10,
        blocks: vec![
            BasicBlock { start: 0x10, end: 0x20 },
            BasicBlock { start: 0x20, end: 0x30 },
            BasicBlock { start: 0x30, end: 0x31 },
        ],
        edges,
    };
    let a = heap();
    let result = run_worklist(&cfg, &irmap, &a, 100).unwrap();
    assert_eq!(result.len(), 3);
    // at the head of the loop rax is a bounded number on entry and unknown on the back edge
    assert!(result[1].1.get_reg(X86Regs::Rax, ValSize::Size64) == bot());
    assert!(result[1].1.get_reg(X86Regs::Rdi, ValSize::Size64) == atom(HeapValue::HeapBase));
    assert!(result[2].1.get_reg(X86Regs::Rdi, ValSize::Size64) == atom(HeapValue::HeapBase));
    assert_eq!(is_fixpoint(&cfg, &irmap, &a, &result), true);
    // a result that claims more than flows in is no solution
    let mut wrong: Vec<(u64, HeapLattice)> = result.iter().map(|(addr, s)| (*addr, s.clone_state())).collect();
    wrong[1].1.set_reg(X86Regs::Rax, ValSize::Size64, atom(HeapValue::HeapAddr));
    assert_eq!(is_fixpoint(&cfg, &irmap, &a, &wrong), false);
    let partial: Vec<(u64, HeapLattice)> = vec![(0x10, result[0].1.clone_state())];
    assert_eq!(is_fixpoint(&cfg, &irmap, &a, &partial), false);
    let empty: Vec<(u64, HeapLattice)> = vec![];
    assert_eq!(is_fixpoint(&cfg, &irmap, &a, &empty), false);
}

#[test]
fn checkers_reject_unsafe_functions() {
    let mut irmap: IRMap = HashMap::new();
    irmap.insert(
        0x10,
        vec![
            (0x10, vec![Stmt::Unop(Unopcode::Mov, reg64(X86Regs::Rax), mem1(X86Regs::Rbx, ValSize::Size64))]),
            (0x14, vec![Stmt::Unop(Unopcode::Mov, reg64(X86Regs::Rax), mem2(X86Regs::Rsp, -16, ValSize::Size64))]),
            (0x18, vec![Stmt::Ret]),
        ],
    );
    let cfg = Cfg { entrypoint: 0x10, blocks: vec![BasicBlock { start: 0x10, end: 0x19 }], edges: HashMap::new() };
    let a = heap();
    let heap_result = run_worklist(&cfg, &irmap, &a, 10).unwrap();
    assert_eq!(check(&HeapChecker {}, &a, &heap_result, &irmap), false);
    let stack = StackAnalyzer {};
    let stack_result = run_worklist(&cfg, &irmap, &stack, 10).unwrap();
    assert_eq!(check(&StackChecker {}, &stack, &stack_result, &irmap), false);
    // a block that was not lifted is never accepted
    let missing: Vec<(u64, StackGrowthLattice)> = vec![(0x50, StackGrowthLattice { v: Some((0, 0)) })];
    assert_eq!(check(&StackChecker {}, &stack, &missing, &irmap), false);
    let nothing: Vec<(u64, StackGrowthLattice)> = vec![];
    assert_eq!(check(&StackChecker {}, &stack, &nothing, &irmap), true);
}
