use std::collections::HashMap;
use veriwasm::analyses::call_analyzer::{find_size_check, CallAnalyzer};
use veriwasm::analyses::reaching_defs::ReachingDefnAnalyzer;
use veriwasm::analyses::worklist::{run_worklist, BasicBlock, Cfg};
use veriwasm::analyses::{analyze_block, AbstractAnalyzer};
use veriwasm::checkers::call_checker::CallChecker;
use veriwasm::checkers::{check, Checker};
use veriwasm::ir::instr::Opcode;
use veriwasm::ir::types::{
    Binopcode, ImmType, LocIdx, MemArg, MemArgs, Stmt, Unopcode, ValSize, Value, VwMetadata, X86Regs,
};
use veriwasm::ir::x64::IRMap;
use veriwasm::lattices::call_lattice::{CallCheckValue, CallCheckValueLattice};
use veriwasm::lattices::state_lattice::StateError;
use veriwasm::lattices::ConstLattice;
use veriwasm::analyses::worklist::WorklistError;
use veriwasm::checkers::verdict::{check_function, Property, Verdict};

fn analyzer() -> CallAnalyzer {
    CallAnalyzer { metadata: VwMetadata { guest_table_0: 0x5000, lucet_tables: 0x6000, lucet_probestack: 0x9000 } }
}

fn atom(v: CallCheckValue) -> CallCheckValueLattice {
    ConstLattice { v: Some(v) }
}

fn bot() -> CallCheckValueLattice {
    ConstLattice { v: None }
}

fn reg64(r: X86Regs) -> Value {
    Value::Reg(r, ValSize::Size64)
}

fn imm(n: i64) -> Value {
    Value::Imm(ImmType::Signed, ValSize::Size64, n)
}

fn r(reg: X86Regs) -> MemArg {
    MemArg::Reg(reg, ValSize::Size64)
}

fn c(n: i64) -> MemArg {
    MemArg::Imm(ImmType::Signed, ValSize::Size32, n)
}

fn loc() -> LocIdx {
    LocIdx { addr: 0x100, idx: 0 }
}

// mov rdx, lucet_tables; mov rcx, [rdx + 8]; cmp rsi, rcx; jnb trap
fn check_block() -> Vec<(u64, Vec<Stmt>)> {
    let zf = Value::Reg(X86Regs::Zf, ValSize::Size8);
    vec![
        (0x100, vec![Stmt::Unop(Unopcode::Mov, reg64(X86Regs::Rdx), imm(0x6000))]),
        (
            0x107,
            vec![Stmt::Unop(
                Unopcode::Mov,
                reg64(X86Regs::Rcx),
                Value::Mem(ValSize::Size64, MemArgs::Mem2Args(r(X86Regs::Rdx), c(8))),
            )],
        ),
        (0x10b, vec![Stmt::Binop(Binopcode::Cmp, zf, reg64(X86Regs::Rsi), reg64(X86Regs::Rcx))]),
        (0x10e, vec![Stmt::Branch(Opcode::JNB, imm(0x40))]),
    ]
}

// shl rsi, 4; mov rdx, guest_table_0; mov rax, [rdx + rsi + 8]; call rax; call $+0x20
fn call_block() -> Vec<(u64, Vec<Stmt>)> {
    vec![
        (0x110, vec![Stmt::Binop(Binopcode::Shl, reg64(X86Regs::Rsi), reg64(X86Regs::Rsi), imm(4))]),
        (0x114, vec![Stmt::Unop(Unopcode::Mov, reg64(X86Regs::Rdx), imm(0x5000))]),
        (
            0x11b,
            vec![Stmt::Unop(
                Unopcode::Mov,
                reg64(X86Regs::Rax),
                Value::Mem(ValSize::Size64, MemArgs::Mem3Args(r(X86Regs::Rdx), r(X86Regs::Rsi), c(8))),
            )],
        ),
        (0x120, vec![Stmt::Call(reg64(X86Regs::Rax))]),
        (0x122, vec![Stmt::Call(imm(0x20))]),
        (0x127, vec![Stmt::Ret]),
    ]
}

fn function() -> (Cfg, IRMap) {
    let mut irmap: IRMap = HashMap::new();
    irmap.insert(0x100, check_block());
    irmap.insert(0x110, call_block());
    irmap.insert(0x150, vec![(0x150, vec![Stmt::Undefined])]);
    let mut edges: HashMap<u64, Vec<u64>> = HashMap::new();
    edges.insert(0x100, vec![0x110, 0x150]);
    let cfg = Cfg {
        entrypoint: 0x100,
        blocks: vec![
            BasicBlock { start: 0x100, end: 0x110 },
            BasicBlock { start: 0x110, end: 0x128 },
            BasicBlock { start: 0x150, end: 0x152 },
        ],
        edges,
    };
    (cfg, irmap)
}

#[test]
fn call_values_of_operands() {
    let a = analyzer();
    let mut s = a.init_state();
    assert!(a.aeval_unop(&s, &imm(0x5000)) == Ok(atom(CallCheckValue::GuestTableBase)));
    assert!(a.aeval_unop(&s, &imm(0x6000)) == Ok(atom(CallCheckValue::LucetTablesBase)));
    assert!(a.aeval_unop(&s, &imm(0x7000)) == Ok(bot()));
    assert!(a.aeval_unop(&s, &Value::RIPConst) == Ok(bot()));
    s.set_reg(X86Regs::Rdx, ValSize::Size64, atom(CallCheckValue::LucetTablesBase));
    let size = MemArgs::Mem2Args(r(X86Regs::Rdx), c(8));
    assert_eq!(a.is_table_size(&s, &size), true);
    assert_eq!(a.is_table_size(&s, &MemArgs::Mem2Args(r(X86Regs::Rdx), c(16))), false);
    assert_eq!(a.is_table_size(&s, &MemArgs::Mem2Args(r(X86Regs::Rax), c(8))), false);
    assert!(a.aeval_unop(&s, &Value::Mem(ValSize::Size64, size)) == Ok(atom(CallCheckValue::TableSize)));
    s.set_reg(X86Regs::Rdx, ValSize::Size64, atom(CallCheckValue::GuestTableBase));
    s.set_reg(X86Regs::Rsi, ValSize::Size64, atom(CallCheckValue::PtrOffset));
    let entry = MemArgs::Mem3Args(r(X86Regs::Rdx), r(X86Regs::Rsi), c(8));
    let swapped = MemArgs::Mem3Args(r(X86Regs::Rsi), r(X86Regs::Rdx), c(8));
    assert_eq!(a.is_fn_ptr(&s, &entry), true);
    assert_eq!(a.is_fn_ptr(&s, &swapped), true);
    assert_eq!(a.is_fn_ptr(&s, &MemArgs::Mem3Args(r(X86Regs::Rdx), r(X86Regs::Rsi), c(0))), false);
    assert_eq!(a.is_fn_ptr(&s, &MemArgs::Mem3Args(r(X86Regs::Rdx), r(X86Regs::Rdx), c(8))), false);
    assert!(a.aeval_unop(&s, &Value::Mem(ValSize::Size64, entry)) == Ok(atom(CallCheckValue::FnPtr)));
    let stack = Value::Mem(ValSize::Size16, MemArgs::Mem1Arg(r(X86Regs::Rsp)));
    assert!(a.aeval_unop(&s, &stack) == Err(StateError::LoadSize));
}

#[test]
fn a_checked_index_scaled_by_sixteen_is_an_offset() {
    let a = analyzer();
    let mut s = a.init_state();
    s.set_reg(X86Regs::Rsi, ValSize::Size64, atom(CallCheckValue::CheckedVal));
    let shl = Stmt::Binop(Binopcode::Shl, reg64(X86Regs::Rdi), reg64(X86Regs::Rsi), imm(4));
    assert_eq!(a.aexec(&mut s, &shl, &loc()), Ok(()));
    assert!(s.get_reg(X86Regs::Rdi, ValSize::Size64) == atom(CallCheckValue::PtrOffset));
    let by_three = Stmt::Binop(Binopcode::Shl, reg64(X86Regs::Rdi), reg64(X86Regs::Rsi), imm(3));
    assert_eq!(a.aexec(&mut s, &by_three, &loc()), Ok(()));
    assert!(s.get_reg(X86Regs::Rdi, ValSize::Size64) == bot());
    let unchecked = Stmt::Binop(Binopcode::Shl, reg64(X86Regs::Rdi), reg64(X86Regs::Rax), imm(4));
    assert_eq!(a.aexec(&mut s, &unchecked, &loc()), Ok(()));
    assert!(s.get_reg(X86Regs::Rdi, ValSize::Size64) == bot());
    let add = Stmt::Binop(Binopcode::Add, reg64(X86Regs::Rsi), reg64(X86Regs::Rsi), imm(1));
    assert_eq!(a.aexec(&mut s, &add, &loc()), Ok(()));
    assert!(s.get_reg(X86Regs::Rsi, ValSize::Size64) == bot());
}

#[test]
fn size_checks_at_the_end_of_a_block() {
    assert_eq!(find_size_check(&check_block()), Some((X86Regs::Rsi, ValSize::Size64, X86Regs::Rcx, false)));
    assert_eq!(find_size_check(&call_block()), None);
    let mut with_ja = check_block();
    with_ja[3].1 = vec![Stmt::Branch(Opcode::JA, imm(0x40))];
    assert_eq!(find_size_check(&with_ja), None);
    let mut with_jb = check_block();
    with_jb[3].1 = vec![Stmt::Branch(Opcode::JB, imm(0x40))];
    assert_eq!(find_size_check(&with_jb), Some((X86Regs::Rsi, ValSize::Size64, X86Regs::Rcx, true)));
}

#[test]
fn indirect_calls_through_the_table_are_accepted() {
    let (cfg, irmap) = function();
    let a = analyzer();
    let result = run_worklist(&cfg, &irmap, &a, 100).unwrap();
    assert_eq!(result.len(), 3);
    assert!(result[1].1.get_reg(X86Regs::Rsi, ValSize::Size64) == atom(CallCheckValue::CheckedVal));
    assert!(result[2].1.get_reg(X86Regs::Rsi, ValSize::Size64) == bot());
    let checker = CallChecker { code_start: 0x100, code_end: 0x200 };
    assert_eq!(check(&checker, &a, &result, &irmap), true);
    // a direct call that leaves the module is rejected
    let narrow = CallChecker { code_start: 0x100, code_end: 0x140 };
    assert_eq!(check(&narrow, &a, &result, &irmap), false);
}

#[test]
fn an_unchecked_index_is_rejected() {
    let (mut cfg, irmap) = function();
    // without the edge from the check the call block is reached with nothing known
    cfg.entrypoint = 0x110;
    let a = analyzer();
    let result = run_worklist(&cfg, &irmap, &a, 100).unwrap();
    let checker = CallChecker { code_start: 0x100, code_end: 0x200 };
    assert_eq!(check(&checker, &a, &result, &irmap), false);
}

#[test]
fn call_checker_predicate() {
    let a = analyzer();
    let checker = CallChecker { code_start: 0x1000, code_end: 0x2000 };
    let mut s = a.init_state();
    s.set_reg(X86Regs::Rax, ValSize::Size64, atom(CallCheckValue::FnPtr));
    s.set_reg(X86Regs::Rbx, ValSize::Size64, atom(CallCheckValue::GuestTableBase));
    let at = |addr: u64| LocIdx { addr, idx: 0 };
    assert_eq!(checker.check_statement(&s, &Stmt::Call(reg64(X86Regs::Rax)), &at(0x1000)), true);
    assert_eq!(checker.check_statement(&s, &Stmt::Call(reg64(X86Regs::Rbx)), &at(0x1000)), false);
    assert_eq!(checker.check_statement(&s, &Stmt::Call(reg64(X86Regs::Rcx)), &at(0x1000)), false);
    assert_eq!(checker.check_statement(&s, &Stmt::Call(imm(0x10)), &at(0x1000)), true);
    assert_eq!(checker.check_statement(&s, &Stmt::Call(imm(-5)), &at(0x1000)), true);
    assert_eq!(checker.check_statement(&s, &Stmt::Call(imm(-6)), &at(0x1000)), false);
    assert_eq!(checker.check_statement(&s, &Stmt::Call(imm(0xffa)), &at(0x1000)), true);
    assert_eq!(checker.check_statement(&s, &Stmt::Call(imm(0xffb)), &at(0x1000)), false);
    assert_eq!(checker.check_statement(&s, &Stmt::Call(imm(i64::MAX)), &at(u64::MAX)), false);
    let through_memory = Value::Mem(ValSize::Size64, MemArgs::Mem1Arg(r(X86Regs::Rax)));
    assert_eq!(checker.check_statement(&s, &Stmt::Call(through_memory), &at(0x1000)), false);
    assert_eq!(checker.check_statement(&s, &Stmt::Call(Value::RIPConst), &at(0x1000)), false);
    assert_eq!(checker.check_statement(&s, &Stmt::Ret, &at(0x1000)), true);
}

#[test]
fn reaching_definitions() {
    let a = ReachingDefnAnalyzer {};
    let block = call_block();
    let after = analyze_block(&a, &a.init_state(), &block[..3].to_vec()).unwrap();
    assert_eq!(after.get_reg(X86Regs::Rsi, ValSize::Size64).v, Some(LocIdx { addr: 0x110, idx: 0 }));
    assert_eq!(after.get_reg(X86Regs::Rdx, ValSize::Size64).v, Some(LocIdx { addr: 0x114, idx: 0 }));
    assert_eq!(after.get_reg(X86Regs::Rax, ValSize::Size64).v, Some(LocIdx { addr: 0x11b, idx: 0 }));
    assert_eq!(after.get_reg(X86Regs::Rbx, ValSize::Size64).v, None);
    // a call clobbers the registers
    let behind_call = analyze_block(&a, &a.init_state(), &block).unwrap();
    assert_eq!(behind_call.get_reg(X86Regs::Rax, ValSize::Size64).v, None);
    // two statements of one instruction are told apart by their index
    let two = vec![(
        0x10,
        vec![
            Stmt::Clear(reg64(X86Regs::Rax), vec![]),
            Stmt::Clear(reg64(X86Regs::Rdx), vec![]),
            Stmt::Clear(reg64(X86Regs::Rax), vec![]),
        ],
    )];
    let s = analyze_block(&a, &a.init_state(), &two).unwrap();
    assert_eq!(s.get_reg(X86Regs::Rax, ValSize::Size64).v, Some(LocIdx { addr: 0x10, idx: 2 }));
    assert_eq!(s.get_reg(X86Regs::Rdx, ValSize::Size64).v, Some(LocIdx { addr: 0x10, idx: 1 }));
    // where two definitions flow together none is known
    let (cfg, mut irmap) = function();
    irmap.insert(0x100, vec![(0x100, vec![Stmt::Clear(reg64(X86Regs::Rax), vec![])])]);
    irmap.insert(0x110, vec![(0x110, vec![Stmt::Clear(reg64(X86Regs::Rax), vec![])])]);
    let mut cfg = cfg;
    cfg.edges.insert(0x110, vec![0x150]);
    let result = run_worklist(&cfg, &irmap, &a, 100).unwrap();
    assert_eq!(result[2].0, 0x150);
    assert_eq!(result[2].1.get_reg(X86Regs::Rax, ValSize::Size64).v, None);
    assert_eq!(result[1].1.get_reg(X86Regs::Rax, ValSize::Size64).v, Some(LocIdx { addr: 0x100, idx: 0 }));
}

#[test]
fn verdict_on_a_function() {
    let md = VwMetadata { guest_table_0: 0x5000, lucet_tables: 0x6000, lucet_probestack: 0x9000 };
    let (cfg, irmap) = function();
    assert_eq!(check_function(&cfg, &irmap, &md, 0x100, 0x200, 100), Verdict::Accepted);
    assert_eq!(check_function(&cfg, &irmap, &md, 0x100, 0x140, 100), Verdict::Unsafe(Property::Call));
    assert_eq!(
        check_function(&cfg, &irmap, &md, 0x100, 0x200, 1),
        Verdict::NoSolution(Property::Stack, WorklistError::OutOfFuel)
    );
    let (cfg, mut irmap) = function();
    let rsp = reg64(X86Regs::Rsp);
    irmap.insert(0x150, vec![(0x150, vec![Stmt::Binop(Binopcode::Sub, rsp, rsp, imm(8))]), (0x154, vec![Stmt::Ret])]);
    assert_eq!(check_function(&cfg, &irmap, &md, 0x100, 0x200, 100), Verdict::Unsafe(Property::Stack));
    let (cfg, mut irmap) = function();
    let load = Value::Mem(ValSize::Size64, MemArgs::Mem1Arg(r(X86Regs::Rbx)));
    irmap.insert(0x150, vec![(0x150, vec![Stmt::Unop(Unopcode::Mov, reg64(X86Regs::Rax), load)])]);
    assert_eq!(check_function(&cfg, &irmap, &md, 0x100, 0x200, 100), Verdict::Unsafe(Property::Heap));
}
