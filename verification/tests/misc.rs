use std::collections::HashMap;
use veriwasm::analyses::heap_analyzer::HeapAnalyzer;
use veriwasm::analyses::worklist::{find_state, run_worklist, successors_of, BasicBlock, Cfg, WorklistError};
use veriwasm::ir::instr::Opcode;
use veriwasm::ir::types::{
    Binopcode, ImmType, MemArg, MemArgs, Stmt, ValSize, Value, VwMetadata, X86Regs,
};
use veriwasm::ir::utils::{
    extract_stack_offset, get_imm_offset, is_mem_access, is_partial_rsp, is_rsp, is_stack_access,
};
use veriwasm::ir::x64::IRMap;
use veriwasm::lattices::regslattice::X86RegsLattice;
use veriwasm::lattices::state_lattice::StateError;
use veriwasm::lattices::{BooleanLattice, Lattice, Semilattice};
use veriwasm::loaders::wasmtime::is_valid_wasmtime_func_name;
use veriwasm::analyses::worklist::order_successors;

#[test]
fn trampolines_are_not_verified() {
    assert_eq!(is_valid_wasmtime_func_name(&String::from("_trampoline_0")), false);
    assert_eq!(is_valid_wasmtime_func_name(&String::from("_trampoline")), false);
    assert_eq!(is_valid_wasmtime_func_name(&String::from("_trampolin")), true);
    assert_eq!(is_valid_wasmtime_func_name(&String::from("guest_func_7")), true);
    assert_eq!(is_valid_wasmtime_func_name(&String::from("x_trampoline_0")), true);
    assert_eq!(is_valid_wasmtime_func_name(&String::from("_Trampoline_0")), true);
    assert_eq!(is_valid_wasmtime_func_name(&String::from("")), true);
    assert_eq!(is_valid_wasmtime_func_name(&String::from("_trampolinë")), true);
    assert_eq!(is_valid_wasmtime_func_name(&String::from("_trampolineë")), false);
    assert_eq!(is_valid_wasmtime_func_name(&String::from("_trämpoline_and_more")), true);
}

#[test]
fn questions_about_values() {
    let rsp = Value::Reg(X86Regs::Rsp, ValSize::Size64);
    let esp = Value::Reg(X86Regs::Rsp, ValSize::Size32);
    let rax = Value::Reg(X86Regs::Rax, ValSize::Size64);
    let imm = Value::Imm(ImmType::Signed, ValSize::Size32, -24);
    assert_eq!(is_rsp(&rsp), true);
    assert_eq!(is_rsp(&esp), false);
    assert_eq!(is_rsp(&rax), false);
    assert_eq!(is_partial_rsp(&esp), true);
    assert_eq!(is_partial_rsp(&rsp), false);
    assert_eq!(is_partial_rsp(&imm), false);
    assert_eq!(get_imm_offset(&imm), Some(-24));
    assert_eq!(get_imm_offset(&rax), None);
    let top = MemArgs::Mem1Arg(MemArg::Reg(X86Regs::Rsp, ValSize::Size64));
    let slot = MemArgs::Mem2Args(
        MemArg::Reg(X86Regs::Rsp, ValSize::Size64),
        MemArg::Imm(ImmType::Signed, ValSize::Size32, -24),
    );
    let indexed = MemArgs::Mem2Args(
        MemArg::Reg(X86Regs::Rsp, ValSize::Size64),
        MemArg::Reg(X86Regs::Rax, ValSize::Size64),
    );
    let heap = MemArgs::Mem2Args(
        MemArg::Reg(X86Regs::Rdi, ValSize::Size64),
        MemArg::Imm(ImmType::Signed, ValSize::Size32, -24),
    );
    assert_eq!(extract_stack_offset(&top), Some(0));
    assert_eq!(extract_stack_offset(&slot), Some(-24));
    assert_eq!(extract_stack_offset(&indexed), None);
    assert_eq!(extract_stack_offset(&heap), None);
    assert_eq!(is_stack_access(&Value::Mem(ValSize::Size64, slot)), true);
    assert_eq!(is_stack_access(&Value::Mem(ValSize::Size64, heap)), false);
    assert_eq!(is_stack_access(&rsp), false);
    assert_eq!(is_mem_access(&Value::Mem(ValSize::Size64, heap)), true);
    assert_eq!(is_mem_access(&Value::RIPConst), false);
}

fn t() -> BooleanLattice {
    BooleanLattice { v: true }
}

fn f() -> BooleanLattice {
    BooleanLattice { v: false }
}

#[test]
fn register_record_by_number() {
    let mut regs: X86RegsLattice<BooleanLattice> = X86RegsLattice::bot();
    assert!(regs == X86RegsLattice::default());
    assert_eq!(regs.set(&0, &ValSize::Size64, t()), Ok(()));
    assert_eq!(regs.set(&1, &ValSize::Size64, t()), Ok(()));
    assert_eq!(regs.set(&4, &ValSize::Size64, t()), Ok(()));
    assert_eq!(regs.set(&12, &ValSize::Size64, t()), Ok(()));
    assert_eq!(regs.set(&16, &ValSize::Size8, t()), Ok(()));
    assert_eq!(regs.set(&3, &ValSize::SizeOther, t()), Ok(()));
    assert_eq!(regs.set(&17, &ValSize::Size64, t()), Err(StateError::UnknownRegister));
    assert_eq!(regs.rax.v, true);
    assert_eq!(regs.rcx.v, true);
    assert_eq!(regs.rsp.v, true);
    assert_eq!(regs.r12.v, true);
    assert_eq!(regs.zf.v, true);
    assert_eq!(regs.rbx.v, false);
    assert!(regs.get(&0, &ValSize::Size64) == Ok(t()));
    assert!(regs.get(&1, &ValSize::Size64) == Ok(t()));
    assert!(regs.get(&2, &ValSize::Size64) == Ok(f()));
    assert!(regs.get(&0, &ValSize::SizeOther) == Ok(f()));
    assert!(regs.get(&17, &ValSize::Size64) == Err(StateError::UnknownRegister));
    let shown = regs.show();
    let numbers: Vec<u8> = shown.iter().map(|(number, _)| *number).collect();
    // the stack pointer holds a value too, and is not shown
    assert_eq!(numbers, vec![0, 1, 12, 16]);
    assert!(shown.iter().all(|(_, value)| *value == t()));
    assert_eq!(X86RegsLattice::<BooleanLattice>::bot().show().len(), 0);
    let mut after_call = regs;
    after_call.clear_caller_save_regs();
    assert_eq!(after_call.rax.v, false);
    assert_eq!(after_call.rcx.v, false);
    assert_eq!(after_call.zf.v, false);
    assert_eq!(after_call.rsp.v, true);
    assert_eq!(after_call.r12.v, true);
    regs.clear_regs();
    assert_eq!(regs.r12.v, false);
    assert_eq!(regs.rax.v, false);
    assert_eq!(regs.rsp.v, true);
    assert!(after_call.leq(&after_call));
    assert!(regs.leq(&after_call));
    assert!(!after_call.leq(&regs));
    assert!(regs.duplicate() == regs);
}

#[test]
fn blocks_that_join_with_different_stack_offsets_have_no_solution() {
    let rsp = Value::Reg(X86Regs::Rsp, ValSize::Size64);
    let eight = Value::Imm(ImmType::Signed, ValSize::Size64, 8);
    let mut irmap: IRMap = HashMap::new();
    irmap.insert(0x10, vec![(0x10, vec![Stmt::Branch(Opcode::JZ, eight)])]);
    irmap.insert(0x20, vec![(0x20, vec![Stmt::Binop(Binopcode::Sub, rsp, rsp, eight)])]);
    irmap.insert(0x30, vec![(0x30, vec![Stmt::Ret])]);
    let mut edges: HashMap<u64, Vec<u64>> = HashMap::new();
    edges.insert(0x10, vec![0x20, 0x30]);
    edges.insert(0x20, vec![0x30]);
    let cfg = Cfg {
        entrypoint: 0x10,
        blocks: vec![
            BasicBlock { start: 0x10, end: 0x12 },
            BasicBlock { start: 0x20, end: 0x24 },
            BasicBlock { start: 0x30, end: 0x31 },
        ],
        edges,
    };
    let a = HeapAnalyzer { metadata: VwMetadata { guest_table_0: 0, lucet_tables: 0, lucet_probestack: 0 } };
    assert_eq!(run_worklist(&cfg, &irmap, &a, 100).err(), Some(WorklistError::NotAFixpoint));
    assert_eq!(successors_of(&cfg, 0x10), vec![0x20, 0x30]);
    assert_eq!(successors_of(&cfg, 0x30), Vec::<u64>::new());
    let listed = vec![(0x10u64, f()), (0x20, t()), (0x10, t())];
    assert_eq!(find_state(&listed, 0x10), Some(0));
    assert_eq!(find_state(&listed, 0x20), Some(1));
    assert_eq!(find_state(&listed, 0x30), None);
}

#[test]
fn successors_are_ordered_with_the_fall_through_first() {
    assert_eq!(order_successors(&vec![0x40, 0x20, 0x30], 0x20), vec![0x20, 0x40, 0x30]);
    assert_eq!(order_successors(&vec![0x20, 0x40], 0x20), vec![0x20, 0x40]);
    assert_eq!(order_successors(&vec![0x40, 0x30], 0x20), vec![0x40, 0x30]);
    assert_eq!(order_successors(&vec![], 0x20), Vec::<u64>::new());
    let mut cfg = Cfg::new(0x10);
    cfg.add_block(BasicBlock { start: 0x10, end: 0x20 }, &vec![0x40, 0x20]);
    cfg.add_block(BasicBlock { start: 0x20, end: 0x24 }, &vec![]);
    assert_eq!(cfg.entrypoint, 0x10);
    assert_eq!(cfg.blocks, vec![BasicBlock { start: 0x10, end: 0x20 }, BasicBlock { start: 0x20, end: 0x24 }]);
    assert_eq!(successors_of(&cfg, 0x10), vec![0x20, 0x40]);
    assert_eq!(successors_of(&cfg, 0x20), Vec::<u64>::new());
    assert_eq!(cfg.default_fuel(), 2 * 256 + 1024);
    assert_eq!(Cfg::new(0).default_fuel(), 1024);
}
