use std::collections::HashMap;
use veriwasm::analyses::stack_analyzer::StackAnalyzer;
use veriwasm::analyses::switch_analyzer::SwitchAnalyzer;
use veriwasm::analyses::worklist::{run_worklist, BasicBlock, Cfg};
use veriwasm::analyses::{analyze_block, AbstractAnalyzer};
use veriwasm::checkers::jump_resolver::{resolve_jumps, ResolveError};
use veriwasm::ir::instr::{Direction, Instr, Location, LocationUse, Opcode, Operand, RegClass, RegSpec};
use veriwasm::ir::types::{
    Binopcode, ImmType, MemArg, MemArgs, Stmt, Unopcode, ValSize, Value, VwMetadata, X86Regs,
};
use veriwasm::ir::x64::{lift, lift_cfg, parse_instrs};
use yaxpeax_arch::{AddressBase, LengthedInstruction};
use yaxpeax_core::arch::x86_64::analyses::data_flow::Location as YLocation;
use yaxpeax_core::data::{Direction as YDirection, ValueLocations};
use yaxpeax_core::goblin::container::Ctx;
use yaxpeax_core::goblin::elf::header::Header;
use yaxpeax_core::memory::repr::process::{ISAHint, ModuleData, ModuleInfo, Segment};
use yaxpeax_x86::long_mode::{
    Arch as AMD64, InstDecoder, Instruction, Operand as YOperand, RegSpec as YRegSpec,
};

fn regspec(reg: YRegSpec) -> RegSpec {
    RegSpec { num: reg.num(), class: RegClass::from_name(reg.class().name()).unwrap() }
}

fn operand(op: YOperand) -> Operand {
    match op {
        YOperand::ImmediateI8(imm) => Operand::ImmediateI8(imm),
        YOperand::ImmediateI32(imm) => Operand::ImmediateI32(imm),
        YOperand::Register(reg) => Operand::Register(regspec(reg)),
        YOperand::RegDeref(reg) => Operand::RegDeref(regspec(reg)),
        YOperand::RegDisp(reg, disp) => Operand::RegDisp(regspec(reg), disp),
        YOperand::RegIndexBaseScale(base, index, scale) => {
            Operand::RegIndexBaseScale(regspec(base), regspec(index), scale)
        }
        _ => panic!("an operand form that these tests do not use"),
    }
}

fn model(instr: &Instruction) -> Instr {
    let locations = <AMD64 as ValueLocations>::decompose(instr)
        .into_iter()
        .map(|(location, direction)| LocationUse {
            location: match location {
                Some(YLocation::Register(reg)) => Location::Register(regspec(reg)),
                Some(YLocation::ZF) => Location::ZF,
                Some(YLocation::CF) => Location::CF,
                _ => Location::Other,
            },
            direction: match direction {
                YDirection::Read => Direction::Read,
                YDirection::Write => Direction::Write,
            },
        })
        .collect();
    Instr {
        opcode: Opcode::from_mnemonic(&instr.opcode().to_string()),
        operands: (0..instr.operand_count()).map(|i| operand(instr.operand(i))).collect(),
        length: 0u64.wrapping_offset(instr.len()).to_linear() as u8,
        locations,
    }
}

// Decodes the instructions of a block that starts at the given address.
fn decode(start: u64, bytes: &[u8]) -> Vec<(u64, Instr)> {
    let decoder = InstDecoder::default();
    let mut out = Vec::new();
    let mut at: usize = 0;
    while at < bytes.len() {
        let instr = decoder.decode_slice(&bytes[at..]).unwrap();
        let decoded = model(&instr);
        let length = decoded.length as usize;
        out.push((start + at as u64, decoded));
        at += length;
    }
    out
}

fn metadata(probestack: u64) -> VwMetadata {
    VwMetadata { guest_table_0: 0x5000, lucet_tables: 0x6000, lucet_probestack: probestack }
}

fn reg64(r: X86Regs) -> Value {
    Value::Reg(r, ValSize::Size64)
}

fn stack_top() -> Value {
    Value::Mem(ValSize::Size64, MemArgs::Mem1Arg(MemArg::Reg(X86Regs::Rsp, ValSize::Size64)))
}

#[test]
fn decoded_push_and_pop() {
    let block = decode(0x10, &[0x53, 0x5b]);
    assert_eq!(block.len(), 2);
    let eight = Value::Imm(ImmType::Signed, ValSize::Size64, 8);
    assert_eq!(
        lift(&block[0].1, &block[0].0, &metadata(0)),
        Ok(vec![
            Stmt::Binop(Binopcode::Sub, reg64(X86Regs::Rsp), reg64(X86Regs::Rsp), eight),
            Stmt::Unop(Unopcode::Mov, stack_top(), reg64(X86Regs::Rbx)),
        ])
    );
    assert_eq!(
        lift(&block[1].1, &block[1].0, &metadata(0)),
        Ok(vec![
            Stmt::Unop(Unopcode::Mov, reg64(X86Regs::Rbx), stack_top()),
            Stmt::Binop(Binopcode::Add, reg64(X86Regs::Rsp), reg64(X86Regs::Rsp), eight),
        ])
    );
}

#[test]
fn decoded_xor_of_a_register_with_itself() {
    let block = decode(0x10, &[0x31, 0xc0]);
    let stmts = lift(&block[0].1, &0x10, &metadata(0)).unwrap();
    assert_eq!(stmts.len(), 2);
    assert_eq!(
        stmts[0],
        Stmt::Unop(
            Unopcode::Mov,
            Value::Reg(X86Regs::Rax, ValSize::Size32),
            Value::Imm(ImmType::Signed, ValSize::Size64, 0)
        )
    );
    match &stmts[1] {
        Stmt::Clear(dst, _) => assert_eq!(*dst, Value::Reg(X86Regs::Zf, ValSize::Size8)),
        other => panic!("{:?}", other),
    }
}

#[test]
fn decoded_lea_relative_to_the_instruction_pointer() {
    let block = decode(0x4000, &[0x48, 0x8d, 0x0d, 0x20, 0x00, 0x00, 0x00]);
    assert_eq!(block[0].1.length, 7);
    assert_eq!(
        lift(&block[0].1, &0x4000, &metadata(0)),
        Ok(vec![Stmt::Unop(
            Unopcode::Mov,
            reg64(X86Regs::Rcx),
            Value::Imm(ImmType::Signed, ValSize::Size64, 0x4000 + 7 + 0x20)
        )])
    );
}

#[test]
fn decoded_probestack_idiom() {
    // mov eax, 0x1000; call $+0x10; sub rsp, rax
    let bytes = [0xb8, 0x00, 0x10, 0x00, 0x00, 0xe8, 0x10, 0x00, 0x00, 0x00, 0x48, 0x29, 0xc4];
    let block = decode(0x100, &bytes);
    assert_eq!(block.len(), 3);
    let md = metadata(0x105 + 5 + 0x10);
    let lifted = parse_instrs(&block, &md).unwrap();
    assert_eq!(
        lifted,
        vec![(
            0x100,
            vec![
                Stmt::Unop(
                    Unopcode::Mov,
                    Value::Reg(X86Regs::Rax, ValSize::Size32),
                    Value::Imm(ImmType::Signed, ValSize::Size32, 0x1000)
                ),
                Stmt::ProbeStack(0x1000),
            ]
        )]
    );
    let analyzer = StackAnalyzer {};
    let after = analyze_block(&analyzer, &analyzer.init_state(), &lifted).unwrap();
    assert_eq!(after.v, Some((0, 0x1000)));
    // with the stack probe elsewhere the three instructions are lifted one by one
    let elsewhere = parse_instrs(&block, &metadata(0x9000)).unwrap();
    assert_eq!(elsewhere.len(), 3);
}

fn image(start: usize, data: Vec<u8>) -> ModuleData {
    ModuleData {
        segments: vec![Segment { start, data, name: String::from("LOAD") }],
        module_info: ModuleInfo::ELF(
            ISAHint::Unknown(String::new()),
            Header::new(Ctx::default()),
            vec![],
            vec![],
            0,
            vec![],
            vec![],
            vec![],
            vec![],
        ),
        name: String::from("test"),
    }
}

#[test]
fn decoded_switch_dispatch() {
    // 0x100: cmp ecx, 2; ja $+0x40
    let head = decode(0x100, &[0x83, 0xf9, 0x02, 0x77, 0x40]);
    // 0x105: lea rax, [rip + 0x3ef4]; movsxd rdx, [rax + rcx*4]; add rax, rdx; jmp rax
    let dispatch = decode(
        0x105,
        &[0x48, 0x8d, 0x05, 0xf4, 0x3e, 0x00, 0x00, 0x48, 0x63, 0x14, 0x88, 0x48, 0x01, 0xd0, 0xff, 0xe0],
    );
    assert_eq!(dispatch.len(), 4);
    let default = decode(0x145, &[0xc3]);
    let md = metadata(0);
    let irmap = lift_cfg(&vec![(0x100, head), (0x105, dispatch), (0x145, default)], &md).unwrap();
    let mut edges: HashMap<u64, Vec<u64>> = HashMap::new();
    edges.insert(0x100, vec![0x105, 0x145]);
    let cfg = Cfg {
        entrypoint: 0x100,
        blocks: vec![
            BasicBlock { start: 0x100, end: 0x105 },
            BasicBlock { start: 0x105, end: 0x115 },
            BasicBlock { start: 0x145, end: 0x146 },
        ],
        edges,
    };
    let analyzer = SwitchAnalyzer { metadata: md };
    let result = run_worklist(&cfg, &irmap, &analyzer, 100).unwrap();
    let table = image(0x4000, vec![0x10, 0, 0, 0, 0x20, 0, 0, 0, 0x30, 0, 0, 0]);
    let targets = resolve_jumps(&table, &result, &irmap, &analyzer).unwrap();
    assert_eq!(targets.len(), 1);
    assert_eq!(targets[&0x113], vec![0x4010, 0x4020, 0x4030]);
}

#[test]
fn decoded_jump_through_memory_is_rejected() {
    // jmp [rax]
    let block = decode(0x100, &[0xff, 0x20]);
    let md = metadata(0);
    let irmap = lift_cfg(&vec![(0x100, block)], &md).unwrap();
    assert_eq!(
        irmap[&0x100],
        vec![(
            0x100,
            vec![Stmt::Branch(
                Opcode::JMP,
                Value::Mem(ValSize::Size64, MemArgs::Mem1Arg(MemArg::Reg(X86Regs::Rax, ValSize::Size64)))
            )]
        )]
    );
    let cfg = Cfg { entrypoint: 0x100, blocks: vec![BasicBlock { start: 0x100, end: 0x102 }], edges: HashMap::new() };
    let analyzer = SwitchAnalyzer { metadata: md };
    let result = run_worklist(&cfg, &irmap, &analyzer, 100).unwrap();
    let table = image(0x4000, vec![0; 16]);
    assert_eq!(resolve_jumps(&table, &result, &irmap, &analyzer).err(), Some(ResolveError::IllegalJump));
}
