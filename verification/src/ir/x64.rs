//! The lifter: from decoded x86-64 instructions to IR statements.

use crate::ir::instr::{
    Direction, Instr, InstrView, Location, LocationUse, Opcode, Operand, RegClass, RegSpec,
};
use crate::ir::types::{
    block_view, stmts_view, Addr, Binopcode, ImmType, MemArg, MemArgs, NUM_REGS, SpecStmt, Stmt,
    StmtResult, Unopcode, ValSize, Value, VwMetadata, X86Regs,
};
use std::collections::HashMap;
use vstd::prelude::*;

verus! {

broadcast use vstd::std_specs::hash::group_hash_axioms;

/// Why an instruction cannot be lifted. Each of these marks the input as
/// malformed: the function it belongs to is rejected.
#[derive(Clone, Copy, Debug, PartialEq, Eq, Structural)]
pub enum LiftError {
    /// A register of a bank that has no place in the IR, such as the
    /// instruction pointer used as an ordinary register.
    RegisterBank,
    /// A register number past the last register.
    RegisterNumber,
    /// An address of the form `[reg * scale]`, or a scale other than 1
    /// beside a displacement.
    ScaledAddress,
    /// An operand is missing where the opcode needs one.
    MissingOperand,
    /// An operand form that the lifter does not handle.
    UnhandledOperand,
    /// Neither of the first two operands has a width of its own.
    TwoMemoryOperands,
    /// An operand whose width is needed has none.
    OperandSize,
    /// A push or pop of anything but 8 bytes.
    StackOperandWidth,
    /// A `lea` whose source is not an address.
    IllegalLea,
    /// An opcode that the lifter does not know.
    UnknownOpcode,
}

/// The width with the given number of bits.
pub fn valsize(num: u32) -> (r: ValSize)
    requires
        ValSize::of_bits(num as int) is Some,
    ensures
        Some(r) == ValSize::of_bits(num as int),
{
    match ValSize::try_from_bits(num) {
        Some(size) => size,
        None => ValSize::SizeOther,
    }
}

/// A signed 64-bit immediate.
pub fn mk_value_i64(num: i64) -> (r: Value)
    ensures
        r == Value::Imm(ImmType::Signed, ValSize::Size64, num),
{
    Value::Imm(ImmType::Signed, ValSize::Size64, num)
}

/// The width of the registers of a bank, where the IR has one for it.
pub open spec fn reg_class_size(class: RegClass) -> Result<ValSize, LiftError> {
    match class {
        RegClass::Q => Ok(ValSize::Size64),
        RegClass::D => Ok(ValSize::Size32),
        RegClass::W => Ok(ValSize::Size16),
        RegClass::B => Ok(ValSize::Size8),
        RegClass::RB => Ok(ValSize::Size8),
        RegClass::X => Ok(ValSize::Size128),
        RegClass::Y => Ok(ValSize::Size256),
        RegClass::Z => Ok(ValSize::Size512),
        _ => Err(LiftError::RegisterBank),
    }
}

/// The width of a register operand.
pub fn get_reg_size(reg: RegSpec) -> (r: Result<ValSize, LiftError>)
    ensures
        r == reg_class_size(reg.class),
{
    match reg.class {
        RegClass::Q => Ok(ValSize::Size64),
        RegClass::D => Ok(ValSize::Size32),
        RegClass::W => Ok(ValSize::Size16),
        RegClass::B => Ok(ValSize::Size8),
        RegClass::RB => Ok(ValSize::Size8),
        RegClass::X => Ok(ValSize::Size128),
        RegClass::Y => Ok(ValSize::Size256),
        RegClass::Z => Ok(ValSize::Size512),
        _ => Err(LiftError::RegisterBank),
    }
}

/// Whether a bank holds vector registers.
pub open spec fn is_vector_class(class: RegClass) -> bool {
    class == RegClass::X || class == RegClass::Y || class == RegClass::Z
}

/// The place of a register in the IR's register namespace: general purpose
/// registers keep their number, vector registers follow the flags.
pub open spec fn reg_namespace_index(reg: RegSpec) -> int {
    if is_vector_class(reg.class) {
        reg.num + X86Regs::Zmm0.spec_index()
    } else {
        reg.num as int
    }
}

/// The IR value of a register operand.
pub open spec fn convert_reg_spec(reg: RegSpec) -> Result<Value, LiftError> {
    match reg_class_size(reg.class) {
        Err(e) => Err(e),
        Ok(size) => {
            let index = reg_namespace_index(reg);
            if index < NUM_REGS {
                Ok(Value::Reg(X86Regs::spec_from_index(index as u8).unwrap(), size))
            } else {
                Err(LiftError::RegisterNumber)
            }
        },
    }
}

/// Converts a register operand to its IR value.
pub fn convert_reg(reg: RegSpec) -> (r: Result<Value, LiftError>)
    ensures
        r == convert_reg_spec(reg),
{
    let size = match get_reg_size(reg) {
        Ok(size) => size,
        Err(e) => { return Err(e); },
    };
    let vector: bool = match reg.class {
        RegClass::X | RegClass::Y | RegClass::Z => true,
        _ => false,
    };
    let offset: u8 = if vector { ValSize::fp_offset() } else { 0 };
    if reg.num > u8::MAX - offset {
        return Err(LiftError::RegisterNumber);
    }
    match X86Regs::try_from(reg.num + offset) {
        Some(r) => Ok(Value::Reg(r, size)),
        None => Err(LiftError::RegisterNumber),
    }
}

/// The IR address term of a register that is part of an address. Only
/// general purpose registers can be.
pub open spec fn convert_memarg_reg_spec(reg: RegSpec) -> Result<MemArg, LiftError> {
    match reg.class {
        RegClass::Q | RegClass::D | RegClass::W | RegClass::B => {
            if reg.num < NUM_REGS {
                Ok(MemArg::Reg(X86Regs::spec_from_index(reg.num).unwrap(), reg_class_size(reg.class).unwrap()))
            } else {
                Err(LiftError::RegisterNumber)
            }
        },
        _ => Err(LiftError::RegisterBank),
    }
}

/// Converts a register that is part of an address.
pub fn convert_memarg_reg(reg: RegSpec) -> (r: Result<MemArg, LiftError>)
    ensures
        r == convert_memarg_reg_spec(reg),
{
    let size = match reg.class {
        RegClass::Q => ValSize::Size64,
        RegClass::D => ValSize::Size32,
        RegClass::W => ValSize::Size16,
        RegClass::B => ValSize::Size8,
        _ => { return Err(LiftError::RegisterBank); },
    };
    match X86Regs::try_from(reg.num) {
        Some(r) => Ok(MemArg::Reg(r, size)),
        None => Err(LiftError::RegisterNumber),
    }
}

/// A memory access whose address is one register.
pub open spec fn mem1_spec(memsize: ValSize, a: RegSpec) -> Result<Value, LiftError> {
    match convert_memarg_reg_spec(a) {
        Err(e) => Err(e),
        Ok(a) => Ok(Value::Mem(memsize, MemArgs::Mem1Arg(a))),
    }
}

/// A memory access whose address is a register and a constant.
pub open spec fn mem_disp_spec(memsize: ValSize, a: RegSpec, disp: i64) -> Result<Value, LiftError> {
    match convert_memarg_reg_spec(a) {
        Err(e) => Err(e),
        Ok(a) => Ok(
            Value::Mem(memsize, MemArgs::Mem2Args(a, MemArg::Imm(ImmType::Signed, ValSize::Size32, disp))),
        ),
    }
}

/// A memory access whose address is the sum of two registers.
pub open spec fn mem2_spec(memsize: ValSize, a: RegSpec, b: RegSpec) -> Result<Value, LiftError> {
    match convert_memarg_reg_spec(a) {
        Err(e) => Err(e),
        Ok(a) => match convert_memarg_reg_spec(b) {
            Err(e) => Err(e),
            Ok(b) => Ok(Value::Mem(memsize, MemArgs::Mem2Args(a, b))),
        },
    }
}

/// A memory access whose address is two registers and a third term, which
/// is either added (`scaled` false) or scales the second register.
pub open spec fn mem3_spec(memsize: ValSize, a: RegSpec, b: RegSpec, c: i64, scaled: bool) -> Result<
    Value,
    LiftError,
> {
    match convert_memarg_reg_spec(a) {
        Err(e) => Err(e),
        Ok(a) => match convert_memarg_reg_spec(b) {
            Err(e) => Err(e),
            Ok(b) => {
                let c = MemArg::Imm(ImmType::Signed, ValSize::Size32, c);
                if scaled {
                    Ok(Value::Mem(memsize, MemArgs::MemScale(a, b, c)))
                } else {
                    Ok(Value::Mem(memsize, MemArgs::Mem3Args(a, b, c)))
                }
            },
        },
    }
}

/// The IR value of an operand. `memsize` is the width of the access if the
/// operand is a memory operand.
///
/// Operands relative to the instruction pointer become `RIPConst`. A scaled
/// index is kept only beside a base register; a scale of 1 is dropped.
pub open spec fn convert_operand_spec(op: Operand, memsize: ValSize) -> Result<Value, LiftError> {
    match op {
        Operand::ImmediateI8(imm) => Ok(Value::Imm(ImmType::Signed, ValSize::Size8, imm as i64)),
        Operand::ImmediateU8(imm) => Ok(Value::Imm(ImmType::Unsigned, ValSize::Size8, imm as i64)),
        Operand::ImmediateI16(imm) => Ok(Value::Imm(ImmType::Signed, ValSize::Size16, imm as i64)),
        Operand::ImmediateU16(imm) => Ok(Value::Imm(ImmType::Unsigned, ValSize::Size16, imm as i64)),
        Operand::ImmediateU32(imm) => Ok(Value::Imm(ImmType::Unsigned, ValSize::Size32, imm as i64)),
        Operand::ImmediateI32(imm) => Ok(Value::Imm(ImmType::Signed, ValSize::Size32, imm as i64)),
        Operand::ImmediateU64(imm) => Ok(Value::Imm(ImmType::Unsigned, ValSize::Size64, imm as i64)),
        Operand::ImmediateI64(imm) => Ok(Value::Imm(ImmType::Signed, ValSize::Size64, imm)),
        Operand::Register(reg) => convert_reg_spec(reg),
        Operand::DisplacementU32(imm) => Ok(
            Value::Mem(
                memsize,
                MemArgs::Mem1Arg(MemArg::Imm(ImmType::Unsigned, ValSize::Size32, imm as i64)),
            ),
        ),
        Operand::DisplacementU64(imm) => Ok(
            Value::Mem(
                memsize,
                MemArgs::Mem1Arg(MemArg::Imm(ImmType::Unsigned, ValSize::Size64, imm as i64)),
            ),
        ),
        Operand::RegDeref(reg) => if reg == RegSpec::spec_rip() {
            Ok(Value::RIPConst)
        } else {
            mem1_spec(memsize, reg)
        },
        Operand::RegDisp(reg, imm) => if reg == RegSpec::spec_rip() {
            Ok(Value::RIPConst)
        } else {
            mem_disp_spec(memsize, reg, imm as i64)
        },
        Operand::RegIndexBase(reg1, reg2) => mem2_spec(memsize, reg1, reg2),
        Operand::RegIndexBaseDisp(reg1, reg2, imm) => mem3_spec(memsize, reg1, reg2, imm as i64, false),
        Operand::RegScale(_, _) => Err(LiftError::ScaledAddress),
        Operand::RegScaleDisp(_, _, _) => Err(LiftError::ScaledAddress),
        Operand::RegIndexBaseScale(reg1, reg2, scale) => if scale == 1 {
            mem2_spec(memsize, reg1, reg2)
        } else {
            mem3_spec(memsize, reg1, reg2, scale as i64, true)
        },
        Operand::RegIndexBaseScaleDisp(reg1, reg2, scale, imm) => if scale == 1 {
            mem3_spec(memsize, reg1, reg2, imm as i64, false)
        } else {
            Err(LiftError::ScaledAddress)
        },
        Operand::Nothing => Err(LiftError::MissingOperand),
        Operand::Unsupported => Err(LiftError::UnhandledOperand),
    }
}

fn mem1(memsize: ValSize, a: RegSpec) -> (r: Result<Value, LiftError>)
    ensures
        r == mem1_spec(memsize, a),
{
    match convert_memarg_reg(a) {
        Err(e) => Err(e),
        Ok(a) => Ok(Value::Mem(memsize, MemArgs::Mem1Arg(a))),
    }
}

fn mem_disp(memsize: ValSize, a: RegSpec, disp: i64) -> (r: Result<Value, LiftError>)
    ensures
        r == mem_disp_spec(memsize, a, disp),
{
    match convert_memarg_reg(a) {
        Err(e) => Err(e),
        Ok(a) => Ok(
            Value::Mem(memsize, MemArgs::Mem2Args(a, MemArg::Imm(ImmType::Signed, ValSize::Size32, disp))),
        ),
    }
}

fn mem2(memsize: ValSize, a: RegSpec, b: RegSpec) -> (r: Result<Value, LiftError>)
    ensures
        r == mem2_spec(memsize, a, b),
{
    match convert_memarg_reg(a) {
        Err(e) => Err(e),
        Ok(a) => match convert_memarg_reg(b) {
            Err(e) => Err(e),
            Ok(b) => Ok(Value::Mem(memsize, MemArgs::Mem2Args(a, b))),
        },
    }
}

fn mem3(memsize: ValSize, a: RegSpec, b: RegSpec, c: i64, scaled: bool) -> (r: Result<Value, LiftError>)
    ensures
        r == mem3_spec(memsize, a, b, c, scaled),
{
    match convert_memarg_reg(a) {
        Err(e) => Err(e),
        Ok(a) => match convert_memarg_reg(b) {
            Err(e) => Err(e),
            Ok(b) => {
                let c = MemArg::Imm(ImmType::Signed, ValSize::Size32, c);
                if scaled {
                    Ok(Value::Mem(memsize, MemArgs::MemScale(a, b, c)))
                } else {
                    Ok(Value::Mem(memsize, MemArgs::Mem3Args(a, b, c)))
                }
            },
        },
    }
}

/// Converts an operand to its IR value.
pub fn convert_operand(op: Operand, memsize: ValSize) -> (r: Result<Value, LiftError>)
    ensures
        r == convert_operand_spec(op, memsize),
{
    match op {
        Operand::ImmediateI8(imm) => Ok(Value::Imm(ImmType::Signed, ValSize::Size8, imm as i64)),
        Operand::ImmediateU8(imm) => Ok(Value::Imm(ImmType::Unsigned, ValSize::Size8, imm as i64)),
        Operand::ImmediateI16(imm) => Ok(Value::Imm(ImmType::Signed, ValSize::Size16, imm as i64)),
        Operand::ImmediateU16(imm) => Ok(Value::Imm(ImmType::Unsigned, ValSize::Size16, imm as i64)),
        Operand::ImmediateU32(imm) => Ok(Value::Imm(ImmType::Unsigned, ValSize::Size32, imm as i64)),
        Operand::ImmediateI32(imm) => Ok(Value::Imm(ImmType::Signed, ValSize::Size32, imm as i64)),
        Operand::ImmediateU64(imm) => Ok(
            Value::Imm(ImmType::Unsigned, ValSize::Size64, #[verifier::truncate] (imm as i64)),
        ),
        Operand::ImmediateI64(imm) => Ok(Value::Imm(ImmType::Signed, ValSize::Size64, imm)),
        Operand::Register(reg) => convert_reg(reg),
        Operand::DisplacementU32(imm) => Ok(
            Value::Mem(
                memsize,
                MemArgs::Mem1Arg(MemArg::Imm(ImmType::Unsigned, ValSize::Size32, imm as i64)),
            ),
        ),
        Operand::DisplacementU64(imm) => Ok(
            Value::Mem(
                memsize,
                MemArgs::Mem1Arg(
                    MemArg::Imm(ImmType::Unsigned, ValSize::Size64, #[verifier::truncate] (imm as i64)),
                ),
            ),
        ),
        Operand::RegDeref(reg) => if reg.is_rip() {
            Ok(Value::RIPConst)
        } else {
            mem1(memsize, reg)
        },
        Operand::RegDisp(reg, imm) => if reg.is_rip() {
            Ok(Value::RIPConst)
        } else {
            mem_disp(memsize, reg, imm as i64)
        },
        Operand::RegIndexBase(reg1, reg2) => mem2(memsize, reg1, reg2),
        Operand::RegIndexBaseDisp(reg1, reg2, imm) => mem3(memsize, reg1, reg2, imm as i64, false),
        Operand::RegScale(_, _) => Err(LiftError::ScaledAddress),
        Operand::RegScaleDisp(_, _, _) => Err(LiftError::ScaledAddress),
        Operand::RegIndexBaseScale(reg1, reg2, scale) => if scale == 1 {
            mem2(memsize, reg1, reg2)
        } else {
            mem3(memsize, reg1, reg2, scale as i64, true)
        },
        Operand::RegIndexBaseScaleDisp(reg1, reg2, scale, imm) => if scale == 1 {
            mem3(memsize, reg1, reg2, imm as i64, false)
        } else {
            Err(LiftError::ScaledAddress)
        },
        Operand::Nothing => Err(LiftError::MissingOperand),
        Operand::Unsupported => Err(LiftError::UnhandledOperand),
    }
}

/// The width that an operand has by itself: immediates and registers have
/// one, memory operands and missing operands have none.
pub open spec fn operand_size_spec(op: Operand) -> Result<Option<ValSize>, LiftError> {
    match op {
        Operand::ImmediateI8(_) | Operand::ImmediateU8(_) => Ok(Some(ValSize::Size8)),
        Operand::ImmediateI16(_) | Operand::ImmediateU16(_) => Ok(Some(ValSize::Size16)),
        Operand::ImmediateU32(_) | Operand::ImmediateI32(_) => Ok(Some(ValSize::Size32)),
        Operand::ImmediateU64(_) | Operand::ImmediateI64(_) => Ok(Some(ValSize::Size64)),
        Operand::Register(reg) => match reg_class_size(reg.class) {
            Ok(size) => Ok(Some(size)),
            Err(e) => Err(e),
        },
        Operand::Unsupported => Err(LiftError::OperandSize),
        _ => Ok(None),
    }
}

/// The width that an operand has by itself.
pub fn get_operand_size(op: &Operand) -> (r: Result<Option<ValSize>, LiftError>)
    ensures
        r == operand_size_spec(*op),
{
    match op {
        Operand::ImmediateI8(_) | Operand::ImmediateU8(_) => Ok(Some(ValSize::Size8)),
        Operand::ImmediateI16(_) | Operand::ImmediateU16(_) => Ok(Some(ValSize::Size16)),
        Operand::ImmediateU32(_) | Operand::ImmediateI32(_) => Ok(Some(ValSize::Size32)),
        Operand::ImmediateU64(_) | Operand::ImmediateI64(_) => Ok(Some(ValSize::Size64)),
        Operand::Register(reg) => match get_reg_size(*reg) {
            Ok(size) => Ok(Some(size)),
            Err(e) => Err(e),
        },
        Operand::Unsupported => Err(LiftError::OperandSize),
        _ => Ok(None),
    }
}

/// The IR value of one access, if the access is in the given direction and is
/// to a register or to the zero or carry flag.
pub open spec fn location_value(access: LocationUse, dir: Direction) -> Option<Result<Value, LiftError>> {
    if access.direction != dir {
        None
    } else {
        match access.location {
            Location::Register(reg) => Some(convert_reg_spec(reg)),
            Location::ZF => Some(Ok(Value::Reg(X86Regs::Zf, ValSize::Size8))),
            Location::CF => Some(Ok(Value::Reg(X86Regs::Cf, ValSize::Size8))),
            Location::Other => None,
        }
    }
}

/// The IR values of the accesses in one direction, in the order of the
/// accesses. The first register that cannot be converted is an error.
pub open spec fn locations_spec(locations: Seq<LocationUse>, dir: Direction) -> Result<
    Seq<Value>,
    LiftError,
>
    decreases locations.len(),
{
    if locations.len() == 0 {
        Ok(Seq::empty())
    } else {
        match locations_spec(locations.drop_last(), dir) {
            Err(e) => Err(e),
            Ok(values) => match location_value(locations.last(), dir) {
                None => Ok(values),
                Some(Err(e)) => Err(e),
                Some(Ok(v)) => Ok(values.push(v)),
            },
        }
    }
}

/// Once a prefix of the accesses has an error, so has every longer prefix.
proof fn lemma_locations_error_stays(locations: Seq<LocationUse>, dir: Direction, i: int)
    requires
        0 <= i <= locations.len(),
        locations_spec(locations.take(i), dir) is Err,
    ensures
        locations_spec(locations, dir) == locations_spec(locations.take(i), dir),
    decreases locations.len(),
{
    if i == locations.len() {
        assert(locations.take(i) =~= locations);
    } else {
        assert(locations.drop_last().take(i) =~= locations.take(i));
        lemma_locations_error_stays(locations.drop_last(), dir, i);
    }
}

fn collect_locations(instr: &Instr, dir: Direction) -> (r: Result<Vec<Value>, LiftError>)
    ensures
        match r {
            Ok(values) => locations_spec(instr@.locations, dir) == Ok::<Seq<Value>, LiftError>(values@),
            Err(e) => locations_spec(instr@.locations, dir) == Err::<Seq<Value>, LiftError>(e),
        },
{
    let mut values: Vec<Value> = Vec::new();
    let n: usize = instr.locations.len();
    let mut i: usize = 0;
    assert(instr@.locations.take(0) =~= Seq::<LocationUse>::empty());
    while i < n
        invariant
            i <= n,
            n == instr@.locations.len(),
            locations_spec(instr@.locations.take(i as int), dir) == Ok::<Seq<Value>, LiftError>(values@),
        decreases n - i,
    {
        let access: LocationUse = instr.locations[i];
        proof {
            assert(instr@.locations.take(i + 1).drop_last() =~= instr@.locations.take(i as int));
            assert(instr@.locations.take(i + 1).last() == access);
        }
        if access.direction == dir {
            match access.location {
                Location::Register(reg) => match convert_reg(reg) {
                    Ok(v) => values.push(v),
                    Err(e) => {
                        proof {
                            lemma_locations_error_stays(instr@.locations, dir, i + 1);
                        }
                        return Err(e);
                    },
                },
                Location::ZF => values.push(Value::Reg(X86Regs::Zf, ValSize::Size8)),
                Location::CF => values.push(Value::Reg(X86Regs::Cf, ValSize::Size8)),
                Location::Other => {},
            }
        }
        i = i + 1;
    }
    assert(instr@.locations.take(n as int) =~= instr@.locations);
    Ok(values)
}

/// Every register and flag that the instruction reads.
pub open spec fn sources_spec(instr: InstrView) -> Result<Seq<Value>, LiftError> {
    locations_spec(instr.locations, Direction::Read)
}

/// Every register and flag that the instruction writes.
pub open spec fn destinations_spec(instr: InstrView) -> Result<Seq<Value>, LiftError> {
    locations_spec(instr.locations, Direction::Write)
}

/// Every register and flag that the instruction reads.
pub fn get_sources(instr: &Instr) -> (r: Result<Vec<Value>, LiftError>)
    ensures
        match r {
            Ok(values) => sources_spec(instr@) == Ok::<Seq<Value>, LiftError>(values@),
            Err(e) => sources_spec(instr@) == Err::<Seq<Value>, LiftError>(e),
        },
{
    collect_locations(instr, Direction::Read)
}

/// Every register and flag that the instruction writes.
pub fn get_destinations(instr: &Instr) -> (r: Result<Vec<Value>, LiftError>)
    ensures
        match r {
            Ok(values) => destinations_spec(instr@) == Ok::<Seq<Value>, LiftError>(values@),
            Err(e) => destinations_spec(instr@) == Err::<Seq<Value>, LiftError>(e),
        },
{
    collect_locations(instr, Direction::Write)
}

/// A copy of a list of values.
pub fn copy_values(values: &Vec<Value>) -> (r: Vec<Value>)
    ensures
        r@ == values@,
{
    let mut out: Vec<Value> = Vec::new();
    let mut i: usize = 0;
    while i < values.len()
        invariant
            i <= values.len(),
            out@ == values@.take(i as int),
        decreases values.len() - i,
    {
        out.push(values[i]);
        assert(values@.take(i + 1) =~= values@.take(i as int).push(values@[i as int]));
        i = i + 1;
    }
    assert(values@.take(values.len() as int) =~= values@);
    out
}

/// What `lift` and its helpers return, as a mathematical value.
pub open spec fn lifted(r: Result<Vec<Stmt>, LiftError>) -> Result<Seq<SpecStmt>, LiftError> {
    match r {
        Ok(stmts) => Ok(stmts_view(stmts@)),
        Err(e) => Err(e),
    }
}

/// One `Clear` per destination, each with all the sources.
pub open spec fn generic_clear_spec(instr: InstrView) -> Result<Seq<SpecStmt>, LiftError> {
    match sources_spec(instr) {
        Err(e) => Err(e),
        Ok(sources) => match destinations_spec(instr) {
            Err(e) => Err(e),
            Ok(dsts) => Ok(Seq::new(dsts.len(), |i: int| SpecStmt::Clear(dsts[i], sources))),
        },
    }
}

/// The lowering of every opcode that is not modelled by itself: each
/// register and flag that the instruction writes becomes unknown.
pub fn generic_clear(instr: &Instr) -> (r: Result<Vec<Stmt>, LiftError>)
    ensures
        lifted(r) == generic_clear_spec(instr@),
{
    let sources = match get_sources(instr) {
        Ok(v) => v,
        Err(e) => { return Err(e); },
    };
    let dsts = match get_destinations(instr) {
        Ok(v) => v,
        Err(e) => { return Err(e); },
    };
    let mut stmts: Vec<Stmt> = Vec::new();
    let mut i: usize = 0;
    while i < dsts.len()
        invariant
            i <= dsts.len(),
            stmts@.len() == i,
            forall|j: int| 0 <= j < i ==> (#[trigger] stmts@[j])@ == SpecStmt::Clear(dsts@[j], sources@),
        decreases dsts.len() - i,
    {
        stmts.push(Stmt::Clear(dsts[i], copy_values(&sources)));
        i = i + 1;
    }
    assert(stmts_view(stmts@) =~= Seq::new(dsts@.len(), |i: int| SpecStmt::Clear(dsts@[i], sources@)));
    Ok(stmts)
}

/// The flags as 8-bit register values.
pub open spec fn flag_values(flags: Seq<X86Regs>) -> Seq<Value> {
    flags.map_values(|flag: X86Regs| Value::Reg(flag, ValSize::Size8))
}

/// A byte-sized destination that depends on the given flags.
pub open spec fn set_from_flags_spec(operand: Operand, flags: Seq<X86Regs>) -> Result<SpecStmt, LiftError> {
    match convert_operand_spec(operand, ValSize::Size8) {
        Err(e) => Err(e),
        Ok(dst) => Ok(SpecStmt::Clear(dst, flag_values(flags))),
    }
}

/// What a function that lowers to one statement returns, as a mathematical
/// value.
pub open spec fn lifted_one(r: Result<Stmt, LiftError>) -> Result<SpecStmt, LiftError> {
    match r {
        Ok(stmt) => Ok(stmt@),
        Err(e) => Err(e),
    }
}

/// Lowers a `setcc`: the destination becomes unknown, and depends on the
/// flags that the condition reads.
pub fn set_from_flags(operand: Operand, flags: Vec<X86Regs>) -> (r: Result<Stmt, LiftError>)
    ensures
        lifted_one(r) == set_from_flags_spec(operand, flags@),
{
    let dst = match convert_operand(operand, ValSize::Size8) {
        Ok(v) => v,
        Err(e) => { return Err(e); },
    };
    let mut srcs: Vec<Value> = Vec::new();
    let mut i: usize = 0;
    while i < flags.len()
        invariant
            i <= flags.len(),
            srcs@.len() == i,
            forall|j: int| 0 <= j < i ==> #[trigger] srcs@[j] == Value::Reg(flags@[j], ValSize::Size8),
        decreases flags.len() - i,
    {
        srcs.push(Value::Reg(flags[i], ValSize::Size8));
        i = i + 1;
    }
    assert(srcs@ =~= flag_values(flags@));
    Ok(Stmt::Clear(dst, srcs))
}

/// The width of the memory access of a two-operand instruction: the width
/// of the first operand that has one.
pub open spec fn operand_pair_size_spec(instr: InstrView) -> Result<ValSize, LiftError> {
    match operand_size_spec(instr.operand(0)) {
        Err(e) => Err(e),
        Ok(first) => match operand_size_spec(instr.operand(1)) {
            Err(e) => Err(e),
            Ok(second) => match (first, second) {
                (None, None) => Err(LiftError::TwoMemoryOperands),
                (Some(x), _) => Ok(x),
                (None, Some(x)) => Ok(x),
            },
        },
    }
}

fn operand_pair_size(instr: &Instr) -> (r: Result<ValSize, LiftError>)
    ensures
        r == operand_pair_size_spec(instr@),
{
    let first = match get_operand_size(&instr.operand(0)) {
        Ok(s) => s,
        Err(e) => { return Err(e); },
    };
    let second = match get_operand_size(&instr.operand(1)) {
        Ok(s) => s,
        Err(e) => { return Err(e); },
    };
    match (first, second) {
        (None, None) => Err(LiftError::TwoMemoryOperands),
        (Some(x), _) => Ok(x),
        (None, Some(x)) => Ok(x),
    }
}

/// `dst = op(src)` over the first two operands, with a given access width.
pub open spec fn unop_w_memsize_spec(opcode: Unopcode, instr: InstrView, memsize: ValSize) -> Result<
    SpecStmt,
    LiftError,
> {
    match convert_operand_spec(instr.operand(0), memsize) {
        Err(e) => Err(e),
        Ok(dst) => match convert_operand_spec(instr.operand(1), memsize) {
            Err(e) => Err(e),
            Ok(src) => Ok(SpecStmt::Unop(opcode, dst, src)),
        },
    }
}

/// `dst = op(src)` over the first two operands.
pub open spec fn unop_spec(opcode: Unopcode, instr: InstrView) -> Result<SpecStmt, LiftError> {
    match operand_pair_size_spec(instr) {
        Err(e) => Err(e),
        Ok(memsize) => unop_w_memsize_spec(opcode, instr, memsize),
    }
}

/// Lowers a move with a given access width.
pub fn unop_w_memsize(opcode: Unopcode, instr: &Instr, memsize: ValSize) -> (r: Result<Stmt, LiftError>)
    ensures
        lifted_one(r) == unop_w_memsize_spec(opcode, instr@, memsize),
{
    let dst = match convert_operand(instr.operand(0), memsize) {
        Ok(v) => v,
        Err(e) => { return Err(e); },
    };
    let src = match convert_operand(instr.operand(1), memsize) {
        Ok(v) => v,
        Err(e) => { return Err(e); },
    };
    Ok(Stmt::Unop(opcode, dst, src))
}

/// Lowers a move whose access width is that of its operands.
pub fn unop(opcode: Unopcode, instr: &Instr) -> (r: Result<Stmt, LiftError>)
    ensures
        lifted_one(r) == unop_spec(opcode, instr@),
{
    match operand_pair_size(instr) {
        Err(e) => Err(e),
        Ok(memsize) => unop_w_memsize(opcode, instr, memsize),
    }
}

/// The three values of a binary operation. With two operands the
/// destination is also the first source.
pub open spec fn binop_values_spec(instr: InstrView, memsize: ValSize) -> Result<
    (Value, Value, Value),
    LiftError,
> {
    let second: int = if instr.operands.len() == 2 { 0 } else { 1 };
    match convert_operand_spec(instr.operand(0), memsize) {
        Err(e) => Err(e),
        Ok(dst) => match convert_operand_spec(instr.operand(second), memsize) {
            Err(e) => Err(e),
            Ok(src1) => match convert_operand_spec(instr.operand(second + 1), memsize) {
                Err(e) => Err(e),
                Ok(src2) => Ok((dst, src1, src2)),
            },
        },
    }
}

/// `dst = src1 op src2`.
pub open spec fn binop_spec(opcode: Binopcode, instr: InstrView) -> Result<SpecStmt, LiftError> {
    match operand_pair_size_spec(instr) {
        Err(e) => Err(e),
        Ok(memsize) => match binop_values_spec(instr, memsize) {
            Err(e) => Err(e),
            Ok((dst, src1, src2)) => Ok(SpecStmt::Binop(opcode, dst, src1, src2)),
        },
    }
}

/// Lowers a binary operation.
pub fn binop(opcode: Binopcode, instr: &Instr) -> (r: Result<Stmt, LiftError>)
    ensures
        lifted_one(r) == binop_spec(opcode, instr@),
{
    let memsize = match operand_pair_size(instr) {
        Ok(s) => s,
        Err(e) => { return Err(e); },
    };
    let second: u8 = if instr.operand_count() == 2 { 0 } else { 1 };
    let dst = match convert_operand(instr.operand(0), memsize) {
        Ok(v) => v,
        Err(e) => { return Err(e); },
    };
    let src1 = match convert_operand(instr.operand(second), memsize) {
        Ok(v) => v,
        Err(e) => { return Err(e); },
    };
    let src2 = match convert_operand(instr.operand(second + 1), memsize) {
        Ok(v) => v,
        Err(e) => { return Err(e); },
    };
    Ok(Stmt::Binop(opcode, dst, src1, src2))
}

/// A jump to the first operand.
pub open spec fn branch_spec(instr: InstrView) -> Result<SpecStmt, LiftError> {
    match convert_operand_spec(instr.operand(0), ValSize::Size64) {
        Err(e) => Err(e),
        Ok(target) => Ok(SpecStmt::Branch(instr.opcode, target)),
    }
}

/// Lowers a jump.
pub fn branch(instr: &Instr) -> (r: Result<Stmt, LiftError>)
    ensures
        lifted_one(r) == branch_spec(instr@),
{
    match convert_operand(instr.operand(0), ValSize::Size64) {
        Err(e) => Err(e),
        Ok(target) => Ok(Stmt::Branch(instr.opcode(), target)),
    }
}

/// A call of the first operand.
pub open spec fn call_spec(instr: InstrView) -> Result<SpecStmt, LiftError> {
    match convert_operand_spec(instr.operand(0), ValSize::Size64) {
        Err(e) => Err(e),
        Ok(target) => Ok(SpecStmt::Call(target)),
    }
}

/// Lowers a call.
pub fn call(instr: &Instr, _metadata: &VwMetadata) -> (r: Result<Stmt, LiftError>)
    ensures
        lifted_one(r) == call_spec(instr@),
{
    match convert_operand(instr.operand(0), ValSize::Size64) {
        Err(e) => Err(e),
        Ok(target) => Ok(Stmt::Call(target)),
    }
}

/// The address that `lea reg, [rip + disp]` computes: the address of the
/// next instruction plus the displacement, as a 64-bit value.
pub open spec fn lea_target(addr: Addr, length: u8, disp: i32) -> i64 {
    (addr + length + disp) as i64
}

/// An operand converted with its own width as the access width.
pub open spec fn sized_operand_spec(op: Operand) -> Result<Value, LiftError> {
    match operand_size_spec(op) {
        Err(e) => Err(e),
        Ok(None) => Err(LiftError::OperandSize),
        Ok(Some(size)) => convert_operand_spec(op, size),
    }
}

fn sized_operand(op: Operand) -> (r: Result<Value, LiftError>)
    ensures
        r == sized_operand_spec(op),
{
    match get_operand_size(&op) {
        Err(e) => Err(e),
        Ok(None) => Err(LiftError::OperandSize),
        Ok(Some(size)) => convert_operand(op, size),
    }
}

/// A single statement as a list.
pub open spec fn one_spec(r: Result<SpecStmt, LiftError>) -> Result<Seq<SpecStmt>, LiftError> {
    match r {
        Ok(stmt) => Ok(seq![stmt]),
        Err(e) => Err(e),
    }
}

fn one(r: Result<Stmt, LiftError>) -> (out: Result<Vec<Stmt>, LiftError>)
    ensures
        lifted(out) == one_spec(lifted_one(r)),
{
    match r {
        Ok(stmt) => {
            let mut stmts: Vec<Stmt> = Vec::new();
            stmts.push(stmt);
            assert(stmts_view(stmts@) =~= seq![stmt@]);
            Ok(stmts)
        },
        Err(e) => Err(e),
    }
}

/// The lowering of `lea`.
///
/// With a source relative to the instruction pointer the destination gets
/// the address as a constant. A source that is a constant address is a
/// move. Any other address leaves the destination unknown.
pub open spec fn lea_spec(instr: InstrView, addr: Addr) -> Result<Seq<SpecStmt>, LiftError> {
    let dst = instr.operand(0);
    let src = instr.operand(1);
    let rip_relative = match src {
        Operand::RegDisp(reg, _) => reg == RegSpec::spec_rip(),
        _ => false,
    };
    if rip_relative {
        match sized_operand_spec(dst) {
            Err(e) => Err(e),
            Ok(d) => Ok(
                seq![
                    SpecStmt::Unop(
                        Unopcode::Mov,
                        d,
                        Value::Imm(
                            ImmType::Signed,
                            ValSize::Size64,
                            lea_target(addr, instr.length, src->RegDisp_1),
                        ),
                    ),
                ],
            ),
        }
    } else {
        match operand_size_spec(dst) {
            Err(e) => Err(e),
            Ok(None) => Err(LiftError::OperandSize),
            Ok(Some(size)) => match convert_operand_spec(src, size) {
                Err(e) => Err(e),
                Ok(Value::Mem(_, MemArgs::Mem1Arg(MemArg::Imm(_, _, _)))) => one_spec(
                    unop_spec(Unopcode::Mov, instr),
                ),
                Ok(Value::Mem(_, _)) => generic_clear_spec(instr),
                Ok(_) => Err(LiftError::IllegalLea),
            },
        }
    }
}

/// Lowers a `lea` at the given address.
pub fn lea(instr: &Instr, addr: &Addr) -> (r: Result<Vec<Stmt>, LiftError>)
    ensures
        lifted(r) == lea_spec(instr@, *addr),
{
    let dst = instr.operand(0);
    let src1 = instr.operand(1);
    if let Operand::RegDisp(reg, disp) = src1 {
        if reg.is_rip() {
            let sum: i128 = *addr as i128 + instr.length as i128 + disp as i128;
            let target: i64 = #[verifier::truncate] (sum as i64);
            return match sized_operand(dst) {
                Err(e) => Err(e),
                Ok(d) => one(
                    Ok(Stmt::Unop(Unopcode::Mov, d, Value::Imm(ImmType::Signed, ValSize::Size64, target))),
                ),
            };
        }
    }
    let size = match get_operand_size(&dst) {
        Err(e) => { return Err(e); },
        Ok(None) => { return Err(LiftError::OperandSize); },
        Ok(Some(size)) => size,
    };
    match convert_operand(src1, size) {
        Err(e) => Err(e),
        Ok(Value::Mem(_, MemArgs::Mem1Arg(MemArg::Imm(_, _, _)))) => one(unop(Unopcode::Mov, instr)),
        Ok(Value::Mem(_, _)) => generic_clear(instr),
        Ok(_) => Err(LiftError::IllegalLea),
    }
}

/// The flags that a `setcc` reads.
#[derive(Clone, Copy, Debug, PartialEq, Eq, Structural)]
pub enum FlagSet {
    ZfSfOf,
    Of,
    Sf,
    SfOf,
    Zf,
    Cf,
    CfZf,
    Pf,
}

/// The flags of a set, in the order in which they are listed as sources.
pub open spec fn flag_set_regs(set: FlagSet) -> Seq<X86Regs> {
    match set {
        FlagSet::ZfSfOf => seq![X86Regs::Zf, X86Regs::Sf, X86Regs::Of],
        FlagSet::Of => seq![X86Regs::Of],
        FlagSet::Sf => seq![X86Regs::Sf],
        FlagSet::SfOf => seq![X86Regs::Sf, X86Regs::Of],
        FlagSet::Zf => seq![X86Regs::Zf],
        FlagSet::Cf => seq![X86Regs::Cf],
        FlagSet::CfZf => seq![X86Regs::Cf, X86Regs::Zf],
        FlagSet::Pf => seq![X86Regs::Pf],
    }
}

fn flag_set_vec(set: FlagSet) -> (r: Vec<X86Regs>)
    ensures
        r@ == flag_set_regs(set),
{
    let mut flags: Vec<X86Regs> = Vec::new();
    match set {
        FlagSet::ZfSfOf => {
            flags.push(X86Regs::Zf);
            flags.push(X86Regs::Sf);
            flags.push(X86Regs::Of);
        },
        FlagSet::Of => flags.push(X86Regs::Of),
        FlagSet::Sf => flags.push(X86Regs::Sf),
        FlagSet::SfOf => {
            flags.push(X86Regs::Sf);
            flags.push(X86Regs::Of);
        },
        FlagSet::Zf => flags.push(X86Regs::Zf),
        FlagSet::Cf => flags.push(X86Regs::Cf),
        FlagSet::CfZf => {
            flags.push(X86Regs::Cf);
            flags.push(X86Regs::Zf);
        },
        FlagSet::Pf => flags.push(X86Regs::Pf),
    }
    assert(flags@ =~= flag_set_regs(set));
    flags
}

/// The ways in which an instruction is lowered.
#[derive(Clone, Copy, Debug, PartialEq, Eq, Structural)]
pub enum Lowering {
    /// A move with a fixed access width.
    MoveSized(ValSize),
    /// A move whose access width is that of its operands.
    Move(Unopcode),
    Lea,
    /// One `Test` per flag in zero, carry.
    Test,
    /// One `Cmp` per flag in zero, carry, parity, sign, overflow.
    Compare,
    /// The operation itself, then the zero flag becomes unknown.
    Arith(Binopcode),
    /// No statement at all.
    Nothing,
    Undefined,
    Ret,
    Branch,
    Call,
    Push,
    Pop,
    Divide,
    Xor,
    SetFromFlags(FlagSet),
    BitScan,
    LeadingZeros,
    Convert,
    /// Every destination becomes unknown.
    Generic,
    /// The opcode is not known: the instruction cannot be lifted.
    Unknown,
}

/// How each opcode is lowered.
///
/// `cmovnb` lowers to nothing: the compiler emits it only as a guard that
/// traps when it fires.
pub open spec fn opcode_lowering(opcode: Opcode) -> Lowering {
    match opcode {
        Opcode::MOV | Opcode::MOVD | Opcode::MOVSS => Lowering::MoveSized(ValSize::Size32),
        Opcode::MOVQ | Opcode::MOVSD => Lowering::MoveSized(ValSize::Size64),
        Opcode::MOVZX | Opcode::MOVAPS => Lowering::Move(Unopcode::Mov),
        Opcode::MOVSX | Opcode::MOVSXD => Lowering::Move(Unopcode::Movsx),
        Opcode::LEA => Lowering::Lea,
        Opcode::TEST => Lowering::Test,
        Opcode::UCOMISS | Opcode::UCOMISD | Opcode::CMP => Lowering::Compare,
        Opcode::AND => Lowering::Arith(Binopcode::And),
        Opcode::ADD => Lowering::Arith(Binopcode::Add),
        Opcode::SUB => Lowering::Arith(Binopcode::Sub),
        Opcode::SHL => Lowering::Arith(Binopcode::Shl),
        Opcode::CMOVNB | Opcode::NOP | Opcode::FILD | Opcode::STD | Opcode::CLD | Opcode::STI => Lowering::Nothing,
        Opcode::UD2 => Lowering::Undefined,
        Opcode::RETURN => Lowering::Ret,
        Opcode::JMP | Opcode::JO | Opcode::JNO | Opcode::JB | Opcode::JNB | Opcode::JZ
        | Opcode::JNZ | Opcode::JA | Opcode::JNA | Opcode::JS | Opcode::JNS | Opcode::JP
        | Opcode::JNP | Opcode::JL | Opcode::JGE | Opcode::JLE | Opcode::JG => Lowering::Branch,
        Opcode::CALL => Lowering::Call,
        Opcode::PUSH => Lowering::Push,
        Opcode::POP => Lowering::Pop,
        Opcode::IDIV | Opcode::DIV => Lowering::Divide,
        Opcode::XORPS | Opcode::XORPD | Opcode::XOR => Lowering::Xor,
        Opcode::SETG | Opcode::SETLE => Lowering::SetFromFlags(FlagSet::ZfSfOf),
        Opcode::SETO | Opcode::SETNO => Lowering::SetFromFlags(FlagSet::Of),
        Opcode::SETS | Opcode::SETNS => Lowering::SetFromFlags(FlagSet::Sf),
        Opcode::SETGE | Opcode::SETL => Lowering::SetFromFlags(FlagSet::SfOf),
        Opcode::SETNZ | Opcode::SETZ => Lowering::SetFromFlags(FlagSet::Zf),
        Opcode::SETAE | Opcode::SETB => Lowering::SetFromFlags(FlagSet::Cf),
        Opcode::SETA | Opcode::SETBE => Lowering::SetFromFlags(FlagSet::CfZf),
        Opcode::SETP | Opcode::SETNP => Lowering::SetFromFlags(FlagSet::Pf),
        Opcode::BSF => Lowering::BitScan,
        Opcode::LZCNT => Lowering::LeadingZeros,
        Opcode::CVTSI2SS => Lowering::Convert,
        Opcode::OR | Opcode::SHR | Opcode::RCL | Opcode::RCR | Opcode::ROL | Opcode::ROR
        | Opcode::CMOVA | Opcode::CMOVB | Opcode::CMOVG | Opcode::CMOVGE | Opcode::CMOVL
        | Opcode::CMOVLE | Opcode::CMOVNA | Opcode::CMOVNO | Opcode::CMOVNP | Opcode::CMOVNS
        | Opcode::CMOVNZ | Opcode::CMOVO | Opcode::CMOVP | Opcode::CMOVS | Opcode::CMOVZ
        | Opcode::SAR | Opcode::ADC | Opcode::ROUNDSS | Opcode::MUL | Opcode::IMUL | Opcode::POR
        | Opcode::PSHUFB | Opcode::PSHUFD | Opcode::PTEST | Opcode::PXOR | Opcode::ANDNPS
        | Opcode::CMPPD | Opcode::CMPPS | Opcode::ANDPS | Opcode::ORPS | Opcode::DIVSD
        | Opcode::MULSS | Opcode::ADDSD | Opcode::SUBSS | Opcode::ROUNDSD | Opcode::NOT
        | Opcode::POPCNT | Opcode::SUBSD | Opcode::MULSD | Opcode::DIVSS | Opcode::DIVPD
        | Opcode::DIVPS | Opcode::BLENDVPS | Opcode::BLENDVPD | Opcode::MAXPD | Opcode::MAXPS
        | Opcode::MAXSD | Opcode::MAXSS | Opcode::MINPD | Opcode::MINPS | Opcode::MINSD
        | Opcode::MINSS | Opcode::MULPD | Opcode::MULPS | Opcode::PMULLW | Opcode::PMULLD
        | Opcode::CVTDQ2PS | Opcode::CVTSD2SS | Opcode::CVTSI2SD | Opcode::CVTSS2SD
        | Opcode::CVTTSS2SI | Opcode::ADDPS | Opcode::ADDPD | Opcode::ADDSS | Opcode::PSLLW
        | Opcode::PSLLD | Opcode::PSLLQ | Opcode::PSRLW | Opcode::PSRLD | Opcode::PSRLQ
        | Opcode::PSRAW | Opcode::PSRAD | Opcode::PSUBB | Opcode::PSUBW | Opcode::PSUBD
        | Opcode::PSUBQ | Opcode::PSUBSB | Opcode::PSUBSW | Opcode::PSUBUSB | Opcode::PSUBUSW
        | Opcode::PUNPCKHBW | Opcode::PUNPCKHWD | Opcode::PUNPCKHDQ | Opcode::PUNPCKHQDQ
        | Opcode::PUNPCKLBW | Opcode::PUNPCKLWD | Opcode::PUNPCKLDQ | Opcode::PUNPCKLQDQ
        | Opcode::PACKSSWB | Opcode::PACKSSDW | Opcode::PADDB | Opcode::PADDD | Opcode::PADDQ
        | Opcode::PADDW | Opcode::PADDSB | Opcode::PADDSW | Opcode::PADDUSB | Opcode::PADDUSW
        | Opcode::PAND | Opcode::PANDN | Opcode::PAVGB | Opcode::PAVGW | Opcode::PCMPEQB
        | Opcode::PCMPEQD | Opcode::PCMPEQQ | Opcode::PCMPEQW | Opcode::PCMPGTB | Opcode::PCMPGTD
        | Opcode::PCMPGTQ | Opcode::PCMPGTW | Opcode::PEXTRB | Opcode::PEXTRW | Opcode::PINSRB
        | Opcode::PINSRW | Opcode::PMAXSB | Opcode::PMAXSW | Opcode::PMAXUB | Opcode::PMAXUD
        | Opcode::PMAXUW | Opcode::PMINSB | Opcode::PMINSD | Opcode::PMINSW | Opcode::PMINUB
        | Opcode::PMINUD | Opcode::PMINUW | Opcode::PMOVSXBW | Opcode::PMOVSXWD | Opcode::PMOVSXDQ
        | Opcode::PMOVZXBW | Opcode::PMOVZXWD | Opcode::PMOVZXDQ | Opcode::SQRTPD | Opcode::SQRTPS
        | Opcode::SQRTSD | Opcode::SQRTSS | Opcode::MOVLPS | Opcode::MOVLHPS | Opcode::MOVUPS
        | Opcode::SUBPD | Opcode::SUBPS | Opcode::TZCNT | Opcode::SBB | Opcode::BSR | Opcode::ANDPD
        | Opcode::ORPD => Lowering::Generic,
        Opcode::Unknown => Lowering::Unknown,
    }
}

/// How an opcode is lowered.
pub fn lowering_of(opcode: Opcode) -> (r: Lowering)
    ensures
        r == opcode_lowering(opcode),
{
    match opcode {
        Opcode::MOV | Opcode::MOVD | Opcode::MOVSS => Lowering::MoveSized(ValSize::Size32),
        Opcode::MOVQ | Opcode::MOVSD => Lowering::MoveSized(ValSize::Size64),
        Opcode::MOVZX | Opcode::MOVAPS => Lowering::Move(Unopcode::Mov),
        Opcode::MOVSX | Opcode::MOVSXD => Lowering::Move(Unopcode::Movsx),
        Opcode::LEA => Lowering::Lea,
        Opcode::TEST => Lowering::Test,
        Opcode::UCOMISS | Opcode::UCOMISD | Opcode::CMP => Lowering::Compare,
        Opcode::AND => Lowering::Arith(Binopcode::And),
        Opcode::ADD => Lowering::Arith(Binopcode::Add),
        Opcode::SUB => Lowering::Arith(Binopcode::Sub),
        Opcode::SHL => Lowering::Arith(Binopcode::Shl),
        Opcode::CMOVNB | Opcode::NOP | Opcode::FILD | Opcode::STD | Opcode::CLD | Opcode::STI => Lowering::Nothing,
        Opcode::UD2 => Lowering::Undefined,
        Opcode::RETURN => Lowering::Ret,
        Opcode::JMP | Opcode::JO | Opcode::JNO | Opcode::JB | Opcode::JNB | Opcode::JZ
        | Opcode::JNZ | Opcode::JA | Opcode::JNA | Opcode::JS | Opcode::JNS | Opcode::JP
        | Opcode::JNP | Opcode::JL | Opcode::JGE | Opcode::JLE | Opcode::JG => Lowering::Branch,
        Opcode::CALL => Lowering::Call,
        Opcode::PUSH => Lowering::Push,
        Opcode::POP => Lowering::Pop,
        Opcode::IDIV | Opcode::DIV => Lowering::Divide,
        Opcode::XORPS | Opcode::XORPD | Opcode::XOR => Lowering::Xor,
        Opcode::SETG | Opcode::SETLE => Lowering::SetFromFlags(FlagSet::ZfSfOf),
        Opcode::SETO | Opcode::SETNO => Lowering::SetFromFlags(FlagSet::Of),
        Opcode::SETS | Opcode::SETNS => Lowering::SetFromFlags(FlagSet::Sf),
        Opcode::SETGE | Opcode::SETL => Lowering::SetFromFlags(FlagSet::SfOf),
        Opcode::SETNZ | Opcode::SETZ => Lowering::SetFromFlags(FlagSet::Zf),
        Opcode::SETAE | Opcode::SETB => Lowering::SetFromFlags(FlagSet::Cf),
        Opcode::SETA | Opcode::SETBE => Lowering::SetFromFlags(FlagSet::CfZf),
        Opcode::SETP | Opcode::SETNP => Lowering::SetFromFlags(FlagSet::Pf),
        Opcode::BSF => Lowering::BitScan,
        Opcode::LZCNT => Lowering::LeadingZeros,
        Opcode::CVTSI2SS => Lowering::Convert,
        Opcode::OR | Opcode::SHR | Opcode::RCL | Opcode::RCR | Opcode::ROL | Opcode::ROR
        | Opcode::CMOVA | Opcode::CMOVB | Opcode::CMOVG | Opcode::CMOVGE | Opcode::CMOVL
        | Opcode::CMOVLE | Opcode::CMOVNA | Opcode::CMOVNO | Opcode::CMOVNP | Opcode::CMOVNS
        | Opcode::CMOVNZ | Opcode::CMOVO | Opcode::CMOVP | Opcode::CMOVS | Opcode::CMOVZ
        | Opcode::SAR | Opcode::ADC | Opcode::ROUNDSS | Opcode::MUL | Opcode::IMUL | Opcode::POR
        | Opcode::PSHUFB | Opcode::PSHUFD | Opcode::PTEST | Opcode::PXOR | Opcode::ANDNPS
        | Opcode::CMPPD | Opcode::CMPPS | Opcode::ANDPS | Opcode::ORPS | Opcode::DIVSD
        | Opcode::MULSS | Opcode::ADDSD | Opcode::SUBSS | Opcode::ROUNDSD | Opcode::NOT
        | Opcode::POPCNT | Opcode::SUBSD | Opcode::MULSD | Opcode::DIVSS | Opcode::DIVPD
        | Opcode::DIVPS | Opcode::BLENDVPS | Opcode::BLENDVPD | Opcode::MAXPD | Opcode::MAXPS
        | Opcode::MAXSD | Opcode::MAXSS | Opcode::MINPD | Opcode::MINPS | Opcode::MINSD
        | Opcode::MINSS | Opcode::MULPD | Opcode::MULPS | Opcode::PMULLW | Opcode::PMULLD
        | Opcode::CVTDQ2PS | Opcode::CVTSD2SS | Opcode::CVTSI2SD | Opcode::CVTSS2SD
        | Opcode::CVTTSS2SI | Opcode::ADDPS | Opcode::ADDPD | Opcode::ADDSS | Opcode::PSLLW
        | Opcode::PSLLD | Opcode::PSLLQ | Opcode::PSRLW | Opcode::PSRLD | Opcode::PSRLQ
        | Opcode::PSRAW | Opcode::PSRAD | Opcode::PSUBB | Opcode::PSUBW | Opcode::PSUBD
        | Opcode::PSUBQ | Opcode::PSUBSB | Opcode::PSUBSW | Opcode::PSUBUSB | Opcode::PSUBUSW
        | Opcode::PUNPCKHBW | Opcode::PUNPCKHWD | Opcode::PUNPCKHDQ | Opcode::PUNPCKHQDQ
        | Opcode::PUNPCKLBW | Opcode::PUNPCKLWD | Opcode::PUNPCKLDQ | Opcode::PUNPCKLQDQ
        | Opcode::PACKSSWB | Opcode::PACKSSDW | Opcode::PADDB | Opcode::PADDD | Opcode::PADDQ
        | Opcode::PADDW | Opcode::PADDSB | Opcode::PADDSW | Opcode::PADDUSB | Opcode::PADDUSW
        | Opcode::PAND | Opcode::PANDN | Opcode::PAVGB | Opcode::PAVGW | Opcode::PCMPEQB
        | Opcode::PCMPEQD | Opcode::PCMPEQQ | Opcode::PCMPEQW | Opcode::PCMPGTB | Opcode::PCMPGTD
        | Opcode::PCMPGTQ | Opcode::PCMPGTW | Opcode::PEXTRB | Opcode::PEXTRW | Opcode::PINSRB
        | Opcode::PINSRW | Opcode::PMAXSB | Opcode::PMAXSW | Opcode::PMAXUB | Opcode::PMAXUD
        | Opcode::PMAXUW | Opcode::PMINSB | Opcode::PMINSD | Opcode::PMINSW | Opcode::PMINUB
        | Opcode::PMINUD | Opcode::PMINUW | Opcode::PMOVSXBW | Opcode::PMOVSXWD | Opcode::PMOVSXDQ
        | Opcode::PMOVZXBW | Opcode::PMOVZXWD | Opcode::PMOVZXDQ | Opcode::SQRTPD | Opcode::SQRTPS
        | Opcode::SQRTSD | Opcode::SQRTSS | Opcode::MOVLPS | Opcode::MOVLHPS | Opcode::MOVUPS
        | Opcode::SUBPD | Opcode::SUBPS | Opcode::TZCNT | Opcode::SBB | Opcode::BSR | Opcode::ANDPD
        | Opcode::ORPD => Lowering::Generic,
        Opcode::Unknown => Lowering::Unknown,
    }
}

/// The stack pointer as a 64-bit register value.
pub open spec fn rsp_value() -> Value {
    Value::Reg(X86Regs::Rsp, ValSize::Size64)
}

/// The zero flag as a register value.
pub open spec fn zf_value() -> Value {
    Value::Reg(X86Regs::Zf, ValSize::Size8)
}

/// The 8 bytes at the top of the stack.
pub open spec fn stack_top_value() -> Value {
    Value::Mem(ValSize::Size64, MemArgs::Mem1Arg(MemArg::Reg(X86Regs::Rsp, ValSize::Size64)))
}

/// One statement per flag, each `flag = a op b` over the first two operands.
pub open spec fn flag_binops_spec(opcode: Binopcode, flags: Seq<X86Regs>, instr: InstrView) -> Result<
    Seq<SpecStmt>,
    LiftError,
> {
    match operand_pair_size_spec(instr) {
        Err(e) => Err(e),
        Ok(memsize) => match convert_operand_spec(instr.operand(0), memsize) {
            Err(e) => Err(e),
            Ok(a) => match convert_operand_spec(instr.operand(1), memsize) {
                Err(e) => Err(e),
                Ok(b) => Ok(
                    flags.map_values(
                        |flag: X86Regs| SpecStmt::Binop(opcode, Value::Reg(flag, ValSize::Size8), a, b),
                    ),
                ),
            },
        },
    }
}

fn flag_binops(opcode: Binopcode, flags: Vec<X86Regs>, instr: &Instr) -> (r: Result<Vec<Stmt>, LiftError>)
    ensures
        lifted(r) == flag_binops_spec(opcode, flags@, instr@),
{
    let memsize = match operand_pair_size(instr) {
        Ok(s) => s,
        Err(e) => { return Err(e); },
    };
    let a = match convert_operand(instr.operand(0), memsize) {
        Ok(v) => v,
        Err(e) => { return Err(e); },
    };
    let b = match convert_operand(instr.operand(1), memsize) {
        Ok(v) => v,
        Err(e) => { return Err(e); },
    };
    let mut stmts: Vec<Stmt> = Vec::new();
    let mut i: usize = 0;
    while i < flags.len()
        invariant
            i <= flags.len(),
            stmts@.len() == i,
            forall|j: int|
                0 <= j < i ==> (#[trigger] stmts@[j])@ == SpecStmt::Binop(
                    opcode,
                    Value::Reg(flags@[j], ValSize::Size8),
                    a,
                    b,
                ),
        decreases flags.len() - i,
    {
        stmts.push(Stmt::Binop(opcode, Value::Reg(flags[i], ValSize::Size8), a, b));
        i = i + 1;
    }
    assert(stmts_view(stmts@) =~= flags@.map_values(
        |flag: X86Regs| SpecStmt::Binop(opcode, Value::Reg(flag, ValSize::Size8), a, b),
    ));
    Ok(stmts)
}

/// The flags that `test` sets.
pub open spec fn test_flags() -> Seq<X86Regs> {
    seq![X86Regs::Zf, X86Regs::Cf]
}

/// The flags that `cmp` sets.
pub open spec fn compare_flags() -> Seq<X86Regs> {
    seq![X86Regs::Zf, X86Regs::Cf, X86Regs::Pf, X86Regs::Sf, X86Regs::Of]
}

/// The operation, then the zero flag becomes unknown.
pub open spec fn arith_spec(opcode: Binopcode, instr: InstrView) -> Result<Seq<SpecStmt>, LiftError> {
    match binop_spec(opcode, instr) {
        Err(e) => Err(e),
        Ok(stmt) => match sources_spec(instr) {
            Err(e) => Err(e),
            Ok(sources) => Ok(seq![stmt, SpecStmt::Clear(zf_value(), sources)]),
        },
    }
}

/// `push x` is `rsp = rsp - 8; [rsp] = x`. Only 8-byte operands are pushed.
pub open spec fn push_spec(instr: InstrView) -> Result<Seq<SpecStmt>, LiftError> {
    if instr.operand(0).spec_width() != Some(8u8) {
        Err(LiftError::StackOperandWidth)
    } else {
        match convert_operand_spec(instr.operand(0), ValSize::Size64) {
            Err(e) => Err(e),
            Ok(v) => Ok(
                seq![
                    SpecStmt::Binop(
                        Binopcode::Sub,
                        rsp_value(),
                        rsp_value(),
                        Value::Imm(ImmType::Signed, ValSize::Size64, 8),
                    ),
                    SpecStmt::Unop(Unopcode::Mov, stack_top_value(), v),
                ],
            ),
        }
    }
}

/// `pop x` is `x = [rsp]; rsp = rsp + 8`. Only 8-byte operands are popped.
pub open spec fn pop_spec(instr: InstrView) -> Result<Seq<SpecStmt>, LiftError> {
    if instr.operand(0).spec_width() != Some(8u8) {
        Err(LiftError::StackOperandWidth)
    } else {
        match convert_operand_spec(instr.operand(0), ValSize::Size64) {
            Err(e) => Err(e),
            Ok(v) => Ok(
                seq![
                    SpecStmt::Unop(Unopcode::Mov, v, stack_top_value()),
                    SpecStmt::Binop(
                        Binopcode::Add,
                        rsp_value(),
                        rsp_value(),
                        Value::Imm(ImmType::Signed, ValSize::Size64, 8),
                    ),
                ],
            ),
        }
    }
}

/// A division leaves `rax`, `rdx` and the zero flag unknown.
pub open spec fn divide_spec(instr: InstrView) -> Result<Seq<SpecStmt>, LiftError> {
    match sources_spec(instr) {
        Err(e) => Err(e),
        Ok(sources) => Ok(
            seq![
                SpecStmt::Clear(Value::Reg(X86Regs::Rax, ValSize::Size64), Seq::empty()),
                SpecStmt::Clear(Value::Reg(X86Regs::Rdx, ValSize::Size64), Seq::empty()),
                SpecStmt::Clear(zf_value(), sources),
            ],
        ),
    }
}

/// Whether the instruction has exactly two operands and they are the same.
pub open spec fn is_self_xor(instr: InstrView) -> bool {
    instr.operands.len() == 2 && instr.operand(0) == instr.operand(1)
}

/// `xor x, x` is `x = 0`; any other `xor` leaves its destinations unknown.
pub open spec fn xor_spec(instr: InstrView) -> Result<Seq<SpecStmt>, LiftError> {
    if is_self_xor(instr) {
        match convert_operand_spec(instr.operand(0), ValSize::Size64) {
            Err(e) => Err(e),
            Ok(dst) => match sources_spec(instr) {
                Err(e) => Err(e),
                Ok(sources) => Ok(
                    seq![
                        SpecStmt::Unop(Unopcode::Mov, dst, Value::Imm(ImmType::Signed, ValSize::Size64, 0)),
                        SpecStmt::Clear(zf_value(), sources),
                    ],
                ),
            },
        }
    } else {
        generic_clear_spec(instr)
    }
}

/// `bsf dst, src`: the zero flag depends on the source, the destination on
/// both its old value and the source.
pub open spec fn bit_scan_spec(instr: InstrView) -> Result<Seq<SpecStmt>, LiftError> {
    match sized_operand_spec(instr.operand(1)) {
        Err(e) => Err(e),
        Ok(src) => match sized_operand_spec(instr.operand(0)) {
            Err(e) => Err(e),
            Ok(dst) => Ok(seq![SpecStmt::Clear(zf_value(), seq![src]), SpecStmt::Clear(dst, seq![dst, src])]),
        },
    }
}

/// `lzcnt dst, src`: the zero flag and the destination depend on the source.
pub open spec fn leading_zeros_spec(instr: InstrView) -> Result<Seq<SpecStmt>, LiftError> {
    match sized_operand_spec(instr.operand(1)) {
        Err(e) => Err(e),
        Ok(src) => match sized_operand_spec(instr.operand(0)) {
            Err(e) => Err(e),
            Ok(dst) => Ok(seq![SpecStmt::Clear(zf_value(), seq![src]), SpecStmt::Clear(dst, seq![src])]),
        },
    }
}

/// A conversion: the destination depends on the source.
pub open spec fn convert_spec(instr: InstrView) -> Result<Seq<SpecStmt>, LiftError> {
    match sized_operand_spec(instr.operand(0)) {
        Err(e) => Err(e),
        Ok(dst) => match sized_operand_spec(instr.operand(1)) {
            Err(e) => Err(e),
            Ok(src) => Ok(seq![SpecStmt::Clear(dst, seq![src])]),
        },
    }
}

/// The statements of one instruction at a given address.
pub open spec fn lift_spec(instr: InstrView, addr: Addr, metadata: VwMetadata) -> Result<
    Seq<SpecStmt>,
    LiftError,
> {
    match opcode_lowering(instr.opcode) {
        Lowering::MoveSized(size) => one_spec(unop_w_memsize_spec(Unopcode::Mov, instr, size)),
        Lowering::Move(opcode) => one_spec(unop_spec(opcode, instr)),
        Lowering::Lea => lea_spec(instr, addr),
        Lowering::Test => flag_binops_spec(Binopcode::Test, test_flags(), instr),
        Lowering::Compare => flag_binops_spec(Binopcode::Cmp, compare_flags(), instr),
        Lowering::Arith(opcode) => arith_spec(opcode, instr),
        Lowering::Nothing => Ok(Seq::empty()),
        Lowering::Undefined => Ok(seq![SpecStmt::Undefined]),
        Lowering::Ret => Ok(seq![SpecStmt::Ret]),
        Lowering::Branch => one_spec(branch_spec(instr)),
        Lowering::Call => one_spec(call_spec(instr)),
        Lowering::Push => push_spec(instr),
        Lowering::Pop => pop_spec(instr),
        Lowering::Divide => divide_spec(instr),
        Lowering::Xor => xor_spec(instr),
        Lowering::SetFromFlags(set) => one_spec(set_from_flags_spec(instr.operand(0), flag_set_regs(set))),
        Lowering::BitScan => bit_scan_spec(instr),
        Lowering::LeadingZeros => leading_zeros_spec(instr),
        Lowering::Convert => convert_spec(instr),
        Lowering::Generic => generic_clear_spec(instr),
        Lowering::Unknown => Err(LiftError::UnknownOpcode),
    }
}

fn values1(a: Value) -> (r: Vec<Value>)
    ensures
        r@ == seq![a],
{
    let mut v: Vec<Value> = Vec::new();
    v.push(a);
    assert(v@ =~= seq![a]);
    v
}

fn values2(a: Value, b: Value) -> (r: Vec<Value>)
    ensures
        r@ == seq![a, b],
{
    let mut v: Vec<Value> = Vec::new();
    v.push(a);
    v.push(b);
    assert(v@ =~= seq![a, b]);
    v
}

fn two(a: Stmt, b: Stmt) -> (r: Vec<Stmt>)
    ensures
        stmts_view(r@) == seq![a@, b@],
{
    let mut v: Vec<Stmt> = Vec::new();
    v.push(a);
    v.push(b);
    assert(stmts_view(v@) =~= seq![a@, b@]);
    v
}

fn three(a: Stmt, b: Stmt, c: Stmt) -> (r: Vec<Stmt>)
    ensures
        stmts_view(r@) == seq![a@, b@, c@],
{
    let mut v: Vec<Stmt> = Vec::new();
    v.push(a);
    v.push(b);
    v.push(c);
    assert(stmts_view(v@) =~= seq![a@, b@, c@]);
    v
}

fn lift_arith(opcode: Binopcode, instr: &Instr) -> (r: Result<Vec<Stmt>, LiftError>)
    ensures
        lifted(r) == arith_spec(opcode, instr@),
{
    let stmt = match binop(opcode, instr) {
        Ok(s) => s,
        Err(e) => { return Err(e); },
    };
    let sources = match get_sources(instr) {
        Ok(v) => v,
        Err(e) => { return Err(e); },
    };
    Ok(two(stmt, Stmt::Clear(Value::Reg(X86Regs::Zf, ValSize::Size8), sources)))
}

fn lift_push(instr: &Instr) -> (r: Result<Vec<Stmt>, LiftError>)
    ensures
        lifted(r) == push_spec(instr@),
{
    match instr.operand(0).width() {
        Some(8) => {},
        _ => { return Err(LiftError::StackOperandWidth); },
    }
    let v = match convert_operand(instr.operand(0), ValSize::Size64) {
        Ok(v) => v,
        Err(e) => { return Err(e); },
    };
    let rsp = Value::Reg(X86Regs::Rsp, ValSize::Size64);
    let top = Value::Mem(valsize(64), MemArgs::Mem1Arg(MemArg::Reg(X86Regs::Rsp, ValSize::Size64)));
    Ok(two(Stmt::Binop(Binopcode::Sub, rsp, rsp, mk_value_i64(8)), Stmt::Unop(Unopcode::Mov, top, v)))
}

fn lift_pop(instr: &Instr) -> (r: Result<Vec<Stmt>, LiftError>)
    ensures
        lifted(r) == pop_spec(instr@),
{
    match instr.operand(0).width() {
        Some(8) => {},
        _ => { return Err(LiftError::StackOperandWidth); },
    }
    let v = match convert_operand(instr.operand(0), ValSize::Size64) {
        Ok(v) => v,
        Err(e) => { return Err(e); },
    };
    let rsp = Value::Reg(X86Regs::Rsp, ValSize::Size64);
    let top = Value::Mem(valsize(64), MemArgs::Mem1Arg(MemArg::Reg(X86Regs::Rsp, ValSize::Size64)));
    Ok(two(Stmt::Unop(Unopcode::Mov, v, top), Stmt::Binop(Binopcode::Add, rsp, rsp, mk_value_i64(8))))
}

fn lift_divide(instr: &Instr) -> (r: Result<Vec<Stmt>, LiftError>)
    ensures
        lifted(r) == divide_spec(instr@),
{
    let sources = match get_sources(instr) {
        Ok(v) => v,
        Err(e) => { return Err(e); },
    };
    Ok(
        three(
            Stmt::Clear(Value::Reg(X86Regs::Rax, ValSize::Size64), Vec::new()),
            Stmt::Clear(Value::Reg(X86Regs::Rdx, ValSize::Size64), Vec::new()),
            Stmt::Clear(Value::Reg(X86Regs::Zf, ValSize::Size8), sources),
        ),
    )
}

fn lift_xor(instr: &Instr) -> (r: Result<Vec<Stmt>, LiftError>)
    ensures
        lifted(r) == xor_spec(instr@),
{
    if instr.operand_count() == 2 && instr.operand(0) == instr.operand(1) {
        let dst = match convert_operand(instr.operand(0), ValSize::Size64) {
            Ok(v) => v,
            Err(e) => { return Err(e); },
        };
        let sources = match get_sources(instr) {
            Ok(v) => v,
            Err(e) => { return Err(e); },
        };
        Ok(
            two(
                Stmt::Unop(Unopcode::Mov, dst, Value::Imm(ImmType::Signed, ValSize::Size64, 0)),
                Stmt::Clear(Value::Reg(X86Regs::Zf, ValSize::Size8), sources),
            ),
        )
    } else {
        generic_clear(instr)
    }
}

fn lift_bit_scan(instr: &Instr) -> (r: Result<Vec<Stmt>, LiftError>)
    ensures
        lifted(r) == bit_scan_spec(instr@),
{
    let src = match sized_operand(instr.operand(1)) {
        Ok(v) => v,
        Err(e) => { return Err(e); },
    };
    let dst = match sized_operand(instr.operand(0)) {
        Ok(v) => v,
        Err(e) => { return Err(e); },
    };
    Ok(
        two(
            Stmt::Clear(Value::Reg(X86Regs::Zf, ValSize::Size8), values1(src)),
            Stmt::Clear(dst, values2(dst, src)),
        ),
    )
}

fn lift_leading_zeros(instr: &Instr) -> (r: Result<Vec<Stmt>, LiftError>)
    ensures
        lifted(r) == leading_zeros_spec(instr@),
{
    let src = match sized_operand(instr.operand(1)) {
        Ok(v) => v,
        Err(e) => { return Err(e); },
    };
    let dst = match sized_operand(instr.operand(0)) {
        Ok(v) => v,
        Err(e) => { return Err(e); },
    };
    Ok(two(Stmt::Clear(Value::Reg(X86Regs::Zf, ValSize::Size8), values1(src)), Stmt::Clear(dst, values1(src))))
}

fn lift_convert(instr: &Instr) -> (r: Result<Vec<Stmt>, LiftError>)
    ensures
        lifted(r) == convert_spec(instr@),
{
    let dst = match sized_operand(instr.operand(0)) {
        Ok(v) => v,
        Err(e) => { return Err(e); },
    };
    let src = match sized_operand(instr.operand(1)) {
        Ok(v) => v,
        Err(e) => { return Err(e); },
    };
    one(Ok(Stmt::Clear(dst, values1(src))))
}

/// Lifts one instruction at the given address to its IR statements.
///
/// An instruction that cannot be lifted is an error, never a panic and
/// never an empty list.
pub fn lift(instr: &Instr, addr: &Addr, metadata: &VwMetadata) -> (r: Result<Vec<Stmt>, LiftError>)
    ensures
        lifted(r) == lift_spec(instr@, *addr, *metadata),
{
    match lowering_of(instr.opcode()) {
        Lowering::MoveSized(size) => one(unop_w_memsize(Unopcode::Mov, instr, size)),
        Lowering::Move(opcode) => one(unop(opcode, instr)),
        Lowering::Lea => lea(instr, addr),
        Lowering::Test => {
            let mut flags: Vec<X86Regs> = Vec::new();
            flags.push(X86Regs::Zf);
            flags.push(X86Regs::Cf);
            assert(flags@ =~= test_flags());
            flag_binops(Binopcode::Test, flags, instr)
        },
        Lowering::Compare => {
            let mut flags: Vec<X86Regs> = Vec::new();
            flags.push(X86Regs::Zf);
            flags.push(X86Regs::Cf);
            flags.push(X86Regs::Pf);
            flags.push(X86Regs::Sf);
            flags.push(X86Regs::Of);
            assert(flags@ =~= compare_flags());
            flag_binops(Binopcode::Cmp, flags, instr)
        },
        Lowering::Arith(opcode) => lift_arith(opcode, instr),
        Lowering::Nothing => {
            let stmts: Vec<Stmt> = Vec::new();
            assert(stmts_view(stmts@) =~= Seq::<SpecStmt>::empty());
            Ok(stmts)
        },
        Lowering::Undefined => one(Ok(Stmt::Undefined)),
        Lowering::Ret => one(Ok(Stmt::Ret)),
        Lowering::Branch => one(branch(instr)),
        Lowering::Call => one(call(instr, metadata)),
        Lowering::Push => lift_push(instr),
        Lowering::Pop => lift_pop(instr),
        Lowering::Divide => lift_divide(instr),
        Lowering::Xor => lift_xor(instr),
        Lowering::SetFromFlags(set) => one(set_from_flags(instr.operand(0), flag_set_vec(set))),
        Lowering::BitScan => lift_bit_scan(instr),
        Lowering::LeadingZeros => lift_leading_zeros(instr),
        Lowering::Convert => lift_convert(instr),
        Lowering::Generic => generic_clear(instr),
        Lowering::Unknown => Err(LiftError::UnknownOpcode),
    }
}

/// A decoded instruction with its address.
pub type BlockInstr = (Addr, Instr);

/// The contents of a list of decoded instructions.
pub open spec fn instrs_view(instrs: Seq<BlockInstr>) -> Seq<(Addr, InstrView)> {
    instrs.map_values(|e: BlockInstr| (e.0, e.1@))
}

/// What a parser of an idiom found: nothing, or the number of instructions
/// it stands for, the address of the first of them, and their statements.
pub type Parsed = Option<(nat, Addr, Seq<SpecStmt>)>;

/// What a parser returns, as a mathematical value.
pub open spec fn parsed(r: Result<Option<(usize, StmtResult)>, LiftError>) -> Result<Parsed, LiftError> {
    match r {
        Err(e) => Err(e),
        Ok(None) => Ok(None),
        Ok(Some((used, (addr, stmts)))) => Ok(Some((used as nat, addr, stmts_view(stmts@)))),
    }
}

/// The instruction at a position, lifted by itself.
pub open spec fn parse_single_instr_spec(instrs: Seq<(Addr, InstrView)>, pos: int, metadata: VwMetadata) -> Result<
    Parsed,
    LiftError,
> {
    if 0 <= pos < instrs.len() {
        match lift_spec(instrs[pos].1, instrs[pos].0, metadata) {
            Err(e) => Err(e),
            Ok(stmts) => Ok(Some((1nat, instrs[pos].0, stmts))),
        }
    } else {
        Ok(None)
    }
}

/// Lifts the instruction at a position by itself. Finds nothing past the
/// end of the block.
pub fn parse_single_instr(instrs: &[BlockInstr], pos: usize, metadata: &VwMetadata) -> (r: Result<
    Option<(usize, StmtResult)>,
    LiftError,
>)
    ensures
        parsed(r) == parse_single_instr_spec(instrs_view(instrs@), pos as int, *metadata),
{
    if pos < instrs.len() {
        let addr: Addr = instrs[pos].0;
        match lift(&instrs[pos].1, &addr, metadata) {
            Err(e) => Err(e),
            Ok(stmts) => Ok(Some((1, (addr, stmts)))),
        }
    } else {
        Ok(None)
    }
}

/// The size that a stack probe is asked for, if the statements are exactly
/// `eax = constant`.
pub open spec fn probestack_arg_of(stmts: Seq<SpecStmt>) -> Option<u64> {
    if stmts.len() == 1 {
        match stmts[0] {
            SpecStmt::Unop(Unopcode::Mov, Value::Reg(X86Regs::Rax, ValSize::Size32), Value::Imm(_, _, x)) => Some(
                x as u64,
            ),
            _ => None,
        }
    } else {
        None
    }
}

/// Whether the statements are exactly a direct call whose target, counted
/// from the end of a 5-byte call at `addr`, is the stack probe.
pub open spec fn is_probestack_call(stmts: Seq<SpecStmt>, addr: Addr, metadata: VwMetadata) -> bool {
    stmts.len() == 1 && match stmts[0] {
        SpecStmt::Call(Value::Imm(_, _, offset)) => 5 + offset + addr == metadata.lucet_probestack,
        _ => false,
    }
}

/// Whether the statements are those of `sub rsp, rax`: they begin with
/// `rsp = rsp - rax` on the full registers.
pub open spec fn is_probestack_suffix(stmts: Seq<SpecStmt>) -> bool {
    stmts.len() >= 1 && stmts[0] == SpecStmt::Binop(
        Binopcode::Sub,
        rsp_value(),
        rsp_value(),
        Value::Reg(X86Regs::Rax, ValSize::Size64),
    )
}

/// The stack probe idiom at a position: `mov eax, K`, a call of the stack
/// probe, and `sub rsp, rax`. The three instructions stand for the first
/// one's statement followed by `ProbeStack(K)`.
pub open spec fn parse_probestack_spec(instrs: Seq<(Addr, InstrView)>, pos: int, metadata: VwMetadata) -> Result<
    Parsed,
    LiftError,
> {
    match parse_single_instr_spec(instrs, pos, metadata) {
        Err(e) => Err(e),
        Ok(None) => Ok(None),
        Ok(Some((_, addr, mov))) => match probestack_arg_of(mov) {
            None => Ok(None),
            Some(arg) => match parse_single_instr_spec(instrs, pos + 1, metadata) {
                Err(e) => Err(e),
                Ok(None) => Ok(None),
                Ok(Some((_, call_addr, call))) => if !is_probestack_call(call, call_addr, metadata) {
                    Ok(None)
                } else {
                    match parse_single_instr_spec(instrs, pos + 2, metadata) {
                        Err(e) => Err(e),
                        Ok(None) => Ok(None),
                        Ok(Some((_, _, sub))) => if is_probestack_suffix(sub) {
                            Ok(Some((3nat, addr, mov.push(SpecStmt::ProbeStack(arg)))))
                        } else {
                            Ok(None)
                        },
                    }
                },
            },
        },
    }
}

/// What the first instruction of the stack probe idiom gives: its address,
/// its statements, and the size that is asked for.
pub fn parse_probestack_arg(instrs: &[BlockInstr], pos: usize, metadata: &VwMetadata) -> (r: Result<
    Option<(u64, StmtResult)>,
    LiftError,
>)
    ensures
        match parse_single_instr_spec(instrs_view(instrs@), pos as int, *metadata) {
            Err(e) => r == Err::<Option<(u64, StmtResult)>, LiftError>(e),
            Ok(None) => r == Ok::<Option<(u64, StmtResult)>, LiftError>(None),
            Ok(Some((_, addr, mov))) => match probestack_arg_of(mov) {
                None => r == Ok::<Option<(u64, StmtResult)>, LiftError>(None),
                Some(arg) => r is Ok && r->Ok_0 is Some && r->Ok_0->Some_0.0 == arg
                    && r->Ok_0->Some_0.1.0 == addr && stmts_view(r->Ok_0->Some_0.1.1@) == mov,
            },
        },
{
    let (addr, move_instr) = match parse_single_instr(instrs, pos, metadata) {
        Err(e) => { return Err(e); },
        Ok(None) => { return Ok(None); },
        Ok(Some((_, found))) => found,
    };
    if move_instr.len() != 1 {
        return Ok(None);
    }
    let arg: Option<u64> = match &move_instr[0] {
        Stmt::Unop(Unopcode::Mov, Value::Reg(X86Regs::Rax, ValSize::Size32), Value::Imm(_, _, x)) => Some(
            #[verifier::truncate] (*x as u64),
        ),
        _ => None,
    };
    assert(stmts_view(move_instr@)[0] == move_instr@[0]@);
    match arg {
        Some(x) => Ok(Some((x, (addr, move_instr)))),
        None => Ok(None),
    }
}

/// Whether the instruction at a position is a direct call of the stack
/// probe.
pub fn parse_probestack_call(instrs: &[BlockInstr], pos: usize, metadata: &VwMetadata) -> (r: Result<
    bool,
    LiftError,
>)
    ensures
        match parse_single_instr_spec(instrs_view(instrs@), pos as int, *metadata) {
            Err(e) => r == Err::<bool, LiftError>(e),
            Ok(None) => r == Ok::<bool, LiftError>(false),
            Ok(Some((_, addr, call))) => r == Ok::<bool, LiftError>(
                is_probestack_call(call, addr, *metadata),
            ),
        },
{
    let (addr, call_instr) = match parse_single_instr(instrs, pos, metadata) {
        Err(e) => { return Err(e); },
        Ok(None) => { return Ok(false); },
        Ok(Some((_, found))) => found,
    };
    if call_instr.len() != 1 {
        return Ok(false);
    }
    assert(stmts_view(call_instr@)[0] == call_instr@[0]@);
    match &call_instr[0] {
        Stmt::Call(Value::Imm(_, _, offset)) => {
            let target: i128 = 5 + *offset as i128 + addr as i128;
            Ok(target == metadata.lucet_probestack as i128)
        },
        _ => Ok(false),
    }
}

/// Whether the instruction at a position is `sub rsp, rax`.
pub fn parse_probestack_suffix(instrs: &[BlockInstr], pos: usize, metadata: &VwMetadata) -> (r: Result<
    bool,
    LiftError,
>)
    ensures
        match parse_single_instr_spec(instrs_view(instrs@), pos as int, *metadata) {
            Err(e) => r == Err::<bool, LiftError>(e),
            Ok(None) => r == Ok::<bool, LiftError>(false),
            Ok(Some((_, _, sub))) => r == Ok::<bool, LiftError>(is_probestack_suffix(sub)),
        },
{
    let (_, sub_instr) = match parse_single_instr(instrs, pos, metadata) {
        Err(e) => { return Err(e); },
        Ok(None) => { return Ok(false); },
        Ok(Some((_, found))) => found,
    };
    if sub_instr.len() < 1 {
        return Ok(false);
    }
    assert(stmts_view(sub_instr@)[0] == sub_instr@[0]@);
    match &sub_instr[0] {
        Stmt::Binop(
            Binopcode::Sub,
            Value::Reg(X86Regs::Rsp, ValSize::Size64),
            Value::Reg(X86Regs::Rsp, ValSize::Size64),
            Value::Reg(X86Regs::Rax, ValSize::Size64),
        ) => Ok(true),
        _ => Ok(false),
    }
}

/// Recognises the stack probe idiom at a position.
pub fn parse_probestack(instrs: &[BlockInstr], pos: usize, metadata: &VwMetadata) -> (r: Result<
    Option<(usize, StmtResult)>,
    LiftError,
>)
    ensures
        parsed(r) == parse_probestack_spec(instrs_view(instrs@), pos as int, *metadata),
{
    let (probestack_arg, (addr, mov_instr)) = match parse_probestack_arg(instrs, pos, metadata) {
        Err(e) => { return Err(e); },
        Ok(None) => { return Ok(None); },
        Ok(Some(found)) => found,
    };
    if pos >= instrs.len() {
        return Ok(None);
    }
    match parse_probestack_call(instrs, pos + 1, metadata) {
        Err(e) => { return Err(e); },
        Ok(false) => { return Ok(None); },
        Ok(true) => {},
    }
    match parse_probestack_suffix(instrs, pos + 2, metadata) {
        Err(e) => { return Err(e); },
        Ok(false) => { return Ok(None); },
        Ok(true) => {},
    }
    let mut stmts: Vec<Stmt> = mov_instr;
    let ghost before = stmts@;
    stmts.push(Stmt::ProbeStack(probestack_arg));
    assert(stmts_view(stmts@) =~= stmts_view(before).push(SpecStmt::ProbeStack(probestack_arg)));
    Ok(Some((3, (addr, stmts))))
}

/// A `bsf` at a position: its address, its destination and its source.
pub open spec fn parse_bsf_spec(instrs: Seq<(Addr, InstrView)>, pos: int) -> Result<
    Option<(Addr, Value, Value)>,
    LiftError,
> {
    if 0 <= pos < instrs.len() && instrs[pos].1.opcode == Opcode::BSF {
        match sized_operand_spec(instrs[pos].1.operand(0)) {
            Err(e) => Err(e),
            Ok(dst) => match sized_operand_spec(instrs[pos].1.operand(1)) {
                Err(e) => Err(e),
                Ok(src) => Ok(Some((instrs[pos].0, dst, src))),
            },
        }
    } else {
        Ok(None)
    }
}

/// Recognises a `bsf` at a position.
pub fn parse_bsf(instrs: &[BlockInstr], pos: usize) -> (r: Result<Option<(Addr, Value, Value)>, LiftError>)
    ensures
        r == parse_bsf_spec(instrs_view(instrs@), pos as int),
{
    if pos < instrs.len() {
        let instr = &instrs[pos].1;
        if instr.opcode() == Opcode::BSF {
            let dst = match sized_operand(instr.operand(0)) {
                Ok(v) => v,
                Err(e) => { return Err(e); },
            };
            let src = match sized_operand(instr.operand(1)) {
                Ok(v) => v,
                Err(e) => { return Err(e); },
            };
            return Ok(Some((instrs[pos].0, dst, src)));
        }
    }
    Ok(None)
}

/// Whether two values are registers, and the same register at any width.
pub open spec fn same_register(a: Value, b: Value) -> bool {
    match (a, b) {
        (Value::Reg(x, _), Value::Reg(y, _)) => x == y,
        _ => false,
    }
}

/// A `cmovz` at a position that writes the register that the `bsf` before
/// it wrote: its address and its source.
pub open spec fn parse_cmovez_spec(instrs: Seq<(Addr, InstrView)>, pos: int, bsf_dst: Value) -> Result<
    Option<(Addr, Value)>,
    LiftError,
> {
    if 0 <= pos < instrs.len() && instrs[pos].1.opcode == Opcode::CMOVZ {
        match sized_operand_spec(instrs[pos].1.operand(0)) {
            Err(e) => Err(e),
            Ok(mov_dst) => if same_register(bsf_dst, mov_dst) {
                match sized_operand_spec(instrs[pos].1.operand(1)) {
                    Err(e) => Err(e),
                    Ok(src) => Ok(Some((instrs[pos].0, src))),
                }
            } else {
                Ok(None)
            },
        }
    } else {
        Ok(None)
    }
}

/// Recognises a `cmovz` into the given register at a position.
pub fn parse_cmovez(instrs: &[BlockInstr], pos: usize, bsf_dst: &Value) -> (r: Result<
    Option<(Addr, Value)>,
    LiftError,
>)
    ensures
        r == parse_cmovez_spec(instrs_view(instrs@), pos as int, *bsf_dst),
{
    if pos < instrs.len() {
        let instr = &instrs[pos].1;
        if instr.opcode() == Opcode::CMOVZ {
            let mov_dst = match sized_operand(instr.operand(0)) {
                Ok(v) => v,
                Err(e) => { return Err(e); },
            };
            if let (Value::Reg(bsf_dst_reg, _), Value::Reg(mov_dst_reg, _)) = (*bsf_dst, mov_dst) {
                if bsf_dst_reg == mov_dst_reg {
                    return match sized_operand(instr.operand(1)) {
                        Ok(src) => Ok(Some((instrs[pos].0, src))),
                        Err(e) => Err(e),
                    };
                }
            }
        }
    }
    Ok(None)
}

/// A `bsf` followed at once by a `cmovz` into the same register: the zero
/// flag depends on the source of the `bsf`, the register on both sources.
pub open spec fn parse_bsf_cmove_spec(instrs: Seq<(Addr, InstrView)>, pos: int) -> Result<Parsed, LiftError> {
    match parse_bsf_spec(instrs, pos) {
        Err(e) => Err(e),
        Ok(None) => Ok(None),
        Ok(Some((addr, bsf_dst, bsf_src))) => match parse_cmovez_spec(instrs, pos + 1, bsf_dst) {
            Err(e) => Err(e),
            Ok(None) => Ok(None),
            Ok(Some((_, mov_src))) => Ok(
                Some(
                    (
                        2nat,
                        addr,
                        seq![
                            SpecStmt::Clear(zf_value(), seq![bsf_src]),
                            SpecStmt::Clear(bsf_dst, seq![bsf_src, mov_src]),
                        ],
                    ),
                ),
            ),
        },
    }
}

/// Recognises a `bsf` and `cmovz` pair at a position.
pub fn parse_bsf_cmove(instrs: &[BlockInstr], pos: usize, _metadata: &VwMetadata) -> (r: Result<
    Option<(usize, StmtResult)>,
    LiftError,
>)
    ensures
        parsed(r) == parse_bsf_cmove_spec(instrs_view(instrs@), pos as int),
{
    let (addr, bsf_dst, bsf_src) = match parse_bsf(instrs, pos) {
        Err(e) => { return Err(e); },
        Ok(None) => { return Ok(None); },
        Ok(Some(found)) => found,
    };
    if pos >= instrs.len() {
        return Ok(None);
    }
    let (_, mov_src) = match parse_cmovez(instrs, pos + 1, &bsf_dst) {
        Err(e) => { return Err(e); },
        Ok(None) => { return Ok(None); },
        Ok(Some(found)) => found,
    };
    let stmts = two(
        Stmt::Clear(Value::Reg(X86Regs::Zf, ValSize::Size8), values1(bsf_src)),
        Stmt::Clear(bsf_dst, values2(bsf_src, mov_src)),
    );
    Ok(Some((2, (addr, stmts))))
}

/// What stands at a position: the `bsf` and `cmovz` pair if there is one,
/// else the stack probe idiom if there is one, else the single instruction.
#[verifier::opaque]
pub open spec fn parse_instr_spec(instrs: Seq<(Addr, InstrView)>, pos: int, metadata: VwMetadata) -> Result<
    Parsed,
    LiftError,
> {
    match parse_bsf_cmove_spec(instrs, pos) {
        Err(e) => Err(e),
        Ok(Some(found)) => Ok(Some(found)),
        Ok(None) => match parse_probestack_spec(instrs, pos, metadata) {
            Err(e) => Err(e),
            Ok(Some(found)) => Ok(Some(found)),
            Ok(None) => parse_single_instr_spec(instrs, pos, metadata),
        },
    }
}

/// Lifts what stands at a position, idioms first.
pub fn parse_instr(instrs: &[BlockInstr], pos: usize, metadata: &VwMetadata) -> (r: Result<
    Option<(usize, StmtResult)>,
    LiftError,
>)
    ensures
        parsed(r) == parse_instr_spec(instrs_view(instrs@), pos as int, *metadata),
{
    reveal(parse_instr_spec);
    match parse_bsf_cmove(instrs, pos, metadata) {
        Err(e) => { return Err(e); },
        Ok(Some(found)) => { return Ok(Some(found)); },
        Ok(None) => {},
    }
    match parse_probestack(instrs, pos, metadata) {
        Err(e) => { return Err(e); },
        Ok(Some(found)) => { return Ok(Some(found)); },
        Ok(None) => {},
    }
    parse_single_instr(instrs, pos, metadata)
}

/// Whether the statements are exactly one unconditional jump.
pub open spec fn is_unconditional_jump(stmts: Seq<SpecStmt>) -> bool {
    stmts.len() == 1 && match stmts[0] {
        SpecStmt::Branch(Opcode::JMP, _) => true,
        _ => false,
    }
}

/// A lifted block: for each instruction or idiom its address and its
/// statements.
pub type SpecBlock = Seq<(Addr, Seq<SpecStmt>)>;

/// The contents of a lifted block.
pub open spec fn block_result(r: Result<Vec<StmtResult>, LiftError>) -> Result<SpecBlock, LiftError> {
    match r {
        Ok(block) => Ok(block_view(block@)),
        Err(e) => Err(e),
    }
}

/// The statements of a block from a position on. Lifting stops behind an
/// unconditional jump: what follows it may be data.
pub open spec fn parse_instrs_from(instrs: Seq<(Addr, InstrView)>, pos: int, metadata: VwMetadata) -> Result<
    SpecBlock,
    LiftError,
>
    decreases instrs.len() - pos,
{
    if pos < 0 || pos >= instrs.len() {
        Ok(Seq::empty())
    } else {
        match parse_instr_spec(instrs, pos, metadata) {
            Err(e) => Err(e),
            Ok(None) => Ok(Seq::empty()),
            Ok(Some((used, addr, stmts))) => if is_unconditional_jump(stmts) || used == 0 || pos + used
                > instrs.len() {
                Ok(seq![(addr, stmts)])
            } else {
                match parse_instrs_from(instrs, pos + used, metadata) {
                    Err(e) => Err(e),
                    Ok(rest) => Ok(seq![(addr, stmts)] + rest),
                }
            },
        }
    }
}

/// The statements of a whole block.
pub open spec fn parse_instrs_spec(instrs: Seq<(Addr, InstrView)>, metadata: VwMetadata) -> Result<
    SpecBlock,
    LiftError,
> {
    parse_instrs_from(instrs, 0, metadata)
}

/// A lifted prefix followed by what the rest of the block lifts to.
pub open spec fn with_prefix(prefix: SpecBlock, rest: Result<SpecBlock, LiftError>) -> Result<
    SpecBlock,
    LiftError,
> {
    match rest {
        Err(e) => Err(e),
        Ok(rest) => Ok(prefix + rest),
    }
}

/// Lifts a basic block, recognising idioms, up to and including the first
/// unconditional jump.
pub fn parse_instrs(instrs: &[BlockInstr], metadata: &VwMetadata) -> (r: Result<
    Vec<StmtResult>,
    LiftError,
>)
    ensures
        block_result(r) == parse_instrs_spec(instrs_view(instrs@), *metadata),
{
    let mut block_ir: Vec<StmtResult> = Vec::new();
    let mut pos: usize = 0;
    let ghost iv = instrs_view(instrs@);
    assert(Seq::<(Addr, Seq<SpecStmt>)>::empty() + parse_instrs_from(iv, 0, *metadata)->Ok_0
        =~= parse_instrs_from(iv, 0, *metadata)->Ok_0);
    assert(block_view(block_ir@) =~= Seq::<(Addr, Seq<SpecStmt>)>::empty());
    while pos < instrs.len()
        invariant
            pos <= instrs.len(),
            iv == instrs_view(instrs@),
            parse_instrs_spec(iv, *metadata) == with_prefix(
                block_view(block_ir@),
                parse_instrs_from(iv, pos as int, *metadata),
            ),
        decreases instrs.len() - pos,
    {
        let ghost before = block_view(block_ir@);
        match parse_instr(instrs, pos, metadata) {
            Err(e) => { return Err(e); },
            Ok(None) => {
                assert(before + Seq::<(Addr, Seq<SpecStmt>)>::empty() =~= before);
                return Ok(block_ir);
            },
            Ok(Some((used, (addr, stmts)))) => {
                let stop: bool = used == 0 || used > instrs.len() - pos || (stmts.len() == 1 && match &stmts[0] {
                    Stmt::Branch(Opcode::JMP, _) => true,
                    _ => false,
                });
                proof {
                    if stmts@.len() == 1 {
                        assert(stmts_view(stmts@)[0] == stmts@[0]@);
                    }
                    lemma_parse_instr_used(iv, pos as int, *metadata);
                }
                let ghost entry = (addr, stmts_view(stmts@));
                block_ir.push((addr, stmts));
                assert(block_view(block_ir@) =~= before.push(entry));
                if stop {
                    assert(before + seq![entry] =~= before.push(entry));
                    return Ok(block_ir);
                }
                proof {
                    let rest = parse_instrs_from(iv, pos + used, *metadata);
                    if rest is Ok {
                        assert(before + (seq![entry] + rest->Ok_0) =~= before.push(entry) + rest->Ok_0);
                    }
                }
                pos = pos + used;
            },
        }
    }
    assert(block_view(block_ir@) + Seq::<(Addr, Seq<SpecStmt>)>::empty()
        =~= block_view(block_ir@));
    Ok(block_ir)
}

/// Whatever stands at a position takes at least one instruction and no
/// more than are left.
pub proof fn lemma_parse_instr_used(instrs: Seq<(Addr, InstrView)>, pos: int, metadata: VwMetadata)
    requires
        0 <= pos,
    ensures
        match parse_instr_spec(instrs, pos, metadata) {
            Ok(Some((used, _, _))) => 1 <= used && pos + used <= instrs.len(),
            _ => true,
        },
{
    reveal(parse_instr_spec);
}

/// The lifted blocks of a function, by the address of each block.
pub type IRMap = HashMap<Addr, Vec<StmtResult>>;

/// The decoded instructions of one basic block, with the block's address.
pub type DecodedBlock = (Addr, Vec<BlockInstr>);

/// The contents of a map of lifted blocks.
pub open spec fn irmap_view(irmap: Map<Addr, Vec<StmtResult>>) -> Map<Addr, SpecBlock> {
    irmap.map_values(|block: Vec<StmtResult>| block_view(block@))
}

/// The lifted blocks of a list of decoded blocks. Where two blocks have one
/// address the later one stays.
pub open spec fn lift_cfg_spec(blocks: Seq<DecodedBlock>, metadata: VwMetadata) -> Result<
    Map<Addr, SpecBlock>,
    LiftError,
>
    decreases blocks.len(),
{
    if blocks.len() == 0 {
        Ok(Map::empty())
    } else {
        match lift_cfg_spec(blocks.drop_last(), metadata) {
            Err(e) => Err(e),
            Ok(irmap) => match parse_instrs_spec(instrs_view(blocks.last().1@), metadata) {
                Err(e) => Err(e),
                Ok(block) => Ok(irmap.insert(blocks.last().0, block)),
            },
        }
    }
}

/// Once a prefix of the blocks fails to lift, so does the whole list, with
/// the same error.
proof fn lemma_lift_cfg_error_stays(blocks: Seq<DecodedBlock>, metadata: VwMetadata, i: int)
    requires
        0 <= i <= blocks.len(),
        lift_cfg_spec(blocks.take(i), metadata) is Err,
    ensures
        lift_cfg_spec(blocks, metadata) == lift_cfg_spec(blocks.take(i), metadata),
    decreases blocks.len(),
{
    if i == blocks.len() {
        assert(blocks.take(i) =~= blocks);
    } else {
        assert(blocks.drop_last().take(i) =~= blocks.take(i));
        lemma_lift_cfg_error_stays(blocks.drop_last(), metadata, i);
    }
}

/// Lifts every block of a function.
pub fn lift_cfg(blocks: &Vec<DecodedBlock>, metadata: &VwMetadata) -> (r: Result<IRMap, LiftError>)
    ensures
        match r {
            Ok(irmap) => lift_cfg_spec(blocks@, *metadata) == Ok::<Map<Addr, SpecBlock>, LiftError>(
                irmap_view(irmap@),
            ),
            Err(e) => lift_cfg_spec(blocks@, *metadata) == Err::<Map<Addr, SpecBlock>, LiftError>(e),
        },
{
    let mut irmap: IRMap = HashMap::new();
    let mut i: usize = 0;
    assert(blocks@.take(0) =~= Seq::<DecodedBlock>::empty());
    assert(irmap_view(irmap@) =~= Map::<Addr, SpecBlock>::empty());
    while i < blocks.len()
        invariant
            i <= blocks.len(),
            lift_cfg_spec(blocks@.take(i as int), *metadata) == Ok::<Map<Addr, SpecBlock>, LiftError>(
                irmap_view(irmap@),
            ),
        decreases blocks.len() - i,
    {
        let block_addr: Addr = blocks[i].0;
        proof {
            assert(blocks@.take(i + 1).drop_last() =~= blocks@.take(i as int));
            assert(blocks@.take(i + 1).last() == blocks@[i as int]);
        }
        let block_ir = match parse_instrs(blocks[i].1.as_slice(), metadata) {
            Ok(block_ir) => block_ir,
            Err(e) => {
                proof {
                    lemma_lift_cfg_error_stays(blocks@, *metadata, i + 1);
                }
                return Err(e);
            },
        };
        let ghost before = irmap@;
        let ghost lifted_block = block_view(block_ir@);
        irmap.insert(block_addr, block_ir);
        assert(irmap_view(irmap@) =~= irmap_view(before).insert(block_addr, lifted_block));
        i = i + 1;
    }
    assert(blocks@.take(blocks.len() as int) =~= blocks@);
    Ok(irmap)
}

/// `lea reg, [rip + disp]` at an address assigns the register the address
/// of the next instruction plus the displacement.
pub proof fn lemma_lea_rip_relative(instr: InstrView, addr: Addr, metadata: VwMetadata, disp: i32, dst: Value)
    requires
        instr.opcode == Opcode::LEA,
        instr.operand(1) == Operand::RegDisp(RegSpec::spec_rip(), disp),
        sized_operand_spec(instr.operand(0)) == Ok::<Value, LiftError>(dst),
        i64::MIN <= addr + instr.length + disp <= i64::MAX,
    ensures
        lift_spec(instr, addr, metadata) == Ok::<Seq<SpecStmt>, LiftError>(
            seq![
                SpecStmt::Unop(
                    Unopcode::Mov,
                    dst,
                    Value::Imm(ImmType::Signed, ValSize::Size64, (addr + instr.length + disp) as i64),
                ),
            ],
        ),
{
}

/// `xor reg, reg` lowers to the move of the constant 0 into the register,
/// followed by the zero flag becoming unknown.
pub proof fn lemma_xor_self_is_move_zero(instr: InstrView, addr: Addr, metadata: VwMetadata, reg: RegSpec)
    requires
        instr.opcode == Opcode::XOR,
        instr.operands == seq![Operand::Register(reg), Operand::Register(reg)],
        lift_spec(instr, addr, metadata) is Ok,
    ensures
        convert_reg_spec(reg) is Ok,
        lift_spec(instr, addr, metadata)->Ok_0.len() == 2,
        lift_spec(instr, addr, metadata)->Ok_0[0] == SpecStmt::Unop(
            Unopcode::Mov,
            convert_reg_spec(reg)->Ok_0,
            Value::Imm(ImmType::Signed, ValSize::Size64, 0),
        ),
        lift_spec(instr, addr, metadata)->Ok_0[1] is Clear,
        lift_spec(instr, addr, metadata)->Ok_0[1]->Clear_0 == zf_value(),
{
}

/// A push and a pop of one 64-bit register lower to statements that mirror
/// each other: the push lowers the stack pointer by 8 and stores the
/// register at the top of the stack, the pop loads it from there and raises
/// the stack pointer by 8.
pub proof fn lemma_push_pop_mirror(push: InstrView, pop: InstrView, addr: Addr, metadata: VwMetadata, reg: RegSpec)
    requires
        push.opcode == Opcode::PUSH,
        pop.opcode == Opcode::POP,
        push.operands == seq![Operand::Register(reg)],
        pop.operands == seq![Operand::Register(reg)],
        reg.class == RegClass::Q,
        reg.num < 16,
    ensures
        lift_spec(push, addr, metadata) == Ok::<Seq<SpecStmt>, LiftError>(
            seq![
                SpecStmt::Binop(
                    Binopcode::Sub,
                    rsp_value(),
                    rsp_value(),
                    Value::Imm(ImmType::Signed, ValSize::Size64, 8),
                ),
                SpecStmt::Unop(Unopcode::Mov, stack_top_value(), convert_reg_spec(reg)->Ok_0),
            ],
        ),
        lift_spec(pop, addr, metadata) == Ok::<Seq<SpecStmt>, LiftError>(
            seq![
                SpecStmt::Unop(Unopcode::Mov, convert_reg_spec(reg)->Ok_0, stack_top_value()),
                SpecStmt::Binop(
                    Binopcode::Add,
                    rsp_value(),
                    rsp_value(),
                    Value::Imm(ImmType::Signed, ValSize::Size64, 8),
                ),
            ],
        ),
        convert_reg_spec(reg) == Ok::<Value, LiftError>(
            Value::Reg(X86Regs::spec_from_index(reg.num).unwrap(), ValSize::Size64),
        ),
{
}

} // verus!
