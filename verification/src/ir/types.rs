//! Values, memory operand shapes, opcodes and statement forms of the IR.

use crate::ir::instr::Opcode;
use vstd::prelude::*;

verus! {

/// An address in the module image; it also identifies an instruction.
pub type Addr = u64;

/// Whether an immediate was sign-extended or zero-extended by the decoder.
#[derive(Clone, Copy, Debug, PartialEq, Eq, Structural, Hash)]
pub enum ImmType {
    Signed,
    Unsigned,
}

/// Width of an operand in bits. `SizeOther` stands for operands that are not
/// modelled precisely.
#[derive(Clone, Copy, Debug, PartialEq, Eq, Structural, Hash)]
pub enum ValSize {
    Size8,
    Size16,
    Size32,
    Size64,
    Size128,
    Size256,
    Size512,
    SizeOther,
}

impl ValSize {
    /// The number of bits of a named width; `SizeOther` has none.
    pub open spec fn bits(self) -> int {
        match self {
            ValSize::Size8 => 8,
            ValSize::Size16 => 16,
            ValSize::Size32 => 32,
            ValSize::Size64 => 64,
            ValSize::Size128 => 128,
            ValSize::Size256 => 256,
            ValSize::Size512 => 512,
            ValSize::SizeOther => 0,
        }
    }

    /// The width with the given number of bits, if there is one.
    pub open spec fn of_bits(bits: int) -> Option<ValSize> {
        if bits == 8 {
            Some(ValSize::Size8)
        } else if bits == 16 {
            Some(ValSize::Size16)
        } else if bits == 32 {
            Some(ValSize::Size32)
        } else if bits == 64 {
            Some(ValSize::Size64)
        } else if bits == 128 {
            Some(ValSize::Size128)
        } else if bits == 256 {
            Some(ValSize::Size256)
        } else if bits == 512 {
            Some(ValSize::Size512)
        } else {
            None
        }
    }

    /// Looks a width up by its number of bits.
    pub fn try_from_bits(value: u32) -> (r: Option<ValSize>)
        ensures
            r == Self::of_bits(value as int),
    {
        if value == 8 {
            Some(ValSize::Size8)
        } else if value == 16 {
            Some(ValSize::Size16)
        } else if value == 32 {
            Some(ValSize::Size32)
        } else if value == 64 {
            Some(ValSize::Size64)
        } else if value == 128 {
            Some(ValSize::Size128)
        } else if value == 256 {
            Some(ValSize::Size256)
        } else if value == 512 {
            Some(ValSize::Size512)
        } else {
            None
        }
    }

    /// The width in bits; 0 for `SizeOther`.
    pub fn to_u32(&self) -> (r: u32)
        ensures
            r == self.bits(),
    {
        match self {
            ValSize::Size8 => 8,
            ValSize::Size16 => 16,
            ValSize::Size32 => 32,
            ValSize::Size64 => 64,
            ValSize::Size128 => 128,
            ValSize::Size256 => 256,
            ValSize::Size512 => 512,
            ValSize::SizeOther => 0,
        }
    }

    /// Index of the first vector register in the register namespace.
    pub fn fp_offset() -> (r: u8)
        ensures
            r == X86Regs::Zmm0.spec_index(),
    {
        X86Regs::Zmm0.index()
    }
}

/// Every width that has a number of bits is found again from it.
pub proof fn lemma_valsize_bits_roundtrip(size: ValSize)
    requires
        size != ValSize::SizeOther,
    ensures
        ValSize::of_bits(size.bits()) == Some(size),
{
}

/// The registers the analyses track: the sixteen general purpose registers,
/// five status flags, and sixteen vector registers.
#[derive(Clone, Copy, Debug, PartialEq, Eq, Structural, Hash)]
pub enum X86Regs {
    Rax,
    Rcx,
    Rdx,
    Rbx,
    Rsp,
    Rbp,
    Rsi,
    Rdi,
    R8,
    R9,
    R10,
    R11,
    R12,
    R13,
    R14,
    R15,
    Zf,
    Cf,
    Pf,
    Sf,
    Of,
    Zmm0,
    Zmm1,
    Zmm2,
    Zmm3,
    Zmm4,
    Zmm5,
    Zmm6,
    Zmm7,
    Zmm8,
    Zmm9,
    Zmm10,
    Zmm11,
    Zmm12,
    Zmm13,
    Zmm14,
    Zmm15,
}

/// How many registers there are.
pub const NUM_REGS: u8 = 37;

impl X86Regs {
    /// The position of a register in the register namespace.
    pub open spec fn spec_index(self) -> u8 {
        match self {
            X86Regs::Rax => 0,
            X86Regs::Rcx => 1,
            X86Regs::Rdx => 2,
            X86Regs::Rbx => 3,
            X86Regs::Rsp => 4,
            X86Regs::Rbp => 5,
            X86Regs::Rsi => 6,
            X86Regs::Rdi => 7,
            X86Regs::R8 => 8,
            X86Regs::R9 => 9,
            X86Regs::R10 => 10,
            X86Regs::R11 => 11,
            X86Regs::R12 => 12,
            X86Regs::R13 => 13,
            X86Regs::R14 => 14,
            X86Regs::R15 => 15,
            X86Regs::Zf => 16,
            X86Regs::Cf => 17,
            X86Regs::Pf => 18,
            X86Regs::Sf => 19,
            X86Regs::Of => 20,
            X86Regs::Zmm0 => 21,
            X86Regs::Zmm1 => 22,
            X86Regs::Zmm2 => 23,
            X86Regs::Zmm3 => 24,
            X86Regs::Zmm4 => 25,
            X86Regs::Zmm5 => 26,
            X86Regs::Zmm6 => 27,
            X86Regs::Zmm7 => 28,
            X86Regs::Zmm8 => 29,
            X86Regs::Zmm9 => 30,
            X86Regs::Zmm10 => 31,
            X86Regs::Zmm11 => 32,
            X86Regs::Zmm12 => 33,
            X86Regs::Zmm13 => 34,
            X86Regs::Zmm14 => 35,
            X86Regs::Zmm15 => 36,
        }
    }

    /// The register at a position, if the position names one.
    pub open spec fn spec_from_index(value: u8) -> Option<X86Regs> {
        if value == 0 {
            Some(X86Regs::Rax)
        } else if value == 1 {
            Some(X86Regs::Rcx)
        } else if value == 2 {
            Some(X86Regs::Rdx)
        } else if value == 3 {
            Some(X86Regs::Rbx)
        } else if value == 4 {
            Some(X86Regs::Rsp)
        } else if value == 5 {
            Some(X86Regs::Rbp)
        } else if value == 6 {
            Some(X86Regs::Rsi)
        } else if value == 7 {
            Some(X86Regs::Rdi)
        } else if value == 8 {
            Some(X86Regs::R8)
        } else if value == 9 {
            Some(X86Regs::R9)
        } else if value == 10 {
            Some(X86Regs::R10)
        } else if value == 11 {
            Some(X86Regs::R11)
        } else if value == 12 {
            Some(X86Regs::R12)
        } else if value == 13 {
            Some(X86Regs::R13)
        } else if value == 14 {
            Some(X86Regs::R14)
        } else if value == 15 {
            Some(X86Regs::R15)
        } else if value == 16 {
            Some(X86Regs::Zf)
        } else if value == 17 {
            Some(X86Regs::Cf)
        } else if value == 18 {
            Some(X86Regs::Pf)
        } else if value == 19 {
            Some(X86Regs::Sf)
        } else if value == 20 {
            Some(X86Regs::Of)
        } else if value == 21 {
            Some(X86Regs::Zmm0)
        } else if value == 22 {
            Some(X86Regs::Zmm1)
        } else if value == 23 {
            Some(X86Regs::Zmm2)
        } else if value == 24 {
            Some(X86Regs::Zmm3)
        } else if value == 25 {
            Some(X86Regs::Zmm4)
        } else if value == 26 {
            Some(X86Regs::Zmm5)
        } else if value == 27 {
            Some(X86Regs::Zmm6)
        } else if value == 28 {
            Some(X86Regs::Zmm7)
        } else if value == 29 {
            Some(X86Regs::Zmm8)
        } else if value == 30 {
            Some(X86Regs::Zmm9)
        } else if value == 31 {
            Some(X86Regs::Zmm10)
        } else if value == 32 {
            Some(X86Regs::Zmm11)
        } else if value == 33 {
            Some(X86Regs::Zmm12)
        } else if value == 34 {
            Some(X86Regs::Zmm13)
        } else if value == 35 {
            Some(X86Regs::Zmm14)
        } else if value == 36 {
            Some(X86Regs::Zmm15)
        } else {
            None
        }
    }

    /// The position of this register.
    pub fn index(self) -> (r: u8)
        ensures
            r == self.spec_index(),
            r < NUM_REGS,
    {
        match self {
            X86Regs::Rax => 0,
            X86Regs::Rcx => 1,
            X86Regs::Rdx => 2,
            X86Regs::Rbx => 3,
            X86Regs::Rsp => 4,
            X86Regs::Rbp => 5,
            X86Regs::Rsi => 6,
            X86Regs::Rdi => 7,
            X86Regs::R8 => 8,
            X86Regs::R9 => 9,
            X86Regs::R10 => 10,
            X86Regs::R11 => 11,
            X86Regs::R12 => 12,
            X86Regs::R13 => 13,
            X86Regs::R14 => 14,
            X86Regs::R15 => 15,
            X86Regs::Zf => 16,
            X86Regs::Cf => 17,
            X86Regs::Pf => 18,
            X86Regs::Sf => 19,
            X86Regs::Of => 20,
            X86Regs::Zmm0 => 21,
            X86Regs::Zmm1 => 22,
            X86Regs::Zmm2 => 23,
            X86Regs::Zmm3 => 24,
            X86Regs::Zmm4 => 25,
            X86Regs::Zmm5 => 26,
            X86Regs::Zmm6 => 27,
            X86Regs::Zmm7 => 28,
            X86Regs::Zmm8 => 29,
            X86Regs::Zmm9 => 30,
            X86Regs::Zmm10 => 31,
            X86Regs::Zmm11 => 32,
            X86Regs::Zmm12 => 33,
            X86Regs::Zmm13 => 34,
            X86Regs::Zmm14 => 35,
            X86Regs::Zmm15 => 36,
        }
    }

    /// Looks a register up by its position; `None` for a position past the
    /// last register.
    pub fn try_from(value: u8) -> (r: Option<X86Regs>)
        ensures
            r == Self::spec_from_index(value),
            r is Some <==> value < NUM_REGS,
    {
        match value {
            0 => Some(X86Regs::Rax),
            1 => Some(X86Regs::Rcx),
            2 => Some(X86Regs::Rdx),
            3 => Some(X86Regs::Rbx),
            4 => Some(X86Regs::Rsp),
            5 => Some(X86Regs::Rbp),
            6 => Some(X86Regs::Rsi),
            7 => Some(X86Regs::Rdi),
            8 => Some(X86Regs::R8),
            9 => Some(X86Regs::R9),
            10 => Some(X86Regs::R10),
            11 => Some(X86Regs::R11),
            12 => Some(X86Regs::R12),
            13 => Some(X86Regs::R13),
            14 => Some(X86Regs::R14),
            15 => Some(X86Regs::R15),
            16 => Some(X86Regs::Zf),
            17 => Some(X86Regs::Cf),
            18 => Some(X86Regs::Pf),
            19 => Some(X86Regs::Sf),
            20 => Some(X86Regs::Of),
            21 => Some(X86Regs::Zmm0),
            22 => Some(X86Regs::Zmm1),
            23 => Some(X86Regs::Zmm2),
            24 => Some(X86Regs::Zmm3),
            25 => Some(X86Regs::Zmm4),
            26 => Some(X86Regs::Zmm5),
            27 => Some(X86Regs::Zmm6),
            28 => Some(X86Regs::Zmm7),
            29 => Some(X86Regs::Zmm8),
            30 => Some(X86Regs::Zmm9),
            31 => Some(X86Regs::Zmm10),
            32 => Some(X86Regs::Zmm11),
            33 => Some(X86Regs::Zmm12),
            34 => Some(X86Regs::Zmm13),
            35 => Some(X86Regs::Zmm14),
            36 => Some(X86Regs::Zmm15),
            _ => None,
        }
    }

    /// All registers, in the order of their positions.
    pub fn iter() -> (r: Vec<X86Regs>)
        ensures
            r@.len() == NUM_REGS,
            forall|i: int| 0 <= i < NUM_REGS ==> Self::spec_from_index(i as u8) == Some(#[trigger] r@[i]),
    {
        let mut regs: Vec<X86Regs> = Vec::new();
        let mut i: u8 = 0;
        while i < NUM_REGS
            invariant
                i <= NUM_REGS,
                regs@.len() == i,
                forall|j: int| 0 <= j < i ==> Self::spec_from_index(j as u8) == Some(#[trigger] regs@[j]),
            decreases NUM_REGS - i,
        {
            match Self::try_from(i) {
                Some(reg) => regs.push(reg),
                None => {},
            }
            i = i + 1;
        }
        regs
    }
}

/// A register is found again from its position.
pub proof fn lemma_reg_index_roundtrip(reg: X86Regs)
    ensures
        X86Regs::spec_from_index(reg.spec_index()) == Some(reg),
        reg.spec_index() < NUM_REGS,
{
}

/// A position that names a register is the position of that register.
pub proof fn lemma_reg_from_index_roundtrip(value: u8)
    requires
        value < NUM_REGS,
    ensures
        X86Regs::spec_from_index(value) is Some,
        X86Regs::spec_from_index(value).unwrap().spec_index() == value,
{
}

/// One term of a memory address: a register or a constant.
#[derive(Clone, Copy, Debug, PartialEq, Eq, Structural, Hash)]
pub enum MemArg {
    Reg(X86Regs, ValSize),
    Imm(ImmType, ValSize, i64),
}

/// The shape of a memory address.
#[derive(Clone, Copy, Debug, PartialEq, Eq, Structural, Hash)]
pub enum MemArgs {
    /// `[a]`
    Mem1Arg(MemArg),
    /// `[a + b]`
    Mem2Args(MemArg, MemArg),
    /// `[a + b + c]`
    Mem3Args(MemArg, MemArg, MemArg),
    /// `[base + index * scale]`
    MemScale(MemArg, MemArg, MemArg),
}

/// An operand of an IR statement.
#[derive(Clone, Copy, Debug, PartialEq, Eq, Structural, Hash)]
pub enum Value {
    /// A memory access of the given width.
    Mem(ValSize, MemArgs),
    Reg(X86Regs, ValSize),
    Imm(ImmType, ValSize, i64),
    /// Any operand addressed relative to the instruction pointer; such
    /// operands are read-only constants of the image.
    RIPConst,
}

#[derive(Clone, Copy, Debug, PartialEq, Eq, Structural, Hash)]
pub enum Unopcode {
    Mov,
    Movsx,
}

#[derive(Clone, Copy, Debug, PartialEq, Eq, Structural, Hash)]
pub enum Binopcode {
    Test,
    Rol,
    Cmp,
    Shl,
    And,
    Add,
    Sub,
}

/// A statement of the IR. Every decoded instruction lowers to a sequence of
/// these.
#[derive(Clone, Debug, PartialEq, Eq)]
pub enum Stmt {
    /// The destination becomes unknown; the sources are what it was
    /// computed from.
    Clear(Value, Vec<Value>),
    Unop(Unopcode, Value, Value),
    Binop(Binopcode, Value, Value, Value),
    Undefined,
    Ret,
    Branch(Opcode, Value),
    Call(Value),
    /// The whole stack probe: the probed region grows by this many bytes.
    ProbeStack(u64),
}

/// The mathematical content of a [`Stmt`].
pub enum SpecStmt {
    Clear(Value, Seq<Value>),
    Unop(Unopcode, Value, Value),
    Binop(Binopcode, Value, Value, Value),
    Undefined,
    Ret,
    Branch(Opcode, Value),
    Call(Value),
    ProbeStack(u64),
}

impl View for Stmt {
    type V = SpecStmt;

    open spec fn view(&self) -> SpecStmt {
        match self {
            Stmt::Clear(dst, srcs) => SpecStmt::Clear(*dst, srcs@),
            Stmt::Unop(op, dst, src) => SpecStmt::Unop(*op, *dst, *src),
            Stmt::Binop(op, dst, src1, src2) => SpecStmt::Binop(*op, *dst, *src1, *src2),
            Stmt::Undefined => SpecStmt::Undefined,
            Stmt::Ret => SpecStmt::Ret,
            Stmt::Branch(op, target) => SpecStmt::Branch(*op, *target),
            Stmt::Call(target) => SpecStmt::Call(*target),
            Stmt::ProbeStack(n) => SpecStmt::ProbeStack(*n),
        }
    }
}

/// The contents of a list of statements.
pub open spec fn stmts_view(stmts: Seq<Stmt>) -> Seq<SpecStmt> {
    stmts.map_values(|s: Stmt| s@)
}

/// The statements of one instruction, with the instruction's address.
pub type StmtResult = (Addr, Vec<Stmt>);

/// The statements of one basic block, instruction by instruction.
pub type IRBlock = Vec<(Addr, Vec<Stmt>)>;

/// The contents of a lifted block.
pub open spec fn block_view(block: Seq<(Addr, Vec<Stmt>)>) -> Seq<(Addr, Seq<SpecStmt>)> {
    block.map_values(|e: (Addr, Vec<Stmt>)| (e.0, stmts_view(e.1@)))
}

/// Addresses of the runtime's well-known symbols.
#[derive(Clone, Copy, Debug, PartialEq, Eq, Structural)]
pub struct VwMetadata {
    pub guest_table_0: u64,
    pub lucet_tables: u64,
    pub lucet_probestack: u64,
}

/// The position of a statement: the address of its instruction and its
/// index among the statements of that instruction.
#[derive(Clone, Copy, Debug, PartialEq, Eq, Structural, Hash)]
pub struct LocIdx {
    pub addr: u64,
    pub idx: u32,
}

} // verus!
