//! A decoded x86-64 instruction as the lifter reads it: its opcode, its
//! operands, its length, and the locations it reads and writes.

use vstd::prelude::*;
use vstd::string::StrSliceExecFns;

verus! {

/// The register banks of x86-64.
#[derive(Clone, Copy, Debug, PartialEq, Eq, Structural, Hash)]
pub enum RegClass {
    /// 64-bit general purpose registers, `rax` to `r15`.
    Q,
    /// 32-bit general purpose registers.
    D,
    /// 16-bit general purpose registers.
    W,
    /// The byte registers `al` to `bh`.
    B,
    /// The byte registers `spl` to `r15b`.
    RB,
    CR,
    DR,
    S,
    /// `xmm` registers.
    X,
    /// `ymm` registers.
    Y,
    /// `zmm` registers.
    Z,
    ST,
    MM,
    K,
    RIP,
    EIP,
    RFlags,
    EFlags,
}

impl RegClass {
    /// Size in bytes of a register of this bank.
    pub open spec fn spec_width(self) -> u8 {
        match self {
            RegClass::Q => 8,
            RegClass::D => 4,
            RegClass::W => 2,
            RegClass::B => 1,
            RegClass::RB => 1,
            RegClass::CR => 8,
            RegClass::DR => 8,
            RegClass::S => 2,
            RegClass::X => 16,
            RegClass::Y => 32,
            RegClass::Z => 64,
            RegClass::ST => 10,
            RegClass::MM => 8,
            RegClass::K => 8,
            RegClass::RIP => 8,
            RegClass::EIP => 4,
            RegClass::RFlags => 8,
            RegClass::EFlags => 4,
        }
    }

    /// Size in bytes of a register of this bank.
    pub fn width(self) -> (r: u8)
        ensures
            r == self.spec_width(),
    {
        match self {
            RegClass::Q => 8,
            RegClass::D => 4,
            RegClass::W => 2,
            RegClass::B => 1,
            RegClass::RB => 1,
            RegClass::CR => 8,
            RegClass::DR => 8,
            RegClass::S => 2,
            RegClass::X => 16,
            RegClass::Y => 32,
            RegClass::Z => 64,
            RegClass::ST => 10,
            RegClass::MM => 8,
            RegClass::K => 8,
            RegClass::RIP => 8,
            RegClass::EIP => 4,
            RegClass::RFlags => 8,
            RegClass::EFlags => 4,
        }
    }
}

/// A register operand: its number within its bank, and the bank.
#[derive(Clone, Copy, Debug, PartialEq, Eq, Structural, Hash)]
pub struct RegSpec {
    pub num: u8,
    pub class: RegClass,
}

impl RegSpec {
    /// The instruction pointer.
    pub open spec fn spec_rip() -> RegSpec {
        RegSpec { num: 0, class: RegClass::RIP }
    }

    /// The instruction pointer.
    pub fn rip() -> (r: RegSpec)
        ensures
            r == Self::spec_rip(),
    {
        RegSpec { num: 0, class: RegClass::RIP }
    }

    /// Whether this register is the instruction pointer.
    pub fn is_rip(&self) -> (r: bool)
        ensures
            r == (*self == Self::spec_rip()),
    {
        self.num == 0 && self.class == RegClass::RIP
    }
}

/// An operand of a decoded instruction.
#[derive(Clone, Copy, Debug, PartialEq, Eq, Structural, Hash)]
pub enum Operand {
    ImmediateI8(i8),
    ImmediateU8(u8),
    ImmediateI16(i16),
    ImmediateU16(u16),
    ImmediateI32(i32),
    ImmediateU32(u32),
    ImmediateI64(i64),
    ImmediateU64(u64),
    Register(RegSpec),
    /// `[disp32]`
    DisplacementU32(u32),
    /// `[disp64]`
    DisplacementU64(u64),
    /// `[reg]`
    RegDeref(RegSpec),
    /// `[reg + disp]`
    RegDisp(RegSpec, i32),
    /// `[reg * scale]`
    RegScale(RegSpec, u8),
    /// `[base + index]`
    RegIndexBase(RegSpec, RegSpec),
    /// `[base + index + disp]`
    RegIndexBaseDisp(RegSpec, RegSpec, i32),
    /// `[reg * scale + disp]`
    RegScaleDisp(RegSpec, u8, i32),
    /// `[base + index * scale]`
    RegIndexBaseScale(RegSpec, RegSpec, u8),
    /// `[base + index * scale + disp]`
    RegIndexBaseScaleDisp(RegSpec, RegSpec, u8, i32),
    /// No operand at this position.
    Nothing,
    /// An operand form that the lifter does not handle, such as a masked
    /// vector operand.
    Unsupported,
}

impl Operand {
    /// Size in bytes of a register or immediate operand; `None` for the
    /// other forms.
    pub open spec fn spec_width(self) -> Option<u8> {
        match self {
            Operand::Register(reg) => Some(reg.class.spec_width()),
            Operand::ImmediateI8(_) | Operand::ImmediateU8(_) => Some(1u8),
            Operand::ImmediateI16(_) | Operand::ImmediateU16(_) => Some(2u8),
            Operand::ImmediateI32(_) | Operand::ImmediateU32(_) => Some(4u8),
            Operand::ImmediateI64(_) | Operand::ImmediateU64(_) => Some(8u8),
            _ => None,
        }
    }

    /// Size in bytes of a register or immediate operand; `None` for the
    /// other forms.
    pub fn width(&self) -> (r: Option<u8>)
        ensures
            r == self.spec_width(),
    {
        match self {
            Operand::Register(reg) => Some(reg.class.width()),
            Operand::ImmediateI8(_) | Operand::ImmediateU8(_) => Some(1),
            Operand::ImmediateI16(_) | Operand::ImmediateU16(_) => Some(2),
            Operand::ImmediateI32(_) | Operand::ImmediateU32(_) => Some(4),
            Operand::ImmediateI64(_) | Operand::ImmediateU64(_) => Some(8),
            _ => None,
        }
    }
}

/// Whether an instruction reads or writes a location.
#[derive(Clone, Copy, Debug, PartialEq, Eq, Structural, Hash)]
pub enum Direction {
    Read,
    Write,
}

/// A place that an instruction reads or writes.
#[derive(Clone, Copy, Debug, PartialEq, Eq, Structural, Hash)]
pub enum Location {
    Register(RegSpec),
    ZF,
    CF,
    /// Memory, another flag, or a place that is not known.
    Other,
}

/// One access of an instruction to a location.
#[derive(Clone, Copy, Debug, PartialEq, Eq, Structural, Hash)]
pub struct LocationUse {
    pub location: Location,
    pub direction: Direction,
}

/// The opcodes that the lifter knows by name. Every other opcode is
/// `Unknown`.
#[allow(non_camel_case_types)]
#[derive(Clone, Copy, Debug, PartialEq, Eq, Structural, Hash)]
pub enum Opcode {
    MOV,
    MOVQ,
    MOVZX,
    MOVD,
    MOVSD,
    MOVSX,
    MOVSXD,
    LEA,
    TEST,
    UCOMISS,
    UCOMISD,
    CMP,
    AND,
    ADD,
    SUB,
    SHL,
    CMOVNB,
    UD2,
    RETURN,
    JMP,
    JO,
    JNO,
    JB,
    JNB,
    JZ,
    JNZ,
    JA,
    JNA,
    JS,
    JNS,
    JP,
    JNP,
    JL,
    JGE,
    JLE,
    JG,
    CALL,
    PUSH,
    POP,
    NOP,
    FILD,
    STD,
    CLD,
    STI,
    IDIV,
    DIV,
    XORPS,
    XORPD,
    XOR,
    SETG,
    SETLE,
    SETO,
    SETNO,
    SETS,
    SETNS,
    SETGE,
    SETL,
    SETNZ,
    SETZ,
    SETAE,
    SETB,
    SETA,
    SETBE,
    SETP,
    SETNP,
    BSF,
    LZCNT,
    MOVSS,
    MOVAPS,
    CVTSI2SS,
    OR,
    SHR,
    RCL,
    RCR,
    ROL,
    ROR,
    CMOVA,
    CMOVB,
    CMOVG,
    CMOVGE,
    CMOVL,
    CMOVLE,
    CMOVNA,
    CMOVNO,
    CMOVNP,
    CMOVNS,
    CMOVNZ,
    CMOVO,
    CMOVP,
    CMOVS,
    CMOVZ,
    SAR,
    ADC,
    ROUNDSS,
    MUL,
    IMUL,
    POR,
    PSHUFB,
    PSHUFD,
    PTEST,
    PXOR,
    ANDNPS,
    CMPPD,
    CMPPS,
    ANDPS,
    ORPS,
    DIVSD,
    MULSS,
    ADDSD,
    SUBSS,
    ROUNDSD,
    NOT,
    POPCNT,
    SUBSD,
    MULSD,
    DIVSS,
    DIVPD,
    DIVPS,
    BLENDVPS,
    BLENDVPD,
    MAXPD,
    MAXPS,
    MAXSD,
    MAXSS,
    MINPD,
    MINPS,
    MINSD,
    MINSS,
    MULPD,
    MULPS,
    PMULLW,
    PMULLD,
    CVTDQ2PS,
    CVTSD2SS,
    CVTSI2SD,
    CVTSS2SD,
    CVTTSS2SI,
    ADDPS,
    ADDPD,
    ADDSS,
    PSLLW,
    PSLLD,
    PSLLQ,
    PSRLW,
    PSRLD,
    PSRLQ,
    PSRAW,
    PSRAD,
    PSUBB,
    PSUBW,
    PSUBD,
    PSUBQ,
    PSUBSB,
    PSUBSW,
    PSUBUSB,
    PSUBUSW,
    PUNPCKHBW,
    PUNPCKHWD,
    PUNPCKHDQ,
    PUNPCKHQDQ,
    PUNPCKLBW,
    PUNPCKLWD,
    PUNPCKLDQ,
    PUNPCKLQDQ,
    PACKSSWB,
    PACKSSDW,
    PADDB,
    PADDD,
    PADDQ,
    PADDW,
    PADDSB,
    PADDSW,
    PADDUSB,
    PADDUSW,
    PAND,
    PANDN,
    PAVGB,
    PAVGW,
    PCMPEQB,
    PCMPEQD,
    PCMPEQQ,
    PCMPEQW,
    PCMPGTB,
    PCMPGTD,
    PCMPGTQ,
    PCMPGTW,
    PEXTRB,
    PEXTRW,
    PINSRB,
    PINSRW,
    PMAXSB,
    PMAXSW,
    PMAXUB,
    PMAXUD,
    PMAXUW,
    PMINSB,
    PMINSD,
    PMINSW,
    PMINUB,
    PMINUD,
    PMINUW,
    PMOVSXBW,
    PMOVSXWD,
    PMOVSXDQ,
    PMOVZXBW,
    PMOVZXWD,
    PMOVZXDQ,
    SQRTPD,
    SQRTPS,
    SQRTSD,
    SQRTSS,
    MOVLPS,
    MOVLHPS,
    MOVUPS,
    SUBPD,
    SUBPS,
    TZCNT,
    SBB,
    BSR,
    ANDPD,
    ORPD,
    Unknown,
}

/// Whether two strings are the same.
pub fn str_eq(a: &str, b: &str) -> (r: bool)
    ensures
        r == (a@ == b@),
{
    let n: usize = a.unicode_len();
    if n != b.unicode_len() {
        return false;
    }
    let mut i: usize = 0;
    while i < n
        invariant
            i <= n,
            n == a@.len(),
            n == b@.len(),
            forall|j: int| 0 <= j < i ==> a@[j] == b@[j],
        decreases n - i,
    {
        if a.get_char(i) != b.get_char(i) {
            return false;
        }
        i = i + 1;
    }
    assert(a@ =~= b@);
    true
}

impl RegClass {
    /// The bank with the given name.
    pub open spec fn spec_from_name(name: Seq<char>) -> Option<RegClass> {
        if name == "qword"@ {
            Some(RegClass::Q)
        } else if name == "dword"@ {
            Some(RegClass::D)
        } else if name == "word"@ {
            Some(RegClass::W)
        } else if name == "byte"@ {
            Some(RegClass::B)
        } else if name == "rex-byte"@ {
            Some(RegClass::RB)
        } else if name == "cr"@ {
            Some(RegClass::CR)
        } else if name == "dr"@ {
            Some(RegClass::DR)
        } else if name == "segment"@ {
            Some(RegClass::S)
        } else if name == "xmm"@ {
            Some(RegClass::X)
        } else if name == "ymm"@ {
            Some(RegClass::Y)
        } else if name == "zmm"@ {
            Some(RegClass::Z)
        } else if name == "x87-stack"@ {
            Some(RegClass::ST)
        } else if name == "mmx"@ {
            Some(RegClass::MM)
        } else if name == "k"@ {
            Some(RegClass::K)
        } else if name == "rip"@ {
            Some(RegClass::RIP)
        } else if name == "eip"@ {
            Some(RegClass::EIP)
        } else if name == "rflags"@ {
            Some(RegClass::RFlags)
        } else if name == "eflags"@ {
            Some(RegClass::EFlags)
        } else {
            None
        }
    }

    /// The bank with the given name: `qword`, `dword`, `word`, `byte`,
    /// `rex-byte`, `xmm` and so on.
    pub fn from_name(name: &str) -> (r: Option<RegClass>)
        ensures
            r == Self::spec_from_name(name@),
    {
        if str_eq(name, "qword") {
            Some(RegClass::Q)
        } else if str_eq(name, "dword") {
            Some(RegClass::D)
        } else if str_eq(name, "word") {
            Some(RegClass::W)
        } else if str_eq(name, "byte") {
            Some(RegClass::B)
        } else if str_eq(name, "rex-byte") {
            Some(RegClass::RB)
        } else if str_eq(name, "cr") {
            Some(RegClass::CR)
        } else if str_eq(name, "dr") {
            Some(RegClass::DR)
        } else if str_eq(name, "segment") {
            Some(RegClass::S)
        } else if str_eq(name, "xmm") {
            Some(RegClass::X)
        } else if str_eq(name, "ymm") {
            Some(RegClass::Y)
        } else if str_eq(name, "zmm") {
            Some(RegClass::Z)
        } else if str_eq(name, "x87-stack") {
            Some(RegClass::ST)
        } else if str_eq(name, "mmx") {
            Some(RegClass::MM)
        } else if str_eq(name, "k") {
            Some(RegClass::K)
        } else if str_eq(name, "rip") {
            Some(RegClass::RIP)
        } else if str_eq(name, "eip") {
            Some(RegClass::EIP)
        } else if str_eq(name, "rflags") {
            Some(RegClass::RFlags)
        } else if str_eq(name, "eflags") {
            Some(RegClass::EFlags)
        } else {
            None
        }
    }
}

/// Part of the table of mnemonics.
pub open spec fn mnemonic_group_0(name: Seq<char>) -> Option<Opcode> {
    if name == "mov"@ {
        Some(Opcode::MOV)
    } else if name == "movq"@ {
        Some(Opcode::MOVQ)
    } else if name == "movzx"@ {
        Some(Opcode::MOVZX)
    } else if name == "movd"@ {
        Some(Opcode::MOVD)
    } else if name == "movsd"@ {
        Some(Opcode::MOVSD)
    } else if name == "movsx"@ {
        Some(Opcode::MOVSX)
    } else if name == "movsxd"@ {
        Some(Opcode::MOVSXD)
    } else if name == "lea"@ {
        Some(Opcode::LEA)
    } else if name == "test"@ {
        Some(Opcode::TEST)
    } else if name == "ucomiss"@ {
        Some(Opcode::UCOMISS)
    } else if name == "ucomisd"@ {
        Some(Opcode::UCOMISD)
    } else if name == "cmp"@ {
        Some(Opcode::CMP)
    } else if name == "and"@ {
        Some(Opcode::AND)
    } else if name == "add"@ {
        Some(Opcode::ADD)
    } else if name == "sub"@ {
        Some(Opcode::SUB)
    } else if name == "shl"@ {
        Some(Opcode::SHL)
    } else if name == "cmovnb"@ {
        Some(Opcode::CMOVNB)
    } else if name == "ud2"@ {
        Some(Opcode::UD2)
    } else if name == "ret"@ {
        Some(Opcode::RETURN)
    } else if name == "jmp"@ {
        Some(Opcode::JMP)
    } else {
        None
    }
}

fn opcode_in_group_0(name: &str) -> (r: Option<Opcode>)
    ensures
        r == mnemonic_group_0(name@),
{
    if str_eq(name, "mov") {
        Some(Opcode::MOV)
    } else if str_eq(name, "movq") {
        Some(Opcode::MOVQ)
    } else if str_eq(name, "movzx") {
        Some(Opcode::MOVZX)
    } else if str_eq(name, "movd") {
        Some(Opcode::MOVD)
    } else if str_eq(name, "movsd") {
        Some(Opcode::MOVSD)
    } else if str_eq(name, "movsx") {
        Some(Opcode::MOVSX)
    } else if str_eq(name, "movsxd") {
        Some(Opcode::MOVSXD)
    } else if str_eq(name, "lea") {
        Some(Opcode::LEA)
    } else if str_eq(name, "test") {
        Some(Opcode::TEST)
    } else if str_eq(name, "ucomiss") {
        Some(Opcode::UCOMISS)
    } else if str_eq(name, "ucomisd") {
        Some(Opcode::UCOMISD)
    } else if str_eq(name, "cmp") {
        Some(Opcode::CMP)
    } else if str_eq(name, "and") {
        Some(Opcode::AND)
    } else if str_eq(name, "add") {
        Some(Opcode::ADD)
    } else if str_eq(name, "sub") {
        Some(Opcode::SUB)
    } else if str_eq(name, "shl") {
        Some(Opcode::SHL)
    } else if str_eq(name, "cmovnb") {
        Some(Opcode::CMOVNB)
    } else if str_eq(name, "ud2") {
        Some(Opcode::UD2)
    } else if str_eq(name, "ret") {
        Some(Opcode::RETURN)
    } else if str_eq(name, "jmp") {
        Some(Opcode::JMP)
    } else {
        None
    }
}

/// Part of the table of mnemonics.
pub open spec fn mnemonic_group_1(name: Seq<char>) -> Option<Opcode> {
    if name == "jo"@ {
        Some(Opcode::JO)
    } else if name == "jno"@ {
        Some(Opcode::JNO)
    } else if name == "jb"@ {
        Some(Opcode::JB)
    } else if name == "jnb"@ {
        Some(Opcode::JNB)
    } else if name == "jz"@ {
        Some(Opcode::JZ)
    } else if name == "jnz"@ {
        Some(Opcode::JNZ)
    } else if name == "ja"@ {
        Some(Opcode::JA)
    } else if name == "jna"@ {
        Some(Opcode::JNA)
    } else if name == "js"@ {
        Some(Opcode::JS)
    } else if name == "jns"@ {
        Some(Opcode::JNS)
    } else if name == "jp"@ {
        Some(Opcode::JP)
    } else if name == "jnp"@ {
        Some(Opcode::JNP)
    } else if name == "jl"@ {
        Some(Opcode::JL)
    } else if name == "jge"@ {
        Some(Opcode::JGE)
    } else if name == "jle"@ {
        Some(Opcode::JLE)
    } else if name == "jg"@ {
        Some(Opcode::JG)
    } else if name == "call"@ {
        Some(Opcode::CALL)
    } else if name == "push"@ {
        Some(Opcode::PUSH)
    } else if name == "pop"@ {
        Some(Opcode::POP)
    } else if name == "nop"@ {
        Some(Opcode::NOP)
    } else {
        None
    }
}

fn opcode_in_group_1(name: &str) -> (r: Option<Opcode>)
    ensures
        r == mnemonic_group_1(name@),
{
    if str_eq(name, "jo") {
        Some(Opcode::JO)
    } else if str_eq(name, "jno") {
        Some(Opcode::JNO)
    } else if str_eq(name, "jb") {
        Some(Opcode::JB)
    } else if str_eq(name, "jnb") {
        Some(Opcode::JNB)
    } else if str_eq(name, "jz") {
        Some(Opcode::JZ)
    } else if str_eq(name, "jnz") {
        Some(Opcode::JNZ)
    } else if str_eq(name, "ja") {
        Some(Opcode::JA)
    } else if str_eq(name, "jna") {
        Some(Opcode::JNA)
    } else if str_eq(name, "js") {
        Some(Opcode::JS)
    } else if str_eq(name, "jns") {
        Some(Opcode::JNS)
    } else if str_eq(name, "jp") {
        Some(Opcode::JP)
    } else if str_eq(name, "jnp") {
        Some(Opcode::JNP)
    } else if str_eq(name, "jl") {
        Some(Opcode::JL)
    } else if str_eq(name, "jge") {
        Some(Opcode::JGE)
    } else if str_eq(name, "jle") {
        Some(Opcode::JLE)
    } else if str_eq(name, "jg") {
        Some(Opcode::JG)
    } else if str_eq(name, "call") {
        Some(Opcode::CALL)
    } else if str_eq(name, "push") {
        Some(Opcode::PUSH)
    } else if str_eq(name, "pop") {
        Some(Opcode::POP)
    } else if str_eq(name, "nop") {
        Some(Opcode::NOP)
    } else {
        None
    }
}

/// Part of the table of mnemonics.
pub open spec fn mnemonic_group_2(name: Seq<char>) -> Option<Opcode> {
    if name == "fild"@ {
        Some(Opcode::FILD)
    } else if name == "std"@ {
        Some(Opcode::STD)
    } else if name == "cld"@ {
        Some(Opcode::CLD)
    } else if name == "sti"@ {
        Some(Opcode::STI)
    } else if name == "idiv"@ {
        Some(Opcode::IDIV)
    } else if name == "div"@ {
        Some(Opcode::DIV)
    } else if name == "xorps"@ {
        Some(Opcode::XORPS)
    } else if name == "xorpd"@ {
        Some(Opcode::XORPD)
    } else if name == "xor"@ {
        Some(Opcode::XOR)
    } else if name == "setg"@ {
        Some(Opcode::SETG)
    } else if name == "setle"@ {
        Some(Opcode::SETLE)
    } else if name == "seto"@ {
        Some(Opcode::SETO)
    } else if name == "setno"@ {
        Some(Opcode::SETNO)
    } else if name == "sets"@ {
        Some(Opcode::SETS)
    } else if name == "setns"@ {
        Some(Opcode::SETNS)
    } else if name == "setge"@ {
        Some(Opcode::SETGE)
    } else if name == "setl"@ {
        Some(Opcode::SETL)
    } else if name == "setnz"@ {
        Some(Opcode::SETNZ)
    } else if name == "setz"@ {
        Some(Opcode::SETZ)
    } else if name == "setae"@ {
        Some(Opcode::SETAE)
    } else {
        None
    }
}

fn opcode_in_group_2(name: &str) -> (r: Option<Opcode>)
    ensures
        r == mnemonic_group_2(name@),
{
    if str_eq(name, "fild") {
        Some(Opcode::FILD)
    } else if str_eq(name, "std") {
        Some(Opcode::STD)
    } else if str_eq(name, "cld") {
        Some(Opcode::CLD)
    } else if str_eq(name, "sti") {
        Some(Opcode::STI)
    } else if str_eq(name, "idiv") {
        Some(Opcode::IDIV)
    } else if str_eq(name, "div") {
        Some(Opcode::DIV)
    } else if str_eq(name, "xorps") {
        Some(Opcode::XORPS)
    } else if str_eq(name, "xorpd") {
        Some(Opcode::XORPD)
    } else if str_eq(name, "xor") {
        Some(Opcode::XOR)
    } else if str_eq(name, "setg") {
        Some(Opcode::SETG)
    } else if str_eq(name, "setle") {
        Some(Opcode::SETLE)
    } else if str_eq(name, "seto") {
        Some(Opcode::SETO)
    } else if str_eq(name, "setno") {
        Some(Opcode::SETNO)
    } else if str_eq(name, "sets") {
        Some(Opcode::SETS)
    } else if str_eq(name, "setns") {
        Some(Opcode::SETNS)
    } else if str_eq(name, "setge") {
        Some(Opcode::SETGE)
    } else if str_eq(name, "setl") {
        Some(Opcode::SETL)
    } else if str_eq(name, "setnz") {
        Some(Opcode::SETNZ)
    } else if str_eq(name, "setz") {
        Some(Opcode::SETZ)
    } else if str_eq(name, "setae") {
        Some(Opcode::SETAE)
    } else {
        None
    }
}

/// Part of the table of mnemonics.
pub open spec fn mnemonic_group_3(name: Seq<char>) -> Option<Opcode> {
    if name == "setb"@ {
        Some(Opcode::SETB)
    } else if name == "seta"@ {
        Some(Opcode::SETA)
    } else if name == "setbe"@ {
        Some(Opcode::SETBE)
    } else if name == "setp"@ {
        Some(Opcode::SETP)
    } else if name == "setnp"@ {
        Some(Opcode::SETNP)
    } else if name == "bsf"@ {
        Some(Opcode::BSF)
    } else if name == "lzcnt"@ {
        Some(Opcode::LZCNT)
    } else if name == "movss"@ {
        Some(Opcode::MOVSS)
    } else if name == "movaps"@ {
        Some(Opcode::MOVAPS)
    } else if name == "cvtsi2ss"@ {
        Some(Opcode::CVTSI2SS)
    } else if name == "or"@ {
        Some(Opcode::OR)
    } else if name == "shr"@ {
        Some(Opcode::SHR)
    } else if name == "rcl"@ {
        Some(Opcode::RCL)
    } else if name == "rcr"@ {
        Some(Opcode::RCR)
    } else if name == "rol"@ {
        Some(Opcode::ROL)
    } else if name == "ror"@ {
        Some(Opcode::ROR)
    } else if name == "cmova"@ {
        Some(Opcode::CMOVA)
    } else if name == "cmovb"@ {
        Some(Opcode::CMOVB)
    } else if name == "cmovg"@ {
        Some(Opcode::CMOVG)
    } else if name == "cmovge"@ {
        Some(Opcode::CMOVGE)
    } else {
        None
    }
}

fn opcode_in_group_3(name: &str) -> (r: Option<Opcode>)
    ensures
        r == mnemonic_group_3(name@),
{
    if str_eq(name, "setb") {
        Some(Opcode::SETB)
    } else if str_eq(name, "seta") {
        Some(Opcode::SETA)
    } else if str_eq(name, "setbe") {
        Some(Opcode::SETBE)
    } else if str_eq(name, "setp") {
        Some(Opcode::SETP)
    } else if str_eq(name, "setnp") {
        Some(Opcode::SETNP)
    } else if str_eq(name, "bsf") {
        Some(Opcode::BSF)
    } else if str_eq(name, "lzcnt") {
        Some(Opcode::LZCNT)
    } else if str_eq(name, "movss") {
        Some(Opcode::MOVSS)
    } else if str_eq(name, "movaps") {
        Some(Opcode::MOVAPS)
    } else if str_eq(name, "cvtsi2ss") {
        Some(Opcode::CVTSI2SS)
    } else if str_eq(name, "or") {
        Some(Opcode::OR)
    } else if str_eq(name, "shr") {
        Some(Opcode::SHR)
    } else if str_eq(name, "rcl") {
        Some(Opcode::RCL)
    } else if str_eq(name, "rcr") {
        Some(Opcode::RCR)
    } else if str_eq(name, "rol") {
        Some(Opcode::ROL)
    } else if str_eq(name, "ror") {
        Some(Opcode::ROR)
    } else if str_eq(name, "cmova") {
        Some(Opcode::CMOVA)
    } else if str_eq(name, "cmovb") {
        Some(Opcode::CMOVB)
    } else if str_eq(name, "cmovg") {
        Some(Opcode::CMOVG)
    } else if str_eq(name, "cmovge") {
        Some(Opcode::CMOVGE)
    } else {
        None
    }
}

/// Part of the table of mnemonics.
pub open spec fn mnemonic_group_4(name: Seq<char>) -> Option<Opcode> {
    if name == "cmovl"@ {
        Some(Opcode::CMOVL)
    } else if name == "cmovle"@ {
        Some(Opcode::CMOVLE)
    } else if name == "cmovna"@ {
        Some(Opcode::CMOVNA)
    } else if name == "cmovno"@ {
        Some(Opcode::CMOVNO)
    } else if name == "cmovnp"@ {
        Some(Opcode::CMOVNP)
    } else if name == "cmovns"@ {
        Some(Opcode::CMOVNS)
    } else if name == "cmovnz"@ {
        Some(Opcode::CMOVNZ)
    } else if name == "cmovo"@ {
        Some(Opcode::CMOVO)
    } else if name == "cmovp"@ {
        Some(Opcode::CMOVP)
    } else if name == "cmovs"@ {
        Some(Opcode::CMOVS)
    } else if name == "cmovz"@ {
        Some(Opcode::CMOVZ)
    } else if name == "sar"@ {
        Some(Opcode::SAR)
    } else if name == "adc"@ {
        Some(Opcode::ADC)
    } else if name == "roundss"@ {
        Some(Opcode::ROUNDSS)
    } else if name == "mul"@ {
        Some(Opcode::MUL)
    } else if name == "imul"@ {
        Some(Opcode::IMUL)
    } else if name == "por"@ {
        Some(Opcode::POR)
    } else if name == "pshufb"@ {
        Some(Opcode::PSHUFB)
    } else if name == "pshufd"@ {
        Some(Opcode::PSHUFD)
    } else if name == "ptest"@ {
        Some(Opcode::PTEST)
    } else {
        None
    }
}

fn opcode_in_group_4(name: &str) -> (r: Option<Opcode>)
    ensures
        r == mnemonic_group_4(name@),
{
    if str_eq(name, "cmovl") {
        Some(Opcode::CMOVL)
    } else if str_eq(name, "cmovle") {
        Some(Opcode::CMOVLE)
    } else if str_eq(name, "cmovna") {
        Some(Opcode::CMOVNA)
    } else if str_eq(name, "cmovno") {
        Some(Opcode::CMOVNO)
    } else if str_eq(name, "cmovnp") {
        Some(Opcode::CMOVNP)
    } else if str_eq(name, "cmovns") {
        Some(Opcode::CMOVNS)
    } else if str_eq(name, "cmovnz") {
        Some(Opcode::CMOVNZ)
    } else if str_eq(name, "cmovo") {
        Some(Opcode::CMOVO)
    } else if str_eq(name, "cmovp") {
        Some(Opcode::CMOVP)
    } else if str_eq(name, "cmovs") {
        Some(Opcode::CMOVS)
    } else if str_eq(name, "cmovz") {
        Some(Opcode::CMOVZ)
    } else if str_eq(name, "sar") {
        Some(Opcode::SAR)
    } else if str_eq(name, "adc") {
        Some(Opcode::ADC)
    } else if str_eq(name, "roundss") {
        Some(Opcode::ROUNDSS)
    } else if str_eq(name, "mul") {
        Some(Opcode::MUL)
    } else if str_eq(name, "imul") {
        Some(Opcode::IMUL)
    } else if str_eq(name, "por") {
        Some(Opcode::POR)
    } else if str_eq(name, "pshufb") {
        Some(Opcode::PSHUFB)
    } else if str_eq(name, "pshufd") {
        Some(Opcode::PSHUFD)
    } else if str_eq(name, "ptest") {
        Some(Opcode::PTEST)
    } else {
        None
    }
}

/// Part of the table of mnemonics.
pub open spec fn mnemonic_group_5(name: Seq<char>) -> Option<Opcode> {
    if name == "pxor"@ {
        Some(Opcode::PXOR)
    } else if name == "andnps"@ {
        Some(Opcode::ANDNPS)
    } else if name == "cmppd"@ {
        Some(Opcode::CMPPD)
    } else if name == "cmpps"@ {
        Some(Opcode::CMPPS)
    } else if name == "andps"@ {
        Some(Opcode::ANDPS)
    } else if name == "orps"@ {
        Some(Opcode::ORPS)
    } else if name == "divsd"@ {
        Some(Opcode::DIVSD)
    } else if name == "mulss"@ {
        Some(Opcode::MULSS)
    } else if name == "addsd"@ {
        Some(Opcode::ADDSD)
    } else if name == "subss"@ {
        Some(Opcode::SUBSS)
    } else if name == "roundsd"@ {
        Some(Opcode::ROUNDSD)
    } else if name == "not"@ {
        Some(Opcode::NOT)
    } else if name == "popcnt"@ {
        Some(Opcode::POPCNT)
    } else if name == "subsd"@ {
        Some(Opcode::SUBSD)
    } else if name == "mulsd"@ {
        Some(Opcode::MULSD)
    } else if name == "divss"@ {
        Some(Opcode::DIVSS)
    } else if name == "divpd"@ {
        Some(Opcode::DIVPD)
    } else if name == "divps"@ {
        Some(Opcode::DIVPS)
    } else if name == "blendvps"@ {
        Some(Opcode::BLENDVPS)
    } else if name == "blendvpd"@ {
        Some(Opcode::BLENDVPD)
    } else {
        None
    }
}

fn opcode_in_group_5(name: &str) -> (r: Option<Opcode>)
    ensures
        r == mnemonic_group_5(name@),
{
    if str_eq(name, "pxor") {
        Some(Opcode::PXOR)
    } else if str_eq(name, "andnps") {
        Some(Opcode::ANDNPS)
    } else if str_eq(name, "cmppd") {
        Some(Opcode::CMPPD)
    } else if str_eq(name, "cmpps") {
        Some(Opcode::CMPPS)
    } else if str_eq(name, "andps") {
        Some(Opcode::ANDPS)
    } else if str_eq(name, "orps") {
        Some(Opcode::ORPS)
    } else if str_eq(name, "divsd") {
        Some(Opcode::DIVSD)
    } else if str_eq(name, "mulss") {
        Some(Opcode::MULSS)
    } else if str_eq(name, "addsd") {
        Some(Opcode::ADDSD)
    } else if str_eq(name, "subss") {
        Some(Opcode::SUBSS)
    } else if str_eq(name, "roundsd") {
        Some(Opcode::ROUNDSD)
    } else if str_eq(name, "not") {
        Some(Opcode::NOT)
    } else if str_eq(name, "popcnt") {
        Some(Opcode::POPCNT)
    } else if str_eq(name, "subsd") {
        Some(Opcode::SUBSD)
    } else if str_eq(name, "mulsd") {
        Some(Opcode::MULSD)
    } else if str_eq(name, "divss") {
        Some(Opcode::DIVSS)
    } else if str_eq(name, "divpd") {
        Some(Opcode::DIVPD)
    } else if str_eq(name, "divps") {
        Some(Opcode::DIVPS)
    } else if str_eq(name, "blendvps") {
        Some(Opcode::BLENDVPS)
    } else if str_eq(name, "blendvpd") {
        Some(Opcode::BLENDVPD)
    } else {
        None
    }
}

/// Part of the table of mnemonics.
pub open spec fn mnemonic_group_6(name: Seq<char>) -> Option<Opcode> {
    if name == "maxpd"@ {
        Some(Opcode::MAXPD)
    } else if name == "maxps"@ {
        Some(Opcode::MAXPS)
    } else if name == "maxsd"@ {
        Some(Opcode::MAXSD)
    } else if name == "maxss"@ {
        Some(Opcode::MAXSS)
    } else if name == "minpd"@ {
        Some(Opcode::MINPD)
    } else if name == "minps"@ {
        Some(Opcode::MINPS)
    } else if name == "minsd"@ {
        Some(Opcode::MINSD)
    } else if name == "minss"@ {
        Some(Opcode::MINSS)
    } else if name == "mulpd"@ {
        Some(Opcode::MULPD)
    } else if name == "mulps"@ {
        Some(Opcode::MULPS)
    } else if name == "pmullw"@ {
        Some(Opcode::PMULLW)
    } else if name == "pmulld"@ {
        Some(Opcode::PMULLD)
    } else if name == "cvtdq2ps"@ {
        Some(Opcode::CVTDQ2PS)
    } else if name == "cvtsd2ss"@ {
        Some(Opcode::CVTSD2SS)
    } else if name == "cvtsi2sd"@ {
        Some(Opcode::CVTSI2SD)
    } else if name == "cvtss2sd"@ {
        Some(Opcode::CVTSS2SD)
    } else if name == "cvttss2si"@ {
        Some(Opcode::CVTTSS2SI)
    } else if name == "addps"@ {
        Some(Opcode::ADDPS)
    } else if name == "addpd"@ {
        Some(Opcode::ADDPD)
    } else if name == "addss"@ {
        Some(Opcode::ADDSS)
    } else {
        None
    }
}

fn opcode_in_group_6(name: &str) -> (r: Option<Opcode>)
    ensures
        r == mnemonic_group_6(name@),
{
    if str_eq(name, "maxpd") {
        Some(Opcode::MAXPD)
    } else if str_eq(name, "maxps") {
        Some(Opcode::MAXPS)
    } else if str_eq(name, "maxsd") {
        Some(Opcode::MAXSD)
    } else if str_eq(name, "maxss") {
        Some(Opcode::MAXSS)
    } else if str_eq(name, "minpd") {
        Some(Opcode::MINPD)
    } else if str_eq(name, "minps") {
        Some(Opcode::MINPS)
    } else if str_eq(name, "minsd") {
        Some(Opcode::MINSD)
    } else if str_eq(name, "minss") {
        Some(Opcode::MINSS)
    } else if str_eq(name, "mulpd") {
        Some(Opcode::MULPD)
    } else if str_eq(name, "mulps") {
        Some(Opcode::MULPS)
    } else if str_eq(name, "pmullw") {
        Some(Opcode::PMULLW)
    } else if str_eq(name, "pmulld") {
        Some(Opcode::PMULLD)
    } else if str_eq(name, "cvtdq2ps") {
        Some(Opcode::CVTDQ2PS)
    } else if str_eq(name, "cvtsd2ss") {
        Some(Opcode::CVTSD2SS)
    } else if str_eq(name, "cvtsi2sd") {
        Some(Opcode::CVTSI2SD)
    } else if str_eq(name, "cvtss2sd") {
        Some(Opcode::CVTSS2SD)
    } else if str_eq(name, "cvttss2si") {
        Some(Opcode::CVTTSS2SI)
    } else if str_eq(name, "addps") {
        Some(Opcode::ADDPS)
    } else if str_eq(name, "addpd") {
        Some(Opcode::ADDPD)
    } else if str_eq(name, "addss") {
        Some(Opcode::ADDSS)
    } else {
        None
    }
}

/// Part of the table of mnemonics.
pub open spec fn mnemonic_group_7(name: Seq<char>) -> Option<Opcode> {
    if name == "psllw"@ {
        Some(Opcode::PSLLW)
    } else if name == "pslld"@ {
        Some(Opcode::PSLLD)
    } else if name == "psllq"@ {
        Some(Opcode::PSLLQ)
    } else if name == "psrlw"@ {
        Some(Opcode::PSRLW)
    } else if name == "psrld"@ {
        Some(Opcode::PSRLD)
    } else if name == "psrlq"@ {
        Some(Opcode::PSRLQ)
    } else if name == "psraw"@ {
        Some(Opcode::PSRAW)
    } else if name == "psrad"@ {
        Some(Opcode::PSRAD)
    } else if name == "psubb"@ {
        Some(Opcode::PSUBB)
    } else if name == "psubw"@ {
        Some(Opcode::PSUBW)
    } else if name == "psubd"@ {
        Some(Opcode::PSUBD)
    } else if name == "psubq"@ {
        Some(Opcode::PSUBQ)
    } else if name == "psubsb"@ {
        Some(Opcode::PSUBSB)
    } else if name == "psubsw"@ {
        Some(Opcode::PSUBSW)
    } else if name == "psubusb"@ {
        Some(Opcode::PSUBUSB)
    } else if name == "psubusw"@ {
        Some(Opcode::PSUBUSW)
    } else if name == "punpckhbw"@ {
        Some(Opcode::PUNPCKHBW)
    } else if name == "punpckhwd"@ {
        Some(Opcode::PUNPCKHWD)
    } else if name == "punpckhdq"@ {
        Some(Opcode::PUNPCKHDQ)
    } else if name == "punpckhqdq"@ {
        Some(Opcode::PUNPCKHQDQ)
    } else {
        None
    }
}

fn opcode_in_group_7(name: &str) -> (r: Option<Opcode>)
    ensures
        r == mnemonic_group_7(name@),
{
    if str_eq(name, "psllw") {
        Some(Opcode::PSLLW)
    } else if str_eq(name, "pslld") {
        Some(Opcode::PSLLD)
    } else if str_eq(name, "psllq") {
        Some(Opcode::PSLLQ)
    } else if str_eq(name, "psrlw") {
        Some(Opcode::PSRLW)
    } else if str_eq(name, "psrld") {
        Some(Opcode::PSRLD)
    } else if str_eq(name, "psrlq") {
        Some(Opcode::PSRLQ)
    } else if str_eq(name, "psraw") {
        Some(Opcode::PSRAW)
    } else if str_eq(name, "psrad") {
        Some(Opcode::PSRAD)
    } else if str_eq(name, "psubb") {
        Some(Opcode::PSUBB)
    } else if str_eq(name, "psubw") {
        Some(Opcode::PSUBW)
    } else if str_eq(name, "psubd") {
        Some(Opcode::PSUBD)
    } else if str_eq(name, "psubq") {
        Some(Opcode::PSUBQ)
    } else if str_eq(name, "psubsb") {
        Some(Opcode::PSUBSB)
    } else if str_eq(name, "psubsw") {
        Some(Opcode::PSUBSW)
    } else if str_eq(name, "psubusb") {
        Some(Opcode::PSUBUSB)
    } else if str_eq(name, "psubusw") {
        Some(Opcode::PSUBUSW)
    } else if str_eq(name, "punpckhbw") {
        Some(Opcode::PUNPCKHBW)
    } else if str_eq(name, "punpckhwd") {
        Some(Opcode::PUNPCKHWD)
    } else if str_eq(name, "punpckhdq") {
        Some(Opcode::PUNPCKHDQ)
    } else if str_eq(name, "punpckhqdq") {
        Some(Opcode::PUNPCKHQDQ)
    } else {
        None
    }
}

/// Part of the table of mnemonics.
pub open spec fn mnemonic_group_8(name: Seq<char>) -> Option<Opcode> {
    if name == "punpcklbw"@ {
        Some(Opcode::PUNPCKLBW)
    } else if name == "punpcklwd"@ {
        Some(Opcode::PUNPCKLWD)
    } else if name == "punpckldq"@ {
        Some(Opcode::PUNPCKLDQ)
    } else if name == "punpcklqdq"@ {
        Some(Opcode::PUNPCKLQDQ)
    } else if name == "packsswb"@ {
        Some(Opcode::PACKSSWB)
    } else if name == "packssdw"@ {
        Some(Opcode::PACKSSDW)
    } else if name == "paddb"@ {
        Some(Opcode::PADDB)
    } else if name == "paddd"@ {
        Some(Opcode::PADDD)
    } else if name == "paddq"@ {
        Some(Opcode::PADDQ)
    } else if name == "paddw"@ {
        Some(Opcode::PADDW)
    } else if name == "paddsb"@ {
        Some(Opcode::PADDSB)
    } else if name == "paddsw"@ {
        Some(Opcode::PADDSW)
    } else if name == "paddusb"@ {
        Some(Opcode::PADDUSB)
    } else if name == "paddusw"@ {
        Some(Opcode::PADDUSW)
    } else if name == "pand"@ {
        Some(Opcode::PAND)
    } else if name == "pandn"@ {
        Some(Opcode::PANDN)
    } else if name == "pavgb"@ {
        Some(Opcode::PAVGB)
    } else if name == "pavgw"@ {
        Some(Opcode::PAVGW)
    } else if name == "pcmpeqb"@ {
        Some(Opcode::PCMPEQB)
    } else if name == "pcmpeqd"@ {
        Some(Opcode::PCMPEQD)
    } else {
        None
    }
}

fn opcode_in_group_8(name: &str) -> (r: Option<Opcode>)
    ensures
        r == mnemonic_group_8(name@),
{
    if str_eq(name, "punpcklbw") {
        Some(Opcode::PUNPCKLBW)
    } else if str_eq(name, "punpcklwd") {
        Some(Opcode::PUNPCKLWD)
    } else if str_eq(name, "punpckldq") {
        Some(Opcode::PUNPCKLDQ)
    } else if str_eq(name, "punpcklqdq") {
        Some(Opcode::PUNPCKLQDQ)
    } else if str_eq(name, "packsswb") {
        Some(Opcode::PACKSSWB)
    } else if str_eq(name, "packssdw") {
        Some(Opcode::PACKSSDW)
    } else if str_eq(name, "paddb") {
        Some(Opcode::PADDB)
    } else if str_eq(name, "paddd") {
        Some(Opcode::PADDD)
    } else if str_eq(name, "paddq") {
        Some(Opcode::PADDQ)
    } else if str_eq(name, "paddw") {
        Some(Opcode::PADDW)
    } else if str_eq(name, "paddsb") {
        Some(Opcode::PADDSB)
    } else if str_eq(name, "paddsw") {
        Some(Opcode::PADDSW)
    } else if str_eq(name, "paddusb") {
        Some(Opcode::PADDUSB)
    } else if str_eq(name, "paddusw") {
        Some(Opcode::PADDUSW)
    } else if str_eq(name, "pand") {
        Some(Opcode::PAND)
    } else if str_eq(name, "pandn") {
        Some(Opcode::PANDN)
    } else if str_eq(name, "pavgb") {
        Some(Opcode::PAVGB)
    } else if str_eq(name, "pavgw") {
        Some(Opcode::PAVGW)
    } else if str_eq(name, "pcmpeqb") {
        Some(Opcode::PCMPEQB)
    } else if str_eq(name, "pcmpeqd") {
        Some(Opcode::PCMPEQD)
    } else {
        None
    }
}

/// Part of the table of mnemonics.
pub open spec fn mnemonic_group_9(name: Seq<char>) -> Option<Opcode> {
    if name == "pcmpeqq"@ {
        Some(Opcode::PCMPEQQ)
    } else if name == "pcmpeqw"@ {
        Some(Opcode::PCMPEQW)
    } else if name == "pcmpgtb"@ {
        Some(Opcode::PCMPGTB)
    } else if name == "pcmpgtd"@ {
        Some(Opcode::PCMPGTD)
    } else if name == "pcmpgtq"@ {
        Some(Opcode::PCMPGTQ)
    } else if name == "pcmpgtw"@ {
        Some(Opcode::PCMPGTW)
    } else if name == "pextrb"@ {
        Some(Opcode::PEXTRB)
    } else if name == "pextrw"@ {
        Some(Opcode::PEXTRW)
    } else if name == "pinsrb"@ {
        Some(Opcode::PINSRB)
    } else if name == "pinsrw"@ {
        Some(Opcode::PINSRW)
    } else if name == "pmaxsb"@ {
        Some(Opcode::PMAXSB)
    } else if name == "pmaxsw"@ {
        Some(Opcode::PMAXSW)
    } else if name == "pmaxub"@ {
        Some(Opcode::PMAXUB)
    } else if name == "pmaxud"@ {
        Some(Opcode::PMAXUD)
    } else if name == "pmaxuw"@ {
        Some(Opcode::PMAXUW)
    } else if name == "pminsb"@ {
        Some(Opcode::PMINSB)
    } else if name == "pminsd"@ {
        Some(Opcode::PMINSD)
    } else if name == "pminsw"@ {
        Some(Opcode::PMINSW)
    } else if name == "pminub"@ {
        Some(Opcode::PMINUB)
    } else if name == "pminud"@ {
        Some(Opcode::PMINUD)
    } else {
        None
    }
}

fn opcode_in_group_9(name: &str) -> (r: Option<Opcode>)
    ensures
        r == mnemonic_group_9(name@),
{
    if str_eq(name, "pcmpeqq") {
        Some(Opcode::PCMPEQQ)
    } else if str_eq(name, "pcmpeqw") {
        Some(Opcode::PCMPEQW)
    } else if str_eq(name, "pcmpgtb") {
        Some(Opcode::PCMPGTB)
    } else if str_eq(name, "pcmpgtd") {
        Some(Opcode::PCMPGTD)
    } else if str_eq(name, "pcmpgtq") {
        Some(Opcode::PCMPGTQ)
    } else if str_eq(name, "pcmpgtw") {
        Some(Opcode::PCMPGTW)
    } else if str_eq(name, "pextrb") {
        Some(Opcode::PEXTRB)
    } else if str_eq(name, "pextrw") {
        Some(Opcode::PEXTRW)
    } else if str_eq(name, "pinsrb") {
        Some(Opcode::PINSRB)
    } else if str_eq(name, "pinsrw") {
        Some(Opcode::PINSRW)
    } else if str_eq(name, "pmaxsb") {
        Some(Opcode::PMAXSB)
    } else if str_eq(name, "pmaxsw") {
        Some(Opcode::PMAXSW)
    } else if str_eq(name, "pmaxub") {
        Some(Opcode::PMAXUB)
    } else if str_eq(name, "pmaxud") {
        Some(Opcode::PMAXUD)
    } else if str_eq(name, "pmaxuw") {
        Some(Opcode::PMAXUW)
    } else if str_eq(name, "pminsb") {
        Some(Opcode::PMINSB)
    } else if str_eq(name, "pminsd") {
        Some(Opcode::PMINSD)
    } else if str_eq(name, "pminsw") {
        Some(Opcode::PMINSW)
    } else if str_eq(name, "pminub") {
        Some(Opcode::PMINUB)
    } else if str_eq(name, "pminud") {
        Some(Opcode::PMINUD)
    } else {
        None
    }
}

/// Part of the table of mnemonics.
pub open spec fn mnemonic_group_10(name: Seq<char>) -> Option<Opcode> {
    if name == "pminuw"@ {
        Some(Opcode::PMINUW)
    } else if name == "pmovsxbw"@ {
        Some(Opcode::PMOVSXBW)
    } else if name == "pmovsxwd"@ {
        Some(Opcode::PMOVSXWD)
    } else if name == "pmovsxdq"@ {
        Some(Opcode::PMOVSXDQ)
    } else if name == "pmovzxbw"@ {
        Some(Opcode::PMOVZXBW)
    } else if name == "pmovzxwd"@ {
        Some(Opcode::PMOVZXWD)
    } else if name == "pmovzxdq"@ {
        Some(Opcode::PMOVZXDQ)
    } else if name == "sqrtpd"@ {
        Some(Opcode::SQRTPD)
    } else if name == "sqrtps"@ {
        Some(Opcode::SQRTPS)
    } else if name == "sqrtsd"@ {
        Some(Opcode::SQRTSD)
    } else if name == "sqrtss"@ {
        Some(Opcode::SQRTSS)
    } else if name == "movlps"@ {
        Some(Opcode::MOVLPS)
    } else if name == "movlhps"@ {
        Some(Opcode::MOVLHPS)
    } else if name == "movups"@ {
        Some(Opcode::MOVUPS)
    } else if name == "subpd"@ {
        Some(Opcode::SUBPD)
    } else if name == "subps"@ {
        Some(Opcode::SUBPS)
    } else if name == "tzcnt"@ {
        Some(Opcode::TZCNT)
    } else if name == "sbb"@ {
        Some(Opcode::SBB)
    } else if name == "bsr"@ {
        Some(Opcode::BSR)
    } else if name == "andpd"@ {
        Some(Opcode::ANDPD)
    } else {
        None
    }
}

fn opcode_in_group_10(name: &str) -> (r: Option<Opcode>)
    ensures
        r == mnemonic_group_10(name@),
{
    if str_eq(name, "pminuw") {
        Some(Opcode::PMINUW)
    } else if str_eq(name, "pmovsxbw") {
        Some(Opcode::PMOVSXBW)
    } else if str_eq(name, "pmovsxwd") {
        Some(Opcode::PMOVSXWD)
    } else if str_eq(name, "pmovsxdq") {
        Some(Opcode::PMOVSXDQ)
    } else if str_eq(name, "pmovzxbw") {
        Some(Opcode::PMOVZXBW)
    } else if str_eq(name, "pmovzxwd") {
        Some(Opcode::PMOVZXWD)
    } else if str_eq(name, "pmovzxdq") {
        Some(Opcode::PMOVZXDQ)
    } else if str_eq(name, "sqrtpd") {
        Some(Opcode::SQRTPD)
    } else if str_eq(name, "sqrtps") {
        Some(Opcode::SQRTPS)
    } else if str_eq(name, "sqrtsd") {
        Some(Opcode::SQRTSD)
    } else if str_eq(name, "sqrtss") {
        Some(Opcode::SQRTSS)
    } else if str_eq(name, "movlps") {
        Some(Opcode::MOVLPS)
    } else if str_eq(name, "movlhps") {
        Some(Opcode::MOVLHPS)
    } else if str_eq(name, "movups") {
        Some(Opcode::MOVUPS)
    } else if str_eq(name, "subpd") {
        Some(Opcode::SUBPD)
    } else if str_eq(name, "subps") {
        Some(Opcode::SUBPS)
    } else if str_eq(name, "tzcnt") {
        Some(Opcode::TZCNT)
    } else if str_eq(name, "sbb") {
        Some(Opcode::SBB)
    } else if str_eq(name, "bsr") {
        Some(Opcode::BSR)
    } else if str_eq(name, "andpd") {
        Some(Opcode::ANDPD)
    } else {
        None
    }
}

/// Part of the table of mnemonics.
pub open spec fn mnemonic_group_11(name: Seq<char>) -> Option<Opcode> {
    if name == "orpd"@ {
        Some(Opcode::ORPD)
    } else {
        None
    }
}

fn opcode_in_group_11(name: &str) -> (r: Option<Opcode>)
    ensures
        r == mnemonic_group_11(name@),
{
    if str_eq(name, "orpd") {
        Some(Opcode::ORPD)
    } else {
        None
    }
}

impl Opcode {
    /// The opcode with the given mnemonic in lower case; `Unknown` for a
    /// mnemonic that the lifter does not know.
    pub open spec fn spec_from_mnemonic(name: Seq<char>) -> Opcode {
        if mnemonic_group_0(name) is Some {
            mnemonic_group_0(name)->Some_0
        } else if mnemonic_group_1(name) is Some {
            mnemonic_group_1(name)->Some_0
        } else if mnemonic_group_2(name) is Some {
            mnemonic_group_2(name)->Some_0
        } else if mnemonic_group_3(name) is Some {
            mnemonic_group_3(name)->Some_0
        } else if mnemonic_group_4(name) is Some {
            mnemonic_group_4(name)->Some_0
        } else if mnemonic_group_5(name) is Some {
            mnemonic_group_5(name)->Some_0
        } else if mnemonic_group_6(name) is Some {
            mnemonic_group_6(name)->Some_0
        } else if mnemonic_group_7(name) is Some {
            mnemonic_group_7(name)->Some_0
        } else if mnemonic_group_8(name) is Some {
            mnemonic_group_8(name)->Some_0
        } else if mnemonic_group_9(name) is Some {
            mnemonic_group_9(name)->Some_0
        } else if mnemonic_group_10(name) is Some {
            mnemonic_group_10(name)->Some_0
        } else if mnemonic_group_11(name) is Some {
            mnemonic_group_11(name)->Some_0
        } else {
            Opcode::Unknown
        }
    }

    /// The opcode with the given mnemonic in lower case, such as `mov`,
    /// `movzx` or `ret`.
    pub fn from_mnemonic(name: &str) -> (r: Opcode)
        ensures
            r == Self::spec_from_mnemonic(name@),
    {
        match opcode_in_group_0(name) {
            Some(opcode) => { return opcode; },
            None => {},
        }
        match opcode_in_group_1(name) {
            Some(opcode) => { return opcode; },
            None => {},
        }
        match opcode_in_group_2(name) {
            Some(opcode) => { return opcode; },
            None => {},
        }
        match opcode_in_group_3(name) {
            Some(opcode) => { return opcode; },
            None => {},
        }
        match opcode_in_group_4(name) {
            Some(opcode) => { return opcode; },
            None => {},
        }
        match opcode_in_group_5(name) {
            Some(opcode) => { return opcode; },
            None => {},
        }
        match opcode_in_group_6(name) {
            Some(opcode) => { return opcode; },
            None => {},
        }
        match opcode_in_group_7(name) {
            Some(opcode) => { return opcode; },
            None => {},
        }
        match opcode_in_group_8(name) {
            Some(opcode) => { return opcode; },
            None => {},
        }
        match opcode_in_group_9(name) {
            Some(opcode) => { return opcode; },
            None => {},
        }
        match opcode_in_group_10(name) {
            Some(opcode) => { return opcode; },
            None => {},
        }
        match opcode_in_group_11(name) {
            Some(opcode) => { return opcode; },
            None => {},
        }
        Opcode::Unknown
    }
}

/// A decoded instruction.
#[derive(Clone, Debug, PartialEq, Eq)]
pub struct Instr {
    pub opcode: Opcode,
    pub operands: Vec<Operand>,
    /// Length of the encoding in bytes.
    pub length: u8,
    /// Every location the instruction reads or writes.
    pub locations: Vec<LocationUse>,
}

/// The mathematical content of an [`Instr`].
pub struct InstrView {
    pub opcode: Opcode,
    pub operands: Seq<Operand>,
    pub length: u8,
    pub locations: Seq<LocationUse>,
}

impl InstrView {
    /// The operand at a position; `Nothing` past the last operand.
    pub open spec fn operand(self, i: int) -> Operand {
        if 0 <= i < self.operands.len() {
            self.operands[i]
        } else {
            Operand::Nothing
        }
    }
}

impl View for Instr {
    type V = InstrView;

    open spec fn view(&self) -> InstrView {
        InstrView {
            opcode: self.opcode,
            operands: self.operands@,
            length: self.length,
            locations: self.locations@,
        }
    }
}

impl Instr {
    /// The opcode.
    pub fn opcode(&self) -> (r: Opcode)
        ensures
            r == self@.opcode,
    {
        self.opcode
    }

    /// The operand at a position; `Nothing` past the last operand.
    pub fn operand(&self, i: u8) -> (r: Operand)
        ensures
            r == self@.operand(i as int),
    {
        if (i as usize) < self.operands.len() {
            self.operands[i as usize]
        } else {
            Operand::Nothing
        }
    }

    /// The number of operands.
    pub fn operand_count(&self) -> (r: usize)
        ensures
            r == self@.operands.len(),
    {
        self.operands.len()
    }
}

} // verus!
