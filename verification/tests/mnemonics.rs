use veriwasm::ir::instr::{str_eq, Opcode, RegClass};
use yaxpeax_x86::long_mode::{register_class, Opcode as Y};

#[test]
fn every_known_opcode_is_found_by_its_mnemonic() {
    let all = vec![
        (Y::MOV, Opcode::MOV),
        (Y::MOVQ, Opcode::MOVQ),
        (Y::MOVZX, Opcode::MOVZX),
        (Y::MOVD, Opcode::MOVD),
        (Y::MOVSD, Opcode::MOVSD),
        (Y::MOVSX, Opcode::MOVSX),
        (Y::MOVSXD, Opcode::MOVSXD),
        (Y::LEA, Opcode::LEA),
        (Y::TEST, Opcode::TEST),
        (Y::UCOMISS, Opcode::UCOMISS),
        (Y::UCOMISD, Opcode::UCOMISD),
        (Y::CMP, Opcode::CMP),
        (Y::AND, Opcode::AND),
        (Y::ADD, Opcode::ADD),
        (Y::SUB, Opcode::SUB),
        (Y::SHL, Opcode::SHL),
        (Y::CMOVNB, Opcode::CMOVNB),
        (Y::UD2, Opcode::UD2),
        (Y::RETURN, Opcode::RETURN),
        (Y::JMP, Opcode::JMP),
        (Y::JO, Opcode::JO),
        (Y::JNO, Opcode::JNO),
        (Y::JB, Opcode::JB),
        (Y::JNB, Opcode::JNB),
        (Y::JZ, Opcode::JZ),
        (Y::JNZ, Opcode::JNZ),
        (Y::JA, Opcode::JA),
        (Y::JNA, Opcode::JNA),
        (Y::JS, Opcode::JS),
        (Y::JNS, Opcode::JNS),
        (Y::JP, Opcode::JP),
        (Y::JNP, Opcode::JNP),
        (Y::JL, Opcode::JL),
        (Y::JGE, Opcode::JGE),
        (Y::JLE, Opcode::JLE),
        (Y::JG, Opcode::JG),
        (Y::CALL, Opcode::CALL),
        (Y::PUSH, Opcode::PUSH),
        (Y::POP, Opcode::POP),
        (Y::NOP, Opcode::NOP),
        (Y::FILD, Opcode::FILD),
        (Y::STD, Opcode::STD),
        (Y::CLD, Opcode::CLD),
        (Y::STI, Opcode::STI),
        (Y::IDIV, Opcode::IDIV),
        (Y::DIV, Opcode::DIV),
        (Y::XORPS, Opcode::XORPS),
        (Y::XORPD, Opcode::XORPD),
        (Y::XOR, Opcode::XOR),
        (Y::SETG, Opcode::SETG),
        (Y::SETLE, Opcode::SETLE),
        (Y::SETO, Opcode::SETO),
        (Y::SETNO, Opcode::SETNO),
        (Y::SETS, Opcode::SETS),
        (Y::SETNS, Opcode::SETNS),
        (Y::SETGE, Opcode::SETGE),
        (Y::SETL, Opcode::SETL),
        (Y::SETNZ, Opcode::SETNZ),
        (Y::SETZ, Opcode::SETZ),
        (Y::SETAE, Opcode::SETAE),
        (Y::SETB, Opcode::SETB),
        (Y::SETA, Opcode::SETA),
        (Y::SETBE, Opcode::SETBE),
        (Y::SETP, Opcode::SETP),
        (Y::SETNP, Opcode::SETNP),
        (Y::BSF, Opcode::BSF),
        (Y::LZCNT, Opcode::LZCNT),
        (Y::MOVSS, Opcode::MOVSS),
        (Y::MOVAPS, Opcode::MOVAPS),
        (Y::CVTSI2SS, Opcode::CVTSI2SS),
        (Y::OR, Opcode::OR),
        (Y::SHR, Opcode::SHR),
        (Y::RCL, Opcode::RCL),
        (Y::RCR, Opcode::RCR),
        (Y::ROL, Opcode::ROL),
        (Y::ROR, Opcode::ROR),
        (Y::CMOVA, Opcode::CMOVA),
        (Y::CMOVB, Opcode::CMOVB),
        (Y::CMOVG, Opcode::CMOVG),
        (Y::CMOVGE, Opcode::CMOVGE),
        (Y::CMOVL, Opcode::CMOVL),
        (Y::CMOVLE, Opcode::CMOVLE),
        (Y::CMOVNA, Opcode::CMOVNA),
        (Y::CMOVNO, Opcode::CMOVNO),
        (Y::CMOVNP, Opcode::CMOVNP),
        (Y::CMOVNS, Opcode::CMOVNS),
        (Y::CMOVNZ, Opcode::CMOVNZ),
        (Y::CMOVO, Opcode::CMOVO),
        (Y::CMOVP, Opcode::CMOVP),
        (Y::CMOVS, Opcode::CMOVS),
        (Y::CMOVZ, Opcode::CMOVZ),
        (Y::SAR, Opcode::SAR),
        (Y::ADC, Opcode::ADC),
        (Y::ROUNDSS, Opcode::ROUNDSS),
        (Y::MUL, Opcode::MUL),
        (Y::IMUL, Opcode::IMUL),
        (Y::POR, Opcode::POR),
        (Y::PSHUFB, Opcode::PSHUFB),
        (Y::PSHUFD, Opcode::PSHUFD),
        (Y::PTEST, Opcode::PTEST),
        (Y::PXOR, Opcode::PXOR),
        (Y::ANDNPS, Opcode::ANDNPS),
        (Y::CMPPD, Opcode::CMPPD),
        (Y::CMPPS, Opcode::CMPPS),
        (Y::ANDPS, Opcode::ANDPS),
        (Y::ORPS, Opcode::ORPS),
        (Y::DIVSD, Opcode::DIVSD),
        (Y::MULSS, Opcode::MULSS),
        (Y::ADDSD, Opcode::ADDSD),
        (Y::SUBSS, Opcode::SUBSS),
        (Y::ROUNDSD, Opcode::ROUNDSD),
        (Y::NOT, Opcode::NOT),
        (Y::POPCNT, Opcode::POPCNT),
        (Y::SUBSD, Opcode::SUBSD),
        (Y::MULSD, Opcode::MULSD),
        (Y::DIVSS, Opcode::DIVSS),
        (Y::DIVPD, Opcode::DIVPD),
        (Y::DIVPS, Opcode::DIVPS),
        (Y::BLENDVPS, Opcode::BLENDVPS),
        (Y::BLENDVPD, Opcode::BLENDVPD),
        (Y::MAXPD, Opcode::MAXPD),
        (Y::MAXPS, Opcode::MAXPS),
        (Y::MAXSD, Opcode::MAXSD),
        (Y::MAXSS, Opcode::MAXSS),
        (Y::MINPD, Opcode::MINPD),
        (Y::MINPS, Opcode::MINPS),
        (Y::MINSD, Opcode::MINSD),
        (Y::MINSS, Opcode::MINSS),
        (Y::MULPD, Opcode::MULPD),
        (Y::MULPS, Opcode::MULPS),
        (Y::PMULLW, Opcode::PMULLW),
        (Y::PMULLD, Opcode::PMULLD),
        (Y::CVTDQ2PS, Opcode::CVTDQ2PS),
        (Y::CVTSD2SS, Opcode::CVTSD2SS),
        (Y::CVTSI2SD, Opcode::CVTSI2SD),
        (Y::CVTSS2SD, Opcode::CVTSS2SD),
        (Y::CVTTSS2SI, Opcode::CVTTSS2SI),
        (Y::ADDPS, Opcode::ADDPS),
        (Y::ADDPD, Opcode::ADDPD),
        (Y::ADDSS, Opcode::ADDSS),
        (Y::PSLLW, Opcode::PSLLW),
        (Y::PSLLD, Opcode::PSLLD),
        (Y::PSLLQ, Opcode::PSLLQ),
        (Y::PSRLW, Opcode::PSRLW),
        (Y::PSRLD, Opcode::PSRLD),
        (Y::PSRLQ, Opcode::PSRLQ),
        (Y::PSRAW, Opcode::PSRAW),
        (Y::PSRAD, Opcode::PSRAD),
        (Y::PSUBB, Opcode::PSUBB),
        (Y::PSUBW, Opcode::PSUBW),
        (Y::PSUBD, Opcode::PSUBD),
        (Y::PSUBQ, Opcode::PSUBQ),
        (Y::PSUBSB, Opcode::PSUBSB),
        (Y::PSUBSW, Opcode::PSUBSW),
        (Y::PSUBUSB, Opcode::PSUBUSB),
        (Y::PSUBUSW, Opcode::PSUBUSW),
        (Y::PUNPCKHBW, Opcode::PUNPCKHBW),
        (Y::PUNPCKHWD, Opcode::PUNPCKHWD),
        (Y::PUNPCKHDQ, Opcode::PUNPCKHDQ),
        (Y::PUNPCKHQDQ, Opcode::PUNPCKHQDQ),
        (Y::PUNPCKLBW, Opcode::PUNPCKLBW),
        (Y::PUNPCKLWD, Opcode::PUNPCKLWD),
        (Y::PUNPCKLDQ, Opcode::PUNPCKLDQ),
        (Y::PUNPCKLQDQ, Opcode::PUNPCKLQDQ),
        (Y::PACKSSWB, Opcode::PACKSSWB),
        (Y::PACKSSDW, Opcode::PACKSSDW),
        (Y::PADDB, Opcode::PADDB),
        (Y::PADDD, Opcode::PADDD),
        (Y::PADDQ, Opcode::PADDQ),
        (Y::PADDW, Opcode::PADDW),
        (Y::PADDSB, Opcode::PADDSB),
        (Y::PADDSW, Opcode::PADDSW),
        (Y::PADDUSB, Opcode::PADDUSB),
        (Y::PADDUSW, Opcode::PADDUSW),
        (Y::PAND, Opcode::PAND),
        (Y::PANDN, Opcode::PANDN),
        (Y::PAVGB, Opcode::PAVGB),
        (Y::PAVGW, Opcode::PAVGW),
        (Y::PCMPEQB, Opcode::PCMPEQB),
        (Y::PCMPEQD, Opcode::PCMPEQD),
        (Y::PCMPEQQ, Opcode::PCMPEQQ),
        (Y::PCMPEQW, Opcode::PCMPEQW),
        (Y::PCMPGTB, Opcode::PCMPGTB),
        (Y::PCMPGTD, Opcode::PCMPGTD),
        (Y::PCMPGTQ, Opcode::PCMPGTQ),
        (Y::PCMPGTW, Opcode::PCMPGTW),
        (Y::PEXTRB, Opcode::PEXTRB),
        (Y::PEXTRW, Opcode::PEXTRW),
        (Y::PINSRB, Opcode::PINSRB),
        (Y::PINSRW, Opcode::PINSRW),
        (Y::PMAXSB, Opcode::PMAXSB),
        (Y::PMAXSW, Opcode::PMAXSW),
        (Y::PMAXUB, Opcode::PMAXUB),
        (Y::PMAXUD, Opcode::PMAXUD),
        (Y::PMAXUW, Opcode::PMAXUW),
        (Y::PMINSB, Opcode::PMINSB),
        (Y::PMINSD, Opcode::PMINSD),
        (Y::PMINSW, Opcode::PMINSW),
        (Y::PMINUB, Opcode::PMINUB),
        (Y::PMINUD, Opcode::PMINUD),
        (Y::PMINUW, Opcode::PMINUW),
        (Y::PMOVSXBW, Opcode::PMOVSXBW),
        (Y::PMOVSXWD, Opcode::PMOVSXWD),
        (Y::PMOVSXDQ, Opcode::PMOVSXDQ),
        (Y::PMOVZXBW, Opcode::PMOVZXBW),
        (Y::PMOVZXWD, Opcode::PMOVZXWD),
        (Y::PMOVZXDQ, Opcode::PMOVZXDQ),
        (Y::SQRTPD, Opcode::SQRTPD),
        (Y::SQRTPS, Opcode::SQRTPS),
        (Y::SQRTSD, Opcode::SQRTSD),
        (Y::SQRTSS, Opcode::SQRTSS),
        (Y::MOVLPS, Opcode::MOVLPS),
        (Y::MOVLHPS, Opcode::MOVLHPS),
        (Y::MOVUPS, Opcode::MOVUPS),
        (Y::SUBPD, Opcode::SUBPD),
        (Y::SUBPS, Opcode::SUBPS),
        (Y::TZCNT, Opcode::TZCNT),
        (Y::SBB, Opcode::SBB),
        (Y::BSR, Opcode::BSR),
        (Y::ANDPD, Opcode::ANDPD),
        (Y::ORPD, Opcode::ORPD),
    ];
    assert_eq!(all.len(), 221);
    for (theirs, ours) in all {
        assert_eq!(Opcode::from_mnemonic(&theirs.to_string()), ours);
    }
}

#[test]
fn other_mnemonics_are_unknown() {
    for theirs in [Y::HLT, Y::SYSCALL, Y::CPUID, Y::XCHG, Y::MOVS, Y::INT, Y::RETF, Y::CMOVNA] {
        let expected = if theirs == Y::CMOVNA { Opcode::CMOVNA } else { Opcode::Unknown };
        assert_eq!(Opcode::from_mnemonic(&theirs.to_string()), expected);
    }
    assert_eq!(Opcode::from_mnemonic("mov"), Opcode::MOV);
    assert_eq!(Opcode::from_mnemonic("ret"), Opcode::RETURN);
    assert_eq!(Opcode::from_mnemonic("return"), Opcode::Unknown);
    assert_eq!(Opcode::from_mnemonic("MOV"), Opcode::Unknown);
    assert_eq!(Opcode::from_mnemonic("mo"), Opcode::Unknown);
    assert_eq!(Opcode::from_mnemonic("movv"), Opcode::Unknown);
    assert_eq!(Opcode::from_mnemonic(""), Opcode::Unknown);
    assert_eq!(Opcode::from_mnemonic("unknown"), Opcode::Unknown);
}

#[test]
fn register_banks_are_found_by_their_names() {
    let all = vec![
        (register_class::Q, RegClass::Q),
        (register_class::D, RegClass::D),
        (register_class::W, RegClass::W),
        (register_class::B, RegClass::B),
        (register_class::RB, RegClass::RB),
        (register_class::CR, RegClass::CR),
        (register_class::DR, RegClass::DR),
        (register_class::S, RegClass::S),
        (register_class::X, RegClass::X),
        (register_class::Y, RegClass::Y),
        (register_class::Z, RegClass::Z),
        (register_class::ST, RegClass::ST),
        (register_class::MM, RegClass::MM),
        (register_class::K, RegClass::K),
        (register_class::RIP, RegClass::RIP),
        (register_class::EIP, RegClass::EIP),
        (register_class::RFLAGS, RegClass::RFlags),
        (register_class::EFLAGS, RegClass::EFlags),
    ];
    for (theirs, ours) in all {
        assert_eq!(RegClass::from_name(theirs.name()), Some(ours));
        assert_eq!(ours.width(), theirs.width());
    }
    assert_eq!(RegClass::from_name("tword"), None);
    assert_eq!(RegClass::from_name(""), None);
}

#[test]
fn strings_compare_by_their_characters() {
    assert_eq!(str_eq("mov", "mov"), true);
    assert_eq!(str_eq("mov", "movq"), false);
    assert_eq!(str_eq("mov", "moq"), false);
    assert_eq!(str_eq("", ""), true);
    assert_eq!(str_eq("é", "e"), false);
    assert_eq!(str_eq("é", "é"), true);
}
