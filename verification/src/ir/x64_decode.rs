use crate::ir::cfg::{VwBlock, VwCfg};
use crate::ir::x64::{DataLoc, RegClass, X64Instruction, X64Opcode, X64Operand, X64Reg};
use std::collections::HashMap;
use vstd::prelude::*;
use yaxpeax_arch::{AddressBase, Decoder, LengthedInstruction};
use yaxpeax_x86::long_mode::{InstDecoder, Opcode, Operand, RegSpec};

verus! {

#[verifier::external_type_specification]
#[verifier::external_body]
pub struct ExYaxRegSpec(RegSpec);

#[verifier::external_type_specification]
pub struct ExYaxOperand(Operand);

#[verifier::external_type_specification]
pub struct ExYaxOpcode(Opcode);

/// An instruction as the decoder gives it: its opcode, its operands and its
/// length in bytes.
pub struct RawX64 {
    pub opcode: Opcode,
    pub operands: Vec<Operand>,
    pub length: u8,
}

/// What the decoder reads from the start of `bytes`: the opcode, operands and
/// length of the first instruction, or `None` when they begin with none.
pub uninterp spec fn x64_decoded(bytes: Seq<u8>) -> Option<(Opcode, Seq<Operand>, u8)>;

/// The number, class name and width of a decoded register.
pub uninterp spec fn x64_reg_parts(r: RegSpec) -> (u8, Seq<char>, u8);

/// `yaxpeax_x86`'s decoder in its default configuration
/// (`InstDecoder::decode`) on `bytes`: the opcode (`Instruction::opcode`), the
/// operands (`operand_count` and `operand`) and the length (`len`) of the
/// first instruction; `None` when the decoder refuses the bytes.
#[verifier::external_body]
fn decode_raw(bytes: &[u8]) -> (r: Option<RawX64>)
    ensures
        match r {
            Some(d) => x64_decoded(bytes@) == Some((d.opcode, d.operands@, d.length)),
            None => x64_decoded(bytes@) is None,
        },
{
    let i = InstDecoder::default().decode(bytes.iter().cloned()).ok()?;
    let operands = (0..i.operand_count()).map(|k| i.operand(k)).collect();
    Some(RawX64 { opcode: i.opcode(), operands, length: 0u64.wrapping_offset(i.len()) as u8 })
}

/// A decoded register's number (`RegSpec::num`), the name of its class
/// (`RegisterClass::name` of `RegSpec::class`) and its width in bytes
/// (`RegSpec::width`).
#[verifier::external_body]
fn reg_parts(r: RegSpec) -> (p: (u8, String, u8))
    ensures
        (p.0, p.1@, p.2) == x64_reg_parts(r),
{
    (r.num(), r.class().name().to_string(), r.width())
}

/// The lifter's opcode for a decoded opcode: the ones it tells apart keep
/// their name (`MOVZX` and `MOVSX` stand for their byte and word forms), those
/// whose effect it summarizes by clearing the destinations are `Cleared`, and
/// any other is `Unknown`.
pub open spec fn spec_x64_opcode(op: Opcode) -> X64Opcode {
    match op {
        Opcode::MOV => X64Opcode::MOV,
        Opcode::MOVQ => X64Opcode::MOVQ,
        Opcode::MOVD => X64Opcode::MOVD,
        Opcode::MOVSD => X64Opcode::MOVSD,
        Opcode::MOVSX => X64Opcode::MOVSX,
        Opcode::MOVSXD => X64Opcode::MOVSXD,
        Opcode::MOVSS => X64Opcode::MOVSS,
        Opcode::MOVAPS => X64Opcode::MOVAPS,
        Opcode::LEA => X64Opcode::LEA,
        Opcode::TEST => X64Opcode::TEST,
        Opcode::UCOMISS => X64Opcode::UCOMISS,
        Opcode::UCOMISD => X64Opcode::UCOMISD,
        Opcode::CMP => X64Opcode::CMP,
        Opcode::AND => X64Opcode::AND,
        Opcode::ADD => X64Opcode::ADD,
        Opcode::SUB => X64Opcode::SUB,
        Opcode::SHL => X64Opcode::SHL,
        Opcode::CMOVNB => X64Opcode::CMOVNB,
        Opcode::CMOVZ => X64Opcode::CMOVZ,
        Opcode::UD2 => X64Opcode::UD2,
        Opcode::RETURN => X64Opcode::RETURN,
        Opcode::JMP => X64Opcode::JMP,
        Opcode::JO => X64Opcode::JO,
        Opcode::JNO => X64Opcode::JNO,
        Opcode::JB => X64Opcode::JB,
        Opcode::JNB => X64Opcode::JNB,
        Opcode::JZ => X64Opcode::JZ,
        Opcode::JNZ => X64Opcode::JNZ,
        Opcode::JA => X64Opcode::JA,
        Opcode::JNA => X64Opcode::JNA,
        Opcode::JS => X64Opcode::JS,
        Opcode::JNS => X64Opcode::JNS,
        Opcode::JP => X64Opcode::JP,
        Opcode::JNP => X64Opcode::JNP,
        Opcode::JL => X64Opcode::JL,
        Opcode::JGE => X64Opcode::JGE,
        Opcode::JLE => X64Opcode::JLE,
        Opcode::JG => X64Opcode::JG,
        Opcode::CALL => X64Opcode::CALL,
        Opcode::PUSH => X64Opcode::PUSH,
        Opcode::POP => X64Opcode::POP,
        Opcode::NOP => X64Opcode::NOP,
        Opcode::FILD => X64Opcode::FILD,
        Opcode::STD => X64Opcode::STD,
        Opcode::CLD => X64Opcode::CLD,
        Opcode::STI => X64Opcode::STI,
        Opcode::XORPS => X64Opcode::XORPS,
        Opcode::XORPD => X64Opcode::XORPD,
        Opcode::XOR => X64Opcode::XOR,
        Opcode::CDQ => X64Opcode::CDQ,
        Opcode::CDQE => X64Opcode::CDQE,
        Opcode::SETG => X64Opcode::SETG,
        Opcode::SETLE => X64Opcode::SETLE,
        Opcode::SETO => X64Opcode::SETO,
        Opcode::SETNO => X64Opcode::SETNO,
        Opcode::SETS => X64Opcode::SETS,
        Opcode::SETNS => X64Opcode::SETNS,
        Opcode::SETGE => X64Opcode::SETGE,
        Opcode::SETL => X64Opcode::SETL,
        Opcode::SETNZ => X64Opcode::SETNZ,
        Opcode::SETZ => X64Opcode::SETZ,
        Opcode::SETAE => X64Opcode::SETAE,
        Opcode::SETB => X64Opcode::SETB,
        Opcode::SETA => X64Opcode::SETA,
        Opcode::SETBE => X64Opcode::SETBE,
        Opcode::SETP => X64Opcode::SETP,
        Opcode::SETNP => X64Opcode::SETNP,
        Opcode::BSF => X64Opcode::BSF,
        Opcode::BSR => X64Opcode::BSR,
        Opcode::LZCNT => X64Opcode::LZCNT,
        Opcode::TZCNT => X64Opcode::TZCNT,
        Opcode::CVTSI2SS => X64Opcode::CVTSI2SS,
        Opcode::MOVZX_b | Opcode::MOVZX_w => X64Opcode::MOVZX,
        Opcode::MOVSX_b | Opcode::MOVSX_w => X64Opcode::MOVSX,
        Opcode::OR
        | Opcode::IDIV
        | Opcode::DIV
        | Opcode::SHR
        | Opcode::RCL
        | Opcode::RCR
        | Opcode::ROL
        | Opcode::ROR
        | Opcode::CMOVA
        | Opcode::CMOVB
        | Opcode::CMOVG
        | Opcode::CMOVGE
        | Opcode::CMOVL
        | Opcode::CMOVLE
        | Opcode::CMOVNA
        | Opcode::CMOVNO
        | Opcode::CMOVNP
        | Opcode::CMOVNS
        | Opcode::CMOVNZ
        | Opcode::CMOVO
        | Opcode::CMOVP
        | Opcode::CMOVS
        | Opcode::SAR
        | Opcode::ADC
        | Opcode::ROUNDSS
        | Opcode::MUL
        | Opcode::IMUL
        | Opcode::POR
        | Opcode::PSHUFB
        | Opcode::PSHUFD
        | Opcode::PTEST
        | Opcode::PXOR
        | Opcode::ANDNPS
        | Opcode::CMPPD
        | Opcode::CMPPS
        | Opcode::ANDPS
        | Opcode::ORPS
        | Opcode::DIVSD
        | Opcode::MULSS
        | Opcode::ADDSD
        | Opcode::SUBSS
        | Opcode::ROUNDSD
        | Opcode::NOT
        | Opcode::POPCNT
        | Opcode::SUBSD
        | Opcode::MULSD
        | Opcode::DIVSS
        | Opcode::DIVPD
        | Opcode::DIVPS
        | Opcode::BLENDVPS
        | Opcode::BLENDVPD
        | Opcode::MAXPD
        | Opcode::MAXPS
        | Opcode::MAXSD
        | Opcode::MAXSS
        | Opcode::MINPD
        | Opcode::MINPS
        | Opcode::MINSD
        | Opcode::MINSS
        | Opcode::MULPD
        | Opcode::MULPS
        | Opcode::PMULLW
        | Opcode::PMULLD
        | Opcode::CVTDQ2PS
        | Opcode::CVTSD2SS
        | Opcode::CVTSI2SD
        | Opcode::CVTSS2SD
        | Opcode::CVTTSS2SI
        | Opcode::ADDPS
        | Opcode::ADDPD
        | Opcode::ADDSS
        | Opcode::PSLLW
        | Opcode::PSLLD
        | Opcode::PSLLQ
        | Opcode::PSRLW
        | Opcode::PSRLD
        | Opcode::PSRLQ
        | Opcode::PSRAW
        | Opcode::PSRAD
        | Opcode::PSUBB
        | Opcode::PSUBW
        | Opcode::PSUBD
        | Opcode::PSUBQ
        | Opcode::PSUBSB
        | Opcode::PSUBSW
        | Opcode::PSUBUSB
        | Opcode::PSUBUSW
        | Opcode::PUNPCKHBW
        | Opcode::PUNPCKHWD
        | Opcode::PUNPCKHDQ
        | Opcode::PUNPCKHQDQ
        | Opcode::PUNPCKLBW
        | Opcode::PUNPCKLWD
        | Opcode::PUNPCKLDQ
        | Opcode::PUNPCKLQDQ
        | Opcode::PACKSSWB
        | Opcode::PACKSSDW
        | Opcode::PADDB
        | Opcode::PADDD
        | Opcode::PADDQ
        | Opcode::PADDW
        | Opcode::PADDSB
        | Opcode::PADDSW
        | Opcode::PADDUSB
        | Opcode::PADDUSW
        | Opcode::PAND
        | Opcode::PANDN
        | Opcode::PAVGB
        | Opcode::PAVGW
        | Opcode::PCMPEQB
        | Opcode::PCMPEQD
        | Opcode::PCMPEQQ
        | Opcode::PCMPEQW
        | Opcode::PCMPGTB
        | Opcode::PCMPGTD
        | Opcode::PCMPGTQ
        | Opcode::PCMPGTW
        | Opcode::PEXTRB
        | Opcode::PEXTRW
        | Opcode::PINSRB
        | Opcode::PINSRW
        | Opcode::PMAXSB
        | Opcode::PMAXSW
        | Opcode::PMAXUB
        | Opcode::PMAXUD
        | Opcode::PMAXUW
        | Opcode::PMINSB
        | Opcode::PMINSD
        | Opcode::PMINSW
        | Opcode::PMINUB
        | Opcode::PMINUD
        | Opcode::PMINUW
        | Opcode::PMOVSXBW
        | Opcode::PMOVSXWD
        | Opcode::PMOVSXDQ
        | Opcode::PMOVZXBW
        | Opcode::PMOVZXWD
        | Opcode::PMOVZXDQ
        | Opcode::SQRTPD
        | Opcode::SQRTPS
        | Opcode::SQRTSD
        | Opcode::SQRTSS
        | Opcode::MOVLPS
        | Opcode::MOVLHPS
        | Opcode::MOVUPS
        | Opcode::SUBPD
        | Opcode::SUBPS
        | Opcode::SBB
        | Opcode::ANDPD
        | Opcode::CVTTSD2SI
        | Opcode::ORPD => X64Opcode::Cleared,
        _ => X64Opcode::Unknown,
    }
}

/// The lifter's opcode for a decoded opcode (see `spec_x64_opcode`).
pub fn x64_opcode(op: Opcode) -> (r: X64Opcode)
    ensures
        r == spec_x64_opcode(op),
{
    match op {
        Opcode::MOV => X64Opcode::MOV,
        Opcode::MOVQ => X64Opcode::MOVQ,
        Opcode::MOVD => X64Opcode::MOVD,
        Opcode::MOVSD => X64Opcode::MOVSD,
        Opcode::MOVSX => X64Opcode::MOVSX,
        Opcode::MOVSXD => X64Opcode::MOVSXD,
        Opcode::MOVSS => X64Opcode::MOVSS,
        Opcode::MOVAPS => X64Opcode::MOVAPS,
        Opcode::LEA => X64Opcode::LEA,
        Opcode::TEST => X64Opcode::TEST,
        Opcode::UCOMISS => X64Opcode::UCOMISS,
        Opcode::UCOMISD => X64Opcode::UCOMISD,
        Opcode::CMP => X64Opcode::CMP,
        Opcode::AND => X64Opcode::AND,
        Opcode::ADD => X64Opcode::ADD,
        Opcode::SUB => X64Opcode::SUB,
        Opcode::SHL => X64Opcode::SHL,
        Opcode::CMOVNB => X64Opcode::CMOVNB,
        Opcode::CMOVZ => X64Opcode::CMOVZ,
        Opcode::UD2 => X64Opcode::UD2,
        Opcode::RETURN => X64Opcode::RETURN,
        Opcode::JMP => X64Opcode::JMP,
        Opcode::JO => X64Opcode::JO,
        Opcode::JNO => X64Opcode::JNO,
        Opcode::JB => X64Opcode::JB,
        Opcode::JNB => X64Opcode::JNB,
        Opcode::JZ => X64Opcode::JZ,
        Opcode::JNZ => X64Opcode::JNZ,
        Opcode::JA => X64Opcode::JA,
        Opcode::JNA => X64Opcode::JNA,
        Opcode::JS => X64Opcode::JS,
        Opcode::JNS => X64Opcode::JNS,
        Opcode::JP => X64Opcode::JP,
        Opcode::JNP => X64Opcode::JNP,
        Opcode::JL => X64Opcode::JL,
        Opcode::JGE => X64Opcode::JGE,
        Opcode::JLE => X64Opcode::JLE,
        Opcode::JG => X64Opcode::JG,
        Opcode::CALL => X64Opcode::CALL,
        Opcode::PUSH => X64Opcode::PUSH,
        Opcode::POP => X64Opcode::POP,
        Opcode::NOP => X64Opcode::NOP,
        Opcode::FILD => X64Opcode::FILD,
        Opcode::STD => X64Opcode::STD,
        Opcode::CLD => X64Opcode::CLD,
        Opcode::STI => X64Opcode::STI,
        Opcode::XORPS => X64Opcode::XORPS,
        Opcode::XORPD => X64Opcode::XORPD,
        Opcode::XOR => X64Opcode::XOR,
        Opcode::CDQ => X64Opcode::CDQ,
        Opcode::CDQE => X64Opcode::CDQE,
        Opcode::SETG => X64Opcode::SETG,
        Opcode::SETLE => X64Opcode::SETLE,
        Opcode::SETO => X64Opcode::SETO,
        Opcode::SETNO => X64Opcode::SETNO,
        Opcode::SETS => X64Opcode::SETS,
        Opcode::SETNS => X64Opcode::SETNS,
        Opcode::SETGE => X64Opcode::SETGE,
        Opcode::SETL => X64Opcode::SETL,
        Opcode::SETNZ => X64Opcode::SETNZ,
        Opcode::SETZ => X64Opcode::SETZ,
        Opcode::SETAE => X64Opcode::SETAE,
        Opcode::SETB => X64Opcode::SETB,
        Opcode::SETA => X64Opcode::SETA,
        Opcode::SETBE => X64Opcode::SETBE,
        Opcode::SETP => X64Opcode::SETP,
        Opcode::SETNP => X64Opcode::SETNP,
        Opcode::BSF => X64Opcode::BSF,
        Opcode::BSR => X64Opcode::BSR,
        Opcode::LZCNT => X64Opcode::LZCNT,
        Opcode::TZCNT => X64Opcode::TZCNT,
        Opcode::CVTSI2SS => X64Opcode::CVTSI2SS,
        Opcode::MOVZX_b | Opcode::MOVZX_w => X64Opcode::MOVZX,
        Opcode::MOVSX_b | Opcode::MOVSX_w => X64Opcode::MOVSX,
        Opcode::OR
        | Opcode::IDIV
        | Opcode::DIV
        | Opcode::SHR
        | Opcode::RCL
        | Opcode::RCR
        | Opcode::ROL
        | Opcode::ROR
        | Opcode::CMOVA
        | Opcode::CMOVB
        | Opcode::CMOVG
        | Opcode::CMOVGE
        | Opcode::CMOVL
        | Opcode::CMOVLE
        | Opcode::CMOVNA
        | Opcode::CMOVNO
        | Opcode::CMOVNP
        | Opcode::CMOVNS
        | Opcode::CMOVNZ
        | Opcode::CMOVO
        | Opcode::CMOVP
        | Opcode::CMOVS
        | Opcode::SAR
        | Opcode::ADC
        | Opcode::ROUNDSS
        | Opcode::MUL
        | Opcode::IMUL
        | Opcode::POR
        | Opcode::PSHUFB
        | Opcode::PSHUFD
        | Opcode::PTEST
        | Opcode::PXOR
        | Opcode::ANDNPS
        | Opcode::CMPPD
        | Opcode::CMPPS
        | Opcode::ANDPS
        | Opcode::ORPS
        | Opcode::DIVSD
        | Opcode::MULSS
        | Opcode::ADDSD
        | Opcode::SUBSS
        | Opcode::ROUNDSD
        | Opcode::NOT
        | Opcode::POPCNT
        | Opcode::SUBSD
        | Opcode::MULSD
        | Opcode::DIVSS
        | Opcode::DIVPD
        | Opcode::DIVPS
        | Opcode::BLENDVPS
        | Opcode::BLENDVPD
        | Opcode::MAXPD
        | Opcode::MAXPS
        | Opcode::MAXSD
        | Opcode::MAXSS
        | Opcode::MINPD
        | Opcode::MINPS
        | Opcode::MINSD
        | Opcode::MINSS
        | Opcode::MULPD
        | Opcode::MULPS
        | Opcode::PMULLW
        | Opcode::PMULLD
        | Opcode::CVTDQ2PS
        | Opcode::CVTSD2SS
        | Opcode::CVTSI2SD
        | Opcode::CVTSS2SD
        | Opcode::CVTTSS2SI
        | Opcode::ADDPS
        | Opcode::ADDPD
        | Opcode::ADDSS
        | Opcode::PSLLW
        | Opcode::PSLLD
        | Opcode::PSLLQ
        | Opcode::PSRLW
        | Opcode::PSRLD
        | Opcode::PSRLQ
        | Opcode::PSRAW
        | Opcode::PSRAD
        | Opcode::PSUBB
        | Opcode::PSUBW
        | Opcode::PSUBD
        | Opcode::PSUBQ
        | Opcode::PSUBSB
        | Opcode::PSUBSW
        | Opcode::PSUBUSB
        | Opcode::PSUBUSW
        | Opcode::PUNPCKHBW
        | Opcode::PUNPCKHWD
        | Opcode::PUNPCKHDQ
        | Opcode::PUNPCKHQDQ
        | Opcode::PUNPCKLBW
        | Opcode::PUNPCKLWD
        | Opcode::PUNPCKLDQ
        | Opcode::PUNPCKLQDQ
        | Opcode::PACKSSWB
        | Opcode::PACKSSDW
        | Opcode::PADDB
        | Opcode::PADDD
        | Opcode::PADDQ
        | Opcode::PADDW
        | Opcode::PADDSB
        | Opcode::PADDSW
        | Opcode::PADDUSB
        | Opcode::PADDUSW
        | Opcode::PAND
        | Opcode::PANDN
        | Opcode::PAVGB
        | Opcode::PAVGW
        | Opcode::PCMPEQB
        | Opcode::PCMPEQD
        | Opcode::PCMPEQQ
        | Opcode::PCMPEQW
        | Opcode::PCMPGTB
        | Opcode::PCMPGTD
        | Opcode::PCMPGTQ
        | Opcode::PCMPGTW
        | Opcode::PEXTRB
        | Opcode::PEXTRW
        | Opcode::PINSRB
        | Opcode::PINSRW
        | Opcode::PMAXSB
        | Opcode::PMAXSW
        | Opcode::PMAXUB
        | Opcode::PMAXUD
        | Opcode::PMAXUW
        | Opcode::PMINSB
        | Opcode::PMINSD
        | Opcode::PMINSW
        | Opcode::PMINUB
        | Opcode::PMINUD
        | Opcode::PMINUW
        | Opcode::PMOVSXBW
        | Opcode::PMOVSXWD
        | Opcode::PMOVSXDQ
        | Opcode::PMOVZXBW
        | Opcode::PMOVZXWD
        | Opcode::PMOVZXDQ
        | Opcode::SQRTPD
        | Opcode::SQRTPS
        | Opcode::SQRTSD
        | Opcode::SQRTSS
        | Opcode::MOVLPS
        | Opcode::MOVLHPS
        | Opcode::MOVUPS
        | Opcode::SUBPD
        | Opcode::SUBPS
        | Opcode::SBB
        | Opcode::ANDPD
        | Opcode::CVTTSD2SI
        | Opcode::ORPD => X64Opcode::Cleared,
        _ => X64Opcode::Unknown,
    }
}

/// The register class a class name stands for.
pub open spec fn class_of_name(n: Seq<char>) -> RegClass {
    if n == "qword"@ {
        RegClass::Q
    } else if n == "dword"@ {
        RegClass::D
    } else if n == "word"@ {
        RegClass::W
    } else if n == "byte"@ {
        RegClass::B
    } else if n == "rex-byte"@ {
        RegClass::RB
    } else if n == "rip"@ {
        RegClass::RIP
    } else if n == "eip"@ {
        RegClass::EIP
    } else if n == "xmm"@ {
        RegClass::X
    } else if n == "ymm"@ {
        RegClass::Y
    } else if n == "zmm"@ {
        RegClass::Z
    } else {
        RegClass::Other
    }
}

/// The register class a class name stands for.
fn class_of(name: &String) -> (c: RegClass)
    ensures
        c == class_of_name(name@),
{
    if *name == "qword".to_owned() {
        RegClass::Q
    } else if *name == "dword".to_owned() {
        RegClass::D
    } else if *name == "word".to_owned() {
        RegClass::W
    } else if *name == "byte".to_owned() {
        RegClass::B
    } else if *name == "rex-byte".to_owned() {
        RegClass::RB
    } else if *name == "rip".to_owned() {
        RegClass::RIP
    } else if *name == "eip".to_owned() {
        RegClass::EIP
    } else if *name == "xmm".to_owned() {
        RegClass::X
    } else if *name == "ymm".to_owned() {
        RegClass::Y
    } else if *name == "zmm".to_owned() {
        RegClass::Z
    } else {
        RegClass::Other
    }
}

/// The lifter's form of a decoded register.
pub open spec fn spec_x64_reg(r: RegSpec) -> X64Reg {
    let p = x64_reg_parts(r);
    X64Reg { num: p.0, class: class_of_name(p.1), width: p.2 }
}

fn x64_reg(r: RegSpec) -> (x: X64Reg)
    ensures
        x == spec_x64_reg(r),
{
    let (num, class, width) = reg_parts(r);
    X64Reg { num: num, class: class_of(&class), width: width }
}

/// The lifter's form of a decoded operand: the same shape, with each
/// register in the lifter's form.
pub open spec fn spec_x64_operand(op: Operand) -> X64Operand {
    match op {
        Operand::ImmediateI8(v) => X64Operand::ImmediateI8(v),
        Operand::ImmediateU8(v) => X64Operand::ImmediateU8(v),
        Operand::ImmediateI16(v) => X64Operand::ImmediateI16(v),
        Operand::ImmediateU16(v) => X64Operand::ImmediateU16(v),
        Operand::ImmediateU32(v) => X64Operand::ImmediateU32(v),
        Operand::ImmediateI32(v) => X64Operand::ImmediateI32(v),
        Operand::ImmediateU64(v) => X64Operand::ImmediateU64(v),
        Operand::ImmediateI64(v) => X64Operand::ImmediateI64(v),
        Operand::Register(r) => X64Operand::Register(spec_x64_reg(r)),
        Operand::DisplacementU32(v) => X64Operand::DisplacementU32(v),
        Operand::DisplacementU64(v) => X64Operand::DisplacementU64(v),
        Operand::RegDeref(r) => X64Operand::RegDeref(spec_x64_reg(r)),
        Operand::RegDisp(r, d) => X64Operand::RegDisp(spec_x64_reg(r), d),
        Operand::RegScale(r, s) => X64Operand::RegScale(spec_x64_reg(r), s),
        Operand::RegIndexBase(b, i) => X64Operand::RegIndexBase(spec_x64_reg(b), spec_x64_reg(i)),
        Operand::RegIndexBaseDisp(b, i, d) => X64Operand::RegIndexBaseDisp(spec_x64_reg(b), spec_x64_reg(i), d),
        Operand::RegScaleDisp(r, s, d) => X64Operand::RegScaleDisp(spec_x64_reg(r), s, d),
        Operand::RegIndexBaseScale(b, i, s) => X64Operand::RegIndexBaseScale(
            spec_x64_reg(b),
            spec_x64_reg(i),
            s,
        ),
        Operand::RegIndexBaseScaleDisp(b, i, s, d) => X64Operand::RegIndexBaseScaleDisp(
            spec_x64_reg(b),
            spec_x64_reg(i),
            s,
            d,
        ),
        Operand::Nothing => X64Operand::Nothing,
    }
}

fn x64_operand(op: &Operand) -> (r: X64Operand)
    ensures
        r == spec_x64_operand(*op),
{
    match op {
        Operand::ImmediateI8(v) => X64Operand::ImmediateI8(*v),
        Operand::ImmediateU8(v) => X64Operand::ImmediateU8(*v),
        Operand::ImmediateI16(v) => X64Operand::ImmediateI16(*v),
        Operand::ImmediateU16(v) => X64Operand::ImmediateU16(*v),
        Operand::ImmediateU32(v) => X64Operand::ImmediateU32(*v),
        Operand::ImmediateI32(v) => X64Operand::ImmediateI32(*v),
        Operand::ImmediateU64(v) => X64Operand::ImmediateU64(*v),
        Operand::ImmediateI64(v) => X64Operand::ImmediateI64(*v),
        Operand::Register(r) => X64Operand::Register(x64_reg(*r)),
        Operand::DisplacementU32(v) => X64Operand::DisplacementU32(*v),
        Operand::DisplacementU64(v) => X64Operand::DisplacementU64(*v),
        Operand::RegDeref(r) => X64Operand::RegDeref(x64_reg(*r)),
        Operand::RegDisp(r, d) => X64Operand::RegDisp(x64_reg(*r), *d),
        Operand::RegScale(r, s) => X64Operand::RegScale(x64_reg(*r), *s),
        Operand::RegIndexBase(b, i) => X64Operand::RegIndexBase(x64_reg(*b), x64_reg(*i)),
        Operand::RegIndexBaseDisp(b, i, d) => X64Operand::RegIndexBaseDisp(x64_reg(*b), x64_reg(*i), *d),
        Operand::RegScaleDisp(r, s, d) => X64Operand::RegScaleDisp(x64_reg(*r), *s, *d),
        Operand::RegIndexBaseScale(b, i, s) => X64Operand::RegIndexBaseScale(x64_reg(*b), x64_reg(*i), *s),
        Operand::RegIndexBaseScaleDisp(b, i, s, d) => X64Operand::RegIndexBaseScaleDisp(
            x64_reg(*b),
            x64_reg(*i),
            *s,
            *d,
        ),
        Operand::Nothing => X64Operand::Nothing,
    }
}

/// The locations that operand `i` touches, in the decomposition below.
pub open spec fn operand_flow(op: X64Operand, i: int) -> Seq<(DataLoc, bool)> {
    match op {
        X64Operand::Register(r) => seq![(DataLoc::Register(r), false), (DataLoc::Register(r), true)],
        X64Operand::Nothing => Seq::empty(),
        X64Operand::ImmediateI8(_) => Seq::empty(),
        X64Operand::ImmediateU8(_) => Seq::empty(),
        X64Operand::ImmediateI16(_) => Seq::empty(),
        X64Operand::ImmediateU16(_) => Seq::empty(),
        X64Operand::ImmediateU32(_) => Seq::empty(),
        X64Operand::ImmediateI32(_) => Seq::empty(),
        X64Operand::ImmediateU64(_) => Seq::empty(),
        X64Operand::ImmediateI64(_) => Seq::empty(),
        _ => seq![(DataLoc::UnevalMem(i as u8), false)],
    }
}

/// The locations that the first `ops.len()` operands touch, in order.
pub open spec fn operands_flow(ops: Seq<X64Operand>) -> Seq<(DataLoc, bool)>
    decreases ops.len(),
{
    if ops.len() == 0 {
        Seq::empty()
    } else {
        operands_flow(ops.drop_last()) + operand_flow(ops.last(), ops.len() - 1)
    }
}

/// The data-flow decomposition of an instruction with operands `ops`, taken
/// coarsely: every register operand is read and written, every memory
/// operand is read, and both tracked flags are written.
pub open spec fn approx_flow(ops: Seq<X64Operand>) -> Seq<(DataLoc, bool)> {
    operands_flow(ops) + seq![(DataLoc::ZF, true), (DataLoc::CF, true)]
}

/// The data-flow decomposition of an instruction (see `approx_flow`).
pub fn approximate_flow(ops: &Vec<X64Operand>) -> (r: Vec<(DataLoc, bool)>)
    ensures
        r@ == approx_flow(ops@),
{
    let mut flow: Vec<(DataLoc, bool)> = Vec::new();
    let mut i: usize = 0;
    while i < ops.len()
        invariant
            i <= ops@.len(),
            flow@ == operands_flow(ops@.take(i as int)),
        decreases ops@.len() - i,
    {
        assert(ops@.take(i + 1).drop_last() =~= ops@.take(i as int));
        let ghost before = flow@;
        match ops[i] {
            X64Operand::Register(r) => {
                flow.push((DataLoc::Register(r), false));
                flow.push((DataLoc::Register(r), true));
            },
            X64Operand::Nothing => {},
            X64Operand::ImmediateI8(_) => {},
            X64Operand::ImmediateU8(_) => {},
            X64Operand::ImmediateI16(_) => {},
            X64Operand::ImmediateU16(_) => {},
            X64Operand::ImmediateU32(_) => {},
            X64Operand::ImmediateI32(_) => {},
            X64Operand::ImmediateU64(_) => {},
            X64Operand::ImmediateI64(_) => {},
            _ => {
                flow.push((DataLoc::UnevalMem(i as u8), false));
            },
        }
        assert(flow@ =~= before + operand_flow(ops@[i as int], i as int));
        i = i + 1;
    }
    assert(ops@.take(i as int) =~= ops@);
    flow.push((DataLoc::ZF, true));
    flow.push((DataLoc::CF, true));
    assert(flow@ =~= approx_flow(ops@));
    flow
}

/// Whether `instr` is the lifter's form of the decoded instruction `raw`.
pub open spec fn is_x64_of(instr: X64Instruction, raw: (Opcode, Seq<Operand>, u8)) -> bool {
    &&& instr.opcode == spec_x64_opcode(raw.0)
    &&& instr.operands@ == raw.1.map_values(|o: Operand| spec_x64_operand(o))
    &&& instr.length == raw.2
    &&& instr.flow@ == approx_flow(instr.operands@)
}

/// Decodes the instruction at the start of `bytes`, in the lifter's form;
/// `None` when the bytes begin with no instruction.
pub fn decode_x64(bytes: &[u8]) -> (r: Option<X64Instruction>)
    ensures
        match x64_decoded(bytes@) {
            None => r is None,
            Some(raw) => r matches Some(i) && is_x64_of(i, raw),
        },
{
    let raw = match decode_raw(bytes) {
        Some(d) => d,
        None => return None,
    };
    let mut operands: Vec<X64Operand> = Vec::new();
    let mut k: usize = 0;
    while k < raw.operands.len()
        invariant
            k <= raw.operands@.len(),
            operands@ == raw.operands@.take(k as int).map_values(|o: Operand| spec_x64_operand(o)),
        decreases raw.operands@.len() - k,
    {
        operands.push(x64_operand(&raw.operands[k]));
        assert(raw.operands@.take(k + 1).map_values(|o: Operand| spec_x64_operand(o)) =~= raw.operands@.take(
            k as int,
        ).map_values(|o: Operand| spec_x64_operand(o)).push(spec_x64_operand(raw.operands@[k as int])));
        k = k + 1;
    }
    assert(raw.operands@.take(k as int) =~= raw.operands@);
    let flow = approximate_flow(&operands);
    Some(X64Instruction { opcode: x64_opcode(raw.opcode), operands: operands, length: raw.length, flow: flow })
}


/// The bytes from `addr` that the decoder is handed: at most fifteen (the
/// longest x86-64 instruction), fewer near the end of `code`.
pub open spec fn window(code: Seq<u8>, addr: int) -> Seq<u8> {
    if addr < 0 || addr >= code.len() {
        Seq::empty()
    } else if addr + 15 <= code.len() {
        code.subrange(addr, addr + 15)
    } else {
        code.subrange(addr, code.len() as int)
    }
}

/// How far the next instruction starts after one of `length` bytes (at
/// least one byte).
pub open spec fn step(length: u8) -> int {
    if length == 0 {
        1
    } else {
        length as int
    }
}

/// How many bytes of `[addr, end]` are left.
pub open spec fn span_left(addr: int, end: int) -> nat {
    if addr > end {
        0
    } else {
        (end + 1 - addr) as nat
    }
}

/// Whether decoding the instructions one after another from `addr` meets,
/// before passing `end`, bytes that begin with no instruction.
pub open spec fn span_fails(code: Seq<u8>, addr: int, end: int) -> bool
    decreases span_left(addr, end),
{
    if addr > end {
        false
    } else {
        match x64_decoded(window(code, addr)) {
            None => true,
            Some(raw) => span_fails(code, addr + step(raw.2), end),
        }
    }
}

/// Whether `instrs` are the instructions decoded one after another from
/// `addr` while they start at or before `end`, each with its address, and
/// the next one would start at `next`.
pub open spec fn decodes_to(code: Seq<u8>, addr: int, end: int, instrs: Seq<(u64, X64Instruction)>, next: int) -> bool
    decreases instrs.len(),
{
    if instrs.len() == 0 {
        addr == next
    } else {
        &&& addr <= end
        &&& instrs[0].0 == addr
        &&& match x64_decoded(window(code, addr)) {
            None => false,
            Some(raw) => is_x64_of(instrs[0].1, raw) && decodes_to(
                code,
                addr + step(raw.2),
                end,
                instrs.drop_first(),
                next,
            ),
        }
    }
}

/// Whether `instrs` are all the instructions decoded one after another from
/// `start` up to `end`.
pub open spec fn span_decodes(code: Seq<u8>, start: int, end: int, instrs: Seq<(u64, X64Instruction)>) -> bool {
    exists|next: int| next > end && decodes_to(code, start, end, instrs, next)
}

/// One more decoded instruction extends a decoded run.
proof fn lemma_decodes_to_push(
    code: Seq<u8>,
    addr: int,
    end: int,
    instrs: Seq<(u64, X64Instruction)>,
    next: int,
    i: X64Instruction,
)
    requires
        decodes_to(code, addr, end, instrs, next),
        0 <= next <= end <= u64::MAX,
        x64_decoded(window(code, next)) matches Some(raw) && is_x64_of(i, raw),
    ensures
        decodes_to(
            code,
            addr,
            end,
            instrs.push((next as u64, i)),
            next + step(x64_decoded(window(code, next))->Some_0.2),
        ),
    decreases instrs.len(),
{
    let s1 = instrs.push((next as u64, i));
    let n2 = next + step(x64_decoded(window(code, next))->Some_0.2);
    if instrs.len() == 0 {
        assert(s1.drop_first() =~= Seq::<(u64, X64Instruction)>::empty());
        assert(decodes_to(code, n2, end, s1.drop_first(), n2));
        assert(s1[0] == (next as u64, i));
    } else {
        let raw = x64_decoded(window(code, addr))->Some_0;
        lemma_decodes_to_push(code, addr + step(raw.2), end, instrs.drop_first(), next, i);
        assert(s1.drop_first() =~= instrs.drop_first().push((next as u64, i)));
        assert(s1[0] == instrs[0]);
    }
}

/// A run that stops before failing leaves the failure to what follows.
proof fn lemma_decodes_to_fails(code: Seq<u8>, addr: int, end: int, instrs: Seq<(u64, X64Instruction)>, next: int)
    requires
        decodes_to(code, addr, end, instrs, next),
    ensures
        span_fails(code, addr, end) == span_fails(code, next, end),
    decreases instrs.len(),
{
    if instrs.len() > 0 {
        let raw = x64_decoded(window(code, addr))->Some_0;
        lemma_decodes_to_fails(code, addr + step(raw.2), end, instrs.drop_first(), next);
    }
}

/// The instructions from `start` up to `end` (the address of a block's last
/// byte), decoded one after another, each with its address; `None` when some
/// bytes there begin with no instruction.
pub fn decode_span(code: &[u8], start: u64, end: u64) -> (r: Option<Vec<(u64, X64Instruction)>>)
    requires
        end < code@.len(),
    ensures
        r is None <==> span_fails(code@, start as int, end as int),
        r matches Some(v) ==> span_decodes(code@, start as int, end as int, v@),
{
    let mut out: Vec<(u64, X64Instruction)> = Vec::new();
    let mut addr: u64 = start;
    while addr <= end
        invariant
            end < code@.len(),
            decodes_to(code@, start as int, end as int, out@, addr as int),
        decreases span_left(addr as int, end as int),
    {
        let a = addr as usize;
        let last = if code.len() - a >= 15 {
            a + 15
        } else {
            code.len()
        };
        let bytes = slice_from(code, a, last);
        assert(bytes@ =~= window(code@, addr as int));
        match decode_x64(bytes) {
            None => {
                proof {
                    lemma_decodes_to_fails(code@, start as int, end as int, out@, addr as int);
                }
                return None;
            },
            Some(i) => {
                let len: u64 = if i.length == 0 {
                    1
                } else {
                    i.length as u64
                };
                proof {
                    lemma_decodes_to_push(code@, start as int, end as int, out@, addr as int, i);
                }
                out.push((addr, i));
                match addr.checked_add(len) {
                    Some(next) => {
                        addr = next;
                    },
                    None => {
                        proof {
                            lemma_decodes_to_fails(code@, start as int, end as int, out@, addr + len);
                        }
                        return Some(out);
                    },
                }
            },
        }
    }
    proof {
        lemma_decodes_to_fails(code@, start as int, end as int, out@, addr as int);
    }
    Some(out)
}

/// The bytes of `code` from `lo` up to `hi`.
fn slice_from(code: &[u8], lo: usize, hi: usize) -> (r: &[u8])
    requires
        lo <= hi <= code@.len(),
    ensures
        r@ == code@.subrange(lo as int, hi as int),
{
    let (_, rest) = code.split_at(lo);
    let (mid, _) = rest.split_at(hi - lo);
    mid
}

/// Whether `bi` holds the decoded instructions of every node of the graph
/// whose block decodes, and nothing else.
pub open spec fn blocks_decoded(
    code: Seq<u8>,
    blocks: Map<u64, VwBlock>,
    nodes: Set<u64>,
    bi: Map<u64, Vec<(u64, X64Instruction)>>,
) -> bool {
    &&& forall|n: u64| #[trigger] bi.contains_key(n) ==> nodes.contains(n) && blocks.contains_key(n)
        && span_decodes(code, blocks[n].start as int, blocks[n].end as int, bi[n]@)
    &&& forall|n: u64| #[trigger]
        nodes.contains(n) && blocks.contains_key(n) && !span_fails(
            code,
            blocks[n].start as int,
            blocks[n].end as int,
        ) ==> bi.contains_key(n)
}

/// Decodes the block of every node of `cfg` (see `blocks_decoded`).
pub fn decode_blocks(cfg: &VwCfg, code: &[u8]) -> (r: HashMap<u64, Vec<(u64, X64Instruction)>>)
    requires
        forall|n: u64| #[trigger] cfg.blocks@.contains_key(n) ==> cfg.blocks@[n].end < code@.len(),
    ensures
        blocks_decoded(code@, cfg.blocks@, cfg.succs().dom(), r@),
{
    let nodes = cfg.nodes();
    let mut r: HashMap<u64, Vec<(u64, X64Instruction)>> = HashMap::new();
    let mut i: usize = 0;
    while i < nodes.len()
        invariant
            i <= nodes@.len(),
            nodes@.to_set() == cfg.succs().dom(),
            forall|n: u64| #[trigger] cfg.blocks@.contains_key(n) ==> cfg.blocks@[n].end < code@.len(),
            forall|n: u64| #[trigger] r@.contains_key(n) ==> cfg.succs().dom().contains(n) && cfg.blocks@.contains_key(n)
                && span_decodes(code@, cfg.blocks@[n].start as int, cfg.blocks@[n].end as int, r@[n]@),
            forall|j: int|
                0 <= j < i && cfg.blocks@.contains_key(#[trigger] nodes@[j]) && !span_fails(
                    code@,
                    cfg.blocks@[nodes@[j]].start as int,
                    cfg.blocks@[nodes@[j]].end as int,
                ) ==> r@.contains_key(nodes@[j]),
        decreases nodes@.len() - i,
    {
        let n = nodes[i];
        assert(nodes@.to_set().contains(n));
        match cfg.blocks.get(&n) {
            Some(b) => {
                match decode_span(code, b.start, b.end) {
                    Some(v) => {
                        r.insert(n, v);
                    },
                    None => {},
                }
            },
            None => {},
        }
        i = i + 1;
    }
    assert forall|n: u64| #[trigger]
        cfg.succs().dom().contains(n) && cfg.blocks@.contains_key(n) && !span_fails(
            code@,
            cfg.blocks@[n].start as int,
            cfg.blocks@[n].end as int,
        ) implies r@.contains_key(n) by {
        assert(nodes@.to_set().contains(n));
        let j = choose|j: int| 0 <= j < nodes@.len() && nodes@[j] == n;
        assert(cfg.blocks@.contains_key(nodes@[j]));
    }
    r
}

} // verus!
