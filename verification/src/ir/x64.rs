use crate::ir::cfg::VwCfg;
use crate::ir::x64_decode::{blocks_decoded, decode_blocks};
use crate::ir::types::{
    lemma_stmts_view_push, mk_value_i64, reg_of_index, stmts_view, valsize, Binopcode, BranchOpcode, ImmType, MemArg,
    MemArgs, Stmt, StmtView, Unopcode, ValSize, Value, X86Regs, NUM_REGS, IRBlock, IRMap,
};
use std::collections::HashMap;
use vstd::prelude::*;

verus! {

/// The register classes of a decoded x86-64 register.
#[derive(Clone, Copy, Debug, PartialEq, Eq, Structural)]
pub enum RegClass {
    Q,
    D,
    W,
    B,
    RB,
    RIP,
    EIP,
    X,
    Y,
    Z,
    Other,
}

/// A decoded register: its number within its class, its class, and its width
/// in bytes.
#[derive(Clone, Copy, Debug, PartialEq, Eq, Structural)]
pub struct X64Reg {
    pub num: u8,
    pub class: RegClass,
    pub width: u8,
}

/// An operand of a decoded x86-64 instruction.
#[derive(Clone, Copy, Debug, PartialEq, Eq, Structural)]
pub enum X64Operand {
    ImmediateI8(i8),
    ImmediateU8(u8),
    ImmediateI16(i16),
    ImmediateU16(u16),
    ImmediateU32(u32),
    ImmediateI32(i32),
    ImmediateU64(u64),
    ImmediateI64(i64),
    Register(X64Reg),
    DisplacementU32(u32),
    DisplacementU64(u64),
    RegDeref(X64Reg),
    RegDisp(X64Reg, i32),
    RegScale(X64Reg, u8),
    RegIndexBase(X64Reg, X64Reg),
    RegIndexBaseDisp(X64Reg, X64Reg, i32),
    RegScaleDisp(X64Reg, u8, i32),
    RegIndexBaseScale(X64Reg, X64Reg, u8),
    RegIndexBaseScaleDisp(X64Reg, X64Reg, u8, i32),
    Nothing,
}

/// A location that an instruction reads or writes, from its data-flow
/// decomposition: a register, a flag, or memory named by an operand.
#[derive(Clone, Copy, Debug, PartialEq, Eq, Structural)]
pub enum DataLoc {
    Register(X64Reg),
    ZF,
    CF,
    UnevalMem(u8),
    Other,
}

/// The opcodes that the lifter tells apart. `Cleared` stands for every
/// opcode whose effect is summarized by clearing its destinations, and
/// `Unknown` for any other.
#[allow(non_camel_case_types)]
#[derive(Clone, Copy, Debug, PartialEq, Eq, Structural)]
pub enum X64Opcode {
    MOV,
    MOVQ,
    MOVZX,
    MOVD,
    MOVSD,
    MOVSX,
    MOVSXD,
    MOVSS,
    MOVAPS,
    LEA,
    TEST,
    UCOMISS,
    UCOMISD,
    CMP,
    AND,
    ADD,
    SUB,
    SHL,
    CMOVNB,
    CMOVZ,
    UD2,
    RETURN,
    JMP,
    JO,
    JNO,
    JB,
    JNB,
    JZ,
    JNZ,
    JA,
    JNA,
    JS,
    JNS,
    JP,
    JNP,
    JL,
    JGE,
    JLE,
    JG,
    CALL,
    PUSH,
    POP,
    NOP,
    FILD,
    STD,
    CLD,
    STI,
    XORPS,
    XORPD,
    XOR,
    CDQ,
    CDQE,
    SETG,
    SETLE,
    SETO,
    SETNO,
    SETS,
    SETNS,
    SETGE,
    SETL,
    SETNZ,
    SETZ,
    SETAE,
    SETB,
    SETA,
    SETBE,
    SETP,
    SETNP,
    BSF,
    BSR,
    LZCNT,
    TZCNT,
    CVTSI2SS,
    Cleared,
    Unknown,
}

/// A decoded x86-64 instruction, with its length in bytes and its data-flow
/// decomposition: each location it touches, and whether it writes it.
#[derive(Clone, Debug)]
pub struct X64Instruction {
    pub opcode: X64Opcode,
    pub operands: Vec<X64Operand>,
    pub length: u8,
    pub flow: Vec<(DataLoc, bool)>,
}

/// Operand `i`, or `Nothing` past the last one.
pub open spec fn spec_operand(instr: X64Instruction, i: int) -> X64Operand {
    if 0 <= i < instr.operands@.len() {
        instr.operands@[i]
    } else {
        X64Operand::Nothing
    }
}

fn operand(instr: &X64Instruction, i: usize) -> (r: X64Operand)
    ensures
        r == spec_operand(*instr, i as int),
{
    if i < instr.operands.len() {
        instr.operands[i]
    } else {
        X64Operand::Nothing
    }
}

/// The width of a register of a general-purpose or vector class.
pub open spec fn spec_reg_size(reg: X64Reg) -> Option<ValSize> {
    match reg.class {
        RegClass::Q => Some(ValSize::Size64),
        RegClass::D => Some(ValSize::Size32),
        RegClass::W => Some(ValSize::Size16),
        RegClass::B => Some(ValSize::Size8),
        RegClass::RB => Some(ValSize::Size8),
        RegClass::X => Some(ValSize::Size128),
        RegClass::Y => Some(ValSize::Size256),
        RegClass::Z => Some(ValSize::Size512),
        _ => None,
    }
}

fn get_reg_size(reg: X64Reg) -> (r: Option<ValSize>)
    ensures
        r == spec_reg_size(reg),
{
    match reg.class {
        RegClass::Q => Some(ValSize::Size64),
        RegClass::D => Some(ValSize::Size32),
        RegClass::W => Some(ValSize::Size16),
        RegClass::B => Some(ValSize::Size8),
        RegClass::RB => Some(ValSize::Size8),
        RegClass::X => Some(ValSize::Size128),
        RegClass::Y => Some(ValSize::Size256),
        RegClass::Z => Some(ValSize::Size512),
        _ => None,
    }
}

/// The tracked register with index `n`, if there is one.
pub open spec fn reg_at(n: int) -> Option<X86Regs> {
    if 0 <= n < NUM_REGS {
        Some(reg_of_index(n as u8))
    } else {
        None
    }
}

fn reg_at_index(n: u16) -> (r: Option<X86Regs>)
    ensures
        r == reg_at(n as int),
{
    if n < NUM_REGS as u16 {
        match X86Regs::try_from_index(n as u8) {
            Ok(reg) => Some(reg),
            Err(_) => None,
        }
    } else {
        None
    }
}

/// The register operand a decoded register stands for: vector registers
/// follow the general-purpose ones and the flags.
pub open spec fn spec_convert_reg(reg: X64Reg) -> Option<Value> {
    match spec_reg_size(reg) {
        Some(size) => {
            let n = if reg.class is X || reg.class is Y || reg.class is Z {
                reg.num + 21
            } else {
                reg.num as int
            };
            match reg_at(n) {
                Some(r) => Some(Value::Reg(r, size)),
                None => None,
            }
        },
        None => None,
    }
}

fn convert_reg(reg: X64Reg) -> (r: Option<Value>)
    ensures
        r == spec_convert_reg(reg),
{
    let size = match get_reg_size(reg) {
        Some(s) => s,
        None => return None,
    };
    let n: u16 = match reg.class {
        RegClass::X | RegClass::Y | RegClass::Z => reg.num as u16 + ValSize::fp_offset() as u16,
        _ => reg.num as u16,
    };
    match reg_at_index(n) {
        Some(r) => Some(Value::Reg(r, size)),
        None => None,
    }
}

/// The address operand a decoded register stands for (a general-purpose
/// register only).
pub open spec fn spec_convert_memarg_reg(reg: X64Reg) -> Option<MemArg> {
    let size = match reg.class {
        RegClass::Q => Some(ValSize::Size64),
        RegClass::D => Some(ValSize::Size32),
        RegClass::W => Some(ValSize::Size16),
        RegClass::B => Some(ValSize::Size8),
        _ => None,
    };
    match (size, reg_at(reg.num as int)) {
        (Some(s), Some(r)) => Some(MemArg::Reg(r, s)),
        _ => None,
    }
}

fn convert_memarg_reg(reg: X64Reg) -> (r: Option<MemArg>)
    ensures
        r == spec_convert_memarg_reg(reg),
{
    let size = match reg.class {
        RegClass::Q => ValSize::Size64,
        RegClass::D => ValSize::Size32,
        RegClass::W => ValSize::Size16,
        RegClass::B => ValSize::Size8,
        _ => return None,
    };
    match reg_at_index(reg.num as u16) {
        Some(r) => Some(MemArg::Reg(r, size)),
        None => None,
    }
}

pub open spec fn is_rip(reg: X64Reg) -> bool {
    reg.class is RIP
}

/// `mem[a + b]` of two converted address registers.
pub open spec fn mem2(memsize: ValSize, a: Option<MemArg>, b: Option<MemArg>) -> Option<Value> {
    match (a, b) {
        (Some(x), Some(y)) => Some(Value::Mem(memsize, MemArgs::Mem2Args(x, y))),
        _ => None,
    }
}

/// `mem[a + b + c]` with a constant `c`.
pub open spec fn mem3(memsize: ValSize, a: Option<MemArg>, b: Option<MemArg>, c: i64) -> Option<Value> {
    match (a, b) {
        (Some(x), Some(y)) => Some(
            Value::Mem(memsize, MemArgs::Mem3Args(x, y, MemArg::Imm(ImmType::Signed, ValSize::Size32, c))),
        ),
        _ => None,
    }
}

/// The IR operand of a decoded operand, for an access of `memsize`; `None`
/// for an operand that the IR cannot express (a scaled index without a base,
/// a scale with a displacement, or an unknown register).
pub open spec fn spec_convert_operand(op: X64Operand, memsize: ValSize) -> Option<Value> {
    match op {
        X64Operand::ImmediateI8(imm) => Some(Value::Imm(ImmType::Signed, ValSize::Size8, imm as i64)),
        X64Operand::ImmediateU8(imm) => Some(Value::Imm(ImmType::Unsigned, ValSize::Size8, imm as i64)),
        X64Operand::ImmediateI16(imm) => Some(Value::Imm(ImmType::Signed, ValSize::Size16, imm as i64)),
        X64Operand::ImmediateU16(imm) => Some(Value::Imm(ImmType::Unsigned, ValSize::Size16, imm as i64)),
        X64Operand::ImmediateU32(imm) => Some(Value::Imm(ImmType::Unsigned, ValSize::Size32, imm as i64)),
        X64Operand::ImmediateI32(imm) => Some(Value::Imm(ImmType::Signed, ValSize::Size32, imm as i64)),
        X64Operand::ImmediateU64(imm) => Some(Value::Imm(ImmType::Unsigned, ValSize::Size64, imm as i64)),
        X64Operand::ImmediateI64(imm) => Some(Value::Imm(ImmType::Signed, ValSize::Size64, imm)),
        X64Operand::Register(reg) => spec_convert_reg(reg),
        X64Operand::DisplacementU32(imm) => Some(
            Value::Mem(memsize, MemArgs::Mem1Arg(MemArg::Imm(ImmType::Unsigned, ValSize::Size32, imm as i64))),
        ),
        X64Operand::DisplacementU64(imm) => Some(
            Value::Mem(memsize, MemArgs::Mem1Arg(MemArg::Imm(ImmType::Unsigned, ValSize::Size64, imm as i64))),
        ),
        X64Operand::RegDeref(reg) => if is_rip(reg) {
            Some(Value::RIPConst)
        } else {
            match spec_convert_memarg_reg(reg) {
                Some(a) => Some(Value::Mem(memsize, MemArgs::Mem1Arg(a))),
                None => None,
            }
        },
        X64Operand::RegDisp(reg, imm) => if is_rip(reg) {
            Some(Value::RIPConst)
        } else {
            match spec_convert_memarg_reg(reg) {
                Some(a) => Some(
                    Value::Mem(
                        memsize,
                        MemArgs::Mem2Args(a, MemArg::Imm(ImmType::Signed, ValSize::Size32, imm as i64)),
                    ),
                ),
                None => None,
            }
        },
        X64Operand::RegIndexBase(r1, r2) => mem2(memsize, spec_convert_memarg_reg(r1), spec_convert_memarg_reg(r2)),
        X64Operand::RegIndexBaseDisp(r1, r2, imm) => mem3(
            memsize,
            spec_convert_memarg_reg(r1),
            spec_convert_memarg_reg(r2),
            imm as i64,
        ),
        X64Operand::RegScale(_, _) => None,
        X64Operand::RegScaleDisp(_, _, _) => None,
        X64Operand::RegIndexBaseScale(r1, r2, scale) => if scale == 1 {
            mem2(memsize, spec_convert_memarg_reg(r1), spec_convert_memarg_reg(r2))
        } else {
            match (spec_convert_memarg_reg(r1), spec_convert_memarg_reg(r2)) {
                (Some(x), Some(y)) => Some(
                    Value::Mem(
                        memsize,
                        MemArgs::MemScale(x, y, MemArg::Imm(ImmType::Signed, ValSize::Size32, scale as i64)),
                    ),
                ),
                _ => None,
            }
        },
        X64Operand::RegIndexBaseScaleDisp(r1, r2, scale, imm) => if scale == 1 {
            mem3(memsize, spec_convert_memarg_reg(r1), spec_convert_memarg_reg(r2), imm as i64)
        } else {
            None
        },
        X64Operand::Nothing => None,
    }
}

fn convert_operand(op: X64Operand, memsize: ValSize) -> (r: Option<Value>)
    ensures
        r == spec_convert_operand(op, memsize),
{
    match op {
        X64Operand::ImmediateI8(imm) => Some(Value::Imm(ImmType::Signed, ValSize::Size8, imm as i64)),
        X64Operand::ImmediateU8(imm) => Some(Value::Imm(ImmType::Unsigned, ValSize::Size8, imm as i64)),
        X64Operand::ImmediateI16(imm) => Some(Value::Imm(ImmType::Signed, ValSize::Size16, imm as i64)),
        X64Operand::ImmediateU16(imm) => Some(Value::Imm(ImmType::Unsigned, ValSize::Size16, imm as i64)),
        X64Operand::ImmediateU32(imm) => Some(Value::Imm(ImmType::Unsigned, ValSize::Size32, imm as i64)),
        X64Operand::ImmediateI32(imm) => Some(Value::Imm(ImmType::Signed, ValSize::Size32, imm as i64)),
        X64Operand::ImmediateU64(imm) => Some(
            Value::Imm(ImmType::Unsigned, ValSize::Size64, #[verifier::truncate] (imm as i64)),
        ),
        X64Operand::ImmediateI64(imm) => Some(Value::Imm(ImmType::Signed, ValSize::Size64, imm)),
        X64Operand::Register(reg) => convert_reg(reg),
        // u32 and u64 are address sizes: mem[c]
        X64Operand::DisplacementU32(imm) => Some(
            Value::Mem(memsize, MemArgs::Mem1Arg(MemArg::Imm(ImmType::Unsigned, ValSize::Size32, imm as i64))),
        ),
        X64Operand::DisplacementU64(imm) => Some(
            Value::Mem(
                memsize,
                MemArgs::Mem1Arg(
                    MemArg::Imm(ImmType::Unsigned, ValSize::Size64, #[verifier::truncate] (imm as i64)),
                ),
            ),
        ),
        // mem[reg]
        X64Operand::RegDeref(reg) => {
            if let RegClass::RIP = reg.class {
                Some(Value::RIPConst)
            } else {
                match convert_memarg_reg(reg) {
                    Some(a) => Some(Value::Mem(memsize, MemArgs::Mem1Arg(a))),
                    None => None,
                }
            }
        },
        // mem[reg + c]
        X64Operand::RegDisp(reg, imm) => {
            if let RegClass::RIP = reg.class {
                Some(Value::RIPConst)
            } else {
                match convert_memarg_reg(reg) {
                    Some(a) => Some(
                        Value::Mem(
                            memsize,
                            MemArgs::Mem2Args(a, MemArg::Imm(ImmType::Signed, ValSize::Size32, imm as i64)),
                        ),
                    ),
                    None => None,
                }
            }
        },
        // mem[reg1 + reg2]
        X64Operand::RegIndexBase(r1, r2) => match (convert_memarg_reg(r1), convert_memarg_reg(r2)) {
            (Some(x), Some(y)) => Some(Value::Mem(memsize, MemArgs::Mem2Args(x, y))),
            _ => None,
        },
        // mem[reg1 + reg2 + c]
        X64Operand::RegIndexBaseDisp(r1, r2, imm) => match (convert_memarg_reg(r1), convert_memarg_reg(r2)) {
            (Some(x), Some(y)) => Some(
                Value::Mem(
                    memsize,
                    MemArgs::Mem3Args(x, y, MemArg::Imm(ImmType::Signed, ValSize::Size32, imm as i64)),
                ),
            ),
            _ => None,
        },
        // memory operations with scaling but no base are not supported
        X64Operand::RegScale(_, _) => None,
        X64Operand::RegScaleDisp(_, _, _) => None,
        // mem[reg1 + reg2 * c]
        X64Operand::RegIndexBaseScale(r1, r2, scale) => match (convert_memarg_reg(r1), convert_memarg_reg(r2)) {
            (Some(x), Some(y)) => {
                if scale == 1 {
                    Some(Value::Mem(memsize, MemArgs::Mem2Args(x, y)))
                } else {
                    Some(
                        Value::Mem(
                            memsize,
                            MemArgs::MemScale(x, y, MemArg::Imm(ImmType::Signed, ValSize::Size32, scale as i64)),
                        ),
                    )
                }
            },
            _ => None,
        },
        // mem[reg1 + reg2 + c], with a scale of 1 only
        X64Operand::RegIndexBaseScaleDisp(r1, r2, scale, imm) => {
            if scale != 1 {
                return None;
            }
            match (convert_memarg_reg(r1), convert_memarg_reg(r2)) {
                (Some(x), Some(y)) => Some(
                    Value::Mem(
                        memsize,
                        MemArgs::Mem3Args(x, y, MemArg::Imm(ImmType::Signed, ValSize::Size32, imm as i64)),
                    ),
                ),
                _ => None,
            }
        },
        X64Operand::Nothing => None,
    }
}

/// The access width an operand fixes: `Some(None)` for a memory operand,
/// which takes the width of the other one, and `None` for a register the IR
/// has no width for.
pub open spec fn spec_operand_size(op: X64Operand) -> Option<Option<ValSize>> {
    match op {
        X64Operand::ImmediateI8(_) | X64Operand::ImmediateU8(_) => Some(Some(ValSize::Size8)),
        X64Operand::ImmediateI16(_) | X64Operand::ImmediateU16(_) => Some(Some(ValSize::Size16)),
        X64Operand::ImmediateU32(_) | X64Operand::ImmediateI32(_) => Some(Some(ValSize::Size32)),
        X64Operand::ImmediateU64(_) | X64Operand::ImmediateI64(_) => Some(Some(ValSize::Size64)),
        X64Operand::Register(reg) => match spec_reg_size(reg) {
            Some(s) => Some(Some(s)),
            None => None,
        },
        _ => Some(None),
    }
}

fn get_operand_size(op: &X64Operand) -> (r: Option<Option<ValSize>>)
    ensures
        r == spec_operand_size(*op),
{
    match op {
        X64Operand::ImmediateI8(_) | X64Operand::ImmediateU8(_) => Some(Some(ValSize::Size8)),
        X64Operand::ImmediateI16(_) | X64Operand::ImmediateU16(_) => Some(Some(ValSize::Size16)),
        X64Operand::ImmediateU32(_) | X64Operand::ImmediateI32(_) => Some(Some(ValSize::Size32)),
        X64Operand::ImmediateU64(_) | X64Operand::ImmediateI64(_) => Some(Some(ValSize::Size64)),
        X64Operand::Register(reg) => match get_reg_size(*reg) {
            Some(s) => Some(Some(s)),
            None => None,
        },
        _ => Some(None),
    }
}

/// What a data-flow entry adds to the sources: a register, flag or memory
/// operand that is read. `None` when it names what the IR cannot express.
pub open spec fn spec_source_of(instr: X64Instruction, e: (DataLoc, bool)) -> Option<Option<Value>> {
    if e.1 {
        Some(None)
    } else {
        match e.0 {
            DataLoc::Register(r) => match spec_convert_reg(r) {
                Some(v) => Some(Some(v)),
                None => None,
            },
            DataLoc::ZF => Some(Some(Value::Reg(X86Regs::Zf, ValSize::Size8))),
            DataLoc::CF => Some(Some(Value::Reg(X86Regs::Cf, ValSize::Size8))),
            DataLoc::UnevalMem(op) => match spec_convert_operand(spec_operand(instr, op as int), ValSize::Size32) {
                Some(v) => Some(Some(v)),
                None => None,
            },
            DataLoc::Other => Some(None),
        }
    }
}

/// What a data-flow entry adds to the destinations: a register or flag that
/// is written, or a memory operand (whose entry is a read).
pub open spec fn spec_dest_of(instr: X64Instruction, e: (DataLoc, bool)) -> Option<Option<Value>> {
    match e.0 {
        DataLoc::Register(r) => if e.1 {
            match spec_convert_reg(r) {
                Some(v) => Some(Some(v)),
                None => None,
            }
        } else {
            Some(None)
        },
        DataLoc::ZF => if e.1 {
            Some(Some(Value::Reg(X86Regs::Zf, ValSize::Size8)))
        } else {
            Some(None)
        },
        DataLoc::CF => if e.1 {
            Some(Some(Value::Reg(X86Regs::Cf, ValSize::Size8)))
        } else {
            Some(None)
        },
        DataLoc::UnevalMem(op) => if e.1 {
            Some(None)
        } else {
            match spec_convert_operand(spec_operand(instr, op as int), ValSize::Size32) {
                Some(v) => Some(Some(v)),
                None => None,
            }
        },
        DataLoc::Other => Some(None),
    }
}

/// The sources (or destinations) of the first `n` data-flow entries.
pub open spec fn spec_flow_values(instr: X64Instruction, n: nat, dests: bool) -> Option<Seq<Value>>
    decreases n,
{
    if n == 0 {
        Some(Seq::empty())
    } else {
        let e = instr.flow@[n - 1];
        let add = if dests {
            spec_dest_of(instr, e)
        } else {
            spec_source_of(instr, e)
        };
        match (spec_flow_values(instr, (n - 1) as nat, dests), add) {
            (Some(prev), Some(Some(v))) => Some(prev.push(v)),
            (Some(prev), Some(None)) => Some(prev),
            _ => None,
        }
    }
}

/// Every register, flag and memory operand that the instruction reads.
pub open spec fn spec_sources(instr: X64Instruction) -> Option<Seq<Value>> {
    spec_flow_values(instr, instr.flow@.len(), false)
}

/// Every register and flag that the instruction writes, and its memory
/// operands.
pub open spec fn spec_destinations(instr: X64Instruction) -> Option<Seq<Value>> {
    spec_flow_values(instr, instr.flow@.len(), true)
}

fn flow_values(instr: &X64Instruction, dests: bool) -> (r: Option<Vec<Value>>)
    ensures
        match (r, spec_flow_values(*instr, instr.flow@.len(), dests)) {
            (Some(v), Some(s)) => v@ == s,
            (None, None) => true,
            _ => false,
        },
{
    let mut values: Vec<Value> = Vec::new();
    let mut i: usize = 0;
    while i < instr.flow.len()
        invariant
            i <= instr.flow@.len(),
            spec_flow_values(*instr, i as nat, dests) == Some(values@),
        decreases instr.flow@.len() - i,
    {
        let (loc, is_write) = instr.flow[i];
        let add: Option<Option<Value>> = if dests {
            match loc {
                DataLoc::Register(r) => {
                    if is_write {
                        match convert_reg(r) {
                            Some(v) => Some(Some(v)),
                            None => None,
                        }
                    } else {
                        Some(None)
                    }
                },
                DataLoc::ZF => if is_write {
                    Some(Some(Value::Reg(X86Regs::Zf, ValSize::Size8)))
                } else {
                    Some(None)
                },
                DataLoc::CF => if is_write {
                    Some(Some(Value::Reg(X86Regs::Cf, ValSize::Size8)))
                } else {
                    Some(None)
                },
                DataLoc::UnevalMem(op) => {
                    if is_write {
                        Some(None)
                    } else {
                        match convert_operand(operand(instr, op as usize), ValSize::Size32) {
                            Some(v) => Some(Some(v)),
                            None => None,
                        }
                    }
                },
                DataLoc::Other => Some(None),
            }
        } else if is_write {
            Some(None)
        } else {
            match loc {
                DataLoc::Register(r) => match convert_reg(r) {
                    Some(v) => Some(Some(v)),
                    None => None,
                },
                DataLoc::ZF => Some(Some(Value::Reg(X86Regs::Zf, ValSize::Size8))),
                DataLoc::CF => Some(Some(Value::Reg(X86Regs::Cf, ValSize::Size8))),
                DataLoc::UnevalMem(op) => match convert_operand(operand(instr, op as usize), ValSize::Size32) {
                    Some(v) => Some(Some(v)),
                    None => None,
                },
                DataLoc::Other => Some(None),
            }
        };
        match add {
            Some(Some(v)) => values.push(v),
            Some(None) => {},
            None => {
                proof {
                    assert(spec_flow_values(*instr, (i + 1) as nat, dests) is None);
                    lemma_flow_none_stays(*instr, (i + 1) as nat, instr.flow@.len(), dests);
                }
                return None;
            },
        }
        i = i + 1;
    }
    Some(values)
}

/// A copy of a list of operands.
fn copy_values(v: &Vec<Value>) -> (r: Vec<Value>)
    ensures
        r@ == v@,
{
    let mut r: Vec<Value> = Vec::new();
    let mut i: usize = 0;
    while i < v.len()
        invariant
            i <= v@.len(),
            r@ == v@.take(i as int),
        decreases v@.len() - i,
    {
        r.push(v[i]);
        assert(v@.take(i + 1) =~= v@.take(i as int).push(v@[i as int]));
        i = i + 1;
    }
    assert(v@.take(i as int) =~= v@);
    r
}

/// Once a data-flow entry cannot be expressed, no longer prefix can be.
proof fn lemma_flow_none_stays(instr: X64Instruction, k: nat, n: nat, dests: bool)
    requires
        k <= n,
        spec_flow_values(instr, k, dests) is None,
    ensures
        spec_flow_values(instr, n, dests) is None,
    decreases n - k,
{
    if k < n {
        lemma_flow_none_stays(instr, k, (n - 1) as nat, dests);
    }
}

/// Every register, flag and memory operand that the instruction reads.
fn get_sources(instr: &X64Instruction) -> (r: Option<Vec<Value>>)
    ensures
        match (r, spec_sources(*instr)) {
            (Some(v), Some(s)) => v@ == s,
            (None, None) => true,
            _ => false,
        },
{
    flow_values(instr, false)
}

/// Every register and flag that the instruction writes, and its memory
/// operands.
fn get_destinations(instr: &X64Instruction) -> (r: Option<Vec<Value>>)
    ensures
        match (r, spec_destinations(*instr)) {
            (Some(v), Some(s)) => v@ == s,
            (None, None) => true,
            _ => false,
        },
{
    flow_values(instr, true)
}

/// `dst = f(srcs)` for each destination.
pub open spec fn clears(dsts: Seq<Value>, srcs: Seq<Value>) -> Seq<StmtView> {
    Seq::new(dsts.len(), |i: int| StmtView::Clear(dsts[i], srcs))
}

/// Each destination gets a value computed from all the sources.
pub open spec fn spec_generic_clear(instr: X64Instruction) -> Option<Seq<StmtView>> {
    match (spec_sources(instr), spec_destinations(instr)) {
        (Some(srcs), Some(dsts)) => Some(clears(dsts, srcs)),
        _ => None,
    }
}

fn generic_clear(instr: &X64Instruction) -> (r: Option<Vec<Stmt>>)
    ensures
        match (r, spec_generic_clear(*instr)) {
            (Some(v), Some(s)) => stmts_view(v@) == s,
            (None, None) => true,
            _ => false,
        },
{
    let sources = match get_sources(instr) {
        Some(s) => s,
        None => return None,
    };
    let dsts = match get_destinations(instr) {
        Some(d) => d,
        None => return None,
    };
    let mut stmts: Vec<Stmt> = Vec::new();
    let mut i: usize = 0;
    while i < dsts.len()
        invariant
            i <= dsts@.len(),
            stmts_view(stmts@) == clears(dsts@.take(i as int), sources@),
        decreases dsts@.len() - i,
    {
        let ghost prev = stmts@;
        let srcs = copy_values(&sources);
        let st = Stmt::Clear(dsts[i], srcs);
        assert(st@ == StmtView::Clear(dsts@[i as int], sources@));
        stmts.push(st);
        proof {
            assert(stmts@ =~= prev.push(st));
            assert(dsts@.take(i + 1) =~= dsts@.take(i as int).push(dsts@[i as int]));
            assert(stmts_view(stmts@) =~= stmts_view(prev).push(st@));
            assert(clears(dsts@.take(i + 1), sources@) =~= clears(dsts@.take(i as int), sources@).push(st@));
            assert(stmts_view(stmts@) =~= clears(dsts@.take(i + 1), sources@));
        }
        i = i + 1;
    }
    assert(dsts@.take(i as int) =~= dsts@);
    Some(stmts)
}

/// The width of the access that an instruction's first two operands make:
/// that of the first operand that fixes one. `None` when both are memory
/// operands or a register has no width in the IR.
pub open spec fn spec_memsize(instr: X64Instruction) -> Option<ValSize> {
    match (spec_operand_size(spec_operand(instr, 0)), spec_operand_size(spec_operand(instr, 1))) {
        (Some(Some(x)), Some(_)) => Some(x),
        (Some(None), Some(Some(x))) => Some(x),
        _ => None,
    }
}

fn memsize(instr: &X64Instruction) -> (r: Option<ValSize>)
    ensures
        r == spec_memsize(*instr),
{
    match (get_operand_size(&operand(instr, 0)), get_operand_size(&operand(instr, 1))) {
        (Some(Some(x)), Some(_)) => Some(x),
        (Some(None), Some(Some(x))) => Some(x),
        _ => None,
    }
}

/// `op0 = op1` with the given access width.
pub open spec fn spec_unop_w(opcode: Unopcode, instr: X64Instruction, memsize: ValSize) -> Option<StmtView> {
    match (
        spec_convert_operand(spec_operand(instr, 0), memsize),
        spec_convert_operand(spec_operand(instr, 1), memsize),
    ) {
        (Some(a), Some(b)) => Some(StmtView::Unop(opcode, a, b)),
        _ => None,
    }
}

/// `op0 = op1` with the width the operands fix.
pub open spec fn spec_unop(opcode: Unopcode, instr: X64Instruction) -> Option<StmtView> {
    match spec_memsize(instr) {
        Some(ms) => spec_unop_w(opcode, instr, ms),
        None => None,
    }
}

fn unop_w_memsize(opcode: Unopcode, instr: &X64Instruction, memsize: ValSize) -> (r: Option<Stmt>)
    ensures
        match (r, spec_unop_w(opcode, *instr, memsize)) {
            (Some(x), Some(y)) => x@ == y,
            (None, None) => true,
            _ => false,
        },
{
    match (convert_operand(operand(instr, 0), memsize), convert_operand(operand(instr, 1), memsize)) {
        (Some(a), Some(b)) => Some(Stmt::Unop(opcode, a, b)),
        _ => None,
    }
}

fn unop(opcode: Unopcode, instr: &X64Instruction) -> (r: Option<Stmt>)
    ensures
        match (r, spec_unop(opcode, *instr)) {
            (Some(x), Some(y)) => x@ == y,
            (None, None) => true,
            _ => false,
        },
{
    match memsize(instr) {
        Some(ms) => unop_w_memsize(opcode, instr, ms),
        None => None,
    }
}

/// `op0 = op0 op op1` for two operands, `op0 = op1 op op2` for three.
pub open spec fn spec_binop(opcode: Binopcode, instr: X64Instruction) -> Option<StmtView> {
    match spec_memsize(instr) {
        Some(ms) => {
            let c0 = spec_convert_operand(spec_operand(instr, 0), ms);
            let c1 = spec_convert_operand(spec_operand(instr, 1), ms);
            let c2 = spec_convert_operand(spec_operand(instr, 2), ms);
            if instr.operands@.len() == 2 {
                match (c0, c1) {
                    (Some(a), Some(b)) => Some(StmtView::Binop(opcode, a, a, b)),
                    _ => None,
                }
            } else {
                match (c0, c1, c2) {
                    (Some(a), Some(b), Some(c)) => Some(StmtView::Binop(opcode, a, b, c)),
                    _ => None,
                }
            }
        },
        None => None,
    }
}

fn binop(opcode: Binopcode, instr: &X64Instruction) -> (r: Option<Stmt>)
    ensures
        match (r, spec_binop(opcode, *instr)) {
            (Some(x), Some(y)) => x@ == y,
            (None, None) => true,
            _ => false,
        },
{
    let ms = match memsize(instr) {
        Some(ms) => ms,
        None => return None,
    };
    let c0 = convert_operand(operand(instr, 0), ms);
    let c1 = convert_operand(operand(instr, 1), ms);
    if instr.operands.len() == 2 {
        match (c0, c1) {
            (Some(a), Some(b)) => Some(Stmt::Binop(opcode, a, a, b)),
            _ => None,
        }
    } else {
        let c2 = convert_operand(operand(instr, 2), ms);
        match (c0, c1, c2) {
            (Some(a), Some(b), Some(c)) => Some(Stmt::Binop(opcode, a, b, c)),
            _ => None,
        }
    }
}

/// `f = flag-op(op0, op1)` for each flag `f`, with the width the operands fix.
pub open spec fn spec_flag_ops(opcode: Binopcode, instr: X64Instruction, flags: Seq<X86Regs>) -> Option<Seq<StmtView>> {
    match spec_memsize(instr) {
        Some(ms) => match (
            spec_convert_operand(spec_operand(instr, 0), ms),
            spec_convert_operand(spec_operand(instr, 1), ms),
        ) {
            (Some(a), Some(b)) => Some(
                Seq::new(flags.len(), |i: int| StmtView::Binop(opcode, Value::Reg(flags[i], ValSize::Size8), a, b)),
            ),
            _ => None,
        },
        None => None,
    }
}

fn flag_ops(opcode: Binopcode, instr: &X64Instruction, flags: Vec<X86Regs>) -> (r: Option<Vec<Stmt>>)
    ensures
        match (r, spec_flag_ops(opcode, *instr, flags@)) {
            (Some(x), Some(y)) => stmts_view(x@) == y,
            (None, None) => true,
            _ => false,
        },
{
    let ms = match memsize(instr) {
        Some(ms) => ms,
        None => return None,
    };
    let (a, b) = match (convert_operand(operand(instr, 0), ms), convert_operand(operand(instr, 1), ms)) {
        (Some(a), Some(b)) => (a, b),
        _ => return None,
    };
    let mut stmts: Vec<Stmt> = Vec::new();
    let mut i: usize = 0;
    while i < flags.len()
        invariant
            i <= flags@.len(),
            stmts_view(stmts@) == Seq::new(
                i as nat,
                |k: int| StmtView::Binop(opcode, Value::Reg(flags@[k], ValSize::Size8), a, b),
            ),
        decreases flags@.len() - i,
    {
        let ghost prev = stmts@;
        let st = Stmt::Binop(opcode, Value::Reg(flags[i], ValSize::Size8), a, b);
        stmts.push(st);
        proof {
            assert(stmts@ =~= prev.push(st));
            lemma_stmts_view_push(prev, st);
            assert(stmts_view(stmts@) =~= Seq::new(
                (i + 1) as nat,
                |k: int| StmtView::Binop(opcode, Value::Reg(flags@[k], ValSize::Size8), a, b),
            ));
        }
        i = i + 1;
    }
    Some(stmts)
}

/// A byte set from the given flags: `op0 = f(flags)`.
pub open spec fn spec_set_from_flags(op: X64Operand, flags: Seq<X86Regs>) -> Option<StmtView> {
    match spec_convert_operand(op, ValSize::Size8) {
        Some(d) => Some(StmtView::Clear(d, flags.map_values(|f: X86Regs| Value::Reg(f, ValSize::Size8)))),
        None => None,
    }
}

fn set_from_flags(op: X64Operand, flags: Vec<X86Regs>) -> (r: Option<Stmt>)
    ensures
        match (r, spec_set_from_flags(op, flags@)) {
            (Some(x), Some(y)) => x@ == y,
            (None, None) => true,
            _ => false,
        },
{
    let d = match convert_operand(op, ValSize::Size8) {
        Some(d) => d,
        None => return None,
    };
    let mut srcs: Vec<Value> = Vec::new();
    let mut i: usize = 0;
    while i < flags.len()
        invariant
            i <= flags@.len(),
            srcs@ == flags@.take(i as int).map_values(|f: X86Regs| Value::Reg(f, ValSize::Size8)),
        decreases flags@.len() - i,
    {
        srcs.push(Value::Reg(flags[i], ValSize::Size8));
        proof {
            assert(flags@.take(i + 1) =~= flags@.take(i as int).push(flags@[i as int]));
            assert(srcs@ =~= flags@.take(i + 1).map_values(|f: X86Regs| Value::Reg(f, ValSize::Size8)));
        }
        i = i + 1;
    }
    assert(flags@.take(i as int) =~= flags@);
    Some(Stmt::Clear(d, srcs))
}

/// The kind of branch an opcode makes.
pub open spec fn spec_branch_opcode(op: X64Opcode) -> Option<BranchOpcode> {
    match op {
        X64Opcode::JMP => Some(BranchOpcode::JMP),
        X64Opcode::JO => Some(BranchOpcode::JO),
        X64Opcode::JNO => Some(BranchOpcode::JNO),
        X64Opcode::JB => Some(BranchOpcode::JB),
        X64Opcode::JNB => Some(BranchOpcode::JNB),
        X64Opcode::JZ => Some(BranchOpcode::JZ),
        X64Opcode::JNZ => Some(BranchOpcode::JNZ),
        X64Opcode::JA => Some(BranchOpcode::JA),
        X64Opcode::JNA => Some(BranchOpcode::JNA),
        X64Opcode::JS => Some(BranchOpcode::JS),
        X64Opcode::JNS => Some(BranchOpcode::JNS),
        X64Opcode::JP => Some(BranchOpcode::JP),
        X64Opcode::JNP => Some(BranchOpcode::JNP),
        X64Opcode::JL => Some(BranchOpcode::JL),
        X64Opcode::JGE => Some(BranchOpcode::JGE),
        X64Opcode::JLE => Some(BranchOpcode::JLE),
        X64Opcode::JG => Some(BranchOpcode::JG),
        _ => None,
    }
}

fn branch_opcode(op: X64Opcode) -> (r: Option<BranchOpcode>)
    ensures
        r == spec_branch_opcode(op),
{
    match op {
        X64Opcode::JMP => Some(BranchOpcode::JMP),
        X64Opcode::JO => Some(BranchOpcode::JO),
        X64Opcode::JNO => Some(BranchOpcode::JNO),
        X64Opcode::JB => Some(BranchOpcode::JB),
        X64Opcode::JNB => Some(BranchOpcode::JNB),
        X64Opcode::JZ => Some(BranchOpcode::JZ),
        X64Opcode::JNZ => Some(BranchOpcode::JNZ),
        X64Opcode::JA => Some(BranchOpcode::JA),
        X64Opcode::JNA => Some(BranchOpcode::JNA),
        X64Opcode::JS => Some(BranchOpcode::JS),
        X64Opcode::JNS => Some(BranchOpcode::JNS),
        X64Opcode::JP => Some(BranchOpcode::JP),
        X64Opcode::JNP => Some(BranchOpcode::JNP),
        X64Opcode::JL => Some(BranchOpcode::JL),
        X64Opcode::JGE => Some(BranchOpcode::JGE),
        X64Opcode::JLE => Some(BranchOpcode::JLE),
        X64Opcode::JG => Some(BranchOpcode::JG),
        _ => None,
    }
}

/// The width in bytes of an operand (memory operands count as 8).
pub open spec fn spec_operand_width(op: X64Operand) -> Option<u8> {
    match op {
        X64Operand::Nothing => None,
        X64Operand::Register(reg) => Some(reg.width),
        X64Operand::ImmediateI8(_) | X64Operand::ImmediateU8(_) => Some(1),
        X64Operand::ImmediateI16(_) | X64Operand::ImmediateU16(_) => Some(2),
        X64Operand::ImmediateI32(_) | X64Operand::ImmediateU32(_) => Some(4),
        X64Operand::ImmediateI64(_) | X64Operand::ImmediateU64(_) => Some(8),
        _ => Some(8),
    }
}

fn operand_width(op: &X64Operand) -> (r: Option<u8>)
    ensures
        r == spec_operand_width(*op),
{
    match op {
        X64Operand::Nothing => None,
        X64Operand::Register(reg) => Some(reg.width),
        X64Operand::ImmediateI8(_) | X64Operand::ImmediateU8(_) => Some(1),
        X64Operand::ImmediateI16(_) | X64Operand::ImmediateU16(_) => Some(2),
        X64Operand::ImmediateI32(_) | X64Operand::ImmediateU32(_) => Some(4),
        X64Operand::ImmediateI64(_) | X64Operand::ImmediateU64(_) => Some(8),
        _ => Some(8),
    }
}

/// `[rsp]`, 8 bytes wide.
pub open spec fn stack_top() -> Value {
    Value::Mem(ValSize::Size64, MemArgs::Mem1Arg(MemArg::Reg(X86Regs::Rsp, ValSize::Size64)))
}

pub open spec fn rsp64() -> Value {
    Value::Reg(X86Regs::Rsp, ValSize::Size64)
}

/// The address that a RIP-relative operand names: the end of the
/// instruction plus the displacement (wrapping as the machine does).
pub open spec fn rip_target(addr: u64, length: u8, disp: i32) -> i64 {
    vstd::wrapping::i64_specs::wrapping_add(
        vstd::wrapping::i64_specs::wrapping_add(addr as i64, length as i64),
        disp as i64,
    )
}

/// `lea dst, src`: a RIP-relative address is a constant; an absolute
/// address `[c]` is moved; any other address clears the destination.
pub open spec fn spec_lea(instr: X64Instruction, addr: u64) -> Option<Seq<StmtView>> {
    let dst = spec_operand(instr, 0);
    let src1 = spec_operand(instr, 1);
    match spec_operand_size(dst) {
        Some(Some(ds)) => if src1 matches X64Operand::RegDisp(reg, _) && is_rip(reg) {
            match spec_convert_operand(dst, ds) {
                Some(d) => Some(
                    seq![StmtView::Unop(
                        Unopcode::Mov,
                        d,
                        Value::Imm(ImmType::Signed, ValSize::Size64, rip_target(addr, instr.length, src1->RegDisp_1)),
                    )],
                ),
                None => None,
            }
        } else {
            match spec_convert_operand(src1, ds) {
                Some(Value::Mem(_, MemArgs::Mem1Arg(MemArg::Imm(_, _, _)))) => match spec_unop(Unopcode::Mov, instr) {
                    Some(u) => Some(seq![u]),
                    None => None,
                },
                Some(Value::Mem(_, _)) => spec_generic_clear(instr),
                _ => None,
            }
        },
        _ => None,
    }
}

/// A single statement as a list.
fn one(s: Option<Stmt>) -> (r: Option<Vec<Stmt>>)
    ensures
        match (r, s) {
            (Some(v), Some(x)) => stmts_view(v@) == seq![x@],
            (None, None) => true,
            _ => false,
        },
{
    match s {
        Some(x) => {
            let v = vec![x];
            assert(stmts_view(v@) =~= seq![x@]);
            Some(v)
        },
        None => None,
    }
}

fn lea(instr: &X64Instruction, addr: u64) -> (r: Option<Vec<Stmt>>)
    ensures
        match (r, spec_lea(*instr, addr)) {
            (Some(v), Some(s)) => stmts_view(v@) == s,
            (None, None) => true,
            _ => false,
        },
{
    let dst = operand(instr, 0);
    let src1 = operand(instr, 1);
    let ds = match get_operand_size(&dst) {
        Some(Some(ds)) => ds,
        _ => return None,
    };
    if let X64Operand::RegDisp(reg, disp) = src1 {
        if let RegClass::RIP = reg.class {
            // the end of the instruction plus the displacement
            let base = #[verifier::truncate] (addr as i64);
            let target = base.wrapping_add(instr.length as i64).wrapping_add(disp as i64);
            return match convert_operand(dst, ds) {
                Some(d) => one(Some(Stmt::Unop(Unopcode::Mov, d, Value::Imm(ImmType::Signed, ValSize::Size64, target)))),
                None => None,
            };
        }
    }
    match convert_operand(src1, ds) {
        Some(Value::Mem(_, MemArgs::Mem1Arg(MemArg::Imm(_, _, _)))) => one(unop(Unopcode::Mov, instr)),
        Some(Value::Mem(_, _)) => generic_clear(instr),
        _ => None,
    }
}

/// A statement, as a list of one.
pub open spec fn single(s: Option<StmtView>) -> Option<Seq<StmtView>> {
    match s {
        Some(x) => Some(seq![x]),
        None => None,
    }
}

/// A statement followed by `zf = f(sources)`.
pub open spec fn spec_with_zf(s: Option<StmtView>, instr: X64Instruction) -> Option<Seq<StmtView>> {
    match (s, spec_sources(instr)) {
        (Some(x), Some(srcs)) => Some(seq![x, StmtView::Clear(Value::Reg(X86Regs::Zf, ValSize::Size8), srcs)]),
        _ => None,
    }
}

fn with_zf(s: Option<Stmt>, instr: &X64Instruction) -> (r: Option<Vec<Stmt>>)
    ensures
        match (r, spec_with_zf(match s {
            Some(x) => Some(x@),
            None => None,
        }, *instr)) {
            (Some(v), Some(t)) => stmts_view(v@) == t,
            (None, None) => true,
            _ => false,
        },
{
    match (s, get_sources(instr)) {
        (Some(x), Some(srcs)) => {
            let ghost xv = x@;
            let ghost sv = srcs@;
            let v = vec![x, Stmt::Clear(Value::Reg(X86Regs::Zf, ValSize::Size8), srcs)];
            assert(stmts_view(v@) =~= seq![xv, StmtView::Clear(Value::Reg(X86Regs::Zf, ValSize::Size8), sv)]);
            Some(v)
        },
        _ => None,
    }
}

/// The flags that a `set` opcode reads.
pub open spec fn spec_set_flags(op: X64Opcode) -> Option<Seq<X86Regs>> {
    match op {
        X64Opcode::SETG | X64Opcode::SETLE => Some(seq![X86Regs::Zf, X86Regs::Sf, X86Regs::Of]),
        X64Opcode::SETO | X64Opcode::SETNO => Some(seq![X86Regs::Of]),
        X64Opcode::SETS | X64Opcode::SETNS => Some(seq![X86Regs::Sf]),
        X64Opcode::SETGE | X64Opcode::SETL => Some(seq![X86Regs::Sf, X86Regs::Of]),
        X64Opcode::SETNZ | X64Opcode::SETZ => Some(seq![X86Regs::Zf]),
        X64Opcode::SETAE | X64Opcode::SETB => Some(seq![X86Regs::Cf]),
        X64Opcode::SETA | X64Opcode::SETBE => Some(seq![X86Regs::Cf, X86Regs::Zf]),
        X64Opcode::SETP | X64Opcode::SETNP => Some(seq![X86Regs::Pf]),
        _ => None,
    }
}

fn set_flags(op: X64Opcode) -> (r: Option<Vec<X86Regs>>)
    ensures
        match (r, spec_set_flags(op)) {
            (Some(v), Some(s)) => v@ == s,
            (None, None) => true,
            _ => false,
        },
{
    let r = match op {
        X64Opcode::SETG | X64Opcode::SETLE => vec![X86Regs::Zf, X86Regs::Sf, X86Regs::Of],
        X64Opcode::SETO | X64Opcode::SETNO => vec![X86Regs::Of],
        X64Opcode::SETS | X64Opcode::SETNS => vec![X86Regs::Sf],
        X64Opcode::SETGE | X64Opcode::SETL => vec![X86Regs::Sf, X86Regs::Of],
        X64Opcode::SETNZ | X64Opcode::SETZ => vec![X86Regs::Zf],
        X64Opcode::SETAE | X64Opcode::SETB => vec![X86Regs::Cf],
        X64Opcode::SETA | X64Opcode::SETBE => vec![X86Regs::Cf, X86Regs::Zf],
        X64Opcode::SETP | X64Opcode::SETNP => vec![X86Regs::Pf],
        _ => return None,
    };
    proof {
        assert(r@ =~= spec_set_flags(op)->0);
    }
    Some(r)
}

/// A bit scan or count `dst = f(src)`: `zf = f(src)`, then `dst = f(src)`.
pub open spec fn spec_bit_scan(instr: X64Instruction) -> Option<Seq<StmtView>> {
    let op0 = spec_operand(instr, 0);
    let op1 = spec_operand(instr, 1);
    match (spec_operand_size(op1), spec_operand_size(op0)) {
        (Some(Some(s1)), Some(Some(s0))) => match (spec_convert_operand(op1, s1), spec_convert_operand(op0, s0)) {
            (Some(a), Some(d)) => Some(
                seq![
                    StmtView::Clear(Value::Reg(X86Regs::Zf, ValSize::Size8), seq![a]),
                    StmtView::Clear(d, seq![a]),
                ],
            ),
            _ => None,
        },
        _ => None,
    }
}

/// The source operand, and the destination operand, each at its own width.
fn own_width_operands(instr: &X64Instruction) -> (r: Option<(Value, Value)>)
    ensures
        match (spec_operand_size(spec_operand(*instr, 1)), spec_operand_size(spec_operand(*instr, 0))) {
            (Some(Some(s1)), Some(Some(s0))) => match (
                spec_convert_operand(spec_operand(*instr, 1), s1),
                spec_convert_operand(spec_operand(*instr, 0), s0),
            ) {
                (Some(a), Some(d)) => r == Some((a, d)),
                _ => r is None,
            },
            _ => r is None,
        },
{
    let op0 = operand(instr, 0);
    let op1 = operand(instr, 1);
    match (get_operand_size(&op1), get_operand_size(&op0)) {
        (Some(Some(s1)), Some(Some(s0))) => match (convert_operand(op1, s1), convert_operand(op0, s0)) {
            (Some(a), Some(d)) => Some((a, d)),
            _ => None,
        },
        _ => None,
    }
}

/// A conversion `dst = f(src)`, each at its own width.
pub open spec fn spec_convert_clear(instr: X64Instruction) -> Option<Seq<StmtView>> {
    let op0 = spec_operand(instr, 0);
    let op1 = spec_operand(instr, 1);
    match (spec_operand_size(op1), spec_operand_size(op0)) {
        (Some(Some(s1)), Some(Some(s0))) => match (spec_convert_operand(op1, s1), spec_convert_operand(op0, s0)) {
            (Some(a), Some(d)) => Some(seq![StmtView::Clear(d, seq![a])]),
            _ => None,
        },
        _ => None,
    }
}

/// The statements that one instruction at `addr` is lifted to. `None` for an
/// instruction that the IR cannot express, and in `strict` mode for an
/// opcode the lifter does not know.
#[verifier::opaque]
pub open spec fn spec_lift(instr: X64Instruction, addr: u64, strict: bool) -> Option<Seq<StmtView>> {
    let op0 = spec_operand(instr, 0);
    match instr.opcode {
        X64Opcode::MOV | X64Opcode::MOVZX | X64Opcode::MOVAPS => single(spec_unop(Unopcode::Mov, instr)),
        X64Opcode::MOVQ | X64Opcode::MOVSD => single(spec_unop_w(Unopcode::Mov, instr, ValSize::Size64)),
        X64Opcode::MOVD | X64Opcode::MOVSS => single(spec_unop_w(Unopcode::Mov, instr, ValSize::Size32)),
        X64Opcode::MOVSX | X64Opcode::MOVSXD => single(spec_unop(Unopcode::Movsx, instr)),
        X64Opcode::LEA => spec_lea(instr, addr),
        X64Opcode::TEST => spec_flag_ops(Binopcode::Test, instr, seq![X86Regs::Zf, X86Regs::Cf]),
        X64Opcode::UCOMISS | X64Opcode::UCOMISD | X64Opcode::CMP => spec_flag_ops(
            Binopcode::Cmp,
            instr,
            seq![X86Regs::Zf, X86Regs::Cf, X86Regs::Pf, X86Regs::Sf, X86Regs::Of],
        ),
        X64Opcode::AND => spec_with_zf(spec_binop(Binopcode::And, instr), instr),
        X64Opcode::ADD => spec_with_zf(spec_binop(Binopcode::Add, instr), instr),
        X64Opcode::SUB => spec_with_zf(spec_binop(Binopcode::Sub, instr), instr),
        X64Opcode::SHL => spec_with_zf(spec_binop(Binopcode::Shl, instr), instr),
        X64Opcode::CMOVNB => Some(Seq::empty()),
        X64Opcode::UD2 => Some(seq![StmtView::Undefined]),
        X64Opcode::RETURN => Some(seq![StmtView::Ret]),
        X64Opcode::JMP | X64Opcode::JO | X64Opcode::JNO | X64Opcode::JB | X64Opcode::JNB | X64Opcode::JZ
        | X64Opcode::JNZ | X64Opcode::JA | X64Opcode::JNA | X64Opcode::JS | X64Opcode::JNS | X64Opcode::JP
        | X64Opcode::JNP | X64Opcode::JL | X64Opcode::JGE | X64Opcode::JLE | X64Opcode::JG => match (
            spec_branch_opcode(instr.opcode),
            spec_convert_operand(op0, ValSize::Size64),
        ) {
            (Some(b), Some(v)) => Some(seq![StmtView::Branch(b, v)]),
            _ => None,
        },
        X64Opcode::CALL => match spec_convert_operand(op0, ValSize::Size64) {
            Some(v) => Some(seq![StmtView::Call(v)]),
            None => None,
        },
        X64Opcode::PUSH => match (spec_operand_width(op0), spec_convert_operand(op0, ValSize::Size64)) {
            (Some(8), Some(v)) => Some(
                seq![
                    StmtView::Binop(Binopcode::Sub, rsp64(), rsp64(), Value::Imm(ImmType::Signed, ValSize::Size64, 8)),
                    StmtView::Unop(Unopcode::Mov, stack_top(), v),
                ],
            ),
            _ => None,
        },
        X64Opcode::POP => match (spec_operand_width(op0), spec_convert_operand(op0, ValSize::Size64)) {
            (Some(8), Some(v)) => Some(
                seq![
                    StmtView::Unop(Unopcode::Mov, v, stack_top()),
                    StmtView::Binop(Binopcode::Add, rsp64(), rsp64(), Value::Imm(ImmType::Signed, ValSize::Size64, 8)),
                ],
            ),
            _ => None,
        },
        X64Opcode::NOP | X64Opcode::FILD | X64Opcode::STD | X64Opcode::CLD | X64Opcode::STI => Some(Seq::empty()),
        X64Opcode::XORPS | X64Opcode::XORPD | X64Opcode::XOR => if instr.operands@.len() == 2 && op0
            == spec_operand(instr, 1) {
            match (spec_convert_operand(op0, ValSize::Size64), spec_sources(instr)) {
                (Some(d), Some(srcs)) => Some(
                    seq![
                        StmtView::Unop(Unopcode::Mov, d, Value::Imm(ImmType::Signed, ValSize::Size64, 0)),
                        StmtView::Clear(Value::Reg(X86Regs::Zf, ValSize::Size8), srcs),
                    ],
                ),
                _ => None,
            }
        } else {
            spec_generic_clear(instr)
        },
        X64Opcode::CDQ | X64Opcode::CDQE => Some(
            seq![
                StmtView::Clear(Value::Reg(X86Regs::Rax, ValSize::Size64), Seq::empty()),
                StmtView::Clear(Value::Reg(X86Regs::Rdx, ValSize::Size64), Seq::empty()),
            ],
        ),
        X64Opcode::SETG | X64Opcode::SETLE | X64Opcode::SETO | X64Opcode::SETNO | X64Opcode::SETS
        | X64Opcode::SETNS | X64Opcode::SETGE | X64Opcode::SETL | X64Opcode::SETNZ | X64Opcode::SETZ
        | X64Opcode::SETAE | X64Opcode::SETB | X64Opcode::SETA | X64Opcode::SETBE | X64Opcode::SETP
        | X64Opcode::SETNP => match spec_set_flags(instr.opcode) {
            Some(flags) => single(spec_set_from_flags(op0, flags)),
            None => None,
        },
        X64Opcode::BSF | X64Opcode::BSR | X64Opcode::LZCNT | X64Opcode::TZCNT => spec_bit_scan(instr),
        X64Opcode::CVTSI2SS => spec_convert_clear(instr),
        X64Opcode::CMOVZ | X64Opcode::Cleared => spec_generic_clear(instr),
        X64Opcode::Unknown => if strict {
            None
        } else {
            spec_generic_clear(instr)
        },
    }
}

/// A statement's view, if there is one.
pub open spec fn opt_view(s: Option<Stmt>) -> Option<StmtView> {
    match s {
        Some(x) => Some(x@),
        None => None,
    }
}

/// Lifts one instruction at `addr` (see `spec_lift`).
pub fn lift(instr: &X64Instruction, addr: u64, strict: bool) -> (r: Option<Vec<Stmt>>)
    ensures
        match (r, spec_lift(*instr, addr, strict)) {
            (Some(v), Some(s)) => stmts_view(v@) == s,
            (None, None) => true,
            _ => false,
        },
{
    reveal(spec_lift);
    let op0 = operand(instr, 0);
    match instr.opcode {
        X64Opcode::MOV | X64Opcode::MOVZX | X64Opcode::MOVAPS => one(unop(Unopcode::Mov, instr)),
        X64Opcode::MOVQ | X64Opcode::MOVSD => one(unop_w_memsize(Unopcode::Mov, instr, ValSize::Size64)),
        X64Opcode::MOVD | X64Opcode::MOVSS => one(unop_w_memsize(Unopcode::Mov, instr, ValSize::Size32)),
        X64Opcode::MOVSX | X64Opcode::MOVSXD => one(unop(Unopcode::Movsx, instr)),
        X64Opcode::LEA => lea(instr, addr),
        X64Opcode::TEST => {
            let flags = vec![X86Regs::Zf, X86Regs::Cf];
            assert(flags@ =~= seq![X86Regs::Zf, X86Regs::Cf]);
            flag_ops(Binopcode::Test, instr, flags)
        },
        X64Opcode::UCOMISS | X64Opcode::UCOMISD | X64Opcode::CMP => {
            let flags = vec![X86Regs::Zf, X86Regs::Cf, X86Regs::Pf, X86Regs::Sf, X86Regs::Of];
            assert(flags@ =~= seq![X86Regs::Zf, X86Regs::Cf, X86Regs::Pf, X86Regs::Sf, X86Regs::Of]);
            flag_ops(Binopcode::Cmp, instr, flags)
        },
        X64Opcode::AND => with_zf(binop(Binopcode::And, instr), instr),
        X64Opcode::ADD => with_zf(binop(Binopcode::Add, instr), instr),
        X64Opcode::SUB => with_zf(binop(Binopcode::Sub, instr), instr),
        X64Opcode::SHL => with_zf(binop(Binopcode::Shl, instr), instr),
        // part of the Spectre mitigation: the move is assumed never to happen
        // (if it does, the code traps)
        X64Opcode::CMOVNB => {
            let v: Vec<Stmt> = Vec::new();
            assert(stmts_view(v@) =~= Seq::empty());
            Some(v)
        },
        X64Opcode::UD2 => one(Some(Stmt::Undefined)),
        X64Opcode::RETURN => one(Some(Stmt::Ret)),
        X64Opcode::JMP | X64Opcode::JO | X64Opcode::JNO | X64Opcode::JB | X64Opcode::JNB | X64Opcode::JZ
        | X64Opcode::JNZ | X64Opcode::JA | X64Opcode::JNA | X64Opcode::JS | X64Opcode::JNS | X64Opcode::JP
        | X64Opcode::JNP | X64Opcode::JL | X64Opcode::JGE | X64Opcode::JLE | X64Opcode::JG => {
            match (branch_opcode(instr.opcode), convert_operand(op0, ValSize::Size64)) {
                (Some(b), Some(v)) => one(Some(Stmt::Branch(b, v))),
                _ => None,
            }
        },
        X64Opcode::CALL => match convert_operand(op0, ValSize::Size64) {
            Some(v) => one(Some(Stmt::Call(v))),
            None => None,
        },
        X64Opcode::PUSH => match (operand_width(&op0), convert_operand(op0, ValSize::Size64)) {
            (Some(8), Some(v)) => {
                let r = vec![
                    Stmt::Binop(Binopcode::Sub, Value::Reg(X86Regs::Rsp, ValSize::Size64), Value::Reg(X86Regs::Rsp, ValSize::Size64), mk_value_i64(8)),
                    Stmt::Unop(
                        Unopcode::Mov,
                        Value::Mem(valsize(64), MemArgs::Mem1Arg(MemArg::Reg(X86Regs::Rsp, ValSize::Size64))),
                        v,
                    ),
                ];
                assert(stmts_view(r@) =~= spec_lift(*instr, addr, strict)->0);
                Some(r)
            },
            _ => None,
        },
        X64Opcode::POP => match (operand_width(&op0), convert_operand(op0, ValSize::Size64)) {
            (Some(8), Some(v)) => {
                let r = vec![
                    Stmt::Unop(
                        Unopcode::Mov,
                        v,
                        Value::Mem(valsize(64), MemArgs::Mem1Arg(MemArg::Reg(X86Regs::Rsp, ValSize::Size64))),
                    ),
                    Stmt::Binop(Binopcode::Add, Value::Reg(X86Regs::Rsp, ValSize::Size64), Value::Reg(X86Regs::Rsp, ValSize::Size64), mk_value_i64(8)),
                ];
                assert(stmts_view(r@) =~= spec_lift(*instr, addr, strict)->0);
                Some(r)
            },
            _ => None,
        },
        X64Opcode::NOP | X64Opcode::FILD | X64Opcode::STD | X64Opcode::CLD | X64Opcode::STI => {
            let v: Vec<Stmt> = Vec::new();
            assert(stmts_view(v@) =~= Seq::empty());
            Some(v)
        },
        X64Opcode::XORPS | X64Opcode::XORPD | X64Opcode::XOR => {
            // xor reg, reg => mov reg, 0
            if instr.operands.len() == 2 && op0 == operand(instr, 1) {
                match (convert_operand(op0, ValSize::Size64), get_sources(instr)) {
                    (Some(d), Some(srcs)) => {
                        let ghost sv = srcs@;
                        let r = vec![
                            Stmt::Unop(Unopcode::Mov, d, Value::Imm(ImmType::Signed, ValSize::Size64, 0)),
                            Stmt::Clear(Value::Reg(X86Regs::Zf, ValSize::Size8), srcs),
                        ];
                        assert(stmts_view(r@) =~= seq![
                            StmtView::Unop(Unopcode::Mov, d, Value::Imm(ImmType::Signed, ValSize::Size64, 0)),
                            StmtView::Clear(Value::Reg(X86Regs::Zf, ValSize::Size8), sv),
                        ]);
                        Some(r)
                    },
                    _ => None,
                }
            } else {
                generic_clear(instr)
            }
        },
        X64Opcode::CDQ | X64Opcode::CDQE => {
            let r = vec![
                Stmt::Clear(Value::Reg(X86Regs::Rax, ValSize::Size64), Vec::new()),
                Stmt::Clear(Value::Reg(X86Regs::Rdx, ValSize::Size64), Vec::new()),
            ];
            assert(stmts_view(r@) =~= spec_lift(*instr, addr, strict)->0);
            Some(r)
        },
        X64Opcode::SETG | X64Opcode::SETLE | X64Opcode::SETO | X64Opcode::SETNO | X64Opcode::SETS
        | X64Opcode::SETNS | X64Opcode::SETGE | X64Opcode::SETL | X64Opcode::SETNZ | X64Opcode::SETZ
        | X64Opcode::SETAE | X64Opcode::SETB | X64Opcode::SETA | X64Opcode::SETBE | X64Opcode::SETP
        | X64Opcode::SETNP => match set_flags(instr.opcode) {
            Some(flags) => one(set_from_flags(op0, flags)),
            None => None,
        },
        X64Opcode::BSF | X64Opcode::BSR | X64Opcode::LZCNT | X64Opcode::TZCNT => {
            match own_width_operands(instr) {
                Some((a, d)) => {
                    let s1 = vec![a];
                    let s2 = vec![a];
                    assert(s1@ =~= seq![a] && s2@ =~= seq![a]);
                    let r = vec![
                        Stmt::Clear(Value::Reg(X86Regs::Zf, ValSize::Size8), s1),
                        Stmt::Clear(d, s2),
                    ];
                    assert(stmts_view(r@) =~= spec_lift(*instr, addr, strict)->0);
                    Some(r)
                },
                None => None,
            }
        },
        X64Opcode::CVTSI2SS => match own_width_operands(instr) {
            Some((a, d)) => {
                let s1 = vec![a];
                assert(s1@ =~= seq![a]);
                let r = vec![Stmt::Clear(d, s1)];
                assert(stmts_view(r@) =~= spec_lift(*instr, addr, strict)->0);
                Some(r)
            },
            None => None,
        },
        X64Opcode::CMOVZ | X64Opcode::Cleared => generic_clear(instr),
        X64Opcode::Unknown => {
            if strict {
                None
            } else {
                generic_clear(instr)
            }
        },
    }
}

/// The outcome of recognizing an idiom at the start of a list of
/// instructions: the instructions cannot be lifted at all, the idiom is not
/// there, or it is, spanning `n` instructions from the address given.
pub enum ParseView {
    Fail,
    NoMatch,
    Match(nat, u64, Seq<StmtView>),
}

pub enum Parsed {
    Fail,
    NoMatch,
    Match(usize, u64, Vec<Stmt>),
}

impl View for Parsed {
    type V = ParseView;

    open spec fn view(&self) -> ParseView {
        match self {
            Parsed::Fail => ParseView::Fail,
            Parsed::NoMatch => ParseView::NoMatch,
            Parsed::Match(n, a, v) => ParseView::Match(*n as nat, *a, stmts_view(v@)),
        }
    }
}

/// An operand at the width it fixes itself (a register or an immediate).
pub open spec fn spec_own_width(op: X64Operand) -> Option<Value> {
    match spec_operand_size(op) {
        Some(Some(s)) => spec_convert_operand(op, s),
        _ => None,
    }
}

fn own_width(op: X64Operand) -> (r: Option<Value>)
    ensures
        r == spec_own_width(op),
{
    match get_operand_size(&op) {
        Some(Some(s)) => convert_operand(op, s),
        _ => None,
    }
}

/// `bsf`/`bsr dst, src` followed by `cmovz dst, src2` (what Cranelift emits
/// for counting zeros): `zf = f(src)`, `dst = f(src, src2)`.
pub open spec fn spec_parse_scan_cmove(instrs: Seq<(u64, X64Instruction)>, scan: X64Opcode) -> ParseView {
    if instrs.len() == 0 || instrs[0].1.opcode != scan {
        ParseView::NoMatch
    } else {
        let i0 = instrs[0].1;
        match (spec_own_width(spec_operand(i0, 0)), spec_own_width(spec_operand(i0, 1))) {
            (Some(dst), Some(src)) => if instrs.len() < 2 || instrs[1].1.opcode != X64Opcode::CMOVZ {
                ParseView::NoMatch
            } else {
                let i1 = instrs[1].1;
                match spec_own_width(spec_operand(i1, 0)) {
                    Some(mov_dst) => if dst is Reg && mov_dst is Reg && dst->Reg_0 == mov_dst->Reg_0 {
                        match spec_own_width(spec_operand(i1, 1)) {
                            Some(mov_src) => ParseView::Match(
                                2,
                                instrs[0].0,
                                seq![
                                    StmtView::Clear(Value::Reg(X86Regs::Zf, ValSize::Size8), seq![src]),
                                    StmtView::Clear(dst, seq![src, mov_src]),
                                ],
                            ),
                            None => ParseView::Fail,
                        }
                    } else {
                        ParseView::NoMatch
                    },
                    None => ParseView::Fail,
                }
            },
            _ => ParseView::Fail,
        }
    }
}

fn parse_scan_cmove(instrs: &Vec<(u64, X64Instruction)>, start: usize, scan: X64Opcode) -> (r: Parsed)
    requires
        start <= instrs@.len(),
    ensures
        r@ == spec_parse_scan_cmove(instrs@.skip(start as int), scan),
{
    let ghost rest = instrs@.skip(start as int);
    if start >= instrs.len() || instrs[start].1.opcode != scan {
        return Parsed::NoMatch;
    }
    let i0 = &instrs[start].1;
    let (dst, src) = match (own_width(operand(i0, 0)), own_width(operand(i0, 1))) {
        (Some(d), Some(s)) => (d, s),
        _ => return Parsed::Fail,
    };
    if start + 1 >= instrs.len() || instrs[start + 1].1.opcode != X64Opcode::CMOVZ {
        return Parsed::NoMatch;
    }
    let i1 = &instrs[start + 1].1;
    assert(rest[1] == instrs@[start + 1]);
    let mov_dst = match own_width(operand(i1, 0)) {
        Some(m) => m,
        None => return Parsed::Fail,
    };
    if let (Value::Reg(r1, _), Value::Reg(r2, _)) = (dst, mov_dst) {
        if r1 == r2 {
            let mov_src = match own_width(operand(i1, 1)) {
                Some(m) => m,
                None => return Parsed::Fail,
            };
            let s1 = vec![src];
            let s2 = vec![src, mov_src];
            assert(s1@ =~= seq![src] && s2@ =~= seq![src, mov_src]);
            let stmts = vec![Stmt::Clear(Value::Reg(X86Regs::Zf, ValSize::Size8), s1), Stmt::Clear(dst, s2)];
            assert(stmts_view(stmts@) =~= seq![
                StmtView::Clear(Value::Reg(X86Regs::Zf, ValSize::Size8), seq![src]),
                StmtView::Clear(dst, seq![src, mov_src]),
            ]);
            return Parsed::Match(2, instrs[start].0, stmts);
        }
    }
    Parsed::NoMatch
}

/// The size of the stack probe that `mov eax, n` sets up.
pub open spec fn spec_probestack_arg(s: Seq<StmtView>) -> Option<u64> {
    if s.len() == 1 && (s[0] matches StmtView::Unop(Unopcode::Mov, Value::Reg(X86Regs::Rax, ValSize::Size32), Value::Imm(_, _, _))) {
        Some(s[0]->Unop_2->Imm_2 as u64)
    } else {
        None
    }
}

/// Whether `call` at `addr` targets the runtime's stack probe.
pub open spec fn spec_is_probestack_call(s: Seq<StmtView>, addr: u64, probestack: u64) -> bool {
    s.len() == 1 && (s[0] matches StmtView::Call(Value::Imm(_, _, _))) && vstd::wrapping::i64_specs::wrapping_add(
        vstd::wrapping::i64_specs::wrapping_add(5, s[0]->Call_0->Imm_2),
        addr as i64,
    ) == probestack as i64
}

/// How far the stack is lowered after the probe, beyond what the probe
/// covers: `sub rsp, rax` lowers it by exactly the probed size, `sub rsp, c`
/// by `c`. `None` for any other statement.
pub open spec fn spec_probestack_suffix(s: StmtView, arg: u64) -> Option<i64> {
    if s == StmtView::Binop(Binopcode::Sub, rsp64(), rsp64(), Value::Reg(X86Regs::Rax, ValSize::Size64)) {
        Some(0)
    } else if s matches StmtView::Binop(Binopcode::Sub, Value::Reg(X86Regs::Rsp, ValSize::Size64), Value::Reg(X86Regs::Rsp, ValSize::Size64), Value::Imm(_, _, _)) {
        Some(vstd::wrapping::i64_specs::wrapping_sub(s->Binop_3->Imm_2, arg as i64))
    } else {
        None
    }
}

/// A call of the runtime's stack probe: `mov eax, n; call probestack;
/// sub rsp, ...` becomes `mov eax, n`, a probe of `n` bytes, and the
/// lowering of the stack beyond it.
pub open spec fn spec_parse_probestack(instrs: Seq<(u64, X64Instruction)>, md_probestack: u64, strict: bool) -> ParseView {
    if instrs.len() == 0 {
        ParseView::NoMatch
    } else {
        match spec_lift(instrs[0].1, instrs[0].0, strict) {
            None => ParseView::Fail,
            Some(mov) => match spec_probestack_arg(mov) {
                None => ParseView::NoMatch,
                Some(arg) => if instrs.len() < 2 {
                    ParseView::NoMatch
                } else {
                    match spec_lift(instrs[1].1, instrs[1].0, strict) {
                        None => ParseView::Fail,
                        Some(call) => if !spec_is_probestack_call(call, instrs[1].0, md_probestack) {
                            ParseView::NoMatch
                        } else if instrs.len() < 3 {
                            ParseView::NoMatch
                        } else {
                            match spec_lift(instrs[2].1, instrs[2].0, strict) {
                                None => ParseView::Fail,
                                Some(sub) => if sub.len() == 0 {
                                    ParseView::Fail
                                } else {
                                    match spec_probestack_suffix(sub[0], arg) {
                                        None => ParseView::NoMatch,
                                        Some(adj) => {
                                            let base = mov.push(StmtView::ProbeStack(arg));
                                            ParseView::Match(
                                                3,
                                                instrs[0].0,
                                                if adj != 0 {
                                                    base.push(StmtView::Binop(Binopcode::Sub, rsp64(), rsp64(), Value::Imm(ImmType::Signed, ValSize::Size64, adj)))
                                                } else {
                                                    base
                                                },
                                            )
                                        },
                                    }
                                },
                            }
                        },
                    }
                },
            },
        }
    }
}

fn parse_probestack(instrs: &Vec<(u64, X64Instruction)>, start: usize, md_probestack: u64, strict: bool) -> (r: Parsed)
    requires
        start <= instrs@.len(),
    ensures
        r@ == spec_parse_probestack(instrs@.skip(start as int), md_probestack, strict),
{
    let ghost rest = instrs@.skip(start as int);
    if start >= instrs.len() {
        return Parsed::NoMatch;
    }
    let addr = instrs[start].0;
    let mut mov = match lift(&instrs[start].1, addr, strict) {
        Some(m) => m,
        None => return Parsed::Fail,
    };
    let arg: u64 = if mov.len() == 1 {
        match mov[0] {
            Stmt::Unop(Unopcode::Mov, Value::Reg(X86Regs::Rax, ValSize::Size32), Value::Imm(_, _, x)) => #[verifier::truncate] (x as u64),
            _ => return Parsed::NoMatch,
        }
    } else {
        return Parsed::NoMatch;
    };
    if start + 1 >= instrs.len() {
        return Parsed::NoMatch;
    }
    assert(rest[1] == instrs@[start + 1]);
    let call_addr = instrs[start + 1].0;
    let call = match lift(&instrs[start + 1].1, call_addr, strict) {
        Some(c) => c,
        None => return Parsed::Fail,
    };
    let is_call = if call.len() == 1 {
        match call[0] {
            Stmt::Call(Value::Imm(_, _, offset)) => {
                5i64.wrapping_add(offset).wrapping_add(#[verifier::truncate] (call_addr as i64)) == #[verifier::truncate] (md_probestack as i64)
            },
            _ => false,
        }
    } else {
        false
    };
    if !is_call {
        return Parsed::NoMatch;
    }
    if start + 2 >= instrs.len() {
        return Parsed::NoMatch;
    }
    assert(rest[2] == instrs@[start + 2]);
    let sub = match lift(&instrs[start + 2].1, instrs[start + 2].0, strict) {
        Some(s) => s,
        None => return Parsed::Fail,
    };
    if sub.len() == 0 {
        return Parsed::Fail;
    }
    let adj: i64 = match sub[0] {
        Stmt::Binop(Binopcode::Sub, Value::Reg(X86Regs::Rsp, ValSize::Size64), Value::Reg(X86Regs::Rsp, ValSize::Size64), Value::Reg(X86Regs::Rax, ValSize::Size64)) => 0,
        Stmt::Binop(Binopcode::Sub, Value::Reg(X86Regs::Rsp, ValSize::Size64), Value::Reg(X86Regs::Rsp, ValSize::Size64), Value::Imm(_, _, imm)) => imm.wrapping_sub(#[verifier::truncate] (arg as i64)),
        _ => return Parsed::NoMatch,
    };
    let ghost mv = stmts_view(mov@);
    proof {
        lemma_stmts_view_push(mov@, Stmt::ProbeStack(arg));
    }
    mov.push(Stmt::ProbeStack(arg));
    if adj != 0 {
        let ghost m1 = mov@;
        let st = Stmt::Binop(Binopcode::Sub, Value::Reg(X86Regs::Rsp, ValSize::Size64), Value::Reg(X86Regs::Rsp, ValSize::Size64), mk_value_i64(adj));
        proof {
            lemma_stmts_view_push(m1, st);
        }
        mov.push(st);
    }
    Parsed::Match(3, addr, mov)
}

/// One instruction, lifted on its own.
pub open spec fn spec_parse_single(instrs: Seq<(u64, X64Instruction)>, strict: bool) -> ParseView {
    if instrs.len() == 0 {
        ParseView::NoMatch
    } else {
        match spec_lift(instrs[0].1, instrs[0].0, strict) {
            Some(s) => ParseView::Match(1, instrs[0].0, s),
            None => ParseView::Fail,
        }
    }
}

/// The idiom at the start of `instrs`: a bit scan with its conditional move,
/// a stack probe, or else a single instruction.
#[verifier::opaque]
pub open spec fn spec_parse_instr(instrs: Seq<(u64, X64Instruction)>, md_probestack: u64, strict: bool) -> ParseView {
    match spec_parse_scan_cmove(instrs, X64Opcode::BSF) {
        ParseView::NoMatch => match spec_parse_scan_cmove(instrs, X64Opcode::BSR) {
            ParseView::NoMatch => match spec_parse_probestack(instrs, md_probestack, strict) {
                ParseView::NoMatch => spec_parse_single(instrs, strict),
                other => other,
            },
            other => other,
        },
        other => other,
    }
}

fn parse_instr(instrs: &Vec<(u64, X64Instruction)>, start: usize, md_probestack: u64, strict: bool) -> (r: Parsed)
    requires
        start <= instrs@.len(),
    ensures
        r@ == spec_parse_instr(instrs@.skip(start as int), md_probestack, strict),
        r matches Parsed::Match(n, _, _) ==> 1 <= n <= instrs@.len() - start,
{
    reveal(spec_parse_instr);
    let ghost rest = instrs@.skip(start as int);
    match parse_scan_cmove(instrs, start, X64Opcode::BSF) {
        Parsed::NoMatch => {},
        other => return other,
    }
    match parse_scan_cmove(instrs, start, X64Opcode::BSR) {
        Parsed::NoMatch => {},
        other => return other,
    }
    match parse_probestack(instrs, start, md_probestack, strict) {
        Parsed::NoMatch => {},
        other => return other,
    }
    if start >= instrs.len() {
        return Parsed::NoMatch;
    }
    let addr = instrs[start].0;
    match lift(&instrs[start].1, addr, strict) {
        Some(s) => Parsed::Match(1, addr, s),
        None => Parsed::Fail,
    }
}

/// The statements of a lifted block, seen through their views.
pub open spec fn ir_block_view(b: Seq<(u64, Vec<Stmt>)>) -> Seq<(u64, Seq<StmtView>)> {
    b.map_values(|p: (u64, Vec<Stmt>)| (p.0, stmts_view(p.1@)))
}

/// The lifted statements of a block's instructions: idiom after idiom, up to
/// the end or to an unconditional jump, past which the code stream may hold
/// data (such as jump tables). `None` if an instruction cannot be lifted.
pub open spec fn spec_parse_instrs(instrs: Seq<(u64, X64Instruction)>, md_probestack: u64, strict: bool) -> Option<Seq<(u64, Seq<StmtView>)>>
    decreases instrs.len(),
{
    match spec_parse_instr(instrs, md_probestack, strict) {
        ParseView::Fail => None,
        ParseView::NoMatch => Some(Seq::empty()),
        ParseView::Match(n, a, s) => if n == 0 || n > instrs.len() {
            Some(Seq::empty())
        } else if s.len() == 1 && (s[0] matches StmtView::Branch(BranchOpcode::JMP, _)) {
            Some(seq![(a, s)])
        } else {
            match spec_parse_instrs(instrs.skip(n as int), md_probestack, strict) {
                Some(more) => Some(seq![(a, s)] + more),
                None => None,
            }
        },
    }
}

/// Whether lifted statements are a lone unconditional jump.
pub open spec fn is_lone_jmp(s: Seq<StmtView>) -> bool {
    s.len() == 1 && (s[0] matches StmtView::Branch(BranchOpcode::JMP, _))
}

/// Lifting stops at the first unconditional jump: no instruction of a
/// lifted block but its last one is a lone `jmp`, and nothing before the
/// block's end is lifted past one.
pub proof fn lemma_lifting_stops_at_jump(instrs: Seq<(u64, X64Instruction)>, md_probestack: u64, strict: bool)
    ensures
        spec_parse_instrs(instrs, md_probestack, strict) matches Some(s) ==> forall|i: int|
            0 <= i < s.len() - 1 ==> !is_lone_jmp(#[trigger] s[i].1),
    decreases instrs.len(),
{
    match spec_parse_instr(instrs, md_probestack, strict) {
        ParseView::Match(n, a, st) => {
            if n > 0 && n <= instrs.len() && !is_lone_jmp(st) {
                lemma_lifting_stops_at_jump(instrs.skip(n as int), md_probestack, strict);
                match spec_parse_instrs(instrs.skip(n as int), md_probestack, strict) {
                    Some(more) => {
                        let s = seq![(a, st)] + more;
                        assert forall|i: int| 0 <= i < s.len() - 1 implies !is_lone_jmp(#[trigger] s[i].1) by {
                            if i > 0 {
                                assert(s[i] == more[i - 1]);
                            }
                        }
                    },
                    None => {},
                }
            }
        },
        _ => {},
    }
}

/// `prefix` followed by what `rest` lifts to.
pub open spec fn then_lifted(
    prefix: Seq<(u64, Seq<StmtView>)>,
    rest: Option<Seq<(u64, Seq<StmtView>)>>,
) -> Option<Seq<(u64, Seq<StmtView>)>> {
    match rest {
        Some(r) => Some(prefix + r),
        None => None,
    }
}

/// Lifts the instructions of a block (see `spec_parse_instrs`).
pub fn lift_block(instrs: &Vec<(u64, X64Instruction)>, md_probestack: u64, strict: bool) -> (r: Option<Vec<(u64, Vec<Stmt>)>>)
    ensures
        match (r, spec_parse_instrs(instrs@, md_probestack, strict)) {
            (Some(b), Some(s)) => ir_block_view(b@) == s,
            (None, None) => true,
            _ => false,
        },
{
    let mut block_ir: Vec<(u64, Vec<Stmt>)> = Vec::new();
    let mut pos: usize = 0;
    assert(instrs@.skip(0) =~= instrs@);
    loop
        invariant
            pos <= instrs@.len(),
            spec_parse_instrs(instrs@, md_probestack, strict) == then_lifted(
                ir_block_view(block_ir@),
                spec_parse_instrs(instrs@.skip(pos as int), md_probestack, strict),
            ),
        decreases instrs@.len() - pos,
    {
        let ghost rest = instrs@.skip(pos as int);
        let ghost prev = block_ir@;
        let parsed = parse_instr(instrs, pos, md_probestack, strict);
        match parsed {
            Parsed::Fail => return None,
            Parsed::NoMatch => {
                assert(ir_block_view(block_ir@) + Seq::empty() =~= ir_block_view(block_ir@));
                return Some(block_ir);
            },
            Parsed::Match(n, addr, stmts) => {
                let ghost sv = stmts_view(stmts@);
                let is_jmp = stmts.len() == 1 && match stmts[0] {
                    Stmt::Branch(BranchOpcode::JMP, _) => true,
                    _ => false,
                };
                block_ir.push((addr, stmts));
                assert(ir_block_view(block_ir@) =~= ir_block_view(prev).push((addr, sv)));
                if is_jmp {
                    assert(ir_block_view(prev) + seq![(addr, sv)] =~= ir_block_view(block_ir@));
                    return Some(block_ir);
                }
                proof {
                    assert(rest.skip(n as int) =~= instrs@.skip(pos + n));
                    match spec_parse_instrs(instrs@.skip(pos + n), md_probestack, strict) {
                        Some(more) => {
                            assert(ir_block_view(prev) + (seq![(addr, sv)] + more) =~= ir_block_view(block_ir@) + more);
                        },
                        None => {},
                    }
                }
                let total = instrs.len();
                assert(pos + n <= total);
                pos = pos + n;
            },
        }
    }
}

/// Whether the instructions of block `n` are given and can be lifted.
pub open spec fn block_lifts(
    block_instrs: Map<u64, Vec<(u64, X64Instruction)>>,
    n: u64,
    md_probestack: u64,
    strict: bool,
) -> bool {
    block_instrs.contains_key(n) && spec_parse_instrs(block_instrs[n]@, md_probestack, strict) is Some
}

/// Whether `irmap` holds, for every block of `cfg`, the lifted statements of
/// the block's instructions.
pub open spec fn lifted_from(
    irmap: Map<u64, IRBlock>,
    cfg: VwCfg,
    block_instrs: Map<u64, Vec<(u64, X64Instruction)>>,
    md_probestack: u64,
    strict: bool,
) -> bool {
    &&& irmap.dom() == cfg.succs().dom()
    &&& forall|n: u64| #[trigger]
        irmap.contains_key(n) ==> block_instrs.contains_key(n) && spec_parse_instrs(
            block_instrs[n]@,
            md_probestack,
            strict,
        ) == Some(ir_block_view(irmap[n]@))
}

/// Lifts every block of a function's graph, given the instructions that
/// each block spans. `None` if a block's instructions are missing or one of
/// them cannot be lifted.
pub fn lift_blocks(
    cfg: &VwCfg,
    block_instrs: &HashMap<u64, Vec<(u64, X64Instruction)>>,
    md_probestack: u64,
    strict: bool,
) -> (r: Option<IRMap>)
    ensures
        r is None <==> exists|n: u64| #[trigger]
            cfg.succs().dom().contains(n) && !block_lifts(block_instrs@, n, md_probestack, strict),
        r matches Some(irmap) ==> lifted_from(irmap@, *cfg, block_instrs@, md_probestack, strict),
{
    let nodes = cfg.nodes();
    let mut irmap: IRMap = HashMap::new();
    let mut i: usize = 0;
    while i < nodes.len()
        invariant
            i <= nodes@.len(),
            nodes@.to_set() == cfg.succs().dom(),
            nodes@.no_duplicates(),
            irmap@.dom() == nodes@.take(i as int).to_set(),
            forall|n: u64| #[trigger]
                irmap@.contains_key(n) ==> block_instrs@.contains_key(n) && spec_parse_instrs(
                    block_instrs@[n]@,
                    md_probestack,
                    strict,
                ) == Some(ir_block_view(irmap@[n]@)),
        decreases nodes@.len() - i,
    {
        let block_addr = nodes[i];
        assert(nodes@.to_set().contains(block_addr));
        let instrs = match block_instrs.get(&block_addr) {
            Some(v) => v,
            None => {
                assert(!block_lifts(block_instrs@, block_addr, md_probestack, strict));
                return None;
            },
        };
        let block_ir = match lift_block(instrs, md_probestack, strict) {
            Some(b) => b,
            None => {
                assert(!block_lifts(block_instrs@, block_addr, md_probestack, strict));
                return None;
            },
        };
        irmap.insert(block_addr, block_ir);
        proof {
            let prefix = nodes@.take(i as int);
            assert(nodes@.take(i + 1) =~= prefix.push(block_addr));
            assert forall|n: u64| prefix.push(block_addr).contains(n) <==> (prefix.contains(n) || n == block_addr) by {
                if prefix.push(block_addr).contains(n) {
                    let k = choose|k: int| 0 <= k < prefix.len() + 1 && prefix.push(block_addr)[k] == n;
                    if k < prefix.len() {
                        assert(prefix[k] == n);
                    }
                }
                if prefix.contains(n) {
                    let k = choose|k: int| 0 <= k < prefix.len() && prefix[k] == n;
                    assert(prefix.push(block_addr)[k] == n);
                }
                if n == block_addr {
                    assert(prefix.push(block_addr)[prefix.len() as int] == n);
                }
            }
            assert(irmap@.dom() =~= nodes@.take(i + 1).to_set());
        }
        i = i + 1;
    }
    assert(nodes@.take(i as int) =~= nodes@);
    assert forall|n: u64| cfg.succs().dom().contains(n) implies block_lifts(
        block_instrs@,
        n,
        md_probestack,
        strict,
    ) by {
        assert(irmap@.contains_key(n));
    }
    Some(irmap)
}

/// Whether decoding the blocks of `cfg` from `code` and lifting them fails:
/// for the instructions the blocks decode to, some block cannot be lifted
/// (a block whose bytes do not decode has no instructions).
pub open spec fn code_lift_fails(cfg: VwCfg, code: Seq<u8>, md_probestack: u64, strict: bool) -> bool {
    exists|bi: Map<u64, Vec<(u64, X64Instruction)>>|
        blocks_decoded(code, cfg.blocks@, cfg.succs().dom(), bi) && exists|n: u64| #[trigger]
            cfg.succs().dom().contains(n) && !block_lifts(bi, n, md_probestack, strict)
}

/// Whether `irmap` is the lifting of the blocks of `cfg` as they decode from
/// `code`.
pub open spec fn lifted_from_code(irmap: Map<u64, IRBlock>, cfg: VwCfg, code: Seq<u8>, md_probestack: u64, strict: bool) -> bool {
    exists|bi: Map<u64, Vec<(u64, X64Instruction)>>|
        blocks_decoded(code, cfg.blocks@, cfg.succs().dom(), bi) && lifted_from(irmap, cfg, bi, md_probestack, strict)
}

/// Decodes the blocks of `cfg` from `code` (whose index is the address) and
/// lifts them. `None` if a block's bytes do not decode or its instructions
/// cannot be lifted.
pub fn lift_cfg(cfg: &VwCfg, code: &[u8], md_probestack: u64, strict: bool) -> (r: Option<IRMap>)
    requires
        forall|n: u64| #[trigger] cfg.blocks@.contains_key(n) ==> cfg.blocks@[n].end < code@.len(),
    ensures
        r is None ==> code_lift_fails(*cfg, code@, md_probestack, strict),
        r matches Some(irmap) ==> lifted_from_code(irmap@, *cfg, code@, md_probestack, strict),
{
    let bi = decode_blocks(cfg, code);
    lift_blocks(cfg, &bi, md_probestack, strict)
}

/// The arithmetic of an instruction is kept by lifting: a two-operand ADD,
/// SUB or AND lifts to `dst = dst op src` with the same operation (x86's
/// `add dst, src` is `dst = dst + src`), followed by the clearing of the
/// zero flag.
pub proof fn lemma_lift_keeps_arithmetic(instr: X64Instruction, addr: u64, strict: bool, op: Binopcode)
    requires
        instr.operands@.len() == 2,
        (instr.opcode is ADD && op is Add) || (instr.opcode is SUB && op is Sub) || (instr.opcode is AND && op is And),
    ensures
        spec_lift(instr, addr, strict) matches Some(ss) ==> {
            &&& ss.len() == 2
            &&& spec_memsize(instr) matches Some(ms)
            &&& spec_convert_operand(spec_operand(instr, 0), ms) matches Some(d)
            &&& spec_convert_operand(spec_operand(instr, 1), ms) matches Some(src)
            &&& ss[0] == StmtView::Binop(op, d, d, src)
            &&& ss[1] matches StmtView::Clear(Value::Reg(X86Regs::Zf, ValSize::Size8), _)
        },
{
    reveal(spec_lift);
}

} // verus!
