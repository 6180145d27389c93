use std::collections::HashMap;
use veriwasm::ir::cfg::{VwBlock, VwCfg};
use veriwasm::ir::types::{Binopcode, BranchOpcode, Stmt, Unopcode, ValSize, Value, X86Regs};
use veriwasm::ir::utils::has_indirect_jumps;
use veriwasm::ir::x64::{lift, lift_block, lift_blocks, lift_cfg, DataLoc, RegClass, X64Instruction, X64Opcode, X64Operand, X64Reg};

fn q(num: u8) -> X64Operand {
    X64Operand::Register(X64Reg { num, class: RegClass::Q, width: 8 })
}

fn d(num: u8) -> X64Operand {
    X64Operand::Register(X64Reg { num, class: RegClass::D, width: 4 })
}

fn ins(opcode: X64Opcode, operands: Vec<X64Operand>, length: u8) -> X64Instruction {
    X64Instruction { opcode, operands, length, flow: vec![] }
}

#[test]
fn mov_between_registers() {
    let s = lift(&ins(X64Opcode::MOV, vec![q(0), q(3)], 3), 0, false).unwrap();
    assert_eq!(s.len(), 1);
    assert!(matches!(
        s[0],
        Stmt::Unop(Unopcode::Mov, Value::Reg(X86Regs::Rax, ValSize::Size64), Value::Reg(X86Regs::Rbx, ValSize::Size64))
    ));
}

#[test]
fn cmp_sets_every_flag() {
    let s = lift(&ins(X64Opcode::CMP, vec![q(7), X64Operand::ImmediateI8(3)], 4), 0, false).unwrap();
    let flags: Vec<X86Regs> = s
        .iter()
        .map(|st| match st {
            Stmt::Binop(Binopcode::Cmp, Value::Reg(f, ValSize::Size8), Value::Reg(X86Regs::Rdi, _), Value::Imm(_, _, 3)) => *f,
            other => panic!("unexpected {:?}", other),
        })
        .collect();
    assert_eq!(flags, vec![X86Regs::Zf, X86Regs::Cf, X86Regs::Pf, X86Regs::Sf, X86Regs::Of]);
}

#[test]
fn push_and_pop_move_the_stack_pointer() {
    let push = lift(&ins(X64Opcode::PUSH, vec![q(5)], 1), 0, false).unwrap();
    assert_eq!(push.len(), 2);
    assert!(matches!(push[0], Stmt::Binop(Binopcode::Sub, Value::Reg(X86Regs::Rsp, _), Value::Reg(X86Regs::Rsp, _), Value::Imm(_, _, 8))));
    let pop = lift(&ins(X64Opcode::POP, vec![q(5)], 1), 0, false).unwrap();
    assert!(matches!(pop[1], Stmt::Binop(Binopcode::Add, Value::Reg(X86Regs::Rsp, _), Value::Reg(X86Regs::Rsp, _), Value::Imm(_, _, 8))));
}

#[test]
fn ret_and_jumps() {
    assert!(matches!(lift(&ins(X64Opcode::RETURN, vec![], 1), 0, false).unwrap()[..], [Stmt::Ret]));
    let j = lift(&ins(X64Opcode::JMP, vec![q(0)], 2), 0, false).unwrap();
    assert!(matches!(j[..], [Stmt::Branch(BranchOpcode::JMP, Value::Reg(X86Regs::Rax, ValSize::Size64))]));
    let nop = lift(&ins(X64Opcode::NOP, vec![], 1), 0, false).unwrap();
    assert!(nop.is_empty());
}

#[test]
fn unknown_opcodes_fail_only_when_strict() {
    let i = ins(X64Opcode::Unknown, vec![q(0), q(1)], 3);
    assert!(lift(&i, 0, true).is_none());
    assert!(lift(&i, 0, false).is_some());
}

#[test]
fn lifting_stops_after_an_unconditional_jump() {
    let instrs = vec![
        (0u64, ins(X64Opcode::MOV, vec![q(0), q(3)], 3)),
        (3u64, ins(X64Opcode::JMP, vec![q(0)], 2)),
        (5u64, ins(X64Opcode::Unknown, vec![], 1)),
    ];
    let b = lift_block(&instrs, 0, true).unwrap();
    assert_eq!(b.len(), 2);
    assert_eq!(b[1].0, 3);
    // the same data lifted past the jump fails in strict mode
    let no_jump = vec![instrs[0].clone(), instrs[2].clone()];
    assert!(lift_block(&no_jump, 0, true).is_none());
}

#[test]
fn stack_probe_idiom_is_recognized() {
    let probestack = 5 + 5 + 0x100;
    let instrs = vec![
        (0u64, ins(X64Opcode::MOV, vec![d(0), X64Operand::ImmediateU32(0x2000)], 5)),
        (5u64, ins(X64Opcode::CALL, vec![X64Operand::ImmediateI32(0x100)], 5)),
        (10u64, ins(X64Opcode::SUB, vec![q(4), q(0)], 3)),
        (13u64, ins(X64Opcode::RETURN, vec![], 1)),
    ];
    let b = lift_block(&instrs, probestack, false).unwrap();
    assert_eq!(b.len(), 2);
    assert_eq!(b[0].0, 0);
    assert!(matches!(b[0].1[1], Stmt::ProbeStack(0x2000)));
    assert_eq!(b[0].1.len(), 2);
    assert!(matches!(b[1].1[..], [Stmt::Ret]));
    // with another probe address the call is an ordinary call
    let plain = lift_block(&instrs, 0, false).unwrap();
    assert_eq!(plain.len(), 4);
    assert!(matches!(plain[1].1[..], [Stmt::Call(_)]));
}

#[test]
fn stack_probe_with_an_extra_adjustment() {
    let probestack = 5 + 5 + 0x100;
    let instrs = vec![
        (0u64, ins(X64Opcode::MOV, vec![d(0), X64Operand::ImmediateU32(0x2000)], 5)),
        (5u64, ins(X64Opcode::CALL, vec![X64Operand::ImmediateI32(0x100)], 5)),
        (10u64, ins(X64Opcode::SUB, vec![q(4), X64Operand::ImmediateI32(0x2010)], 7)),
    ];
    let b = lift_block(&instrs, probestack, false).unwrap();
    assert_eq!(b.len(), 1);
    assert_eq!(b[0].1.len(), 3);
    assert!(matches!(
        b[0].1[2],
        Stmt::Binop(Binopcode::Sub, Value::Reg(X86Regs::Rsp, _), Value::Reg(X86Regs::Rsp, _), Value::Imm(_, _, 0x10))
    ));
}

#[test]
fn every_block_of_the_graph_is_lifted() {
    let mut cfg = VwCfg::new(0);
    cfg.add_block(VwBlock { start: 0, end: 2 });
    cfg.add_block(VwBlock { start: 3, end: 3 });
    cfg.add_edge(0, 3);
    let mut instrs = HashMap::new();
    instrs.insert(0u64, vec![(0u64, ins(X64Opcode::JMP, vec![q(0)], 2))]);
    instrs.insert(3u64, vec![(3u64, ins(X64Opcode::RETURN, vec![], 1))]);
    let irmap = lift_blocks(&cfg, &instrs, 0, false).unwrap();
    assert_eq!(irmap.len(), 2);
    assert!(matches!(irmap.get(&3).unwrap()[0].1[..], [Stmt::Ret]));
    assert!(has_indirect_jumps(&irmap));
    instrs.remove(&3);
    assert!(lift_blocks(&cfg, &instrs, 0, false).is_none());
}

#[test]
fn decoding_gives_the_lifters_instructions() {
    // mov eax, ecx
    let i = veriwasm::ir::x64_decode::decode_x64(&[0x89, 0xc8]).unwrap();
    assert_eq!(i.opcode, X64Opcode::MOV);
    assert_eq!(i.operands, vec![d(0), d(1)]);
    assert_eq!(i.length, 2);
    let eax = X64Reg { num: 0, class: RegClass::D, width: 4 };
    let ecx = X64Reg { num: 1, class: RegClass::D, width: 4 };
    assert_eq!(
        i.flow,
        vec![
            (DataLoc::Register(eax), false),
            (DataLoc::Register(eax), true),
            (DataLoc::Register(ecx), false),
            (DataLoc::Register(ecx), true),
            (DataLoc::ZF, true),
            (DataLoc::CF, true),
        ]
    );
    // ret
    let r = veriwasm::ir::x64_decode::decode_x64(&[0xc3]).unwrap();
    assert_eq!(r.opcode, X64Opcode::RETURN);
    assert_eq!(r.length, 1);
    // no bytes, no instruction
    assert!(veriwasm::ir::x64_decode::decode_x64(&[]).is_none());
}

#[test]
fn spans_decode_one_instruction_after_another() {
    let code = [0x89, 0xc8, 0x89, 0x1c, 0x07, 0xc3];
    let v = veriwasm::ir::x64_decode::decode_span(&code, 0, 5).unwrap();
    let addrs: Vec<u64> = v.iter().map(|(a, _)| *a).collect();
    assert_eq!(addrs, vec![0, 2, 5]);
    assert_eq!(v[2].1.opcode, X64Opcode::RETURN);
    // the lifter decodes the blocks of the graph from the code
    let mut cfg = VwCfg::new(0);
    cfg.add_block(VwBlock { start: 0, end: 5 });
    let irmap = lift_cfg(&cfg, &code, 0, false).unwrap();
    assert!(matches!(irmap.get(&0).unwrap()[2].1[..], [Stmt::Ret]));
}
