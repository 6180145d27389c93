use crate::analyses::{same_state_to_all, state_to_all, AbstractAnalyzer};
use crate::ir::types::{
    reg_index, spec_bits, spec_bytes, spec_stack_offset, stmt_is_wf, stmt_wf, value_wf, Binopcode, IRBlock,
    IRMap, MemArg, MemArgs, Stmt, Unopcode, ValSize, Value, X86Regs,
};
use crate::ir::utils::{extract_stack_offset, is_stack_access};
use crate::lattices::heaplattice::{HeapLattice, HeapValue, HeapValueLattice};
use crate::lattices::reachingdefslattice::LocIdx;
use crate::lattices::regslattice::regs_get;
use crate::lattices::stacklattice::stack_get;
use crate::lattices::{
    can_adjust, can_set, is_adjustable, is_settable, var_adjust, var_set, ConstLattice, Lattice,
    StateView,
};
use crate::loaders::types::VwMetadata;
use vstd::prelude::*;

verus! {

/// The heap-safety analysis for Lucet: tracks which values are the heap base,
/// addresses in the heap, values below 4 GiB, and pointers to the runtime's
/// tables and globals.
pub struct HeapAnalyzer {
    pub metadata: VwMetadata,
}

/// The abstract registers and stack of the heap analysis.
pub type HeapView = StateView<Option<HeapValue>>;

/// Whether an address `[r + x]` is based at the heap base (where Lucet keeps
/// the globals' base pointer).
pub open spec fn spec_is_globalbase_access(s: HeapView, m: MemArgs) -> bool {
    m matches MemArgs::Mem2Args(MemArg::Reg(r, _), _) && regs_get(s.0, r, None) == Some(
        HeapValue::HeapBase,
    )
}

/// What the heap analysis knows of the value read from an operand.
pub open spec fn heap_aeval_unop(md: VwMetadata, s: HeapView, v: Value) -> Option<HeapValue> {
    match v {
        Value::Mem(sz, m) => if spec_is_globalbase_access(s, m) {
            Some(HeapValue::GlobalsBase)
        } else if v.spec_is_stack_access() {
            stack_get(s.1, spec_stack_offset(m), spec_bytes(sz), None)
        } else {
            None
        },
        Value::Reg(r, sz) => if spec_bits(sz) <= 32 {
            Some(HeapValue::Bounded4GB)
        } else {
            regs_get(s.0, r, None)
        },
        Value::Imm(_, _, i) => if i as u64 == md.guest_table_0 {
            Some(HeapValue::GuestTable0)
        } else if i as u64 == md.lucet_tables {
            Some(HeapValue::LucetTables)
        } else if 0 <= i < 0x1_0000_0000 {
            Some(HeapValue::Bounded4GB)
        } else {
            None
        },
        Value::RIPConst => Some(HeapValue::RIPConst),
    }
}

/// `s` with register `r` holding a value below 4 GiB (a 32-bit write clears
/// the upper half of the 64-bit register).
pub open spec fn set_bounded(s: HeapView, r: X86Regs) -> HeapView {
    (s.0.insert(reg_index(r), (64, Some(HeapValue::Bounded4GB))), s.1)
}

pub open spec fn heap_aexec_unop(md: VwMetadata, s: HeapView, opcode: Unopcode, dst: Value, src: Value) -> HeapView {
    if dst matches Value::Reg(_, ValSize::Size32) {
        set_bounded(s, dst->Reg_0)
    } else if opcode is Mov {
        var_set(s, dst, heap_aeval_unop(md, s, src), None)
    } else {
        var_set(s, dst, None, None)
    }
}

/// Whether `r1 + r2` adds a value below 4 GiB to the heap base.
pub open spec fn adds_to_heapbase(s: HeapView, r1: X86Regs, r2: X86Regs) -> bool {
    ||| regs_get(s.0, r1, None) == Some(HeapValue::HeapBase) && regs_get(s.0, r2, None) == Some(
        HeapValue::Bounded4GB,
    )
    ||| regs_get(s.0, r1, None) == Some(HeapValue::Bounded4GB) && regs_get(s.0, r2, None) == Some(
        HeapValue::HeapBase,
    )
}

pub open spec fn heap_aexec_binop(s: HeapView, opcode: Binopcode, dst: Value, src1: Value, src2: Value) -> HeapView {
    if opcode is Add && (dst matches Value::Reg(_, ValSize::Size64)) && (src1 matches Value::Reg(
        _,
        ValSize::Size64,
    )) && (src2 matches Value::Reg(_, ValSize::Size64)) && adds_to_heapbase(
        s,
        src1->Reg_0,
        src2->Reg_0,
    ) {
        (s.0.insert(reg_index(dst->Reg_0), (64, Some(HeapValue::HeapAddr))), s.1)
    } else if dst matches Value::Reg(_, ValSize::Size32) {
        set_bounded(s, dst->Reg_0)
    } else {
        var_set(s, dst, None, None)
    }
}

/// The heap analysis's state after one statement.
pub open spec fn heap_aexec(md: VwMetadata, s: HeapView, stmt: Stmt) -> HeapView {
    match stmt {
        Stmt::Clear(dst, _) => var_set(s, dst, None, None),
        Stmt::Unop(opcode, dst, src) => heap_aexec_unop(md, s, opcode, dst, src),
        Stmt::Binop(opcode, dst, src1, src2) => var_adjust(
            heap_aexec_binop(s, opcode, dst, src1, src2),
            opcode,
            dst,
            src1,
            src2,
        ),
        Stmt::Call(_) => (Map::empty(), s.1),
        _ => s,
    }
}

/// Whether the heap analysis can read an operand: a memory operand `[r + x]`
/// names `r` at its full width, and a stack slot is read at `[rsp]` or
/// `[rsp + c]`, 4 or 8 bytes wide.
pub open spec fn heap_src_ok(v: Value) -> bool {
    match v {
        Value::Mem(sz, m) => {
            &&& m matches MemArgs::Mem2Args(MemArg::Reg(_, s), _) ==> s is Size64
            &&& v.spec_is_stack_access() ==> (m is Mem1Arg || (m matches MemArgs::Mem2Args(
                _,
                MemArg::Imm(_, _, _),
            ))) && (sz is Size32 || sz is Size64)
        },
        _ => true,
    }
}

fn heap_src_is_ok(v: &Value) -> (r: bool)
    requires
        value_wf(*v),
    ensures
        r == heap_src_ok(*v),
{
    match *v {
        Value::Mem(sz, m) => {
            let base_ok = match m {
                MemArgs::Mem2Args(MemArg::Reg(_, s), _) => matches!(s, ValSize::Size64),
                _ => true,
            };
            let stack_ok = if v.is_stack_access() {
                let form = match m {
                    MemArgs::Mem1Arg(_) => true,
                    MemArgs::Mem2Args(_, MemArg::Imm(_, _, _)) => true,
                    _ => false,
                };
                form && (matches!(sz, ValSize::Size32) || matches!(sz, ValSize::Size64))
            } else {
                true
            };
            base_ok && stack_ok
        },
        _ => true,
    }
}

/// Whether the heap analysis can step over a statement: its operands are
/// well formed, every written operand can be set, every read operand can be
/// read, and a write of the stack pointer adds or subtracts a multiple of 4.
pub open spec fn heap_stmt_ok(stmt: Stmt) -> bool {
    &&& stmt_wf(stmt)
    &&& match stmt {
        Stmt::Clear(dst, _) => can_set(dst),
        Stmt::Unop(opcode, dst, src) => !(dst matches Value::Reg(_, ValSize::Size32)) ==> (can_set(
            dst,
        ) && (opcode is Mov ==> heap_src_ok(src))),
        Stmt::Binop(opcode, dst, src1, src2) => can_set(dst) && can_adjust(opcode, dst, src1, src2),
        _ => true,
    }
}

/// Whether an address `[r + x]` is based at a register holding the heap base.
pub fn is_globalbase_access(in_state: &HeapLattice, memargs: &MemArgs) -> (r: bool)
    requires
        memargs matches MemArgs::Mem2Args(MemArg::Reg(_, s), _) ==> s is Size64,
    ensures
        r == spec_is_globalbase_access(in_state@, *memargs),
{
    if let MemArgs::Mem2Args(arg1, _arg2) = memargs {
        if let MemArg::Reg(regnum, size) = arg1 {
            let base = in_state.regs.get_reg(*regnum, *size);
            if let Some(v) = base.v {
                if let HeapValue::HeapBase = v {
                    return true;
                }
            }
        }
    }
    false
}

impl HeapAnalyzer {
    /// What the analysis knows of the value read from an operand.
    pub fn aeval_unop(&self, in_state: &HeapLattice, value: &Value) -> (r: HeapValueLattice)
        requires
            value_wf(*value),
            heap_src_ok(*value),
        ensures
            r@ == heap_aeval_unop(self.metadata, in_state@, *value),
    {
        match value {
            Value::Mem(memsize, memargs) => {
                if is_globalbase_access(in_state, memargs) {
                    return HeapValueLattice::new(HeapValue::GlobalsBase);
                }
                if is_stack_access(value) {
                    let offset = extract_stack_offset(memargs);
                    return in_state.stack.get(offset, memsize.into_bytes());
                }
            },
            Value::Reg(regnum, size) => {
                if size.into_bits() <= 32 {
                    return HeapValueLattice::new(HeapValue::Bounded4GB);
                } else {
                    return in_state.regs.get_reg(*regnum, ValSize::Size64);
                }
            },
            Value::Imm(_, _, immval) => {
                if (*immval as u64) == self.metadata.guest_table_0 {
                    return HeapValueLattice::new(HeapValue::GuestTable0);
                } else if (*immval as u64) == self.metadata.lucet_tables {
                    return HeapValueLattice::new(HeapValue::LucetTables);
                } else if (*immval >= 0) && (*immval < 0x1_0000_0000) {
                    return HeapValueLattice::new(HeapValue::Bounded4GB);
                }
            },
            Value::RIPConst => {
                return HeapValueLattice::new(HeapValue::RIPConst);
            },
        }
        ConstLattice { v: None }
    }

    fn aexec_unop(&self, in_state: &mut HeapLattice, opcode: &Unopcode, dst: &Value, src: &Value)
        requires
            heap_stmt_ok(Stmt::Unop(*opcode, *dst, *src)),
        ensures
            final(in_state)@ == heap_aexec_unop(self.metadata, old(in_state)@, *opcode, *dst, *src),
    {
        if let Value::Reg(rd, ValSize::Size32) = dst {
            in_state.regs.set_reg(*rd, ValSize::Size64, HeapValueLattice::new(HeapValue::Bounded4GB));
            return;
        }
        match opcode {
            Unopcode::Mov => {
                let v = self.aeval_unop(in_state, src);
                in_state.set(dst, v);
            },
            Unopcode::Movsx => {
                in_state.set(dst, ConstLattice { v: None });
            },
        }
    }

    fn aexec_binop(&self, in_state: &mut HeapLattice, opcode: &Binopcode, dst: &Value, src1: &Value, src2: &Value)
        requires
            can_set(*dst),
        ensures
            final(in_state)@ == heap_aexec_binop(old(in_state)@, *opcode, *dst, *src1, *src2),
    {
        if let Binopcode::Add = opcode {
            if let (Value::Reg(rd, ValSize::Size64), Value::Reg(rs1, ValSize::Size64), Value::Reg(rs2, ValSize::Size64)) = (dst, src1, src2) {
                let rs1_val = in_state.regs.get_reg(*rs1, ValSize::Size64).v;
                let rs2_val = in_state.regs.get_reg(*rs2, ValSize::Size64).v;
                let heap_addr = match (rs1_val, rs2_val) {
                    (Some(HeapValue::HeapBase), Some(HeapValue::Bounded4GB)) => true,
                    (Some(HeapValue::Bounded4GB), Some(HeapValue::HeapBase)) => true,
                    _ => false,
                };
                if heap_addr {
                    in_state.regs.set_reg(*rd, ValSize::Size64, HeapValueLattice::new(HeapValue::HeapAddr));
                    return;
                }
            }
        }
        if let Value::Reg(rd, ValSize::Size32) = dst {
            in_state.regs.set_reg(*rd, ValSize::Size64, HeapValueLattice::new(HeapValue::Bounded4GB));
            return;
        }
        in_state.set_to_bot(dst);
    }
}

impl AbstractAnalyzer<HeapLattice> for HeapAnalyzer {
    open spec fn spec_init_state(&self) -> HeapView {
        (
            Map::empty().insert(reg_index(X86Regs::Rdi), (64u32, Some(HeapValue::HeapBase))),
            (0i64, Map::empty()),
        )
    }

    open spec fn stmt_ok(&self, stmt: Stmt) -> bool {
        heap_stmt_ok(stmt)
    }

    open spec fn spec_aexec(&self, s: HeapView, stmt: Stmt, loc: LocIdx) -> HeapView {
        heap_aexec(self.metadata, s, stmt)
    }

    open spec fn spec_process_branch(
        &self,
        irmap: Map<u64, IRBlock>,
        s: HeapView,
        succs: Seq<u64>,
        addr: u64,
    ) -> Seq<(u64, HeapView)> {
        same_state_to_all(s, succs)
    }

    fn supports(&self, stmt: &Stmt) -> (r: bool) {
        if !stmt_is_wf(stmt) {
            return false;
        }
        match stmt {
            Stmt::Clear(dst, _) => is_settable(dst),
            Stmt::Unop(opcode, dst, src) => {
                if let Value::Reg(_, ValSize::Size32) = dst {
                    true
                } else {
                    is_settable(dst) && (matches!(*opcode, Unopcode::Movsx) || heap_src_is_ok(src))
                }
            },
            Stmt::Binop(opcode, dst, src1, src2) => is_settable(dst) && is_adjustable(
                opcode,
                dst,
                src1,
                src2,
            ),
            _ => true,
        }
    }

    /// Every register is unknown but `rdi`, which holds the heap base.
    fn init_state(&self) -> (r: HeapLattice) {
        let mut result: HeapLattice = HeapLattice::bot();
        result.regs.set_reg(X86Regs::Rdi, ValSize::Size64, HeapValueLattice::new(HeapValue::HeapBase));
        proof {
            assert(result@.0 =~= Map::empty().insert(reg_index(X86Regs::Rdi), (64u32, Some(HeapValue::HeapBase))));
            assert(result@.1.1 =~= Map::<i64, (u32, Option<HeapValue>)>::empty());
        }
        result
    }

    fn process_branch(
        &self,
        irmap: &IRMap,
        in_state: &HeapLattice,
        succ_addrs: &Vec<u64>,
        addr: &u64,
    ) -> (r: Vec<(u64, HeapLattice)>) {
        state_to_all(in_state, succ_addrs)
    }

    fn aexec(&self, in_state: &mut HeapLattice, ir_instr: &Stmt, loc_idx: &LocIdx) {
        match ir_instr {
            Stmt::Clear(dst, _srcs) => in_state.set_to_bot(dst),
            Stmt::Unop(opcode, dst, src) => self.aexec_unop(in_state, opcode, dst, src),
            Stmt::Binop(opcode, dst, src1, src2) => {
                self.aexec_binop(in_state, opcode, dst, src1, src2);
                in_state.adjust_stack_offset(opcode, dst, src1, src2)
            },
            Stmt::Call(_) => in_state.on_call(),
            _ => {},
        }
    }
}

/// A 64-bit `dst = r1 + r2` makes `dst` a heap address exactly when one of
/// the two holds the heap base and the other a value below 4 GiB; the heap
/// base plus anything else (an unknown value, another address) is not one.
pub proof fn lemma_heap_addr_needs_bounded_offset(s: HeapView, dst: X86Regs, r1: X86Regs, r2: X86Regs)
    ensures
        regs_get(
            heap_aexec_binop(
                s,
                Binopcode::Add,
                Value::Reg(dst, ValSize::Size64),
                Value::Reg(r1, ValSize::Size64),
                Value::Reg(r2, ValSize::Size64),
            ).0,
            dst,
            None,
        ) == Some(HeapValue::HeapAddr) <==> {
            ||| regs_get(s.0, r1, None) == Some(HeapValue::HeapBase) && regs_get(s.0, r2, None) == Some(
                HeapValue::Bounded4GB,
            )
            ||| regs_get(s.0, r1, None) == Some(HeapValue::Bounded4GB) && regs_get(s.0, r2, None) == Some(
                HeapValue::HeapBase,
            )
        },
{
}

} // verus!
