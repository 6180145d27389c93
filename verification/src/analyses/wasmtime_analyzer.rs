use crate::analyses::{same_state_to_all, state_to_all, AbstractAnalyzer};
use crate::ir::types::{
    reg_index, spec_bits, spec_bytes, spec_stack_offset, stmt_is_wf, stmt_wf, value_wf, Binopcode, IRBlock,
    IRMap, MemArg, MemArgs, Stmt, Unopcode, ValSize, Value, X86Regs,
};
use crate::ir::utils::{extract_stack_offset, is_stack_access};
use crate::lattices::reachingdefslattice::LocIdx;
use crate::lattices::regslattice::regs_get;
use crate::lattices::stacklattice::stack_get;
use crate::lattices::wasmtime_lattice::{
    copy_wasmtime_value, FieldDesc, VmFieldOffsets, WasmtimeLattice, WasmtimeValue,
    WasmtimeValueLattice,
};
use crate::lattices::{
    can_adjust, can_set, is_adjustable, is_settable, var_adjust, var_set, ConstLattice, Lattice,
    StateView,
};
use vstd::prelude::*;

verus! {

broadcast use vstd::std_specs::hash::group_hash_axioms;

/// The heap-safety analysis for Wasmtime: tracks the VM context, the fields
/// loaded from it (by their offsets), the heap base read from it, and values
/// below 4 GiB.
pub struct WasmtimeAnalyzer {
    pub offsets: VmFieldOffsets,
    pub name: String,
}

/// The abstract registers and stack of the Wasmtime analysis.
pub type WtView = StateView<Option<WasmtimeValue>>;

/// The abstract value of register `r`.
pub open spec fn wget(s: WtView, r: X86Regs) -> Option<WasmtimeValue> {
    regs_get(s.0, r, None)
}

/// The field description at `offset` of the VM context, unknown when the
/// layout has none there.
pub open spec fn field_at(offsets: Map<i64, WasmtimeValue>, offset: i64) -> Option<WasmtimeValue> {
    if offsets.contains_key(offset) {
        Some(offsets[offset])
    } else {
        None
    }
}

/// What a load from address `m` reads when it dereferences the VM context:
/// `[vmctx]` gives the heap base, `[vmctx + c]` and `[vmaddr c]` the field at
/// `c`, and `[field]` what a pointer field points to (any other field gives a
/// read-only field). `None` when the load is no such dereference.
pub open spec fn spec_field_deref(
    offsets: Map<i64, WasmtimeValue>,
    s: WtView,
    m: MemArgs,
) -> Option<Option<WasmtimeValue>> {
    match m {
        MemArgs::Mem1Arg(MemArg::Reg(r, _)) => match wget(s, r) {
            Some(WasmtimeValue::VmCtx) => Some(Some(WasmtimeValue::HeapBase)),
            Some(WasmtimeValue::VmAddr(Some(offset))) => Some(field_at(offsets, offset)),
            Some(WasmtimeValue::VmCtxField(FieldDesc::Ptr(b))) => Some(Some(*b)),
            Some(WasmtimeValue::VmCtxField(_)) => Some(Some(WasmtimeValue::VmCtxField(FieldDesc::R))),
            _ => None,
        },
        MemArgs::Mem2Args(MemArg::Reg(r, _), MemArg::Imm(_, _, k)) => match wget(s, r) {
            Some(WasmtimeValue::VmCtx) => Some(field_at(offsets, k)),
            _ => None,
        },
        _ => None,
    }
}

/// Whether the VM-context field that a load from `m` dereferences, if it
/// dereferences one at a constant offset, is one the layout describes.
pub open spec fn field_deref_defined(offsets: Map<i64, WasmtimeValue>, s: WtView, m: MemArgs) -> bool {
    match m {
        MemArgs::Mem1Arg(MemArg::Reg(r, _)) => match wget(s, r) {
            Some(WasmtimeValue::VmAddr(Some(offset))) => offsets.contains_key(offset),
            _ => true,
        },
        MemArgs::Mem2Args(MemArg::Reg(r, _), MemArg::Imm(_, _, k)) => match wget(s, r) {
            Some(WasmtimeValue::VmCtx) => offsets.contains_key(k),
            _ => true,
        },
        _ => true,
    }
}

/// What the analysis knows of the value read from an operand.
pub open spec fn wt_aeval_unop(offsets: Map<i64, WasmtimeValue>, s: WtView, v: Value) -> Option<WasmtimeValue> {
    match v {
        Value::Mem(sz, m) => match spec_field_deref(offsets, s, m) {
            Some(f) => f,
            None => if v.spec_is_stack_access() {
                stack_get(s.1, spec_stack_offset(m), spec_bytes(sz), None)
            } else {
                None
            },
        },
        Value::Reg(r, sz) => if spec_bits(sz) <= 32 {
            Some(WasmtimeValue::Bounded4GB(None))
        } else {
            wget(s, r)
        },
        Value::Imm(_, _, i) => if 0 <= i < 0x1_0000_0000 {
            Some(WasmtimeValue::Bounded4GB(Some(i)))
        } else {
            None
        },
        Value::RIPConst => None,
    }
}

/// The sum of two abstract values: the heap base plus a bounded value is a
/// heap address, and the VM context plus a known constant is the address of
/// the field at that offset.
pub open spec fn wt_add(a: Option<WasmtimeValue>, b: Option<WasmtimeValue>) -> Option<WasmtimeValue> {
    match (a, b) {
        (Some(WasmtimeValue::HeapBase), Some(WasmtimeValue::Bounded4GB(_))) => Some(
            WasmtimeValue::HeapAddr,
        ),
        (Some(WasmtimeValue::Bounded4GB(_)), Some(WasmtimeValue::HeapBase)) => Some(
            WasmtimeValue::HeapAddr,
        ),
        (Some(WasmtimeValue::VmCtx), Some(WasmtimeValue::Bounded4GB(Some(c)))) => Some(
            WasmtimeValue::VmAddr(Some(c)),
        ),
        (Some(WasmtimeValue::Bounded4GB(Some(c))), Some(WasmtimeValue::VmCtx)) => Some(
            WasmtimeValue::VmAddr(Some(c)),
        ),
        _ => None,
    }
}

/// Adding two values does not depend on their order: `aeval_add` of
/// `src1, src2` and of `src2, src1` give the same value.
pub proof fn lemma_wt_add_symmetric(offsets: Map<i64, WasmtimeValue>, s: WtView, src1: Value, src2: Value)
    ensures
        wt_add(wt_aeval_unop(offsets, s, src1), wt_aeval_unop(offsets, s, src2)) == wt_add(
            wt_aeval_unop(offsets, s, src2),
            wt_aeval_unop(offsets, s, src1),
        ),
{
}

pub open spec fn wt_aeval_binop(
    offsets: Map<i64, WasmtimeValue>,
    s: WtView,
    opcode: Binopcode,
    src1: Value,
    src2: Value,
) -> Option<WasmtimeValue> {
    if opcode is Add {
        wt_add(wt_aeval_unop(offsets, s, src1), wt_aeval_unop(offsets, s, src2))
    } else {
        None
    }
}

/// `s` with register `r` holding a value below 4 GiB (a write of its lower
/// part clears the upper half).
pub open spec fn wt_set_bounded(s: WtView, r: X86Regs) -> WtView {
    (s.0.insert(reg_index(r), (64, Some(WasmtimeValue::Bounded4GB(None)))), s.1)
}

/// The Wasmtime analysis's state after one statement.
pub open spec fn wt_aexec(offsets: Map<i64, WasmtimeValue>, s: WtView, stmt: Stmt) -> WtView {
    match stmt {
        Stmt::Clear(dst, _) => match dst {
            Value::Reg(rd, ValSize::Size32) => wt_set_bounded(s, rd),
            Value::Reg(rd, ValSize::Size16) => wt_set_bounded(s, rd),
            Value::Reg(rd, ValSize::Size8) => wt_set_bounded(s, rd),
            _ => var_set(s, dst, None, None),
        },
        Stmt::Unop(opcode, dst, src) => if dst matches Value::Reg(_, ValSize::Size32) {
            wt_set_bounded(s, dst->Reg_0)
        } else if opcode is Mov {
            var_set(s, dst, wt_aeval_unop(offsets, s, src), None)
        } else {
            var_set(s, dst, None, None)
        },
        Stmt::Binop(opcode, dst, src1, src2) => {
            let s1 = if dst matches Value::Reg(_, ValSize::Size32) {
                wt_set_bounded(s, dst->Reg_0)
            } else {
                var_set(s, dst, wt_aeval_binop(offsets, s, opcode, src1, src2), None)
            };
            var_adjust(s1, opcode, dst, src1, src2)
        },
        Stmt::Call(_) => (Map::empty(), s.1),
        _ => s,
    }
}

/// Whether the analysis can read an operand: a stack slot is read at
/// `[rsp]` or `[rsp + c]`, 4 or 8 bytes wide.
pub open spec fn wt_src_ok(v: Value) -> bool {
    match v {
        Value::Mem(sz, m) => v.spec_is_stack_access() ==> (m is Mem1Arg || (m matches MemArgs::Mem2Args(
            _,
            MemArg::Imm(_, _, _),
        ))) && (sz is Size32 || sz is Size64),
        _ => true,
    }
}

fn wt_src_is_ok(v: &Value) -> (r: bool)
    requires
        value_wf(*v),
    ensures
        r == wt_src_ok(*v),
{
    match *v {
        Value::Mem(sz, m) => {
            if v.is_stack_access() {
                let form = match m {
                    MemArgs::Mem1Arg(_) => true,
                    MemArgs::Mem2Args(_, MemArg::Imm(_, _, _)) => true,
                    _ => false,
                };
                form && (matches!(sz, ValSize::Size32) || matches!(sz, ValSize::Size64))
            } else {
                true
            }
        },
        _ => true,
    }
}

/// Whether the Wasmtime analysis can step over a statement: its operands are
/// well formed, every written operand can be set and every read one read, and
/// a write of the stack pointer adds or subtracts a multiple of 4.
pub open spec fn wt_stmt_ok(stmt: Stmt) -> bool {
    &&& stmt_wf(stmt)
    &&& match stmt {
        Stmt::Clear(dst, _) => can_set(dst),
        Stmt::Unop(opcode, dst, src) => !(dst matches Value::Reg(_, ValSize::Size32)) ==> (can_set(
            dst,
        ) && (opcode is Mov ==> wt_src_ok(src))),
        Stmt::Binop(opcode, dst, src1, src2) => can_adjust(opcode, dst, src1, src2) && (!(dst matches Value::Reg(
            _,
            ValSize::Size32,
        )) ==> (can_set(dst) && (opcode is Add ==> wt_src_ok(src1) && wt_src_ok(src2)))),
        _ => true,
    }
}

impl WasmtimeAnalyzer {
    /// Whether the field that a load at `memargs` dereferences is one the
    /// layout describes (see `field_deref_defined`).
    pub fn deref_defined(&self, in_state: &WasmtimeLattice, memargs: &MemArgs) -> (r: bool)
        ensures
            r == field_deref_defined(self.offsets@, in_state@, *memargs),
    {
        match memargs {
            MemArgs::Mem1Arg(MemArg::Reg(r, _)) => {
                match in_state.regs.get_reg(*r, ValSize::Size64).v {
                    Some(WasmtimeValue::VmAddr(Some(offset))) => self.offsets.contains_key(&offset),
                    _ => true,
                }
            },
            MemArgs::Mem2Args(MemArg::Reg(r, _), MemArg::Imm(_, _, k)) => {
                match in_state.regs.get_reg(*r, ValSize::Size64).v {
                    Some(WasmtimeValue::VmCtx) => self.offsets.contains_key(k),
                    _ => true,
                }
            },
            _ => true,
        }
    }

    /// Dereferences a field of the VM context, if the load at `memargs` is one
    /// (see `spec_field_deref`). The field must be one that the layout
    /// describes.
    pub fn field_deref(&self, in_state: &WasmtimeLattice, memargs: &MemArgs) -> (r: Option<WasmtimeValueLattice>)
        requires
            field_deref_defined(self.offsets@, in_state@, *memargs),
        ensures
            match (r, spec_field_deref(self.offsets@, in_state@, *memargs)) {
                (Some(x), Some(y)) => x@ == y,
                (None, None) => true,
                _ => false,
            },
    {
        match memargs {
            MemArgs::Mem1Arg(MemArg::Reg(r, _)) => {
                let v = match in_state.regs.get_reg(*r, ValSize::Size64).v {
                    Some(v) => v,
                    None => return None,
                };
                // 1. mem[VmCtx] => HeapBase
                if v.is_vmctx() {
                    return Some(WasmtimeValueLattice::new(WasmtimeValue::HeapBase));
                }
                // 2. mem[VmAddr(c)] => offsets[c]
                if let WasmtimeValue::VmAddr(Some(offset)) = v {
                    return Some(self.field_at(offset));
                }
                // 3. mem[VmCtxField] => the pointee, or a read-only field
                if let WasmtimeValue::VmCtxField(field) = v {
                    let fv = if let FieldDesc::Ptr(b) = field {
                        copy_wasmtime_value(&b)
                    } else {
                        WasmtimeValue::VmCtxField(FieldDesc::R)
                    };
                    return Some(WasmtimeValueLattice::new(fv));
                }
            },
            MemArgs::Mem2Args(MemArg::Reg(r, _), MemArg::Imm(_, _, k)) => {
                // 4. mem[VmCtx + c] => offsets[c]
                if let Some(WasmtimeValue::VmCtx) = in_state.regs.get_reg(*r, ValSize::Size64).v {
                    return Some(self.field_at(*k));
                }
            },
            _ => {},
        }
        None
    }

    /// The field at `offset` of the VM context.
    fn field_at(&self, offset: i64) -> (r: WasmtimeValueLattice)
        ensures
            r@ == field_at(self.offsets@, offset),
    {
        match self.offsets.get(&offset) {
            Some(f) => WasmtimeValueLattice::new(copy_wasmtime_value(f)),
            None => ConstLattice { v: None },
        }
    }

    pub fn aeval_unop(&self, in_state: &WasmtimeLattice, value: &Value) -> (r: WasmtimeValueLattice)
        requires
            value_wf(*value),
            wt_src_ok(*value),
        ensures
            r@ == wt_aeval_unop(self.offsets@, in_state@, *value),
    {
        match value {
            Value::Mem(memsize, memargs) => {
                // a field that the layout does not describe is not known
                if !self.deref_defined(in_state, memargs) {
                    return ConstLattice { v: None };
                }
                if let Some(field) = self.field_deref(in_state, memargs) {
                    return field;
                }
                if is_stack_access(value) {
                    let offset = extract_stack_offset(memargs);
                    return in_state.stack.get(offset, memsize.into_bytes());
                }
            },
            Value::Reg(regnum, size) => {
                if size.into_bits() <= 32 {
                    return WasmtimeValueLattice::new(WasmtimeValue::Bounded4GB(None));
                } else {
                    return in_state.regs.get_reg(*regnum, ValSize::Size64);
                }
            },
            Value::Imm(_, _, immval) => {
                if (*immval >= 0) && (*immval < 0x1_0000_0000) {
                    return WasmtimeValueLattice::new(WasmtimeValue::Bounded4GB(Some(*immval)));
                }
            },
            Value::RIPConst => {},
        }
        ConstLattice { v: None }
    }

    pub fn aeval_binop(&self, in_state: &WasmtimeLattice, opcode: &Binopcode, src1: &Value, src2: &Value) -> (r: WasmtimeValueLattice)
        requires
            value_wf(*src1),
            value_wf(*src2),
            *opcode is Add ==> wt_src_ok(*src1) && wt_src_ok(*src2),
        ensures
            r@ == wt_aeval_binop(self.offsets@, in_state@, *opcode, *src1, *src2),
    {
        match opcode {
            Binopcode::Add => self.aeval_add(in_state, src1, src2),
            _ => ConstLattice { v: None },
        }
    }

    pub fn aeval_add(&self, in_state: &WasmtimeLattice, src1: &Value, src2: &Value) -> (r: WasmtimeValueLattice)
        requires
            value_wf(*src1),
            value_wf(*src2),
            wt_src_ok(*src1),
            wt_src_ok(*src2),
        ensures
            r@ == wt_add(
                wt_aeval_unop(self.offsets@, in_state@, *src1),
                wt_aeval_unop(self.offsets@, in_state@, *src2),
            ),
    {
        let a = self.aeval_unop(in_state, src1);
        let b = self.aeval_unop(in_state, src2);
        match (a.v, b.v) {
            (Some(WasmtimeValue::HeapBase), Some(WasmtimeValue::Bounded4GB(_)))
            | (Some(WasmtimeValue::Bounded4GB(_)), Some(WasmtimeValue::HeapBase)) => {
                WasmtimeValueLattice::new(WasmtimeValue::HeapAddr)
            },
            (Some(WasmtimeValue::VmCtx), Some(WasmtimeValue::Bounded4GB(Some(c))))
            | (Some(WasmtimeValue::Bounded4GB(Some(c))), Some(WasmtimeValue::VmCtx)) => {
                WasmtimeValueLattice::new(WasmtimeValue::VmAddr(Some(c)))
            },
            _ => ConstLattice { v: None },
        }
    }

    fn aexec_unop(&self, in_state: &mut WasmtimeLattice, opcode: &Unopcode, dst: &Value, src: &Value)
        requires
            wt_stmt_ok(Stmt::Unop(*opcode, *dst, *src)),
        ensures
            final(in_state)@ == wt_aexec(self.offsets@, old(in_state)@, Stmt::Unop(*opcode, *dst, *src)),
    {
        if let Value::Reg(rd, ValSize::Size32) = dst {
            in_state.regs.set_reg(
                *rd,
                ValSize::Size64,
                WasmtimeValueLattice::new(WasmtimeValue::Bounded4GB(None)),
            );
            return;
        }
        match opcode {
            Unopcode::Mov => {
                let v = self.aeval_unop(in_state, src);
                in_state.set(dst, v);
            },
            Unopcode::Movsx => {
                in_state.set(dst, ConstLattice { v: None });
            },
        }
    }

    fn aexec_binop(&self, in_state: &mut WasmtimeLattice, opcode: &Binopcode, dst: &Value, src1: &Value, src2: &Value)
        requires
            wt_stmt_ok(Stmt::Binop(*opcode, *dst, *src1, *src2)),
        ensures
            final(in_state)@ == (if *dst matches Value::Reg(_, ValSize::Size32) {
                wt_set_bounded(old(in_state)@, dst->Reg_0)
            } else {
                var_set(
                    old(in_state)@,
                    *dst,
                    wt_aeval_binop(self.offsets@, old(in_state)@, *opcode, *src1, *src2),
                    None,
                )
            }),
    {
        if let Value::Reg(rd, ValSize::Size32) = dst {
            in_state.regs.set_reg(
                *rd,
                ValSize::Size64,
                WasmtimeValueLattice::new(WasmtimeValue::Bounded4GB(None)),
            );
            return;
        }
        let v = self.aeval_binop(in_state, opcode, src1, src2);
        in_state.set(dst, v);
    }
}

impl AbstractAnalyzer<WasmtimeLattice> for WasmtimeAnalyzer {
    open spec fn spec_init_state(&self) -> WtView {
        (
            Map::empty().insert(reg_index(X86Regs::Rdi), (64u32, Some(WasmtimeValue::VmCtx))),
            (0i64, Map::empty()),
        )
    }

    open spec fn stmt_ok(&self, stmt: Stmt) -> bool {
        wt_stmt_ok(stmt)
    }

    open spec fn spec_aexec(&self, s: WtView, stmt: Stmt, loc: LocIdx) -> WtView {
        wt_aexec(self.offsets@, s, stmt)
    }

    open spec fn spec_process_branch(
        &self,
        irmap: Map<u64, IRBlock>,
        s: WtView,
        succs: Seq<u64>,
        addr: u64,
    ) -> Seq<(u64, WtView)> {
        same_state_to_all(s, succs)
    }

    fn supports(&self, stmt: &Stmt) -> (r: bool) {
        if !stmt_is_wf(stmt) {
            return false;
        }
        match stmt {
            Stmt::Clear(dst, _) => is_settable(dst),
            Stmt::Unop(opcode, dst, src) => {
                if let Value::Reg(_, ValSize::Size32) = dst {
                    true
                } else {
                    is_settable(dst) && (matches!(*opcode, Unopcode::Movsx) || wt_src_is_ok(src))
                }
            },
            Stmt::Binop(opcode, dst, src1, src2) => {
                if !is_adjustable(opcode, dst, src1, src2) {
                    return false;
                }
                if let Value::Reg(_, ValSize::Size32) = dst {
                    true
                } else {
                    is_settable(dst) && (!matches!(*opcode, Binopcode::Add) || (wt_src_is_ok(src1)
                        && wt_src_is_ok(src2)))
                }
            },
            _ => true,
        }
    }

    /// Every register is unknown but the pinned one, which holds the VM
    /// context.
    fn init_state(&self) -> (r: WasmtimeLattice) {
        let mut result: WasmtimeLattice = WasmtimeLattice::bot();
        result.regs.set_reg(
            X86Regs::pinned_vmctx_reg(),
            ValSize::Size64,
            WasmtimeValueLattice::new(WasmtimeValue::VmCtx),
        );
        proof {
            assert(result@.0 =~= Map::empty().insert(
                reg_index(X86Regs::Rdi),
                (64u32, Some(WasmtimeValue::VmCtx)),
            ));
            assert(result@.1.1 =~= Map::<i64, (u32, Option<WasmtimeValue>)>::empty());
        }
        result
    }

    fn process_branch(
        &self,
        irmap: &IRMap,
        in_state: &WasmtimeLattice,
        succ_addrs: &Vec<u64>,
        addr: &u64,
    ) -> (r: Vec<(u64, WasmtimeLattice)>) {
        state_to_all(in_state, succ_addrs)
    }

    fn aexec(&self, in_state: &mut WasmtimeLattice, ir_instr: &Stmt, loc_idx: &LocIdx) {
        match ir_instr {
            Stmt::Clear(dst, _srcs) => {
                match dst {
                    Value::Reg(rd, ValSize::Size32)
                    | Value::Reg(rd, ValSize::Size16)
                    | Value::Reg(rd, ValSize::Size8) => {
                        in_state.regs.set_reg(
                            *rd,
                            ValSize::Size64,
                            WasmtimeValueLattice::new(WasmtimeValue::Bounded4GB(None)),
                        );
                    },
                    _ => in_state.set_to_bot(dst),
                }
            },
            Stmt::Unop(opcode, dst, src) => self.aexec_unop(in_state, opcode, dst, src),
            Stmt::Binop(opcode, dst, src1, src2) => {
                self.aexec_binop(in_state, opcode, dst, src1, src2);
                in_state.adjust_stack_offset(opcode, dst, src1, src2)
            },
            Stmt::Call(_) => in_state.on_call(),
            _ => {},
        }
    }
}

} // verus!
