use crate::analyses::wasmtime_analyzer::{wget, WtView};
use crate::analyses::{irmap_ok, AbstractAnalyzer, AnalysisResult, WasmtimeAnalyzer};
use crate::checkers::{all_checked, check_state_at_statements, irmap_check_ok, Checker};
use crate::ir::types::{stmt_is_wf, stmt_wf, value_wf, IRBlock, IRMap, MemArg, MemArgs, Stmt, ValSize, Value, X86Regs};
use crate::ir::utils::is_stack_access;
use crate::lattices::reachingdefslattice::LocIdx;
use crate::lattices::wasmtime_lattice::{FieldDesc, WasmtimeLattice, WasmtimeValue};
use vstd::prelude::*;

verus! {

broadcast use vstd::std_specs::hash::group_hash_axioms;

/// Checks that every memory access of a Wasmtime function is to the stack,
/// the frame, the heap (base plus a 32-bit offset) or a field of the VM
/// context, and that only writable fields are written.
pub struct WasmtimeChecker<'a> {
    pub irmap: &'a IRMap,
    pub analyzer: &'a WasmtimeAnalyzer,
}

/// Whether an access is `[rbp]` or `[rbp + c]`: a slot of the frame.
pub open spec fn spec_is_frame_slot(v: Value) -> bool {
    match v {
        Value::Mem(_, MemArgs::Mem1Arg(m)) => m.spec_is_rbp(),
        Value::Mem(_, MemArgs::Mem2Args(m1, m2)) => m1.spec_is_rbp() && m2 is Imm,
        _ => false,
    }
}

/// Whether `c` is an offset that the heap's guard regions cover.
pub open spec fn in_guard_range(c: i64) -> bool {
    -0x1000 <= c <= 0xffff_ffff
}

/// `[heapbase + m2 + m3]` where one of the two is a value below 4 GiB and the
/// other a constant below 4 GiB.
pub open spec fn spec_wt_heap3(s: WtView, r: X86Regs, m2: MemArg, m3: MemArg) -> bool {
    wget(s, r) == Some(WasmtimeValue::HeapBase) && match (m2, m3) {
        (MemArg::Reg(r2, _), MemArg::Imm(_, _, v)) => wget(s, r2) matches Some(
            WasmtimeValue::Bounded4GB(_),
        ) && v <= 0xffff_ffff,
        (MemArg::Imm(_, _, v), MemArg::Reg(r2, _)) => wget(s, r2) matches Some(
            WasmtimeValue::Bounded4GB(_),
        ) && v <= 0xffff_ffff,
        _ => false,
    }
}

/// A heap access: `[heapbase]`, `[heapbase + bounded]`, `[heapbase + c]` with
/// `c` in the guard range, or `[heapbase + bounded + c]` with the first two
/// operands in either order.
pub open spec fn spec_wt_heap_access(s: WtView, access: Value) -> bool {
    match access {
        Value::Mem(_, MemArgs::Mem1Arg(MemArg::Reg(r, ValSize::Size64))) => wget(s, r) == Some(
            WasmtimeValue::HeapBase,
        ),
        Value::Mem(_, MemArgs::Mem2Args(MemArg::Reg(r, ValSize::Size64), m2)) => wget(s, r) == Some(
            WasmtimeValue::HeapBase,
        ) && match m2 {
            MemArg::Reg(r2, _) => wget(s, r2) matches Some(WasmtimeValue::Bounded4GB(_)),
            MemArg::Imm(_, _, v) => in_guard_range(v),
        },
        Value::Mem(_, MemArgs::Mem3Args(a, b, c)) => if a matches MemArg::Reg(_, ValSize::Size64) {
            spec_wt_heap3(s, a->Reg_0, b, c)
        } else if b matches MemArg::Reg(_, ValSize::Size64) {
            spec_wt_heap3(s, b->Reg_0, a, c)
        } else {
            false
        },
        _ => false,
    }
}

/// Whether a field may be accessed so: any field may be read, and only a
/// read/write one written.
pub open spec fn field_allows(f: FieldDesc, write: bool) -> bool {
    !write || f is Rw
}

/// An access to the VM context: `[vmctx]`; `[vmaddr c]` where the layout has
/// a field at `c` that allows the access; `[field]` for a field that allows
/// it; or `[vmctx + c]` (either order) with a field at `c`, or `[field + c]`.
pub open spec fn spec_vmctx_access(
    offsets: Map<i64, WasmtimeValue>,
    s: WtView,
    access: Value,
    write: bool,
) -> bool {
    match access {
        Value::Mem(_, MemArgs::Mem1Arg(MemArg::Reg(r, ValSize::Size64))) => match wget(s, r) {
            Some(WasmtimeValue::VmCtx) => true,
            Some(WasmtimeValue::VmAddr(Some(off))) => !write || (offsets.contains_key(off) && (
            offsets[off] matches WasmtimeValue::VmCtxField(f) && field_allows(f, write))),
            Some(WasmtimeValue::VmCtxField(f)) => field_allows(f, write),
            _ => false,
        },
        Value::Mem(_, MemArgs::Mem2Args(MemArg::Reg(r, ValSize::Size64), MemArg::Imm(_, _, imm))) => match wget(
            s,
            r,
        ) {
            Some(WasmtimeValue::VmCtx) => offsets.contains_key(imm),
            Some(WasmtimeValue::VmCtxField(_)) => true,
            _ => false,
        },
        Value::Mem(_, MemArgs::Mem2Args(MemArg::Imm(_, _, imm), MemArg::Reg(r, ValSize::Size64))) => match wget(
            s,
            r,
        ) {
            Some(WasmtimeValue::VmCtx) => offsets.contains_key(imm),
            Some(WasmtimeValue::VmCtxField(_)) => true,
            _ => false,
        },
        _ => false,
    }
}

/// Whether a memory access is one of the safe kinds.
pub open spec fn spec_wt_mem_access_ok(
    offsets: Map<i64, WasmtimeValue>,
    s: WtView,
    access: Value,
    write: bool,
) -> bool {
    ||| access.spec_is_stack_access()
    ||| spec_is_frame_slot(access)
    ||| spec_wt_heap_access(s, access)
    ||| spec_vmctx_access(offsets, s, access, write)
}

/// Whether a statement is safe: every operand it writes and every operand it
/// reads is a safe access. Calls through a register are accepted.
pub open spec fn spec_wt_check(offsets: Map<i64, WasmtimeValue>, s: WtView, stmt: Stmt) -> bool {
    match stmt {
        Stmt::Unop(_, dst, src) => (dst is Mem ==> spec_wt_mem_access_ok(offsets, s, dst, true)) && (
        src is Mem ==> spec_wt_mem_access_ok(offsets, s, src, false)),
        Stmt::Binop(_, dst, src1, src2) => (dst is Mem ==> spec_wt_mem_access_ok(offsets, s, dst, true))
            && (src1 is Mem ==> spec_wt_mem_access_ok(offsets, s, src1, false)) && (src2 is Mem
            ==> spec_wt_mem_access_ok(offsets, s, src2, false)),
        Stmt::Clear(dst, srcs) => (dst is Mem ==> spec_wt_mem_access_ok(offsets, s, dst, true)) && forall|
            k: int,
        |
            0 <= k < srcs@.len() ==> (#[trigger] srcs@[k] is Mem ==> spec_wt_mem_access_ok(
                offsets,
                s,
                srcs@[k],
                false,
            )),
        _ => true,
    }
}

fn is_frame_access(v: &Value) -> (r: bool)
    requires
        value_wf(*v),
    ensures
        r == spec_is_frame_slot(*v),
{
    if let Value::Mem(_, memargs) = v {
        // Cranelift never puts arrays or other variable-length data in a frame,
        // so a frame slot is only ever `[rbp + OFFSET]` with a constant offset.
        match memargs {
            MemArgs::Mem1Arg(memarg) => memarg.is_rbp(),
            MemArgs::Mem2Args(memarg1, memarg2) => memarg1.is_rbp() && memarg2.is_imm(),
            _ => false,
        }
    } else {
        false
    }
}

fn wt_reg(state: &WasmtimeLattice, r: X86Regs) -> (v: Option<WasmtimeValue>)
    ensures
        v == wget(state@, r),
{
    state.regs.get_reg(r, ValSize::Size64).v
}

fn is_bounded(v: &Option<WasmtimeValue>) -> (b: bool)
    ensures
        b == (*v matches Some(WasmtimeValue::Bounded4GB(_))),
{
    match v {
        Some(x) => x.is_bounded(),
        None => false,
    }
}

fn is_heapbase(v: &Option<WasmtimeValue>) -> (b: bool)
    ensures
        b == (*v == Some(WasmtimeValue::HeapBase)),
{
    match v {
        Some(x) => x.is_heapbase(),
        None => false,
    }
}

fn check_wt_heap3(state: &WasmtimeLattice, r: X86Regs, m2: &MemArg, m3: &MemArg) -> (b: bool)
    ensures
        b == spec_wt_heap3(state@, r, *m2, *m3),
{
    if is_heapbase(&wt_reg(state, r)) {
        match (m2, m3) {
            (MemArg::Reg(r2, _), MemArg::Imm(_, _, v)) | (MemArg::Imm(_, _, v), MemArg::Reg(r2, _)) => {
                return is_bounded(&wt_reg(state, *r2)) && *v <= 0xffff_ffff;
            },
            _ => {},
        }
    }
    false
}

/// Checks the whole analysis result of a Wasmtime function.
pub fn check_wasmtime(result: AnalysisResult<WasmtimeLattice>, irmap: &IRMap, analyzer: &WasmtimeAnalyzer) -> (r: bool)
    requires
        irmap_ok(analyzer, irmap@),
        irmap_check_ok(&WasmtimeChecker { irmap: irmap, analyzer: analyzer }),
        forall|p: u64| #[trigger] result@.contains_key(p) ==> irmap@.contains_key(p),
    ensures
        r == all_checked(&WasmtimeChecker { irmap: irmap, analyzer: analyzer }, result@),
{
    let checker = WasmtimeChecker { irmap: irmap, analyzer: analyzer };
    checker.check(result)
}

impl<'a> WasmtimeChecker<'a> {
    pub fn check(&self, result: AnalysisResult<WasmtimeLattice>) -> (r: bool)
        requires
            irmap_ok(self.analyzer, self.irmap@),
            irmap_check_ok(self),
            forall|p: u64| #[trigger] result@.contains_key(p) ==> self.irmap@.contains_key(p),
        ensures
            r == all_checked(self, result@),
    {
        check_state_at_statements(self, result)
    }

    fn is_heap_access(&self, state: &WasmtimeLattice, access: &Value) -> (r: bool)
        requires
            *access is Mem,
        ensures
            r == spec_wt_heap_access(state@, *access),
    {
        match access.to_mem() {
            // 1. mem[heapbase]
            MemArgs::Mem1Arg(MemArg::Reg(regnum, ValSize::Size64)) => {
                is_heapbase(&wt_reg(state, regnum))
            },
            // 2. mem[heapbase + bounded4GB] or mem[heapbase + c]
            MemArgs::Mem2Args(MemArg::Reg(regnum, ValSize::Size64), memarg2) => {
                if is_heapbase(&wt_reg(state, regnum)) {
                    match memarg2 {
                        MemArg::Reg(regnum2, _) => is_bounded(&wt_reg(state, regnum2)),
                        MemArg::Imm(_, _, v) => v >= -0x1000 && v <= 0xffff_ffff,
                    }
                } else {
                    false
                }
            },
            // 3. mem[heapbase + bounded4GB + c] or mem[bounded4GB + heapbase + c]
            MemArgs::Mem3Args(a, b, c) => {
                if let MemArg::Reg(regnum, ValSize::Size64) = a {
                    check_wt_heap3(state, regnum, &b, &c)
                } else if let MemArg::Reg(regnum, ValSize::Size64) = b {
                    check_wt_heap3(state, regnum, &a, &c)
                } else {
                    false
                }
            },
            _ => false,
        }
    }

    /// 1. `mem[vmctx + c]` such that `c` is a field offset
    /// 2. `mem[field]`, a write only to a writable field
    fn is_vmctx_access(&self, state: &WasmtimeLattice, access: &Value, write: bool) -> (r: bool)
        requires
            *access is Mem,
        ensures
            r == spec_vmctx_access(self.analyzer.offsets@, state@, *access, write),
    {
        match access.to_mem() {
            MemArgs::Mem1Arg(MemArg::Reg(r, ValSize::Size64)) => {
                match wt_reg(state, r) {
                    Some(WasmtimeValue::VmCtx) => true,
                    Some(WasmtimeValue::VmAddr(Some(offset))) => {
                        if !write {
                            return true;
                        }
                        match self.analyzer.offsets.get(&offset) {
                            Some(WasmtimeValue::VmCtxField(field)) => field.is_write(),
                            _ => false,
                        }
                    },
                    Some(WasmtimeValue::VmCtxField(field)) => field.is_write() || !write,
                    _ => false,
                }
            },
            MemArgs::Mem2Args(MemArg::Reg(r, ValSize::Size64), MemArg::Imm(_, _, imm))
            | MemArgs::Mem2Args(MemArg::Imm(_, _, imm), MemArg::Reg(r, ValSize::Size64)) => {
                match wt_reg(state, r) {
                    Some(WasmtimeValue::VmCtx) => self.analyzer.offsets.contains_key(&imm),
                    Some(WasmtimeValue::VmCtxField(_)) => true,
                    _ => false,
                }
            },
            _ => false,
        }
    }

    fn check_mem_access(&self, state: &WasmtimeLattice, access: &Value, loc_idx: &LocIdx, write: bool) -> (r: bool)
        requires
            value_wf(*access),
            *access is Mem,
        ensures
            r == spec_wt_mem_access_ok(self.analyzer.offsets@, state@, *access, write),
    {
        // a stack slot
        if is_stack_access(access) {
            return true;
        }
        // a frame slot (rbp-based)
        if is_frame_access(access) {
            return true;
        }
        if self.is_heap_access(state, access) {
            return true;
        }
        if self.is_vmctx_access(state, access, write) {
            return true;
        }
        false
    }
}

impl<'a> Checker<WasmtimeLattice> for WasmtimeChecker<'a> {
    type Analyzer = WasmtimeAnalyzer;

    open spec fn spec_analyzer(&self) -> WasmtimeAnalyzer {
        *self.analyzer
    }

    open spec fn spec_irmap(&self) -> Map<u64, IRBlock> {
        self.irmap@
    }

    open spec fn check_ok(&self, stmt: Stmt) -> bool {
        stmt_wf(stmt)
    }

    open spec fn spec_check_statement(&self, s: WtView, stmt: Stmt, loc: LocIdx) -> bool {
        spec_wt_check(self.analyzer.offsets@, s, stmt)
    }

    fn irmap(&self) -> (r: &IRMap) {
        self.irmap
    }

    fn check_supported(&self, stmt: &Stmt) -> (r: bool) {
        stmt_is_wf(stmt)
    }

    fn aexec(&self, state: &mut WasmtimeLattice, ir_stmt: &Stmt, loc: &LocIdx) {
        self.analyzer.aexec(state, ir_stmt, loc)
    }

    fn check_statement(&self, state: &WasmtimeLattice, ir_stmt: &Stmt, loc_idx: &LocIdx) -> (r: bool) {
        match ir_stmt {
            // every load and store is safe
            Stmt::Unop(_, dst, src) => {
                if dst.is_mem() && !self.check_mem_access(state, dst, loc_idx, true) {
                    return false;
                }
                if src.is_mem() && !self.check_mem_access(state, src, loc_idx, false) {
                    return false;
                }
            },
            Stmt::Binop(_, dst, src1, src2) => {
                if dst.is_mem() && !self.check_mem_access(state, dst, loc_idx, true) {
                    return false;
                }
                if src1.is_mem() && !self.check_mem_access(state, src1, loc_idx, false) {
                    return false;
                }
                if src2.is_mem() && !self.check_mem_access(state, src2, loc_idx, false) {
                    return false;
                }
            },
            Stmt::Clear(dst, srcs) => {
                if dst.is_mem() && !self.check_mem_access(state, dst, loc_idx, true) {
                    return false;
                }
                let mut k: usize = 0;
                while k < srcs.len()
                    invariant
                        k <= srcs@.len(),
                        *ir_stmt == Stmt::Clear(*dst, *srcs),
                        *dst is Mem ==> spec_wt_mem_access_ok(self.analyzer.offsets@, state@, *dst, true),
                        forall|i: int| 0 <= i < srcs@.len() ==> value_wf(#[trigger] srcs@[i]),
                        forall|i: int|
                            0 <= i < k ==> (#[trigger] srcs@[i] is Mem ==> spec_wt_mem_access_ok(
                                self.analyzer.offsets@,
                                state@,
                                srcs@[i],
                                false,
                            )),
                    decreases srcs@.len() - k,
                {
                    if srcs[k].is_mem() && !self.check_mem_access(state, &srcs[k], loc_idx, false) {
                        assert(srcs@[k as int] is Mem && !spec_wt_mem_access_ok(
                            self.analyzer.offsets@,
                            state@,
                            srcs@[k as int],
                            false,
                        ));
                        return false;
                    }
                    k = k + 1;
                }
            },
            _ => {},
        }
        true
    }
}

} // verus!
