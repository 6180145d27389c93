use crate::analyses::heap_analyzer::{heap_stmt_ok, HeapView};
use crate::analyses::{irmap_ok, AbstractAnalyzer, AnalysisResult, HeapAnalyzer};
use crate::checkers::{all_checked, check_state_at_statements, irmap_check_ok, Checker};
use crate::ir::types::{stmt_is_wf, stmt_wf, value_wf, IRBlock, IRMap, ImmType, MemArg, MemArgs, Stmt, ValSize, Value, X86Regs};
use crate::ir::utils::{is_mem_access, is_stack_access};
use crate::lattices::heaplattice::{HeapLattice, HeapValue};
use crate::lattices::reachingdefslattice::LocIdx;
use crate::lattices::regslattice::regs_get;
use crate::lattices::stacklattice::wrap_add;
use crate::loaders::utils::{is_libcall, spec_is_libcall};
use std::collections::HashMap;
use vstd::prelude::*;

verus! {

broadcast use vstd::std_specs::hash::group_hash_axioms;

/// Checks that every memory access of a Lucet function is to the stack, the
/// frame, the heap (base plus a 32-bit offset), the runtime's tables and
/// globals, or trusted constant data, and that every call but to a math
/// routine passes the heap base in `rdi`.
pub struct HeapChecker<'a> {
    pub irmap: &'a IRMap,
    pub analyzer: &'a HeapAnalyzer,
    pub name_addr_map: &'a HashMap<u64, String>,
}

/// The abstract value of register `r`.
pub open spec fn rget(s: HeapView, r: X86Regs) -> Option<HeapValue> {
    regs_get(s.0, r, None)
}

/// Whether an access is `[rbp]` or `[rbp + c]`: a slot of the frame.
pub open spec fn spec_is_frame_slot(v: Value) -> bool {
    match v {
        Value::Mem(_, MemArgs::Mem1Arg(m)) => m.spec_is_rbp(),
        Value::Mem(_, MemArgs::Mem2Args(m1, m2)) => m1.spec_is_rbp() && m2 is Imm,
        _ => false,
    }
}

/// `[globals]` or `[globals + c]` with `c` at most 4096.
pub open spec fn spec_global_access(s: HeapView, access: Value) -> bool {
    match access {
        Value::Mem(_, MemArgs::Mem1Arg(MemArg::Reg(r, ValSize::Size64))) => rget(s, r) == Some(
            HeapValue::GlobalsBase,
        ),
        Value::Mem(_, MemArgs::Mem2Args(MemArg::Reg(r, ValSize::Size64), MemArg::Imm(_, _, off))) => rget(
            s,
            r,
        ) == Some(HeapValue::GlobalsBase) && off <= 4096,
        _ => false,
    }
}

/// The register that an address starts with, when it is a full-width one.
pub open spec fn first_reg64(m: MemArgs) -> Option<X86Regs> {
    match m {
        MemArgs::Mem1Arg(MemArg::Reg(r, ValSize::Size64)) => Some(r),
        MemArgs::Mem2Args(MemArg::Reg(r, ValSize::Size64), _) => Some(r),
        MemArgs::Mem3Args(MemArg::Reg(r, ValSize::Size64), _, _) => Some(r),
        MemArgs::MemScale(MemArg::Reg(r, ValSize::Size64), _, _) => Some(r),
        _ => None,
    }
}

/// An access based at a value loaded from the program's constant data.
pub open spec fn spec_ripconst_access(s: HeapView, access: Value) -> bool {
    match access {
        Value::Mem(_, m) => match first_reg64(m) {
            Some(r) => rget(s, r) == Some(HeapValue::RIPConst),
            None => false,
        },
        _ => false,
    }
}

/// Whether `c` is an offset that the heap's guard regions cover.
pub open spec fn in_guard_range(c: i64) -> bool {
    -0x1000 <= c <= 0xffff_ffff
}

/// `[heapbase + m2 + m3]`: one of the two is a value below 4 GiB and the other
/// one too, or a constant below 4 GiB.
pub open spec fn spec_heap3(s: HeapView, r: X86Regs, m2: MemArg, m3: MemArg) -> bool {
    rget(s, r) == Some(HeapValue::HeapBase) && match (m2, m3) {
        (MemArg::Reg(r2, _), MemArg::Imm(_, _, v)) => rget(s, r2) == Some(HeapValue::Bounded4GB) && v
            <= 0xffff_ffff,
        (MemArg::Imm(_, _, v), MemArg::Reg(r2, _)) => rget(s, r2) == Some(HeapValue::Bounded4GB) && v
            <= 0xffff_ffff,
        (MemArg::Reg(r2, _), MemArg::Reg(r3, _)) => rget(s, r2) == Some(HeapValue::Bounded4GB) && rget(
            s,
            r3,
        ) == Some(HeapValue::Bounded4GB),
        _ => false,
    }
}

/// A heap access: `[heapbase]`, `[heapaddr]`, `[heapbase + bounded]`,
/// `[heapbase + c]` or `[heapaddr + c]` with `c` in the guard range, or
/// `[heapbase + bounded + bounded]` in any order of the first two operands.
pub open spec fn spec_heap_access(s: HeapView, access: Value) -> bool {
    match access {
        Value::Mem(_, MemArgs::Mem1Arg(MemArg::Reg(r, ValSize::Size64))) => rget(s, r) == Some(
            HeapValue::HeapBase,
        ) || rget(s, r) == Some(HeapValue::HeapAddr),
        Value::Mem(_, MemArgs::Mem2Args(MemArg::Reg(r, ValSize::Size64), m2)) => {
            ||| rget(s, r) == Some(HeapValue::HeapBase) && match m2 {
                MemArg::Reg(r2, _) => rget(s, r2) == Some(HeapValue::Bounded4GB),
                MemArg::Imm(_, _, v) => in_guard_range(v),
            }
            ||| rget(s, r) == Some(HeapValue::HeapAddr) && (m2 matches MemArg::Imm(_, _, v)
                && in_guard_range(v))
        },
        Value::Mem(_, MemArgs::Mem3Args(a, b, c)) => if a matches MemArg::Reg(_, ValSize::Size64) {
            spec_heap3(s, a->Reg_0, b, c)
        } else if b matches MemArg::Reg(_, ValSize::Size64) {
            spec_heap3(s, b->Reg_0, a, c)
        } else {
            false
        },
        _ => false,
    }
}

/// An access to the runtime's metadata: `[globals]`, `[lucet_tables + 8]`,
/// or an entry of `guest_table_0`.
pub open spec fn spec_metadata_access(s: HeapView, access: Value) -> bool {
    match access {
        Value::Mem(_, MemArgs::Mem1Arg(MemArg::Reg(r, ValSize::Size64))) => rget(s, r) == Some(
            HeapValue::GlobalsBase,
        ),
        Value::Mem(_, MemArgs::Mem2Args(MemArg::Reg(r, ValSize::Size64), MemArg::Imm(_, _, 8))) => rget(
            s,
            r,
        ) == Some(HeapValue::LucetTables),
        Value::Mem(
            _,
            MemArgs::Mem2Args(MemArg::Reg(r1, ValSize::Size64), MemArg::Reg(r2, ValSize::Size64)),
        ) => rget(s, r1) == Some(HeapValue::GuestTable0) || rget(s, r2) == Some(HeapValue::GuestTable0),
        Value::Mem(
            _,
            MemArgs::Mem3Args(
                MemArg::Reg(r1, ValSize::Size64),
                MemArg::Reg(r2, ValSize::Size64),
                MemArg::Imm(_, _, 8),
            ),
        ) => rget(s, r1) == Some(HeapValue::GuestTable0) || rget(s, r2) == Some(HeapValue::GuestTable0),
        _ => false,
    }
}

/// A read of a jump table: `[a + b * 4]`.
pub open spec fn spec_jump_table_access(access: Value) -> bool {
    access matches Value::Mem(_, MemArgs::MemScale(_, _, MemArg::Imm(_, _, 4)))
}

/// Whether a memory access is one of the safe kinds.
pub open spec fn spec_mem_access_ok(s: HeapView, access: Value) -> bool {
    ||| access.spec_is_stack_access()
    ||| spec_is_frame_slot(access)
    ||| spec_ripconst_access(s, access)
    ||| spec_heap_access(s, access)
    ||| spec_metadata_access(s, access)
    ||| spec_global_access(s, access)
    ||| spec_jump_table_access(access)
}

/// The address a direct call at `addr` reaches: the instruction's 5 bytes
/// plus the displacement.
pub open spec fn call_target(disp: i64, addr: u64) -> u64 {
    wrap_add(wrap_add(disp, addr as i64), 5) as u64
}

/// Whether a statement is heap safe: a call passes the heap base in `rdi` or
/// calls a math routine directly, and every memory operand is safe.
pub open spec fn spec_heap_check(
    names: Map<u64, String>,
    s: HeapView,
    stmt: Stmt,
    loc: LocIdx,
) -> bool {
    match stmt {
        Stmt::Call(v) => rget(s, X86Regs::Rdi) == Some(HeapValue::HeapBase) || (v is Imm && names.contains_key(
            call_target(v->Imm_2, loc.addr),
        ) && spec_is_libcall(names[call_target(v->Imm_2, loc.addr)]@)),
        Stmt::Unop(_, dst, src) => (dst is Mem ==> spec_mem_access_ok(s, dst)) && (src is Mem
            ==> spec_mem_access_ok(s, src)),
        Stmt::Binop(_, dst, src1, src2) => (dst is Mem ==> spec_mem_access_ok(s, dst)) && (src1 is Mem
            ==> spec_mem_access_ok(s, src1)) && (src2 is Mem ==> spec_mem_access_ok(s, src2)),
        Stmt::Clear(dst, srcs) => (dst is Mem ==> spec_mem_access_ok(s, dst)) && forall|k: int|
            0 <= k < srcs@.len() ==> (#[trigger] srcs@[k] is Mem ==> spec_mem_access_ok(s, srcs@[k])),
        _ => true,
    }
}

fn is_frame_access(v: &Value) -> (r: bool)
    requires
        value_wf(*v),
    ensures
        r == spec_is_frame_slot(*v),
{
    if let Value::Mem(_, memargs) = v {
        // Cranelift never puts arrays or other variable-length data in a frame,
        // so a frame slot is only ever `[rbp + OFFSET]` with a constant offset.
        match memargs {
            MemArgs::Mem1Arg(memarg) => memarg.is_rbp(),
            MemArgs::Mem2Args(memarg1, memarg2) => memarg1.is_rbp() && memarg2.is_imm(),
            _ => false,
        }
    } else {
        false
    }
}

/// Whether a register holds the given abstract value.
fn reg_is(state: &HeapLattice, r: X86Regs, v: HeapValue) -> (b: bool)
    ensures
        b == (rget(state@, r) == Some(v)),
{
    match state.regs.get_reg(r, ValSize::Size64).v {
        Some(x) => x == v,
        None => false,
    }
}

fn check_heap3(state: &HeapLattice, r: X86Regs, m2: &MemArg, m3: &MemArg) -> (b: bool)
    ensures
        b == spec_heap3(state@, r, *m2, *m3),
{
    if reg_is(state, r, HeapValue::HeapBase) {
        match (m2, m3) {
            (MemArg::Reg(r2, _), MemArg::Imm(_, _, v)) => {
                return reg_is(state, *r2, HeapValue::Bounded4GB) && *v <= 0xffff_ffff;
            },
            (MemArg::Imm(_, _, v), MemArg::Reg(r2, _)) => {
                return reg_is(state, *r2, HeapValue::Bounded4GB) && *v <= 0xffff_ffff;
            },
            (MemArg::Reg(r2, _), MemArg::Reg(r3, _)) => {
                return reg_is(state, *r2, HeapValue::Bounded4GB) && reg_is(
                    state,
                    *r3,
                    HeapValue::Bounded4GB,
                );
            },
            _ => {},
        }
    }
    false
}

/// Checks the whole analysis result of a Lucet function for heap safety.
pub fn check_heap(
    result: AnalysisResult<HeapLattice>,
    irmap: &IRMap,
    analyzer: &HeapAnalyzer,
    name_addr_map: &HashMap<u64, String>,
) -> (r: bool)
    requires
        irmap_ok(analyzer, irmap@),
        irmap_check_ok(&HeapChecker { irmap: irmap, analyzer: analyzer, name_addr_map: name_addr_map }),
        forall|p: u64| #[trigger] result@.contains_key(p) ==> irmap@.contains_key(p),
    ensures
        r == all_checked(
            &HeapChecker { irmap: irmap, analyzer: analyzer, name_addr_map: name_addr_map },
            result@,
        ),
{
    let checker = HeapChecker { irmap: irmap, analyzer: analyzer, name_addr_map: name_addr_map };
    checker.check(result)
}

impl<'a> HeapChecker<'a> {
    pub fn check(&self, result: AnalysisResult<HeapLattice>) -> (r: bool)
        requires
            irmap_ok(self.analyzer, self.irmap@),
            irmap_check_ok(self),
            forall|p: u64| #[trigger] result@.contains_key(p) ==> self.irmap@.contains_key(p),
        ensures
            r == all_checked(self, result@),
    {
        check_state_at_statements(self, result)
    }

    fn check_global_access(&self, state: &HeapLattice, access: &Value) -> (r: bool)
        ensures
            r == spec_global_access(state@, *access),
    {
        if let Value::Mem(_, memargs) = access {
            match memargs {
                MemArgs::Mem1Arg(MemArg::Reg(regnum, ValSize::Size64)) => {
                    return reg_is(state, *regnum, HeapValue::GlobalsBase);
                },
                MemArgs::Mem2Args(MemArg::Reg(regnum, ValSize::Size64), MemArg::Imm(_, _, globals_offset)) => {
                    return reg_is(state, *regnum, HeapValue::GlobalsBase) && *globals_offset <= 4096;
                },
                _ => return false,
            }
        }
        false
    }

    fn check_ripconst_access(&self, state: &HeapLattice, access: &Value) -> (r: bool)
        ensures
            r == spec_ripconst_access(state@, *access),
    {
        // A pointer loaded from the program's own data is trusted, and so is any
        // access based at it, even with a computed offset: offline checks
        // recognize table accesses before they get here, and online checks
        // lack the relocations to tell a table from another global.
        if let Value::Mem(_, memargs) = access {
            match memargs {
                MemArgs::Mem1Arg(MemArg::Reg(regnum, ValSize::Size64))
                | MemArgs::Mem2Args(MemArg::Reg(regnum, ValSize::Size64), _)
                | MemArgs::Mem3Args(MemArg::Reg(regnum, ValSize::Size64), _, _)
                | MemArgs::MemScale(MemArg::Reg(regnum, ValSize::Size64), _, _) => {
                    return reg_is(state, *regnum, HeapValue::RIPConst);
                },
                _ => {},
            }
        }
        false
    }

    fn check_heap_access(&self, state: &HeapLattice, access: &Value) -> (r: bool)
        ensures
            r == spec_heap_access(state@, *access),
    {
        if let Value::Mem(_, memargs) = access {
            match memargs {
                // the only operand is the heap base or a heap address
                MemArgs::Mem1Arg(MemArg::Reg(regnum, ValSize::Size64)) => {
                    return reg_is(state, *regnum, HeapValue::HeapBase) || reg_is(
                        state,
                        *regnum,
                        HeapValue::HeapAddr,
                    );
                },
                // the heap base plus a bounded value or a constant, or a heap
                // address plus a constant
                MemArgs::Mem2Args(MemArg::Reg(regnum, ValSize::Size64), memarg2) => {
                    if reg_is(state, *regnum, HeapValue::HeapBase) {
                        match memarg2 {
                            MemArg::Reg(regnum2, _) => {
                                if reg_is(state, *regnum2, HeapValue::Bounded4GB) {
                                    return true;
                                }
                            },
                            MemArg::Imm(_, _, v) => return *v >= -0x1000 && *v <= 0xffff_ffff,
                        }
                    }
                    if reg_is(state, *regnum, HeapValue::HeapAddr) {
                        if let MemArg::Imm(_, _, v) = memarg2 {
                            return *v >= -0x1000 && *v <= 0xffff_ffff;
                        }
                    }
                },
                // the heap base plus two bounded values, or one and a constant
                MemArgs::Mem3Args(a, b, c) => {
                    if let MemArg::Reg(regnum, ValSize::Size64) = a {
                        return check_heap3(state, *regnum, b, c);
                    } else if let MemArg::Reg(regnum, ValSize::Size64) = b {
                        return check_heap3(state, *regnum, a, c);
                    }
                },
                _ => return false,
            }
        }
        false
    }

    fn check_metadata_access(&self, state: &HeapLattice, access: &Value) -> (r: bool)
        ensures
            r == spec_metadata_access(state@, *access),
    {
        if let Value::Mem(_size, memargs) = access {
            match memargs {
                // mem[globals_base]
                MemArgs::Mem1Arg(MemArg::Reg(regnum, ValSize::Size64)) => {
                    return reg_is(state, *regnum, HeapValue::GlobalsBase);
                },
                // mem[lucet_tables + 8]
                MemArgs::Mem2Args(MemArg::Reg(regnum, ValSize::Size64), MemArg::Imm(_, _, 8)) => {
                    return reg_is(state, *regnum, HeapValue::LucetTables);
                },
                MemArgs::Mem2Args(MemArg::Reg(regnum1, ValSize::Size64), MemArg::Reg(regnum2, ValSize::Size64)) => {
                    return reg_is(state, *regnum1, HeapValue::GuestTable0) || reg_is(
                        state,
                        *regnum2,
                        HeapValue::GuestTable0,
                    );
                },
                MemArgs::Mem3Args(
                    MemArg::Reg(regnum1, ValSize::Size64),
                    MemArg::Reg(regnum2, ValSize::Size64),
                    MemArg::Imm(_, _, 8),
                ) => {
                    return reg_is(state, *regnum1, HeapValue::GuestTable0) || reg_is(
                        state,
                        *regnum2,
                        HeapValue::GuestTable0,
                    );
                },
                _ => return false,
            }
        }
        false
    }

    fn check_jump_table_access(&self, _state: &HeapLattice, access: &Value) -> (r: bool)
        ensures
            r == spec_jump_table_access(*access),
    {
        if let Value::Mem(_size, memargs) = access {
            match memargs {
                MemArgs::MemScale(_, _, MemArg::Imm(_, _, 4)) => return true,
                _ => return false,
            }
        }
        false
    }

    fn check_mem_access(&self, state: &HeapLattice, access: &Value, loc_idx: &LocIdx) -> (r: bool)
        requires
            value_wf(*access),
        ensures
            r == spec_mem_access_ok(state@, *access),
    {
        // a stack slot
        if is_stack_access(access) {
            return true;
        }
        // a frame slot (rbp-based)
        if is_frame_access(access) {
            return true;
        }
        // based at a constant loaded from the program's data: trusted
        if self.check_ripconst_access(state, access) {
            return true;
        }
        if self.check_heap_access(state, access) {
            return true;
        }
        if self.check_metadata_access(state, access) {
            return true;
        }
        if self.check_global_access(state, access) {
            return true;
        }
        if self.check_jump_table_access(state, access) {
            return true;
        }
        false
    }
}

impl<'a> Checker<HeapLattice> for HeapChecker<'a> {
    type Analyzer = HeapAnalyzer;

    open spec fn spec_analyzer(&self) -> HeapAnalyzer {
        *self.analyzer
    }

    open spec fn spec_irmap(&self) -> Map<u64, IRBlock> {
        self.irmap@
    }

    open spec fn check_ok(&self, stmt: Stmt) -> bool {
        stmt_wf(stmt)
    }

    open spec fn spec_check_statement(&self, s: HeapView, stmt: Stmt, loc: LocIdx) -> bool {
        spec_heap_check(self.name_addr_map@, s, stmt, loc)
    }

    fn irmap(&self) -> (r: &IRMap) {
        self.irmap
    }

    fn check_supported(&self, stmt: &Stmt) -> (r: bool) {
        stmt_is_wf(stmt)
    }

    fn aexec(&self, state: &mut HeapLattice, ir_stmt: &Stmt, loc: &LocIdx) {
        self.analyzer.aexec(state, ir_stmt, loc)
    }

    /// A call whose target has no name in `name_addr_map` fails the check.
    fn check_statement(&self, state: &HeapLattice, ir_stmt: &Stmt, loc_idx: &LocIdx) -> (r: bool) {
        match ir_stmt {
            // 1. at each call rdi holds the heap base, unless it calls a math routine
            Stmt::Call(v) => {
                if !reg_is(state, X86Regs::Rdi, HeapValue::HeapBase) {
                    if let Value::Imm(_, _, dst) = v {
                        let addr = #[verifier::truncate] (loc_idx.addr as i64);
                        let target = #[verifier::truncate] (dst.wrapping_add(addr).wrapping_add(5) as u64);
                        match self.name_addr_map.get(&target) {
                            Some(name) => {
                                if !is_libcall(name) {
                                    return false;
                                }
                            },
                            None => return false,
                        }
                    } else {
                        return false;
                    }
                }
            },
            // 2. every load and store is safe
            Stmt::Unop(_, dst, src) => {
                if is_mem_access(dst) && !self.check_mem_access(state, dst, loc_idx) {
                    return false;
                }
                if is_mem_access(src) && !self.check_mem_access(state, src, loc_idx) {
                    return false;
                }
            },
            Stmt::Binop(_, dst, src1, src2) => {
                if is_mem_access(dst) && !self.check_mem_access(state, dst, loc_idx) {
                    return false;
                }
                if is_mem_access(src1) && !self.check_mem_access(state, src1, loc_idx) {
                    return false;
                }
                if is_mem_access(src2) && !self.check_mem_access(state, src2, loc_idx) {
                    return false;
                }
            },
            Stmt::Clear(dst, srcs) => {
                if is_mem_access(dst) && !self.check_mem_access(state, dst, loc_idx) {
                    return false;
                }
                let mut k: usize = 0;
                while k < srcs.len()
                    invariant
                        k <= srcs@.len(),
                        *ir_stmt == Stmt::Clear(*dst, *srcs),
                        *dst is Mem ==> spec_mem_access_ok(state@, *dst),
                        forall|i: int| 0 <= i < srcs@.len() ==> value_wf(#[trigger] srcs@[i]),
                        forall|i: int|
                            0 <= i < k ==> (#[trigger] srcs@[i] is Mem ==> spec_mem_access_ok(
                                state@,
                                srcs@[i],
                            )),
                    decreases srcs@.len() - k,
                {
                    if is_mem_access(&srcs[k]) && !self.check_mem_access(state, &srcs[k], loc_idx) {
                        assert(srcs@[k as int] is Mem && !spec_mem_access_ok(state@, srcs@[k as int]));
                        return false;
                    }
                    k = k + 1;
                }
            },
            _ => {},
        }
        true
    }
}

/// An access `[b + r + c]` with `b` a full 64-bit register is a heap access
/// exactly when `b` holds the heap base, `r` a value below 4 GiB and `c` is
/// at most `0xffff_ffff`, the constant coming before or after `r`; an index
/// whose value is unknown makes it no heap access.
pub proof fn lemma_heap_base_index_disp(
    s: HeapView,
    sz: ValSize,
    b: X86Regs,
    r: X86Regs,
    rsz: ValSize,
    t: ImmType,
    csz: ValSize,
    c: i64,
)
    ensures
        spec_heap_access(
            s,
            Value::Mem(sz, MemArgs::Mem3Args(MemArg::Reg(b, ValSize::Size64), MemArg::Reg(r, rsz), MemArg::Imm(t, csz, c))),
        ) <==> (rget(s, b) == Some(HeapValue::HeapBase) && rget(s, r) == Some(HeapValue::Bounded4GB) && c
            <= 0xffff_ffff),
        spec_heap_access(
            s,
            Value::Mem(sz, MemArgs::Mem3Args(MemArg::Reg(b, ValSize::Size64), MemArg::Imm(t, csz, c), MemArg::Reg(r, rsz))),
        ) <==> (rget(s, b) == Some(HeapValue::HeapBase) && rget(s, r) == Some(HeapValue::Bounded4GB) && c
            <= 0xffff_ffff),
        rget(s, r) != Some(HeapValue::Bounded4GB) ==> !spec_heap_access(
            s,
            Value::Mem(sz, MemArgs::Mem3Args(MemArg::Reg(b, ValSize::Size64), MemArg::Reg(r, rsz), MemArg::Imm(t, csz, c))),
        ),
{
}

/// An access `[b + r]` of two full registers is a heap access exactly when
/// `b` holds the heap base and `r` a value below 4 GiB.
pub proof fn lemma_heap_base_index(s: HeapView, sz: ValSize, b: X86Regs, r: X86Regs, rsz: ValSize)
    ensures
        spec_heap_access(
            s,
            Value::Mem(sz, MemArgs::Mem2Args(MemArg::Reg(b, ValSize::Size64), MemArg::Reg(r, rsz))),
        ) <==> (rget(s, b) == Some(HeapValue::HeapBase) && rget(s, r) == Some(HeapValue::Bounded4GB)),
{
}

} // verus!
