use crate::analyses::stack_analyzer::{stack_stmt_ok, Growth};
use crate::analyses::{irmap_ok, AbstractAnalyzer, AnalysisResult, StackAnalyzer};
use crate::checkers::{all_checked, check_state_at_statements, irmap_check_ok, Checker};
use crate::ir::types::{stmt_is_wf, stmt_wf, value_wf, IRBlock, IRMap, MemArgs, Stmt, Value};
use crate::lattices::reachingdefslattice::LocIdx;
use crate::lattices::stackgrowthlattice::StackGrowthLattice;
use vstd::prelude::*;

verus! {

/// Checks that every stack access stays within the stack that was probed and
/// that the stack is restored at every return.
pub struct StackChecker<'a> {
    pub irmap: &'a IRMap,
    pub analyzer: &'a StackAnalyzer,
}

/// Whether a memory access of the form `[r]` or `[r + c]` names a constant
/// offset (any access the checker reads an offset from).
pub open spec fn offset_is_imm(v: Value) -> bool {
    v matches Value::Mem(_, MemArgs::Mem2Args(_, m2)) ==> m2 is Imm
}

/// Whether a statement's stack and frame accesses can be checked.
pub open spec fn stack_check_ok(stmt: Stmt) -> bool {
    &&& stmt_wf(stmt)
    &&& stmt matches Stmt::Unop(_, dst, src) ==> {
        &&& (dst.spec_is_stack_access() || dst.spec_is_frame_access()) ==> offset_is_imm(dst)
        &&& (src.spec_is_stack_access() || src.spec_is_frame_access()) ==> offset_is_imm(src)
    }
}

fn offset_imm_ok(v: &Value) -> (r: bool)
    ensures
        r == offset_is_imm(*v),
{
    match *v {
        Value::Mem(_, MemArgs::Mem2Args(_, m2)) => m2.is_imm(),
        _ => true,
    }
}

fn stack_check_supported(stmt: &Stmt) -> (r: bool)
    ensures
        r == stack_check_ok(*stmt),
{
    if !stmt_is_wf(stmt) {
        return false;
    }
    match stmt {
        Stmt::Unop(_, dst, src) => {
            let dst_ok = !(dst.is_stack_access() || dst.is_frame_access()) || offset_imm_ok(dst);
            let src_ok = !(src.is_stack_access() || src.is_frame_access()) || offset_imm_ok(src);
            dst_ok && src_ok
        },
        _ => true,
    }
}

/// Whether an access `[r]` or `[r + c]`, with `r` at `base` below the stack
/// pointer at entry, lies in `[-probestack, limit)`.
pub open spec fn access_in_bounds(base: i64, probestack: i64, access: Value, limit: int) -> bool {
    match access {
        Value::Mem(_, MemArgs::Mem1Arg(_)) => -probestack <= base && base < limit,
        Value::Mem(_, MemArgs::Mem2Args(_, m2)) => -probestack <= base + m2->Imm_2 && base + m2->Imm_2
            < limit,
        _ => false,
    }
}

/// Whether a statement is stack safe: the growth is known and not positive;
/// stack writes go below the stack pointer at entry and reads at most 8192
/// bytes above it, both within the probed extent, where frame accesses count
/// from the saved growth; and the growth is back to 0 at a return.
pub open spec fn spec_stack_check(s: Growth, stmt: Stmt) -> bool {
    match s {
        None => false,
        Some((g, p, rbp)) => {
            &&& g <= 0
            &&& stmt matches Stmt::Unop(_, dst, src) ==> {
                &&& dst.spec_is_stack_access() ==> access_in_bounds(g, p, dst, 0)
                &&& dst.spec_is_frame_access() ==> access_in_bounds(rbp, p, dst, 0)
                &&& if src.spec_is_stack_access() {
                    access_in_bounds(g, p, src, 8192)
                } else if src.spec_is_frame_access() {
                    access_in_bounds(rbp, p, src, 8192)
                } else {
                    true
                }
            }
            &&& stmt is Ret ==> g == 0
        },
    }
}

/// Whether an access stays in bounds (see `access_in_bounds`).
fn check_access(base: i64, probestack: i64, access: &Value, limit: i64) -> (r: bool)
    requires
        offset_is_imm(*access),
    ensures
        r == access_in_bounds(base, probestack, *access, limit as int),
{
    match *access {
        Value::Mem(_, MemArgs::Mem1Arg(_)) => {
            -(probestack as i128) <= base as i128 && (base as i128) < limit as i128
        },
        Value::Mem(_, MemArgs::Mem2Args(_, memarg2)) => {
            let offset = memarg2.to_imm();
            let a = base as i128 + offset as i128;
            -(probestack as i128) <= a && a < limit as i128
        },
        _ => false,
    }
}

/// Runs the stack check on the result of the stack-growth analysis.
pub fn check_stack(result: AnalysisResult<StackGrowthLattice>, irmap: &IRMap, analyzer: &StackAnalyzer) -> (r: bool)
    requires
        irmap_ok(analyzer, irmap@),
        irmap_check_ok(&StackChecker { irmap: irmap, analyzer: analyzer }),
        forall|p: u64| #[trigger] result@.contains_key(p) ==> irmap@.contains_key(p),
    ensures
        r == all_checked(&StackChecker { irmap: irmap, analyzer: analyzer }, result@),
{
    let checker = StackChecker { irmap: irmap, analyzer: analyzer };
    checker.check(result)
}

impl<'a> StackChecker<'a> {
    pub fn check(&self, result: AnalysisResult<StackGrowthLattice>) -> (r: bool)
        requires
            irmap_ok(self.analyzer, self.irmap@),
            irmap_check_ok(self),
            forall|p: u64| #[trigger] result@.contains_key(p) ==> self.irmap@.contains_key(p),
        ensures
            r == all_checked(self, result@),
    {
        check_state_at_statements(self, result)
    }
}

impl<'a> Checker<StackGrowthLattice> for StackChecker<'a> {
    type Analyzer = StackAnalyzer;

    open spec fn spec_analyzer(&self) -> StackAnalyzer {
        *self.analyzer
    }

    open spec fn spec_irmap(&self) -> Map<u64, IRBlock> {
        self.irmap@
    }

    open spec fn check_ok(&self, stmt: Stmt) -> bool {
        stack_check_ok(stmt)
    }

    open spec fn spec_check_statement(&self, s: Growth, stmt: Stmt, loc: LocIdx) -> bool {
        spec_stack_check(s, stmt)
    }

    fn irmap(&self) -> (r: &IRMap) {
        self.irmap
    }

    fn check_supported(&self, stmt: &Stmt) -> (r: bool) {
        stack_check_supported(stmt)
    }

    fn aexec(&self, state: &mut StackGrowthLattice, ir_stmt: &Stmt, loc: &LocIdx) {
        self.analyzer.aexec(state, ir_stmt, loc)
    }

    fn check_statement(&self, state: &StackGrowthLattice, ir_stmt: &Stmt, loc_idx: &LocIdx) -> (r: bool) {
        // 1. the stack growth is known and never positive
        let (stackgrowth, probestack, rbp) = match state.v {
            None => return false,
            Some(t) => t,
        };
        if stackgrowth > 0 {
            return false;
        }
        // 2. reads and writes are in bounds
        if let Stmt::Unop(_, dst, src) = ir_stmt {
            if dst.is_stack_access() && !check_access(stackgrowth, probestack, dst, 0) {
                return false;
            }
            if dst.is_frame_access() && !check_access(rbp, probestack, dst, 0) {
                return false;
            }
            if src.is_stack_access() {
                if !check_access(stackgrowth, probestack, src, 8192) {
                    return false;
                }
            } else if src.is_frame_access() {
                if !check_access(rbp, probestack, src, 8192) {
                    return false;
                }
            }
        }
        // 3. the growth is 0 at every return
        if let Stmt::Ret = ir_stmt {
            if stackgrowth != 0 {
                return false;
            }
        }
        true
    }
}

} // verus!
