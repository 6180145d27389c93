use crate::analyses::reaching_defs::{ReachLattice, ReachingDefnAnalyzer};
use crate::analyses::{
    analyze_block, block_ok, block_supported, exec_block, same_state_to_all, state_to_all,
    AbstractAnalyzer, AnalysisResult,
};
use crate::ir::types::{
    all_regs, get_rsp_offset, reg_index, spec_bytes, spec_rsp_offset, stmt_is_wf, stmt_wf,
    Binopcode, IRBlock, IRMap, MemArg, MemArgs, Stmt, ValSize, Value, X86Regs, NUM_REGS,
};
use crate::lattices::reachingdefslattice::{LocIdx, ReachingDefnLattice};
use crate::lattices::regslattice::{regs_get, RegsView};
use crate::lattices::stacklattice::{stack_get, StackSlot, StackView};
use crate::lattices::switchlattice::{SwitchLattice, SwitchValue, SwitchValueLattice, SwitchView};
use crate::lattices::{
    can_adjust, can_get, can_set, is_adjustable, is_gettable, is_settable, var_adjust, var_set,
    ConstLattice, Lattice, StateView,
};
use crate::loaders::types::VwMetadata;
use crate::utils::map_keys;
use vstd::prelude::*;

verus! {

broadcast use vstd::std_specs::hash::group_hash_axioms;

/// The jump-table analysis: follows the base address of a table, the index
/// bounded by a comparison, the entry loaded from the table and the target
/// computed from it.
pub struct SwitchAnalyzer<'a> {
    pub metadata: VwMetadata,
    /// The reaching definitions at the start of each block.
    pub reaching_defs: AnalysisResult<ReachLattice>,
    pub reaching_analyzer: ReachingDefnAnalyzer<'a>,
}

/// The abstract registers and stack of the jump-table analysis.
pub type SwitchStateView = StateView<Option<SwitchView>>;

/// What the analysis knows of a value loaded from memory: a stack slot's
/// value, or the entry `[base + index * 4]` of a table at a known base with
/// a bounded index.
pub open spec fn switch_aeval_unop_mem(s: SwitchStateView, m: MemArgs, sz: ValSize) -> Option<SwitchView> {
    match spec_rsp_offset(m) {
        Some(o) => stack_get(s.1, o, spec_bytes(sz), None),
        None => match m {
            MemArgs::MemScale(MemArg::Reg(r1, _), MemArg::Reg(r2, _), MemArg::Imm(_, _, scale)) => if scale
                == 4 {
                match (regs_get(s.0, r1, None), regs_get(s.0, r2, None)) {
                    (Some(SwitchView::SwitchBase(base)), Some(SwitchView::UpperBound(bound))) => Some(
                        SwitchView::JmpOffset(base, bound),
                    ),
                    _ => None,
                }
            } else {
                None
            },
            _ => None,
        },
    }
}

/// What the analysis knows of the value read from an operand: a zero is a
/// bound of one entry, any other constant a table base.
pub open spec fn switch_aeval_unop(s: SwitchStateView, v: Value) -> Option<SwitchView> {
    match v {
        Value::Mem(sz, m) => switch_aeval_unop_mem(s, m, sz),
        Value::Reg(r, _) => regs_get(s.0, r, None),
        Value::Imm(_, _, i) => if i == 0 {
            Some(SwitchView::UpperBound(1))
        } else {
            Some(SwitchView::SwitchBase(i as u32))
        },
        Value::RIPConst => None,
    }
}

/// What the analysis knows of `src1 op src2`: a table base plus an entry of
/// that table is a jump target.
pub open spec fn switch_aeval_binop(s: SwitchStateView, opcode: Binopcode, src1: Value, src2: Value) -> Option<SwitchView> {
    if opcode is Add && src1 is Reg && src2 is Reg {
        match (regs_get(s.0, src1->Reg_0, None), regs_get(s.0, src2->Reg_0, None)) {
            (Some(SwitchView::SwitchBase(base)), Some(SwitchView::JmpOffset(_, offset))) => Some(
                SwitchView::JmpTarget(base, offset),
            ),
            (Some(SwitchView::JmpOffset(_, offset)), Some(SwitchView::SwitchBase(base))) => Some(
                SwitchView::JmpTarget(base, offset),
            ),
            _ => None,
        }
    } else {
        None
    }
}

/// The register and the constant of a comparison `cmp reg, imm` (either way
/// round).
pub open spec fn compared_reg_imm(src1: Value, src2: Value) -> Option<(X86Regs, i64)> {
    match (src1, src2) {
        (Value::Reg(r, _), Value::Imm(_, _, i)) => Some((r, i)),
        (Value::Imm(_, _, i), Value::Reg(r, _)) => Some((r, i)),
        _ => None,
    }
}

/// `s` with the zero flag set to `v`.
pub open spec fn set_zf(s: SwitchStateView, v: Option<SwitchView>) -> SwitchStateView {
    (s.0.insert(reg_index(X86Regs::Zf), (64u32, v)), s.1)
}

/// The definitions that reach register index `k` in `defs`.
pub open spec fn defs_of(defs: RegsView<Set<(u64, u32)>>, k: u8) -> Set<(u64, u32)> {
    if defs.contains_key(k) {
        defs[k].1
    } else {
        Set::empty()
    }
}

impl<'a> SwitchAnalyzer<'a> {
    /// The flag set by `cmp r, imm` at `loc`: the bound, the register, and
    /// the definitions of the register that reach the comparison; unknown
    /// when the definitions cannot be found.
    pub open spec fn spec_compare_flag(&self, r: X86Regs, imm: i64, loc: LocIdx) -> Option<SwitchView> {
        match self.reaching_analyzer.spec_fetch_def(self.reaching_defs@, loc) {
            Some(d) => Some(SwitchView::ZF(imm as u32, r, regs_get(d.0, r, Set::empty()))),
            None => None,
        }
    }

    pub open spec fn spec_aexec_binop(
        &self,
        s: SwitchStateView,
        opcode: Binopcode,
        dst: Value,
        src1: Value,
        src2: Value,
        loc: LocIdx,
    ) -> SwitchStateView {
        if opcode is Cmp {
            match compared_reg_imm(src1, src2) {
                Some((r, i)) => set_zf(s, self.spec_compare_flag(r, i, loc)),
                None => s,
            }
        } else if opcode is Test {
            set_zf(s, None)
        } else {
            var_set(s, dst, switch_aeval_binop(s, opcode, src1, src2), None)
        }
    }

    /// The reaching definitions at the end of block `addr`.
    pub open spec fn spec_block_defs(&self, irmap: Map<u64, IRBlock>, addr: u64) -> Option<
        (RegsView<Set<(u64, u32)>>, StackView<Set<(u64, u32)>>),
    > {
        if self.reaching_defs@.contains_key(addr) && irmap.contains_key(addr) && block_ok(
            &self.reaching_analyzer,
            irmap[addr]@,
        ) {
            Some(
                exec_block(
                    &self.reaching_analyzer,
                    self.reaching_defs@[addr]@,
                    irmap[addr]@,
                    irmap[addr]@.len(),
                ),
            )
        } else {
            None
        }
    }
}

/// Whether register index `k` (one of those below `n`, the first excepted)
/// has the same nonempty definitions as the compared register `r`.
pub open spec fn bounded_reg(defs: RegsView<Set<(u64, u32)>>, r: X86Regs, checked: Set<(u64, u32)>, k: u8, n: int) -> bool {
    &&& 1 <= k < n
    &&& k != reg_index(r)
    &&& defs_of(defs, k) != Set::<(u64, u32)>::empty()
    &&& defs_of(defs, k) == checked
}

/// The registers after the bound is given to every register (of index
/// below `n`) that holds the compared value.
pub open spec fn bound_regs(
    regs: RegsView<Option<SwitchView>>,
    defs: RegsView<Set<(u64, u32)>>,
    r: X86Regs,
    checked: Set<(u64, u32)>,
    bound: u32,
    n: int,
) -> RegsView<Option<SwitchView>> {
    Map::new(
        |k: u8| regs.contains_key(k) || bounded_reg(defs, r, checked, k, n),
        |k: u8|
            if bounded_reg(defs, r, checked, k, n) {
                (64u32, Some(SwitchView::UpperBound(bound)))
            } else {
                regs[k]
            },
    )
}

/// Whether stack slot `k` (one of `ks`) holds the compared value.
pub open spec fn bounded_slot(defs: Map<i64, (u32, Set<(u64, u32)>)>, checked: Set<(u64, u32)>, k: i64, ks: Set<i64>) -> bool {
    &&& ks.contains(k)
    &&& defs.contains_key(k)
    &&& checked != Set::<(u64, u32)>::empty()
    &&& defs[k].1 == checked
}

/// The stack after the bound is given to every slot (of `ks`) that holds the
/// compared value.
pub open spec fn bound_stack(
    stack: StackView<Option<SwitchView>>,
    defs: Map<i64, (u32, Set<(u64, u32)>)>,
    checked: Set<(u64, u32)>,
    bound: u32,
    ks: Set<i64>,
) -> StackView<Option<SwitchView>> {
    (
        stack.0,
        Map::new(
            |k: i64| stack.1.contains_key(k) || bounded_slot(defs, checked, k, ks),
            |k: i64|
                if bounded_slot(defs, checked, k, ks) {
                    (defs[k].0, Some(SwitchView::UpperBound(bound)))
                } else {
                    stack.1[k]
                },
        ),
    )
}

impl<'a> SwitchAnalyzer<'a> {
    /// The state on the fall-through edge of a conditional branch that
    /// follows `cmp r, bound`: `r` is below the bound, and so is every
    /// register and stack slot that holds the same definitions as `r` at
    /// the end of the block.
    pub open spec fn spec_not_branch_state(&self, irmap: Map<u64, IRBlock>, s: SwitchStateView, addr: u64) -> SwitchStateView {
        match regs_get(s.0, X86Regs::Zf, None) {
            Some(SwitchView::ZF(bound, r, checked)) => {
                let s1 = (s.0.insert(reg_index(r), (64u32, Some(SwitchView::UpperBound(bound)))), s.1);
                match self.spec_block_defs(irmap, addr) {
                    Some(d) => (
                        bound_regs(s1.0, d.0, r, checked, bound, NUM_REGS as int),
                        bound_stack(s1.1, d.1.1, checked, bound, d.1.1.dom()),
                    ),
                    None => s1,
                }
            },
            _ => s,
        }
    }
}

/// Whether the analysis can step over a statement.
pub open spec fn switch_stmt_ok(stmt: Stmt) -> bool {
    &&& stmt_wf(stmt)
    &&& match stmt {
        Stmt::Clear(dst, _) => can_set(dst),
        Stmt::Unop(_, dst, src) => can_set(dst) && can_get(src),
        Stmt::Binop(opcode, dst, src1, src2) => (opcode is Cmp || opcode is Test || can_set(dst))
            && can_adjust(opcode, dst, src1, src2),
        _ => true,
    }
}

impl<'a> AbstractAnalyzer<SwitchLattice> for SwitchAnalyzer<'a> {
    open spec fn spec_init_state(&self) -> SwitchStateView {
        SwitchLattice::spec_bot()
    }

    open spec fn stmt_ok(&self, stmt: Stmt) -> bool {
        switch_stmt_ok(stmt)
    }

    open spec fn spec_aexec(&self, s: SwitchStateView, stmt: Stmt, loc: LocIdx) -> SwitchStateView {
        match stmt {
            Stmt::Clear(dst, _) => var_set(s, dst, None, None),
            Stmt::Unop(_, dst, src) => var_set(s, dst, switch_aeval_unop(s, src), None),
            Stmt::Binop(opcode, dst, src1, src2) => var_adjust(
                self.spec_aexec_binop(s, opcode, dst, src1, src2, loc),
                opcode,
                dst,
                src1,
                src2,
            ),
            Stmt::Call(_) => (Map::empty(), s.1),
            _ => s,
        }
    }

    /// A conditional branch (two successors) splits the state: the first
    /// successor, reached when the comparison fails, learns the bound; both
    /// forget the flag. Otherwise every successor gets the state.
    open spec fn spec_process_branch(
        &self,
        irmap: Map<u64, IRBlock>,
        s: SwitchStateView,
        succs: Seq<u64>,
        addr: u64,
    ) -> Seq<(u64, SwitchStateView)> {
        if succs.len() == 2 {
            seq![
                (succs[0], set_zf(self.spec_not_branch_state(irmap, s, addr), None)),
                (succs[1], set_zf(s, None)),
            ]
        } else {
            same_state_to_all(s, succs)
        }
    }

    fn init_state(&self) -> (r: SwitchLattice) {
        SwitchLattice::bot()
    }

    fn supports(&self, stmt: &Stmt) -> (r: bool) {
        if !stmt_is_wf(stmt) {
            return false;
        }
        match stmt {
            Stmt::Clear(dst, _) => is_settable(dst),
            Stmt::Unop(_, dst, src) => is_settable(dst) && is_gettable(src),
            Stmt::Binop(opcode, dst, src1, src2) => (matches!(*opcode, Binopcode::Cmp) || matches!(
                *opcode,
                Binopcode::Test
            ) || is_settable(dst)) && is_adjustable(opcode, dst, src1, src2),
            _ => true,
        }
    }

    fn process_branch(
        &self,
        irmap: &IRMap,
        in_state: &SwitchLattice,
        succ_addrs: &Vec<u64>,
        addr: &u64,
    ) -> (r: Vec<(u64, SwitchLattice)>) {
        if succ_addrs.len() == 2 {
            let mut not_branch_state = self.not_branch_state(irmap, in_state, *addr);
            let mut branch_state = in_state.duplicate();
            branch_state.regs.set_reg(X86Regs::Zf, ValSize::Size64, ConstLattice { v: None });
            not_branch_state.regs.set_reg(X86Regs::Zf, ValSize::Size64, ConstLattice { v: None });
            let r = vec![(succ_addrs[0], not_branch_state), (succ_addrs[1], branch_state)];
            proof {
                assert(crate::analyses::branch_views(r@) =~= self.spec_process_branch(
                    irmap@,
                    in_state@,
                    succ_addrs@,
                    *addr,
                ));
            }
            r
        } else {
            state_to_all(in_state, succ_addrs)
        }
    }

    fn aexec(&self, in_state: &mut SwitchLattice, ir_instr: &Stmt, loc_idx: &LocIdx) {
        match ir_instr {
            Stmt::Clear(dst, _srcs) => in_state.set_to_bot(dst),
            Stmt::Unop(_, dst, src) => {
                let v = self.aeval_unop(in_state, src);
                in_state.set(dst, v);
            },
            Stmt::Binop(opcode, dst, src1, src2) => {
                self.aexec_binop(in_state, opcode, dst, src1, src2, loc_idx);
                in_state.adjust_stack_offset(opcode, dst, src1, src2)
            },
            Stmt::Call(_) => in_state.on_call(),
            _ => {},
        }
    }
}

impl<'a> SwitchAnalyzer<'a> {
    fn aeval_unop_mem(&self, in_state: &SwitchLattice, memargs: &MemArgs, memsize: &ValSize) -> (r: SwitchValueLattice)
        requires
            crate::ir::types::memargs_wf(*memargs),
            can_get(Value::Mem(*memsize, *memargs)),
        ensures
            r@ == switch_aeval_unop_mem(in_state@, *memargs, *memsize),
    {
        if let Some(offset) = get_rsp_offset(memargs) {
            return in_state.stack.get(offset, memsize.into_bytes());
        }
        if let MemArgs::MemScale(MemArg::Reg(regnum1, size1), MemArg::Reg(regnum2, size2), MemArg::Imm(_, _, immval)) = memargs {
            if *immval == 4 {
                let base = in_state.regs.get_reg(*regnum1, *size1).v;
                let bound = in_state.regs.get_reg(*regnum2, *size2).v;
                if let (Some(SwitchValue::SwitchBase(b)), Some(SwitchValue::UpperBound(u))) = (base, bound) {
                    return ConstLattice::new(SwitchValue::JmpOffset(b, u));
                }
            }
        }
        ConstLattice { v: None }
    }

    /// What the analysis knows of the value read from an operand.
    pub fn aeval_unop(&self, in_state: &SwitchLattice, src: &Value) -> (r: SwitchValueLattice)
        requires
            crate::ir::types::value_wf(*src),
            can_get(*src),
        ensures
            r@ == switch_aeval_unop(in_state@, *src),
    {
        match src {
            Value::Mem(memsize, memargs) => self.aeval_unop_mem(in_state, memargs, memsize),
            Value::Reg(regnum, size) => in_state.regs.get_reg(*regnum, *size),
            Value::Imm(_, _, immval) => {
                if *immval == 0 {
                    ConstLattice::new(SwitchValue::UpperBound(1))
                } else {
                    ConstLattice::new(SwitchValue::SwitchBase(*immval as u32))
                }
            },
            Value::RIPConst => ConstLattice { v: None },
        }
    }

    /// What the analysis knows of `src1 op src2`.
    pub fn aeval_binop(&self, in_state: &SwitchLattice, opcode: &Binopcode, src1: &Value, src2: &Value) -> (r: SwitchValueLattice)
        ensures
            r@ == switch_aeval_binop(in_state@, *opcode, *src1, *src2),
    {
        if let Binopcode::Add = opcode {
            if let (Value::Reg(regnum1, size1), Value::Reg(regnum2, size2)) = (src1, src2) {
                let v1 = in_state.regs.get_reg(*regnum1, *size1).v;
                let v2 = in_state.regs.get_reg(*regnum2, *size2).v;
                return match (v1, v2) {
                    (Some(SwitchValue::SwitchBase(base)), Some(SwitchValue::JmpOffset(_, offset))) => ConstLattice::new(
                        SwitchValue::JmpTarget(base, offset),
                    ),
                    (Some(SwitchValue::JmpOffset(_, offset)), Some(SwitchValue::SwitchBase(base))) => ConstLattice::new(
                        SwitchValue::JmpTarget(base, offset),
                    ),
                    _ => ConstLattice { v: None },
                };
            }
        }
        ConstLattice { v: None }
    }

    fn aexec_binop(
        &self,
        in_state: &mut SwitchLattice,
        opcode: &Binopcode,
        dst: &Value,
        src1: &Value,
        src2: &Value,
        loc_idx: &LocIdx,
    )
        requires
            switch_stmt_ok(Stmt::Binop(*opcode, *dst, *src1, *src2)),
        ensures
            final(in_state)@ == self.spec_aexec_binop(old(in_state)@, *opcode, *dst, *src1, *src2, *loc_idx),
    {
        match opcode {
            Binopcode::Cmp => {
                let reg_imm = match (src1, src2) {
                    (Value::Reg(regnum, _), Value::Imm(_, _, imm)) => Some((*regnum, *imm)),
                    (Value::Imm(_, _, imm), Value::Reg(regnum, _)) => Some((*regnum, *imm)),
                    _ => None,
                };
                if let Some((regnum, imm)) = reg_imm {
                    let flag = match self.reaching_analyzer.fetch_def(&self.reaching_defs, loc_idx) {
                        Some(reg_def) => {
                            let src_loc = reg_def.regs.get_reg(regnum, ValSize::Size64);
                            ConstLattice::new(SwitchValue::ZF(imm as u32, regnum, src_loc))
                        },
                        None => ConstLattice { v: None },
                    };
                    in_state.regs.set_reg(X86Regs::Zf, ValSize::Size64, flag);
                }
            },
            Binopcode::Test => {
                in_state.regs.set_reg(X86Regs::Zf, ValSize::Size64, ConstLattice { v: None });
            },
            _ => {
                let v = self.aeval_binop(in_state, opcode, src1, src2);
                in_state.set(dst, v);
            },
        }
    }

    /// The state on the fall-through edge (see `spec_not_branch_state`),
    /// before the flag is forgotten.
    fn not_branch_state(&self, irmap: &IRMap, in_state: &SwitchLattice, addr: u64) -> (r: SwitchLattice)
        ensures
            r@ == self.spec_not_branch_state(irmap@, in_state@, addr),
    {
        let mut state = in_state.duplicate();
        let zf = in_state.regs.get_reg(X86Regs::Zf, ValSize::Size64);
        let (bound, regnum, checked_defs) = match zf.v {
            Some(SwitchValue::ZF(bound, regnum, checked_defs)) => (bound, regnum, checked_defs),
            _ => return state,
        };
        state.regs.set_reg(regnum, ValSize::Size64, ConstLattice::new(SwitchValue::UpperBound(bound)));
        let defs_state = match (self.reaching_defs.get(&addr), irmap.get(&addr)) {
            (Some(d), Some(b)) => {
                if !block_supported(&self.reaching_analyzer, b) {
                    return state;
                }
                analyze_block(&self.reaching_analyzer, d, b)
            },
            _ => return state,
        };
        let ghost s1 = state@;
        let ghost d = defs_state@;
        let ghost checked = checked_defs@;
        // propagate the bound to the registers with the same reaching definitions
        let regs = all_regs();
        let mut i: usize = 0;
        assert(state@.0 =~= bound_regs(s1.0, d.0, regnum, checked, bound, 1));
        while i < regs.len()
            invariant
                i <= regs@.len(),
                regs@.len() == NUM_REGS - 1,
                forall|j: int| 0 <= j < regs@.len() ==> #[trigger] regs@[j] == crate::ir::types::reg_of_index((j + 1) as u8),
                state@.0 == bound_regs(s1.0, d.0, regnum, checked, bound, i + 1),
                state@.1 == s1.1,
                defs_state@ == d,
                checked_defs@ == checked,
            decreases regs@.len() - i,
        {
            let idx = regs[i];
            proof {
                crate::ir::types::lemma_index_of_reg_of_index((i + 1) as u8);
            }
            if idx != regnum {
                let reg_def = defs_state.regs.get_reg(idx, ValSize::Size64);
                if !reg_def.is_empty() && reg_def.same(&checked_defs) {
                    state.regs.set_reg(idx, ValSize::Size64, ConstLattice::new(SwitchValue::UpperBound(bound)));
                }
            }
            proof {
                assert(state@.0 =~= bound_regs(s1.0, d.0, regnum, checked, bound, i + 2));
            }
            i = i + 1;
        }
        // propagate the bound to the stack slots with the same reaching definitions
        let keys = map_keys(&defs_state.stack.map);
        let ghost s2 = state@;
        let mut k: usize = 0;
        assert(state@.1 =~= bound_stack(s2.1, d.1.1, checked, bound, Set::empty()));
        while k < keys.len()
            invariant
                k <= keys@.len(),
                keys@.to_set() == defs_state.stack.map@.dom(),
                keys@.no_duplicates(),
                state@.0 == s2.0,
                state@.1 == bound_stack(s2.1, d.1.1, checked, bound, keys@.take(k as int).to_set()),
                defs_state@ == d,
                checked_defs@ == checked,
            decreases keys@.len() - k,
        {
            let key = keys[k];
            assert(keys@.to_set().contains(key));
            let slot = defs_state.stack.map.get(&key).unwrap();
            let ghost before = state@.1;
            assert(d.1.1.contains_key(key) && d.1.1[key] == (slot.size, slot.value@));
            if !checked_defs.is_empty() && slot.value.same(&checked_defs) {
                let size = slot.size;
                let new_slot = StackSlot { size: size, value: ConstLattice::new(SwitchValue::UpperBound(bound)) };
                state.stack.map.insert(key, new_slot);
                assert(state@.1.1 =~= before.1.insert(key, (size, Some(SwitchView::UpperBound(bound)))));
            }
            proof {
                assert(keys@.take(k + 1).to_set() =~= keys@.take(k as int).to_set().insert(key)) by {
                    assert(keys@.take(k + 1) =~= keys@.take(k as int).push(key));
                    keys@.take(k as int).lemma_push_to_set_commute(key);
                }
                assert(state@.1 =~= bound_stack(s2.1, d.1.1, checked, bound, keys@.take(k + 1).to_set()));
            }
            k = k + 1;
        }
        proof {
            assert(keys@.take(k as int) =~= keys@);
            assert(d.1.1.dom() =~= keys@.to_set());
            assert(s2.0 =~= bound_regs(s1.0, d.0, regnum, checked, bound, NUM_REGS as int));
        }
        state
    }
}

/// Adding a register that holds a jump table's base to one that holds an
/// entry of a table gives the jump target at that entry, whichever of the two
/// operands comes first; the sum is the same either way round.
pub proof fn lemma_switch_add_base_and_entry(
    s: SwitchStateView,
    r1: X86Regs,
    sz1: ValSize,
    r2: X86Regs,
    sz2: ValSize,
    base: u32,
    bound: u32,
    entry: u32,
)
    requires
        regs_get(s.0, r1, None) == Some(SwitchView::SwitchBase(base)),
        regs_get(s.0, r2, None) == Some(SwitchView::JmpOffset(bound, entry)),
    ensures
        switch_aeval_binop(s, Binopcode::Add, Value::Reg(r1, sz1), Value::Reg(r2, sz2)) == Some(
            SwitchView::JmpTarget(base, entry),
        ),
        switch_aeval_binop(s, Binopcode::Add, Value::Reg(r2, sz2), Value::Reg(r1, sz1)) == Some(
            SwitchView::JmpTarget(base, entry),
        ),
{
}

/// The sum of two registers does not depend on their order.
pub proof fn lemma_switch_add_commutes(s: SwitchStateView, a: Value, b: Value)
    requires
        a is Reg,
        b is Reg,
    ensures
        switch_aeval_binop(s, Binopcode::Add, a, b) == switch_aeval_binop(s, Binopcode::Add, b, a),
{
}

} // verus!
