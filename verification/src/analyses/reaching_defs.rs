use crate::analyses::{
    irmap_ok, irmap_supported, run_worklist, same_state_to_all, spec_run_worklist, views_of, spec_state_at, state_at, state_to_all,
    AbstractAnalyzer, AnalysisResult,
};
use crate::ir::cfg::VwCfg;
use crate::ir::types::{
    all_regs, reg_index, reg_of_index, stmt_is_wf, stmt_wf, Binopcode, IRBlock, IRMap, Stmt,
    Unopcode, ValSize, Value, NUM_REGS,
};
use crate::lattices::reachingdefslattice::{loc, singleton, LocIdx, ReachingDefnLattice};
use crate::lattices::regslattice::RegsView;
use crate::lattices::stacklattice::stack_update;
use crate::lattices::{
    can_adjust, can_get, can_set, is_adjustable, is_gettable, is_settable, var_adjust, var_get,
    var_set, Lattice, StateView, VariableState,
};
use crate::loaders::types::VwMetadata;
use vstd::prelude::*;

verus! {

/// The reaching definitions of every register and stack slot.
pub type ReachLattice = VariableState<ReachingDefnLattice>;

/// The abstract registers and stack of the reaching-definitions analysis.
pub type ReachView = StateView<Set<(u64, u32)>>;

/// The reaching-definitions analysis: for each register and stack slot, the
/// statements whose writes may reach it.
pub struct ReachingDefnAnalyzer<'a> {
    pub cfg: &'a VwCfg,
    pub irmap: &'a IRMap,
}

/// The placeholder address of the definitions that precede the function.
pub open spec fn entry_addr() -> u64 {
    0xdeadbeef
}

/// Every register but `rax` defined before the function, each at its own
/// placeholder statement.
pub open spec fn entry_regs() -> RegsView<Set<(u64, u32)>> {
    Map::new(|k: u8| 1 <= k < NUM_REGS, |k: u8| (64u32, set![(entry_addr(), k as u32)]))
}

/// The caller's stack slots defined before the function.
pub open spec fn entry_stack() -> (i64, Map<i64, (u32, Set<(u64, u32)>)>) {
    let e = Set::<(u64, u32)>::empty();
    let s0 = (0i64, Map::<i64, (u32, Set<(u64, u32)>)>::empty());
    let s1 = stack_update(s0, 0x8, set![(entry_addr(), 15u32)], 4, e);
    let s2 = stack_update(s1, 0x10, set![(entry_addr(), 16u32)], 4, e);
    let s3 = stack_update(s2, 0x18, set![(entry_addr(), 17u32)], 4, e);
    let s4 = stack_update(s3, 0x20, set![(entry_addr(), 18u32)], 4, e);
    stack_update(s4, 0x28, set![(entry_addr(), 18u32)], 4, e)
}

/// The definitions that a read of `src` carries to its destination: those of
/// the source, or the statement itself when the source has none.
pub open spec fn copied_defs(s: ReachView, src: Value, loc: LocIdx) -> Set<(u64, u32)> {
    match var_get(s, src, Set::empty()) {
        Some(v) => if v == Set::<(u64, u32)>::empty() {
            set![(loc.addr, loc.idx)]
        } else {
            v
        },
        None => set![(loc.addr, loc.idx)],
    }
}

/// The reaching definitions after one statement: a write is defined by the
/// statement, a move copies the source's definitions, and a call defines
/// every register but `rax` anew.
pub open spec fn reach_aexec(s: ReachView, stmt: Stmt, loc: LocIdx) -> ReachView {
    let here = set![(loc.addr, loc.idx)];
    match stmt {
        Stmt::Clear(dst, _) => var_set(s, dst, here, Set::empty()),
        Stmt::Unop(_, dst, src) => var_set(s, dst, copied_defs(s, src, loc), Set::empty()),
        Stmt::Binop(opcode, dst, src1, src2) => if opcode is Cmp || opcode is Test {
            s
        } else {
            var_set(var_adjust(s, opcode, dst, src1, src2), dst, here, Set::empty())
        },
        Stmt::Call(_) => (s.0.union_prefer_right(entry_regs()), s.1),
        _ => s,
    }
}

/// Whether the analysis can step over a statement.
pub open spec fn reach_stmt_ok(stmt: Stmt) -> bool {
    &&& stmt_wf(stmt)
    &&& match stmt {
        Stmt::Clear(dst, _) => can_set(dst),
        Stmt::Unop(_, dst, src) => can_set(dst) && can_get(src),
        Stmt::Binop(opcode, dst, src1, src2) => (opcode is Cmp || opcode is Test) || (can_set(dst)
            && can_adjust(opcode, dst, src1, src2)),
        _ => true,
    }
}

/// Defines every register but `rax` at its placeholder statement.
fn define_all_regs(state: &mut ReachLattice)
    ensures
        final(state)@ == (old(state)@.0.union_prefer_right(entry_regs()), old(state)@.1),
{
    let regs = all_regs();
    let ghost start = state@.0;
    let mut i: usize = 0;
    while i < regs.len()
        invariant
            i <= regs@.len(),
            regs@.len() == NUM_REGS - 1,
            forall|j: int| 0 <= j < regs@.len() ==> #[trigger] regs@[j] == reg_of_index((j + 1) as u8),
            state@.1 == old(state)@.1,
            state@.0 == start.union_prefer_right(
                entry_regs().restrict(Set::new(|k: u8| 1 <= k <= i)),
            ),
        decreases regs@.len() - i,
    {
        let r = regs[i];
        let idx = r.index();
        proof {
            crate::ir::types::lemma_reg_index_roundtrip(r);
        }
        state.regs.set_reg(r, ValSize::Size64, loc(0xdeadbeef, idx as u32));
        proof {
            assert(reg_index(r) == (i + 1) as u8) by {
                crate::ir::types::lemma_index_of_reg_of_index((i + 1) as u8);
            }
            assert(state@.0 =~= start.union_prefer_right(
                entry_regs().restrict(Set::new(|k: u8| 1 <= k <= i + 1)),
            ));
        }
        i = i + 1;
    }
    assert(entry_regs().restrict(Set::new(|k: u8| 1 <= k <= i)) =~= entry_regs());
}

impl<'a> AbstractAnalyzer<ReachLattice> for ReachingDefnAnalyzer<'a> {
    open spec fn spec_init_state(&self) -> ReachView {
        (entry_regs(), entry_stack())
    }

    open spec fn stmt_ok(&self, stmt: Stmt) -> bool {
        reach_stmt_ok(stmt)
    }

    open spec fn spec_aexec(&self, s: ReachView, stmt: Stmt, loc: LocIdx) -> ReachView {
        reach_aexec(s, stmt, loc)
    }

    open spec fn spec_process_branch(
        &self,
        irmap: Map<u64, IRBlock>,
        s: ReachView,
        succs: Seq<u64>,
        addr: u64,
    ) -> Seq<(u64, ReachView)> {
        same_state_to_all(s, succs)
    }

    fn init_state(&self) -> (r: ReachLattice) {
        let mut s: ReachLattice = ReachLattice::bot();
        define_all_regs(&mut s);
        assert(s@.0 =~= entry_regs());
        s.stack.update(0x8, loc(0xdeadbeef, 15), 4);
        s.stack.update(0x10, loc(0xdeadbeef, 16), 4);
        s.stack.update(0x18, loc(0xdeadbeef, 17), 4);
        s.stack.update(0x20, loc(0xdeadbeef, 18), 4);
        s.stack.update(0x28, loc(0xdeadbeef, 18), 4);
        s
    }

    fn supports(&self, stmt: &Stmt) -> (r: bool) {
        if !stmt_is_wf(stmt) {
            return false;
        }
        match stmt {
            Stmt::Clear(dst, _) => is_settable(dst),
            Stmt::Unop(_, dst, src) => is_settable(dst) && is_gettable(src),
            Stmt::Binop(opcode, dst, src1, src2) => {
                matches!(*opcode, Binopcode::Cmp) || matches!(*opcode, Binopcode::Test) || (
                is_settable(dst) && is_adjustable(opcode, dst, src1, src2))
            },
            _ => true,
        }
    }

    fn process_branch(
        &self,
        irmap: &IRMap,
        in_state: &ReachLattice,
        succ_addrs: &Vec<u64>,
        addr: &u64,
    ) -> (r: Vec<(u64, ReachLattice)>) {
        state_to_all(in_state, succ_addrs)
    }

    fn aexec(&self, in_state: &mut ReachLattice, ir_instr: &Stmt, loc_idx: &LocIdx) {
        match ir_instr {
            Stmt::Clear(dst, _) => in_state.set(dst, singleton(*loc_idx)),
            Stmt::Unop(_, dst, src) => {
                let defs = match in_state.get(src) {
                    Some(v) => {
                        if v.is_empty() {
                            singleton(*loc_idx)
                        } else {
                            v
                        }
                    },
                    None => singleton(*loc_idx),
                };
                in_state.set(dst, defs);
            },
            Stmt::Binop(opcode, dst, src1, src2) => {
                match opcode {
                    Binopcode::Cmp => {},
                    Binopcode::Test => {},
                    _ => {
                        in_state.adjust_stack_offset(opcode, dst, src1, src2);
                        in_state.set(dst, singleton(*loc_idx));
                    },
                }
            },
            Stmt::Call(_) => define_all_regs(in_state),
            _ => {},
        }
    }
}

impl<'a> ReachingDefnAnalyzer<'a> {
    /// The reaching definitions just before the statement at `loc`, given
    /// the definitions at the start of each block: at a block's start they
    /// are read from `result`; inside a block they are found by stepping
    /// from the start of the block that holds `loc`.
    pub open spec fn spec_fetch_def(&self, result: Map<u64, ReachLattice>, loc: LocIdx) -> Option<ReachView> {
        if self.cfg.blocks@.contains_key(loc.addr) {
            if result.contains_key(loc.addr) {
                Some(result[loc.addr]@)
            } else {
                None
            }
        } else {
            match self.cfg.spec_prev_block(loc.addr) {
                None => None,
                Some(b) => if self.irmap@.contains_key(b.start) && result.contains_key(b.start) {
                    spec_state_at(self, result[b.start]@, self.irmap@[b.start]@, loc)
                } else {
                    None
                },
            }
        }
    }

    /// The reaching definitions just before the statement at `loc` (see
    /// `spec_fetch_def`); `None` where they cannot be found.
    pub fn fetch_def(&self, result: &AnalysisResult<ReachLattice>, loc_idx: &LocIdx) -> (r: Option<ReachLattice>)
        ensures
            match (r, self.spec_fetch_def(result@, *loc_idx)) {
                (Some(x), Some(y)) => x@ == y,
                (None, None) => true,
                _ => false,
            },
    {
        if self.cfg.blocks.contains_key(&loc_idx.addr) {
            return match result.get(&loc_idx.addr) {
                Some(s) => Some(s.duplicate()),
                None => None,
            };
        }
        let block_addr = match self.cfg.prev_block(loc_idx.addr) {
            Some(b) => b.start,
            None => return None,
        };
        let irblock = match self.irmap.get(&block_addr) {
            Some(b) => b,
            None => return None,
        };
        let def_state = match result.get(&block_addr) {
            Some(s) => s,
            None => return None,
        };
        state_at(self, def_state, irblock, loc_idx)
    }
}

/// The result of the reaching-definitions analysis of a function: `None`
/// when a statement cannot be analysed or the analysis does not settle.
pub open spec fn spec_reaching_defs(
    cfg: &VwCfg,
    irmap: &IRMap,
) -> Option<Map<u64, <ReachLattice as View>::V>> {
    if irmap_ok(&ReachingDefnAnalyzer { cfg: cfg, irmap: irmap }, irmap@) {
        spec_run_worklist(&ReachingDefnAnalyzer { cfg: cfg, irmap: irmap }, cfg, irmap@, u64::MAX as nat)
    } else {
        None
    }
}

/// Runs the reaching-definitions analysis over a function; `None` when a
/// statement cannot be analysed or the analysis does not settle.
pub fn analyze_reaching_defs(cfg: &VwCfg, irmap: &IRMap, _metadata: VwMetadata) -> (r: Option<AnalysisResult<ReachLattice>>)
    ensures
        match spec_reaching_defs(cfg, irmap) {
            Some(v) => r matches Some(st) && views_of(st@) == v,
            None => r is None,
        },
        r matches Some(st) ==> crate::analyses::is_fixpoint(
            &ReachingDefnAnalyzer { cfg: cfg, irmap: irmap },
            cfg,
            irmap@,
            st@,
        ),
{
    let analyzer = ReachingDefnAnalyzer { cfg: cfg, irmap: irmap };
    if !irmap_supported(&analyzer, irmap) {
        return None;
    }
    run_worklist(cfg, irmap, &analyzer, u64::MAX)
}

} // verus!
