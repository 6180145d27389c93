pub mod heap_analyzer;
pub mod jump_analyzer;
pub mod reaching_defs;
pub mod stack_analyzer;
pub mod wasmtime_analyzer;

pub use self::heap_analyzer::HeapAnalyzer;
pub use self::stack_analyzer::StackAnalyzer;
pub use self::wasmtime_analyzer::WasmtimeAnalyzer;

use crate::ir::cfg::{succs_of, VwCfg};
use crate::ir::types::{IRBlock, IRMap, Stmt};
use crate::lattices::reachingdefslattice::LocIdx;
use crate::lattices::Lattice;
use crate::utils::map_keys;
use std::collections::{HashMap, VecDeque};
use vstd::prelude::*;

verus! {

broadcast use {vstd::std_specs::hash::group_hash_axioms, vstd::seq_lib::group_seq_properties};

/// The abstract state at the start of each analysed block.
pub type AnalysisResult<T> = HashMap<u64, T>;

/// An abstract interpretation over the statements of a function.
pub trait AbstractAnalyzer<State: Lattice>: Sized {
    /// The abstract state at the entry of the function.
    spec fn spec_init_state(&self) -> State::V;

    /// Whether the analysis can step over a statement (others make it fail).
    spec fn stmt_ok(&self, stmt: Stmt) -> bool;

    /// The abstract state after one statement.
    spec fn spec_aexec(&self, s: State::V, stmt: Stmt, loc: LocIdx) -> State::V;

    /// The successor blocks and the states handed to each when leaving block
    /// `addr` in state `s`.
    spec fn spec_process_branch(
        &self,
        irmap: Map<u64, IRBlock>,
        s: State::V,
        succs: Seq<u64>,
        addr: u64,
    ) -> Seq<(u64, State::V)>;

    fn init_state(&self) -> (r: State)
        ensures
            r@ == self.spec_init_state(),
    ;

    /// Whether the analysis can step over a statement.
    fn supports(&self, stmt: &Stmt) -> (r: bool)
        ensures
            r == self.stmt_ok(*stmt),
    ;

    fn process_branch(&self, irmap: &IRMap, in_state: &State, succ_addrs: &Vec<u64>, addr: &u64) -> (r: Vec<(u64, State)>)
        ensures
            branch_views(r@) == self.spec_process_branch(irmap@, in_state@, succ_addrs@, *addr),
    ;

    fn aexec(&self, in_state: &mut State, ir_instr: &Stmt, loc_idx: &LocIdx)
        requires
            self.stmt_ok(*ir_instr),
        ensures
            final(in_state)@ == self.spec_aexec(old(in_state)@, *ir_instr, *loc_idx),
    ;

}

/// The state at the end of a block, from the state at its start.
pub fn analyze_block<State: Lattice, A: AbstractAnalyzer<State>>(
    analyzer: &A,
    state: &State,
    irblock: &IRBlock,
) -> (r: State)
    requires
        block_ok(analyzer, irblock@),
    ensures
        r@ == exec_block(analyzer, state@, irblock@, irblock@.len()),
{
    let mut new_state = state.duplicate();
    let mut i: usize = 0;
    while i < irblock.len()
        invariant
            i <= irblock@.len(),
            block_ok(analyzer, irblock@),
            new_state@ == exec_block(analyzer, state@, irblock@, i as nat),
        decreases irblock@.len() - i,
    {
        let addr = irblock[i].0;
        let instruction = &irblock[i].1;
        let ghost start = new_state@;
        let mut j: usize = 0;
        while j < instruction.len()
            invariant
                i < irblock@.len(),
                j <= instruction@.len(),
                instruction == irblock@[i as int].1,
                addr == irblock@[i as int].0,
                block_ok(analyzer, irblock@),
                new_state@ == exec_stmts(analyzer, start, addr, instruction@, j as nat),
            decreases instruction@.len() - j,
        {
            assert(analyzer.stmt_ok(irblock@[i as int].1@[j as int]));
            analyzer.aexec(&mut new_state, &instruction[j], &LocIdx { addr: addr, idx: j as u32 });
            j = j + 1;
        }
        i = i + 1;
    }
    new_state
}

/// Whether the analysis can step over the first `n` statements of `stmts`.
pub open spec fn stmts_ok<S: Lattice, A: AbstractAnalyzer<S>>(a: &A, stmts: Seq<Stmt>, n: nat) -> bool {
    forall|j: int| 0 <= j < n ==> a.stmt_ok(#[trigger] stmts[j])
}

/// The state just before the statement at `loc`, when the block starts in
/// state `s`: the first instruction at `loc.addr` that has a statement
/// `loc.idx` is the one meant. `None` when no instruction holds `loc`, or a
/// statement before it cannot be stepped over.
pub open spec fn spec_state_at<S: Lattice, A: AbstractAnalyzer<S>>(
    a: &A,
    s: S::V,
    block: Seq<(u64, Vec<Stmt>)>,
    loc: LocIdx,
) -> Option<S::V>
    decreases block.len(),
{
    if block.len() == 0 {
        None
    } else {
        let addr = block[0].0;
        let stmts = block[0].1@;
        if addr == loc.addr && loc.idx < stmts.len() {
            if stmts_ok(a, stmts, loc.idx as nat) {
                Some(exec_stmts(a, s, addr, stmts, loc.idx as nat))
            } else {
                None
            }
        } else if stmts_ok(a, stmts, stmts.len()) {
            spec_state_at(a, exec_stmts(a, s, addr, stmts, stmts.len()), block.drop_first(), loc)
        } else {
            None
        }
    }
}

/// The state just before the statement at `loc` (see `spec_state_at`).
pub fn state_at<State: Lattice, A: AbstractAnalyzer<State>>(
    analyzer: &A,
    state: &State,
    irblock: &IRBlock,
    loc: &LocIdx,
) -> (r: Option<State>)
    ensures
        match (r, spec_state_at(analyzer, state@, irblock@, *loc)) {
            (Some(x), Some(y)) => x@ == y,
            (None, None) => true,
            _ => false,
        },
{
    let mut st = state.duplicate();
    let mut i: usize = 0;
    assert(irblock@.skip(0) =~= irblock@);
    while i < irblock.len()
        invariant
            i <= irblock@.len(),
            spec_state_at(analyzer, state@, irblock@, *loc) == spec_state_at(
                analyzer,
                st@,
                irblock@.skip(i as int),
                *loc,
            ),
        decreases irblock@.len() - i,
    {
        let addr = irblock[i].0;
        let stmts = &irblock[i].1;
        let ghost start = st@;
        let ghost rest = irblock@.skip(i as int);
        assert(rest[0] == irblock@[i as int]);
        assert(rest.drop_first() =~= irblock@.skip(i + 1));
        let mut j: usize = 0;
        while j < stmts.len()
            invariant
                i < irblock@.len(),
                j <= stmts@.len(),
                *stmts == irblock@[i as int].1,
                addr == irblock@[i as int].0,
                rest == irblock@.skip(i as int),
                rest[0] == irblock@[i as int],
                st@ == exec_stmts(analyzer, start, addr, stmts@, j as nat),
                stmts_ok(analyzer, stmts@, j as nat),
                addr == loc.addr ==> j <= loc.idx,
                spec_state_at(analyzer, state@, irblock@, *loc) == spec_state_at(
                    analyzer,
                    start,
                    rest,
                    *loc,
                ),
            decreases stmts@.len() - j,
        {
            if addr == loc.addr && (loc.idx as usize) == j {
                return Some(st);
            }
            if !analyzer.supports(&stmts[j]) {
                assert(!stmts_ok(analyzer, stmts@, stmts@.len()));
                assert(addr == loc.addr && loc.idx < stmts@.len() ==> !stmts_ok(
                    analyzer,
                    stmts@,
                    loc.idx as nat,
                ));
                return None;
            }
            analyzer.aexec(&mut st, &stmts[j], &LocIdx { addr: addr, idx: j as u32 });
            assert(stmts_ok(analyzer, stmts@, (j + 1) as nat));
            j = j + 1;
        }
        i = i + 1;
    }
    None
}

/// A list of successor states, seen through the states' views.
pub open spec fn branch_views<S: View>(b: Seq<(u64, S)>) -> Seq<(u64, S::V)> {
    b.map_values(|p: (u64, S)| (p.0, p.1@))
}

/// Every successor gets the same state.
pub open spec fn same_state_to_all<V>(s: V, succs: Seq<u64>) -> Seq<(u64, V)> {
    succs.map_values(|a: u64| (a, s))
}

/// Hands a copy of `in_state` to each successor.
pub fn state_to_all<State: Lattice>(in_state: &State, succ_addrs: &Vec<u64>) -> (r: Vec<(u64, State)>)
    ensures
        branch_views(r@) == same_state_to_all(in_state@, succ_addrs@),
{
    let mut r: Vec<(u64, State)> = Vec::new();
    let mut i: usize = 0;
    while i < succ_addrs.len()
        invariant
            i <= succ_addrs@.len(),
            branch_views(r@) == same_state_to_all(in_state@, succ_addrs@.take(i as int)),
        decreases succ_addrs@.len() - i,
    {
        let ghost prev = r@;
        let st = in_state.duplicate();
        r.push((succ_addrs[i], st));
        proof {
            assert(r@ =~= prev.push((succ_addrs@[i as int], st)));
            assert(branch_views(r@) =~= branch_views(prev).push((succ_addrs@[i as int], in_state@)));
            assert(succ_addrs@.take(i + 1) =~= succ_addrs@.take(i as int).push(succ_addrs@[i as int]));
            assert(branch_views(r@) =~= same_state_to_all(in_state@, succ_addrs@.take(i + 1)));
        }
        i = i + 1;
    }
    assert(succ_addrs@.take(i as int) =~= succ_addrs@);
    r
}

/// The state after the first `n` statements lifted from the instruction at
/// `addr`.
pub open spec fn exec_stmts<S: Lattice, A: AbstractAnalyzer<S>>(
    a: &A,
    s: S::V,
    addr: u64,
    stmts: Seq<Stmt>,
    n: nat,
) -> S::V
    decreases n,
{
    if n == 0 {
        s
    } else {
        a.spec_aexec(
            exec_stmts(a, s, addr, stmts, (n - 1) as nat),
            stmts[n - 1],
            LocIdx { addr: addr, idx: (n - 1) as u32 },
        )
    }
}

/// The state after the first `n` instructions of a block.
pub open spec fn exec_block<S: Lattice, A: AbstractAnalyzer<S>>(
    a: &A,
    s: S::V,
    block: Seq<(u64, Vec<Stmt>)>,
    n: nat,
) -> S::V
    decreases n,
{
    if n == 0 {
        s
    } else {
        let prev = exec_block(a, s, block, (n - 1) as nat);
        exec_stmts(a, prev, block[n - 1].0, block[n - 1].1@, block[n - 1].1@.len())
    }
}

/// Whether the analysis can step over every statement of a block.
pub open spec fn block_ok<S: Lattice, A: AbstractAnalyzer<S>>(a: &A, block: Seq<(u64, Vec<Stmt>)>) -> bool {
    forall|i: int, j: int|
        0 <= i < block.len() && 0 <= j < block[i].1@.len() ==> a.stmt_ok(#[trigger] block[i].1@[j])
}

/// Whether the analysis can step over every statement of every block.
pub open spec fn irmap_ok<S: Lattice, A: AbstractAnalyzer<S>>(a: &A, irmap: Map<u64, IRBlock>) -> bool {
    forall|p: u64| #[trigger] irmap.contains_key(p) ==> block_ok(a, irmap[p]@)
}

/// Whether the analysis can step over every statement of a block.
pub fn block_supported<State: Lattice, A: AbstractAnalyzer<State>>(analyzer: &A, block: &IRBlock) -> (r: bool)
    ensures
        r == block_ok(analyzer, block@),
{
    let mut i: usize = 0;
    while i < block.len()
        invariant
            i <= block@.len(),
            forall|x: int, y: int|
                0 <= x < i && 0 <= y < block@[x].1@.len() ==> analyzer.stmt_ok(#[trigger] block@[x].1@[y]),
        decreases block@.len() - i,
    {
        let stmts = &block[i].1;
        let mut j: usize = 0;
        while j < stmts.len()
            invariant
                i < block@.len(),
                j <= stmts@.len(),
                *stmts == block@[i as int].1,
                forall|x: int, y: int|
                    0 <= x < i && 0 <= y < block@[x].1@.len() ==> analyzer.stmt_ok(
                        #[trigger] block@[x].1@[y],
                    ),
                forall|y: int| 0 <= y < j ==> analyzer.stmt_ok(#[trigger] stmts@[y]),
            decreases stmts@.len() - j,
        {
            if !analyzer.supports(&stmts[j]) {
                assert(block@[i as int].1@[j as int] == stmts@[j as int]);
                return false;
            }
            j = j + 1;
        }
        i = i + 1;
    }
    true
}

/// Whether the analysis can step over every statement of `irmap`.
pub fn irmap_supported<State: Lattice, A: AbstractAnalyzer<State>>(analyzer: &A, irmap: &IRMap) -> (r: bool)
    ensures
        r == irmap_ok(analyzer, irmap@),
{
    let keys = map_keys(irmap);
    let mut b: usize = 0;
    while b < keys.len()
        invariant
            b <= keys@.len(),
            keys@.to_set() == irmap@.dom(),
            forall|m: int| 0 <= m < b ==> block_ok(analyzer, irmap@[#[trigger] keys@[m]]@),
        decreases keys@.len() - b,
    {
        let p = keys[b];
        assert(keys@.to_set().contains(p));
        let block = irmap.get(&p).unwrap();
        let mut i: usize = 0;
        while i < block.len()
            invariant
                i <= block@.len(),
                irmap@.contains_key(p),
                *block == irmap@[p],
                forall|x: int, y: int|
                    0 <= x < i && 0 <= y < block@[x].1@.len() ==> analyzer.stmt_ok(
                        #[trigger] block@[x].1@[y],
                    ),
            decreases block@.len() - i,
        {
            let stmts = &block[i].1;
            let mut j: usize = 0;
            while j < stmts.len()
                invariant
                    i < block@.len(),
                    j <= stmts@.len(),
                    irmap@.contains_key(p),
                    *block == irmap@[p],
                    *stmts == block@[i as int].1,
                    forall|x: int, y: int|
                        0 <= x < i && 0 <= y < block@[x].1@.len() ==> analyzer.stmt_ok(
                            #[trigger] block@[x].1@[y],
                        ),
                    forall|y: int| 0 <= y < j ==> analyzer.stmt_ok(#[trigger] stmts@[y]),
                decreases stmts@.len() - j,
            {
                if !analyzer.supports(&stmts[j]) {
                    assert(!block_ok(analyzer, irmap@[p]@)) by {
                        assert(block@[i as int].1@[j as int] == stmts@[j as int]);
                    }
                    return false;
                }
                j = j + 1;
            }
            i = i + 1;
        }
        assert(block_ok(analyzer, irmap@[p]@));
        b = b + 1;
    }
    assert forall|p: u64| #[trigger] irmap@.contains_key(p) implies block_ok(analyzer, irmap@[p]@) by {
        assert(keys@.to_set().contains(p));
        let m = choose|m: int| 0 <= m < keys@.len() && keys@[m] == p;
        assert(block_ok(analyzer, irmap@[keys@[m]]@));
    }
    true
}

/// The order in which the successors of the block at `addr` are visited: of
/// two successors, a backward one comes last, and otherwise the lower one
/// comes first; any other number of successors is left as it is.
pub open spec fn spec_align_succ_addrs(addr: u64, s: Seq<u64>) -> Seq<u64> {
    if s.len() != 2 {
        s
    } else if s[0] < addr {
        seq![s[1], s[0]]
    } else if s[1] < addr {
        seq![s[0], s[1]]
    } else if s[0] < s[1] {
        seq![s[0], s[1]]
    } else {
        seq![s[1], s[0]]
    }
}

pub fn align_succ_addrs(addr: u64, succ_addrs: Vec<u64>) -> (r: Vec<u64>)
    ensures
        r@ == spec_align_succ_addrs(addr, succ_addrs@),
        r@.to_multiset() == succ_addrs@.to_multiset(),
{
    broadcast use vstd::multiset::group_multiset_properties;

    if succ_addrs.len() != 2 {
        return succ_addrs;
    }
    let a1 = succ_addrs[0];
    let a2 = succ_addrs[1];
    proof {
        assert(succ_addrs@ =~= seq![a1, a2]);
        assert(seq![a1, a2] =~= seq![a1].push(a2));
        assert(seq![a2, a1] =~= seq![a2].push(a1));
        assert(seq![a1] =~= Seq::<u64>::empty().push(a1));
        assert(seq![a2] =~= Seq::<u64>::empty().push(a2));
        assert(seq![a1, a2].to_multiset() =~= seq![a2, a1].to_multiset());
    }
    if a1 < addr {
        return vec![a2, a1];
    }
    if a2 < addr {
        return vec![a1, a2];
    }
    if a1 < a2 {
        return vec![a1, a2];
    }
    vec![a2, a1]
}

/// The states handed on by block `p` when it starts in state `s`.
pub open spec fn block_out<S: Lattice, A: AbstractAnalyzer<S>>(
    a: &A,
    cfg: &VwCfg,
    irmap: Map<u64, IRBlock>,
    s: S::V,
    p: u64,
) -> Seq<(u64, S::V)> {
    a.spec_process_branch(
        irmap,
        exec_block(a, s, irmap[p]@, irmap[p]@.len()),
        spec_align_succ_addrs(p, succs_of(cfg.succs(), p)),
        p,
    )
}

/// The states of a map of lattice values, seen through their views.
pub open spec fn views_of<S: View>(m: Map<u64, S>) -> Map<u64, S::V> {
    m.map_values(|s: S| s@)
}

/// Whether the state stored for every successor of block `p` lies at or below
/// the state that `p` hands on to it (their meet changes nothing).
pub open spec fn block_stable<S: Lattice, A: AbstractAnalyzer<S>>(
    a: &A,
    cfg: &VwCfg,
    irmap: Map<u64, IRBlock>,
    st: Map<u64, S::V>,
    p: u64,
) -> bool {
    &&& irmap.contains_key(p)
    &&& forall|k: int|
        #![trigger block_out(a, cfg, irmap, st[p], p)[k]]
        0 <= k < block_out(a, cfg, irmap, st[p], p).len() ==> {
            let q = block_out(a, cfg, irmap, st[p], p)[k].0;
            let bs = block_out(a, cfg, irmap, st[p], p)[k].1;
            st.contains_key(q) && S::spec_meet(st[q], bs) == st[q]
        }
}

/// Whether the states `st` are a solution of the analysis: they hold the
/// entry block, whose state lies at or below the initial state, and every
/// block is stable.
pub open spec fn is_fixpoint_v<S: Lattice, A: AbstractAnalyzer<S>>(
    a: &A,
    cfg: &VwCfg,
    irmap: Map<u64, IRBlock>,
    st: Map<u64, S::V>,
) -> bool {
    &&& st.contains_key(cfg.entrypoint)
    &&& S::spec_meet(st[cfg.entrypoint], a.spec_init_state()) == st[cfg.entrypoint]
    &&& forall|p: u64| #[trigger] st.contains_key(p) ==> block_stable(a, cfg, irmap, st, p)
}

/// Whether `st` is a solution of the analysis (see `is_fixpoint_v`).
pub open spec fn is_fixpoint<S: Lattice, A: AbstractAnalyzer<S>>(
    a: &A,
    cfg: &VwCfg,
    irmap: Map<u64, IRBlock>,
    st: Map<u64, S>,
) -> bool {
    is_fixpoint_v(a, cfg, irmap, views_of(st))
}

/// Every block of a fixpoint has code.
pub proof fn lemma_fixpoint_blocks_have_code<S: Lattice, A: AbstractAnalyzer<S>>(
    a: &A,
    cfg: &VwCfg,
    irmap: Map<u64, IRBlock>,
    st: Map<u64, S>,
)
    requires
        is_fixpoint(a, cfg, irmap, st),
    ensures
        forall|p: u64| #[trigger] st.contains_key(p) ==> irmap.contains_key(p),
{
    assert forall|p: u64| #[trigger] st.contains_key(p) implies irmap.contains_key(p) by {
        assert(views_of(st).contains_key(p));
        assert(block_stable(a, cfg, irmap, views_of(st), p));
    }
}

/// Whether `p` is the lowest address of a block of `st` that is not stable.
pub open spec fn is_least_unstable<S: Lattice, A: AbstractAnalyzer<S>>(
    a: &A,
    cfg: &VwCfg,
    irmap: Map<u64, IRBlock>,
    st: Map<u64, S::V>,
    p: u64,
) -> bool {
    &&& st.contains_key(p)
    &&& !block_stable(a, cfg, irmap, st, p)
    &&& forall|q: u64| #[trigger]
        st.contains_key(q) && !block_stable(a, cfg, irmap, st, q) ==> p <= q
}

/// The lowest address of a block of `st` that is not stable, if there is one.
pub open spec fn least_unstable<S: Lattice, A: AbstractAnalyzer<S>>(
    a: &A,
    cfg: &VwCfg,
    irmap: Map<u64, IRBlock>,
    st: Map<u64, S::V>,
) -> Option<u64> {
    if exists|p: u64| #[trigger] st.contains_key(p) && !block_stable(a, cfg, irmap, st, p) {
        Some(choose|p: u64| is_least_unstable(a, cfg, irmap, st, p))
    } else {
        None
    }
}

/// The states and the queue after the state `bs` handed on to block `q` is
/// merged in: the block gets the meet of its state and `bs` (or `bs` if it
/// had none), and is queued at the end if its state changed and it is not
/// queued already.
pub open spec fn merge_into<S: Lattice>(
    st: Map<u64, S::V>,
    wl: Seq<u64>,
    q: u64,
    bs: S::V,
) -> (Map<u64, S::V>, Seq<u64>) {
    let nv = if st.contains_key(q) {
        S::spec_meet(st[q], bs)
    } else {
        bs
    };
    let changed = !st.contains_key(q) || nv != st[q];
    (st.insert(q, nv), if changed && !wl.contains(q) {
        wl.push(q)
    } else {
        wl
    })
}

/// The states and the queue after the states `bs` are merged in, in order.
pub open spec fn merge_all<S: Lattice>(
    st: Map<u64, S::V>,
    wl: Seq<u64>,
    bs: Seq<(u64, S::V)>,
) -> (Map<u64, S::V>, Seq<u64>)
    decreases bs.len(),
{
    if bs.len() == 0 {
        (st, wl)
    } else {
        let m = merge_into::<S>(st, wl, bs[0].0, bs[0].1);
        merge_all::<S>(m.0, m.1, bs.drop_first())
    }
}

/// The result of the worklist iteration from states `st` and queue `wl`, with
/// at most `fuel` steps. A step takes the first queued block, runs it from
/// its state and merges what it hands on into its successors. When the queue
/// is empty the entry state is checked against the initial one (`None` if it
/// lies above it), and the lowest unstable block is queued again; with none,
/// the states are the result. `None` when the fuel runs out or a queued block
/// has no code or no state.
pub open spec fn worklist_run<S: Lattice, A: AbstractAnalyzer<S>>(
    a: &A,
    cfg: &VwCfg,
    irmap: Map<u64, IRBlock>,
    st: Map<u64, S::V>,
    wl: Seq<u64>,
    fuel: nat,
) -> Option<Map<u64, S::V>>
    decreases fuel,
{
    if fuel == 0 {
        None
    } else if wl.len() == 0 {
        if S::spec_meet(st[cfg.entrypoint], a.spec_init_state()) != st[cfg.entrypoint] {
            None
        } else {
            match least_unstable(a, cfg, irmap, st) {
                None => Some(st),
                Some(p) => worklist_run(a, cfg, irmap, st, seq![p], (fuel - 1) as nat),
            }
        }
    } else {
        let addr = wl[0];
        if !irmap.contains_key(addr) || !st.contains_key(addr) {
            None
        } else {
            let m = merge_all::<S>(st, wl.drop_first(), block_out(a, cfg, irmap, st[addr], addr));
            worklist_run(a, cfg, irmap, m.0, m.1, (fuel - 1) as nat)
        }
    }
}

/// The result of the analysis: the worklist iteration from the initial
/// state at the entry block, with at most `fuel` steps.
pub open spec fn spec_run_worklist<S: Lattice, A: AbstractAnalyzer<S>>(
    a: &A,
    cfg: &VwCfg,
    irmap: Map<u64, IRBlock>,
    fuel: nat,
) -> Option<Map<u64, S::V>> {
    worklist_run(
        a,
        cfg,
        irmap,
        map![cfg.entrypoint => a.spec_init_state()],
        seq![cfg.entrypoint],
        fuel,
    )
}

/// Merging states in never removes a block.
pub proof fn lemma_merge_all_keeps<S: Lattice>(st: Map<u64, S::V>, wl: Seq<u64>, bs: Seq<(u64, S::V)>, p: u64)
    requires
        st.contains_key(p),
    ensures
        merge_all::<S>(st, wl, bs).0.contains_key(p),
    decreases bs.len(),
{
    if bs.len() > 0 {
        let m = merge_into::<S>(st, wl, bs[0].0, bs[0].1);
        lemma_merge_all_keeps::<S>(m.0, m.1, bs.drop_first(), p);
    }
}

/// Whatever the iteration returns is a fixpoint of the analysis, once the
/// states hold the entry block.
pub proof fn lemma_worklist_run_is_fixpoint<S: Lattice, A: AbstractAnalyzer<S>>(
    a: &A,
    cfg: &VwCfg,
    irmap: Map<u64, IRBlock>,
    st: Map<u64, S::V>,
    wl: Seq<u64>,
    fuel: nat,
)
    requires
        st.contains_key(cfg.entrypoint),
    ensures
        worklist_run(a, cfg, irmap, st, wl, fuel) matches Some(v) ==> is_fixpoint_v(a, cfg, irmap, v),
    decreases fuel,
{
    if fuel > 0 {
        if wl.len() == 0 {
            match least_unstable(a, cfg, irmap, st) {
                None => {},
                Some(p) => lemma_worklist_run_is_fixpoint(a, cfg, irmap, st, seq![p], (fuel - 1) as nat),
            }
        } else {
            let addr = wl[0];
            if irmap.contains_key(addr) && st.contains_key(addr) {
                let bo = block_out(a, cfg, irmap, st[addr], addr);
                lemma_merge_all_keeps::<S>(st, wl.drop_first(), bo, cfg.entrypoint);
                let m = merge_all::<S>(st, wl.drop_first(), bo);
                lemma_worklist_run_is_fixpoint(a, cfg, irmap, m.0, m.1, (fuel - 1) as nat);
            }
        }
    }
}

/// The analysis result is a fixpoint of the analysis.
pub proof fn lemma_run_worklist_is_fixpoint<S: Lattice, A: AbstractAnalyzer<S>>(
    a: &A,
    cfg: &VwCfg,
    irmap: Map<u64, IRBlock>,
    fuel: nat,
)
    ensures
        spec_run_worklist(a, cfg, irmap, fuel) matches Some(v) ==> is_fixpoint_v(a, cfg, irmap, v),
{
    lemma_worklist_run_is_fixpoint(
        a,
        cfg,
        irmap,
        map![cfg.entrypoint => a.spec_init_state()],
        seq![cfg.entrypoint],
        fuel,
    );
}

/// Whether `x` is queued.
fn deque_contains(d: &VecDeque<u64>, x: u64) -> (r: bool)
    ensures
        r == d@.contains(x),
{
    let mut i: usize = 0;
    while i < d.len()
        invariant
            i <= d@.len(),
            forall|j: int| 0 <= j < i ==> d@[j] != x,
        decreases d@.len() - i,
    {
        if d[i] == x {
            return true;
        }
        i = i + 1;
    }
    false
}

/// Whether block `p` of `statemap` is stable.
fn block_is_stable<T: AbstractAnalyzer<State>, State: Lattice>(
    cfg: &VwCfg,
    irmap: &IRMap,
    analyzer: &T,
    statemap: &HashMap<u64, State>,
    p: u64,
) -> (r: bool)
    requires
        irmap_ok(analyzer, irmap@),
        statemap@.contains_key(p),
    ensures
        r == block_stable(analyzer, cfg, irmap@, views_of(statemap@), p),
{
    let ghost sv = views_of(statemap@);
    let block = match irmap.get(&p) {
        Some(b) => b,
        None => return false,
    };
    let state = statemap.get(&p).unwrap();
    let out_state = analyze_block(analyzer, state, block);
    let succs = align_succ_addrs(p, cfg.successors(p));
    let out = analyzer.process_branch(irmap, &out_state, &succs, &p);
    let ghost bo = block_out(analyzer, cfg, irmap@, sv[p], p);
    assert(sv[p] == statemap@[p]@);
    assert(branch_views(out@) == bo);
    let mut k: usize = 0;
    while k < out.len()
        invariant
            k <= out@.len(),
            branch_views(out@) == bo,
            sv == views_of(statemap@),
            bo == block_out(analyzer, cfg, irmap@, sv[p], p),
            irmap@.contains_key(p),
            forall|m: int|
                0 <= m < k ==> sv.contains_key(#[trigger] bo[m].0) && State::spec_meet(
                    sv[bo[m].0],
                    bo[m].1,
                ) == sv[bo[m].0],
        decreases out@.len() - k,
    {
        let q = out[k].0;
        assert(bo[k as int] == (out@[k as int].0, out@[k as int].1@));
        match statemap.get(&q) {
            None => {
                assert(!sv.contains_key(bo[k as int].0));
                return false;
            },
            Some(old_state) => {
                assert(sv[q] == old_state@);
                let merged = old_state.meet(&out[k].1, &LocIdx { addr: p, idx: 0 });
                if !merged.same(old_state) {
                    assert(State::spec_meet(sv[bo[k as int].0], bo[k as int].1) != sv[bo[k as int].0]);
                    return false;
                }
            },
        }
        k = k + 1;
    }
    true
}

/// The lowest address of a block of `statemap` that is not stable, if there
/// is one.
fn find_unstable<T: AbstractAnalyzer<State>, State: Lattice>(
    cfg: &VwCfg,
    irmap: &IRMap,
    analyzer: &T,
    statemap: &HashMap<u64, State>,
) -> (r: Option<u64>)
    requires
        irmap_ok(analyzer, irmap@),
    ensures
        r == least_unstable(analyzer, cfg, irmap@, views_of(statemap@)),
{
    let ghost sv = views_of(statemap@);
    let keys = map_keys(statemap);
    let mut best: Option<u64> = None;
    let mut i: usize = 0;
    while i < keys.len()
        invariant
            i <= keys@.len(),
            keys@.to_set() == statemap@.dom(),
            sv == views_of(statemap@),
            irmap_ok(analyzer, irmap@),
            match best {
                None => forall|j: int|
                    0 <= j < i ==> block_stable(analyzer, cfg, irmap@, sv, #[trigger] keys@[j]),
                Some(b) => {
                    &&& sv.contains_key(b)
                    &&& !block_stable(analyzer, cfg, irmap@, sv, b)
                    &&& forall|j: int|
                        0 <= j < i && !block_stable(analyzer, cfg, irmap@, sv, #[trigger] keys@[j])
                            ==> b <= keys@[j]
                },
            },
        decreases keys@.len() - i,
    {
        let p = keys[i];
        assert(keys@.to_set().contains(p));
        if !block_is_stable(cfg, irmap, analyzer, statemap, p) {
            best = match best {
                None => Some(p),
                Some(b) => if p < b {
                    Some(p)
                } else {
                    Some(b)
                },
            };
        }
        i = i + 1;
    }
    match best {
        None => {
            assert forall|p: u64| #[trigger] sv.contains_key(p) implies block_stable(
                analyzer,
                cfg,
                irmap@,
                sv,
                p,
            ) by {
                assert(keys@.to_set().contains(p));
                let j = choose|j: int| 0 <= j < keys@.len() && keys@[j] == p;
                assert(block_stable(analyzer, cfg, irmap@, sv, keys@[j]));
            }
        },
        Some(b) => {
            assert forall|q: u64| #[trigger]
                sv.contains_key(q) && !block_stable(analyzer, cfg, irmap@, sv, q) implies b <= q by {
                assert(keys@.to_set().contains(q));
                let j = choose|j: int| 0 <= j < keys@.len() && keys@[j] == q;
                assert(!block_stable(analyzer, cfg, irmap@, sv, keys@[j]));
            }
            proof {
                assert(is_least_unstable(analyzer, cfg, irmap@, sv, b));
                let c = choose|p: u64| is_least_unstable(analyzer, cfg, irmap@, sv, p);
                assert(is_least_unstable(analyzer, cfg, irmap@, sv, c));
                assert(c <= b && b <= c);
            }
        },
    }
    best
}

/// The views of `m` after `v` is stored at `q`.
proof fn lemma_views_insert<S: View>(m: Map<u64, S>, q: u64, v: S)
    ensures
        views_of(m.insert(q, v)) == views_of(m).insert(q, v@),
{
    assert(views_of(m.insert(q, v)) =~= views_of(m).insert(q, v@));
}

/// Runs an analysis over the blocks of a function to a fixpoint, from the
/// initial state at the entry block. A block whose input state changed is
/// queued again; once the queue is empty every block is checked once more,
/// and the lowest unstable one is queued again. At most `fuel` steps are
/// taken. The result is the one that `spec_run_worklist` describes.
///
/// Returns `None` when the fuel runs out, when a block reached is missing
/// from `irmap`, or when the entry state is found above the initial one.
pub fn run_worklist<T: AbstractAnalyzer<State>, State: Lattice>(
    cfg: &VwCfg,
    irmap: &IRMap,
    analyzer: &T,
    fuel: u64,
) -> (r: Option<AnalysisResult<State>>)
    requires
        irmap_ok(analyzer, irmap@),
    ensures
        match spec_run_worklist(analyzer, cfg, irmap@, fuel as nat) {
            Some(v) => r matches Some(st) && views_of(st@) == v,
            None => r is None,
        },
        r matches Some(st) ==> is_fixpoint(analyzer, cfg, irmap@, st@),
{
    let mut statemap: HashMap<u64, State> = HashMap::new();
    let mut worklist: VecDeque<u64> = VecDeque::new();
    worklist.push_back(cfg.entrypoint);
    statemap.insert(cfg.entrypoint, analyzer.init_state());
    let ghost target = spec_run_worklist(analyzer, cfg, irmap@, fuel as nat);
    proof {
        assert(views_of(statemap@) =~= map![cfg.entrypoint => analyzer.spec_init_state()]);
        assert(worklist@ =~= seq![cfg.entrypoint]);
        lemma_run_worklist_is_fixpoint(analyzer, cfg, irmap@, fuel as nat);
    }
    let mut steps = fuel;
    while steps > 0
        invariant
            irmap_ok(analyzer, irmap@),
            statemap@.contains_key(cfg.entrypoint),
            worklist_run(analyzer, cfg, irmap@, views_of(statemap@), worklist@, steps as nat) == target,
            target matches Some(v) ==> is_fixpoint_v(analyzer, cfg, irmap@, v),
            target == spec_run_worklist(analyzer, cfg, irmap@, fuel as nat),
        decreases steps,
    {
        let ghost sv = views_of(statemap@);
        let ghost wl = worklist@;
        steps = steps - 1;
        if worklist.len() == 0 {
            let init = analyzer.init_state();
            let entry_state = statemap.get(&cfg.entrypoint).unwrap();
            let entry_merged = entry_state.meet(&init, &LocIdx { addr: cfg.entrypoint, idx: 0 });
            assert(sv[cfg.entrypoint] == entry_state@);
            if !entry_merged.same(entry_state) {
                assert(State::spec_meet(sv[cfg.entrypoint], analyzer.spec_init_state()) != sv[cfg.entrypoint]);
                return None;
            }
            match find_unstable(cfg, irmap, analyzer, &statemap) {
                None => {
                    return Some(statemap);
                },
                Some(p) => {
                    worklist.push_back(p);
                    assert(worklist@ =~= seq![p]);
                },
            }
        } else {
            let addr = worklist.pop_front().unwrap();
            assert(worklist@ =~= wl.drop_first());
            let irblock = match irmap.get(&addr) {
                Some(b) => b,
                None => {
                    assert(wl.len() > 0 && wl[0] == addr && !irmap@.contains_key(addr));
                    return None;
                },
            };
            let state = match statemap.get(&addr) {
                Some(s) => s.duplicate(),
                None => return None,
            };
            assert(sv[addr] == state@);
            let new_state = analyze_block(analyzer, &state, irblock);
            let succ_addrs = align_succ_addrs(addr, cfg.successors(addr));
            let branches = analyzer.process_branch(irmap, &new_state, &succ_addrs, &addr);
            let ghost bo = block_out(analyzer, cfg, irmap@, sv[addr], addr);
            let ghost goal = merge_all::<State>(sv, wl.drop_first(), bo);
            assert(bo.skip(0) =~= bo);
            let mut k: usize = 0;
            while k < branches.len()
                invariant
                    k <= branches@.len(),
                    branch_views(branches@) == bo,
                    statemap@.contains_key(cfg.entrypoint),
                    merge_all::<State>(views_of(statemap@), worklist@, bo.skip(k as int)) == goal,
                decreases branches@.len() - k,
            {
                let succ_addr = branches[k].0;
                let branch_state = &branches[k].1;
                let ghost cur = views_of(statemap@);
                let ghost cwl = worklist@;
                assert(bo[k as int] == (succ_addr, branch_state@));
                assert(bo.skip(k as int)[0] == bo[k as int]);
                assert(bo.skip(k as int).drop_first() =~= bo.skip(k + 1));
                let has_change = match statemap.get(&succ_addr) {
                    Some(old_state) => {
                        assert(cur[succ_addr] == old_state@);
                        let merged_state = old_state.meet(
                            branch_state,
                            &LocIdx { addr: addr, idx: 0 },
                        );
                        let changed = !old_state.same(&merged_state);
                        proof {
                            lemma_views_insert(statemap@, succ_addr, merged_state);
                        }
                        statemap.insert(succ_addr, merged_state);
                        changed
                    },
                    None => {
                        let d = branch_state.duplicate();
                        proof {
                            lemma_views_insert(statemap@, succ_addr, d);
                        }
                        statemap.insert(succ_addr, d);
                        true
                    },
                };
                if has_change && !deque_contains(&worklist, succ_addr) {
                    worklist.push_back(succ_addr);
                }
                assert((views_of(statemap@), worklist@) == merge_into::<State>(
                    cur,
                    cwl,
                    succ_addr,
                    branch_state@,
                ));
                k = k + 1;
            }
            assert(bo.skip(k as int) =~= Seq::<(u64, State::V)>::empty());
            proof {
                lemma_merge_all_keeps::<State>(sv, wl.drop_first(), bo, cfg.entrypoint);
            }
        }
    }
    None
}

} // verus!
