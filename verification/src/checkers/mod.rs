pub mod heap_checker;
pub mod jump_resolver;
pub mod stack_checker;
pub mod wasmtime_checker;

pub use self::heap_checker::check_heap;
pub use self::stack_checker::check_stack;
pub use self::wasmtime_checker::check_wasmtime;

use crate::analyses::{exec_block, exec_stmts, irmap_ok, views_of, AbstractAnalyzer, AnalysisResult};
use crate::ir::types::{IRBlock, IRMap, Stmt};
use crate::lattices::reachingdefslattice::LocIdx;
use crate::lattices::Lattice;
use crate::utils::map_keys;
use itertools::Itertools;
use std::collections::HashMap;
use vstd::prelude::*;

verus! {

broadcast use vstd::std_specs::hash::group_hash_axioms;

/// A check of the states that an analysis computed, statement by statement.
pub trait Checker<State: Lattice>: Sized {
    /// The analysis whose states are checked.
    type Analyzer: AbstractAnalyzer<State>;

    spec fn spec_analyzer(&self) -> Self::Analyzer;

    spec fn spec_irmap(&self) -> Map<u64, IRBlock>;

    /// Whether a statement can be checked (others make the check fail).
    spec fn check_ok(&self, stmt: Stmt) -> bool;

    /// Whether a statement is safe in the given state.
    spec fn spec_check_statement(&self, s: State::V, stmt: Stmt, loc: LocIdx) -> bool;

    fn irmap(&self) -> (r: &IRMap)
        ensures
            r@ == self.spec_irmap(),
    ;

    /// Whether a statement can be checked.
    fn check_supported(&self, stmt: &Stmt) -> (r: bool)
        ensures
            r == self.check_ok(*stmt),
    ;

    fn aexec(&self, state: &mut State, ir_stmt: &Stmt, loc: &LocIdx)
        requires
            self.spec_analyzer().stmt_ok(*ir_stmt),
        ensures
            final(state)@ == self.spec_analyzer().spec_aexec(old(state)@, *ir_stmt, *loc),
    ;

    fn check_statement(&self, state: &State, ir_stmt: &Stmt, loc_idx: &LocIdx) -> (r: bool)
        requires
            self.check_ok(*ir_stmt),
        ensures
            r == self.spec_check_statement(state@, *ir_stmt, *loc_idx),
    ;
}

/// Whether every statement lifted from the instruction at `addr` passes the
/// check, each in the state reached just before it.
pub open spec fn stmts_checked<S: Lattice, C: Checker<S>>(
    c: &C,
    s: S::V,
    addr: u64,
    stmts: Seq<Stmt>,
) -> bool {
    forall|j: int|
        #![trigger stmts[j]]
        0 <= j < stmts.len() ==> c.spec_check_statement(
            exec_stmts(&c.spec_analyzer(), s, addr, stmts, j as nat),
            stmts[j],
            LocIdx { addr: addr, idx: j as u32 },
        )
}

/// Whether every statement of a block passes the check, from the state `s` at
/// its start.
pub open spec fn block_checked<S: Lattice, C: Checker<S>>(
    c: &C,
    s: S::V,
    block: Seq<(u64, Vec<Stmt>)>,
) -> bool {
    forall|i: int|
        #![trigger block[i]]
        0 <= i < block.len() ==> stmts_checked(
            c,
            exec_block(&c.spec_analyzer(), s, block, i as nat),
            block[i].0,
            block[i].1@,
        )
}

/// Whether every block of an analysis result passes the check.
pub open spec fn all_checked<S: Lattice, C: Checker<S>>(c: &C, result: Map<u64, S>) -> bool {
    forall|p: u64| #[trigger]
        result.contains_key(p) ==> block_checked(c, result[p]@, c.spec_irmap()[p]@)
}

/// Whether every block of a map of states (seen through their views) passes
/// the check.
pub open spec fn all_checked_v<S: Lattice, C: Checker<S>>(c: &C, result: Map<u64, S::V>) -> bool {
    forall|p: u64| #[trigger]
        result.contains_key(p) ==> block_checked(c, result[p], c.spec_irmap()[p]@)
}

/// The check of an analysis result depends on the views of its states alone.
pub proof fn lemma_all_checked_views<S: Lattice, C: Checker<S>>(c: &C, result: Map<u64, S>)
    ensures
        all_checked(c, result) == all_checked_v(c, views_of(result)),
{
    if all_checked(c, result) {
        assert forall|p: u64| #[trigger] views_of(result).contains_key(p) implies block_checked(
            c,
            views_of(result)[p],
            c.spec_irmap()[p]@,
        ) by {
            assert(result.contains_key(p));
        }
    }
    if all_checked_v(c, views_of(result)) {
        assert forall|p: u64| #[trigger] result.contains_key(p) implies block_checked(
            c,
            result[p]@,
            c.spec_irmap()[p]@,
        ) by {
            assert(views_of(result).contains_key(p));
        }
    }
}

/// Whether every statement of every block can be checked.
pub open spec fn irmap_check_ok<S: Lattice, C: Checker<S>>(c: &C) -> bool {
    forall|p: u64, i: int, j: int|
        c.spec_irmap().contains_key(p) && 0 <= i < c.spec_irmap()[p]@.len() && 0 <= j
            < c.spec_irmap()[p]@[i].1@.len() ==> c.check_ok(
            #[trigger] c.spec_irmap()[p]@[i].1@[j],
        )
}

/// Whether every statement of the checker's blocks can be checked.
pub fn irmap_check_supported<State: Lattice, C: Checker<State>>(checker: &C) -> (r: bool)
    ensures
        r == irmap_check_ok(checker),
{
    let irmap = checker.irmap();
    let keys = map_keys(irmap);
    let mut b: usize = 0;
    while b < keys.len()
        invariant
            b <= keys@.len(),
            irmap@ == checker.spec_irmap(),
            keys@.to_set() == irmap@.dom(),
            forall|m: int, x: int, y: int|
                0 <= m < b && 0 <= x < irmap@[keys@[m]]@.len() && 0 <= y < irmap@[keys@[m]]@[x].1@.len()
                    ==> checker.check_ok(#[trigger] irmap@[keys@[m]]@[x].1@[y]),
        decreases keys@.len() - b,
    {
        let p = keys[b];
        assert(keys@.to_set().contains(p));
        let block = irmap.get(&p).unwrap();
        let mut i: usize = 0;
        while i < block.len()
            invariant
                i <= block@.len(),
                b < keys@.len(),
                p == keys@[b as int],
                irmap@ == checker.spec_irmap(),
                irmap@.contains_key(p),
                *block == irmap@[p],
                forall|m: int, x: int, y: int|
                    0 <= m < b && 0 <= x < irmap@[keys@[m]]@.len() && 0 <= y < irmap@[keys@[m]]@[x].1@.len()
                        ==> checker.check_ok(#[trigger] irmap@[keys@[m]]@[x].1@[y]),
                forall|x: int, y: int|
                    0 <= x < i && 0 <= y < block@[x].1@.len() ==> checker.check_ok(
                        #[trigger] block@[x].1@[y],
                    ),
            decreases block@.len() - i,
        {
            let stmts = &block[i].1;
            let mut j: usize = 0;
            while j < stmts.len()
                invariant
                    i < block@.len(),
                    j <= stmts@.len(),
                    irmap@ == checker.spec_irmap(),
                    irmap@.contains_key(p),
                    *block == irmap@[p],
                    *stmts == block@[i as int].1,
                    forall|y: int| 0 <= y < j ==> checker.check_ok(#[trigger] stmts@[y]),
                decreases stmts@.len() - j,
            {
                if !checker.check_supported(&stmts[j]) {
                    assert(!checker.check_ok(checker.spec_irmap()[p]@[i as int].1@[j as int]));
                    return false;
                }
                j = j + 1;
            }
            assert forall|x: int, y: int|
                0 <= x < i + 1 && 0 <= y < block@[x].1@.len() implies checker.check_ok(
                #[trigger] block@[x].1@[y],
            ) by {
                if x == i {
                    assert(block@[x].1@[y] == stmts@[y]);
                }
            }
            i = i + 1;
        }
        b = b + 1;
    }
    assert forall|p: u64, i: int, j: int|
        checker.spec_irmap().contains_key(p) && 0 <= i < checker.spec_irmap()[p]@.len() && 0 <= j
            < checker.spec_irmap()[p]@[i].1@.len() implies checker.check_ok(
        #[trigger] checker.spec_irmap()[p]@[i].1@[j],
    ) by {
        assert(keys@.to_set().contains(p));
        let m = choose|m: int| 0 <= m < keys@.len() && keys@[m] == p;
        assert(checker.check_ok(irmap@[keys@[m]]@[i].1@[j]));
    }
    true
}

/// `Itertools::sorted` on the keys of a map: the keys in increasing order.
#[verifier::external_body]
fn sorted_keys<S>(m: &HashMap<u64, S>) -> (r: Vec<u64>)
    ensures
        r@.to_set() == m@.dom(),
        forall|i: int, j: int| 0 <= i < j < r@.len() ==> r@[i] < r@[j],
{
    m.keys().copied().sorted().collect()
}

/// Checks every statement of every block of `result`, re-running the
/// analysis from the state at the block's start; blocks are visited in
/// increasing address order, and the first failure ends the check.
pub fn check_state_at_statements<State: Lattice, C: Checker<State>>(
    checker: &C,
    result: AnalysisResult<State>,
) -> (r: bool)
    requires
        irmap_ok(&checker.spec_analyzer(), checker.spec_irmap()),
        irmap_check_ok(checker),
        forall|p: u64| #[trigger] result@.contains_key(p) ==> checker.spec_irmap().contains_key(p),
    ensures
        r == all_checked(checker, result@),
{
    let keys = sorted_keys(&result);
    let irmap = checker.irmap();
    let mut b: usize = 0;
    while b < keys.len()
        invariant
            b <= keys@.len(),
            keys@.to_set() == result@.dom(),
            irmap@ == checker.spec_irmap(),
            irmap_ok(&checker.spec_analyzer(), checker.spec_irmap()),
            irmap_check_ok(checker),
            forall|p: u64| #[trigger]
                result@.contains_key(p) ==> checker.spec_irmap().contains_key(p),
            forall|m: int|
                0 <= m < b ==> block_checked(
                    checker,
                    result@[#[trigger] keys@[m]]@,
                    checker.spec_irmap()[keys@[m]]@,
                ),
        decreases keys@.len() - b,
    {
        let block_addr = keys[b];
        assert(keys@.to_set().contains(block_addr));
        assert(result@.contains_key(block_addr));
        let mut state = result.get(&block_addr).unwrap().duplicate();
        let ghost start = state@;
        let irblock = irmap.get(&block_addr).unwrap();
        let ghost a = checker.spec_analyzer();
        let mut i: usize = 0;
        while i < irblock.len()
            invariant
                i <= irblock@.len(),
                irmap@ == checker.spec_irmap(),
                irmap@.contains_key(block_addr),
                *irblock == irmap@[block_addr],
                result@.contains_key(block_addr),
                start == result@[block_addr]@,
                a == checker.spec_analyzer(),
                irmap_ok(&a, checker.spec_irmap()),
                irmap_check_ok(checker),
                state@ == exec_block(&a, start, irblock@, i as nat),
                forall|m: int|
                    0 <= m < i ==> stmts_checked(
                        checker,
                        exec_block(&a, start, irblock@, m as nat),
                        #[trigger] irblock@[m].0,
                        irblock@[m].1@,
                    ),
            decreases irblock@.len() - i,
        {
            let addr = irblock[i].0;
            let ir_stmts = &irblock[i].1;
            let ghost s0 = state@;
            let mut j: usize = 0;
            while j < ir_stmts.len()
                invariant
                    i < irblock@.len(),
                    j <= ir_stmts@.len(),
                    irmap@ == checker.spec_irmap(),
                    irmap@.contains_key(block_addr),
                    *irblock == irmap@[block_addr],
                    result@.contains_key(block_addr),
                    start == result@[block_addr]@,
                    a == checker.spec_analyzer(),
                    irmap_ok(&a, checker.spec_irmap()),
                    irmap_check_ok(checker),
                    *ir_stmts == irblock@[i as int].1,
                    addr == irblock@[i as int].0,
                    s0 == exec_block(&a, start, irblock@, i as nat),
                    state@ == exec_stmts(&a, s0, addr, ir_stmts@, j as nat),
                    forall|m: int|
                        0 <= m < j ==> checker.spec_check_statement(
                            exec_stmts(&a, s0, addr, ir_stmts@, m as nat),
                            #[trigger] ir_stmts@[m],
                            LocIdx { addr: addr, idx: m as u32 },
                        ),
                decreases ir_stmts@.len() - j,
            {
                let loc_idx = LocIdx { addr: addr, idx: j as u32 };
                assert(checker.check_ok(checker.spec_irmap()[block_addr]@[i as int].1@[j as int]));
                if !checker.check_statement(&state, &ir_stmts[j], &loc_idx) {
                    proof {
                        assert(!stmts_checked(checker, s0, addr, ir_stmts@)) by {
                            assert(ir_stmts@[j as int] == ir_stmts@[j as int]);
                        }
                        assert(!block_checked(checker, start, irblock@)) by {
                            assert(irblock@[i as int] == irblock@[i as int]);
                        }
                        assert(result@.contains_key(block_addr));
                    }
                    return false;
                }
                assert(a.stmt_ok(irmap@[block_addr]@[i as int].1@[j as int]));
                checker.aexec(&mut state, &ir_stmts[j], &loc_idx);
                j = j + 1;
            }
            assert(stmts_checked(checker, s0, addr, ir_stmts@));
            i = i + 1;
        }
        assert(block_checked(checker, start, irblock@));
        b = b + 1;
    }
    assert forall|p: u64| #[trigger] result@.contains_key(p) implies block_checked(
        checker,
        result@[p]@,
        checker.spec_irmap()[p]@,
    ) by {
        assert(keys@.to_set().contains(p));
        let m = choose|m: int| 0 <= m < keys@.len() && keys@[m] == p;
        assert(block_checked(checker, result@[keys@[m]]@, checker.spec_irmap()[keys@[m]]@));
    }
    true
}

} // verus!
