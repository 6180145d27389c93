use crate::analyses::jump_analyzer::SwitchAnalyzer;
use crate::analyses::reaching_defs::{analyze_reaching_defs, spec_reaching_defs, ReachingDefnAnalyzer};
use crate::analyses::{
    block_ok, block_supported, exec_block, exec_stmts, irmap_ok, irmap_supported, is_fixpoint, run_worklist,
    spec_run_worklist, views_of, AbstractAnalyzer, AnalysisResult,
};
use crate::ir::cfg::VwCfg;
use crate::loaders::types::VwMetadata;
use crate::ir::types::{IRBlock, IRMap, Stmt, Value, X86Regs};
use crate::lattices::reachingdefslattice::LocIdx;
use crate::lattices::regslattice::regs_get;
use crate::lattices::switchlattice::{SwitchLattice, SwitchValue, SwitchValueLattice, SwitchView};
use crate::lattices::Lattice;
use crate::analyses::jump_analyzer::SwitchStateView;
use crate::loaders::types::ProgramImage;
use crate::utils::map_keys;
use std::collections::HashMap;
use vstd::prelude::*;

verus! {

broadcast use vstd::std_specs::hash::group_hash_axioms;

/// The little-endian 32-bit word at `addr`, if the program holds its four
/// bytes.
pub open spec fn spec_load_target(p: &ProgramImage, addr: int) -> Option<i64> {
    match (p.spec_read(addr), p.spec_read(addr + 1), p.spec_read(addr + 2), p.spec_read(addr + 3)) {
        (Some(b0), Some(b1), Some(b2), Some(b3)) => Some(
            (b0 + b1 * 0x100 + b2 * 0x1_0000 + b3 * 0x100_0000) as i64,
        ),
        _ => None,
    }
}

/// The little-endian 32-bit word at `addr`; `None` where a byte is missing
/// or the word would run past the end of the address space.
pub fn load_target(program: &ProgramImage, addr: u64) -> (r: Option<i64>)
    ensures
        r == (if addr + 3 <= u64::MAX {
            spec_load_target(program, addr as int)
        } else {
            None
        }),
{
    if addr > u64::MAX - 3 {
        return None;
    }
    let b0 = match program.read(addr) {
        Some(b) => b as u32,
        None => return None,
    };
    let b1 = match program.read(addr + 1) {
        Some(b) => b as u32,
        None => return None,
    };
    let b2 = match program.read(addr + 2) {
        Some(b) => b as u32,
        None => return None,
    };
    let b3 = match program.read(addr + 3) {
        Some(b) => b as u32,
        None => return None,
    };
    Some((b0 + b1 * 0x100 + b2 * 0x1_0000 + b3 * 0x100_0000) as i64)
}

/// Jump target `idx` of the table at `base`: the table's entry is an offset
/// from the table itself, added in 32-bit signed arithmetic. `None` where
/// the entry's address or the sum overflows, or the entry cannot be read.
pub open spec fn spec_table_target(p: &ProgramImage, base: u32, idx: int) -> Option<i64> {
    let addr = base + idx * 4;
    if addr > u32::MAX {
        None
    } else {
        match spec_load_target(p, addr) {
            Some(t) => {
                let sum = (base as i32) + (t as i32);
                if i32::MIN <= sum <= i32::MAX {
                    Some(sum as i64)
                } else {
                    None
                }
            },
            None => None,
        }
    }
}

/// The first `n` targets of the table at `base`.
pub open spec fn spec_table_targets(p: &ProgramImage, base: u32, n: nat) -> Option<Seq<i64>>
    decreases n,
{
    if n == 0 {
        Some(Seq::empty())
    } else {
        match (spec_table_targets(p, base, (n - 1) as nat), spec_table_target(p, base, n - 1)) {
            (Some(s), Some(t)) => Some(s.push(t)),
            _ => None,
        }
    }
}

/// The targets of an indirect jump through a value the analysis knows: a
/// table at a known base with a known number of entries.
pub open spec fn spec_extract_jmp_targets(p: &ProgramImage, aval: Option<SwitchView>) -> Option<Seq<i64>> {
    match aval {
        Some(SwitchView::JmpTarget(base, upper_bound)) => spec_table_targets(p, base, upper_bound as nat),
        _ => None,
    }
}

/// The targets of an indirect jump (see `spec_extract_jmp_targets`); `None`
/// when the value is not a known table target or an entry cannot be read.
pub fn extract_jmp_targets(program: &ProgramImage, aval: &SwitchValueLattice) -> (r: Option<Vec<i64>>)
    ensures
        match (r, spec_extract_jmp_targets(program, aval@)) {
            (Some(v), Some(s)) => v@ == s,
            (None, None) => true,
            _ => false,
        },
{
    let (base, upper_bound) = match &aval.v {
        Some(SwitchValue::JmpTarget(base, upper_bound)) => (*base, *upper_bound),
        _ => return None,
    };
    let mut targets: Vec<i64> = Vec::new();
    let mut idx: u32 = 0;
    while idx < upper_bound
        invariant
            idx <= upper_bound,
            spec_table_targets(program, base, idx as nat) == Some(targets@),
            aval@ == Some(SwitchView::JmpTarget(base, upper_bound)),
        decreases upper_bound - idx,
    {
        let addr64: u64 = base as u64 + (idx as u64) * 4;
        if addr64 > u32::MAX as u64 {
            assert(spec_table_target(program, base, idx as int) is None);
            assert(spec_table_targets(program, base, (idx + 1) as nat) is None);
            proof {
                lemma_table_targets_none(program, base, (idx + 1) as nat, upper_bound as nat);
            }
            return None;
        }
        let target = match load_target(program, addr64) {
            Some(t) => t,
            None => {
                proof {
                    lemma_table_targets_none(program, base, (idx + 1) as nat, upper_bound as nat);
                }
                return None;
            },
        };
        let sum: i64 = (base as i32) as i64 + (#[verifier::truncate] (target as i32)) as i64;
        if sum < i32::MIN as i64 || sum > i32::MAX as i64 {
            proof {
                lemma_table_targets_none(program, base, (idx + 1) as nat, upper_bound as nat);
            }
            return None;
        }
        targets.push(sum);
        idx = idx + 1;
    }
    Some(targets)
}

/// Once a target is missing, so are all longer lists.
proof fn lemma_table_targets_none(p: &ProgramImage, base: u32, n: nat, m: nat)
    requires
        n <= m,
        spec_table_targets(p, base, n) is None,
    ensures
        spec_table_targets(p, base, m) is None,
    decreases m - n,
{
    if n < m {
        lemma_table_targets_none(p, base, n + 1, m);
    }
}

/// Whether `(b, i, j)` names statement `j` of instruction `i` of block `b`.
pub open spec fn is_site(irmap: Map<u64, IRBlock>, b: u64, i: int, j: int) -> bool {
    &&& irmap.contains_key(b)
    &&& 0 <= i < irmap[b]@.len()
    &&& 0 <= j < irmap[b]@[i].1@.len()
}

/// The statement at a site.
pub open spec fn site_stmt(irmap: Map<u64, IRBlock>, b: u64, i: int, j: int) -> Stmt {
    irmap[b]@[i].1@[j]
}

/// Whether a statement is a jump through a register.
pub open spec fn is_reg_branch(s: Stmt) -> bool {
    s matches Stmt::Branch(_, Value::Reg(_, _))
}

/// The analysis state just before statement `j` of instruction `i` of a
/// block that starts in state `s`.
pub open spec fn state_before(a: &SwitchAnalyzer, s: SwitchStateView, block: Seq<(u64, Vec<Stmt>)>, i: int, j: int) -> SwitchStateView {
    exec_stmts(a, exec_block(a, s, block, i as nat), block[i].0, block[i].1@, j as nat)
}

/// The targets of the jump through a register at a site, from the state that
/// `result` gives the site's block.
pub open spec fn site_targets(
    a: &SwitchAnalyzer,
    p: &ProgramImage,
    result: Map<u64, SwitchLattice>,
    irmap: Map<u64, IRBlock>,
    b: u64,
    i: int,
    j: int,
) -> Option<Seq<i64>> {
    match site_stmt(irmap, b, i, j) {
        Stmt::Branch(_, Value::Reg(r, _)) => spec_extract_jmp_targets(
            p,
            regs_get(state_before(a, result[b]@, irmap[b]@, i, j).0, r, None),
        ),
        _ => None,
    }
}

/// Whether the jump at a site cannot be resolved: a jump through memory, or
/// one through a register whose targets are not known.
pub open spec fn site_fails(
    a: &SwitchAnalyzer,
    p: &ProgramImage,
    result: Map<u64, SwitchLattice>,
    irmap: Map<u64, IRBlock>,
    b: u64,
    i: int,
    j: int,
) -> bool {
    match site_stmt(irmap, b, i, j) {
        Stmt::Branch(_, Value::Mem(_, _)) => true,
        Stmt::Branch(_, Value::Reg(_, _)) => site_targets(a, p, result, irmap, b, i, j) is None,
        _ => false,
    }
}

/// Whether the jumps of block `b` cannot be resolved: the block is missing,
/// holds a statement the analysis cannot step over, or a jump that fails.
pub open spec fn block_fails(
    a: &SwitchAnalyzer,
    p: &ProgramImage,
    result: Map<u64, SwitchLattice>,
    irmap: Map<u64, IRBlock>,
    b: u64,
) -> bool {
    ||| !irmap.contains_key(b)
    ||| !block_ok(a, irmap[b]@)
    ||| exists|i: int, j: int| #[trigger] is_site(irmap, b, i, j) && site_fails(a, p, result, irmap, b, i, j)
}

/// Whether `m` maps `k` to the targets of some resolved jump at address `k`.
pub open spec fn resolved_entry(
    a: &SwitchAnalyzer,
    p: &ProgramImage,
    result: Map<u64, SwitchLattice>,
    irmap: Map<u64, IRBlock>,
    k: u64,
    v: Seq<i64>,
) -> bool {
    exists|b: u64, i: int, j: int|
        #![trigger site_targets(a, p, result, irmap, b, i, j)]
        result.contains_key(b) && is_site(irmap, b, i, j) && is_reg_branch(site_stmt(irmap, b, i, j))
            && irmap[b]@[i].0 == k && site_targets(a, p, result, irmap, b, i, j) == Some(v)
}

/// Whether `m` maps the address of every jump through a register in the
/// analysed blocks, and only those, to the jump's targets.
pub open spec fn is_resolution(
    a: &SwitchAnalyzer,
    p: &ProgramImage,
    result: Map<u64, SwitchLattice>,
    irmap: Map<u64, IRBlock>,
    m: Map<u64, Vec<i64>>,
) -> bool {
    &&& forall|b: u64, i: int, j: int|
        #![trigger is_site(irmap, b, i, j)]
        result.contains_key(b) && is_site(irmap, b, i, j) && is_reg_branch(site_stmt(irmap, b, i, j))
            ==> m.contains_key(irmap[b]@[i].0)
    &&& forall|k: u64| #[trigger] m.contains_key(k) ==> resolved_entry(a, p, result, irmap, k, m[k]@)
}

/// Resolves the jumps through registers of the analysed blocks: each jump's
/// address is mapped to the targets read from its jump table. `None` when a
/// block cannot be resolved (see `block_fails`).
pub fn resolve_jumps(
    program: &ProgramImage,
    result: AnalysisResult<SwitchLattice>,
    irmap: &IRMap,
    analyzer: &SwitchAnalyzer,
) -> (r: Option<HashMap<u64, Vec<i64>>>)
    ensures
        r is None <==> exists|b: u64| #[trigger]
            result@.contains_key(b) && block_fails(analyzer, program, result@, irmap@, b),
        r matches Some(m) ==> is_resolution(analyzer, program, result@, irmap@, m@),
{
    let keys = map_keys(&result);
    let mut switch_targets: HashMap<u64, Vec<i64>> = HashMap::new();
    let mut kk: usize = 0;
    while kk < keys.len()
        invariant
            kk <= keys@.len(),
            keys@.to_set() == result@.dom(),
            keys@.no_duplicates(),
            forall|n: int| 0 <= n < kk ==> !block_fails(analyzer, program, result@, irmap@, #[trigger] keys@[n]),
            forall|n: int, i: int, j: int|
                #![trigger is_site(irmap@, keys@[n], i, j)]
                0 <= n < kk && is_site(irmap@, keys@[n], i, j) && is_reg_branch(site_stmt(irmap@, keys@[n], i, j))
                    ==> switch_targets@.contains_key(irmap@[keys@[n]]@[i].0),
            forall|k: u64| #[trigger]
                switch_targets@.contains_key(k) ==> resolved_entry(analyzer, program, result@, irmap@, k, switch_targets@[k]@),
        decreases keys@.len() - kk,
    {
        let b = keys[kk];
        assert(keys@.to_set().contains(b));
        let block = match irmap.get(&b) {
            Some(x) => x,
            None => {
                assert(block_fails(analyzer, program, result@, irmap@, b));
                return None;
            },
        };
        if !block_supported(analyzer, block) {
            assert(block_fails(analyzer, program, result@, irmap@, b));
            return None;
        }
        let mut state = result.get(&b).unwrap().duplicate();
        let ghost s0 = state@;
        let mut i: usize = 0;
        while i < block.len()
            invariant
                kk < keys@.len(),
                b == keys@[kk as int],
                result@.contains_key(b),
                irmap@.contains_key(b),
                *block == irmap@[b],
                block_ok(analyzer, block@),
                s0 == result@[b]@,
                i <= block@.len(),
                state@ == exec_block(analyzer, s0, block@, i as nat),
                keys@.to_set() == result@.dom(),
                keys@.no_duplicates(),
                forall|n: int| 0 <= n < kk ==> !block_fails(analyzer, program, result@, irmap@, #[trigger] keys@[n]),
                forall|i2: int, j2: int|
                    #![trigger is_site(irmap@, b, i2, j2)]
                    is_site(irmap@, b, i2, j2) && i2 < i ==> !site_fails(analyzer, program, result@, irmap@, b, i2, j2),
                forall|n: int, i2: int, j2: int|
                    #![trigger is_site(irmap@, keys@[n], i2, j2)]
                    (0 <= n < kk || (n == kk && i2 < i)) && is_site(irmap@, keys@[n], i2, j2) && is_reg_branch(
                        site_stmt(irmap@, keys@[n], i2, j2),
                    ) ==> switch_targets@.contains_key(irmap@[keys@[n]]@[i2].0),
                forall|k: u64| #[trigger]
                    switch_targets@.contains_key(k) ==> resolved_entry(analyzer, program, result@, irmap@, k, switch_targets@[k]@),
            decreases block@.len() - i,
        {
            let addr = block[i].0;
            let stmts = &block[i].1;
            let ghost start = state@;
            let mut j: usize = 0;
            while j < stmts.len()
                invariant
                    kk < keys@.len(),
                    b == keys@[kk as int],
                    result@.contains_key(b),
                    irmap@.contains_key(b),
                    *block == irmap@[b],
                    block_ok(analyzer, block@),
                    s0 == result@[b]@,
                    i < block@.len(),
                    j <= stmts@.len(),
                    *stmts == block@[i as int].1,
                    addr == block@[i as int].0,
                    start == exec_block(analyzer, s0, block@, i as nat),
                    state@ == exec_stmts(analyzer, start, addr, stmts@, j as nat),
                    keys@.to_set() == result@.dom(),
                    keys@.no_duplicates(),
                    forall|n: int| 0 <= n < kk ==> !block_fails(analyzer, program, result@, irmap@, #[trigger] keys@[n]),
                    forall|i2: int, j2: int|
                        #![trigger is_site(irmap@, b, i2, j2)]
                        is_site(irmap@, b, i2, j2) && (i2 < i || (i2 == i && j2 < j)) ==> !site_fails(
                            analyzer,
                            program,
                            result@,
                            irmap@,
                            b,
                            i2,
                            j2,
                        ),
                    forall|n: int, i2: int, j2: int|
                        #![trigger is_site(irmap@, keys@[n], i2, j2)]
                        (0 <= n < kk || (n == kk && (i2 < i || (i2 == i && j2 < j)))) && is_site(
                            irmap@,
                            keys@[n],
                            i2,
                            j2,
                        ) && is_reg_branch(site_stmt(irmap@, keys@[n], i2, j2))
                            ==> switch_targets@.contains_key(irmap@[keys@[n]]@[i2].0),
                    forall|k: u64| #[trigger]
                        switch_targets@.contains_key(k) ==> resolved_entry(
                            analyzer,
                            program,
                            result@,
                            irmap@,
                            k,
                            switch_targets@[k]@,
                        ),
                decreases stmts@.len() - j,
            {
                assert(is_site(irmap@, b, i as int, j as int));
                assert(state@ == state_before(analyzer, s0, block@, i as int, j as int));
                match &stmts[j] {
                    Stmt::Branch(_, Value::Reg(regnum, regsize)) => {
                        let aval = state.regs.get_reg(*regnum, *regsize);
                        match extract_jmp_targets(program, &aval) {
                            Some(targets) => {
                                let ghost prev = switch_targets@;
                                assert(site_targets(analyzer, program, result@, irmap@, b, i as int, j as int) == Some(targets@));
                                switch_targets.insert(addr, targets);
                                assert forall|k: u64| #[trigger]
                                    switch_targets@.contains_key(k) implies resolved_entry(
                                    analyzer,
                                    program,
                                    result@,
                                    irmap@,
                                    k,
                                    switch_targets@[k]@,
                                ) by {
                                    if k != addr {
                                        assert(prev.contains_key(k));
                                    }
                                }
                            },
                            None => {
                                assert(site_fails(analyzer, program, result@, irmap@, b, i as int, j as int));
                                assert(block_fails(analyzer, program, result@, irmap@, b));
                                return None;
                            },
                        }
                    },
                    Stmt::Branch(_, Value::Mem(_, _)) => {
                        assert(site_fails(analyzer, program, result@, irmap@, b, i as int, j as int));
                        assert(block_fails(analyzer, program, result@, irmap@, b));
                        return None;
                    },
                    _ => {},
                }
                assert(analyzer.stmt_ok(block@[i as int].1@[j as int]));
                analyzer.aexec(&mut state, &stmts[j], &LocIdx { addr: addr, idx: j as u32 });
                j = j + 1;
            }
            i = i + 1;
        }
        assert(!block_fails(analyzer, program, result@, irmap@, b));
        kk = kk + 1;
    }
    proof {
        assert forall|b: u64| #[trigger] result@.contains_key(b) implies !block_fails(
            analyzer,
            program,
            result@,
            irmap@,
            b,
        ) by {
            assert(keys@.to_set().contains(b));
            let n = choose|n: int| 0 <= n < keys@.len() && keys@[n] == b;
            assert(!block_fails(analyzer, program, result@, irmap@, keys@[n]));
        }
        assert forall|b: u64, i: int, j: int|
            #![trigger is_site(irmap@, b, i, j)]
            result@.contains_key(b) && is_site(irmap@, b, i, j) && is_reg_branch(site_stmt(irmap@, b, i, j))
                implies switch_targets@.contains_key(irmap@[b]@[i].0) by {
            assert(keys@.to_set().contains(b));
            let n = choose|n: int| 0 <= n < keys@.len() && keys@[n] == b;
            assert(is_site(irmap@, keys@[n], i, j));
        }
    }
    Some(switch_targets)
}

/// Whether `a` is the jump-table analysis that the reaching definitions of
/// the function set up.
pub open spec fn switch_setup(a: SwitchAnalyzer, cfg: &VwCfg, irmap: &IRMap, metadata: VwMetadata) -> bool {
    &&& a.metadata == metadata
    &&& a.reaching_analyzer.cfg == cfg
    &&& a.reaching_analyzer.irmap == irmap
    &&& spec_reaching_defs(cfg, irmap) == Some(views_of(a.reaching_defs@))
}

/// Whether the jump-table analysis `a` fails on the function: a statement
/// cannot be analysed, the analysis does not settle, or the jumps of some
/// block of its result cannot be resolved.
pub open spec fn switch_fails(a: SwitchAnalyzer, program: &ProgramImage, cfg: &VwCfg, irmap: &IRMap) -> bool {
    ||| !irmap_ok(&a, irmap@)
    ||| spec_run_worklist(&a, cfg, irmap@, u64::MAX as nat) is None
    ||| exists|st: Map<u64, SwitchLattice>|
        Some(views_of(st)) == spec_run_worklist(&a, cfg, irmap@, u64::MAX as nat) && exists|b: u64|
            #[trigger] st.contains_key(b) && block_fails(&a, program, st, irmap@, b)
}

/// Resolves the jump tables of a function: runs the reaching-definitions
/// analysis, then the jump-table analysis with its result, and reads the
/// targets of every jump through a register. `None` when an analysis does
/// not settle or cannot step over a statement, or a jump cannot be resolved.
pub fn try_resolve_jumps(
    program: &ProgramImage,
    cfg: &VwCfg,
    metadata: VwMetadata,
    irmap: &IRMap,
) -> (r: Option<HashMap<u64, Vec<i64>>>)
    ensures
        spec_reaching_defs(cfg, irmap) is None ==> r is None,
        r is None ==> spec_reaching_defs(cfg, irmap) is None || exists|a: SwitchAnalyzer|
            switch_setup(a, cfg, irmap, metadata) && switch_fails(a, program, cfg, irmap),
        r matches Some(m) ==> exists|a: SwitchAnalyzer, st: Map<u64, SwitchLattice>|
            {
                &&& switch_setup(a, cfg, irmap, metadata)
                &&& Some(views_of(st)) == spec_run_worklist(&a, cfg, irmap@, u64::MAX as nat)
                &&& is_fixpoint(&a.reaching_analyzer, cfg, irmap@, a.reaching_defs@)
                &&& is_fixpoint(&a, cfg, irmap@, st)
                &&& is_resolution(&a, program, st, irmap@, m@)
            },
{
    let reaching_defs = match analyze_reaching_defs(cfg, irmap, metadata) {
        Some(d) => d,
        None => return None,
    };
    let switch_analyzer = SwitchAnalyzer {
        metadata: metadata,
        reaching_defs: reaching_defs,
        reaching_analyzer: ReachingDefnAnalyzer { cfg: cfg, irmap: irmap },
    };
    assert(switch_setup(switch_analyzer, cfg, irmap, metadata));
    if !irmap_supported(&switch_analyzer, irmap) {
        return None;
    }
    let switch_results = match run_worklist(cfg, irmap, &switch_analyzer, u64::MAX) {
        Some(res) => res,
        None => return None,
    };
    let ghost st = switch_results@;
    let targets = resolve_jumps(program, switch_results, irmap, &switch_analyzer);
    match targets {
        Some(m) => {
            assert(is_resolution(&switch_analyzer, program, st, irmap@, m@));
            Some(m)
        },
        None => {
            assert(switch_fails(switch_analyzer, program, cfg, irmap));
            None
        },
    }
}

} // verus!
