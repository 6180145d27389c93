use crate::analyses::{
    irmap_ok, irmap_supported, is_fixpoint, lemma_fixpoint_blocks_have_code, run_worklist, spec_run_worklist,
    HeapAnalyzer, StackAnalyzer, WasmtimeAnalyzer,
};
use crate::checkers::{
    all_checked, all_checked_v, check_heap, check_stack, check_wasmtime, irmap_check_ok, irmap_check_supported,
    lemma_all_checked_views,
};
use crate::checkers::wasmtime_checker::WasmtimeChecker;
use crate::lattices::wasmtime_lattice::WasmtimeLattice;
use crate::checkers::heap_checker::HeapChecker;
use crate::checkers::stack_checker::StackChecker;
use crate::ir::cfg::VwCfg;
use crate::ir::types::IRMap;
use crate::lattices::heaplattice::HeapLattice;
use crate::lattices::stackgrowthlattice::StackGrowthLattice;
use crate::loaders::types::{ExecutableType, VwArch, VwMetadata, VwSymbol};
use crate::loaders::lucet::spec_is_valid_lucet_func_name;
use crate::loaders::wasmtime::spec_is_valid_wasmtime_func_name;
use crate::ValidationError;
use std::collections::HashMap;
use vstd::prelude::*;

verus! {

/// Which checks to run.
#[derive(Clone, Copy, Debug)]
pub struct PassConfig {
    pub stack: bool,
    pub linear_mem: bool,
    pub call: bool,
    pub zero_cost: bool,
}

/// What to check and how.
pub struct Config {
    pub input_path: String,
    pub _num_jobs: u32,
    pub output_path: String,
    pub has_output: bool,
    pub only_func: Option<String>,
    pub executable_type: ExecutableType,
    pub active_passes: PassConfig,
    pub arch: VwArch,
    pub strict: bool,
}

/// Whether the stack check holds: the stack-growth analysis reaches a
/// fixpoint at which every statement is stack safe.
pub open spec fn spec_stack_safe(cfg: &VwCfg, irmap: &IRMap, st: Map<u64, StackGrowthLattice>) -> bool {
    &&& is_fixpoint(&StackAnalyzer {  }, cfg, irmap@, st)
    &&& all_checked(&StackChecker { irmap: irmap, analyzer: &StackAnalyzer {  } }, st)
}

/// The outcome of the stack check: every statement can be analysed and
/// checked, the analysis settles, and its result passes the check.
pub open spec fn spec_run_stack(cfg: &VwCfg, irmap: &IRMap) -> bool {
    &&& irmap_ok(&StackAnalyzer {  }, irmap@)
    &&& irmap_check_ok(&StackChecker { irmap: irmap, analyzer: &StackAnalyzer {  } })
    &&& spec_run_worklist(&StackAnalyzer {  }, cfg, irmap@, u64::MAX as nat) matches Some(v)
        && all_checked_v(&StackChecker { irmap: irmap, analyzer: &StackAnalyzer {  } }, v)
}

/// Runs the stack-growth analysis of a function and checks its result. A
/// statement that the analysis or the check cannot handle makes the
/// function unsafe.
pub fn run_stack(cfg: &VwCfg, irmap: &IRMap) -> (r: bool)
    ensures
        r == spec_run_stack(cfg, irmap),
        r ==> exists|st: Map<u64, StackGrowthLattice>| spec_stack_safe(cfg, irmap, st),
{
    let stack_analyzer = StackAnalyzer {  };
    if !irmap_supported(&stack_analyzer, irmap) {
        return false;
    }
    let checker = StackChecker { irmap: irmap, analyzer: &stack_analyzer };
    if !irmap_check_supported(&checker) {
        return false;
    }
    let stack_result = match run_worklist(cfg, irmap, &stack_analyzer, u64::MAX) {
        Some(res) => res,
        None => return false,
    };
    let ghost st = stack_result@;
    proof {
        lemma_fixpoint_blocks_have_code(&stack_analyzer, cfg, irmap@, st);
        lemma_all_checked_views(&StackChecker { irmap: irmap, analyzer: &stack_analyzer }, st);
    }
    let stack_safe = check_stack(stack_result, irmap, &stack_analyzer);
    assert(stack_safe ==> spec_stack_safe(cfg, irmap, st));
    stack_safe
}

/// Whether the heap check holds: the heap analysis reaches a fixpoint at
/// which every statement is heap safe.
pub open spec fn spec_heap_safe(
    cfg: &VwCfg,
    irmap: &IRMap,
    metadata: VwMetadata,
    names: &HashMap<u64, String>,
    st: Map<u64, HeapLattice>,
) -> bool {
    &&& is_fixpoint(&HeapAnalyzer { metadata }, cfg, irmap@, st)
    &&& all_checked(
        &HeapChecker { irmap: irmap, analyzer: &HeapAnalyzer { metadata }, name_addr_map: names },
        st,
    )
}

/// The outcome of the heap check (see `spec_run_stack`).
pub open spec fn spec_run_heap(
    cfg: &VwCfg,
    irmap: &IRMap,
    metadata: VwMetadata,
    names: &HashMap<u64, String>,
) -> bool {
    &&& irmap_ok(&HeapAnalyzer { metadata }, irmap@)
    &&& irmap_check_ok(
        &HeapChecker { irmap: irmap, analyzer: &HeapAnalyzer { metadata }, name_addr_map: names },
    )
    &&& spec_run_worklist(&HeapAnalyzer { metadata }, cfg, irmap@, u64::MAX as nat) matches Some(v)
        && all_checked_v(
        &HeapChecker { irmap: irmap, analyzer: &HeapAnalyzer { metadata }, name_addr_map: names },
        v,
    )
}

/// Runs the heap analysis of a Lucet function and checks its result.
pub fn run_heap(
    cfg: &VwCfg,
    irmap: &IRMap,
    metadata: &VwMetadata,
    all_addrs_map: &HashMap<u64, String>,
) -> (r: bool)
    ensures
        r == spec_run_heap(cfg, irmap, *metadata, all_addrs_map),
        r ==> exists|st: Map<u64, HeapLattice>| spec_heap_safe(cfg, irmap, *metadata, all_addrs_map, st),
{
    let heap_analyzer = HeapAnalyzer { metadata: *metadata };
    if !irmap_supported(&heap_analyzer, irmap) {
        return false;
    }
    let checker = HeapChecker { irmap: irmap, analyzer: &heap_analyzer, name_addr_map: all_addrs_map };
    if !irmap_check_supported(&checker) {
        return false;
    }
    let heap_result = match run_worklist(cfg, irmap, &heap_analyzer, u64::MAX) {
        Some(res) => res,
        None => return false,
    };
    let ghost st = heap_result@;
    proof {
        lemma_fixpoint_blocks_have_code(&heap_analyzer, cfg, irmap@, st);
        lemma_all_checked_views(
            &HeapChecker { irmap: irmap, analyzer: &heap_analyzer, name_addr_map: all_addrs_map },
            st,
        );
    }
    let heap_safe = check_heap(heap_result, irmap, &heap_analyzer, all_addrs_map);
    assert(heap_safe ==> spec_heap_safe(cfg, irmap, *metadata, all_addrs_map, st));
    heap_safe
}

/// Whether the Wasmtime heap check holds: the analysis reaches a fixpoint at
/// which every statement is safe.
pub open spec fn spec_wasmtime_safe(
    cfg: &VwCfg,
    irmap: &IRMap,
    analyzer: &WasmtimeAnalyzer,
    st: Map<u64, WasmtimeLattice>,
) -> bool {
    &&& is_fixpoint(analyzer, cfg, irmap@, st)
    &&& all_checked(&WasmtimeChecker { irmap: irmap, analyzer: analyzer }, st)
}

/// The outcome of the Wasmtime heap check (see `spec_run_stack`).
pub open spec fn spec_run_wasmtime(cfg: &VwCfg, irmap: &IRMap, analyzer: &WasmtimeAnalyzer) -> bool {
    &&& irmap_ok(analyzer, irmap@)
    &&& irmap_check_ok(&WasmtimeChecker { irmap: irmap, analyzer: analyzer })
    &&& spec_run_worklist(analyzer, cfg, irmap@, u64::MAX as nat) matches Some(v) && all_checked_v(
        &WasmtimeChecker { irmap: irmap, analyzer: analyzer },
        v,
    )
}

/// Runs the Wasmtime heap analysis of a function and checks its result.
pub fn run_wasmtime(cfg: &VwCfg, irmap: &IRMap, analyzer: &WasmtimeAnalyzer) -> (r: bool)
    ensures
        r == spec_run_wasmtime(cfg, irmap, analyzer),
        r ==> exists|st: Map<u64, WasmtimeLattice>| spec_wasmtime_safe(cfg, irmap, analyzer, st),
{
    if !irmap_supported(analyzer, irmap) {
        return false;
    }
    let checker = WasmtimeChecker { irmap: irmap, analyzer: analyzer };
    if !irmap_check_supported(&checker) {
        return false;
    }
    let result = match run_worklist(cfg, irmap, analyzer, u64::MAX) {
        Some(res) => res,
        None => return false,
    };
    let ghost st = result@;
    proof {
        lemma_fixpoint_blocks_have_code(analyzer, cfg, irmap@, st);
        lemma_all_checked_views(&WasmtimeChecker { irmap: irmap, analyzer: analyzer }, st);
    }
    let safe = check_wasmtime(result, irmap, analyzer);
    assert(safe ==> spec_wasmtime_safe(cfg, irmap, analyzer, st));
    safe
}

/// Whether a symbol of a module of kind `format` names a function to check:
/// it lies in the text section `[text_start, text_start + text_size)` and its
/// name is one of a function.
pub open spec fn is_checked_symbol(sym: VwSymbol, text_start: u64, text_size: u64, format: ExecutableType) -> bool {
    &&& text_start <= sym.addr < text_start + text_size
    &&& match format {
        ExecutableType::Lucet => spec_is_valid_lucet_func_name(sym.name@),
        ExecutableType::Wasmtime => spec_is_valid_wasmtime_func_name(sym.name@),
    }
}

/// The addresses and names of the symbols that are functions to check, in
/// the order of `symbols`.
pub open spec fn spec_functions_to_check(
    symbols: Seq<VwSymbol>,
    text_start: u64,
    text_size: u64,
    format: ExecutableType,
) -> Seq<(u64, Seq<char>)>
    decreases symbols.len(),
{
    if symbols.len() == 0 {
        Seq::empty()
    } else {
        let rest = spec_functions_to_check(symbols.drop_last(), text_start, text_size, format);
        let sym = symbols.last();
        if is_checked_symbol(sym, text_start, text_size, format) {
            rest.push((sym.addr, sym.name@))
        } else {
            rest
        }
    }
}

/// The functions of a module to check (see `spec_functions_to_check`).
pub fn functions_to_check(
    symbols: &Vec<VwSymbol>,
    text_start: u64,
    text_size: u64,
    format: ExecutableType,
) -> (r: Vec<(u64, String)>)
    ensures
        r@.map_values(|e: (u64, String)| (e.0, e.1@)) == spec_functions_to_check(
            symbols@,
            text_start,
            text_size,
            format,
        ),
{
    let mut r: Vec<(u64, String)> = Vec::new();
    let mut i: usize = 0;
    while i < symbols.len()
        invariant
            i <= symbols@.len(),
            r@.map_values(|e: (u64, String)| (e.0, e.1@)) == spec_functions_to_check(
                symbols@.take(i as int),
                text_start,
                text_size,
                format,
            ),
        decreases symbols@.len() - i,
    {
        let sym = &symbols[i];
        assert(symbols@.take(i + 1).drop_last() =~= symbols@.take(i as int));
        assert(symbols@.take(i + 1).last() == symbols@[i as int]);
        let in_text = text_start <= sym.addr && (sym.addr as u128) < text_start as u128 + text_size as u128;
        if in_text && format.is_valid_func_name(&sym.name) {
            let ghost before = r@;
            r.push((sym.addr, sym.name.clone()));
            assert(r@.map_values(|e: (u64, String)| (e.0, e.1@)) =~= before.map_values(
                |e: (u64, String)| (e.0, e.1@),
            ).push((sym.addr, sym.name@)));
        }
        i = i + 1;
    }
    assert(symbols@.take(i as int) =~= symbols@);
    r
}

/// Whether a function is to be checked: every function when no single one
/// was asked for, else only the one of that name.
pub fn selects_func(only_func: &Option<String>, func_name: &str) -> (r: bool)
    ensures
        r == match only_func {
            Some(name) => name@ == func_name@,
            None => true,
        },
{
    match only_func {
        Some(name) => {
            let f = func_name.to_owned();
            *name == f
        },
        None => true,
    }
}

/// Runs the checks that `passes` asks for on one function: first the stack
/// check, then the heap check. The first that fails decides the error.
pub fn check_function(
    passes: &PassConfig,
    cfg: &VwCfg,
    irmap: &IRMap,
    metadata: &VwMetadata,
    all_addrs_map: &HashMap<u64, String>,
) -> (r: Result<(), ValidationError>)
    ensures
        r == if passes.stack && !spec_run_stack(cfg, irmap) {
            Err(ValidationError::StackUnsafe)
        } else if passes.linear_mem && !spec_run_heap(cfg, irmap, *metadata, all_addrs_map) {
            Err(ValidationError::HeapUnsafe)
        } else {
            Ok(())
        },
        r is Ok ==> (passes.stack ==> exists|st: Map<u64, StackGrowthLattice>| spec_stack_safe(cfg, irmap, st))
            && (passes.linear_mem ==> exists|st: Map<u64, HeapLattice>|
            spec_heap_safe(cfg, irmap, *metadata, all_addrs_map, st)),
{
    if passes.stack {
        if !run_stack(cfg, irmap) {
            return Err(ValidationError::StackUnsafe);
        }
    }
    if passes.linear_mem {
        if !run_heap(cfg, irmap, metadata, all_addrs_map) {
            return Err(ValidationError::HeapUnsafe);
        }
    }
    Ok(())
}

} // verus!
