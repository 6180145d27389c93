//! Static checking of sandbox safety for native code compiled from Wasm.
use vstd::prelude::*;

pub mod analyses;
pub mod checkers;
pub mod compilers;
pub mod ir;
pub mod lattices;
pub mod loaders;
pub mod runner;
pub mod utils;

use crate::ir::cfg::{with_edge, with_node, VwBlock, VwCfg};
use crate::lattices::wasmtime_lattice::{copy_wasmtime_value, FieldDesc, VmFieldOffsets, WasmtimeValue};
use crate::analyses::WasmtimeAnalyzer;
use crate::ir::types::IRMap;
use crate::ir::x64::{code_lift_fails, lift_cfg, lifted_from_code};
use crate::lattices::heaplattice::HeapLattice;
use crate::lattices::wasmtime_lattice::WasmtimeLattice;
use crate::loaders::types::{spec_parse_arch, ExecutableType, ProgramImage, VwArch, VwMetadata, VwModule, VwSegment};
use crate::runner::{run_heap, spec_heap_safe, spec_run_heap};
use std::collections::HashMap;

verus! {

/// Why a function failed validation.
#[derive(Clone, Copy, Debug)]
pub enum ValidationError {
    StackUnsafe,
    HeapUnsafe,
    Other(&'static str),
}

/// How the Wasm heap is accessed in machine code, so that the check can serve
/// VMs whose VM-context layouts differ.
#[derive(Clone, Copy, Debug, PartialEq, Eq, Structural)]
pub enum HeapStrategy {
    /// The first argument of every function is a hidden argument, the heap
    /// base, and heap accesses are relative to it. The guard regions are large
    /// enough that no bounds check is needed as long as only an unsigned
    /// 32-bit offset is added to the base (Lucet's design).
    HeapPtrFirstArgWithGuards,
    /// The first argument is a hidden VM-context pointer, and a pointer inside
    /// that structure, at the given offset, points to the heap; the guard
    /// regions are as above (Wasmtime's design).
    VMCtxFirstArgWithGuards { vmctx_heap_base_ptr_offset: usize },
}

/// The end (exclusive) of block `i`: the start of the next block, or the end
/// of the code for the last one.
pub open spec fn block_end(code_len: int, bbs: Seq<usize>, i: int) -> int {
    if i == bbs.len() - 1 {
        code_len
    } else {
        bbs[i + 1] as int
    }
}

/// Whether every block is non-empty.
pub open spec fn blocks_ok(code_len: int, bbs: Seq<usize>) -> bool {
    forall|i: int| 0 <= i < bbs.len() ==> bbs[i] < #[trigger] block_end(code_len, bbs, i)
}

/// The first `n` blocks by start address, each ending just before the next.
pub open spec fn cfg_blocks(code_len: int, bbs: Seq<usize>, n: nat) -> Map<u64, VwBlock>
    decreases n,
{
    if n == 0 {
        Map::empty()
    } else {
        cfg_blocks(code_len, bbs, (n - 1) as nat).insert(
            bbs[n - 1] as u64,
            VwBlock { start: bbs[n - 1] as u64, end: (block_end(code_len, bbs, n - 1) - 1) as u64 },
        )
    }
}

/// The graph with the first `n` block starts as nodes and no edge.
pub open spec fn cfg_nodes(bbs: Seq<usize>, n: nat) -> Map<u64, Seq<u64>>
    decreases n,
{
    if n == 0 {
        Map::empty()
    } else {
        with_node(cfg_nodes(bbs, (n - 1) as nat), bbs[n - 1] as u64)
    }
}

/// `m` with the first `n` edges added in order.
pub open spec fn cfg_with_edges(m: Map<u64, Seq<u64>>, edges: Seq<(usize, usize)>, n: nat) -> Map<u64, Seq<u64>>
    decreases n,
{
    if n == 0 {
        m
    } else {
        with_edge(cfg_with_edges(m, edges, (n - 1) as nat), edges[n - 1].0 as u64, edges[n - 1].1 as u64)
    }
}

/// Adding an edge keeps every node and every successor, and makes `b` a
/// successor of `a`.
pub proof fn lemma_with_edge_keeps(m: Map<u64, Seq<u64>>, a: u64, b: u64)
    ensures
        with_edge(m, a, b).contains_key(a),
        with_edge(m, a, b)[a].contains(b),
        forall|x: u64| #[trigger] m.contains_key(x) ==> with_edge(m, a, b).contains_key(x),
        forall|x: u64, y: u64|
            m.contains_key(x) && #[trigger] m[x].contains(y) ==> #[trigger] with_edge(m, a, b)[x].contains(
                y,
            ),
{
    let m1 = with_node(with_node(m, a), b);
    assert forall|x: u64, y: u64| m.contains_key(x) && #[trigger] m[x].contains(y) implies #[trigger] with_edge(
        m,
        a,
        b,
    )[x].contains(y) by {
        assert(m1[x] == m[x]);
        if !m1[a].contains(b) && x == a {
            let k = choose|k: int| 0 <= k < m[x].len() && m[x][k] == y;
            assert(m1[a].push(b)[k] == y);
        }
    }
    if !m1[a].contains(b) {
        assert(m1[a].push(b)[m1[a].len() as int] == b);
    }
}

/// Builds the control-flow graph of a function from the block starts and
/// edges that the compiler reports, without recovering it from the code.
/// Every block start is a node, and every reported edge is an edge.
pub fn get_cfg_from_compiler_info(code: &[u8], basic_blocks: &[usize], cfg_edges: &[(usize, usize)]) -> (cfg: VwCfg)
    requires
        blocks_ok(code@.len() as int, basic_blocks@),
    ensures
        cfg.entrypoint == 0,
        cfg.blocks@ == cfg_blocks(code@.len() as int, basic_blocks@, basic_blocks@.len()),
        cfg.succs() == cfg_with_edges(
            cfg_nodes(basic_blocks@, basic_blocks@.len()),
            cfg_edges@,
            cfg_edges@.len(),
        ),
        forall|i: int| 0 <= i < basic_blocks@.len() ==> cfg.succs().contains_key(#[trigger] basic_blocks@[i] as u64),
        forall|k: int|
            0 <= k < cfg_edges@.len() ==> cfg.succs().contains_key(#[trigger] cfg_edges@[k].0 as u64)
                && cfg.succs()[cfg_edges@[k].0 as u64].contains(cfg_edges@[k].1 as u64),
{
    let mut cfg = VwCfg::new(0);
    let mut i: usize = 0;
    while i < basic_blocks.len()
        invariant
            i <= basic_blocks@.len(),
            blocks_ok(code@.len() as int, basic_blocks@),
            cfg.entrypoint == 0,
            cfg.blocks@ == cfg_blocks(code@.len() as int, basic_blocks@, i as nat),
            cfg.succs() == cfg_nodes(basic_blocks@, i as nat),
            forall|j: int| 0 <= j < i ==> cfg.succs().contains_key(#[trigger] basic_blocks@[j] as u64),
        decreases basic_blocks@.len() - i,
    {
        let start = basic_blocks[i] as u64;
        let end = if i == basic_blocks.len() - 1 {
            code.len() as u64
        } else {
            basic_blocks[i + 1] as u64
        };
        assert(basic_blocks@[i as int] < block_end(code@.len() as int, basic_blocks@, i as int));
        // `end` is inclusive
        cfg.add_block(VwBlock { start, end: end - 1 });
        i = i + 1;
    }
    let ghost nodes = cfg.succs();
    let mut k: usize = 0;
    while k < cfg_edges.len()
        invariant
            k <= cfg_edges@.len(),
            cfg.entrypoint == 0,
            cfg.blocks@ == cfg_blocks(code@.len() as int, basic_blocks@, basic_blocks@.len()),
            cfg.succs() == cfg_with_edges(nodes, cfg_edges@, k as nat),
            forall|j: int| 0 <= j < basic_blocks@.len() ==> cfg.succs().contains_key(#[trigger] basic_blocks@[j] as u64),
            forall|e: int|
                0 <= e < k ==> cfg.succs().contains_key(#[trigger] cfg_edges@[e].0 as u64)
                    && cfg.succs()[cfg_edges@[e].0 as u64].contains(cfg_edges@[e].1 as u64),
        decreases cfg_edges@.len() - k,
    {
        let (from, to) = cfg_edges[k];
        proof {
            lemma_with_edge_keeps(cfg.succs(), from as u64, to as u64);
        }
        cfg.add_edge(from as u64, to as u64);
        k = k + 1;
    }
    cfg
}

/// The parts of a Wasmtime VM-context layout that the heap check reads: where
/// each array of fields begins, and how many entries it has.
#[derive(Clone, Copy, Debug)]
pub struct VmCtxLayout {
    pub signature_ids_begin: u32,
    pub num_signature_ids: u32,
    pub imported_functions_begin: u32,
    pub num_imported_functions: u32,
    pub tables_begin: u32,
    pub num_defined_tables: u32,
    pub globals_begin: u32,
    pub num_defined_globals: u32,
    pub memories_begin: u32,
    pub builtin_functions_begin: u32,
    pub size: u32,
}

/// The sizes from which Wasmtime lays out a module's VM context: the
/// pointer size and the number of each kind of entity.
#[derive(Clone, Copy, Debug, PartialEq, Eq, Structural)]
pub struct VmOffsetCounts {
    pub pointer_size: u8,
    pub num_signature_ids: u32,
    pub num_imported_functions: u32,
    pub num_imported_tables: u32,
    pub num_imported_memories: u32,
    pub num_imported_globals: u32,
    pub num_defined_functions: u32,
    pub num_defined_tables: u32,
    pub num_defined_memories: u32,
    pub num_defined_globals: u32,
}

/// The number of Wasmtime's builtin functions, whose pointers end the VM
/// context.
pub const NUM_BUILTIN_FUNCTIONS: u32 = 27;

/// `base + count * width`, if it stays within 32 bits.
pub open spec fn after(base: Option<int>, count: int, width: int) -> Option<int> {
    match base {
        Some(b) => if count * width <= u32::MAX && b + count * width <= u32::MAX {
            Some(b + count * width)
        } else {
            None
        },
        None => None,
    }
}

/// The layout of a VM context, as Wasmtime computes it: after three
/// pointers come the signature ids (4 bytes each), the imported functions,
/// tables and memories (two pointers each) and globals (one pointer), the
/// defined tables and memories (two pointers each), the defined globals (16
/// bytes each, from a 16-aligned offset), the function references of every
/// imported and defined function (three pointers each), and the builtin
/// functions (one pointer each). `None` where an offset does not fit in 32
/// bits, or an entry size in 8 bits; Wasmtime panics there. The library
/// takes the offsets themselves from Wasmtime, and this computation only
/// tells where Wasmtime can be asked.
pub open spec fn spec_vmctx_layout(c: VmOffsetCounts) -> Option<VmCtxLayout> {
    let p = c.pointer_size as int;
    let sig = Some(3 * p);
    let ifb = after(sig, c.num_signature_ids as int, 4);
    let itb = after(ifb, c.num_imported_functions as int, 2 * p);
    let imb = after(itb, c.num_imported_tables as int, 2 * p);
    let igb = after(imb, c.num_imported_memories as int, 2 * p);
    let tb = after(igb, c.num_imported_globals as int, p);
    let mb = after(tb, c.num_defined_tables as int, 2 * p);
    let gpre = after(mb, c.num_defined_memories as int, 2 * p);
    let gb = match gpre {
        Some(g) => if g + 15 <= u32::MAX {
            Some((g + 15) / 16 * 16)
        } else {
            None
        },
        None => None,
    };
    let afb = after(gb, c.num_defined_globals as int, 16);
    let nfuncs = c.num_imported_functions + c.num_defined_functions;
    let bfb = if nfuncs <= u32::MAX {
        after(afb, nfuncs, 3 * p)
    } else {
        None
    };
    let size = after(bfb, NUM_BUILTIN_FUNCTIONS as int, p);
    if 3 * p > 255 {
        None
    } else {
        match (ifb, tb, gb, mb, bfb, size) {
            (Some(ifb), Some(tb), Some(gb), Some(mb), Some(bfb), Some(size)) => Some(
                VmCtxLayout {
                    signature_ids_begin: (3 * p) as u32,
                    num_signature_ids: c.num_signature_ids,
                    imported_functions_begin: ifb as u32,
                    num_imported_functions: c.num_imported_functions,
                    tables_begin: tb as u32,
                    num_defined_tables: c.num_defined_tables,
                    globals_begin: gb as u32,
                    num_defined_globals: c.num_defined_globals,
                    memories_begin: mb as u32,
                    builtin_functions_begin: bfb as u32,
                    size: size as u32,
                },
            ),
            _ => None,
        }
    }
}

/// `base + count * width` (see `after`).
fn after_exec(base: Option<u32>, count: u32, width: u32) -> (r: Option<u32>)
    ensures
        r == (match after(
            match base {
                Some(b) => Some(b as int),
                None => None,
            },
            count as int,
            width as int,
        ) {
            Some(x) => Some(x as u32),
            None => None,
        }),
        r matches Some(x) ==> base matches Some(b) && x == b + count * width,
{
    match base {
        Some(b) => match count.checked_mul(width) {
            Some(m) => b.checked_add(m),
            None => None,
        },
        None => None,
    }
}

/// The layout of `spec_vmctx_layout`, computed; `None` where an offset
/// overflows.
fn checked_layout(c: &VmOffsetCounts) -> (r: Option<VmCtxLayout>)
    ensures
        r == spec_vmctx_layout(*c),
{
    let p = c.pointer_size as u32;
    if 3 * p > 255 {
        return None;
    }
    let sig = Some(3 * p);
    let ifb = after_exec(sig, c.num_signature_ids, 4);
    let itb = after_exec(ifb, c.num_imported_functions, 2 * p);
    let imb = after_exec(itb, c.num_imported_tables, 2 * p);
    let igb = after_exec(imb, c.num_imported_memories, 2 * p);
    let tb = after_exec(igb, c.num_imported_globals, p);
    let mb = after_exec(tb, c.num_defined_tables, 2 * p);
    let gpre = after_exec(mb, c.num_defined_memories, 2 * p);
    let gb = match gpre {
        Some(g) => if g <= u32::MAX - 15 {
            Some((g + 15) / 16 * 16)
        } else {
            None
        },
        None => None,
    };
    let afb = after_exec(gb, c.num_defined_globals, 16);
    let bfb = match c.num_imported_functions.checked_add(c.num_defined_functions) {
        Some(n) => after_exec(afb, n, 3 * p),
        None => None,
    };
    let size = after_exec(bfb, NUM_BUILTIN_FUNCTIONS, p);
    match (ifb, tb, gb, mb, bfb, size) {
        (Some(ifb), Some(tb), Some(gb), Some(mb), Some(bfb), Some(size)) => Some(
            VmCtxLayout {
                signature_ids_begin: 3 * p,
                num_signature_ids: c.num_signature_ids,
                imported_functions_begin: ifb,
                num_imported_functions: c.num_imported_functions,
                tables_begin: tb,
                num_defined_tables: c.num_defined_tables,
                globals_begin: gb,
                num_defined_globals: c.num_defined_globals,
                memories_begin: mb,
                builtin_functions_begin: bfb,
                size: size,
            },
        ),
        _ => None,
    }
}

/// Wasmtime's `VMOffsets::vmctx_signature_ids_begin` for a module with the sizes `c`: the offset of the signature ids.
pub uninterp spec fn wasmtime_signature_ids_begin(c: VmOffsetCounts) -> u32;

/// `VMOffsets::vmctx_signature_ids_begin` of the `VMOffsets` with the sizes `c` (the offset of the signature ids).
/// Its checked arithmetic does not overflow where `spec_vmctx_layout` gives a
/// layout.
#[verifier::external_body]
fn wt_signature_ids_begin(c: &VmOffsetCounts) -> (r: u32)
    requires
        spec_vmctx_layout(*c) is Some,
    ensures
        r == wasmtime_signature_ids_begin(*c),
{
    wasmtime_environ::VMOffsets {
        pointer_size: c.pointer_size,
        num_signature_ids: c.num_signature_ids,
        num_imported_functions: c.num_imported_functions,
        num_imported_tables: c.num_imported_tables,
        num_imported_memories: c.num_imported_memories,
        num_imported_globals: c.num_imported_globals,
        num_defined_functions: c.num_defined_functions,
        num_defined_tables: c.num_defined_tables,
        num_defined_memories: c.num_defined_memories,
        num_defined_globals: c.num_defined_globals,
    }.vmctx_signature_ids_begin()
}

/// Wasmtime's `VMOffsets::vmctx_imported_functions_begin` for a module with the sizes `c`: the offset of the imported functions.
pub uninterp spec fn wasmtime_imported_functions_begin(c: VmOffsetCounts) -> u32;

/// `VMOffsets::vmctx_imported_functions_begin` of the `VMOffsets` with the sizes `c` (the offset of the imported functions).
/// Its checked arithmetic does not overflow where `spec_vmctx_layout` gives a
/// layout.
#[verifier::external_body]
fn wt_imported_functions_begin(c: &VmOffsetCounts) -> (r: u32)
    requires
        spec_vmctx_layout(*c) is Some,
    ensures
        r == wasmtime_imported_functions_begin(*c),
{
    wasmtime_environ::VMOffsets {
        pointer_size: c.pointer_size,
        num_signature_ids: c.num_signature_ids,
        num_imported_functions: c.num_imported_functions,
        num_imported_tables: c.num_imported_tables,
        num_imported_memories: c.num_imported_memories,
        num_imported_globals: c.num_imported_globals,
        num_defined_functions: c.num_defined_functions,
        num_defined_tables: c.num_defined_tables,
        num_defined_memories: c.num_defined_memories,
        num_defined_globals: c.num_defined_globals,
    }.vmctx_imported_functions_begin()
}

/// Wasmtime's `VMOffsets::vmctx_tables_begin` for a module with the sizes `c`: the offset of the defined tables.
pub uninterp spec fn wasmtime_tables_begin(c: VmOffsetCounts) -> u32;

/// `VMOffsets::vmctx_tables_begin` of the `VMOffsets` with the sizes `c` (the offset of the defined tables).
/// Its checked arithmetic does not overflow where `spec_vmctx_layout` gives a
/// layout.
#[verifier::external_body]
fn wt_tables_begin(c: &VmOffsetCounts) -> (r: u32)
    requires
        spec_vmctx_layout(*c) is Some,
    ensures
        r == wasmtime_tables_begin(*c),
{
    wasmtime_environ::VMOffsets {
        pointer_size: c.pointer_size,
        num_signature_ids: c.num_signature_ids,
        num_imported_functions: c.num_imported_functions,
        num_imported_tables: c.num_imported_tables,
        num_imported_memories: c.num_imported_memories,
        num_imported_globals: c.num_imported_globals,
        num_defined_functions: c.num_defined_functions,
        num_defined_tables: c.num_defined_tables,
        num_defined_memories: c.num_defined_memories,
        num_defined_globals: c.num_defined_globals,
    }.vmctx_tables_begin()
}

/// Wasmtime's `VMOffsets::vmctx_memories_begin` for a module with the sizes `c`: the offset of the defined memories.
pub uninterp spec fn wasmtime_memories_begin(c: VmOffsetCounts) -> u32;

/// `VMOffsets::vmctx_memories_begin` of the `VMOffsets` with the sizes `c` (the offset of the defined memories).
/// Its checked arithmetic does not overflow where `spec_vmctx_layout` gives a
/// layout.
#[verifier::external_body]
fn wt_memories_begin(c: &VmOffsetCounts) -> (r: u32)
    requires
        spec_vmctx_layout(*c) is Some,
    ensures
        r == wasmtime_memories_begin(*c),
{
    wasmtime_environ::VMOffsets {
        pointer_size: c.pointer_size,
        num_signature_ids: c.num_signature_ids,
        num_imported_functions: c.num_imported_functions,
        num_imported_tables: c.num_imported_tables,
        num_imported_memories: c.num_imported_memories,
        num_imported_globals: c.num_imported_globals,
        num_defined_functions: c.num_defined_functions,
        num_defined_tables: c.num_defined_tables,
        num_defined_memories: c.num_defined_memories,
        num_defined_globals: c.num_defined_globals,
    }.vmctx_memories_begin()
}

/// Wasmtime's `VMOffsets::vmctx_globals_begin` for a module with the sizes `c`: the offset of the defined globals.
pub uninterp spec fn wasmtime_globals_begin(c: VmOffsetCounts) -> u32;

/// `VMOffsets::vmctx_globals_begin` of the `VMOffsets` with the sizes `c` (the offset of the defined globals).
/// Its checked arithmetic does not overflow where `spec_vmctx_layout` gives a
/// layout.
#[verifier::external_body]
fn wt_globals_begin(c: &VmOffsetCounts) -> (r: u32)
    requires
        spec_vmctx_layout(*c) is Some,
    ensures
        r == wasmtime_globals_begin(*c),
{
    wasmtime_environ::VMOffsets {
        pointer_size: c.pointer_size,
        num_signature_ids: c.num_signature_ids,
        num_imported_functions: c.num_imported_functions,
        num_imported_tables: c.num_imported_tables,
        num_imported_memories: c.num_imported_memories,
        num_imported_globals: c.num_imported_globals,
        num_defined_functions: c.num_defined_functions,
        num_defined_tables: c.num_defined_tables,
        num_defined_memories: c.num_defined_memories,
        num_defined_globals: c.num_defined_globals,
    }.vmctx_globals_begin()
}

/// Wasmtime's `VMOffsets::vmctx_builtin_functions_begin` for a module with the sizes `c`: the offset of the builtin functions.
pub uninterp spec fn wasmtime_builtin_functions_begin(c: VmOffsetCounts) -> u32;

/// `VMOffsets::vmctx_builtin_functions_begin` of the `VMOffsets` with the sizes `c` (the offset of the builtin functions).
/// Its checked arithmetic does not overflow where `spec_vmctx_layout` gives a
/// layout.
#[verifier::external_body]
fn wt_builtin_functions_begin(c: &VmOffsetCounts) -> (r: u32)
    requires
        spec_vmctx_layout(*c) is Some,
    ensures
        r == wasmtime_builtin_functions_begin(*c),
{
    wasmtime_environ::VMOffsets {
        pointer_size: c.pointer_size,
        num_signature_ids: c.num_signature_ids,
        num_imported_functions: c.num_imported_functions,
        num_imported_tables: c.num_imported_tables,
        num_imported_memories: c.num_imported_memories,
        num_imported_globals: c.num_imported_globals,
        num_defined_functions: c.num_defined_functions,
        num_defined_tables: c.num_defined_tables,
        num_defined_memories: c.num_defined_memories,
        num_defined_globals: c.num_defined_globals,
    }.vmctx_builtin_functions_begin()
}

/// Wasmtime's `VMOffsets::size_of_vmctx` for a module with the sizes `c`: the size of the VM context.
pub uninterp spec fn wasmtime_size(c: VmOffsetCounts) -> u32;

/// `VMOffsets::size_of_vmctx` of the `VMOffsets` with the sizes `c` (the size of the VM context).
/// Its checked arithmetic does not overflow where `spec_vmctx_layout` gives a
/// layout.
#[verifier::external_body]
fn wt_size(c: &VmOffsetCounts) -> (r: u32)
    requires
        spec_vmctx_layout(*c) is Some,
    ensures
        r == wasmtime_size(*c),
{
    wasmtime_environ::VMOffsets {
        pointer_size: c.pointer_size,
        num_signature_ids: c.num_signature_ids,
        num_imported_functions: c.num_imported_functions,
        num_imported_tables: c.num_imported_tables,
        num_imported_memories: c.num_imported_memories,
        num_imported_globals: c.num_imported_globals,
        num_defined_functions: c.num_defined_functions,
        num_defined_tables: c.num_defined_tables,
        num_defined_memories: c.num_defined_memories,
        num_defined_globals: c.num_defined_globals,
    }.size_of_vmctx()
}

/// The layout that Wasmtime computes for the VM context of a module with the
/// sizes `c`.
pub open spec fn wasmtime_layout(c: VmOffsetCounts) -> VmCtxLayout {
    VmCtxLayout {
        signature_ids_begin: wasmtime_signature_ids_begin(c),
        num_signature_ids: c.num_signature_ids,
        imported_functions_begin: wasmtime_imported_functions_begin(c),
        num_imported_functions: c.num_imported_functions,
        tables_begin: wasmtime_tables_begin(c),
        num_defined_tables: c.num_defined_tables,
        globals_begin: wasmtime_globals_begin(c),
        num_defined_globals: c.num_defined_globals,
        memories_begin: wasmtime_memories_begin(c),
        builtin_functions_begin: wasmtime_builtin_functions_begin(c),
        size: wasmtime_size(c),
    }
}

/// The layout that Wasmtime computes for the VM context of a module with the
/// sizes `c`; `None` where that computation overflows (Wasmtime panics
/// there; see `spec_vmctx_layout`).
pub fn vmctx_layout(c: &VmOffsetCounts) -> (r: Option<VmCtxLayout>)
    ensures
        match spec_vmctx_layout(*c) {
            Some(_) => r == Some(wasmtime_layout(*c)),
            None => r is None,
        },
{
    if checked_layout(c).is_none() {
        return None;
    }
    Some(
        VmCtxLayout {
            signature_ids_begin: wt_signature_ids_begin(c),
            num_signature_ids: c.num_signature_ids,
            imported_functions_begin: wt_imported_functions_begin(c),
            num_imported_functions: c.num_imported_functions,
            tables_begin: wt_tables_begin(c),
            num_defined_tables: c.num_defined_tables,
            globals_begin: wt_globals_begin(c),
            num_defined_globals: c.num_defined_globals,
            memories_begin: wt_memories_begin(c),
            builtin_functions_begin: wt_builtin_functions_begin(c),
            size: wt_size(c),
        },
    )
}

/// `m` with `v` stored at the `count` offsets `start`, `start + step`, ...
pub open spec fn fill_fields(
    m: Map<i64, WasmtimeValue>,
    start: int,
    step: int,
    count: nat,
    v: WasmtimeValue,
) -> Map<i64, WasmtimeValue>
    decreases count,
{
    if count == 0 {
        m
    } else {
        fill_fields(m, start, step, (count - 1) as nat, v).insert((start + step * (count - 1)) as i64, v)
    }
}

/// The number of 8-byte builtin-function slots.
pub open spec fn builtin_count(l: VmCtxLayout) -> nat {
    if l.size > l.builtin_functions_begin {
        ((l.size - l.builtin_functions_begin + 7) / 8) as nat
    } else {
        0
    }
}

/// The fields of a VM context by offset: signature ids (4 bytes each) and
/// imported functions (two 8-byte words each) are read/execute; each table
/// is a pointer to its elements followed by its read-only size; globals are
/// read/write; the first memory's slot holds the heap base; builtin
/// functions are read/execute. A later kind overrides an earlier one at the
/// same offset.
pub open spec fn spec_layout_offsets(l: VmCtxLayout) -> Map<i64, WasmtimeValue> {
    let rx = WasmtimeValue::VmCtxField(FieldDesc::Rx);
    let m1 = fill_fields(Map::empty(), l.signature_ids_begin as int, 4, (l.num_signature_ids * 2) as nat, rx);
    let m2 = fill_fields(m1, l.imported_functions_begin as int, 8, (l.num_imported_functions * 2) as nat, rx);
    let m3 = fill_fields(
        m2,
        l.tables_begin as int,
        16,
        l.num_defined_tables as nat,
        WasmtimeValue::VmCtxField(FieldDesc::Ptr(Box::new(WasmtimeValue::VmCtxField(FieldDesc::R)))),
    );
    let m4 = fill_fields(
        m3,
        l.tables_begin + 8,
        16,
        l.num_defined_tables as nat,
        WasmtimeValue::VmCtxField(FieldDesc::R),
    );
    let m5 = fill_fields(
        m4,
        l.globals_begin as int,
        8,
        l.num_defined_globals as nat,
        WasmtimeValue::VmCtxField(FieldDesc::Rw),
    );
    let m6 = m5.insert(l.memories_begin as i64, WasmtimeValue::HeapBase);
    fill_fields(m6, l.builtin_functions_begin as int, 8, builtin_count(l), rx)
}

/// Stores `v` at `count` offsets from `start`, `step` bytes apart.
fn fill_offsets(m: &mut VmFieldOffsets, start: u64, step: u64, count: u64, v: &WasmtimeValue)
    requires
        start <= 0x2_0000_0000,
        step <= 16,
        count <= 0x2_0000_0000,
    ensures
        final(m)@ == fill_fields(old(m)@, start as int, step as int, count as nat, *v),
{
    let mut j: u64 = 0;
    while j < count
        invariant
            j <= count,
            start <= 0x2_0000_0000,
            step <= 16,
            count <= 0x2_0000_0000,
            m@ == fill_fields(old(m)@, start as int, step as int, j as nat, *v),
        decreases count - j,
    {
        assert(step * j <= 16 * 0x2_0000_0000) by (nonlinear_arith)
            requires
                step <= 16,
                j <= 0x2_0000_0000,
        ;
        let offset = start + step * j;
        m.insert(offset as i64, copy_wasmtime_value(v));
        j = j + 1;
    }
}

/// The fields of the VM context of `layout`, by offset.
pub fn layout_offsets(layout: &VmCtxLayout) -> (r: VmFieldOffsets)
    ensures
        r@ == spec_layout_offsets(*layout),
{
    let mut offsets: VmFieldOffsets = HashMap::new();
    let rx = WasmtimeValue::VmCtxField(FieldDesc::Rx);
    // 1. signature ids, 4 bytes each
    fill_offsets(&mut offsets, layout.signature_ids_begin as u64, 4, layout.num_signature_ids as u64 * 2, &rx);
    // 2. imported functions
    fill_offsets(&mut offsets, layout.imported_functions_begin as u64, 8, layout.num_imported_functions as u64 * 2, &rx);
    // 3. tables: 8 bytes of base pointer, 8 bytes of size
    fill_offsets(
        &mut offsets,
        layout.tables_begin as u64,
        16,
        layout.num_defined_tables as u64,
        &WasmtimeValue::VmCtxField(FieldDesc::Ptr(Box::new(WasmtimeValue::VmCtxField(FieldDesc::R)))),
    );
    fill_offsets(
        &mut offsets,
        layout.tables_begin as u64 + 8,
        16,
        layout.num_defined_tables as u64,
        &WasmtimeValue::VmCtxField(FieldDesc::R),
    );
    // 4. globals
    fill_offsets(
        &mut offsets,
        layout.globals_begin as u64,
        8,
        layout.num_defined_globals as u64,
        &WasmtimeValue::VmCtxField(FieldDesc::Rw),
    );
    // 5. the heap base
    offsets.insert(layout.memories_begin as i64, WasmtimeValue::HeapBase);
    // 6. builtin functions
    let count: u64 = if layout.size > layout.builtin_functions_begin {
        ((layout.size - layout.builtin_functions_begin) as u64 + 7) / 8
    } else {
        0
    };
    fill_offsets(&mut offsets, layout.builtin_functions_begin as u64, 8, count, &rx);
    offsets
}

/// The fields of the VM context of a module with the given sizes, by offset.
/// Wasmtime's layout computation must not overflow (Wasmtime panics there).
pub fn get_vm_offsets(c: &VmOffsetCounts) -> (r: VmFieldOffsets)
    requires
        spec_vmctx_layout(*c) is Some,
    ensures
        r@ == spec_layout_offsets(wasmtime_layout(*c)),
{
    let layout = vmctx_layout(c).unwrap();
    layout_offsets(&layout)
}

/// With non-empty blocks, every block ends within the code.
proof fn lemma_block_end_le(code_len: int, bbs: Seq<usize>, k: int)
    requires
        blocks_ok(code_len, bbs),
        0 <= k < bbs.len(),
    ensures
        block_end(code_len, bbs, k) <= code_len,
    decreases bbs.len() - k,
{
    if k < bbs.len() - 1 {
        lemma_block_end_le(code_len, bbs, k + 1);
        assert(bbs[k + 1] < block_end(code_len, bbs, k + 1));
    }
}

/// With non-empty blocks, the last byte of every block lies within the code.
pub proof fn lemma_cfg_blocks_in_code(code_len: int, bbs: Seq<usize>, n: nat)
    requires
        blocks_ok(code_len, bbs),
        n <= bbs.len(),
        code_len <= u64::MAX,
    ensures
        forall|a: u64| #[trigger] cfg_blocks(code_len, bbs, n).contains_key(a) ==> cfg_blocks(
            code_len,
            bbs,
            n,
        )[a].end < code_len,
    decreases n,
{
    if n > 0 {
        lemma_cfg_blocks_in_code(code_len, bbs, (n - 1) as nat);
        lemma_block_end_le(code_len, bbs, n - 1);
        assert(bbs[n - 1] < block_end(code_len, bbs, n - 1));
        let e = block_end(code_len, bbs, n - 1);
        assert((e - 1) as u64 == e - 1);
        let m = cfg_blocks(code_len, bbs, n);
        let prev = cfg_blocks(code_len, bbs, (n - 1) as nat);
        assert(m == prev.insert(bbs[n - 1] as u64, VwBlock { start: bbs[n - 1] as u64, end: (e - 1) as u64 }));
        assert forall|a: u64| #[trigger] m.contains_key(a) implies m[a].end < code_len by {
            if a != bbs[n - 1] as u64 {
                assert(prev.contains_key(a));
            }
        }
    }
}

/// Whether every block is non-empty (see `blocks_ok`).
pub fn blocks_nonempty(code_len: usize, basic_blocks: &[usize]) -> (r: bool)
    ensures
        r == blocks_ok(code_len as int, basic_blocks@),
{
    let mut i: usize = 0;
    while i < basic_blocks.len()
        invariant
            i <= basic_blocks@.len(),
            forall|j: int| 0 <= j < i ==> basic_blocks@[j] < #[trigger] block_end(code_len as int, basic_blocks@, j),
        decreases basic_blocks@.len() - i,
    {
        let end = if i == basic_blocks.len() - 1 {
            code_len
        } else {
            basic_blocks[i + 1]
        };
        if basic_blocks[i] >= end {
            assert(!(basic_blocks@[i as int] < block_end(code_len as int, basic_blocks@, i as int)));
            return false;
        }
        i = i + 1;
    }
    true
}

/// The Lucet symbols assumed when checking a function on its own: none of
/// them is known, so the addresses are ones that no code uses.
pub open spec fn dummy_metadata() -> VwMetadata {
    VwMetadata {
        guest_table_0: 0x123456789abcdef0,
        lucet_tables: 0x123456789abcdef0,
        lucet_probestack: 0x123456789abcdef0,
    }
}

/// A copy of a slice of bytes.
fn bytes_to_vec(code: &[u8]) -> (r: Vec<u8>)
    ensures
        r@ == code@,
{
    let mut r: Vec<u8> = Vec::new();
    let mut i: usize = 0;
    while i < code.len()
        invariant
            i <= code@.len(),
            r@ == code@.take(i as int),
        decreases code@.len() - i,
    {
        r.push(code[i]);
        assert(r@ =~= code@.take(i + 1));
        i = i + 1;
    }
    assert(code@.take(i as int) =~= code@);
    r
}

/// A module made of one function's machine code alone, at address 0, with
/// the Lucet symbols of [`dummy_metadata`].
pub fn create_dummy_module(code: &[u8], format: ExecutableType, arch: VwArch) -> (r: VwModule)
    ensures
        r.program.segments@.len() == 1,
        r.program.segments@[0].start == 0,
        r.program.segments@[0].data@ == code@,
        r.program.segments@[0].name@ == ".text"@,
        r.metadata == dummy_metadata(),
        r.format == format,
        r.arch == arch,
{
    let seg = VwSegment { start: 0, data: bytes_to_vec(code), name: ".text".to_owned() };
    proof {
        reveal_strlit(".text");
    }
    VwModule {
        program: ProgramImage { segments: vec![seg] },
        metadata: VwMetadata {
            guest_table_0: 0x123456789abcdef0,
            lucet_tables: 0x123456789abcdef0,
            lucet_probestack: 0x123456789abcdef0,
        },
        format: format,
        arch: arch,
    }
}

/// Whether `cfg` is the graph that the compiler's blocks and edges describe.
pub open spec fn is_compiler_cfg(cfg: VwCfg, code_len: int, basic_blocks: Seq<usize>, cfg_edges: Seq<(usize, usize)>) -> bool {
    &&& cfg.entrypoint == 0
    &&& cfg.blocks@ == cfg_blocks(code_len, basic_blocks, basic_blocks.len())
    &&& cfg.succs() == cfg_with_edges(cfg_nodes(basic_blocks, basic_blocks.len()), cfg_edges, cfg_edges.len())
}

/// The address of Lucet's stack probe assumed when checking a function on
/// its own (see [`dummy_metadata`]).
pub open spec fn dummy_probestack() -> u64 {
    0x123456789abcdef0
}

/// Checks the heap safety of one function's machine code, just after it was
/// generated, given its blocks and edges and the instructions that each
/// block spans (decoded from `code`). Without symbols or relocations the
/// calls to `lucet_probestack` and the runtime's tables cannot be
/// recognized, so only the heap is checked: it is the most exposed part, as
/// ordinary code that every optimization pass touches. Only Lucet's heap
/// strategy is supported.
pub fn validate_heap(
    code: &[u8],
    basic_blocks: &[usize],
    cfg_edges: &[(usize, usize)],
    heap_strategy: HeapStrategy,
) -> (r: Result<(), ValidationError>)
    requires
        heap_strategy is HeapPtrFirstArgWithGuards ==> blocks_ok(code@.len() as int, basic_blocks@),
    ensures
        heap_strategy is VMCtxFirstArgWithGuards ==> r == Err::<(), ValidationError>(ValidationError::HeapUnsafe),
        r == Err::<(), ValidationError>(ValidationError::Other("code cannot be lifted")) ==> exists|cfg: VwCfg|
            is_compiler_cfg(cfg, code@.len() as int, basic_blocks@, cfg_edges@) && code_lift_fails(
                cfg,
                code@,
                dummy_probestack(),
                false,
            ),
        r is Ok ==> heap_strategy is HeapPtrFirstArgWithGuards && exists|
            cfg: VwCfg,
            irmap: IRMap,
            names: HashMap<u64, String>,
            st: Map<u64, HeapLattice>,
        |
            is_compiler_cfg(cfg, code@.len() as int, basic_blocks@, cfg_edges@) && lifted_from_code(
                irmap@,
                cfg,
                code@,
                dummy_probestack(),
                false,
            ) && names@ == Map::<u64, String>::empty() && spec_run_heap(&cfg, &irmap, dummy_metadata(), &names)
                && spec_heap_safe(&cfg, &irmap, dummy_metadata(), &names, st),
        (heap_strategy is HeapPtrFirstArgWithGuards && r == Err::<(), ValidationError>(ValidationError::HeapUnsafe)) ==> exists|
            cfg: VwCfg,
            irmap: IRMap,
            names: HashMap<u64, String>,
        |
            is_compiler_cfg(cfg, code@.len() as int, basic_blocks@, cfg_edges@) && lifted_from_code(
                irmap@,
                cfg,
                code@,
                dummy_probestack(),
                false,
            ) && names@ == Map::<u64, String>::empty() && !spec_run_heap(&cfg, &irmap, dummy_metadata(), &names),
        r matches Err(e) ==> e is HeapUnsafe || r == Err::<(), ValidationError>(
            ValidationError::Other("code cannot be lifted"),
        ),
{
    match heap_strategy {
        HeapStrategy::HeapPtrFirstArgWithGuards => {},
        _ => return Err(ValidationError::HeapUnsafe),
    }
    let cfg = get_cfg_from_compiler_info(code, basic_blocks, cfg_edges);
    let code_len = code.len();
    proof {
        lemma_cfg_blocks_in_code(code@.len() as int, basic_blocks@, basic_blocks@.len());
    }
    let metadata = VwMetadata {
        guest_table_0: 0x123456789abcdef0,
        lucet_tables: 0x123456789abcdef0,
        lucet_probestack: 0x123456789abcdef0,
    };
    let irmap = match lift_cfg(&cfg, code, 0x123456789abcdef0, false) {
        Some(m) => m,
        None => {
            assert(is_compiler_cfg(cfg, code@.len() as int, basic_blocks@, cfg_edges@) && code_lift_fails(
                cfg,
                code@,
                dummy_probestack(),
                false,
            ));
            return Err(ValidationError::Other("code cannot be lifted"));
        },
    };
    let names: HashMap<u64, String> = HashMap::new();
    assert(metadata == dummy_metadata());
    if !run_heap(&cfg, &irmap, &metadata, &names) {
        assert(is_compiler_cfg(cfg, code@.len() as int, basic_blocks@, cfg_edges@));
        return Err(ValidationError::HeapUnsafe);
    }
    proof {
        let st = choose|st: Map<u64, HeapLattice>| spec_heap_safe(&cfg, &irmap, metadata, &names, st);
        assert(is_compiler_cfg(cfg, code@.len() as int, basic_blocks@, cfg_edges@) && lifted_from_code(
            irmap@,
            cfg,
            code@,
            dummy_probestack(),
            false,
        ) && names@ == Map::<u64, String>::empty() && spec_run_heap(&cfg, &irmap, dummy_metadata(), &names)
            && spec_heap_safe(&cfg, &irmap, dummy_metadata(), &names, st));
    }
    Ok(())
}

/// Validates one function compiled by Wasmtime, given its blocks and edges,
/// the instructions that each block spans, and the sizes from which its VM
/// context is laid out. The architecture is named as `VwArch::parse` reads
/// it. For x86-64 the function's code is lifted, and that is all (the heap
/// check is not run on it). AArch64 code cannot be lifted here, so it is
/// refused.
pub fn validate_wasmtime_func(
    code: &[u8],
    basic_blocks: &[usize],
    cfg_edges: &[(usize, usize)],
    arch_str: &str,
    func_name: String,
    vm_offsets: &VmOffsetCounts,
) -> (r: Result<(), ValidationError>)
    requires
        spec_parse_arch(arch_str@) is Some ==> blocks_ok(code@.len() as int, basic_blocks@),
    ensures
        spec_parse_arch(arch_str@) is None ==> r == Err::<(), ValidationError>(ValidationError::Other("Unknown architecture")),
        spec_parse_arch(arch_str@) == Some(VwArch::Aarch64) ==> r == Err::<(), ValidationError>(
            ValidationError::Other("AArch64 code cannot be lifted"),
        ),
        spec_parse_arch(arch_str@) == Some(VwArch::X64) ==> (r is Ok || r == Err::<(), ValidationError>(
            ValidationError::Other("code cannot be lifted"),
        )),
        spec_parse_arch(arch_str@) == Some(VwArch::X64) && r is Ok ==> exists|cfg: VwCfg, irmap: IRMap|
            is_compiler_cfg(cfg, code@.len() as int, basic_blocks@, cfg_edges@) && lifted_from_code(
                irmap@,
                cfg,
                code@,
                dummy_probestack(),
                false,
            ),
        spec_parse_arch(arch_str@) == Some(VwArch::X64) && r is Err ==> exists|cfg: VwCfg|
            is_compiler_cfg(cfg, code@.len() as int, basic_blocks@, cfg_edges@) && code_lift_fails(
                cfg,
                code@,
                dummy_probestack(),
                false,
            ),
{
    let arch = match VwArch::parse(arch_str) {
        Ok(a) => a,
        Err(err) => return Err(ValidationError::Other(err)),
    };
    match arch {
        VwArch::X64 => {
            let cfg = get_cfg_from_compiler_info(code, basic_blocks, cfg_edges);
            let code_len = code.len();
            proof {
                lemma_cfg_blocks_in_code(code@.len() as int, basic_blocks@, basic_blocks@.len());
            }
            match lift_cfg(&cfg, code, 0x123456789abcdef0, false) {
                Some(irmap) => {
                    assert(is_compiler_cfg(cfg, code@.len() as int, basic_blocks@, cfg_edges@) && lifted_from_code(
                        irmap@,
                        cfg,
                        code@,
                        dummy_probestack(),
                        false,
                    ));
                    Ok(())
                },
                None => {
                    assert(is_compiler_cfg(cfg, code@.len() as int, basic_blocks@, cfg_edges@) && code_lift_fails(
                        cfg,
                        code@,
                        dummy_probestack(),
                        false,
                    ));
                    Err(ValidationError::Other("code cannot be lifted"))
                },
            }
        },
        VwArch::Aarch64 => Err(ValidationError::Other("AArch64 code cannot be lifted")),
    }
}

} // verus!
