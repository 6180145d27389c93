use std::collections::HashMap;
use veriwasm::analyses::jump_analyzer::SwitchAnalyzer;
use veriwasm::analyses::reaching_defs::{analyze_reaching_defs, ReachingDefnAnalyzer};
use veriwasm::analyses::{align_succ_addrs, run_worklist, state_at, AbstractAnalyzer, HeapAnalyzer, StackAnalyzer};
use veriwasm::checkers::jump_resolver::{extract_jmp_targets, load_target, resolve_jumps, try_resolve_jumps};
use veriwasm::ir::cfg::{VwBlock, VwCfg};
use veriwasm::ir::types::{
    Binopcode, BranchOpcode, IRMap, ImmType, MemArg, MemArgs, Stmt, Unopcode, ValSize, Value, X86Regs,
};
use veriwasm::lattices::heaplattice::HeapValue;
use veriwasm::lattices::reachingdefslattice::LocIdx;
use veriwasm::lattices::switchlattice::{SwitchValue, SwitchValueLattice};
use veriwasm::lattices::{ConstLattice, Lattice};
use veriwasm::loaders::types::{ProgramImage, VwMetadata, VwSegment};
use veriwasm::runner::{check_function, run_heap, run_stack, selects_func, PassConfig};
use veriwasm::{get_cfg_from_compiler_info, validate_heap, HeapStrategy, ValidationError};

fn reg(r: X86Regs) -> Value {
    Value::Reg(r, ValSize::Size64)
}

fn reg32(r: X86Regs) -> Value {
    Value::Reg(r, ValSize::Size32)
}

fn imm(i: i64) -> Value {
    Value::Imm(ImmType::Signed, ValSize::Size64, i)
}

fn mem(size: ValSize, m: MemArgs) -> Value {
    Value::Mem(size, m)
}

fn rsp_slot(off: i64) -> Value {
    mem(
        ValSize::Size64,
        MemArgs::Mem2Args(MemArg::Reg(X86Regs::Rsp, ValSize::Size64), MemArg::Imm(ImmType::Signed, ValSize::Size64, off)),
    )
}

fn md() -> VwMetadata {
    VwMetadata { guest_table_0: 0x123456789abcdef0, lucet_tables: 0x123456789abcdef0, lucet_probestack: 0x123456789abcdef0 }
}

/// A graph of blocks `starts` (each 4 bytes long) with the given edges.
fn graph(starts: &[u64], edges: &[(u64, u64)]) -> VwCfg {
    let mut cfg = VwCfg::new(starts[0]);
    for s in starts {
        cfg.add_block(VwBlock { start: *s, end: *s + 3 });
    }
    for (a, b) in edges {
        cfg.add_edge(*a, *b);
    }
    cfg
}

fn one_block(stmts: Vec<Stmt>) -> (VwCfg, IRMap) {
    let cfg = graph(&[0], &[]);
    let mut irmap: IRMap = HashMap::new();
    irmap.insert(0, stmts.into_iter().enumerate().map(|(i, s)| (4 * i as u64, vec![s])).collect());
    (cfg, irmap)
}

#[test]
fn successors_are_visited_backward_edge_last() {
    assert_eq!(align_succ_addrs(0x10, vec![0x40, 0x20]), vec![0x20, 0x40]);
    assert_eq!(align_succ_addrs(0x10, vec![0x20, 0x40]), vec![0x20, 0x40]);
    assert_eq!(align_succ_addrs(0x10, vec![0x8, 0x40]), vec![0x40, 0x8]);
    assert_eq!(align_succ_addrs(0x10, vec![0x40, 0x8]), vec![0x40, 0x8]);
    assert_eq!(align_succ_addrs(0x10, vec![1, 2, 3]), vec![1, 2, 3]);
    assert_eq!(align_succ_addrs(0x10, vec![]), Vec::<u64>::new());
}

#[test]
fn compiler_cfg_has_every_block_and_edge() {
    let code = [0u8; 12];
    let cfg = get_cfg_from_compiler_info(&code, &[0, 4, 8], &[(0, 4), (0, 8), (4, 8), (0, 4)]);
    assert_eq!(cfg.entrypoint, 0);
    assert_eq!(cfg.blocks.get(&0), Some(&VwBlock { start: 0, end: 3 }));
    assert_eq!(cfg.blocks.get(&8), Some(&VwBlock { start: 8, end: 11 }));
    assert_eq!(cfg.successors(0), vec![4, 8]);
    assert_eq!(cfg.successors(4), vec![8]);
    assert_eq!(cfg.successors(8), Vec::<u64>::new());
    let mut nodes = cfg.nodes();
    nodes.sort();
    assert_eq!(nodes, vec![0, 4, 8]);
    assert_eq!(cfg.prev_block(6), Some(VwBlock { start: 4, end: 7 }));
    assert_eq!(cfg.prev_block(0), None);
}

#[test]
fn stack_growth_reaches_a_fixpoint() {
    let cfg = graph(&[0, 4, 8], &[(0, 4), (0, 8), (4, 8)]);
    let mut irmap: IRMap = HashMap::new();
    irmap.insert(0, vec![(0, vec![Stmt::Binop(Binopcode::Sub, reg(X86Regs::Rsp), reg(X86Regs::Rsp), imm(16))])]);
    irmap.insert(4, vec![(4, vec![Stmt::Unop(Unopcode::Mov, rsp_slot(8), reg(X86Regs::Rax))])]);
    irmap.insert(8, vec![(8, vec![Stmt::Binop(Binopcode::Add, reg(X86Regs::Rsp), reg(X86Regs::Rsp), imm(16))]), (9, vec![Stmt::Ret])]);
    let st = run_worklist(&cfg, &irmap, &StackAnalyzer {}, 100).unwrap();
    assert_eq!(st.get(&0).unwrap().v, Some((0, 4096, 0)));
    assert_eq!(st.get(&4).unwrap().v, Some((-16, 4096, 0)));
    assert_eq!(st.get(&8).unwrap().v, Some((-16, 4096, 0)));
    // too little fuel to settle
    assert!(run_worklist(&cfg, &irmap, &StackAnalyzer {}, 1).is_none());
    assert!(run_stack(&cfg, &irmap));
}

#[test]
fn stack_write_above_the_frame_is_unsafe() {
    let (cfg, irmap) = one_block(vec![
        Stmt::Binop(Binopcode::Sub, reg(X86Regs::Rsp), reg(X86Regs::Rsp), imm(8)),
        Stmt::Unop(Unopcode::Mov, rsp_slot(8), reg(X86Regs::Rax)),
        Stmt::Binop(Binopcode::Add, reg(X86Regs::Rsp), reg(X86Regs::Rsp), imm(8)),
        Stmt::Ret,
    ]);
    assert!(!run_stack(&cfg, &irmap));
}

#[test]
fn return_with_a_grown_stack_is_unsafe() {
    let (cfg, irmap) = one_block(vec![
        Stmt::Binop(Binopcode::Sub, reg(X86Regs::Rsp), reg(X86Regs::Rsp), imm(8)),
        Stmt::Ret,
    ]);
    assert!(!run_stack(&cfg, &irmap));
    let (cfg, irmap) = one_block(vec![
        Stmt::Binop(Binopcode::Sub, reg(X86Regs::Rsp), reg(X86Regs::Rsp), imm(8)),
        Stmt::Unop(Unopcode::Mov, rsp_slot(0), reg(X86Regs::Rax)),
        Stmt::Binop(Binopcode::Add, reg(X86Regs::Rsp), reg(X86Regs::Rsp), imm(8)),
        Stmt::Ret,
    ]);
    assert!(run_stack(&cfg, &irmap));
}

#[test]
fn stack_reads_reach_eight_kib_above_the_entry_pointer() {
    let (cfg, irmap) = one_block(vec![Stmt::Unop(Unopcode::Mov, reg(X86Regs::Rax), rsp_slot(8100)), Stmt::Ret]);
    assert!(run_stack(&cfg, &irmap));
    let (cfg, irmap) = one_block(vec![Stmt::Unop(Unopcode::Mov, reg(X86Regs::Rax), rsp_slot(8191)), Stmt::Ret]);
    assert!(run_stack(&cfg, &irmap));
    let (cfg, irmap) = one_block(vec![Stmt::Unop(Unopcode::Mov, reg(X86Regs::Rax), rsp_slot(8192)), Stmt::Ret]);
    assert!(!run_stack(&cfg, &irmap));
}

#[test]
fn wasmtime_functions_by_architecture() {
    let code = SAFE_STORE;
    let counts = veriwasm::VmOffsetCounts {
        pointer_size: 8,
        num_signature_ids: 0,
        num_imported_functions: 0,
        num_imported_tables: 0,
        num_imported_memories: 0,
        num_imported_globals: 0,
        num_defined_functions: 0,
        num_defined_tables: 0,
        num_defined_memories: 1,
        num_defined_globals: 0,
    };
    assert!(matches!(
        veriwasm::validate_wasmtime_func(&code, &[0], &[], "mips", "f".to_string(), &counts),
        Err(ValidationError::Other("Unknown architecture"))
    ));
    assert!(matches!(
        veriwasm::validate_wasmtime_func(&code, &[0], &[], "X86_64", "f".to_string(), &counts),
        Ok(())
    ));
    assert!(matches!(
        veriwasm::validate_wasmtime_func(&code, &[0, 4], &[], "x64", "f".to_string(), &counts),
        Err(ValidationError::Other("code cannot be lifted"))
    ));
    assert!(matches!(
        veriwasm::validate_wasmtime_func(&code, &[0], &[], "AArch64", "f".to_string(), &counts),
        Err(ValidationError::Other("AArch64 code cannot be lifted"))
    ));
}

fn heap_store(index: X86Regs) -> Stmt {
    Stmt::Unop(
        Unopcode::Mov,
        mem(ValSize::Size32, MemArgs::Mem2Args(MemArg::Reg(X86Regs::Rdi, ValSize::Size64), MemArg::Reg(index, ValSize::Size64))),
        reg32(X86Regs::Rbx),
    )
}

#[test]
fn heap_access_with_a_32_bit_index_is_safe() {
    let (cfg, irmap) = one_block(vec![
        Stmt::Unop(Unopcode::Mov, reg32(X86Regs::Rax), reg32(X86Regs::Rcx)),
        heap_store(X86Regs::Rax),
        Stmt::Ret,
    ]);
    let names: HashMap<u64, String> = HashMap::new();
    assert!(run_heap(&cfg, &irmap, &md(), &names));
    let st = run_worklist(&cfg, &irmap, &HeapAnalyzer { metadata: md() }, 100).unwrap();
    let entry = st.get(&0).unwrap();
    assert!(matches!(entry.regs.get_reg(X86Regs::Rdi, ValSize::Size64).v, Some(HeapValue::HeapBase)));
}

#[test]
fn heap_access_with_a_64_bit_index_is_unsafe() {
    let (cfg, irmap) = one_block(vec![heap_store(X86Regs::Rcx), Stmt::Ret]);
    let names: HashMap<u64, String> = HashMap::new();
    assert!(!run_heap(&cfg, &irmap, &md(), &names));
}

/// `mov eax, ecx`; `mov [rdi + rax], ebx`; `ret`.
const SAFE_STORE: [u8; 6] = [0x89, 0xc8, 0x89, 0x1c, 0x07, 0xc3];
/// `mov eax, ecx`; `mov [rdi + rcx], ebx`; `ret`: the index is not bounded.
const UNSAFE_STORE: [u8; 6] = [0x89, 0xc8, 0x89, 0x1c, 0x0f, 0xc3];

#[test]
fn validate_heap_answers() {
    let code = SAFE_STORE;
    assert!(matches!(validate_heap(&code, &[0], &[], HeapStrategy::HeapPtrFirstArgWithGuards), Ok(())));
    assert!(matches!(
        validate_heap(&UNSAFE_STORE, &[0], &[], HeapStrategy::HeapPtrFirstArgWithGuards),
        Err(ValidationError::HeapUnsafe)
    ));
    assert!(matches!(
        validate_heap(&code, &[0], &[], HeapStrategy::VMCtxFirstArgWithGuards { vmctx_heap_base_ptr_offset: 8 }),
        Err(ValidationError::HeapUnsafe)
    ));
    // an empty block is refused before the check is asked for
    assert!(!veriwasm::blocks_nonempty(code.len(), &[0, 0]));
    // a block whose bytes do not decode (0x07 is no instruction in 64-bit mode)
    assert!(matches!(
        validate_heap(&code, &[0, 4], &[], HeapStrategy::HeapPtrFirstArgWithGuards),
        Err(ValidationError::Other("code cannot be lifted"))
    ));
}

#[test]
fn checks_run_as_asked() {
    let (cfg, irmap) = one_block(vec![heap_store(X86Regs::Rcx), Stmt::Ret]);
    let names: HashMap<u64, String> = HashMap::new();
    let none = PassConfig { stack: false, linear_mem: false, call: false, zero_cost: false };
    let stack = PassConfig { stack: true, ..none };
    let heap = PassConfig { linear_mem: true, ..none };
    assert!(matches!(check_function(&none, &cfg, &irmap, &md(), &names), Ok(())));
    assert!(matches!(check_function(&stack, &cfg, &irmap, &md(), &names), Ok(())));
    assert!(matches!(check_function(&heap, &cfg, &irmap, &md(), &names), Err(ValidationError::HeapUnsafe)));
    let (cfg2, grown) = one_block(vec![Stmt::Binop(Binopcode::Sub, reg(X86Regs::Rsp), reg(X86Regs::Rsp), imm(8)), Stmt::Ret]);
    let both = PassConfig { stack: true, linear_mem: true, ..none };
    assert!(matches!(check_function(&both, &cfg2, &grown, &md(), &names), Err(ValidationError::StackUnsafe)));
    assert!(selects_func(&None, "f"));
    assert!(selects_func(&Some("f".to_string()), "f"));
    assert!(!selects_func(&Some("f".to_string()), "g"));
}

/// A switch on `rdi` over 3 entries of the table at 0x1000:
/// block 0: `cmp rdi, 3; ja 0x40`; block 0x10: `mov rcx, 0x1000;
/// mov eax, [rcx + rdi * 4]; add rax, rcx; jmp rax`; block 0x40: `ret`.
fn switch_function() -> (VwCfg, IRMap, ProgramImage) {
    let cfg = graph(&[0, 0x10, 0x40], &[(0, 0x10), (0, 0x40)]);
    let mut irmap: IRMap = HashMap::new();
    irmap.insert(
        0,
        vec![
            (0, vec![Stmt::Binop(Binopcode::Cmp, Value::Reg(X86Regs::Zf, ValSize::Size8), reg(X86Regs::Rdi), imm(3))]),
            (4, vec![Stmt::Branch(BranchOpcode::JA, imm(0x40))]),
        ],
    );
    let entry = mem(
        ValSize::Size32,
        MemArgs::MemScale(
            MemArg::Reg(X86Regs::Rcx, ValSize::Size64),
            MemArg::Reg(X86Regs::Rdi, ValSize::Size64),
            MemArg::Imm(ImmType::Unsigned, ValSize::Size8, 4),
        ),
    );
    irmap.insert(
        0x10,
        vec![
            (0x10, vec![Stmt::Unop(Unopcode::Mov, reg(X86Regs::Rcx), imm(0x1000))]),
            (0x17, vec![Stmt::Unop(Unopcode::Mov, reg32(X86Regs::Rax), entry)]),
            (0x1a, vec![Stmt::Binop(Binopcode::Add, reg(X86Regs::Rax), reg(X86Regs::Rax), reg(X86Regs::Rcx))]),
            (0x1d, vec![Stmt::Branch(BranchOpcode::JMP, reg(X86Regs::Rax))]),
        ],
    );
    irmap.insert(0x40, vec![(0x40, vec![Stmt::Ret])]);
    let mut table = Vec::new();
    for w in [0x10i32, 0x20, -0x8] {
        table.extend_from_slice(&w.to_le_bytes());
    }
    let program = ProgramImage { segments: vec![VwSegment { start: 0x1000, data: table, name: ".rodata".to_string() }] };
    (cfg, irmap, program)
}

#[test]
fn jump_table_targets_are_resolved() {
    let (cfg, irmap, program) = switch_function();
    let targets = try_resolve_jumps(&program, &cfg, md(), &irmap).unwrap();
    assert_eq!(targets.len(), 1);
    assert_eq!(targets.get(&0x1d), Some(&vec![0x1010, 0x1020, 0xff8]));
}

#[test]
fn switch_analysis_bounds_the_index_on_the_fall_through_edge() {
    let (cfg, irmap, program) = switch_function();
    let defs = analyze_reaching_defs(&cfg, &irmap, md()).unwrap();
    let analyzer = SwitchAnalyzer {
        metadata: md(),
        reaching_defs: defs,
        reaching_analyzer: ReachingDefnAnalyzer { cfg: &cfg, irmap: &irmap },
    };
    let st = run_worklist(&cfg, &irmap, &analyzer, 100).unwrap();
    let table_block = st.get(&0x10).unwrap();
    assert!(matches!(table_block.regs.get_reg(X86Regs::Rdi, ValSize::Size64).v, Some(SwitchValue::UpperBound(3))));
    let default_block = st.get(&0x40).unwrap();
    assert!(default_block.regs.get_reg(X86Regs::Rdi, ValSize::Size64).v.is_none());
    // the state just before the jump holds the target
    let before_jmp = state_at(&analyzer, table_block, irmap.get(&0x10).unwrap(), &LocIdx { addr: 0x1d, idx: 0 }).unwrap();
    assert!(matches!(before_jmp.regs.get_reg(X86Regs::Rax, ValSize::Size64).v, Some(SwitchValue::JmpTarget(0x1000, 3))));
    let targets = resolve_jumps(&program, st, &irmap, &analyzer).unwrap();
    assert_eq!(targets.get(&0x1d), Some(&vec![0x1010, 0x1020, 0xff8]));
    // the reaching definitions of rdi at the comparison are those at entry
    let d = analyzer.reaching_analyzer.fetch_def(&analyzer.reaching_defs, &LocIdx { addr: 0, idx: 0 }).unwrap();
    assert!(d.regs.get_reg(X86Regs::Rdi, ValSize::Size64).defs.contains(&(0xdeadbeef, 7)));
    // inside a block, the definitions are found by stepping from its start
    let d2 = analyzer.reaching_analyzer.fetch_def(&analyzer.reaching_defs, &LocIdx { addr: 0x17, idx: 0 }).unwrap();
    assert!(d2.regs.get_reg(X86Regs::Rcx, ValSize::Size64).defs.contains(&(0x10, 0)));
    assert!(analyzer.reaching_analyzer.fetch_def(&analyzer.reaching_defs, &LocIdx { addr: 0x17, idx: 5 }).is_none());
}

#[test]
fn unresolvable_jumps_give_no_targets() {
    let (cfg, mut irmap, program) = switch_function();
    // a jump through memory
    irmap.insert(0x40, vec![(0x40, vec![Stmt::Branch(BranchOpcode::JMP, mem(ValSize::Size64, MemArgs::Mem1Arg(MemArg::Reg(X86Regs::Rax, ValSize::Size64))))])]);
    assert!(try_resolve_jumps(&program, &cfg, md(), &irmap).is_none());
    // a table that runs past the program
    let (cfg, irmap, _) = switch_function();
    let short = ProgramImage { segments: vec![VwSegment { start: 0x1000, data: vec![0x10, 0, 0, 0, 0x20], name: "t".to_string() }] };
    assert!(try_resolve_jumps(&short, &cfg, md(), &irmap).is_none());
}

#[test]
fn table_entries_are_little_endian_offsets() {
    let program = ProgramImage { segments: vec![VwSegment { start: 0x2000, data: vec![0x78, 0x56, 0x34, 0x12, 0xff, 0xff, 0xff, 0xff], name: "t".to_string() }] };
    assert_eq!(load_target(&program, 0x2000), Some(0x12345678));
    assert_eq!(load_target(&program, 0x2004), Some(0xffff_ffff));
    assert_eq!(load_target(&program, 0x2005), None);
    assert_eq!(load_target(&program, u64::MAX - 1), None);
    let aval: SwitchValueLattice = ConstLattice { v: Some(SwitchValue::JmpTarget(0x2000, 2)) };
    assert_eq!(extract_jmp_targets(&program, &aval), Some(vec![0x2000 + 0x12345678, 0x2000 - 1]));
    let bound: SwitchValueLattice = ConstLattice { v: Some(SwitchValue::UpperBound(2)) };
    assert_eq!(extract_jmp_targets(&program, &bound), None);
    let empty: SwitchValueLattice = ConstLattice { v: Some(SwitchValue::JmpTarget(0x2000, 0)) };
    assert_eq!(extract_jmp_targets(&program, &empty), Some(vec![]));
}

#[test]
fn reaching_defs_start_from_placeholders() {
    let (cfg, irmap) = one_block(vec![Stmt::Unop(Unopcode::Mov, reg(X86Regs::Rax), reg(X86Regs::Rbx)), Stmt::Ret]);
    let analyzer = ReachingDefnAnalyzer { cfg: &cfg, irmap: &irmap };
    let init = analyzer.init_state();
    assert!(init.regs.get_reg(X86Regs::Rax, ValSize::Size64).is_empty());
    assert!(init.regs.get_reg(X86Regs::Rbx, ValSize::Size64).defs.contains(&(0xdeadbeef, 3)));
    let st = analyze_reaching_defs(&cfg, &irmap, md()).unwrap();
    let after = state_at(&analyzer, st.get(&0).unwrap(), irmap.get(&0).unwrap(), &LocIdx { addr: 4, idx: 0 }).unwrap();
    // a move copies the definitions of its source
    assert!(after.regs.get_reg(X86Regs::Rax, ValSize::Size64).same(&init.regs.get_reg(X86Regs::Rbx, ValSize::Size64)));
}
