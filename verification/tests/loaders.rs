use veriwasm::compilers::TargetCompiler;
use veriwasm::create_dummy_module;
use veriwasm::ir::aarch64::Aarch64Regs;
use veriwasm::ir::types::{RegT, ValSize, VarIndex, X86Regs};
use veriwasm::loaders::lucet::{is_valid_lucet_func_name, load_lucet_metadata, lucet_get_plt_funcs, plt_entries, reloc_name};
use veriwasm::loaders::types::{
    ExecutableType, ProgramImage, VwArch, VwSegment, VwSymbol, WasmSignature, WasmValueType,
};
use veriwasm::loaders::utils::{get_symbol_addr, is_libcall, to_system_v, to_system_v_ret_ty};
use veriwasm::loaders::wasmtime::{is_valid_wasmtime_func_name, load_wasmtime_metadata, wasmtime_get_plt_funcs};
use veriwasm::lattices::wasmtime_lattice::{FieldDesc, VmFieldOffsets, WasmtimeValue};
use veriwasm::utils::is_valid_func_name;

#[test]
fn arch_names_ignore_case() {
    assert_eq!(VwArch::parse("X64"), Ok(VwArch::X64));
    assert_eq!(VwArch::parse("x86_64"), Ok(VwArch::X64));
    assert_eq!(VwArch::parse("AArch64"), Ok(VwArch::Aarch64));
    assert!(VwArch::parse("riscv").is_err());
    let parsed: VwArch = "X86_64".parse().unwrap();
    assert_eq!(parsed, VwArch::X64);
}

#[test]
fn executable_type_names_ignore_case() {
    assert_eq!(ExecutableType::parse("Lucet"), Ok(ExecutableType::Lucet));
    assert_eq!(ExecutableType::parse("WASMTIME"), Ok(ExecutableType::Wasmtime));
    assert_eq!(ExecutableType::parse("wasmer"), Err("Unknown executable type"));
}

#[test]
fn compiler_names() {
    assert!(TargetCompiler::parse("lucet").is_ok());
    assert!(TargetCompiler::parse("no such compiler").is_err());
}

#[test]
fn names_already_in_lower_case() {
    assert_eq!(VwArch::from_lowercase(&"x64".to_string()), Ok(VwArch::X64));
    assert_eq!(VwArch::from_lowercase(&"X64".to_string()), Err("Unknown architecture"));
    assert_eq!(VwArch::parse("mips"), Err("Unknown architecture"));
    assert_eq!(ExecutableType::from_lowercase(&"lucet".to_string()), Ok(ExecutableType::Lucet));
    assert_eq!(TargetCompiler::from_lowercase(&"wasmtime".to_string()), Ok(TargetCompiler::Wasmtime));
    assert_eq!(TargetCompiler::parse("gcc"), Err("Unknown compiler"));
}

#[test]
fn width_errors_name_the_width() {
    assert_eq!(ValSize::try_from_bits(3), Err("Not a valid bit length: 3".to_string()));
    assert_eq!(ValSize::try_from_bytes(1000), Err("Not a valid byte length: 1000".to_string()));
    assert_eq!(ValSize::try_from_bits(64), Ok(ValSize::Size64));
}

#[test]
fn names_parse_through_from_str() {
    let t: ExecutableType = "WasmTime".parse().unwrap();
    assert_eq!(t, ExecutableType::Wasmtime);
    assert!("wasmer".parse::<ExecutableType>().is_err());
    let c: TargetCompiler = "LUCET".parse().unwrap();
    assert_eq!(c, TargetCompiler::Lucet);
    assert!("gcc".parse::<TargetCompiler>().is_err());
    assert!("riscv".parse::<VwArch>().is_err());
}

#[test]
fn func_names_to_check() {
    assert!(!is_valid_lucet_func_name(&"lucet_probestack".to_string()));
    assert!(is_valid_lucet_func_name(&"guest_func_1".to_string()));
    assert!(!is_valid_wasmtime_func_name(&"_trampoline_3".to_string()));
    assert!(is_valid_wasmtime_func_name(&"u0:12".to_string()));
    assert!(!ExecutableType::Lucet.is_valid_func_name(&"lucet_probestack".to_string()));
    assert!(ExecutableType::Lucet.is_valid_func_name(&"_trampoline_3".to_string()));
    assert!(!ExecutableType::Wasmtime.is_valid_func_name(&"_trampoline_3".to_string()));
    assert!(is_libcall(&"floor".to_string()));
    assert!(!is_libcall(&"floorf".to_string()));
}

#[test]
fn valid_func_names_of_lucet_objects() {
    assert!(is_valid_func_name(&"guest_func_main".to_string()));
    assert!(!is_valid_func_name(&"lucet_probestack".to_string()));
}

#[test]
fn aarch64_registers_by_index() {
    assert_eq!(Aarch64Regs::try_from(0), Ok(Aarch64Regs::X0));
    assert_eq!(Aarch64Regs::try_from(31), Ok(Aarch64Regs::X31));
    assert_eq!(Aarch64Regs::try_from(32), Ok(Aarch64Regs::Nzcv));
    assert_eq!(Aarch64Regs::try_from(64), Ok(Aarch64Regs::D31));
    assert_eq!(
        Aarch64Regs::try_from(65),
        Err("Unknown register: index = 65".to_string())
    );
    assert_eq!(Aarch64Regs::try_from_u8(33), Ok(Aarch64Regs::D0));
    assert!(Aarch64Regs::Nzcv.is_flag());
    assert!(!Aarch64Regs::X0.is_flag());
    assert!(Aarch64Regs::X31.is_rsp());
    assert!(Aarch64Regs::X29.is_rbp());
    assert_eq!(Aarch64Regs::pinned_heap_reg(), Aarch64Regs::X0);
}

#[test]
fn x86_register_index_errors() {
    assert_eq!(X86Regs::try_from_index(7), Ok(X86Regs::Rdi));
    assert_eq!(<X86Regs as RegT>::pinned_heap_reg(), X86Regs::Rdi);
    assert_eq!(<X86Regs as RegT>::pinned_vmctx_reg(), X86Regs::Rdi);
    assert!(RegT::is_rsp(&X86Regs::Rsp));
    assert!(RegT::is_caller_saved(&X86Regs::R11));
    assert!(!RegT::is_caller_saved(&X86Regs::Rbx));
    let mut it = <X86Regs as RegT>::iter();
    assert_eq!(it.next(), Some(X86Regs::Rcx));
    assert_eq!(
        X86Regs::try_from_index(200),
        Err("Unknown register: index = 200".to_string())
    );
}

fn sym(name: &str, addr: u64) -> VwSymbol {
    VwSymbol { name: name.to_string(), addr }
}

#[test]
fn symbol_lookup_takes_the_first_match() {
    let symbols = vec![sym("a", 1), sym("b", 2), sym("a", 3)];
    assert_eq!(get_symbol_addr(&symbols, "a"), Some(1));
    assert_eq!(get_symbol_addr(&symbols, "b"), Some(2));
    assert_eq!(get_symbol_addr(&symbols, "c"), None);
}

#[test]
fn lucet_metadata_from_symbols() {
    let symbols = vec![
        sym("guest_table_0", 0x100),
        sym("lucet_tables", 0x200),
        sym("lucet_probestack", 0x300),
    ];
    let md = load_lucet_metadata(&symbols).unwrap();
    assert_eq!(md.guest_table_0, 0x100);
    assert_eq!(md.lucet_tables, 0x200);
    assert_eq!(md.lucet_probestack, 0x300);
    assert!(load_lucet_metadata(&symbols[..2].iter().map(|s| sym(&s.name, s.addr)).collect()).is_none());
    let w = load_wasmtime_metadata();
    assert_eq!((w.guest_table_0, w.lucet_tables, w.lucet_probestack), (0, 0, 0));
}

#[test]
fn system_v_argument_locations() {
    let (i32t, i64t, f32t, f64t) = (WasmValueType::I32, WasmValueType::I64, WasmValueType::F32, WasmValueType::F64);
    let sig = WasmSignature { params: vec![i32t, f64t, i64t, i32t, i64t, i32t, i32t, i64t, f32t], ret_ty: Some(i64t) };
    let ft = to_system_v(&sig);
    let expected = vec![
        (VarIndex::Reg(X86Regs::Rdi), ValSize::Size64),
        (VarIndex::Reg(X86Regs::Rsi), ValSize::Size32),
        (VarIndex::Reg(X86Regs::Rdx), ValSize::Size64),
        (VarIndex::Reg(X86Regs::Rcx), ValSize::Size32),
        (VarIndex::Reg(X86Regs::R8), ValSize::Size64),
        (VarIndex::Reg(X86Regs::R9), ValSize::Size32),
        (VarIndex::Stack(4), ValSize::Size32),
        (VarIndex::Stack(12), ValSize::Size64),
    ];
    assert_eq!(ft.args, expected);
    assert_eq!(ft.ret, Some((X86Regs::Rax, ValSize::Size64)));
    let float_ret = WasmSignature { params: vec![], ret_ty: Some(f32t) };
    assert_eq!(to_system_v_ret_ty(&float_ret), None);
    let int_ret = WasmSignature { params: vec![], ret_ty: Some(i32t) };
    assert_eq!(to_system_v_ret_ty(&int_ret), Some((X86Regs::Rax, ValSize::Size32)));
    assert_eq!(to_system_v(&float_ret).args, vec![(VarIndex::Reg(X86Regs::Rdi), ValSize::Size64)]);
}

fn plt_entry(disp: i32) -> Vec<u8> {
    let mut e = vec![0xff, 0x25];
    e.extend_from_slice(&disp.to_le_bytes());
    e.extend_from_slice(&[0x68, 0, 0, 0, 0, 0xe9, 0, 0, 0, 0]);
    e
}

#[test]
fn plt_entries_point_at_their_got_slots() {
    let mut plt = plt_entry(0x100);
    plt.extend(plt_entry(-0x20));
    let entries = plt_entries(0x4000, &plt).unwrap();
    assert_eq!(entries, vec![(0x4000, 0x4106), (0x4010, 0x3ff6)]);
    // an entry cut before its displacement ends
    let mut short = plt_entry(8);
    short.extend_from_slice(&[0xff, 0x25, 1, 2]);
    assert_eq!(plt_entries(0x4000, &short), None);
    // an entry cut after its displacement still counts
    let mut tail = plt_entry(8);
    tail.extend_from_slice(&[0xff, 0x25, 1, 0, 0, 0]);
    assert_eq!(plt_entries(0, &tail).unwrap().len(), 2);
}

#[test]
fn plt_functions_are_named_by_relocations() {
    let mut plt = plt_entry(0x100);
    plt.extend(plt_entry(0x200));
    plt.extend(plt_entry(0x300));
    let relocs = vec![
        (0x4106u64, "memcpy".to_string()),
        (0x4216u64, "".to_string()),
        (0x4326u64, "old".to_string()),
        (0x4326u64, "memset".to_string()),
    ];
    assert_eq!(reloc_name(&relocs, 0x4326), Some("memset".to_string()));
    assert_eq!(reloc_name(&relocs, 0x4216), None);
    let funcs = lucet_get_plt_funcs(0x4000, &plt, &relocs).unwrap();
    assert_eq!(funcs, vec![(0x4000, "memcpy".to_string()), (0x4020, "memset".to_string())]);
    assert_eq!(wasmtime_get_plt_funcs("module.cwasm"), None);
}

#[test]
fn program_image_reads_from_the_first_segment() {
    let p = ProgramImage {
        segments: vec![
            VwSegment { start: 0x10, data: vec![1, 2, 3, 4], name: "a".to_string() },
            VwSegment { start: 0x12, data: vec![9, 9, 9, 9], name: "b".to_string() },
        ],
    };
    assert_eq!(p.read(0x10), Some(1));
    assert_eq!(p.read(0x13), Some(4));
    assert_eq!(p.read(0x14), Some(9));
    assert_eq!(p.read(0x16), None);
    assert_eq!(p.read(0x0f), None);
    assert_eq!(p.segment_for(0x12), Some(0));
    assert_eq!(p.segment_for(0x15), Some(1));
    assert_eq!(p.read_module_buffer(0x11, 3), Some(vec![2, 3, 4]));
    assert_eq!(p.read_module_buffer(0x11, 4), None);
    assert_eq!(p.read_module_buffer(0x30, 1), None);
}

#[test]
fn dummy_module_holds_the_code_at_zero() {
    let m = create_dummy_module(&[0x90, 0xc3], ExecutableType::Wasmtime, VwArch::X64);
    assert_eq!(m.program.segments.len(), 1);
    assert_eq!(m.program.segments[0].start, 0);
    assert_eq!(m.program.segments[0].data, vec![0x90, 0xc3]);
    assert_eq!(m.program.segments[0].name, ".text");
    assert_eq!(m.metadata.lucet_probestack, 0x123456789abcdef0);
    assert_eq!(m.format, ExecutableType::Wasmtime);
    assert_eq!(m.arch, VwArch::X64);
    assert_eq!(m.program.read(1), Some(0xc3));
}

fn sample_vm_offsets() -> wasmtime_environ::VMOffsets {
    wasmtime_environ::VMOffsets {
        pointer_size: 8,
        num_signature_ids: 3,
        num_imported_functions: 2,
        num_imported_tables: 0,
        num_imported_memories: 0,
        num_imported_globals: 0,
        num_defined_functions: 5,
        num_defined_tables: 1,
        num_defined_memories: 1,
        num_defined_globals: 2,
    }
}

fn counts_of(o: &wasmtime_environ::VMOffsets) -> veriwasm::VmOffsetCounts {
    veriwasm::VmOffsetCounts {
        pointer_size: o.pointer_size,
        num_signature_ids: o.num_signature_ids,
        num_imported_functions: o.num_imported_functions,
        num_imported_tables: o.num_imported_tables,
        num_imported_memories: o.num_imported_memories,
        num_imported_globals: o.num_imported_globals,
        num_defined_functions: o.num_defined_functions,
        num_defined_tables: o.num_defined_tables,
        num_defined_memories: o.num_defined_memories,
        num_defined_globals: o.num_defined_globals,
    }
}

#[test]
fn vmctx_layout_reads_wasmtimes_offsets() {
    let o = sample_vm_offsets();
    let l = veriwasm::vmctx_layout(&counts_of(&o)).unwrap();
    assert_eq!(l.num_signature_ids, 3);
    assert_eq!(l.num_imported_functions, 2);
    assert_eq!(l.num_defined_tables, 1);
    assert_eq!(l.num_defined_globals, 2);
    assert_eq!(l.signature_ids_begin, o.vmctx_signature_ids_begin());
    assert_eq!(l.imported_functions_begin, o.vmctx_imported_functions_begin());
    assert_eq!(l.tables_begin, o.vmctx_tables_begin());
    assert_eq!(l.globals_begin, o.vmctx_globals_begin());
    assert_eq!(l.memories_begin, o.vmctx_memories_begin());
    assert_eq!(l.builtin_functions_begin, o.vmctx_builtin_functions_begin());
    assert_eq!(l.size, o.size_of_vmctx());
    // the fields of the VM context by offset
    let offsets = veriwasm::get_vm_offsets(&counts_of(&o));
    assert!(matches!(offsets.get(&(o.vmctx_memories_begin() as i64)), Some(WasmtimeValue::HeapBase)));
    assert!(matches!(
        offsets.get(&(o.vmctx_globals_begin() as i64 + 8)),
        Some(WasmtimeValue::VmCtxField(FieldDesc::Rw))
    ));
    assert!(matches!(
        offsets.get(&(o.vmctx_tables_begin() as i64 + 8)),
        Some(WasmtimeValue::VmCtxField(FieldDesc::R))
    ));
}

#[test]
fn vmctx_layout_follows_wasmtime_for_other_sizes() {
    let mut o = sample_vm_offsets();
    o.pointer_size = 4;
    o.num_imported_tables = 2;
    o.num_imported_memories = 1;
    o.num_imported_globals = 3;
    o.num_defined_memories = 2;
    let l = veriwasm::vmctx_layout(&counts_of(&o)).unwrap();
    assert_eq!(l.imported_functions_begin, o.vmctx_imported_functions_begin());
    assert_eq!(l.tables_begin, o.vmctx_tables_begin());
    assert_eq!(l.memories_begin, o.vmctx_memories_begin());
    assert_eq!(l.globals_begin, o.vmctx_globals_begin());
    assert_eq!(l.builtin_functions_begin, o.vmctx_builtin_functions_begin());
    assert_eq!(l.size, o.size_of_vmctx());
}

#[test]
fn vmctx_layout_that_overflows_has_none() {
    let mut o = sample_vm_offsets();
    o.num_signature_ids = u32::MAX;
    assert!(veriwasm::vmctx_layout(&counts_of(&o)).is_none());
    let mut wide = sample_vm_offsets();
    wide.pointer_size = 100;
    assert!(veriwasm::vmctx_layout(&counts_of(&wide)).is_none());
    let counts = veriwasm::VmOffsetCounts {
        pointer_size: 8,
        num_signature_ids: 0,
        num_imported_functions: 0,
        num_imported_tables: 0,
        num_imported_memories: 0,
        num_imported_globals: 0,
        num_defined_functions: 0,
        num_defined_tables: 0,
        num_defined_memories: 1,
        num_defined_globals: 0,
    };
    let l = veriwasm::vmctx_layout(&counts).unwrap();
    assert_eq!(l.signature_ids_begin, 24);
    assert_eq!(l.memories_begin, 24);
    assert_eq!(l.globals_begin, 48);
    assert_eq!(l.builtin_functions_begin, 48);
    assert_eq!(l.size, 48 + 27 * 8);
}

#[test]
fn layout_offsets_by_kind() {
    let l = veriwasm::VmCtxLayout {
        signature_ids_begin: 24,
        num_signature_ids: 1,
        imported_functions_begin: 28,
        num_imported_functions: 1,
        tables_begin: 48,
        num_defined_tables: 1,
        globals_begin: 80,
        num_defined_globals: 1,
        memories_begin: 64,
        builtin_functions_begin: 100,
        size: 116,
    };
    let m = veriwasm::layout_offsets(&l);
    use_kind(&m, 24, "Rx");
    use_kind(&m, 28, "Rx");
    use_kind(&m, 36, "Rx");
    use_kind(&m, 48, "Ptr");
    use_kind(&m, 56, "R");
    use_kind(&m, 64, "HeapBase");
    use_kind(&m, 80, "Rw");
    use_kind(&m, 100, "Rx");
    use_kind(&m, 108, "Rx");
    assert!(m.get(&116).is_none());
    assert_eq!(m.len(), 9);
}

fn use_kind(m: &VmFieldOffsets, off: i64, kind: &str) {
    let got = match m.get(&off) {
        Some(WasmtimeValue::VmCtxField(FieldDesc::Rx)) => "Rx",
        Some(WasmtimeValue::VmCtxField(FieldDesc::Rw)) => "Rw",
        Some(WasmtimeValue::VmCtxField(FieldDesc::R)) => "R",
        Some(WasmtimeValue::VmCtxField(FieldDesc::Ptr(_))) => "Ptr",
        Some(WasmtimeValue::HeapBase) => "HeapBase",
        _ => "none",
    };
    assert_eq!(got, kind, "offset {}", off);
}

#[test]
fn functions_to_check_lie_in_the_text_section() {
    let syms = vec![
        VwSymbol { name: "guest_func_a".to_string(), addr: 0x10 },
        VwSymbol { name: "lucet_probestack".to_string(), addr: 0x20 },
        VwSymbol { name: "guest_func_b".to_string(), addr: 0x100 },
    ];
    assert_eq!(
        veriwasm::runner::functions_to_check(&syms, 0, 0x80, ExecutableType::Lucet),
        vec![(0x10, "guest_func_a".to_string())]
    );
}
