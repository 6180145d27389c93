use crate::ir::types::{FunType, ValSize, VarIndex, X86Regs};
use crate::loaders::types::{VwSymbol, WasmSignature, WasmValueType};
use vstd::prelude::*;

verus! {

/// The addresses of the Lucet runtime's symbols that compiled code uses.
#[allow(non_camel_case_types)]
#[derive(Clone, Copy, Debug, PartialEq, Eq, Structural)]
pub struct VW_Metadata {
    pub guest_table_0: u64,
    pub lucet_tables: u64,
    pub lucet_probestack: u64,
}

/// Whether a function is one of the runtime's math routines, which may be
/// called without the heap base in `rdi`.
pub open spec fn spec_is_libcall(name: Seq<char>) -> bool {
    name == "floor"@ || name == "ceil"@ || name == "trunc"@
}

pub fn is_libcall(name: &String) -> (r: bool)
    ensures
        r == spec_is_libcall(name@),
{
    let floor = "floor".to_owned();
    let ceil = "ceil".to_owned();
    let trunc = "trunc".to_owned();
    *name == floor || *name == ceil || *name == trunc
}

/// The address of the first symbol named `name`.
pub open spec fn spec_symbol_addr(syms: Seq<VwSymbol>, name: Seq<char>) -> Option<u64>
    decreases syms.len(),
{
    if syms.len() == 0 {
        None
    } else if syms[0].name@ == name {
        Some(syms[0].addr)
    } else {
        spec_symbol_addr(syms.drop_first(), name)
    }
}

/// The address of the first symbol named `name`, if there is one.
pub fn get_symbol_addr(symbols: &Vec<VwSymbol>, name: &str) -> (r: Option<u64>)
    ensures
        r == spec_symbol_addr(symbols@, name@),
{
    let target = name.to_owned();
    let mut i: usize = 0;
    assert(symbols@.skip(0) =~= symbols@);
    while i < symbols.len()
        invariant
            i <= symbols@.len(),
            target@ == name@,
            spec_symbol_addr(symbols@, name@) == spec_symbol_addr(symbols@.skip(i as int), name@),
        decreases symbols@.len() - i,
    {
        assert(symbols@.skip(i as int)[0] == symbols@[i as int]);
        assert(symbols@.skip(i as int).drop_first() =~= symbols@.skip(i + 1));
        if symbols[i].name == target {
            return Some(symbols[i].addr);
        }
        i = i + 1;
    }
    None
}

/// Whether a WebAssembly value is an integer (passed in a general register).
pub open spec fn is_int(t: WasmValueType) -> bool {
    t is I32 || t is I64
}

/// The number of integer parameters among `ps`.
pub open spec fn int_count(ps: Seq<WasmValueType>) -> nat
    decreases ps.len(),
{
    if ps.len() == 0 {
        0
    } else {
        int_count(ps.drop_last()) + if is_int(ps.last()) {
            1nat
        } else {
            0nat
        }
    }
}

/// The bytes that the integer parameters past the fifth take on the stack:
/// 4 for an `i32`, 8 for an `i64`.
pub open spec fn stack_bytes(ps: Seq<WasmValueType>) -> int
    decreases ps.len(),
{
    if ps.len() == 0 {
        0
    } else {
        stack_bytes(ps.drop_last()) + if is_int(ps.last()) && int_count(ps.drop_last()) >= 5 {
            if ps.last() is I32 {
                4int
            } else {
                8int
            }
        } else {
            0int
        }
    }
}

/// The register of integer parameter `k` (below 5): `rsi`, `rdx`, `rcx`,
/// `r8`, `r9`.
pub open spec fn arg_reg(k: nat) -> X86Regs {
    if k == 0 {
        X86Regs::Rsi
    } else if k == 1 {
        X86Regs::Rdx
    } else if k == 2 {
        X86Regs::Rcx
    } else if k == 3 {
        X86Regs::R8
    } else {
        X86Regs::R9
    }
}

/// Where the System V calling convention puts the arguments of a Lucet
/// function: the heap base in `rdi`, then the integer parameters in `rsi`,
/// `rdx`, `rcx`, `r8`, `r9` and then on the stack, at the offset reached by
/// adding each one's size; floating-point parameters are not tracked.
pub open spec fn sysv_args(ps: Seq<WasmValueType>) -> Seq<(VarIndex, ValSize)>
    decreases ps.len(),
{
    if ps.len() == 0 {
        seq![(VarIndex::Reg(X86Regs::Rdi), ValSize::Size64)]
    } else {
        let prev = sysv_args(ps.drop_last());
        let t = ps.last();
        if is_int(t) {
            let k = int_count(ps.drop_last());
            let idx = if k < 5 {
                VarIndex::Reg(arg_reg(k))
            } else {
                VarIndex::Stack(stack_bytes(ps) as i64)
            };
            prev.push(
                (
                    idx,
                    if t is I32 {
                        ValSize::Size32
                    } else {
                        ValSize::Size64
                    },
                ),
            )
        } else {
            prev
        }
    }
}

/// Where an integer result is returned: `eax` or `rax`.
pub open spec fn sysv_ret(ret_ty: Option<WasmValueType>) -> Option<(X86Regs, ValSize)> {
    match ret_ty {
        Some(WasmValueType::I32) => Some((X86Regs::Rax, ValSize::Size32)),
        Some(WasmValueType::I64) => Some((X86Regs::Rax, ValSize::Size64)),
        _ => None,
    }
}

/// Every integer parameter gets a location, after the heap base's; the
/// floating-point ones get none.
pub proof fn lemma_sysv_args_len(ps: Seq<WasmValueType>)
    ensures
        sysv_args(ps).len() == 1 + int_count(ps),
    decreases ps.len(),
{
    if ps.len() > 0 {
        lemma_sysv_args_len(ps.drop_last());
    }
}

/// Where an integer result of a function of type `sig` is returned.
pub fn to_system_v_ret_ty(sig: &WasmSignature) -> (r: Option<(X86Regs, ValSize)>)
    ensures
        r == sysv_ret(sig.ret_ty),
{
    match sig.ret_ty {
        Some(WasmValueType::I32) => Some((X86Regs::Rax, ValSize::Size32)),
        Some(WasmValueType::I64) => Some((X86Regs::Rax, ValSize::Size64)),
        _ => None,
    }
}

/// The locations of the arguments and result of a function of type `sig`
/// (see `sysv_args`).
pub fn to_system_v(sig: &WasmSignature) -> (r: FunType)
    requires
        sig.params@.len() <= 0x0fff_ffff_ffff_ffff,
    ensures
        r.args@ == sysv_args(sig.params@),
        r.ret == sysv_ret(sig.ret_ty),
{
    let mut arg_locs: Vec<(VarIndex, ValSize)> = Vec::new();
    let mut i_ctr: u64 = 0;
    let mut stack_offset: i64 = 0;
    arg_locs.push((VarIndex::Reg(X86Regs::Rdi), ValSize::Size64));
    let mut i: usize = 0;
    assert(sig.params@.take(0) =~= Seq::<WasmValueType>::empty());
    assert(arg_locs@ =~= sysv_args(sig.params@.take(0)));
    while i < sig.params.len()
        invariant
            i <= sig.params@.len(),
            sig.params@.len() <= 0x0fff_ffff_ffff_ffff,
            arg_locs@ == sysv_args(sig.params@.take(i as int)),
            i_ctr == int_count(sig.params@.take(i as int)),
            i_ctr <= i,
            stack_offset == stack_bytes(sig.params@.take(i as int)),
            0 <= stack_offset <= 8 * i,
        decreases sig.params@.len() - i,
    {
        let arg = sig.params[i];
        let ghost pre = sig.params@.take(i as int);
        let ghost cur = sig.params@.take(i + 1);
        assert(cur.drop_last() =~= pre);
        assert(cur.last() == arg);
        match arg {
            WasmValueType::I32 | WasmValueType::I64 => {
                let index = if i_ctr == 0 {
                    VarIndex::Reg(X86Regs::Rsi)
                } else if i_ctr == 1 {
                    VarIndex::Reg(X86Regs::Rdx)
                } else if i_ctr == 2 {
                    VarIndex::Reg(X86Regs::Rcx)
                } else if i_ctr == 3 {
                    VarIndex::Reg(X86Regs::R8)
                } else if i_ctr == 4 {
                    VarIndex::Reg(X86Regs::R9)
                } else {
                    if let WasmValueType::I32 = arg {
                        stack_offset = stack_offset + 4;
                    } else {
                        stack_offset = stack_offset + 8;
                    }
                    VarIndex::Stack(stack_offset)
                };
                i_ctr = i_ctr + 1;
                match arg {
                    WasmValueType::I32 => arg_locs.push((index, ValSize::Size32)),
                    _ => arg_locs.push((index, ValSize::Size64)),
                }
            },
            _ => {},
        }
        assert(arg_locs@ =~= sysv_args(cur));
        i = i + 1;
    }
    assert(sig.params@.take(i as int) =~= sig.params@);
    FunType { args: arg_locs, ret: to_system_v_ret_ty(sig) }
}

} // verus!
