use crate::ir::types::{
    memargs_wf, spec_rsp_offset, spec_stack_offset, value_wf, IRMap, MemArg, MemArgs, Stmt, Value,
};
use crate::utils::map_keys;
use vstd::prelude::*;

verus! {

broadcast use vstd::std_specs::hash::group_hash_axioms;

/// Whether the value is a memory access with the stack pointer among the
/// operands of its address.
pub fn is_stack_access(v: &Value) -> (r: bool)
    requires
        value_wf(*v),
    ensures
        r == v.spec_is_stack_access(),
{
    v.is_stack_access()
}

/// Whether the value is a memory access with the frame pointer among the
/// operands of its address.
pub fn is_bp_access(v: &Value) -> (r: bool)
    requires
        value_wf(*v),
    ensures
        r == v.spec_is_frame_access(),
{
    v.is_frame_access()
}

/// The offset from the stack pointer of a stack address: `[rsp]` is 0 and
/// `[rsp + c]` is `c`.
pub fn extract_stack_offset(memargs: &MemArgs) -> (r: i64)
    requires
        *memargs is Mem1Arg || (*memargs matches MemArgs::Mem2Args(_, b) && b is Imm),
    ensures
        r == spec_stack_offset(*memargs),
{
    memargs.extract_stack_offset()
}

pub fn is_mem_access(v: &Value) -> (r: bool)
    ensures
        r == (*v is Mem),
{
    v.is_mem()
}

/// The constant of an immediate operand.
pub fn get_imm_offset(v: &Value) -> (r: i64)
    requires
        *v is Imm,
    ensures
        r == v->Imm_2,
{
    v.as_imm_val()
}

/// The constant of an immediate address operand.
pub fn get_imm_mem_offset(v: &MemArg) -> (r: i64)
    requires
        *v is Imm,
    ensures
        r == v->Imm_2,
{
    v.to_imm()
}

/// Whether a statement calls through a register or a memory operand.
pub open spec fn is_indirect_call(s: Stmt) -> bool {
    s matches Stmt::Call(v) && (v is Reg || v is Mem)
}

/// Whether a statement jumps through a register or a memory operand.
pub open spec fn is_indirect_jump(s: Stmt) -> bool {
    s matches Stmt::Branch(_, v) && (v is Reg || v is Mem)
}

/// Whether some statement of some block of `irmap` calls (or, with `jumps`,
/// jumps) through a register or a memory operand.
pub open spec fn irmap_has_indirect(irmap: Map<u64, Vec<(u64, Vec<Stmt>)>>, jumps: bool) -> bool {
    exists|b: u64, i: int, j: int|
        #![trigger irmap[b]@[i].1@[j]]
        irmap.contains_key(b) && 0 <= i < irmap[b]@.len() && 0 <= j < irmap[b]@[i].1@.len() && (
        if jumps {
            is_indirect_jump(irmap[b]@[i].1@[j])
        } else {
            is_indirect_call(irmap[b]@[i].1@[j])
        })
}

fn irmap_has_indirect_exec(irmap: &IRMap, jumps: bool) -> (r: bool)
    ensures
        r == irmap_has_indirect(irmap@, jumps),
{
    let keys = map_keys(irmap);
    let mut k: usize = 0;
    while k < keys.len()
        invariant
            k <= keys@.len(),
            keys@.to_set() == irmap@.dom(),
            forall|kk: int, i: int, j: int|
                #![trigger irmap@[keys@[kk]]@[i].1@[j]]
                0 <= kk < k && 0 <= i < irmap@[keys@[kk]]@.len() && 0 <= j
                    < irmap@[keys@[kk]]@[i].1@.len() ==> !(if jumps {
                    is_indirect_jump(irmap@[keys@[kk]]@[i].1@[j])
                } else {
                    is_indirect_call(irmap@[keys@[kk]]@[i].1@[j])
                }),
        decreases keys@.len() - k,
    {
        assert(keys@.to_set().contains(keys@[k as int]));
        let block = irmap.get(&keys[k]).unwrap();
        if block_has_indirect(block, jumps) {
            return true;
        }
        k = k + 1;
    }
    assert forall|b: u64, i: int, j: int|
        irmap@.contains_key(b) && 0 <= i < irmap@[b]@.len() && 0 <= j < irmap@[b]@[i].1@.len()
            implies !(if jumps {
        is_indirect_jump(#[trigger] irmap@[b]@[i].1@[j])
    } else {
        is_indirect_call(irmap@[b]@[i].1@[j])
    }) by {
        assert(keys@.to_set().contains(b));
        let kk = choose|kk: int| 0 <= kk < keys@.len() && keys@[kk] == b;
        assert(irmap@[keys@[kk]]@[i].1@[j] == irmap@[b]@[i].1@[j]);
    }
    false
}

/// Whether some statement calls through a register or a memory operand.
pub fn has_indirect_calls(irmap: &IRMap) -> (r: bool)
    ensures
        r == irmap_has_indirect(irmap@, false),
{
    irmap_has_indirect_exec(irmap, false)
}

/// Whether some statement jumps through a register or a memory operand.
pub fn has_indirect_jumps(irmap: &IRMap) -> (r: bool)
    ensures
        r == irmap_has_indirect(irmap@, true),
{
    irmap_has_indirect_exec(irmap, true)
}

fn block_has_indirect(block: &Vec<(u64, Vec<Stmt>)>, jumps: bool) -> (r: bool)
    ensures
        r == exists|i: int, j: int|
            #![trigger block@[i].1@[j]]
            0 <= i < block@.len() && 0 <= j < block@[i].1@.len() && (if jumps {
                is_indirect_jump(block@[i].1@[j])
            } else {
                is_indirect_call(block@[i].1@[j])
            }),
{
    let mut i: usize = 0;
    while i < block.len()
        invariant
            i <= block@.len(),
            forall|i2: int, j: int|
                #![trigger block@[i2].1@[j]]
                0 <= i2 < i && 0 <= j < block@[i2].1@.len() ==> !(if jumps {
                    is_indirect_jump(block@[i2].1@[j])
                } else {
                    is_indirect_call(block@[i2].1@[j])
                }),
        decreases block@.len() - i,
    {
        let stmts = &block[i].1;
        let mut j: usize = 0;
        while j < stmts.len()
            invariant
                i < block@.len(),
                stmts == block@[i as int].1,
                j <= stmts@.len(),
                forall|i2: int, j2: int|
                    #![trigger block@[i2].1@[j2]]
                    0 <= i2 < i && 0 <= j2 < block@[i2].1@.len() ==> !(if jumps {
                        is_indirect_jump(block@[i2].1@[j2])
                    } else {
                        is_indirect_call(block@[i2].1@[j2])
                    }),
                forall|j2: int|
                    #![trigger block@[i as int].1@[j2]]
                    0 <= j2 < j ==> !(if jumps {
                        is_indirect_jump(block@[i as int].1@[j2])
                    } else {
                        is_indirect_call(block@[i as int].1@[j2])
                    }),
            decreases stmts@.len() - j,
        {
            let found = if jumps {
                match &stmts[j] {
                    Stmt::Branch(_, Value::Reg(_, _)) | Stmt::Branch(_, Value::Mem(_, _)) => true,
                    _ => false,
                }
            } else {
                match &stmts[j] {
                    Stmt::Call(Value::Reg(_, _)) | Stmt::Call(Value::Mem(_, _)) => true,
                    _ => false,
                }
            };
            if found {
                assert(block@[i as int].1@[j as int] == stmts@[j as int]);
                return true;
            }
            j = j + 1;
        }
        i = i + 1;
    }
    false
}

} // verus!
