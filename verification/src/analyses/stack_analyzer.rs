use crate::analyses::{same_state_to_all, state_to_all, AbstractAnalyzer};
use crate::ir::types::{stmt_is_wf, stmt_wf, value_wf, Binopcode, IRBlock, IRMap, ImmType, Stmt, Unopcode, ValSize, Value, X86Regs};
use crate::ir::utils::get_imm_offset;
use crate::lattices::reachingdefslattice::LocIdx;
use crate::lattices::stackgrowthlattice::StackGrowthLattice;
use crate::lattices::ConstLattice;
use vstd::prelude::*;

verus! {

/// The stack-growth analysis: tracks how far the stack pointer is below its
/// value at function entry, how much of the stack has been probed, and the
/// growth saved in the frame pointer.
pub struct StackAnalyzer {}

/// The abstract stack growth: growth, probed extent, and saved frame pointer.
pub type Growth = Option<(i64, i64, i64)>;

/// Whether an integer fits in an `i64`.
pub open spec fn fits_i64(v: int) -> bool {
    i64::MIN <= v <= i64::MAX
}

pub fn sg_lattice(stackgrowth: i64, probestack: i64, rbp: i64) -> (r: StackGrowthLattice)
    ensures
        r@ == Some((stackgrowth, probestack, rbp)),
{
    ConstLattice::new((stackgrowth, probestack, rbp))
}

/// The growth after `rsp = rsp op c`: adding shrinks the stack; subtracting
/// grows it, and a growth past the probed extent moves that extent by one
/// page (the guard page cannot be skipped), while one past the next page is
/// unsafe. Anything else, and a result out of range, leaves the growth
/// unknown. An unknown growth is where the analysis cannot go on: the stack
/// check fails at every statement reached in that state.
pub open spec fn spec_sg_binop(s: Growth, opcode: Binopcode, src1: Value, src2: Value) -> Growth {
    if src1.spec_is_rsp() {
        let offset = src2->Imm_2;
        match s {
            Some((x, probestack, rbp)) => match opcode {
                Binopcode::Add => if fits_i64(x + offset) {
                    Some(((x + offset) as i64, probestack, rbp))
                } else {
                    None
                },
                Binopcode::Sub => {
                    let g = x - offset;
                    let p = if offset - x > probestack {
                        probestack + 4096
                    } else {
                        probestack as int
                    };
                    if offset - x > probestack + 4096 {
                        None
                    } else if fits_i64(g) && fits_i64(p) {
                        Some((g as i64, p as i64, rbp))
                    } else {
                        None
                    }
                },
                _ => None,
            },
            None => None,
        }
    } else {
        None
    }
}

/// The growth after a stack probe of `n` bytes: the stack grows by `n`, and
/// the probed extent covers the pages touched.
pub open spec fn spec_probe(s: Growth, n: u64) -> Growth {
    match s {
        Some((x, _, rbp)) => {
            let probed = (n / 4096 + 1) * 4096;
            if fits_i64(x - n) && fits_i64(probed) {
                Some(((x - n) as i64, probed as i64, rbp))
            } else {
                None
            }
        },
        None => None,
    }
}

/// The growth after one statement. Only writes of the stack or frame pointer
/// and stack probes change it; a write of the stack pointer that the
/// analysis cannot follow leaves it unknown.
pub open spec fn spec_stack_aexec(s: Growth, stmt: Stmt) -> Growth {
    match stmt {
        Stmt::Clear(dst, _) => if dst.spec_is_rsp() {
            None
        } else {
            s
        },
        Stmt::Unop(opcode, dst, src) => if opcode is Mov && dst.spec_is_rsp() && src.spec_is_rbp() {
            match s {
                Some((_, p, rbp)) => Some((rbp, p, rbp)),
                None => None,
            }
        } else if opcode is Mov && dst.spec_is_rbp() && src.spec_is_rsp() {
            match s {
                Some((g, p, _)) => Some((g, p, g)),
                None => None,
            }
        } else if dst.spec_is_rsp() {
            None
        } else {
            s
        },
        Stmt::Binop(opcode, dst, src1, src2) => if opcode is Cmp || opcode is Test {
            s
        } else if dst.spec_is_rsp() {
            spec_sg_binop(s, opcode, src1, src2)
        } else {
            s
        },
        Stmt::ProbeStack(n) => spec_probe(s, n),
        _ => s,
    }
}

/// Whether the analysis can step over a statement: its operands are well
/// formed, and a write of the stack pointer computed from it adds or
/// subtracts a constant.
pub open spec fn stack_stmt_ok(stmt: Stmt) -> bool {
    &&& stmt_wf(stmt)
    &&& stmt matches Stmt::Binop(opcode, dst, src1, src2) ==> (!(opcode is Cmp || opcode is Test)
        && dst.spec_is_rsp() && src1.spec_is_rsp() ==> src2 is Imm)
}

impl StackAnalyzer {
    fn aeval_binop(
        &self,
        in_state: &StackGrowthLattice,
        opcode: &Binopcode,
        src1: &Value,
        src2: &Value,
    ) -> (r: StackGrowthLattice)
        requires
            value_wf(*src1),
            src1.spec_is_rsp() ==> *src2 is Imm,
        ensures
            r@ == spec_sg_binop(in_state@, *opcode, *src1, *src2),
    {
        if src1.is_rsp() {
            let offset = get_imm_offset(src2);
            if let Some((x, probestack, rbp)) = in_state.v {
                match *opcode {
                    Binopcode::Add => {
                        let g = x as i128 + offset as i128;
                        if i64::MIN as i128 <= g && g <= i64::MAX as i128 {
                            return sg_lattice(g as i64, probestack, rbp);
                        }
                    },
                    Binopcode::Sub => {
                        let dist = offset as i128 - x as i128;
                        if dist > probestack as i128 + 4096 {
                            return ConstLattice { v: None };
                        }
                        let g = x as i128 - offset as i128;
                        let p = if dist > probestack as i128 {
                            probestack as i128 + 4096
                        } else {
                            probestack as i128
                        };
                        if i64::MIN as i128 <= g && g <= i64::MAX as i128 && p <= i64::MAX as i128 {
                            return sg_lattice(g as i64, p as i64, rbp);
                        }
                    },
                    _ => {},
                }
            }
        }
        ConstLattice { v: None }
    }

    fn aeval_probestack(&self, in_state: &StackGrowthLattice, n: u64) -> (r: StackGrowthLattice)
        ensures
            r@ == spec_probe(in_state@, n),
    {
        if let Some((x, _old_probestack, rbp)) = in_state.v {
            let probed = (n as i128 / 4096 + 1) * 4096;
            let g = x as i128 - n as i128;
            if i64::MIN as i128 <= g && g <= i64::MAX as i128 && probed <= i64::MAX as i128 {
                return sg_lattice(g as i64, probed as i64, rbp);
            }
        }
        ConstLattice { v: None }
    }
}

impl AbstractAnalyzer<StackGrowthLattice> for StackAnalyzer {
    open spec fn spec_init_state(&self) -> Growth {
        Some((0, 4096, 0))
    }

    open spec fn stmt_ok(&self, stmt: Stmt) -> bool {
        stack_stmt_ok(stmt)
    }

    open spec fn spec_aexec(&self, s: Growth, stmt: Stmt, loc: LocIdx) -> Growth {
        spec_stack_aexec(s, stmt)
    }

    open spec fn spec_process_branch(
        &self,
        irmap: Map<u64, IRBlock>,
        s: Growth,
        succs: Seq<u64>,
        addr: u64,
    ) -> Seq<(u64, Growth)> {
        same_state_to_all(s, succs)
    }

    fn init_state(&self) -> (r: StackGrowthLattice) {
        sg_lattice(0, 4096, 0)
    }

    fn supports(&self, stmt: &Stmt) -> (r: bool) {
        if !stmt_is_wf(stmt) {
            return false;
        }
        match stmt {
            Stmt::Binop(opcode, dst, src1, src2) => {
                let flags = matches!(*opcode, Binopcode::Cmp) || matches!(*opcode, Binopcode::Test);
                flags || !dst.is_rsp() || !src1.is_rsp() || src2.is_imm()
            },
            _ => true,
        }
    }

    fn process_branch(
        &self,
        irmap: &IRMap,
        in_state: &StackGrowthLattice,
        succ_addrs: &Vec<u64>,
        addr: &u64,
    ) -> (r: Vec<(u64, StackGrowthLattice)>) {
        state_to_all(in_state, succ_addrs)
    }

    /// Follows a statement; a stack growth that cannot be followed becomes
    /// unknown, which the stack checker rejects at the next statement.
    fn aexec(&self, in_state: &mut StackGrowthLattice, ir_instr: &Stmt, loc_idx: &LocIdx) {
        match ir_instr {
            Stmt::Clear(dst, _) => {
                if dst.is_rsp() {
                    *in_state = ConstLattice { v: None };
                }
            },
            Stmt::Unop(opcode, dst, src) => {
                let is_mov = match opcode {
                    Unopcode::Mov => true,
                    _ => false,
                };
                if is_mov && dst.is_rsp() && src.is_rbp() {
                    if let Some((_, probestack, rbp_sg)) = in_state.v {
                        *in_state = sg_lattice(rbp_sg, probestack, rbp_sg);
                    }
                } else if is_mov && dst.is_rbp() && src.is_rsp() {
                    if let Some((stackgrowth, probestack, _)) = in_state.v {
                        *in_state = sg_lattice(stackgrowth, probestack, stackgrowth);
                    }
                } else if dst.is_rsp() {
                    *in_state = ConstLattice { v: None };
                }
            },
            Stmt::Binop(opcode, dst, src1, src2) => {
                match opcode {
                    Binopcode::Cmp => {},
                    Binopcode::Test => {},
                    _ => {
                        if dst.is_rsp() {
                            *in_state = self.aeval_binop(in_state, opcode, src1, src2);
                        }
                    },
                }
            },
            Stmt::ProbeStack(new_probestack) => {
                *in_state = self.aeval_probestack(in_state, *new_probestack);
            },
            _ => {},
        }
    }
}

/// `mov rbp, rsp` saves the current growth as the frame's: from growth `g`
/// the state is `(g, p, g)`.
pub proof fn lemma_frame_pointer_saves_growth(g: i64, p: i64, rbp: i64)
    ensures
        spec_stack_aexec(
            Some((g, p, rbp)),
            Stmt::Unop(Unopcode::Mov, Value::Reg(X86Regs::Rbp, ValSize::Size64), Value::Reg(X86Regs::Rsp, ValSize::Size64)),
        ) == Some((g, p, g)),
{
}

/// `mov rsp, rbp` after `mov rbp, rsp` brings the growth back to what it
/// was at the `mov rbp, rsp`, whatever the stack pointer did in between (as
/// long as the saved frame growth stayed).
pub proof fn lemma_frame_pointer_restores_growth(g: i64, p: i64, rbp: i64, g2: i64, p2: i64)
    ensures
        spec_stack_aexec(
            Some((g, p, rbp)),
            Stmt::Unop(Unopcode::Mov, Value::Reg(X86Regs::Rbp, ValSize::Size64), Value::Reg(X86Regs::Rsp, ValSize::Size64)),
        ) matches Some((_, _, saved)) && spec_stack_aexec(
            Some((g2, p2, saved)),
            Stmt::Unop(Unopcode::Mov, Value::Reg(X86Regs::Rsp, ValSize::Size64), Value::Reg(X86Regs::Rbp, ValSize::Size64)),
        ) == Some((g, p2, g)),
{
}

/// `add rsp, c` and then `sub rsp, c` bring the growth back to where it was
/// (when neither step leaves the range of the growth, and the subtraction
/// stays within the probed extent).
pub proof fn lemma_add_then_sub_restores(g: i64, p: i64, rbp: i64, c: i64)
    requires
        0 <= c,
        i64::MIN <= g + c <= i64::MAX,
        c - (g + c) <= p,
    ensures
        spec_stack_aexec(
            Some((g, p, rbp)),
            Stmt::Binop(
                Binopcode::Add,
                Value::Reg(X86Regs::Rsp, ValSize::Size64),
                Value::Reg(X86Regs::Rsp, ValSize::Size64),
                Value::Imm(ImmType::Signed, ValSize::Size64, c),
            ),
        ) == Some(((g + c) as i64, p, rbp)),
        spec_stack_aexec(
            Some(((g + c) as i64, p, rbp)),
            Stmt::Binop(
                Binopcode::Sub,
                Value::Reg(X86Regs::Rsp, ValSize::Size64),
                Value::Reg(X86Regs::Rsp, ValSize::Size64),
                Value::Imm(ImmType::Signed, ValSize::Size64, c),
            ),
        ) == Some((g, p, rbp)),
{
}

} // verus!
