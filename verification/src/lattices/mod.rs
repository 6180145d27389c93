pub mod calllattice;
pub mod davlattice;
pub mod heaplattice;
pub mod localslattice;
pub mod reachingdefslattice;
pub mod regslattice;
pub mod stackgrowthlattice;
pub mod stacklattice;
pub mod switchlattice;
pub mod wasmtime_lattice;

use crate::ir::types::{
    memargs_wf, reg_index, spec_bits, spec_bytes, spec_rsp_offset, value_is_wf, value_rsp_is_ok, value_rsp_ok, value_wf,
    Binopcode, MemArg, MemArgs, ValSize, Value,
};
use crate::ir::utils::get_imm_offset;
use crate::lattices::reachingdefslattice::LocIdx;
use crate::lattices::regslattice::{regs_get, ArchRegsLattice, RegsView};
use crate::lattices::stacklattice::{stack_get, stack_update, wrap_add, StackLattice, StackView};
use std::cmp::Ordering;
use vstd::prelude::*;
use vstd::std_specs::cmp::{PartialEqSpecImpl, PartialOrdSpecImpl};

verus! {

/// How one lattice element relates to another (the answer of a partial comparison).
#[derive(Clone, Copy, Debug, PartialEq, Eq, Structural)]
pub enum Order {
    Less,
    Equal,
    Greater,
}

/// The std comparison answer for a lattice comparison.
pub open spec fn ordering_of(o: Option<Order>) -> Option<Ordering> {
    match o {
        Some(Order::Less) => Some(Ordering::Less),
        Some(Order::Equal) => Some(Ordering::Equal),
        Some(Order::Greater) => Some(Ordering::Greater),
        None => None,
    }
}

pub fn to_ordering(o: Option<Order>) -> (r: Option<Ordering>)
    ensures
        r == ordering_of(o),
{
    match o {
        Some(Order::Less) => Some(Ordering::Less),
        Some(Order::Equal) => Some(Ordering::Equal),
        Some(Order::Greater) => Some(Ordering::Greater),
        None => None,
    }
}

/// A meet semi-lattice of abstract values, described through its view.
pub trait Lattice: Sized + View {
    /// The meet (greatest lower bound) of two abstract values.
    spec fn spec_meet(a: Self::V, b: Self::V) -> Self::V;

    /// The partial order of the lattice, as a partial comparison.
    spec fn spec_order(a: Self::V, b: Self::V) -> Option<Order>;

    /// The default element (the bottom of the lattice).
    spec fn spec_bot() -> Self::V;

    fn meet(&self, other: &Self, loc_idx: &LocIdx) -> (r: Self)
        ensures
            r@ == Self::spec_meet(self@, other@),
    ;

    fn order(&self, other: &Self) -> (r: Option<Order>)
        ensures
            r == Self::spec_order(self@, other@),
    ;

    fn same(&self, other: &Self) -> (r: bool)
        ensures
            r == (self@ == other@),
    ;

    fn bot() -> (r: Self)
        ensures
            r@ == Self::spec_bot(),
    ;

    fn duplicate(&self) -> (r: Self)
        ensures
            r@ == self@,
    ;

    /// A meet never lies strictly above its left argument.
    proof fn lemma_meet_not_above(a: Self::V, b: Self::V)
        ensures
            Self::spec_order(Self::spec_meet(a, b), a) != Some(Order::Greater),
    ;
}

/// A lattice of single values (as opposed to maps of them), whose comparison is
/// symmetric and whose meet is commutative and idempotent.
pub trait ValueLattice: Lattice {
    /// An element never lies strictly below its meet with another.
    proof fn lemma_not_below_meet(a: Self::V, b: Self::V)
        ensures
            Self::spec_order(a, Self::spec_meet(a, b)) != Some(Order::Less),
    ;

    proof fn lemma_meet_commutative(a: Self::V, b: Self::V)
        ensures
            Self::spec_meet(a, b) == Self::spec_meet(b, a),
    ;

    proof fn lemma_meet_idempotent(a: Self::V)
        ensures
            Self::spec_meet(a, a) == a,
    ;

    proof fn lemma_order_reflexive(a: Self::V)
        ensures
            Self::spec_order(a, a) == Some(Order::Equal),
    ;
}

/// The two-point lattice `false < true`, where meet is conjunction.
#[derive(Clone, Copy, Debug)]
pub struct BooleanLattice {
    pub v: bool,
}

impl View for BooleanLattice {
    type V = bool;

    open spec fn view(&self) -> bool {
        self.v
    }
}

impl Lattice for BooleanLattice {
    open spec fn spec_meet(a: bool, b: bool) -> bool {
        a && b
    }

    open spec fn spec_order(a: bool, b: bool) -> Option<Order> {
        if a == b {
            Some(Order::Equal)
        } else if !a {
            Some(Order::Less)
        } else {
            Some(Order::Greater)
        }
    }

    open spec fn spec_bot() -> bool {
        false
    }

    fn meet(&self, other: &Self, _loc_idx: &LocIdx) -> (r: Self) {
        BooleanLattice { v: self.v && other.v }
    }

    fn order(&self, other: &Self) -> (r: Option<Order>) {
        if self.v == other.v {
            Some(Order::Equal)
        } else if !self.v {
            Some(Order::Less)
        } else {
            Some(Order::Greater)
        }
    }

    fn same(&self, other: &Self) -> (r: bool) {
        self.v == other.v
    }

    fn bot() -> (r: Self) {
        BooleanLattice { v: false }
    }

    fn duplicate(&self) -> (r: Self) {
        BooleanLattice { v: self.v }
    }

    proof fn lemma_meet_not_above(a: bool, b: bool) {
    }
}

impl ValueLattice for BooleanLattice {
    proof fn lemma_not_below_meet(a: bool, b: bool) {
    }

    proof fn lemma_meet_commutative(a: bool, b: bool) {
    }

    proof fn lemma_meet_idempotent(a: bool) {
    }

    proof fn lemma_order_reflexive(a: bool) {
    }
}

impl PartialEq for BooleanLattice {
    fn eq(&self, other: &Self) -> (r: bool) {
        self.v == other.v
    }
}

impl PartialEqSpecImpl for BooleanLattice {
    open spec fn obeys_eq_spec() -> bool {
        true
    }

    open spec fn eq_spec(&self, other: &Self) -> bool {
        self@ == other@
    }
}

impl Eq for BooleanLattice {

}

impl PartialOrd for BooleanLattice {
    fn partial_cmp(&self, other: &Self) -> (r: Option<Ordering>) {
        to_ordering(self.order(other))
    }
}

impl PartialOrdSpecImpl for BooleanLattice {
    open spec fn obeys_partial_cmp_spec() -> bool {
        true
    }

    open spec fn partial_cmp_spec(&self, other: &Self) -> Option<Ordering> {
        ordering_of(Self::spec_order(self@, other@))
    }
}

impl Default for BooleanLattice {
    fn default() -> (r: Self)
        ensures
            r@ == false,
    {
        BooleanLattice { v: false }
    }
}


/// A register's abstract value, with the width in bits of the write that set it.
#[derive(Clone, Debug)]
pub struct VarSlot<T> {
    pub size: u32,
    pub value: T,
}

/// A value that can be held by a [`ConstLattice`]: it can be compared for
/// equality and duplicated.
pub trait ConstValue: Sized + View {
    fn same_value(&self, other: &Self) -> (r: bool)
        ensures
            r == (self@ == other@),
    ;

    fn copy_value(&self) -> (r: Self)
        ensures
            r@ == self@,
    ;
}

impl ConstValue for u32 {
    fn same_value(&self, other: &Self) -> (r: bool) {
        *self == *other
    }

    fn copy_value(&self) -> (r: Self) {
        *self
    }
}

impl ConstValue for u64 {
    fn same_value(&self, other: &Self) -> (r: bool) {
        *self == *other
    }

    fn copy_value(&self) -> (r: Self) {
        *self
    }
}

impl ConstValue for (i64, i64, i64) {
    fn same_value(&self, other: &Self) -> (r: bool) {
        self.0 == other.0 && self.1 == other.1 && self.2 == other.2
    }

    fn copy_value(&self) -> (r: Self) {
        (self.0, self.1, self.2)
    }
}

/// The flat lattice over the values of `T`: `None` is the bottom, and two
/// distinct values meet at `None`.
#[derive(Clone, Debug)]
pub struct ConstLattice<T> {
    pub v: Option<T>,
}

pub type Constu32Lattice = ConstLattice<u32>;

impl<T: View> View for ConstLattice<T> {
    type V = Option<T::V>;

    open spec fn view(&self) -> Option<T::V> {
        match self.v {
            Some(x) => Some(x@),
            None => None,
        }
    }
}

/// The flat order: `None` below everything, distinct values incomparable.
pub open spec fn flat_order<A>(a: Option<A>, b: Option<A>) -> Option<Order> {
    match (a, b) {
        (None, None) => Some(Order::Equal),
        (None, _) => Some(Order::Less),
        (_, None) => Some(Order::Greater),
        (Some(x), Some(y)) => if x == y {
            Some(Order::Equal)
        } else {
            None
        },
    }
}

impl<T: ConstValue> ConstLattice<T> {
    pub fn new(v: T) -> (r: Self)
        ensures
            r@ == Some(v@),
    {
        ConstLattice { v: Some(v) }
    }
}

impl<T: ConstValue> Lattice for ConstLattice<T> {
    open spec fn spec_meet(a: Option<T::V>, b: Option<T::V>) -> Option<T::V> {
        if a == b {
            a
        } else {
            None
        }
    }

    open spec fn spec_order(a: Option<T::V>, b: Option<T::V>) -> Option<Order> {
        flat_order(a, b)
    }

    open spec fn spec_bot() -> Option<T::V> {
        None
    }

    fn meet(&self, other: &Self, _loc_idx: &LocIdx) -> (r: Self) {
        if self.same(other) {
            self.duplicate()
        } else {
            ConstLattice { v: None }
        }
    }

    fn order(&self, other: &Self) -> (r: Option<Order>) {
        match (&self.v, &other.v) {
            (None, None) => Some(Order::Equal),
            (None, _) => Some(Order::Less),
            (_, None) => Some(Order::Greater),
            (Some(x), Some(y)) => if x.same_value(y) {
                Some(Order::Equal)
            } else {
                None
            },
        }
    }

    fn same(&self, other: &Self) -> (r: bool) {
        match (&self.v, &other.v) {
            (None, None) => true,
            (Some(x), Some(y)) => x.same_value(y),
            _ => false,
        }
    }

    fn bot() -> (r: Self) {
        ConstLattice { v: None }
    }

    fn duplicate(&self) -> (r: Self) {
        match &self.v {
            Some(x) => ConstLattice { v: Some(x.copy_value()) },
            None => ConstLattice { v: None },
        }
    }

    proof fn lemma_meet_not_above(a: Option<T::V>, b: Option<T::V>) {
    }
}

impl<T: ConstValue> ValueLattice for ConstLattice<T> {
    proof fn lemma_not_below_meet(a: Option<T::V>, b: Option<T::V>) {
    }

    proof fn lemma_meet_commutative(a: Option<T::V>, b: Option<T::V>) {
    }

    proof fn lemma_meet_idempotent(a: Option<T::V>) {
    }

    proof fn lemma_order_reflexive(a: Option<T::V>) {
    }
}

impl<T: ConstValue> PartialEq for ConstLattice<T> {
    fn eq(&self, other: &Self) -> (r: bool) {
        self.same(other)
    }
}

impl<T: ConstValue> PartialEqSpecImpl for ConstLattice<T> {
    open spec fn obeys_eq_spec() -> bool {
        true
    }

    open spec fn eq_spec(&self, other: &Self) -> bool {
        self@ == other@
    }
}

impl<T: ConstValue> Eq for ConstLattice<T> {

}

impl<T: ConstValue> PartialOrd for ConstLattice<T> {
    fn partial_cmp(&self, other: &Self) -> (r: Option<Ordering>) {
        to_ordering(self.order(other))
    }
}

impl<T: ConstValue> PartialOrdSpecImpl for ConstLattice<T> {
    open spec fn obeys_partial_cmp_spec() -> bool {
        true
    }

    open spec fn partial_cmp_spec(&self, other: &Self) -> Option<Ordering> {
        ordering_of(Self::spec_order(self@, other@))
    }
}

impl<T> Default for ConstLattice<T> {
    fn default() -> (r: Self)
        ensures
            r.v is None,
    {
        ConstLattice { v: None }
    }
}


/// Abstract values of the registers and of the stack frame.
#[derive(Clone, Debug)]
pub struct VariableState<T> {
    pub regs: ArchRegsLattice<T>,
    pub stack: StackLattice<T>,
}

pub type StateView<V> = (RegsView<V>, StackView<V>);

impl<T: View> View for VariableState<T> {
    type V = StateView<T::V>;

    open spec fn view(&self) -> StateView<T::V> {
        (self.regs@, self.stack@)
    }
}

/// The offset from the stack pointer of an address of the form `[rsp]` or
/// `[rsp + c]`; `None` for any other address.
pub fn mem_to_stack_offset(memargs: &MemArgs) -> (r: Option<i64>)
    ensures
        r == spec_rsp_offset(*memargs),
{
    match *memargs {
        MemArgs::Mem1Arg(arg) => {
            if let MemArg::Reg(regnum, _) = arg {
                if regnum.is_rsp() {
                    return Some(0);
                }
            }
        },
        MemArgs::Mem2Args(arg1, arg2) => {
            if let MemArg::Reg(regnum, _) = arg1 {
                if regnum.is_rsp() {
                    if let MemArg::Imm(_, _, offset) = arg2 {
                        return Some(offset);
                    }
                }
            }
        },
        _ => {},
    }
    None
}

/// Whether a value can be written: a register, or memory (only a stack slot
/// is tracked, and it must be 4-aligned and at most 8 bytes wide).
pub open spec fn can_set(index: Value) -> bool {
    match index {
        Value::Mem(sz, m) => match spec_rsp_offset(m) {
            Some(o) => !(sz is Size1) && spec_bytes(sz) <= 8 && o % 4 == 0,
            None => true,
        },
        Value::Reg(_, _) => true,
        _ => false,
    }
}

/// Whether a value can be read: a stack slot must be read 4 or 8 bytes wide.
pub open spec fn can_get(index: Value) -> bool {
    match index {
        Value::Mem(sz, m) => match spec_rsp_offset(m) {
            Some(o) => sz is Size32 || sz is Size64,
            None => true,
        },
        _ => true,
    }
}

/// Whether a value can be written (see `can_set`).
pub fn is_settable(index: &Value) -> (r: bool)
    ensures
        r == can_set(*index),
{
    match *index {
        Value::Mem(sz, m) => match mem_to_stack_offset(&m) {
            Some(o) => !matches!(sz, ValSize::Size1) && sz.into_bytes() <= 8 && o % 4 == 0,
            None => true,
        },
        Value::Reg(_, _) => true,
        _ => false,
    }
}

/// Whether a value can be read (see `can_get`).
pub fn is_gettable(index: &Value) -> (r: bool)
    ensures
        r == can_get(*index),
{
    match *index {
        Value::Mem(sz, m) => match mem_to_stack_offset(&m) {
            Some(_) => matches!(sz, ValSize::Size32) || matches!(sz, ValSize::Size64),
            None => true,
        },
        _ => true,
    }
}

/// Whether a statement `dst = src1 op src2` writes the stack pointer legally
/// (see `can_adjust`).
pub fn is_adjustable(opcode: &Binopcode, dst: &Value, src1: &Value, src2: &Value) -> (r: bool)
    ensures
        r == can_adjust(*opcode, *dst, *src1, *src2),
{
    if !value_rsp_is_ok(dst) {
        return false;
    }
    if !dst.is_rsp() {
        return true;
    }
    if !value_rsp_is_ok(src1) || !src1.is_rsp() {
        return false;
    }
    match *src2 {
        Value::Imm(_, _, c) => c % 4 == 0 && c != i64::MIN && (matches!(*opcode, Binopcode::Add)
            || matches!(*opcode, Binopcode::Sub)),
        _ => false,
    }
}

/// The state after writing `v` to `index`; memory other than the stack is not
/// tracked.
pub open spec fn var_set<V>(s: StateView<V>, index: Value, v: V, bot: V) -> StateView<V> {
    match index {
        Value::Mem(sz, m) => match spec_rsp_offset(m) {
            Some(o) => (s.0, stack_update(s.1, o, v, spec_bytes(sz), bot)),
            None => s,
        },
        Value::Reg(r, sz) => (s.0.insert(reg_index(r), (spec_bits(sz), v)), s.1),
        _ => s,
    }
}

/// The abstract value of `index`: known for registers and stack slots.
pub open spec fn var_get<V>(s: StateView<V>, index: Value, bot: V) -> Option<V> {
    match index {
        Value::Mem(sz, m) => match spec_rsp_offset(m) {
            Some(o) => Some(stack_get(s.1, o, spec_bytes(sz), bot)),
            None => None,
        },
        Value::Reg(r, _) => Some(regs_get(s.0, r, bot)),
        _ => None,
    }
}

/// Whether a statement `dst = src1 op src2` is a legal write of the stack
/// pointer: `rsp = rsp + c` or `rsp = rsp - c` with `c` a multiple of 4.
pub open spec fn can_adjust(opcode: Binopcode, dst: Value, src1: Value, src2: Value) -> bool {
    value_rsp_ok(dst) && (dst.spec_is_rsp() ==> {
        &&& value_rsp_ok(src1)
        &&& src1.spec_is_rsp()
        &&& src2 is Imm
        &&& src2->Imm_2 % 4 == 0
        &&& src2->Imm_2 != i64::MIN
        &&& (opcode is Add || opcode is Sub)
    })
}

/// The state after `dst = src1 op src2`, as far as the stack pointer goes.
pub open spec fn var_adjust<V>(s: StateView<V>, opcode: Binopcode, dst: Value, src1: Value, src2: Value) -> StateView<V> {
    if dst.spec_is_rsp() {
        let adj = if opcode is Add {
            src2->Imm_2
        } else {
            (-src2->Imm_2) as i64
        };
        (s.0, (wrap_add(s.1.0, adj), s.1.1))
    } else {
        s
    }
}

impl<T: ValueLattice> VariableState<T> {
    pub fn set(&mut self, index: &Value, value: T)
        requires
            can_set(*index),
        ensures
            final(self)@ == var_set(old(self)@, *index, value@, T::spec_bot()),
    {
        match *index {
            Value::Mem(memsize, memargs) => {
                if let Some(offset) = mem_to_stack_offset(&memargs) {
                    self.stack.update(offset, value, memsize.into_bytes())
                }
            },
            Value::Reg(regnum, s2) => self.regs.set_reg(regnum, s2, value),
            _ => {},
        }
    }

    pub fn get(&self, index: &Value) -> (r: Option<T>)
        requires
            can_get(*index),
        ensures
            match (r, var_get(self@, *index, T::spec_bot())) {
                (Some(x), Some(y)) => x@ == y,
                (None, None) => true,
                _ => false,
            },
    {
        match *index {
            Value::Mem(memsize, memargs) => match mem_to_stack_offset(&memargs) {
                Some(offset) => Some(self.stack.get(offset, memsize.into_bytes())),
                None => None,
            },
            Value::Reg(regnum, s2) => Some(self.regs.get_reg(regnum, s2)),
            _ => None,
        }
    }

    /// Sets `index` to the default value.
    pub fn set_to_bot(&mut self, index: &Value)
        requires
            can_set(*index),
        ensures
            final(self)@ == var_set(old(self)@, *index, T::spec_bot(), T::spec_bot()),
    {
        self.set(index, T::bot())
    }

    /// A call clobbers every register.
    pub fn on_call(&mut self)
        ensures
            final(self)@ == (Map::<u8, (u32, T::V)>::empty(), old(self)@.1),
    {
        self.regs.clear_regs();
    }

    /// Follows a write of the stack pointer by `rsp = rsp + c` or
    /// `rsp = rsp - c`.
    pub fn adjust_stack_offset(&mut self, opcode: &Binopcode, dst: &Value, src1: &Value, src2: &Value)
        requires
            can_adjust(*opcode, *dst, *src1, *src2),
        ensures
            final(self)@ == var_adjust(old(self)@, *opcode, *dst, *src1, *src2),
    {
        if dst.is_rsp() {
            if src1.is_rsp() {
                let adjustment = get_imm_offset(src2);
                match *opcode {
                    Binopcode::Add => self.stack.update_stack_offset(adjustment),
                    _ => self.stack.update_stack_offset(-adjustment),
                }
            }
        }
    }
}

impl<T: ValueLattice> Lattice for VariableState<T> {
    open spec fn spec_meet(a: StateView<T::V>, b: StateView<T::V>) -> StateView<T::V> {
        (ArchRegsLattice::<T>::spec_meet(a.0, b.0), StackLattice::<T>::spec_meet(a.1, b.1))
    }

    open spec fn spec_order(a: StateView<T::V>, b: StateView<T::V>) -> Option<Order> {
        match ArchRegsLattice::<T>::spec_order(a.0, b.0) {
            Some(Order::Equal) => StackLattice::<T>::spec_order(a.1, b.1),
            o => o,
        }
    }

    open spec fn spec_bot() -> StateView<T::V> {
        (ArchRegsLattice::<T>::spec_bot(), StackLattice::<T>::spec_bot())
    }

    fn meet(&self, other: &Self, loc_idx: &LocIdx) -> (r: Self) {
        VariableState {
            regs: self.regs.meet(&other.regs, loc_idx),
            stack: self.stack.meet(&other.stack, loc_idx),
        }
    }

    fn order(&self, other: &Self) -> (r: Option<Order>) {
        match self.regs.order(&other.regs) {
            Some(Order::Equal) => self.stack.order(&other.stack),
            o => o,
        }
    }

    fn same(&self, other: &Self) -> (r: bool) {
        self.regs.same(&other.regs) && self.stack.same(&other.stack)
    }

    fn bot() -> (r: Self) {
        VariableState { regs: ArchRegsLattice::bot(), stack: StackLattice::bot() }
    }

    fn duplicate(&self) -> (r: Self) {
        VariableState { regs: self.regs.duplicate(), stack: self.stack.duplicate() }
    }

    proof fn lemma_meet_not_above(a: StateView<T::V>, b: StateView<T::V>) {
        ArchRegsLattice::<T>::lemma_meet_not_above(a.0, b.0);
        StackLattice::<T>::lemma_meet_not_above(a.1, b.1);
    }
}

impl<T: ValueLattice> PartialEq for VariableState<T> {
    fn eq(&self, other: &Self) -> (r: bool) {
        self.same(other)
    }
}

impl<T: ValueLattice> PartialEqSpecImpl for VariableState<T> {
    open spec fn obeys_eq_spec() -> bool {
        true
    }

    open spec fn eq_spec(&self, other: &Self) -> bool {
        self@ == other@
    }
}

impl<T: ValueLattice> Eq for VariableState<T> {

}

impl<T: ValueLattice> PartialOrd for VariableState<T> {
    fn partial_cmp(&self, other: &Self) -> (r: Option<Ordering>) {
        to_ordering(self.order(other))
    }
}

impl<T: ValueLattice> PartialOrdSpecImpl for VariableState<T> {
    open spec fn obeys_partial_cmp_spec() -> bool {
        true
    }

    open spec fn partial_cmp_spec(&self, other: &Self) -> Option<Ordering> {
        ordering_of(Self::spec_order(self@, other@))
    }
}

impl<T: ValueLattice> Default for VariableState<T> {
    fn default() -> (r: Self)
        ensures
            r@ == Self::spec_bot(),
    {
        Self::bot()
    }
}

} // verus!
