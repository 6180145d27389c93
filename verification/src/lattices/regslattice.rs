use crate::ir::types::{reg_index, reg_of_index, spec_bits, ValSize, X86Regs, NUM_REGS};
use crate::lattices::reachingdefslattice::LocIdx;
use crate::lattices::{ordering_of, to_ordering, Lattice, Order, ValueLattice, VarSlot};
use crate::utils::map_keys;
use std::cmp::Ordering;
use std::collections::HashMap;
use vstd::prelude::*;
use vstd::std_specs::cmp::{PartialEqSpecImpl, PartialOrdSpecImpl};

verus! {

broadcast use {vstd::std_specs::hash::group_hash_axioms, vstd::seq_lib::group_seq_properties};

/// Abstract values of the registers, keyed by register index; a register that
/// is absent holds the default value.
#[derive(Clone, Debug)]
pub struct ArchRegsLattice<T> {
    pub map: HashMap<u8, VarSlot<T>>,
}

/// The abstract registers: for each register index, the width in bits of the
/// last write and the abstract value.
pub type RegsView<V> = Map<u8, (u32, V)>;

impl<T: View> View for ArchRegsLattice<T> {
    type V = RegsView<T::V>;

    open spec fn view(&self) -> RegsView<T::V> {
        self.map@.map_values(|s: VarSlot<T>| (s.size, s.value@))
    }
}

/// The abstract value of register `r`.
pub open spec fn regs_get<V>(m: RegsView<V>, r: X86Regs, bot: V) -> V {
    if m.contains_key(reg_index(r)) {
        m[reg_index(r)].1
    } else {
        bot
    }
}

/// Whether a slot is strictly below another: same size and a lower value.
pub open spec fn reg_slot_lt<T: Lattice>(x: (u32, T::V), y: (u32, T::V)) -> bool {
    x.0 == y.0 && T::spec_order(x.1, y.1) == Some(Order::Less)
}

/// Whether every register of `a` is also in `b`, and not strictly above it
/// there.
pub open spec fn regs_le<T: Lattice>(a: RegsView<T::V>, b: RegsView<T::V>) -> bool {
    forall|k: u8| #[trigger] a.contains_key(k) ==> b.contains_key(k) && !reg_slot_lt::<T>(b[k], a[k])
}

/// The registers of the meet of `a` and `b`, restricted to the indices in `ks`.
pub open spec fn regs_meet_map<T: Lattice>(a: RegsView<T::V>, b: RegsView<T::V>, ks: Set<u8>) -> RegsView<T::V> {
    Map::new(
        |k: u8| ks.contains(k) && a.contains_key(k) && b.contains_key(k),
        |k: u8|
            (
                if a[k].0 <= b[k].0 {
                    a[k].0
                } else {
                    b[k].0
                },
                T::spec_meet(a[k].1, b[k].1),
            ),
    )
}

pub open spec fn regs_slots_view<T: View>(m: Map<u8, VarSlot<T>>) -> RegsView<T::V> {
    m.map_values(|s: VarSlot<T>| (s.size, s.value@))
}

fn hashmap_le<T: ValueLattice>(s1: &ArchRegsLattice<T>, s2: &ArchRegsLattice<T>) -> (r: bool)
    ensures
        r == regs_le::<T>(s1@, s2@),
{
    let keys = map_keys(&s1.map);
    let mut i: usize = 0;
    while i < keys.len()
        invariant
            i <= keys@.len(),
            keys@.to_set() == s1.map@.dom(),
            forall|j: int|
                #![trigger keys@[j]]
                0 <= j < i ==> s2@.contains_key(keys@[j]) && !reg_slot_lt::<T>(
                    s2@[keys@[j]],
                    s1@[keys@[j]],
                ),
        decreases keys@.len() - i,
    {
        let k = keys[i];
        assert(keys@.to_set().contains(k));
        let v1 = s1.map.get(&k).unwrap();
        assert(s1@.contains_key(k));
        match s2.map.get(&k) {
            None => {
                assert(!s2@.contains_key(k));
                return false;
            },
            Some(v2) => {
                if v2.size == v1.size {
                    match v2.value.order(&v1.value) {
                        Some(Order::Less) => {
                            assert(reg_slot_lt::<T>(s2@[k], s1@[k]));
                            return false;
                        },
                        _ => {},
                    }
                }
            },
        }
        i = i + 1;
    }
    assert forall|k: u8| #[trigger] s1@.contains_key(k) implies s2@.contains_key(k)
        && !reg_slot_lt::<T>(s2@[k], s1@[k]) by {
        assert(keys@.to_set().contains(k));
        let j = choose|j: int| 0 <= j < keys@.len() && keys@[j] == k;
    }
    true
}

fn regs_included<T: ValueLattice>(s1: &ArchRegsLattice<T>, s2: &ArchRegsLattice<T>) -> (r: bool)
    ensures
        r == (forall|k: u8| #[trigger] s1@.contains_key(k) ==> s2@.contains_key(k) && s2@[k] == s1@[k]),
{
    let keys = map_keys(&s1.map);
    let mut i: usize = 0;
    while i < keys.len()
        invariant
            i <= keys@.len(),
            keys@.to_set() == s1.map@.dom(),
            forall|j: int|
                #![trigger keys@[j]]
                0 <= j < i ==> s2@.contains_key(keys@[j]) && s2@[keys@[j]] == s1@[keys@[j]],
        decreases keys@.len() - i,
    {
        let k = keys[i];
        assert(keys@.to_set().contains(k));
        let v1 = s1.map.get(&k).unwrap();
        assert(s1@.contains_key(k));
        match s2.map.get(&k) {
            None => {
                assert(!s2@.contains_key(k));
                return false;
            },
            Some(v2) => {
                if v2.size != v1.size || !v2.value.same(&v1.value) {
                    assert(s2@[k] != s1@[k]);
                    return false;
                }
            },
        }
        i = i + 1;
    }
    assert forall|k: u8| #[trigger] s1@.contains_key(k) implies s2@.contains_key(k) && s2@[k]
        == s1@[k] by {
        assert(keys@.to_set().contains(k));
        let j = choose|j: int| 0 <= j < keys@.len() && keys@[j] == k;
    }
    true
}

impl<T: ValueLattice> ArchRegsLattice<T> {
    /// The abstract value of a register; the width of the read is not consulted.
    pub fn get_reg(&self, index: X86Regs, size: ValSize) -> (r: T)
        ensures
            r@ == regs_get(self@, index, T::spec_bot()),
    {
        match self.map.get(&index.index()) {
            Some(slot) => slot.value.duplicate(),
            None => T::bot(),
        }
    }

    /// The abstract value of the register with the given index.
    pub fn get_reg_index(&self, index: u8, size: ValSize) -> (r: T)
        requires
            index < NUM_REGS,
        ensures
            r@ == regs_get(self@, reg_of_index(index), T::spec_bot()),
    {
        let reg_index = match X86Regs::try_from_index(index) {
            Ok(reg) => reg,
            Err(_) => X86Regs::Rax,
        };
        self.get_reg(reg_index, size)
    }

    /// Sets a register to `value`, written with a width of `size`.
    pub fn set_reg(&mut self, index: X86Regs, size: ValSize, value: T)
        ensures
            final(self)@ == old(self)@.insert(reg_index(index), (spec_bits(size), value@)),
    {
        let ghost prev = self.map@;
        let slot = VarSlot { size: size.into_bits(), value };
        let ghost sv = (slot.size, slot.value@);
        self.map.insert(index.index(), slot);
        proof {
            assert(self@ =~= regs_slots_view(prev).insert(reg_index(index), sv));
        }
    }

    /// Sets the register with the given index.
    pub fn set_reg_index(&mut self, index: u8, size: ValSize, value: T)
        requires
            index < NUM_REGS,
        ensures
            final(self)@ == old(self)@.insert(index, (spec_bits(size), value@)),
    {
        let reg_index = match X86Regs::try_from_index(index) {
            Ok(reg) => reg,
            Err(_) => X86Regs::Rax,
        };
        self.set_reg(reg_index, size, value)
    }

    /// Forgets every register.
    pub fn clear_regs(&mut self)
        ensures
            final(self)@ == Map::<u8, (u32, T::V)>::empty(),
    {
        self.map.clear();
        proof {
            assert(self@ =~= Map::<u8, (u32, T::V)>::empty());
        }
    }
}

impl<T: ValueLattice> Lattice for ArchRegsLattice<T> {
    open spec fn spec_meet(a: RegsView<T::V>, b: RegsView<T::V>) -> RegsView<T::V> {
        regs_meet_map::<T>(a, b, a.dom())
    }

    open spec fn spec_order(a: RegsView<T::V>, b: RegsView<T::V>) -> Option<Order> {
        if regs_le::<T>(a, b) {
            Some(Order::Less)
        } else if regs_le::<T>(b, a) {
            Some(Order::Greater)
        } else if a == b {
            Some(Order::Equal)
        } else {
            None
        }
    }

    open spec fn spec_bot() -> RegsView<T::V> {
        Map::empty()
    }

    fn meet(&self, other: &Self, loc_idx: &LocIdx) -> (r: Self) {
        let keys = map_keys(&self.map);
        let mut newmap: HashMap<u8, VarSlot<T>> = HashMap::new();
        let mut i: usize = 0;
        while i < keys.len()
            invariant
                i <= keys@.len(),
                keys@.to_set() == self.map@.dom(),
                keys@.no_duplicates(),
                regs_slots_view(newmap@) == regs_meet_map::<T>(
                    self@,
                    other@,
                    keys@.take(i as int).to_set(),
                ),
            decreases keys@.len() - i,
        {
            let k = keys[i];
            assert(keys@.to_set().contains(k));
            proof {
                assert(keys@.take(i + 1) =~= keys@.take(i as int).push(k));
                assert(keys@.take(i + 1).to_set() =~= keys@.take(i as int).to_set().insert(k));
                assert(!keys@.take(i as int).to_set().contains(k)) by {
                    if keys@.take(i as int).to_set().contains(k) {
                        let j = choose|j: int| 0 <= j < i && keys@.take(i as int)[j] == k;
                        assert(keys@[j] == keys@[i as int]);
                    }
                }
                assert(!regs_slots_view(newmap@).contains_key(k));
                assert(regs_slots_view(newmap@).dom() =~= newmap@.dom());
            }
            let v1 = self.map.get(&k).unwrap();
            let ghost prev = newmap@;
            match other.map.get(&k) {
                Some(v2) => {
                    let new_v = v1.value.meet(&v2.value, loc_idx);
                    let size = if v1.size <= v2.size {
                        v1.size
                    } else {
                        v2.size
                    };
                    let slot = VarSlot { size: size, value: new_v };
                    let ghost sv = (slot.size, slot.value@);
                    newmap.insert(k, slot);
                    assert(regs_slots_view(newmap@) =~= regs_slots_view(prev).insert(k, sv));
                },
                None => {},
            }
            proof {
                assert(regs_slots_view(newmap@) =~= regs_meet_map::<T>(
                    self@,
                    other@,
                    keys@.take(i + 1).to_set(),
                ));
            }
            i = i + 1;
        }
        proof {
            assert(keys@.take(i as int) =~= keys@);
        }
        let r = ArchRegsLattice { map: newmap };
        proof {
            assert(r@ =~= regs_meet_map::<T>(self@, other@, self@.dom()));
        }
        r
    }

    fn order(&self, other: &Self) -> (r: Option<Order>) {
        if hashmap_le(self, other) {
            Some(Order::Less)
        } else if hashmap_le(other, self) {
            Some(Order::Greater)
        } else if self.same(other) {
            Some(Order::Equal)
        } else {
            None
        }
    }

    fn same(&self, other: &Self) -> (r: bool) {
        let a = regs_included(self, other);
        let b = regs_included(other, self);
        if a && b {
            assert(self@ =~= other@);
        }
        a && b
    }

    fn bot() -> (r: Self) {
        let r = ArchRegsLattice { map: HashMap::new() };
        proof {
            assert(r@ =~= Map::empty());
        }
        r
    }

    fn duplicate(&self) -> (r: Self) {
        let keys = map_keys(&self.map);
        let mut newmap: HashMap<u8, VarSlot<T>> = HashMap::new();
        let mut i: usize = 0;
        while i < keys.len()
            invariant
                i <= keys@.len(),
                keys@.to_set() == self.map@.dom(),
                keys@.no_duplicates(),
                regs_slots_view(newmap@) == self@.restrict(keys@.take(i as int).to_set()),
            decreases keys@.len() - i,
        {
            let k = keys[i];
            assert(keys@.to_set().contains(k));
            proof {
                assert(keys@.take(i + 1) =~= keys@.take(i as int).push(k));
                assert(keys@.take(i + 1).to_set() =~= keys@.take(i as int).to_set().insert(k));
            }
            let v = self.map.get(&k).unwrap();
            let ghost prev = newmap@;
            let slot = VarSlot { size: v.size, value: v.value.duplicate() };
            let ghost sv = (slot.size, slot.value@);
            newmap.insert(k, slot);
            proof {
                assert(regs_slots_view(newmap@) =~= regs_slots_view(prev).insert(k, sv));
                assert(regs_slots_view(newmap@) =~= self@.restrict(keys@.take(i + 1).to_set()));
            }
            i = i + 1;
        }
        proof {
            assert(keys@.take(i as int) =~= keys@);
        }
        let r = ArchRegsLattice { map: newmap };
        proof {
            assert(r@ =~= self@);
        }
        r
    }

    proof fn lemma_meet_not_above(a: RegsView<T::V>, b: RegsView<T::V>) {
        let m = Self::spec_meet(a, b);
        assert forall|k: u8| #[trigger] m.contains_key(k) implies a.contains_key(k)
            && !reg_slot_lt::<T>(a[k], m[k]) by {
            T::lemma_not_below_meet(a[k].1, b[k].1);
        }
    }
}

/// Reading a register right after setting it gives back the value set.
pub proof fn lemma_get_after_set<V>(m: RegsView<V>, r: X86Regs, size: u32, value: V, bot: V)
    ensures
        regs_get(m.insert(reg_index(r), (size, value)), r, bot) == value,
{
}

/// Setting a register leaves every other register unchanged.
pub proof fn lemma_set_keeps_others<V>(m: RegsView<V>, r: X86Regs, size: u32, value: V, bot: V, other: X86Regs)
    requires
        other != r,
    ensures
        regs_get(m.insert(reg_index(r), (size, value)), other, bot) == regs_get(m, other, bot),
{
    crate::ir::types::lemma_reg_index_roundtrip(r);
    crate::ir::types::lemma_reg_index_roundtrip(other);
}

/// After the registers are cleared, every register holds the default value.
pub proof fn lemma_cleared_is_default<V>(r: X86Regs, bot: V)
    ensures
        regs_get(Map::<u8, (u32, V)>::empty(), r, bot) == bot,
{
}

/// The meet of two register files does not depend on the order of its
/// arguments.
pub proof fn lemma_regs_meet_commutative<T: ValueLattice>(a: RegsView<T::V>, b: RegsView<T::V>)
    ensures
        ArchRegsLattice::<T>::spec_meet(a, b) == ArchRegsLattice::<T>::spec_meet(b, a),
{
    let m1 = ArchRegsLattice::<T>::spec_meet(a, b);
    let m2 = ArchRegsLattice::<T>::spec_meet(b, a);
    assert forall|k: u8| #[trigger] m1.dom().contains(k) == m2.dom().contains(k) by {
    }
    assert(m1.dom() =~= m2.dom());
    assert forall|k: u8| #[trigger] m1.dom().contains(k) implies m1[k] == m2[k] by {
        T::lemma_meet_commutative(a[k].1, b[k].1);
    }
    assert(m1 =~= m2);
}

/// A register file is its own meet with itself.
pub proof fn lemma_regs_meet_idempotent<T: ValueLattice>(a: RegsView<T::V>)
    ensures
        ArchRegsLattice::<T>::spec_meet(a, a) == a,
{
    let m = ArchRegsLattice::<T>::spec_meet(a, a);
    assert forall|k: u8| #[trigger] m.dom().contains(k) == a.dom().contains(k) by {
    }
    assert(m.dom() =~= a.dom());
    assert forall|k: u8| #[trigger] m.dom().contains(k) implies m[k] == a[k] by {
        T::lemma_meet_idempotent(a[k].1);
    }
    assert(m =~= a);
}

impl<T: ValueLattice> PartialEq for ArchRegsLattice<T> {
    fn eq(&self, other: &Self) -> (r: bool) {
        self.same(other)
    }
}

impl<T: ValueLattice> PartialEqSpecImpl for ArchRegsLattice<T> {
    open spec fn obeys_eq_spec() -> bool {
        true
    }

    open spec fn eq_spec(&self, other: &Self) -> bool {
        self@ == other@
    }
}

impl<T: ValueLattice> Eq for ArchRegsLattice<T> {

}

impl<T: ValueLattice> PartialOrd for ArchRegsLattice<T> {
    fn partial_cmp(&self, other: &Self) -> (r: Option<Ordering>) {
        to_ordering(self.order(other))
    }
}

impl<T: ValueLattice> PartialOrdSpecImpl for ArchRegsLattice<T> {
    open spec fn obeys_partial_cmp_spec() -> bool {
        true
    }

    open spec fn partial_cmp_spec(&self, other: &Self) -> Option<Ordering> {
        ordering_of(Self::spec_order(self@, other@))
    }
}

impl<T: ValueLattice> Default for ArchRegsLattice<T> {
    fn default() -> (r: Self)
        ensures
            r@ == Map::<u8, (u32, T::V)>::empty(),
    {
        Self::bot()
    }
}

} // verus!
