use crate::lattices::reachingdefslattice::LocIdx;
use crate::lattices::{ordering_of, to_ordering, Lattice, Order, ValueLattice};
use crate::utils::map_keys;
use std::cmp::Ordering;
use std::collections::HashMap;
use vstd::prelude::*;
use vstd::std_specs::cmp::{PartialEqSpecImpl, PartialOrdSpecImpl};

verus! {

broadcast use {vstd::std_specs::hash::group_hash_axioms, vstd::seq_lib::group_seq_properties};

/// A value held in a stack slot, with the size in bytes of the access that
/// stored it.
#[derive(Clone, Debug)]
pub struct StackSlot<T> {
    pub size: u32,
    pub value: T,
}

/// The abstract contents of a stack: the current stack-pointer offset and,
/// for each absolute slot, the size and abstract value stored there.
pub type StackView<V> = (i64, Map<i64, (u32, V)>);

/// Abstract values for the slots of the stack frame. Slots are keyed by their
/// absolute position (`offset` plus the position relative to the stack
/// pointer); a slot that is absent holds the default value.
#[derive(Clone, Debug)]
pub struct StackLattice<T> {
    pub offset: i64,
    pub map: HashMap<i64, StackSlot<T>>,
}

impl<T: View> View for StackLattice<T> {
    type V = StackView<T::V>;

    open spec fn view(&self) -> StackView<T::V> {
        (self.offset, self.map@.map_values(|s: StackSlot<T>| (s.size, s.value@)))
    }
}

/// Addition of 64-bit offsets that wraps around, as the machine does.
pub open spec fn wrap_add(x: i64, y: i64) -> i64 {
    vstd::wrapping::i64_specs::wrapping_add(x, y)
}

/// Subtraction of 64-bit offsets that wraps around, as the machine does.
pub open spec fn wrap_sub(x: i64, y: i64) -> i64 {
    vstd::wrapping::i64_specs::wrapping_sub(x, y)
}

/// The stack after storing `value` (of `size` bytes) at `offset` from the
/// stack pointer: an 8-byte store drops the slot 4 bytes above, a slot 4
/// bytes below that holds 8 bytes is dropped, and the default value is stored
/// by dropping the slot.
pub open spec fn stack_update<V>(s: StackView<V>, offset: i64, value: V, size: u32, bot: V) -> StackView<V> {
    let a = wrap_add(s.0, offset);
    let m1 = if size == 8 {
        s.1.remove(wrap_add(a, 4))
    } else {
        s.1
    };
    let m2 = if m1.contains_key(wrap_sub(a, 4)) && m1[wrap_sub(a, 4)].0 == 8 {
        m1.remove(wrap_sub(a, 4))
    } else {
        m1
    };
    let m3 = if value == bot {
        m2.remove(a)
    } else {
        m2.insert(a, (size, value))
    };
    (s.0, m3)
}

/// The value loaded from `offset` with an access of `size` bytes: what the
/// slot holds if it was stored with that size, and the default otherwise.
pub open spec fn stack_get<V>(s: StackView<V>, offset: i64, size: u32, bot: V) -> V {
    let a = wrap_add(s.0, offset);
    if s.1.contains_key(a) && s.1[a].0 == size {
        s.1[a].1
    } else {
        bot
    }
}

/// Whether a slot is strictly below another: same size and a lower value.
pub open spec fn slot_lt<T: Lattice>(x: (u32, T::V), y: (u32, T::V)) -> bool {
    x.0 == y.0 && T::spec_order(x.1, y.1) == Some(Order::Less)
}

/// Whether every slot of `a` is also in `b`, and not strictly above it there.
pub open spec fn stack_map_le<T: Lattice>(a: Map<i64, (u32, T::V)>, b: Map<i64, (u32, T::V)>) -> bool {
    forall|k: i64| #[trigger]
        a.contains_key(k) ==> b.contains_key(k) && !slot_lt::<T>(b[k], a[k])
}

/// Whether no slot holds the default value (the stack never stores it).
pub open spec fn stack_wf<T: Lattice>(s: StackView<T::V>) -> bool {
    forall|k: i64| #[trigger] s.1.contains_key(k) ==> s.1[k].1 != T::spec_bot()
}

impl<T: ValueLattice> StackLattice<T> {
    /// Stores `value`, `size` bytes wide, at `offset` from the stack pointer.
    pub fn update(&mut self, offset: i64, value: T, size: u32)
        requires
            offset % 4 == 0,
            size <= 8,
        ensures
            final(self)@ == stack_update(old(self)@, offset, value@, size, T::spec_bot()),
    {
        let a = self.offset.wrapping_add(offset);
        if size == 8 {
            self.map.remove(&a.wrapping_add(4));
        }
        let below = a.wrapping_sub(4);
        let mut drop_below = false;
        match self.map.get(&below) {
            Some(x) => {
                if x.size == 8 {
                    drop_below = true;
                }
            },
            None => {},
        }
        if drop_below {
            self.map.remove(&below);
        }
        let bot = T::bot();
        if value.same(&bot) {
            self.map.remove(&a);
        } else {
            self.map.insert(a, StackSlot { size: size, value: value });
        }
        proof {
            let ghost o = old(self)@;
            assert(final(self)@.1 =~= stack_update(o, offset, value@, size, T::spec_bot()).1);
        }
    }

    /// Loads the value stored at `offset` from the stack pointer with an access
    /// of `size` bytes.
    pub fn get(&self, offset: i64, size: u32) -> (r: T)
        requires
            size == 4 || size == 8,
        ensures
            r@ == stack_get(self@, offset, size, T::spec_bot()),
    {
        match self.map.get(&self.offset.wrapping_add(offset)) {
            Some(stack_slot) => {
                if stack_slot.size == size {
                    stack_slot.value.duplicate()
                } else {
                    T::bot()
                }
            },
            None => T::bot(),
        }
    }

    /// Moves the stack pointer by `adjustment` bytes.
    pub fn update_stack_offset(&mut self, adjustment: i64)
        requires
            adjustment % 4 == 0,
        ensures
            final(self)@ == (wrap_add(old(self)@.0, adjustment), old(self)@.1),
    {
        self.offset = self.offset.wrapping_add(adjustment);
    }
}


/// Whether slot `k` survives a meet: present on both sides with the same size,
/// and the values do not meet at the default.
pub open spec fn stack_meet_keeps<T: Lattice>(a: Map<i64, (u32, T::V)>, b: Map<i64, (u32, T::V)>, k: i64) -> bool {
    a.contains_key(k) && b.contains_key(k) && a[k].0 == b[k].0 && T::spec_meet(a[k].1, b[k].1)
        != T::spec_bot()
}

/// The slots of the meet of two stacks, restricted to the keys in `ks`.
pub open spec fn stack_meet_map<T: Lattice>(
    a: Map<i64, (u32, T::V)>,
    b: Map<i64, (u32, T::V)>,
    ks: Set<i64>,
) -> Map<i64, (u32, T::V)> {
    Map::new(
        |k: i64| ks.contains(k) && stack_meet_keeps::<T>(a, b, k),
        |k: i64| (a[k].0, T::spec_meet(a[k].1, b[k].1)),
    )
}

/// The slot map of `m`, seen through the values' views.
pub open spec fn slots_view<T: View>(m: Map<i64, StackSlot<T>>) -> Map<i64, (u32, T::V)> {
    m.map_values(|s: StackSlot<T>| (s.size, s.value@))
}

/// Whether `a`'s slots are all in `b` and not strictly above their
/// counterparts there.
fn hashmap_le<T: ValueLattice>(s1: &StackLattice<T>, s2: &StackLattice<T>) -> (r: bool)
    ensures
        r == stack_map_le::<T>(s1@.1, s2@.1),
{
    let keys = map_keys(&s1.map);
    let mut i: usize = 0;
    while i < keys.len()
        invariant
            i <= keys@.len(),
            keys@.to_set() == s1.map@.dom(),
            forall|j: int|
                #![trigger keys@[j]]
                0 <= j < i ==> s2@.1.contains_key(keys@[j]) && !slot_lt::<T>(
                    s2@.1[keys@[j]],
                    s1@.1[keys@[j]],
                ),
        decreases keys@.len() - i,
    {
        let k = keys[i];
        assert(keys@.to_set().contains(k));
        let v1 = s1.map.get(&k).unwrap();
        assert(s1@.1.contains_key(k));
        match s2.map.get(&k) {
            None => {
                assert(!s2@.1.contains_key(k));
                return false;
            },
            Some(v2) => {
                if v2.size == v1.size {
                    match v2.value.order(&v1.value) {
                        Some(Order::Less) => {
                            assert(slot_lt::<T>(s2@.1[k], s1@.1[k]));
                            return false;
                        },
                        _ => {},
                    }
                }
            },
        }
        i = i + 1;
    }
    assert forall|k: i64| #[trigger] s1@.1.contains_key(k) implies s2@.1.contains_key(k)
        && !slot_lt::<T>(s2@.1[k], s1@.1[k]) by {
        assert(keys@.to_set().contains(k));
        let j = choose|j: int| 0 <= j < keys@.len() && keys@[j] == k;
    }
    true
}

/// Whether every slot of `s1` is in `s2` with the same size and value.
fn slots_included<T: ValueLattice>(s1: &StackLattice<T>, s2: &StackLattice<T>) -> (r: bool)
    ensures
        r == (forall|k: i64| #[trigger]
            s1@.1.contains_key(k) ==> s2@.1.contains_key(k) && s2@.1[k] == s1@.1[k]),
{
    let keys = map_keys(&s1.map);
    let mut i: usize = 0;
    while i < keys.len()
        invariant
            i <= keys@.len(),
            keys@.to_set() == s1.map@.dom(),
            forall|j: int|
                #![trigger keys@[j]]
                0 <= j < i ==> s2@.1.contains_key(keys@[j]) && s2@.1[keys@[j]] == s1@.1[keys@[j]],
        decreases keys@.len() - i,
    {
        let k = keys[i];
        assert(keys@.to_set().contains(k));
        let v1 = s1.map.get(&k).unwrap();
        assert(s1@.1.contains_key(k));
        match s2.map.get(&k) {
            None => {
                assert(!s2@.1.contains_key(k));
                return false;
            },
            Some(v2) => {
                if v2.size != v1.size || !v2.value.same(&v1.value) {
                    assert(s2@.1[k] != s1@.1[k]);
                    return false;
                }
            },
        }
        i = i + 1;
    }
    assert forall|k: i64| #[trigger] s1@.1.contains_key(k) implies s2@.1.contains_key(k)
        && s2@.1[k] == s1@.1[k] by {
        assert(keys@.to_set().contains(k));
        let j = choose|j: int| 0 <= j < keys@.len() && keys@[j] == k;
    }
    true
}

impl<T: ValueLattice> Lattice for StackLattice<T> {
    open spec fn spec_meet(a: StackView<T::V>, b: StackView<T::V>) -> StackView<T::V> {
        (a.0, stack_meet_map::<T>(a.1, b.1, a.1.dom()))
    }

    open spec fn spec_order(a: StackView<T::V>, b: StackView<T::V>) -> Option<Order> {
        if a.0 != b.0 {
            None
        } else if a == b {
            Some(Order::Equal)
        } else if stack_map_le::<T>(a.1, b.1) {
            Some(Order::Less)
        } else if stack_map_le::<T>(b.1, a.1) {
            Some(Order::Greater)
        } else {
            None
        }
    }

    open spec fn spec_bot() -> StackView<T::V> {
        (0, Map::empty())
    }

    fn meet(&self, other: &Self, loc_idx: &LocIdx) -> (r: Self) {
        let keys = map_keys(&self.map);
        let mut newmap: HashMap<i64, StackSlot<T>> = HashMap::new();
        let mut i: usize = 0;
        while i < keys.len()
            invariant
                i <= keys@.len(),
                keys@.to_set() == self.map@.dom(),
                keys@.no_duplicates(),
                slots_view(newmap@) == stack_meet_map::<T>(
                    self@.1,
                    other@.1,
                    keys@.take(i as int).to_set(),
                ),
            decreases keys@.len() - i,
        {
            let k = keys[i];
            assert(keys@.to_set().contains(k));
            proof {
                assert(keys@.take(i + 1) =~= keys@.take(i as int).push(k));
                assert(keys@.take(i + 1).to_set() =~= keys@.take(i as int).to_set().insert(k));
                assert(!keys@.take(i as int).to_set().contains(k)) by {
                    if keys@.take(i as int).to_set().contains(k) {
                        let j = choose|j: int| 0 <= j < i && keys@.take(i as int)[j] == k;
                        assert(keys@[j] == keys@[i as int]);
                    }
                }
                assert(!slots_view(newmap@).contains_key(k));
                assert(slots_view(newmap@).dom() =~= newmap@.dom());
                assert(!newmap@.contains_key(k));
            }
            let v1 = self.map.get(&k).unwrap();
            let ghost prev = newmap@;
            match other.map.get(&k) {
                Some(v2) => {
                    if v1.size == v2.size {
                        let new_v = v1.value.meet(&v2.value, loc_idx);
                        if !new_v.same(&T::bot()) {
                            let slot = StackSlot { size: v1.size, value: new_v };
                            let ghost sv = (slot.size, slot.value@);
                            newmap.insert(k, slot);
                            assert(slots_view(newmap@) =~= slots_view(prev).insert(k, sv));
                        }
                    }
                },
                None => {},
            }
            proof {
                assert(slots_view(newmap@) =~= stack_meet_map::<T>(
                    self@.1,
                    other@.1,
                    keys@.take(i + 1).to_set(),
                ));
            }
            i = i + 1;
        }
        proof {
            assert(keys@.take(i as int) =~= keys@);
        }
        let r = StackLattice { offset: self.offset, map: newmap };
        proof {
            assert(r@.1 =~= stack_meet_map::<T>(self@.1, other@.1, self@.1.dom()));
        }
        r
    }

    fn order(&self, other: &Self) -> (r: Option<Order>) {
        if self.offset != other.offset {
            None
        } else if self.same(other) {
            Some(Order::Equal)
        } else if hashmap_le(self, other) {
            Some(Order::Less)
        } else if hashmap_le(other, self) {
            Some(Order::Greater)
        } else {
            None
        }
    }

    fn same(&self, other: &Self) -> (r: bool) {
        if self.offset != other.offset {
            return false;
        }
        let a = slots_included(self, other);
        let b = slots_included(other, self);
        if a && b {
            assert(self@.1 =~= other@.1);
        }
        a && b
    }

    fn bot() -> (r: Self) {
        let r = StackLattice { offset: 0, map: HashMap::new() };
        proof {
            assert(r@.1 =~= Map::empty());
        }
        r
    }

    fn duplicate(&self) -> (r: Self) {
        let keys = map_keys(&self.map);
        let mut newmap: HashMap<i64, StackSlot<T>> = HashMap::new();
        let mut i: usize = 0;
        while i < keys.len()
            invariant
                i <= keys@.len(),
                keys@.to_set() == self.map@.dom(),
                keys@.no_duplicates(),
                slots_view(newmap@) == self@.1.restrict(keys@.take(i as int).to_set()),
            decreases keys@.len() - i,
        {
            let k = keys[i];
            assert(keys@.to_set().contains(k));
            proof {
                assert(keys@.take(i + 1) =~= keys@.take(i as int).push(k));
                assert(keys@.take(i + 1).to_set() =~= keys@.take(i as int).to_set().insert(k));
                assert(!keys@.take(i as int).to_set().contains(k)) by {
                    if keys@.take(i as int).to_set().contains(k) {
                        let j = choose|j: int| 0 <= j < i && keys@.take(i as int)[j] == k;
                        assert(keys@[j] == keys@[i as int]);
                    }
                }
                assert(!slots_view(newmap@).contains_key(k));
                assert(slots_view(newmap@).dom() =~= newmap@.dom());
                assert(!newmap@.contains_key(k));
            }
            let v = self.map.get(&k).unwrap();
            let ghost prev = newmap@;
            let slot = StackSlot { size: v.size, value: v.value.duplicate() };
            let ghost sv = (slot.size, slot.value@);
            newmap.insert(k, slot);
            proof {
                assert(slots_view(newmap@) =~= slots_view(prev).insert(k, sv));
                assert(slots_view(newmap@) =~= self@.1.restrict(keys@.take(i + 1).to_set()));
            }
            i = i + 1;
        }
        proof {
            assert(keys@.take(i as int) =~= keys@);
        }
        let r = StackLattice { offset: self.offset, map: newmap };
        proof {
            assert(r@.1 =~= self@.1);
        }
        r
    }

    proof fn lemma_meet_not_above(a: StackView<T::V>, b: StackView<T::V>) {
        let m = Self::spec_meet(a, b);
        assert forall|k: i64| #[trigger] m.1.contains_key(k) implies a.1.contains_key(k)
            && !slot_lt::<T>(a.1[k], m.1[k]) by {
            T::lemma_not_below_meet(a.1[k].1, b.1[k].1);
        }
    }
}

/// Loading a slot right after a store to it, with the same width, gives back
/// the stored value.
pub proof fn lemma_stack_get_after_update<V>(s: StackView<V>, offset: i64, value: V, size: u32, bot: V)
    ensures
        stack_get(stack_update(s, offset, value, size, bot), offset, size, bot) == value,
{
}

/// A store leaves the loads from every slot other than its own and its two
/// neighbours unchanged.
pub proof fn lemma_stack_update_keeps_others<V>(
    s: StackView<V>,
    offset: i64,
    value: V,
    size: u32,
    bot: V,
    other: i64,
    other_size: u32,
)
    requires
        wrap_add(s.0, other) != wrap_add(s.0, offset),
        wrap_add(s.0, other) != wrap_add(wrap_add(s.0, offset), 4),
        wrap_add(s.0, other) != wrap_sub(wrap_add(s.0, offset), 4),
    ensures
        stack_get(stack_update(s, offset, value, size, bot), other, other_size, bot) == stack_get(
            s,
            other,
            other_size,
            bot,
        ),
{
}

/// Moving the stack pointer by `adjustment` shifts every load: what was read
/// at `offset + adjustment` is read at `offset` afterwards.
pub proof fn lemma_stack_shift<V>(s: StackView<V>, adjustment: i64, offset: i64, size: u32, bot: V)
    ensures
        stack_get((wrap_add(s.0, adjustment), s.1), offset, size, bot) == stack_get(
            s,
            wrap_add(offset, adjustment),
            size,
            bot,
        ),
{
}

/// A store never leaves the default value in a slot.
pub proof fn lemma_stack_update_wf<T: Lattice>(s: StackView<T::V>, offset: i64, value: T::V, size: u32)
    requires
        stack_wf::<T>(s),
    ensures
        stack_wf::<T>(stack_update(s, offset, value, size, T::spec_bot())),
{
}

/// A meet never leaves the default value in a slot.
pub proof fn lemma_stack_meet_wf<T: ValueLattice>(a: StackView<T::V>, b: StackView<T::V>)
    ensures
        stack_wf::<T>(StackLattice::<T>::spec_meet(a, b)),
{
}

/// The meet of two stacks at the same stack-pointer offset does not depend on
/// the order of its arguments.
pub proof fn lemma_stack_meet_commutative<T: ValueLattice>(a: StackView<T::V>, b: StackView<T::V>)
    requires
        a.0 == b.0,
    ensures
        StackLattice::<T>::spec_meet(a, b) == StackLattice::<T>::spec_meet(b, a),
{
    let m1 = StackLattice::<T>::spec_meet(a, b).1;
    let m2 = StackLattice::<T>::spec_meet(b, a).1;
    assert forall|k: i64| m1.contains_key(k) <==> m2.contains_key(k) by {
        if a.1.contains_key(k) && b.1.contains_key(k) {
            T::lemma_meet_commutative(a.1[k].1, b.1[k].1);
        }
    }
    assert forall|k: i64| m1.contains_key(k) implies m1[k] == m2[k] by {
        T::lemma_meet_commutative(a.1[k].1, b.1[k].1);
    }
    assert(m1 =~= m2);
}

/// A stack that holds no default value is its own meet with itself.
pub proof fn lemma_stack_meet_idempotent<T: ValueLattice>(a: StackView<T::V>)
    requires
        stack_wf::<T>(a),
    ensures
        StackLattice::<T>::spec_meet(a, a) == a,
{
    let m = StackLattice::<T>::spec_meet(a, a).1;
    assert forall|k: i64| #[trigger] m.dom().contains(k) == a.1.dom().contains(k) by {
        if a.1.dom().contains(k) {
            T::lemma_meet_idempotent(a.1[k].1);
            assert(a.1[k].1 != T::spec_bot());
            assert(stack_meet_keeps::<T>(a.1, a.1, k));
        }
    }
    assert(m.dom() =~= a.1.dom());
    assert forall|k: i64| #[trigger] m.dom().contains(k) implies m[k] == a.1[k] by {
        T::lemma_meet_idempotent(a.1[k].1);
    }
    assert(m =~= a.1);
}

impl<T: ValueLattice> PartialEq for StackLattice<T> {
    fn eq(&self, other: &Self) -> (r: bool) {
        self.same(other)
    }
}

impl<T: ValueLattice> PartialEqSpecImpl for StackLattice<T> {
    open spec fn obeys_eq_spec() -> bool {
        true
    }

    open spec fn eq_spec(&self, other: &Self) -> bool {
        self@ == other@
    }
}

impl<T: ValueLattice> Eq for StackLattice<T> {

}

impl<T: ValueLattice> PartialOrd for StackLattice<T> {
    fn partial_cmp(&self, other: &Self) -> (r: Option<Ordering>) {
        to_ordering(self.order(other))
    }
}

impl<T: ValueLattice> PartialOrdSpecImpl for StackLattice<T> {
    open spec fn obeys_partial_cmp_spec() -> bool {
        true
    }

    open spec fn partial_cmp_spec(&self, other: &Self) -> Option<Ordering> {
        ordering_of(Self::spec_order(self@, other@))
    }
}

impl<T: ValueLattice> Default for StackLattice<T> {
    fn default() -> (r: Self)
        ensures
            r@ == Self::spec_bot(),
    {
        Self::bot()
    }
}

} // verus!
