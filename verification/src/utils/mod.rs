use std::collections::{BTreeMap, HashMap};
use vstd::prelude::*;

verus! {

broadcast use {vstd::std_specs::hash::group_hash_axioms, vstd::std_specs::btree::group_btree_axioms};

/// The keys of a map, each once, in the map's own iteration order.
pub fn map_keys<K: Copy, V>(m: &HashMap<K, V>) -> (r: Vec<K>)
    requires
        vstd::std_specs::hash::obeys_key_model::<K>(),
    ensures
        r@.to_set() == m@.dom(),
        r@.no_duplicates(),
        r@.len() == m@.dom().len(),
{
    let mut r: Vec<K> = Vec::new();
    for k in it: m.keys()
        invariant
            r@ == it.seq().unref().take(it.index() as int),
            it.seq().unref().to_set() == m@.dom(),
            it.seq().unref().no_duplicates(),
            it.seq().len() == m@.dom().len(),
            it.index() == it.seq().len() ==> r@ == it.seq().unref(),
    {
        r.push(*k);
    }
    r
}

/// The keys of an ordered map, each once.
pub fn btree_keys<V>(m: &BTreeMap<u64, V>) -> (r: Vec<u64>)
    ensures
        r@.to_set() == m@.dom(),
        r@.no_duplicates(),
{
    let mut r: Vec<u64> = Vec::new();
    for k in it: m.keys()
        invariant
            r@ == it.seq().unref().take(it.index() as int),
            it.seq().unref().to_set() == m@.dom(),
            it.seq().unref().no_duplicates(),
            it.index() == it.seq().len() ==> r@ == it.seq().unref(),
    {
        r.push(*k);
    }
    r
}

/// The addresses of the Lucet runtime's symbols that compiled code uses.
#[derive(Clone, Copy, Debug, PartialEq, Eq, Structural)]
pub struct LucetMetadata {
    pub guest_table_0: u64,
    pub lucet_tables: u64,
    pub lucet_probestack: u64,
}

/// Whether `s` begins with `prefix`.
pub open spec fn spec_starts_with(s: Seq<char>, prefix: Seq<char>) -> bool {
    prefix.len() <= s.len() && s.subrange(0, prefix.len() as int) == prefix
}

pub fn starts_with(s: &str, prefix: &str) -> (r: bool)
    ensures
        r == spec_starts_with(s@, prefix@),
{
    let n = s.unicode_len();
    let m = prefix.unicode_len();
    if m > n {
        return false;
    }
    let mut i: usize = 0;
    while i < m
        invariant
            i <= m <= n,
            n == s@.len(),
            m == prefix@.len(),
            forall|k: int| 0 <= k < i ==> s@[k] == prefix@[k],
        decreases m - i,
    {
        if s.get_char(i) != prefix.get_char(i) {
            assert(s@.subrange(0, m as int)[i as int] != prefix@[i as int]);
            return false;
        }
        i = i + 1;
    }
    assert(s@.subrange(0, m as int) =~= prefix@);
    true
}

/// The numeric value of a string of decimal digits.
pub open spec fn digits_value(d: Seq<char>) -> nat
    decreases d.len(),
{
    if d.len() == 0 {
        0
    } else {
        digits_value(d.drop_last()) * 10 + (d.last() as nat - '0' as nat) as nat
    }
}

pub open spec fn is_digit(c: char) -> bool {
    '0' <= c <= '9'
}

/// A number's text without its leading `+`, if any.
pub open spec fn unsigned_digits(t: Seq<char>) -> Seq<char> {
    if t.len() > 0 && t[0] == '+' {
        t.drop_first()
    } else {
        t
    }
}

/// Whether a string is what `u64::from_str` accepts: an optional `+`, then
/// one or more decimal digits, whose value fits in a `u64`.
pub open spec fn is_u64_text(t: Seq<char>) -> bool {
    let d = unsigned_digits(t);
    &&& d.len() > 0
    &&& forall|k: int| 0 <= k < d.len() ==> is_digit(#[trigger] d[k])
    &&& digits_value(d) <= u64::MAX
}

/// A longer prefix of digits is worth at least as much.
proof fn lemma_digits_prefix_le(d: Seq<char>, i: int, j: int)
    requires
        0 <= i <= j <= d.len(),
        forall|k: int| 0 <= k < d.len() ==> is_digit(#[trigger] d[k]),
    ensures
        digits_value(d.take(i)) <= digits_value(d.take(j)),
    decreases j - i,
{
    if i < j {
        lemma_digits_prefix_le(d, i, j - 1);
        assert(d.take(j).drop_last() =~= d.take(j - 1));
    }
}

/// Whether `t` is accepted by `u64::from_str` (see `is_u64_text`).
fn parses_as_u64(t: &Vec<char>) -> (r: bool)
    ensures
        r == is_u64_text(t@),
{
    let mut start: usize = 0;
    if t.len() > 0 && t[0] == '+' {
        start = 1;
    }
    let ghost d = unsigned_digits(t@);
    assert(d =~= t@.subrange(start as int, t@.len() as int));
    if start >= t.len() {
        return false;
    }
    let mut v: u64 = 0;
    let mut i: usize = start;
    while i < t.len()
        invariant
            start <= i <= t@.len(),
            d =~= t@.subrange(start as int, t@.len() as int),
            d == unsigned_digits(t@),
            forall|k: int| 0 <= k < i - start ==> is_digit(#[trigger] d[k]),
            v == digits_value(d.take(i - start)),
        decreases t@.len() - i,
    {
        let c = t[i];
        if !('0' <= c && c <= '9') {
            assert(d[i - start] == c);
            assert(!is_digit(d[i - start]));
            assert(!is_u64_text(t@));
            return false;
        }
        proof {
            assert(d.take(i - start + 1).drop_last() =~= d.take(i - start));
        }
        let digit = (c as u32 - '0' as u32) as u64;
        if v > (u64::MAX - digit) / 10 {
            proof {
                assert(digits_value(d.take(i - start + 1)) > u64::MAX) by (nonlinear_arith)
                    requires
                        v > (u64::MAX - digit) / 10,
                        digit <= 9,
                        digits_value(d.take(i - start + 1)) == v * 10 + digit,
                ;
                if forall|k: int| 0 <= k < d.len() ==> is_digit(#[trigger] d[k]) {
                    lemma_digits_prefix_le(d, i - start + 1, d.len() as int);
                    assert(d.take(d.len() as int) =~= d);
                    assert(digits_value(d) > u64::MAX);
                }
                assert(!is_u64_text(t@));
            }
            return false;
        }
        v = v * 10 + digit;
        i = i + 1;
    }
    assert(d.take(d.len() as int) =~= d);
    true
}

/// The text after the last `_` of `s` (all of `s` if it has none).
pub open spec fn last_segment(s: Seq<char>) -> Seq<char>
    decreases s.len(),
{
    if s.len() == 0 {
        s
    } else if s.last() == '_' {
        Seq::empty()
    } else {
        last_segment(s.drop_last()).push(s.last())
    }
}

/// Whether a symbol names a compiled Wasm function: it starts with
/// `guest_func_`, or its text after the last `_` is a number.
pub open spec fn spec_is_valid_func_name(name: Seq<char>) -> bool {
    spec_starts_with(name, "guest_func_"@) || (name.contains('_') && is_u64_text(last_segment(name)))
}

pub fn is_valid_func_name(name: &String) -> (r: bool)
    ensures
        r == spec_is_valid_func_name(name@),
{
    if starts_with(name.as_str(), "guest_func_") {
        return true;
    }
    let s = name.as_str();
    let n = s.unicode_len();
    // the text after the last '_'
    let mut seg: Vec<char> = Vec::new();
    let mut found = false;
    let mut i: usize = 0;
    while i < n
        invariant
            i <= n,
            n == s@.len(),
            seg@ == last_segment(s@.take(i as int)),
            found == s@.take(i as int).contains('_'),
        decreases n - i,
    {
        let c = s.get_char(i);
        proof {
            assert(s@.take(i + 1).drop_last() =~= s@.take(i as int));
            assert(s@.take(i + 1).last() == c);
            let ghost prev = s@.take(i as int);
            let ghost next = s@.take(i + 1);
            if prev.contains('_') {
                let k = choose|k: int| 0 <= k < prev.len() && prev[k] == '_';
                assert(next[k] == '_');
            }
            if c == '_' {
                assert(next[i as int] == '_');
            }
            if next.contains('_') && c != '_' {
                let k = choose|k: int| 0 <= k < next.len() && next[k] == '_';
                assert(prev[k] == '_');
            }
        }
        if c == '_' {
            seg = Vec::new();
            found = true;
        } else {
            seg.push(c);
        }
        i = i + 1;
    }
    assert(s@.take(n as int) =~= s@);
    found && parses_as_u64(&seg)
}

} // verus!
