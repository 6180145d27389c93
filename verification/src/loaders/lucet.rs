use crate::loaders::types::{VwMetadata, VwSymbol};
use crate::loaders::utils::{get_symbol_addr, spec_symbol_addr};
use vstd::prelude::*;

verus! {

/// Whether a Lucet symbol is a function to check: all but the runtime's
/// stack probe.
pub open spec fn spec_is_valid_lucet_func_name(name: Seq<char>) -> bool {
    name != "lucet_probestack"@
}

pub fn is_valid_lucet_func_name(name: &String) -> (r: bool)
    ensures
        r == spec_is_valid_lucet_func_name(name@),
{
    *name != "lucet_probestack".to_owned()
}

/// The Lucet runtime's symbols, found by name among a module's symbols;
/// `None` if one of them is missing.
pub fn load_lucet_metadata(symbols: &Vec<VwSymbol>) -> (r: Option<VwMetadata>)
    ensures
        match (
            spec_symbol_addr(symbols@, "guest_table_0"@),
            spec_symbol_addr(symbols@, "lucet_tables"@),
            spec_symbol_addr(symbols@, "lucet_probestack"@),
        ) {
            (Some(g), Some(t), Some(p)) => r == Some(
                VwMetadata { guest_table_0: g, lucet_tables: t, lucet_probestack: p },
            ),
            _ => r is None,
        },
{
    let guest_table_0 = match get_symbol_addr(symbols, "guest_table_0") {
        Some(a) => a,
        None => return None,
    };
    let lucet_tables = match get_symbol_addr(symbols, "lucet_tables") {
        Some(a) => a,
        None => return None,
    };
    let lucet_probestack = match get_symbol_addr(symbols, "lucet_probestack") {
        Some(a) => a,
        None => return None,
    };
    Some(VwMetadata { guest_table_0, lucet_tables, lucet_probestack })
}

/// The signed 32-bit little-endian word made of four bytes.
pub open spec fn le_i32(b0: u8, b1: u8, b2: u8, b3: u8) -> i32 {
    ((b0 + b1 * 0x100 + b2 * 0x1_0000 + b3 * 0x100_0000) as u32) as i32
}

/// Entry `idx / 16` of a PLT that starts at `plt_start`: the entry's
/// address and the address of the GOT slot it jumps through, `entry + 6 +
/// disp`, where `disp` is the signed 32-bit word at byte 2 of the entry
/// (addresses wrap around). `None` if the word runs past the section.
pub open spec fn spec_plt_entry(plt_start: u64, buf: Seq<u8>, idx: int) -> Option<(u64, u64)> {
    if idx + 6 <= buf.len() {
        let disp = le_i32(buf[idx + 2], buf[idx + 3], buf[idx + 4], buf[idx + 5]);
        let addr = vstd::wrapping::u64_specs::wrapping_add(plt_start, idx as u64);
        let target = vstd::wrapping::u64_specs::wrapping_add(
            vstd::wrapping::u64_specs::wrapping_add(addr, disp as u64),
            6,
        );
        Some((addr, target))
    } else {
        None
    }
}

/// The first `n` entries of a PLT (one every 16 bytes).
pub open spec fn spec_plt_entries(plt_start: u64, buf: Seq<u8>, n: nat) -> Option<Seq<(u64, u64)>>
    decreases n,
{
    if n == 0 {
        Some(Seq::empty())
    } else {
        match (spec_plt_entries(plt_start, buf, (n - 1) as nat), spec_plt_entry(plt_start, buf, 16 * (n - 1))) {
            (Some(s), Some(e)) => Some(s.push(e)),
            _ => None,
        }
    }
}

/// The number of 16-byte PLT entries that start inside `len` bytes.
pub open spec fn plt_entry_count(len: nat) -> nat {
    ((len + 15) / 16) as nat
}

/// The name that the relocations give `target`: that of the last
/// relocation at `target` with a nonempty name.
pub open spec fn spec_reloc_name(relocs: Seq<(u64, String)>, target: u64) -> Option<Seq<char>>
    decreases relocs.len(),
{
    if relocs.len() == 0 {
        None
    } else if relocs.last().0 == target && relocs.last().1@.len() > 0 {
        Some(relocs.last().1@)
    } else {
        spec_reloc_name(relocs.drop_last(), target)
    }
}

/// The PLT entries whose slot a relocation names, with that name, in the
/// order of the entries.
pub open spec fn spec_named_entries(entries: Seq<(u64, u64)>, relocs: Seq<(u64, String)>) -> Seq<(u64, Seq<char>)>
    decreases entries.len(),
{
    if entries.len() == 0 {
        Seq::empty()
    } else {
        let prev = spec_named_entries(entries.drop_last(), relocs);
        match spec_reloc_name(relocs, entries.last().1) {
            Some(name) => prev.push((entries.last().0, name)),
            None => prev,
        }
    }
}

/// A list of named addresses, seen through the names' views.
pub open spec fn named_view(v: Seq<(u64, String)>) -> Seq<(u64, Seq<char>)> {
    v.map_values(|p: (u64, String)| (p.0, p.1@))
}

/// The entries of the PLT held in `plt`, which starts at `plt_start`.
pub fn plt_entries(plt_start: u64, plt: &[u8]) -> (r: Option<Vec<(u64, u64)>>)
    ensures
        match (r, spec_plt_entries(plt_start, plt@, plt_entry_count(plt@.len()))) {
            (Some(v), Some(s)) => v@ == s,
            (None, None) => true,
            _ => false,
        },
{
    let mut entries: Vec<(u64, u64)> = Vec::new();
    let mut idx: usize = 0;
    let ghost mut k: nat = 0;
    let ghost len = plt@.len();
    while idx < plt.len()
        invariant
            len == plt@.len(),
            idx <= len,
            idx < len ==> idx == 16 * k,
            idx >= len ==> 16 * k >= len,
            k > 0 ==> 16 * (k - 1) < len,
            spec_plt_entries(plt_start, plt@, k) == Some(entries@),
        decreases len - idx,
    {
        assert(k + 1 <= plt_entry_count(len)) by (nonlinear_arith)
            requires
                16 * k < len,
        ;
        if plt.len() - idx < 6 {
            proof {
                lemma_plt_entries_none(plt_start, plt@, k + 1, plt_entry_count(len));
            }
            return None;
        }
        let w: u32 = plt[idx + 2] as u32 + plt[idx + 3] as u32 * 0x100 + plt[idx + 4] as u32 * 0x1_0000
            + plt[idx + 5] as u32 * 0x100_0000;
        let disp = #[verifier::truncate] (w as i32);
        let addr = plt_start.wrapping_add(idx as u64);
        let target = addr.wrapping_add(#[verifier::truncate] (disp as u64)).wrapping_add(6);
        entries.push((addr, target));
        proof {
            k = k + 1;
        }
        if plt.len() - idx <= 16 {
            idx = plt.len();
        } else {
            idx = idx + 16;
        }
    }
    assert(k == plt_entry_count(len)) by (nonlinear_arith)
        requires
            16 * k >= len,
            k > 0 ==> 16 * (k - 1) < len,
    ;
    Some(entries)
}

/// Once an entry is missing, so are all longer lists.
proof fn lemma_plt_entries_none(plt_start: u64, buf: Seq<u8>, n: nat, m: nat)
    requires
        n <= m,
        spec_plt_entries(plt_start, buf, n) is None,
    ensures
        spec_plt_entries(plt_start, buf, m) is None,
    decreases m - n,
{
    if n < m {
        lemma_plt_entries_none(plt_start, buf, n + 1, m);
    }
}

/// The name that the relocations give `target` (see `spec_reloc_name`).
pub fn reloc_name(relocs: &Vec<(u64, String)>, target: u64) -> (r: Option<String>)
    ensures
        match (r, spec_reloc_name(relocs@, target)) {
            (Some(x), Some(y)) => x@ == y,
            (None, None) => true,
            _ => false,
        },
{
    let mut i: usize = relocs.len();
    assert(relocs@.take(i as int) =~= relocs@);
    while i > 0
        invariant
            i <= relocs@.len(),
            spec_reloc_name(relocs@, target) == spec_reloc_name(relocs@.take(i as int), target),
        decreases i,
    {
        let ghost pre = relocs@.take(i as int);
        assert(pre.drop_last() =~= relocs@.take(i - 1));
        assert(pre.last() == relocs@[i - 1]);
        if relocs[i - 1].0 == target && relocs[i - 1].1.unicode_len() > 0 {
            return Some(relocs[i - 1].1.clone());
        }
        i = i - 1;
    }
    None
}

/// The functions called through a Lucet module's PLT: each PLT entry whose
/// GOT slot a relocation names, with that name. `plt` holds the `.plt`
/// section, which starts at `plt_start`; `relocs` holds the relocations'
/// addresses and symbol names. `None` if the last entry is cut short.
pub fn lucet_get_plt_funcs(plt_start: u64, plt: &[u8], relocs: &Vec<(u64, String)>) -> (r: Option<Vec<(u64, String)>>)
    ensures
        match (r, spec_plt_entries(plt_start, plt@, plt_entry_count(plt@.len()))) {
            (Some(v), Some(s)) => named_view(v@) == spec_named_entries(s, relocs@),
            (None, None) => true,
            _ => false,
        },
{
    let entries = match plt_entries(plt_start, plt) {
        Some(e) => e,
        None => return None,
    };
    let mut plt_funcs: Vec<(u64, String)> = Vec::new();
    let mut i: usize = 0;
    while i < entries.len()
        invariant
            i <= entries@.len(),
            named_view(plt_funcs@) == spec_named_entries(entries@.take(i as int), relocs@),
        decreases entries@.len() - i,
    {
        let (addr, target) = entries[i];
        let ghost pre = entries@.take(i + 1);
        assert(pre.drop_last() =~= entries@.take(i as int));
        assert(pre.last() == entries@[i as int]);
        match reloc_name(relocs, target) {
            Some(name) => {
                let ghost prev = plt_funcs@;
                plt_funcs.push((addr, name));
                assert(named_view(plt_funcs@) =~= named_view(prev).push((addr, name@)));
            },
            None => {},
        }
        i = i + 1;
    }
    assert(entries@.take(i as int) =~= entries@);
    Some(plt_funcs)
}

} // verus!
