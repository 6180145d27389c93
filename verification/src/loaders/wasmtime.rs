use crate::loaders::types::VwMetadata;
use crate::utils::{spec_starts_with, starts_with};
use vstd::prelude::*;

verus! {

/// Whether a Wasmtime symbol is a function to check: handwritten trampolines
/// are not.
pub open spec fn spec_is_valid_wasmtime_func_name(name: Seq<char>) -> bool {
    !spec_starts_with(name, "_trampoline"@)
}

pub fn is_valid_wasmtime_func_name(name: &String) -> (r: bool)
    ensures
        r == spec_is_valid_wasmtime_func_name(name@),
{
    !starts_with(name.as_str(), "_trampoline")
}

/// The Lucet runtime's symbols do not exist in a Wasmtime module: all are 0.
pub fn load_wasmtime_metadata() -> (r: VwMetadata)
    ensures
        r == (VwMetadata { guest_table_0: 0, lucet_tables: 0, lucet_probestack: 0 }),
{
    VwMetadata { guest_table_0: 0, lucet_tables: 0, lucet_probestack: 0 }
}

/// The functions called through a Wasmtime module's PLT: reading them is not
/// supported, so there is never a result.
pub fn wasmtime_get_plt_funcs(binpath: &str) -> (r: Option<Vec<(u64, String)>>)
    ensures
        r is None,
{
    None
}

} // verus!
