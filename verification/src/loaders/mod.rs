pub mod lucet;
pub mod types;
pub mod utils;
pub mod wasmtime;

use crate::loaders::lucet::{is_valid_lucet_func_name, spec_is_valid_lucet_func_name};
use crate::loaders::types::ExecutableType;
use crate::loaders::wasmtime::{is_valid_wasmtime_func_name, spec_is_valid_wasmtime_func_name};
use vstd::prelude::*;

verus! {

impl ExecutableType {
    /// Whether a symbol of a module of this kind is a function to check.
    pub fn is_valid_func_name(&self, name: &String) -> (r: bool)
        ensures
            r == match *self {
                ExecutableType::Lucet => spec_is_valid_lucet_func_name(name@),
                ExecutableType::Wasmtime => spec_is_valid_wasmtime_func_name(name@),
            },
    {
        match self {
            ExecutableType::Lucet => is_valid_lucet_func_name(name),
            ExecutableType::Wasmtime => is_valid_wasmtime_func_name(name),
        }
    }
}

} // verus!
