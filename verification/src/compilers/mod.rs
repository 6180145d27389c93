use crate::loaders::types::lowercase;
use vstd::prelude::*;

verus! {

/// The compiler that produced the module.
#[derive(Clone, Copy, Debug, PartialEq, Eq, Structural)]
pub enum TargetCompiler {
    Lucet,
    Wasmtime,
}

/// The compiler a lower-case name stands for.
pub open spec fn spec_compiler_of_lowercase(s: Seq<char>) -> Option<TargetCompiler> {
    if s == "lucet"@ {
        Some(TargetCompiler::Lucet)
    } else if s == "wasmtime"@ {
        Some(TargetCompiler::Wasmtime)
    } else {
        None
    }
}

/// The compiler a name stands for, whatever its case.
pub open spec fn spec_parse_compiler(s: Seq<char>) -> Option<TargetCompiler> {
    spec_compiler_of_lowercase(lowercase(s))
}

impl TargetCompiler {
    /// The compiler that a name already in lower case stands for.
    pub fn from_lowercase(lower: &String) -> (r: Result<TargetCompiler, &'static str>)
        ensures
            match spec_compiler_of_lowercase(lower@) {
                Some(c) => r == Ok::<TargetCompiler, &'static str>(c),
                None => r == Err::<TargetCompiler, &'static str>("Unknown compiler"),
            },
    {
        if *lower == "lucet".to_owned() {
            Ok(TargetCompiler::Lucet)
        } else if *lower == "wasmtime".to_owned() {
            Ok(TargetCompiler::Wasmtime)
        } else {
            Err("Unknown compiler")
        }
    }

    pub fn parse(s: &str) -> (r: Result<TargetCompiler, &'static str>)
        ensures
            match spec_parse_compiler(s@) {
                Some(c) => r == Ok::<TargetCompiler, &'static str>(c),
                None => r == Err::<TargetCompiler, &'static str>("Unknown compiler"),
            },
    {
        TargetCompiler::from_lowercase(&crate::loaders::types::to_lowercase(s))
    }
}

impl std::str::FromStr for TargetCompiler {
    type Err = &'static str;

    fn from_str(s: &str) -> (r: Result<Self, Self::Err>)
        ensures
            match spec_parse_compiler(s@) {
                Some(c) => r == Ok::<TargetCompiler, &'static str>(c),
                None => r == Err::<TargetCompiler, &'static str>("Unknown compiler"),
            },
    {
        TargetCompiler::parse(s)
    }
}

} // verus!
