use std::collections::HashMap;
use vstd::prelude::*;

verus! {

/// A loaded region of a program: `data[i]` is at address `start + i`.
pub struct VwSegment {
    pub start: u64,
    pub data: Vec<u8>,
    pub name: String,
}

/// The memory of a loaded program, as a list of segments; an address is
/// read from the first segment that holds it.
pub struct ProgramImage {
    pub segments: Vec<VwSegment>,
}

/// Whether segment `s` holds address `addr`.
pub open spec fn seg_holds(s: VwSegment, addr: int) -> bool {
    s.start <= addr < s.start + s.data@.len()
}

/// The index of the first segment that holds `addr`, at or after `from`.
pub open spec fn first_seg_from(segs: Seq<VwSegment>, addr: int, from: int) -> Option<int>
    decreases segs.len() - from,
{
    if from < 0 || from >= segs.len() {
        None
    } else if seg_holds(segs[from], addr) {
        Some(from)
    } else {
        first_seg_from(segs, addr, from + 1)
    }
}

impl ProgramImage {
    /// The index of the first segment that holds `addr`.
    pub open spec fn spec_segment_for(&self, addr: int) -> Option<int> {
        first_seg_from(self.segments@, addr, 0)
    }

    /// The byte at `addr`, if a segment holds one there.
    pub open spec fn spec_read(&self, addr: int) -> Option<u8> {
        match self.spec_segment_for(addr) {
            Some(i) => Some(self.segments@[i].data@[addr - self.segments@[i].start]),
            None => None,
        }
    }

    /// The index of the first segment that holds `addr`.
    pub fn segment_for(&self, addr: u64) -> (r: Option<usize>)
        ensures
            match (r, self.spec_segment_for(addr as int)) {
                (Some(i), Some(j)) => i == j,
                (None, None) => true,
                _ => false,
            },
    {
        let mut i: usize = 0;
        while i < self.segments.len()
            invariant
                i <= self.segments@.len(),
                self.spec_segment_for(addr as int) == first_seg_from(self.segments@, addr as int, i as int),
            decreases self.segments@.len() - i,
        {
            let seg = &self.segments[i];
            if seg.start <= addr && addr - seg.start < seg.data.len() as u64 {
                return Some(i);
            }
            i = i + 1;
        }
        None
    }

    /// The byte at `addr`, if a segment holds one there.
    pub fn read(&self, addr: u64) -> (r: Option<u8>)
        ensures
            r == self.spec_read(addr as int),
    {
        match self.segment_for(addr) {
            Some(i) => {
                proof {
                    lemma_first_seg_from_holds(self.segments@, addr as int, 0);
                }
                let seg = &self.segments[i];
                let off = addr - seg.start;
                let total = seg.data.len();
                assert(off < total);
                Some(seg.data[off as usize])
            },
            None => None,
        }
    }

    /// The `size` bytes from `addr` on, when the first segment that holds
    /// `addr` holds them all.
    pub fn read_module_buffer(&self, addr: u64, size: usize) -> (r: Option<Vec<u8>>)
        ensures
            match self.spec_segment_for(addr as int) {
                Some(i) => {
                    let seg = self.segments@[i];
                    let off = addr - seg.start;
                    if off + size <= seg.data@.len() {
                        r matches Some(v) && v@ == seg.data@.subrange(off, off + size)
                    } else {
                        r is None
                    }
                },
                None => r is None,
            },
    {
        match self.segment_for(addr) {
            Some(i) => {
                proof {
                    lemma_first_seg_from_holds(self.segments@, addr as int, 0);
                }
                let seg = &self.segments[i];
                let off64 = addr - seg.start;
                let total = seg.data.len();
                assert(off64 < total);
                let off = off64 as usize;
                if size > total - off {
                    return None;
                }
                let mut out: Vec<u8> = Vec::new();
                let mut k: usize = 0;
                while k < size
                    invariant
                        k <= size,
                        off + size <= total,
                        total == seg.data@.len(),
                        out@ == seg.data@.subrange(off as int, off + k),
                    decreases size - k,
                {
                    out.push(seg.data[off + k]);
                    assert(out@ =~= seg.data@.subrange(off as int, off + k + 1));
                    k = k + 1;
                }
                Some(out)
            },
            None => None,
        }
    }
}

/// The segment found for an address holds it.
pub proof fn lemma_first_seg_from_holds(segs: Seq<VwSegment>, addr: int, from: int)
    ensures
        first_seg_from(segs, addr, from) matches Some(i) ==> from <= i < segs.len() && seg_holds(
            segs[i],
            addr,
        ),
    decreases segs.len() - from,
{
    if from >= 0 && from < segs.len() && !seg_holds(segs[from], addr) {
        lemma_first_seg_from_holds(segs, addr, from + 1);
    }
}

/// A program to check: its memory, the runtime's symbols, the runtime it was
/// compiled for and its instruction set.
pub struct VwModule {
    pub program: ProgramImage,
    pub metadata: VwMetadata,
    pub format: ExecutableType,
    pub arch: VwArch,
}

/// A symbol of a loaded program.
pub struct VwSymbol {
    pub name: String,
    pub addr: u64,
}

/// The types of WebAssembly values.
#[derive(Clone, Copy, Debug, PartialEq, Eq, Structural)]
pub enum WasmValueType {
    I32,
    I64,
    F32,
    F64,
}

/// The type of a WebAssembly function.
#[derive(Clone, Debug)]
pub struct WasmSignature {
    pub params: Vec<WasmValueType>,
    pub ret_ty: Option<WasmValueType>,
}

/// The functions of a module: the signatures by index, and the index of
/// each function's signature by the function's name.
pub struct VwFuncInfo {
    pub signatures: Vec<WasmSignature>,
    pub indexes: HashMap<String, u32>,
}

/// The addresses of the Lucet runtime's symbols that compiled code uses.
#[derive(Clone, Copy, Debug, PartialEq, Eq, Structural)]
pub struct VwMetadata {
    pub guest_table_0: u64,
    pub lucet_tables: u64,
    pub lucet_probestack: u64,
}

/// The instruction set of the code to check.
#[derive(Clone, Copy, Debug, PartialEq, Eq, Structural)]
pub enum VwArch {
    X64,
    Aarch64,
}

/// The runtime that the code was compiled for.
#[derive(Clone, Copy, Debug, PartialEq, Eq, Structural)]
pub enum ExecutableType {
    Lucet,
    Wasmtime,
}

/// The lower-case form of a string (Unicode case mapping).
pub uninterp spec fn lowercase(s: Seq<char>) -> Seq<char>;

/// `str::to_lowercase`: a function of the string alone (the mapping does not
/// depend on a locale).
#[verifier::external_body]
pub(crate) fn to_lowercase(s: &str) -> (r: String)
    ensures
        r@ == lowercase(s@),
{
    s.to_lowercase()
}

/// The architecture a lower-case name stands for: `x86_64` and `x64` for
/// x86-64, `aarch64` for AArch64.
pub open spec fn spec_arch_of_lowercase(s: Seq<char>) -> Option<VwArch> {
    if s == "x86_64"@ || s == "x64"@ {
        Some(VwArch::X64)
    } else if s == "aarch64"@ {
        Some(VwArch::Aarch64)
    } else {
        None
    }
}

/// The architecture a name stands for, whatever its case.
pub open spec fn spec_parse_arch(s: Seq<char>) -> Option<VwArch> {
    spec_arch_of_lowercase(lowercase(s))
}

/// The runtime a lower-case name stands for.
pub open spec fn spec_executable_type_of_lowercase(s: Seq<char>) -> Option<ExecutableType> {
    if s == "lucet"@ {
        Some(ExecutableType::Lucet)
    } else if s == "wasmtime"@ {
        Some(ExecutableType::Wasmtime)
    } else {
        None
    }
}

/// The runtime a name stands for, whatever its case.
pub open spec fn spec_parse_executable_type(s: Seq<char>) -> Option<ExecutableType> {
    spec_executable_type_of_lowercase(lowercase(s))
}

impl VwArch {
    /// The architecture that a name already in lower case stands for.
    pub fn from_lowercase(lower: &String) -> (r: Result<VwArch, &'static str>)
        ensures
            match spec_arch_of_lowercase(lower@) {
                Some(a) => r == Ok::<VwArch, &'static str>(a),
                None => r == Err::<VwArch, &'static str>("Unknown architecture"),
            },
    {
        if *lower == "x86_64".to_owned() || *lower == "x64".to_owned() {
            Ok(VwArch::X64)
        } else if *lower == "aarch64".to_owned() {
            Ok(VwArch::Aarch64)
        } else {
            Err("Unknown architecture")
        }
    }

    pub fn parse(s: &str) -> (r: Result<VwArch, &'static str>)
        ensures
            match spec_parse_arch(s@) {
                Some(a) => r == Ok::<VwArch, &'static str>(a),
                None => r == Err::<VwArch, &'static str>("Unknown architecture"),
            },
    {
        VwArch::from_lowercase(&to_lowercase(s))
    }
}

impl std::str::FromStr for VwArch {
    type Err = &'static str;

    fn from_str(s: &str) -> (r: Result<Self, Self::Err>)
        ensures
            match spec_parse_arch(s@) {
                Some(a) => r == Ok::<VwArch, &'static str>(a),
                None => r == Err::<VwArch, &'static str>("Unknown architecture"),
            },
    {
        VwArch::parse(s)
    }
}

impl ExecutableType {
    /// The runtime that a name already in lower case stands for.
    pub fn from_lowercase(lower: &String) -> (r: Result<ExecutableType, &'static str>)
        ensures
            match spec_executable_type_of_lowercase(lower@) {
                Some(t) => r == Ok::<ExecutableType, &'static str>(t),
                None => r == Err::<ExecutableType, &'static str>("Unknown executable type"),
            },
    {
        if *lower == "lucet".to_owned() {
            Ok(ExecutableType::Lucet)
        } else if *lower == "wasmtime".to_owned() {
            Ok(ExecutableType::Wasmtime)
        } else {
            Err("Unknown executable type")
        }
    }

    pub fn parse(s: &str) -> (r: Result<ExecutableType, &'static str>)
        ensures
            match spec_parse_executable_type(s@) {
                Some(t) => r == Ok::<ExecutableType, &'static str>(t),
                None => r == Err::<ExecutableType, &'static str>("Unknown executable type"),
            },
    {
        ExecutableType::from_lowercase(&to_lowercase(s))
    }
}

impl std::str::FromStr for ExecutableType {
    type Err = &'static str;

    fn from_str(s: &str) -> (r: Result<Self, Self::Err>)
        ensures
            match spec_parse_executable_type(s@) {
                Some(t) => r == Ok::<ExecutableType, &'static str>(t),
                None => r == Err::<ExecutableType, &'static str>("Unknown executable type"),
            },
    {
        ExecutableType::parse(s)
    }
}

} // verus!
