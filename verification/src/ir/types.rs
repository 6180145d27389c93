use std::collections::HashMap;
use vstd::prelude::*;

verus! {

#[derive(Clone, Copy, Debug, PartialEq, Eq, Structural)]
pub enum ImmType {
    Signed,
    Unsigned,
}

/// The width of a value, in bits.
#[derive(Clone, Copy, Debug, PartialEq, Eq, Structural)]
pub enum ValSize {
    Size1,
    Size8,
    Size16,
    Size32,
    Size64,
    Size128,
    Size256,
    Size512,
}

/// The width in bits of each size.
pub open spec fn spec_bits(s: ValSize) -> u32 {
    match s {
        ValSize::Size1 => 1,
        ValSize::Size8 => 8,
        ValSize::Size16 => 16,
        ValSize::Size32 => 32,
        ValSize::Size64 => 64,
        ValSize::Size128 => 128,
        ValSize::Size256 => 256,
        ValSize::Size512 => 512,
    }
}

/// The width in bytes of each size but the one-bit flag size.
pub open spec fn spec_bytes(s: ValSize) -> u32 {
    match s {
        ValSize::Size1 => 0,
        ValSize::Size8 => 1,
        ValSize::Size16 => 2,
        ValSize::Size32 => 4,
        ValSize::Size64 => 8,
        ValSize::Size128 => 16,
        ValSize::Size256 => 32,
        ValSize::Size512 => 64,
    }
}

/// Whether `value` is the bit width of some size.
pub open spec fn is_bit_width(value: u32) -> bool {
    value == 1 || value == 8 || value == 16 || value == 32 || value == 64 || value == 128 || value
        == 256 || value == 512
}

/// Whether `value` is the byte width of some size.
pub open spec fn is_byte_width(value: u32) -> bool {
    value == 1 || value == 2 || value == 4 || value == 8 || value == 16 || value == 32 || value
        == 64
}

/// The decimal digit `d` (below 10).
pub open spec fn digit_char(d: nat) -> char {
    seq!['0', '1', '2', '3', '4', '5', '6', '7', '8', '9'][d as int]
}

/// The decimal digits of `n`, most significant first, without leading zeros
/// (`"0"` for zero): how an unsigned integer is printed in decimal.
pub open spec fn decimal_text(n: nat) -> Seq<char>
    decreases n,
{
    if n < 10 {
        seq![digit_char(n)]
    } else {
        decimal_text(n / 10).push(digit_char(n % 10))
    }
}

/// The message for a width in bits that names no size.
pub open spec fn bit_length_text(value: u32) -> Seq<char> {
    "Not a valid bit length: "@ + decimal_text(value as nat)
}

/// The message for a width in bytes that names no size.
pub open spec fn byte_length_text(value: u32) -> Seq<char> {
    "Not a valid byte length: "@ + decimal_text(value as nat)
}

/// The message for a register index that names no register.
pub open spec fn unknown_register_text(value: u16) -> Seq<char> {
    "Unknown register: index = "@ + decimal_text(value as nat)
}

/// `u64::to_string`: the decimal digits of `v` (std's `Display` for
/// unsigned integers prints them without sign or leading zeros).
#[verifier::external_body]
fn decimal_string(v: u64) -> (r: String)
    ensures
        r@ == decimal_text(v as nat),
{
    v.to_string()
}

/// `<[&str]>::concat` of two strings: `a` followed by `b`.
#[verifier::external_body]
fn concat_two(a: &str, b: &str) -> (r: String)
    ensures
        r@ == a@ + b@,
{
    [a, b].concat()
}

/// The message of a width in bits that names no size.
fn bit_length_error(value: u32) -> (r: String)
    ensures
        r@ == bit_length_text(value),
{
    let digits = decimal_string(value as u64);
    concat_two("Not a valid bit length: ", digits.as_str())
}

/// The message of a width in bytes that names no size.
fn byte_length_error(value: u32) -> (r: String)
    ensures
        r@ == byte_length_text(value),
{
    let digits = decimal_string(value as u64);
    concat_two("Not a valid byte length: ", digits.as_str())
}

impl ValSize {
    pub fn try_from_bits(value: u32) -> (r: Result<Self, String>)
        ensures
            r is Ok <==> is_bit_width(value),
            r matches Ok(s) ==> spec_bits(s) == value,
            r matches Err(e) ==> e@ == bit_length_text(value),
    {
        match value {
            1 => Ok(ValSize::Size1),
            8 => Ok(ValSize::Size8),
            16 => Ok(ValSize::Size16),
            32 => Ok(ValSize::Size32),
            64 => Ok(ValSize::Size64),
            128 => Ok(ValSize::Size128),
            256 => Ok(ValSize::Size256),
            512 => Ok(ValSize::Size512),
            _ => Err(bit_length_error(value)),
        }
    }

    pub fn into_bits(self) -> (r: u32)
        ensures
            r == spec_bits(self),
    {
        match self {
            ValSize::Size1 => 1,
            ValSize::Size8 => 8,
            ValSize::Size16 => 16,
            ValSize::Size32 => 32,
            ValSize::Size64 => 64,
            ValSize::Size128 => 128,
            ValSize::Size256 => 256,
            ValSize::Size512 => 512,
        }
    }

    pub fn try_from_bytes(value: u32) -> (r: Result<Self, String>)
        ensures
            r is Ok <==> is_byte_width(value),
            r matches Ok(s) ==> spec_bytes(s) == value && !(s is Size1),
            r matches Err(e) ==> e@ == byte_length_text(value),
    {
        match value {
            1 => Ok(ValSize::Size8),
            2 => Ok(ValSize::Size16),
            4 => Ok(ValSize::Size32),
            8 => Ok(ValSize::Size64),
            16 => Ok(ValSize::Size128),
            32 => Ok(ValSize::Size256),
            64 => Ok(ValSize::Size512),
            _ => Err(byte_length_error(value)),
        }
    }

    /// The width in bytes; the one-bit flag size has none.
    pub fn into_bytes(self) -> (r: u32)
        requires
            !(self is Size1),
        ensures
            r == spec_bytes(self),
    {
        match self {
            ValSize::Size1 => 0,
            ValSize::Size8 => 1,
            ValSize::Size16 => 2,
            ValSize::Size32 => 4,
            ValSize::Size64 => 8,
            ValSize::Size128 => 16,
            ValSize::Size256 => 32,
            ValSize::Size512 => 64,
        }
    }

    /// The index of the first vector register.
    pub fn fp_offset() -> (r: u8)
        ensures
            r == 21,
    {
        X86Regs::Zmm0.index()
    }
}

/// The machine registers and flags that the analyses track.
#[derive(Clone, Copy, Debug, PartialEq, Eq, Structural, Hash)]
pub enum X86Regs {
    Rax,
    Rcx,
    Rdx,
    Rbx,
    Rsp,
    Rbp,
    Rsi,
    Rdi,
    R8,
    R9,
    R10,
    R11,
    R12,
    R13,
    R14,
    R15,
    Zf,
    Cf,
    Pf,
    Sf,
    Of,
    Zmm0,
    Zmm1,
    Zmm2,
    Zmm3,
    Zmm4,
    Zmm5,
    Zmm6,
    Zmm7,
    Zmm8,
    Zmm9,
    Zmm10,
    Zmm11,
    Zmm12,
    Zmm13,
    Zmm14,
    Zmm15,
}

/// The number of registers and flags.
pub const NUM_REGS: u8 = 37;

/// The index of each register, in declaration order.
pub open spec fn reg_index(r: X86Regs) -> u8 {
    match r {
        X86Regs::Rax => 0,
        X86Regs::Rcx => 1,
        X86Regs::Rdx => 2,
        X86Regs::Rbx => 3,
        X86Regs::Rsp => 4,
        X86Regs::Rbp => 5,
        X86Regs::Rsi => 6,
        X86Regs::Rdi => 7,
        X86Regs::R8 => 8,
        X86Regs::R9 => 9,
        X86Regs::R10 => 10,
        X86Regs::R11 => 11,
        X86Regs::R12 => 12,
        X86Regs::R13 => 13,
        X86Regs::R14 => 14,
        X86Regs::R15 => 15,
        X86Regs::Zf => 16,
        X86Regs::Cf => 17,
        X86Regs::Pf => 18,
        X86Regs::Sf => 19,
        X86Regs::Of => 20,
        X86Regs::Zmm0 => 21,
        X86Regs::Zmm1 => 22,
        X86Regs::Zmm2 => 23,
        X86Regs::Zmm3 => 24,
        X86Regs::Zmm4 => 25,
        X86Regs::Zmm5 => 26,
        X86Regs::Zmm6 => 27,
        X86Regs::Zmm7 => 28,
        X86Regs::Zmm8 => 29,
        X86Regs::Zmm9 => 30,
        X86Regs::Zmm10 => 31,
        X86Regs::Zmm11 => 32,
        X86Regs::Zmm12 => 33,
        X86Regs::Zmm13 => 34,
        X86Regs::Zmm14 => 35,
        X86Regs::Zmm15 => 36,
    }
}

/// The register with a given index (meaningful below [`NUM_REGS`]).
pub open spec fn reg_of_index(i: u8) -> X86Regs {
    if i == 0 {
        X86Regs::Rax
    } else if i == 1 {
        X86Regs::Rcx
    } else if i == 2 {
        X86Regs::Rdx
    } else if i == 3 {
        X86Regs::Rbx
    } else if i == 4 {
        X86Regs::Rsp
    } else if i == 5 {
        X86Regs::Rbp
    } else if i == 6 {
        X86Regs::Rsi
    } else if i == 7 {
        X86Regs::Rdi
    } else if i == 8 {
        X86Regs::R8
    } else if i == 9 {
        X86Regs::R9
    } else if i == 10 {
        X86Regs::R10
    } else if i == 11 {
        X86Regs::R11
    } else if i == 12 {
        X86Regs::R12
    } else if i == 13 {
        X86Regs::R13
    } else if i == 14 {
        X86Regs::R14
    } else if i == 15 {
        X86Regs::R15
    } else if i == 16 {
        X86Regs::Zf
    } else if i == 17 {
        X86Regs::Cf
    } else if i == 18 {
        X86Regs::Pf
    } else if i == 19 {
        X86Regs::Sf
    } else if i == 20 {
        X86Regs::Of
    } else if i == 21 {
        X86Regs::Zmm0
    } else if i == 22 {
        X86Regs::Zmm1
    } else if i == 23 {
        X86Regs::Zmm2
    } else if i == 24 {
        X86Regs::Zmm3
    } else if i == 25 {
        X86Regs::Zmm4
    } else if i == 26 {
        X86Regs::Zmm5
    } else if i == 27 {
        X86Regs::Zmm6
    } else if i == 28 {
        X86Regs::Zmm7
    } else if i == 29 {
        X86Regs::Zmm8
    } else if i == 30 {
        X86Regs::Zmm9
    } else if i == 31 {
        X86Regs::Zmm10
    } else if i == 32 {
        X86Regs::Zmm11
    } else if i == 33 {
        X86Regs::Zmm12
    } else if i == 34 {
        X86Regs::Zmm13
    } else if i == 35 {
        X86Regs::Zmm14
    } else {
        X86Regs::Zmm15
    }
}

/// Numbering registers and reading the number back are inverse.
pub proof fn lemma_reg_index_roundtrip(r: X86Regs)
    ensures
        reg_index(r) < NUM_REGS,
        reg_of_index(reg_index(r)) == r,
{
}

pub proof fn lemma_index_of_reg_of_index(k: u8)
    requires
        k < NUM_REGS,
    ensures
        reg_index(reg_of_index(k)) == k,
{
}

/// The message of a register index that names no register.
pub(crate) fn unknown_register_error(value: u16) -> (r: String)
    ensures
        r@ == unknown_register_text(value),
{
    let digits = decimal_string(value as u64);
    concat_two("Unknown register: index = ", digits.as_str())
}

impl X86Regs {
    /// Whether the register is one of the status flags.
    pub open spec fn spec_is_flag(self) -> bool {
        self is Zf || self is Cf || self is Pf || self is Sf || self is Of
    }

    pub fn is_flag(self) -> (b: bool)
        ensures
            b == self.spec_is_flag(),
    {
        match self {
            X86Regs::Zf | X86Regs::Cf | X86Regs::Pf | X86Regs::Sf | X86Regs::Of => true,
            _ => false,
        }
    }

    /// The register's index, in declaration order.
    pub fn index(self) -> (r: u8)
        ensures
            r == reg_index(self),
    {
        match self {
            X86Regs::Rax => 0,
            X86Regs::Rcx => 1,
            X86Regs::Rdx => 2,
            X86Regs::Rbx => 3,
            X86Regs::Rsp => 4,
            X86Regs::Rbp => 5,
            X86Regs::Rsi => 6,
            X86Regs::Rdi => 7,
            X86Regs::R8 => 8,
            X86Regs::R9 => 9,
            X86Regs::R10 => 10,
            X86Regs::R11 => 11,
            X86Regs::R12 => 12,
            X86Regs::R13 => 13,
            X86Regs::R14 => 14,
            X86Regs::R15 => 15,
            X86Regs::Zf => 16,
            X86Regs::Cf => 17,
            X86Regs::Pf => 18,
            X86Regs::Sf => 19,
            X86Regs::Of => 20,
            X86Regs::Zmm0 => 21,
            X86Regs::Zmm1 => 22,
            X86Regs::Zmm2 => 23,
            X86Regs::Zmm3 => 24,
            X86Regs::Zmm4 => 25,
            X86Regs::Zmm5 => 26,
            X86Regs::Zmm6 => 27,
            X86Regs::Zmm7 => 28,
            X86Regs::Zmm8 => 29,
            X86Regs::Zmm9 => 30,
            X86Regs::Zmm10 => 31,
            X86Regs::Zmm11 => 32,
            X86Regs::Zmm12 => 33,
            X86Regs::Zmm13 => 34,
            X86Regs::Zmm14 => 35,
            X86Regs::Zmm15 => 36,
        }
    }

    /// The register with the given index, if there is one.
    pub fn try_from_index(value: u8) -> (r: Result<X86Regs, String>)
        ensures
            r is Ok <==> value < NUM_REGS,
            r matches Ok(reg) ==> reg == reg_of_index(value) && reg_index(reg) == value,
            r matches Err(e) ==> e@ == unknown_register_text(value as u16),
    {
        if value < NUM_REGS {
            let r = Self::from_index_below(value);
            Ok(r)
        } else {
            Err(unknown_register_error(value as u16))
        }
    }

    fn from_index_below(value: u8) -> (r: X86Regs)
        requires
            value < NUM_REGS,
        ensures
            r == reg_of_index(value),
            reg_index(r) == value,
    {
        match value {
            0 => X86Regs::Rax,
            1 => X86Regs::Rcx,
            2 => X86Regs::Rdx,
            3 => X86Regs::Rbx,
            4 => X86Regs::Rsp,
            5 => X86Regs::Rbp,
            6 => X86Regs::Rsi,
            7 => X86Regs::Rdi,
            8 => X86Regs::R8,
            9 => X86Regs::R9,
            10 => X86Regs::R10,
            11 => X86Regs::R11,
            12 => X86Regs::R12,
            13 => X86Regs::R13,
            14 => X86Regs::R14,
            15 => X86Regs::R15,
            16 => X86Regs::Zf,
            17 => X86Regs::Cf,
            18 => X86Regs::Pf,
            19 => X86Regs::Sf,
            20 => X86Regs::Of,
            21 => X86Regs::Zmm0,
            22 => X86Regs::Zmm1,
            23 => X86Regs::Zmm2,
            24 => X86Regs::Zmm3,
            25 => X86Regs::Zmm4,
            26 => X86Regs::Zmm5,
            27 => X86Regs::Zmm6,
            28 => X86Regs::Zmm7,
            29 => X86Regs::Zmm8,
            30 => X86Regs::Zmm9,
            31 => X86Regs::Zmm10,
            32 => X86Regs::Zmm11,
            33 => X86Regs::Zmm12,
            34 => X86Regs::Zmm13,
            35 => X86Regs::Zmm14,
            _ => X86Regs::Zmm15,
        }
    }

    pub fn is_rsp(&self) -> (r: bool)
        ensures
            r == (*self is Rsp),
    {
        matches!(*self, X86Regs::Rsp)
    }

    pub fn is_rbp(&self) -> (r: bool)
        ensures
            r == (*self is Rbp),
    {
        matches!(*self, X86Regs::Rbp)
    }

    pub fn is_zf(&self) -> (r: bool)
        ensures
            r == (*self is Zf),
    {
        matches!(*self, X86Regs::Zf)
    }

    /// The register that holds the heap base on entry (Lucet).
    pub fn pinned_heap_reg() -> (r: X86Regs)
        ensures
            r == X86Regs::Rdi,
    {
        X86Regs::Rdi
    }

    /// The register that holds the VM context on entry (Wasmtime).
    pub fn pinned_vmctx_reg() -> (r: X86Regs)
        ensures
            r == X86Regs::Rdi,
    {
        X86Regs::Rdi
    }

    /// Whether a call may clobber the register under the System V convention.
    pub open spec fn spec_is_caller_saved(self) -> bool {
        self is Rax || self is Rcx || self is Rdx || self is Rsi || self is Rdi || self is R8
            || self is R9 || self is R10 || self is R11 || self.spec_is_flag()
    }

    pub fn is_caller_saved(&self) -> (r: bool)
        ensures
            r == self.spec_is_caller_saved(),
    {
        match *self {
            X86Regs::Rax | X86Regs::Rcx | X86Regs::Rdx | X86Regs::Rsi | X86Regs::Rdi | X86Regs::R8
            | X86Regs::R9 | X86Regs::R10 | X86Regs::R11 | X86Regs::Zf | X86Regs::Cf | X86Regs::Pf
            | X86Regs::Sf | X86Regs::Of => true,
            _ => false,
        }
    }

    /// A walk over the registers; see [`RegsIterator::next`].
    pub fn iter() -> (r: RegsIterator)
        ensures
            r.current_reg == 0,
    {
        RegsIterator { current_reg: 0 }
    }
}

/// The registers of an architecture, with the roles that the analyses give
/// some of them.
pub trait RegT: Sized + Copy {
    spec fn spec_is_stack_pointer(&self) -> bool;

    spec fn spec_is_frame_pointer(&self) -> bool;

    spec fn spec_is_zero_flag(&self) -> bool;

    spec fn spec_caller_saved(&self) -> bool;

    /// The register that holds the heap base on entry.
    spec fn spec_heap_reg() -> Self;

    /// The register that holds the VM context on entry.
    spec fn spec_vmctx_reg() -> Self;

    fn is_rsp(&self) -> (r: bool)
        ensures
            r == self.spec_is_stack_pointer(),
    ;

    fn is_rbp(&self) -> (r: bool)
        ensures
            r == self.spec_is_frame_pointer(),
    ;

    fn is_zf(&self) -> (r: bool)
        ensures
            r == self.spec_is_zero_flag(),
    ;

    fn pinned_heap_reg() -> (r: Self)
        ensures
            r == Self::spec_heap_reg(),
    ;

    fn pinned_vmctx_reg() -> (r: Self)
        ensures
            r == Self::spec_vmctx_reg(),
    ;

    fn is_caller_saved(&self) -> (r: bool)
        ensures
            r == self.spec_caller_saved(),
    ;

    /// A walk over the registers by index.
    fn iter() -> (r: RegsIterator)
        ensures
            r.current_reg == 0,
    {
        RegsIterator { current_reg: 0 }
    }
}

impl RegT for X86Regs {
    open spec fn spec_is_stack_pointer(&self) -> bool {
        *self is Rsp
    }

    open spec fn spec_is_frame_pointer(&self) -> bool {
        *self is Rbp
    }

    open spec fn spec_is_zero_flag(&self) -> bool {
        *self is Zf
    }

    open spec fn spec_caller_saved(&self) -> bool {
        self.spec_is_caller_saved()
    }

    open spec fn spec_heap_reg() -> Self {
        X86Regs::Rdi
    }

    open spec fn spec_vmctx_reg() -> Self {
        X86Regs::Rdi
    }

    fn is_rsp(&self) -> (r: bool) {
        X86Regs::is_rsp(self)
    }

    fn is_rbp(&self) -> (r: bool) {
        X86Regs::is_rbp(self)
    }

    fn is_zf(&self) -> (r: bool) {
        X86Regs::is_zf(self)
    }

    fn pinned_heap_reg() -> (r: Self) {
        X86Regs::pinned_heap_reg()
    }

    fn pinned_vmctx_reg() -> (r: Self) {
        X86Regs::pinned_vmctx_reg()
    }

    fn is_caller_saved(&self) -> (r: bool) {
        X86Regs::is_caller_saved(self)
    }
}

/// A walk over the registers by index. Each step moves to the next index and
/// yields the register there, so the walk yields every register but the first
/// (`Rax`), in order, and then nothing.
pub struct RegsIterator {
    pub current_reg: u8,
}

impl RegsIterator {
    pub fn next(&mut self) -> (r: Option<X86Regs>)
        requires
            old(self).current_reg < NUM_REGS,
        ensures
            old(self).current_reg + 1 < NUM_REGS ==> r == Some(reg_of_index(
                (old(self).current_reg + 1) as u8,
            )) && final(self).current_reg == old(self).current_reg + 1,
            old(self).current_reg + 1 >= NUM_REGS ==> r is None && final(self).current_reg
                == old(self).current_reg,
    {
        let next_reg = self.current_reg + 1;
        match X86Regs::try_from_index(next_reg) {
            Ok(r) => {
                self.current_reg = next_reg;
                Some(r)
            },
            Err(_) => None,
        }
    }
}

/// The registers that [`RegsIterator`] yields, in order.
pub fn all_regs() -> (r: Vec<X86Regs>)
    ensures
        r@.len() == NUM_REGS - 1,
        forall|i: int| 0 <= i < r@.len() ==> #[trigger] r@[i] == reg_of_index((i + 1) as u8),
{
    let mut it = X86Regs::iter();
    let mut r: Vec<X86Regs> = Vec::new();
    loop
        invariant
            it.current_reg < NUM_REGS,
            r@.len() == it.current_reg,
            forall|i: int| 0 <= i < r@.len() ==> #[trigger] r@[i] == reg_of_index((i + 1) as u8),
        ensures
            r@.len() == NUM_REGS - 1,
            forall|i: int| 0 <= i < r@.len() ==> #[trigger] r@[i] == reg_of_index((i + 1) as u8),
        decreases NUM_REGS - it.current_reg,
    {
        match it.next() {
            Some(reg) => r.push(reg),
            None => break,
        }
    }
    r
}


/// An operand of a memory address.
#[derive(Clone, Copy, Debug, PartialEq, Eq, Structural)]
pub enum MemArg {
    Reg(X86Regs, ValSize),
    Imm(ImmType, ValSize, i64),
}

/// A memory address: the sum of its operands (`MemScale` is `a + b * c`).
#[derive(Clone, Copy, Debug, PartialEq, Eq, Structural)]
pub enum MemArgs {
    Mem1Arg(MemArg),
    Mem2Args(MemArg, MemArg),
    Mem3Args(MemArg, MemArg, MemArg),
    MemScale(MemArg, MemArg, MemArg),
}

/// An operand of a statement.
#[derive(Clone, Copy, Debug, PartialEq, Eq, Structural)]
pub enum Value {
    Mem(ValSize, MemArgs),
    Reg(X86Regs, ValSize),
    Imm(ImmType, ValSize, i64),
    RIPConst,
}

/// The kinds of branch that a lifted jump carries.
#[derive(Clone, Copy, Debug, PartialEq, Eq, Structural)]
pub enum BranchOpcode {
    JMP,
    JO,
    JNO,
    JB,
    JNB,
    JZ,
    JNZ,
    JA,
    JNA,
    JS,
    JNS,
    JP,
    JNP,
    JL,
    JGE,
    JLE,
    JG,
}

#[derive(Clone, Copy, Debug, PartialEq, Eq, Structural)]
pub enum Unopcode {
    Mov,
    Movsx,
}

#[derive(Clone, Copy, Debug, PartialEq, Eq, Structural)]
pub enum Binopcode {
    Test,
    Rol,
    Cmp,
    Shl,
    And,
    Add,
    Sub,
}

/// A statement of the intermediate representation.
#[derive(Clone, Debug)]
pub enum Stmt {
    /// `dst` gets a value computed from the sources.
    Clear(Value, Vec<Value>),
    Unop(Unopcode, Value, Value),
    Binop(Binopcode, Value, Value, Value),
    Undefined,
    Ret,
    Branch(BranchOpcode, Value),
    Call(Value),
    ProbeStack(u64),
}

/// The abstract form of a [`Stmt`], with the sources of a `Clear` as a
/// sequence.
pub enum StmtView {
    Clear(Value, Seq<Value>),
    Unop(Unopcode, Value, Value),
    Binop(Binopcode, Value, Value, Value),
    Undefined,
    Ret,
    Branch(BranchOpcode, Value),
    Call(Value),
    ProbeStack(u64),
}

impl View for Stmt {
    type V = StmtView;

    open spec fn view(&self) -> StmtView {
        match self {
            Stmt::Clear(dst, srcs) => StmtView::Clear(*dst, srcs@),
            Stmt::Unop(op, dst, src) => StmtView::Unop(*op, *dst, *src),
            Stmt::Binop(op, dst, src1, src2) => StmtView::Binop(*op, *dst, *src1, *src2),
            Stmt::Undefined => StmtView::Undefined,
            Stmt::Ret => StmtView::Ret,
            Stmt::Branch(op, v) => StmtView::Branch(*op, *v),
            Stmt::Call(v) => StmtView::Call(*v),
            Stmt::ProbeStack(n) => StmtView::ProbeStack(*n),
        }
    }
}

/// A list of statements, seen through their views.
pub open spec fn stmts_view(s: Seq<Stmt>) -> Seq<StmtView> {
    s.map_values(|x: Stmt| x@)
}

pub proof fn lemma_stmts_view_push(s: Seq<Stmt>, x: Stmt)
    ensures
        stmts_view(s.push(x)) == stmts_view(s).push(x@),
{
    assert(stmts_view(s.push(x)) =~= stmts_view(s).push(x@));
}

/// The statements of a block, per machine-instruction address.
pub type IRBlock = Vec<(u64, Vec<Stmt>)>;

/// The blocks of a function, by start address.
pub type IRMap = HashMap<u64, IRBlock>;

#[derive(Clone, Copy, Debug, PartialEq, Eq, Structural)]
pub enum VarIndex {
    Reg(X86Regs),
    Stack(i64),
}

/// Where the arguments and the result of a function live.
#[derive(Clone, Debug)]
pub struct FunType {
    pub args: Vec<(VarIndex, ValSize)>,
    pub ret: Option<(X86Regs, ValSize)>,
}

pub enum ParseErr<E> {
    Incomplete,
    Error(E),
    Failure(E),
}

/// Whether a memory operand names the stack or frame pointer only at its full
/// width.
pub open spec fn memarg_wf(m: MemArg) -> bool {
    match m {
        MemArg::Reg(r, s) => (r is Rsp || r is Rbp) ==> s is Size64,
        MemArg::Imm(_, _, _) => true,
    }
}

pub open spec fn memargs_wf(m: MemArgs) -> bool {
    match m {
        MemArgs::Mem1Arg(a) => memarg_wf(a),
        MemArgs::Mem2Args(a, b) => memarg_wf(a) && memarg_wf(b),
        MemArgs::Mem3Args(a, b, c) => memarg_wf(a) && memarg_wf(b) && memarg_wf(c),
        MemArgs::MemScale(a, b, c) => memarg_wf(a) && memarg_wf(b) && memarg_wf(c),
    }
}

/// Whether a value names the stack or frame pointer only at its full width.
pub open spec fn value_wf(v: Value) -> bool {
    match v {
        Value::Mem(_, m) => memargs_wf(m),
        Value::Reg(r, s) => (r is Rsp || r is Rbp) ==> s is Size64,
        _ => true,
    }
}

/// Whether `v` is not a narrow access to the stack pointer (on which the
/// question whether it is the stack pointer has no answer).
pub open spec fn value_rsp_ok(v: Value) -> bool {
    v matches Value::Reg(X86Regs::Rsp, s) ==> s is Size64
}

/// Whether `v` is not a narrow access to the stack pointer.
pub fn value_rsp_is_ok(v: &Value) -> (r: bool)
    ensures
        r == value_rsp_ok(*v),
{
    match *v {
        Value::Reg(X86Regs::Rsp, s) => matches!(s, ValSize::Size64),
        _ => true,
    }
}

/// Whether every value of a list is well formed.
pub open spec fn values_wf(vs: Seq<Value>) -> bool {
    forall|i: int| 0 <= i < vs.len() ==> value_wf(#[trigger] vs[i])
}

/// Whether every operand of a statement names the stack or frame pointer only
/// at its full width.
pub open spec fn stmt_wf(s: Stmt) -> bool {
    match s {
        Stmt::Clear(dst, srcs) => value_wf(dst) && values_wf(srcs@),
        Stmt::Unop(_, dst, src) => value_wf(dst) && value_wf(src),
        Stmt::Binop(_, dst, src1, src2) => value_wf(dst) && value_wf(src1) && value_wf(src2),
        Stmt::Branch(_, v) => value_wf(v),
        Stmt::Call(v) => value_wf(v),
        _ => true,
    }
}

fn memarg_is_wf(m: &MemArg) -> (r: bool)
    ensures
        r == memarg_wf(*m),
{
    match *m {
        MemArg::Reg(r, s) => !(r.is_rsp() || r.is_rbp()) || matches!(s, ValSize::Size64),
        MemArg::Imm(_, _, _) => true,
    }
}

/// Whether a value names the stack or frame pointer only at its full width.
pub fn value_is_wf(v: &Value) -> (r: bool)
    ensures
        r == value_wf(*v),
{
    match *v {
        Value::Mem(_, m) => match m {
            MemArgs::Mem1Arg(a) => memarg_is_wf(&a),
            MemArgs::Mem2Args(a, b) => memarg_is_wf(&a) && memarg_is_wf(&b),
            MemArgs::Mem3Args(a, b, c) => memarg_is_wf(&a) && memarg_is_wf(&b) && memarg_is_wf(&c),
            MemArgs::MemScale(a, b, c) => memarg_is_wf(&a) && memarg_is_wf(&b) && memarg_is_wf(&c),
        },
        Value::Reg(r, s) => !(r.is_rsp() || r.is_rbp()) || matches!(s, ValSize::Size64),
        _ => true,
    }
}

/// Whether every operand of a statement is well formed.
pub fn stmt_is_wf(s: &Stmt) -> (r: bool)
    ensures
        r == stmt_wf(*s),
{
    match s {
        Stmt::Clear(dst, srcs) => {
            if !value_is_wf(dst) {
                return false;
            }
            let mut i: usize = 0;
            while i < srcs.len()
                invariant
                    i <= srcs@.len(),
                    *s == Stmt::Clear(*dst, *srcs),
                    value_wf(*dst),
                    forall|k: int| 0 <= k < i ==> value_wf(#[trigger] srcs@[k]),
                decreases srcs@.len() - i,
            {
                if !value_is_wf(&srcs[i]) {
                    assert(!value_wf(srcs@[i as int]));
                    assert(!values_wf(srcs@));
                    return false;
                }
                i = i + 1;
            }
            true
        },
        Stmt::Unop(_, dst, src) => value_is_wf(dst) && value_is_wf(src),
        Stmt::Binop(_, dst, src1, src2) => value_is_wf(dst) && value_is_wf(src1) && value_is_wf(src2),
        Stmt::Branch(_, v) => value_is_wf(v),
        Stmt::Call(v) => value_is_wf(v),
        _ => true,
    }
}

impl MemArg {
    pub fn is_imm(&self) -> (r: bool)
        ensures
            r == (*self is Imm),
    {
        matches!(*self, MemArg::Imm(_, _, _))
    }

    pub fn is_reg(&self) -> (r: bool)
        ensures
            r == (*self is Reg),
    {
        matches!(*self, MemArg::Reg(_, _))
    }

    pub open spec fn spec_is_rsp(self) -> bool {
        self matches MemArg::Reg(X86Regs::Rsp, _)
    }

    pub open spec fn spec_is_rbp(self) -> bool {
        self matches MemArg::Reg(X86Regs::Rbp, _)
    }

    pub fn is_rsp(&self) -> (r: bool)
        requires
            memarg_wf(*self),
        ensures
            r == self.spec_is_rsp(),
    {
        match *self {
            MemArg::Reg(r, _) => r.is_rsp(),
            _ => false,
        }
    }

    pub fn is_rbp(&self) -> (r: bool)
        requires
            memarg_wf(*self),
        ensures
            r == self.spec_is_rbp(),
    {
        match *self {
            MemArg::Reg(r, _) => r.is_rbp(),
            _ => false,
        }
    }

    pub fn to_imm(&self) -> (r: i64)
        requires
            *self is Imm,
        ensures
            r == self->Imm_2,
    {
        match *self {
            MemArg::Imm(_, _, v) => v,
            MemArg::Reg(_, _) => 0,
        }
    }

    pub fn to_reg(&self) -> (r: X86Regs)
        requires
            *self is Reg,
        ensures
            r == self->Reg_0,
    {
        match *self {
            MemArg::Reg(r, _) => r,
            MemArg::Imm(_, _, _) => X86Regs::Rax,
        }
    }
}

impl MemArgs {
    /// The offset of a stack access from the stack pointer: none for
    /// `[rsp]`, the constant for `[rsp + c]`.
    pub fn extract_stack_offset(&self) -> (r: i64)
        requires
            *self is Mem1Arg || (*self matches MemArgs::Mem2Args(_, b) && b is Imm),
        ensures
            r == spec_stack_offset(*self),
    {
        match *self {
            MemArgs::Mem2Args(_, b) => b.to_imm(),
            _ => 0,
        }
    }
}

/// The offset from the stack pointer that a stack address denotes.
pub open spec fn spec_stack_offset(m: MemArgs) -> i64 {
    match m {
        MemArgs::Mem2Args(_, MemArg::Imm(_, _, v)) => v,
        _ => 0,
    }
}

/// Whether any operand of an address is the stack pointer.
pub open spec fn memargs_use_rsp(m: MemArgs) -> bool {
    match m {
        MemArgs::Mem1Arg(a) => a.spec_is_rsp(),
        MemArgs::Mem2Args(a, b) => a.spec_is_rsp() || b.spec_is_rsp(),
        MemArgs::Mem3Args(a, b, c) => a.spec_is_rsp() || b.spec_is_rsp() || c.spec_is_rsp(),
        MemArgs::MemScale(a, b, c) => a.spec_is_rsp() || b.spec_is_rsp() || c.spec_is_rsp(),
    }
}

/// Whether any operand of an address is the frame pointer.
pub open spec fn memargs_use_rbp(m: MemArgs) -> bool {
    match m {
        MemArgs::Mem1Arg(a) => a.spec_is_rbp(),
        MemArgs::Mem2Args(a, b) => a.spec_is_rbp() || b.spec_is_rbp(),
        MemArgs::Mem3Args(a, b, c) => a.spec_is_rbp() || b.spec_is_rbp() || c.spec_is_rbp(),
        MemArgs::MemScale(a, b, c) => a.spec_is_rbp() || b.spec_is_rbp() || c.spec_is_rbp(),
    }
}

impl Value {
    pub fn is_mem(&self) -> (r: bool)
        ensures
            r == (*self is Mem),
    {
        matches!(*self, Value::Mem(_, _))
    }

    pub fn is_imm(&self) -> (r: bool)
        ensures
            r == (*self is Imm),
    {
        matches!(*self, Value::Imm(_, _, _))
    }

    pub fn is_reg(&self) -> (r: bool)
        ensures
            r == (*self is Reg),
    {
        matches!(*self, Value::Reg(_, _))
    }

    pub fn get_size(&self) -> (r: ValSize)
        ensures
            r == match *self {
                Value::Mem(sz, _) => sz,
                Value::Reg(_, sz) => sz,
                Value::Imm(_, sz, _) => sz,
                Value::RIPConst => ValSize::Size64,
            },
    {
        match *self {
            Value::Mem(sz, _) => sz,
            Value::Reg(_, sz) => sz,
            Value::Imm(_, sz, _) => sz,
            Value::RIPConst => ValSize::Size64,
        }
    }

    pub fn to_reg(&self) -> (r: X86Regs)
        requires
            *self is Reg,
        ensures
            r == self->Reg_0,
    {
        match *self {
            Value::Reg(r, _) => r,
            _ => X86Regs::Rax,
        }
    }

    pub fn to_mem(&self) -> (r: MemArgs)
        requires
            *self is Mem,
        ensures
            r == self->Mem_1,
    {
        match *self {
            Value::Mem(_, memargs) => memargs,
            _ => MemArgs::Mem1Arg(MemArg::Imm(ImmType::Signed, ValSize::Size64, 0)),
        }
    }

    pub open spec fn spec_is_rsp(self) -> bool {
        self matches Value::Reg(X86Regs::Rsp, _)
    }

    pub open spec fn spec_is_rbp(self) -> bool {
        self matches Value::Reg(X86Regs::Rbp, _)
    }

    pub fn is_rsp(&self) -> (r: bool)
        requires
            value_rsp_ok(*self),
        ensures
            r == self.spec_is_rsp(),
    {
        match *self {
            Value::Reg(r, _) => r.is_rsp(),
            _ => false,
        }
    }

    pub fn is_rbp(&self) -> (r: bool)
        requires
            value_wf(*self),
        ensures
            r == self.spec_is_rbp(),
    {
        match *self {
            Value::Reg(r, _) => r.is_rbp(),
            _ => false,
        }
    }

    pub fn is_zf(&self) -> (r: bool)
        ensures
            r == (*self matches Value::Reg(X86Regs::Zf, _)),
    {
        match *self {
            Value::Reg(r, _) => r.is_zf(),
            _ => false,
        }
    }

    pub fn as_imm_val(&self) -> (r: i64)
        requires
            *self is Imm,
        ensures
            r == self->Imm_2,
    {
        match *self {
            Value::Imm(_, _, v) => v,
            _ => 0,
        }
    }

    /// The same memory access displaced by `imm` bytes (only for `[arg]`).
    pub fn add_imm(&self, imm: i64) -> (r: Value)
        requires
            *self matches Value::Mem(_, MemArgs::Mem1Arg(_)),
        ensures
            r == match *self {
                Value::Mem(sz, MemArgs::Mem1Arg(a)) => Value::Mem(
                    sz,
                    MemArgs::Mem2Args(a, MemArg::Imm(ImmType::Signed, ValSize::Size64, imm)),
                ),
                _ => *self,
            },
    {
        match *self {
            Value::Mem(sz, MemArgs::Mem1Arg(a)) => Value::Mem(
                sz,
                MemArgs::Mem2Args(a, MemArg::Imm(ImmType::Signed, ValSize::Size64, imm)),
            ),
            _ => *self,
        }
    }

    pub open spec fn spec_is_stack_access(self) -> bool {
        self matches Value::Mem(_, m) && memargs_use_rsp(m)
    }

    pub open spec fn spec_is_frame_access(self) -> bool {
        self matches Value::Mem(_, m) && memargs_use_rbp(m)
    }

    /// Whether the value is a memory access with the stack pointer among the
    /// operands of its address.
    pub fn is_stack_access(&self) -> (r: bool)
        requires
            value_wf(*self),
        ensures
            r == self.spec_is_stack_access(),
    {
        match *self {
            Value::Mem(_, memargs) => match memargs {
                MemArgs::Mem1Arg(a) => a.is_rsp(),
                MemArgs::Mem2Args(a, b) => a.is_rsp() || b.is_rsp(),
                MemArgs::Mem3Args(a, b, c) => a.is_rsp() || b.is_rsp() || c.is_rsp(),
                MemArgs::MemScale(a, b, c) => a.is_rsp() || b.is_rsp() || c.is_rsp(),
            },
            _ => false,
        }
    }

    /// Whether the value is a memory access with the frame pointer among the
    /// operands of its address.
    pub fn is_frame_access(&self) -> (r: bool)
        requires
            value_wf(*self),
        ensures
            r == self.spec_is_frame_access(),
    {
        match *self {
            Value::Mem(_, memargs) => match memargs {
                MemArgs::Mem1Arg(a) => a.is_rbp(),
                MemArgs::Mem2Args(a, b) => a.is_rbp() || b.is_rbp(),
                MemArgs::Mem3Args(a, b, c) => a.is_rbp() || b.is_rbp() || c.is_rbp(),
                MemArgs::MemScale(a, b, c) => a.is_rbp() || b.is_rbp() || c.is_rbp(),
            },
            _ => false,
        }
    }
}

/// The size with the given bit width.
pub fn valsize(num: u32) -> (r: ValSize)
    requires
        is_bit_width(num),
    ensures
        spec_bits(r) == num,
{
    match ValSize::try_from_bits(num) {
        Ok(s) => s,
        Err(_) => ValSize::Size64,
    }
}

/// The signed 64-bit immediate `num`.
pub fn mk_value_i64(num: i64) -> (r: Value)
    ensures
        r == Value::Imm(ImmType::Signed, ValSize::Size64, num),
{
    Value::Imm(ImmType::Signed, ValSize::Size64, num)
}

/// The offset from the stack pointer of an address of the form `[rsp]` or
/// `[rsp + c]`, and `None` for any other address.
pub open spec fn spec_rsp_offset(m: MemArgs) -> Option<i64> {
    match m {
        MemArgs::Mem1Arg(a) => if a.spec_is_rsp() {
            Some(0)
        } else {
            None
        },
        MemArgs::Mem2Args(a, b) => if a.spec_is_rsp() {
            match b {
                MemArg::Imm(_, _, offset) => Some(offset),
                _ => None,
            }
        } else {
            None
        },
        _ => None,
    }
}

pub fn get_rsp_offset(memargs: &MemArgs) -> (r: Option<i64>)
    requires
        memargs_wf(*memargs),
    ensures
        r == spec_rsp_offset(*memargs),
{
    match *memargs {
        MemArgs::Mem1Arg(a) => if a.is_rsp() {
            Some(0)
        } else {
            None
        },
        MemArgs::Mem2Args(a, b) => if a.is_rsp() {
            match b {
                MemArg::Imm(_, _, offset) => Some(offset),
                _ => None,
            }
        } else {
            None
        },
        _ => None,
    }
}

} // verus!
