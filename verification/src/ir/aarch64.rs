use crate::ir::types::{unknown_register_error, unknown_register_text};
use vstd::prelude::*;

verus! {

/// The registers of AArch64: the general-purpose registers `x0`-`x31`
/// (`x31` is the stack pointer), the condition flags, and the SIMD registers
/// `d0`-`d31`.
#[derive(Clone, Copy, Debug, PartialEq, Eq, Structural, Hash)]
pub enum Aarch64Regs {
    X0,
    X1,
    X2,
    X3,
    X4,
    X5,
    X6,
    X7,
    X8,
    X9,
    X10,
    X11,
    X12,
    X13,
    X14,
    X15,
    X16,
    X17,
    X18,
    X19,
    X20,
    X21,
    X22,
    X23,
    X24,
    X25,
    X26,
    X27,
    X28,
    X29,
    X30,
    X31,
    Nzcv,
    D0,
    D1,
    D2,
    D3,
    D4,
    D5,
    D6,
    D7,
    D8,
    D9,
    D10,
    D11,
    D12,
    D13,
    D14,
    D15,
    D16,
    D17,
    D18,
    D19,
    D20,
    D21,
    D22,
    D23,
    D24,
    D25,
    D26,
    D27,
    D28,
    D29,
    D30,
    D31,
}

/// The index of a register, in declaration order.
pub open spec fn aarch64_index(r: Aarch64Regs) -> u16 {
    match r {
        Aarch64Regs::X0 => 0,
        Aarch64Regs::X1 => 1,
        Aarch64Regs::X2 => 2,
        Aarch64Regs::X3 => 3,
        Aarch64Regs::X4 => 4,
        Aarch64Regs::X5 => 5,
        Aarch64Regs::X6 => 6,
        Aarch64Regs::X7 => 7,
        Aarch64Regs::X8 => 8,
        Aarch64Regs::X9 => 9,
        Aarch64Regs::X10 => 10,
        Aarch64Regs::X11 => 11,
        Aarch64Regs::X12 => 12,
        Aarch64Regs::X13 => 13,
        Aarch64Regs::X14 => 14,
        Aarch64Regs::X15 => 15,
        Aarch64Regs::X16 => 16,
        Aarch64Regs::X17 => 17,
        Aarch64Regs::X18 => 18,
        Aarch64Regs::X19 => 19,
        Aarch64Regs::X20 => 20,
        Aarch64Regs::X21 => 21,
        Aarch64Regs::X22 => 22,
        Aarch64Regs::X23 => 23,
        Aarch64Regs::X24 => 24,
        Aarch64Regs::X25 => 25,
        Aarch64Regs::X26 => 26,
        Aarch64Regs::X27 => 27,
        Aarch64Regs::X28 => 28,
        Aarch64Regs::X29 => 29,
        Aarch64Regs::X30 => 30,
        Aarch64Regs::X31 => 31,
        Aarch64Regs::Nzcv => 32,
        Aarch64Regs::D0 => 33,
        Aarch64Regs::D1 => 34,
        Aarch64Regs::D2 => 35,
        Aarch64Regs::D3 => 36,
        Aarch64Regs::D4 => 37,
        Aarch64Regs::D5 => 38,
        Aarch64Regs::D6 => 39,
        Aarch64Regs::D7 => 40,
        Aarch64Regs::D8 => 41,
        Aarch64Regs::D9 => 42,
        Aarch64Regs::D10 => 43,
        Aarch64Regs::D11 => 44,
        Aarch64Regs::D12 => 45,
        Aarch64Regs::D13 => 46,
        Aarch64Regs::D14 => 47,
        Aarch64Regs::D15 => 48,
        Aarch64Regs::D16 => 49,
        Aarch64Regs::D17 => 50,
        Aarch64Regs::D18 => 51,
        Aarch64Regs::D19 => 52,
        Aarch64Regs::D20 => 53,
        Aarch64Regs::D21 => 54,
        Aarch64Regs::D22 => 55,
        Aarch64Regs::D23 => 56,
        Aarch64Regs::D24 => 57,
        Aarch64Regs::D25 => 58,
        Aarch64Regs::D26 => 59,
        Aarch64Regs::D27 => 60,
        Aarch64Regs::D28 => 61,
        Aarch64Regs::D29 => 62,
        Aarch64Regs::D30 => 63,
        Aarch64Regs::D31 => 64,
    }
}

/// The number of registers.
pub const NUM_AARCH64_REGS: u16 = 65;

impl Aarch64Regs {
    /// Whether the register holds the condition flags.
    pub fn is_flag(self) -> (b: bool)
        ensures
            b == (self is Nzcv),
    {
        match self {
            Aarch64Regs::Nzcv => true,
            _ => false,
        }
    }

    /// The register with the given index (see [`aarch64_index`]).
    pub fn try_from(value: u16) -> (r: Result<Aarch64Regs, String>)
        ensures
            r is Ok <==> value < NUM_AARCH64_REGS,
            r matches Ok(reg) ==> aarch64_index(reg) == value,
            r matches Err(e) ==> e@ == unknown_register_text(value),
    {
        match value {
            0 => Ok(Aarch64Regs::X0),
            1 => Ok(Aarch64Regs::X1),
            2 => Ok(Aarch64Regs::X2),
            3 => Ok(Aarch64Regs::X3),
            4 => Ok(Aarch64Regs::X4),
            5 => Ok(Aarch64Regs::X5),
            6 => Ok(Aarch64Regs::X6),
            7 => Ok(Aarch64Regs::X7),
            8 => Ok(Aarch64Regs::X8),
            9 => Ok(Aarch64Regs::X9),
            10 => Ok(Aarch64Regs::X10),
            11 => Ok(Aarch64Regs::X11),
            12 => Ok(Aarch64Regs::X12),
            13 => Ok(Aarch64Regs::X13),
            14 => Ok(Aarch64Regs::X14),
            15 => Ok(Aarch64Regs::X15),
            16 => Ok(Aarch64Regs::X16),
            17 => Ok(Aarch64Regs::X17),
            18 => Ok(Aarch64Regs::X18),
            19 => Ok(Aarch64Regs::X19),
            20 => Ok(Aarch64Regs::X20),
            21 => Ok(Aarch64Regs::X21),
            22 => Ok(Aarch64Regs::X22),
            23 => Ok(Aarch64Regs::X23),
            24 => Ok(Aarch64Regs::X24),
            25 => Ok(Aarch64Regs::X25),
            26 => Ok(Aarch64Regs::X26),
            27 => Ok(Aarch64Regs::X27),
            28 => Ok(Aarch64Regs::X28),
            29 => Ok(Aarch64Regs::X29),
            30 => Ok(Aarch64Regs::X30),
            31 => Ok(Aarch64Regs::X31),
            32 => Ok(Aarch64Regs::Nzcv),
            33 => Ok(Aarch64Regs::D0),
            34 => Ok(Aarch64Regs::D1),
            35 => Ok(Aarch64Regs::D2),
            36 => Ok(Aarch64Regs::D3),
            37 => Ok(Aarch64Regs::D4),
            38 => Ok(Aarch64Regs::D5),
            39 => Ok(Aarch64Regs::D6),
            40 => Ok(Aarch64Regs::D7),
            41 => Ok(Aarch64Regs::D8),
            42 => Ok(Aarch64Regs::D9),
            43 => Ok(Aarch64Regs::D10),
            44 => Ok(Aarch64Regs::D11),
            45 => Ok(Aarch64Regs::D12),
            46 => Ok(Aarch64Regs::D13),
            47 => Ok(Aarch64Regs::D14),
            48 => Ok(Aarch64Regs::D15),
            49 => Ok(Aarch64Regs::D16),
            50 => Ok(Aarch64Regs::D17),
            51 => Ok(Aarch64Regs::D18),
            52 => Ok(Aarch64Regs::D19),
            53 => Ok(Aarch64Regs::D20),
            54 => Ok(Aarch64Regs::D21),
            55 => Ok(Aarch64Regs::D22),
            56 => Ok(Aarch64Regs::D23),
            57 => Ok(Aarch64Regs::D24),
            58 => Ok(Aarch64Regs::D25),
            59 => Ok(Aarch64Regs::D26),
            60 => Ok(Aarch64Regs::D27),
            61 => Ok(Aarch64Regs::D28),
            62 => Ok(Aarch64Regs::D29),
            63 => Ok(Aarch64Regs::D30),
            64 => Ok(Aarch64Regs::D31),
            _ => Err(unknown_register_error(value)),
        }
    }

    /// The register index as a byte; the register with an index that does
    /// not fit gives an error.
    pub fn try_from_u8(value: u8) -> (r: Result<Aarch64Regs, String>)
        ensures
            r is Ok <==> value < NUM_AARCH64_REGS,
            r matches Ok(reg) ==> aarch64_index(reg) == value,
    {
        Self::try_from(value as u16)
    }

    /// The stack pointer, `x31`.
    pub fn is_rsp(&self) -> (r: bool)
        ensures
            r == (*self is X31),
    {
        matches!(*self, Aarch64Regs::X31)
    }

    /// The frame pointer, `x29`.
    pub fn is_rbp(&self) -> (r: bool)
        ensures
            r == (*self is X29),
    {
        matches!(*self, Aarch64Regs::X29)
    }

    /// The condition flags.
    pub fn is_zf(&self) -> (r: bool)
        ensures
            r == (*self is Nzcv),
    {
        matches!(*self, Aarch64Regs::Nzcv)
    }

    /// The register that holds the heap base on entry: `x0`.
    pub fn pinned_heap_reg() -> (r: Aarch64Regs)
        ensures
            r is X0,
    {
        Aarch64Regs::X0
    }
}

/// No two registers share an index.
pub proof fn lemma_aarch64_index_injective(a: Aarch64Regs, b: Aarch64Regs)
    ensures
        aarch64_index(a) == aarch64_index(b) ==> a == b,
        aarch64_index(a) < NUM_AARCH64_REGS,
{
}

} // verus!
