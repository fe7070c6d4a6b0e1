//! General purpose registers, by index and by ABI name.

use vstd::prelude::*;

verus! {

/// One of the 32 general purpose integer registers.
#[derive(Clone, Copy, Debug, PartialEq, Eq, Structural)]
pub enum GeneralRegister {
    X0,
    X1,
    X2,
    X3,
    X4,
    X5,
    X6,
    X7,
    X8,
    X9,
    X10,
    X11,
    X12,
    X13,
    X14,
    X15,
    X16,
    X17,
    X18,
    X19,
    X20,
    X21,
    X22,
    X23,
    X24,
    X25,
    X26,
    X27,
    X28,
    X29,
    X30,
    X31,
}

impl GeneralRegister {
    /// The register number, in `0..32`.
    pub open spec fn index_spec(self) -> nat {
        match self {
            GeneralRegister::X0 => 0,
            GeneralRegister::X1 => 1,
            GeneralRegister::X2 => 2,
            GeneralRegister::X3 => 3,
            GeneralRegister::X4 => 4,
            GeneralRegister::X5 => 5,
            GeneralRegister::X6 => 6,
            GeneralRegister::X7 => 7,
            GeneralRegister::X8 => 8,
            GeneralRegister::X9 => 9,
            GeneralRegister::X10 => 10,
            GeneralRegister::X11 => 11,
            GeneralRegister::X12 => 12,
            GeneralRegister::X13 => 13,
            GeneralRegister::X14 => 14,
            GeneralRegister::X15 => 15,
            GeneralRegister::X16 => 16,
            GeneralRegister::X17 => 17,
            GeneralRegister::X18 => 18,
            GeneralRegister::X19 => 19,
            GeneralRegister::X20 => 20,
            GeneralRegister::X21 => 21,
            GeneralRegister::X22 => 22,
            GeneralRegister::X23 => 23,
            GeneralRegister::X24 => 24,
            GeneralRegister::X25 => 25,
            GeneralRegister::X26 => 26,
            GeneralRegister::X27 => 27,
            GeneralRegister::X28 => 28,
            GeneralRegister::X29 => 29,
            GeneralRegister::X30 => 30,
            GeneralRegister::X31 => 31,
        }
    }

    /// Returns the register number.
    pub fn index(self) -> (r: usize)
        ensures
            r == self.index_spec(),
            r < 32,
    {
        match self {
            GeneralRegister::X0 => 0,
            GeneralRegister::X1 => 1,
            GeneralRegister::X2 => 2,
            GeneralRegister::X3 => 3,
            GeneralRegister::X4 => 4,
            GeneralRegister::X5 => 5,
            GeneralRegister::X6 => 6,
            GeneralRegister::X7 => 7,
            GeneralRegister::X8 => 8,
            GeneralRegister::X9 => 9,
            GeneralRegister::X10 => 10,
            GeneralRegister::X11 => 11,
            GeneralRegister::X12 => 12,
            GeneralRegister::X13 => 13,
            GeneralRegister::X14 => 14,
            GeneralRegister::X15 => 15,
            GeneralRegister::X16 => 16,
            GeneralRegister::X17 => 17,
            GeneralRegister::X18 => 18,
            GeneralRegister::X19 => 19,
            GeneralRegister::X20 => 20,
            GeneralRegister::X21 => 21,
            GeneralRegister::X22 => 22,
            GeneralRegister::X23 => 23,
            GeneralRegister::X24 => 24,
            GeneralRegister::X25 => 25,
            GeneralRegister::X26 => 26,
            GeneralRegister::X27 => 27,
            GeneralRegister::X28 => 28,
            GeneralRegister::X29 => 29,
            GeneralRegister::X30 => 30,
            GeneralRegister::X31 => 31,
        }
    }

    /// The register with number `i`, for `i < 32`.
    pub open spec fn from_index_spec(i: u64) -> GeneralRegister {
        if i == 0 {
            GeneralRegister::X0
        } else if i == 1 {
            GeneralRegister::X1
        } else if i == 2 {
            GeneralRegister::X2
        } else if i == 3 {
            GeneralRegister::X3
        } else if i == 4 {
            GeneralRegister::X4
        } else if i == 5 {
            GeneralRegister::X5
        } else if i == 6 {
            GeneralRegister::X6
        } else if i == 7 {
            GeneralRegister::X7
        } else if i == 8 {
            GeneralRegister::X8
        } else if i == 9 {
            GeneralRegister::X9
        } else if i == 10 {
            GeneralRegister::X10
        } else if i == 11 {
            GeneralRegister::X11
        } else if i == 12 {
            GeneralRegister::X12
        } else if i == 13 {
            GeneralRegister::X13
        } else if i == 14 {
            GeneralRegister::X14
        } else if i == 15 {
            GeneralRegister::X15
        } else if i == 16 {
            GeneralRegister::X16
        } else if i == 17 {
            GeneralRegister::X17
        } else if i == 18 {
            GeneralRegister::X18
        } else if i == 19 {
            GeneralRegister::X19
        } else if i == 20 {
            GeneralRegister::X20
        } else if i == 21 {
            GeneralRegister::X21
        } else if i == 22 {
            GeneralRegister::X22
        } else if i == 23 {
            GeneralRegister::X23
        } else if i == 24 {
            GeneralRegister::X24
        } else if i == 25 {
            GeneralRegister::X25
        } else if i == 26 {
            GeneralRegister::X26
        } else if i == 27 {
            GeneralRegister::X27
        } else if i == 28 {
            GeneralRegister::X28
        } else if i == 29 {
            GeneralRegister::X29
        } else if i == 30 {
            GeneralRegister::X30
        } else {
            GeneralRegister::X31
        }
    }

    /// Returns the register with the given number.
    pub fn from_index(i: u64) -> (r: GeneralRegister)
        requires
            i < 32,
        ensures
            r == Self::from_index_spec(i),
            r.index_spec() == i,
    {
        if i == 0 {
            GeneralRegister::X0
        } else if i == 1 {
            GeneralRegister::X1
        } else if i == 2 {
            GeneralRegister::X2
        } else if i == 3 {
            GeneralRegister::X3
        } else if i == 4 {
            GeneralRegister::X4
        } else if i == 5 {
            GeneralRegister::X5
        } else if i == 6 {
            GeneralRegister::X6
        } else if i == 7 {
            GeneralRegister::X7
        } else if i == 8 {
            GeneralRegister::X8
        } else if i == 9 {
            GeneralRegister::X9
        } else if i == 10 {
            GeneralRegister::X10
        } else if i == 11 {
            GeneralRegister::X11
        } else if i == 12 {
            GeneralRegister::X12
        } else if i == 13 {
            GeneralRegister::X13
        } else if i == 14 {
            GeneralRegister::X14
        } else if i == 15 {
            GeneralRegister::X15
        } else if i == 16 {
            GeneralRegister::X16
        } else if i == 17 {
            GeneralRegister::X17
        } else if i == 18 {
            GeneralRegister::X18
        } else if i == 19 {
            GeneralRegister::X19
        } else if i == 20 {
            GeneralRegister::X20
        } else if i == 21 {
            GeneralRegister::X21
        } else if i == 22 {
            GeneralRegister::X22
        } else if i == 23 {
            GeneralRegister::X23
        } else if i == 24 {
            GeneralRegister::X24
        } else if i == 25 {
            GeneralRegister::X25
        } else if i == 26 {
            GeneralRegister::X26
        } else if i == 27 {
            GeneralRegister::X27
        } else if i == 28 {
            GeneralRegister::X28
        } else if i == 29 {
            GeneralRegister::X29
        } else if i == 30 {
            GeneralRegister::X30
        } else {
            GeneralRegister::X31
        }
    }
}

pub const X0: GeneralRegister = GeneralRegister::X0;
pub const X1: GeneralRegister = GeneralRegister::X1;
pub const X2: GeneralRegister = GeneralRegister::X2;
pub const X3: GeneralRegister = GeneralRegister::X3;
pub const X4: GeneralRegister = GeneralRegister::X4;
pub const X5: GeneralRegister = GeneralRegister::X5;
pub const X6: GeneralRegister = GeneralRegister::X6;
pub const X7: GeneralRegister = GeneralRegister::X7;
pub const X8: GeneralRegister = GeneralRegister::X8;
pub const X9: GeneralRegister = GeneralRegister::X9;
pub const X10: GeneralRegister = GeneralRegister::X10;
pub const X11: GeneralRegister = GeneralRegister::X11;
pub const X12: GeneralRegister = GeneralRegister::X12;
pub const X13: GeneralRegister = GeneralRegister::X13;
pub const X14: GeneralRegister = GeneralRegister::X14;
pub const X15: GeneralRegister = GeneralRegister::X15;
pub const X16: GeneralRegister = GeneralRegister::X16;
pub const X17: GeneralRegister = GeneralRegister::X17;
pub const X18: GeneralRegister = GeneralRegister::X18;
pub const X19: GeneralRegister = GeneralRegister::X19;
pub const X20: GeneralRegister = GeneralRegister::X20;
pub const X21: GeneralRegister = GeneralRegister::X21;
pub const X22: GeneralRegister = GeneralRegister::X22;
pub const X23: GeneralRegister = GeneralRegister::X23;
pub const X24: GeneralRegister = GeneralRegister::X24;
pub const X25: GeneralRegister = GeneralRegister::X25;
pub const X26: GeneralRegister = GeneralRegister::X26;
pub const X27: GeneralRegister = GeneralRegister::X27;
pub const X28: GeneralRegister = GeneralRegister::X28;
pub const X29: GeneralRegister = GeneralRegister::X29;
pub const X30: GeneralRegister = GeneralRegister::X30;
pub const X31: GeneralRegister = GeneralRegister::X31;

pub const ZERO: GeneralRegister = GeneralRegister::X0;
pub const RA: GeneralRegister = GeneralRegister::X1;
pub const SP: GeneralRegister = GeneralRegister::X2;
pub const GP: GeneralRegister = GeneralRegister::X3;
pub const TP: GeneralRegister = GeneralRegister::X4;
pub const T0: GeneralRegister = GeneralRegister::X5;
pub const T1: GeneralRegister = GeneralRegister::X6;
pub const T2: GeneralRegister = GeneralRegister::X7;
pub const S0: GeneralRegister = GeneralRegister::X8;
pub const FP: GeneralRegister = GeneralRegister::X8;
pub const S1: GeneralRegister = GeneralRegister::X9;
pub const A0: GeneralRegister = GeneralRegister::X10;
pub const A1: GeneralRegister = GeneralRegister::X11;
pub const A2: GeneralRegister = GeneralRegister::X12;
pub const A3: GeneralRegister = GeneralRegister::X13;
pub const A4: GeneralRegister = GeneralRegister::X14;
pub const A5: GeneralRegister = GeneralRegister::X15;
pub const A6: GeneralRegister = GeneralRegister::X16;
pub const A7: GeneralRegister = GeneralRegister::X17;
pub const S2: GeneralRegister = GeneralRegister::X18;
pub const S3: GeneralRegister = GeneralRegister::X19;
pub const S4: GeneralRegister = GeneralRegister::X20;
pub const S5: GeneralRegister = GeneralRegister::X21;
pub const S6: GeneralRegister = GeneralRegister::X22;
pub const S7: GeneralRegister = GeneralRegister::X23;
pub const S8: GeneralRegister = GeneralRegister::X24;
pub const S9: GeneralRegister = GeneralRegister::X25;
pub const S10: GeneralRegister = GeneralRegister::X26;
pub const S11: GeneralRegister = GeneralRegister::X27;
pub const T3: GeneralRegister = GeneralRegister::X28;
pub const T4: GeneralRegister = GeneralRegister::X29;
pub const T5: GeneralRegister = GeneralRegister::X30;
pub const T6: GeneralRegister = GeneralRegister::X31;

} // verus!
