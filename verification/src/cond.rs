//! The 8080 flag register: Zero, Sign, Parity, Carry and Auxiliary Carry,
//! their derivation rules from an 8-bit result, and the pack/unpack
//! conversion to the one-byte processor status word used by PUSH/POP PSW.

use vstd::prelude::*;

verus! {

/// The five condition-code flags of the 8080.
#[derive(Clone, Copy, Debug, PartialEq, Eq, Structural)]
pub struct ConditionCodes {
    /// Zero: the last defining result was 0.
    pub z: bool,
    /// Sign: bit 7 of the last defining result was set.
    pub s: bool,
    /// Parity: the last defining result had an even number of set bits.
    pub p: bool,
    /// Carry: arithmetic carry or borrow out of the last defining operation.
    pub cy: bool,
    /// Auxiliary carry: carry or borrow out of the low nibble.
    pub ac: bool,
}

/// The number of set bits in a byte.
pub open spec fn spec_ones(v: u8) -> int {
    v % 2 + v / 2 % 2 + v / 4 % 2 + v / 8 % 2
        + v / 16 % 2 + v / 32 % 2 + v / 64 % 2 + v / 128 % 2
}

/// Even parity of a byte: true when the number of set bits is even.
pub open spec fn spec_parity(v: u8) -> bool {
    spec_ones(v) % 2 == 0
}

/// The sign flag of a result byte: its bit 7 is set.
pub open spec fn spec_sign(v: u8) -> bool {
    v >= 0x80
}

/// The one-byte processor status word for a set of flags, in the 8080
/// layout: bit 7 = S, bit 6 = Z, bit 4 = AC, bit 2 = P, bit 0 = CY,
/// with bit 1 fixed at one and bits 5 and 3 fixed at zero.
pub open spec fn spec_serialize(cc: ConditionCodes) -> u8 {
    ((if cc.s { 128int } else { 0int })
        + (if cc.z { 64int } else { 0int })
        + (if cc.ac { 16int } else { 0int })
        + (if cc.p { 4int } else { 0int })
        + 2
        + (if cc.cy { 1int } else { 0int })) as u8
}

/// The flags read back out of a processor status word byte.
pub open spec fn spec_deserialize(b: u8) -> ConditionCodes {
    ConditionCodes {
        z: b / 64 % 2 == 1,
        s: b / 128 % 2 == 1,
        p: b / 4 % 2 == 1,
        cy: b % 2 == 1,
        ac: b / 16 % 2 == 1,
    }
}

impl ConditionCodes {
    /// All five flags cleared.
    pub fn new() -> (r: ConditionCodes)
        ensures
            r == (ConditionCodes { z: false, s: false, p: false, cy: false, ac: false }),
    {
        ConditionCodes { z: false, s: false, p: false, cy: false, ac: false }
    }

    /// Sets the Zero flag from a result byte: Z iff the byte is 0.
    pub fn set_z(&mut self, value: u8)
        ensures
            *final(self) == (ConditionCodes { z: value == 0, ..*old(self) }),
    {
        self.z = value == 0;
    }

    /// Sets the Sign flag from a result byte: S iff its bit 7 is set.
    pub fn set_s(&mut self, value: u8)
        ensures
            *final(self) == (ConditionCodes { s: spec_sign(value), ..*old(self) }),
    {
        self.s = value >= 0x80;
    }

    /// Sets the Parity flag from a result byte: P iff it has an even
    /// number of set bits.
    pub fn set_p(&mut self, value: u8)
        ensures
            *final(self) == (ConditionCodes { p: spec_parity(value), ..*old(self) }),
    {
        let ones: u8 = value % 2 + value / 2 % 2 + value / 4 % 2 + value / 8 % 2
            + value / 16 % 2 + value / 32 % 2 + value / 64 % 2 + value / 128 % 2;
        self.p = ones % 2 == 0;
    }

    /// Packs the five flags into the one-byte processor status word.
    pub fn serialize(&self) -> (r: u8)
        ensures
            r == spec_serialize(*self),
    {
        let mut b: u8 = 2;
        if self.s {
            b = b + 128;
        }
        if self.z {
            b = b + 64;
        }
        if self.ac {
            b = b + 16;
        }
        if self.p {
            b = b + 4;
        }
        if self.cy {
            b = b + 1;
        }
        b
    }

    /// Unpacks a processor status word byte into the five flags.
    pub fn deserialize(&mut self, b: u8)
        ensures
            *final(self) == spec_deserialize(b),
    {
        self.z = b / 64 % 2 == 1;
        self.s = b / 128 % 2 == 1;
        self.p = b / 4 % 2 == 1;
        self.cy = b % 2 == 1;
        self.ac = b / 16 % 2 == 1;
    }
}

/// Law: unpacking the packed processor status word reproduces every flag,
/// for any combination of the five flags.
pub proof fn lemma_psw_round_trip(cc: ConditionCodes)
    ensures
        spec_deserialize(spec_serialize(cc)) == cc,
{
}

} // verus!
