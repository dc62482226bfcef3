//! The processor's status flags.
use vstd::prelude::*;

verus! {

/// The six flags.
#[derive(Clone, Copy, Debug, PartialEq, Eq, Structural)]
pub struct Status {
    pub negative: bool,
    pub overflow: bool,
    pub decimal: bool,
    pub interrupt: bool,
    pub zero: bool,
    pub carry: bool,
}

impl Status {
    /// The flags after a reset: interrupts disabled, all else clear.
    pub open spec fn init() -> Status {
        Status {
            negative: false,
            overflow: false,
            decimal: false,
            interrupt: true,
            zero: false,
            carry: false,
        }
    }

    /// The flags as a byte: N, V, 1, 0, D, I, Z, C from bit 7 down. Bit 5 is
    /// always set and the break bit is left clear.
    pub open spec fn bits(self) -> u8 {
        (if self.negative { 0x80u8 } else { 0u8 }) | (if self.overflow { 0x40u8 } else { 0u8 })
            | 0x20u8 | (if self.decimal { 0x08u8 } else { 0u8 }) | (if self.interrupt {
            0x04u8
        } else {
            0u8
        }) | (if self.zero { 0x02u8 } else { 0u8 }) | (if self.carry { 0x01u8 } else { 0u8 })
    }

    /// The flags that a byte spells; bits 4 and 5 stand for no flag.
    pub open spec fn from_bits(value: u8) -> Status {
        Status {
            negative: (value & 0x80) != 0,
            overflow: (value & 0x40) != 0,
            decimal: (value & 0x08) != 0,
            interrupt: (value & 0x04) != 0,
            zero: (value & 0x02) != 0,
            carry: (value & 0x01) != 0,
        }
    }

    /// The flags with N and Z set from a result: N is its bit 7, Z says
    /// whether it is zero.
    pub open spec fn with_nz(self, value: u8) -> Status {
        Status { negative: (value & 0x80) != 0, zero: value == 0, ..self }
    }

    /// The flags after a reset.
    pub fn new() -> (r: Status)
        ensures
            r == Status::init(),
    {
        Status {
            negative: false,
            overflow: false,
            decimal: false,
            interrupt: true,
            zero: false,
            carry: false,
        }
    }

    /// The flags as a byte, with bit 5 set and the break bit clear.
    pub fn read(&self) -> (r: u8)
        ensures
            r == self.bits(),
    {
        let negative: u8 = if self.negative { 0x80 } else { 0 };
        let overflow: u8 = if self.overflow { 0x40 } else { 0 };
        let decimal: u8 = if self.decimal { 0x08 } else { 0 };
        let interrupt: u8 = if self.interrupt { 0x04 } else { 0 };
        let zero: u8 = if self.zero { 0x02 } else { 0 };
        let carry: u8 = if self.carry { 0x01 } else { 0 };
        negative | overflow | 0x20 | decimal | interrupt | zero | carry
    }

    /// Takes the flags from a byte.
    pub fn write(&mut self, value: u8)
        ensures
            *final(self) == Status::from_bits(value),
    {
        self.negative = (value & 0x80) != 0;
        self.overflow = (value & 0x40) != 0;
        self.decimal = (value & 0x08) != 0;
        self.interrupt = (value & 0x04) != 0;
        self.zero = (value & 0x02) != 0;
        self.carry = (value & 0x01) != 0;
    }
}

/// Writing back the byte that the flags read as gives the same flags.
pub proof fn lemma_status_round_trip(p: Status)
    ensures
        Status::from_bits(p.bits()) == p,
        p.bits() & 0x30 == 0x20,
{
    let n: u8 = if p.negative { 0x80 } else { 0 };
    let v: u8 = if p.overflow { 0x40 } else { 0 };
    let d: u8 = if p.decimal { 0x08 } else { 0 };
    let i: u8 = if p.interrupt { 0x04 } else { 0 };
    let z: u8 = if p.zero { 0x02 } else { 0 };
    let c: u8 = if p.carry { 0x01 } else { 0 };
    assert({
        let b = n | v | 0x20u8 | d | i | z | c;
        &&& ((b & 0x80) != 0) == (n == 0x80)
        &&& ((b & 0x40) != 0) == (v == 0x40)
        &&& ((b & 0x08) != 0) == (d == 0x08)
        &&& ((b & 0x04) != 0) == (i == 0x04)
        &&& ((b & 0x02) != 0) == (z == 0x02)
        &&& ((b & 0x01) != 0) == (c == 0x01)
        &&& b & 0x30 == 0x20
    }) by (bit_vector)
        requires
            n == 0x80 || n == 0,
            v == 0x40 || v == 0,
            d == 0x08 || d == 0,
            i == 0x04 || i == 0,
            z == 0x02 || z == 0,
            c == 0x01 || c == 0,
    ;
}

} // verus!
