//! The processor status register: seven flags and their packing into a byte.

use vstd::prelude::*;

verus! {

/// The seven processor flags.
///
/// The flags are independent of one another; instructions change a
/// documented subset of them.
#[derive(Debug, Clone, Copy, PartialEq, Eq, Structural)]
pub struct StatusRegister {
    /// Carry.
    pub c: bool,
    /// Zero.
    pub z: bool,
    /// Interrupt disable.
    pub i: bool,
    /// Decimal mode.
    pub d: bool,
    /// Break command.
    pub b: bool,
    /// Overflow.
    pub v: bool,
    /// Negative.
    pub n: bool,
}

/// Weight of the carry bit in the packed byte.
pub const CARRY_BIT: u8 = 0x01;

/// Weight of the zero bit.
pub const ZERO_BIT: u8 = 0x02;

/// Weight of the interrupt-disable bit.
pub const INTERRUPT_BIT: u8 = 0x04;

/// Weight of the decimal-mode bit.
pub const DECIMAL_BIT: u8 = 0x08;

/// Weight of the break bit.
pub const BREAK_BIT: u8 = 0x10;

/// Weight of bit 5, which no flag uses and which is always written as one.
pub const UNUSED_BIT: u8 = 0x20;

/// Weight of the overflow bit.
pub const OVERFLOW_BIT: u8 = 0x40;

/// Weight of the negative bit.
pub const NEGATIVE_BIT: u8 = 0x80;

/// `weight` if `flag` is set, else zero.
pub open spec fn bit_value(flag: bool, weight: u8) -> int {
    if flag {
        weight as int
    } else {
        0
    }
}

impl StatusRegister {
    /// The byte that holds the flags in the order `N V 1 B D I Z C`, from
    /// bit 7 down to bit 0.
    #[verifier::opaque]
    pub open spec fn packed(self) -> u8 {
        (bit_value(self.n, NEGATIVE_BIT) + bit_value(self.v, OVERFLOW_BIT) + UNUSED_BIT
            + bit_value(self.b, BREAK_BIT) + bit_value(self.d, DECIMAL_BIT) + bit_value(
            self.i,
            INTERRUPT_BIT,
        ) + bit_value(self.z, ZERO_BIT) + bit_value(self.c, CARRY_BIT)) as u8
    }

    /// The flags held by `byte`; bit 5 is ignored.
    #[verifier::opaque]
    pub open spec fn unpacked(byte: u8) -> StatusRegister {
        StatusRegister {
            c: byte % 2 == 1,
            z: (byte / 2) % 2 == 1,
            i: (byte / 4) % 2 == 1,
            d: (byte / 8) % 2 == 1,
            b: (byte / 16) % 2 == 1,
            v: (byte / 64) % 2 == 1,
            n: (byte / 128) % 2 == 1,
        }
    }

    /// All flags clear.
    pub fn new() -> (s: StatusRegister)
        ensures
            !s.c && !s.z && !s.i && !s.d && !s.b && !s.v && !s.n,
    {
        StatusRegister { c: false, z: false, i: false, d: false, b: false, v: false, n: false }
    }

    /// Packs the flags into one byte, bit 5 set.
    pub fn to_byte(&self) -> (byte: u8)
        ensures
            byte == self.packed(),
    {
        proof {
            reveal(StatusRegister::packed);
        }
        let mut byte: u8 = UNUSED_BIT;
        if self.c {
            byte = byte + CARRY_BIT;
        }
        if self.z {
            byte = byte + ZERO_BIT;
        }
        if self.i {
            byte = byte + INTERRUPT_BIT;
        }
        if self.d {
            byte = byte + DECIMAL_BIT;
        }
        if self.b {
            byte = byte + BREAK_BIT;
        }
        if self.v {
            byte = byte + OVERFLOW_BIT;
        }
        if self.n {
            byte = byte + NEGATIVE_BIT;
        }
        byte
    }

    /// Reads the flags out of a byte, ignoring bit 5.
    pub fn from_byte(byte: u8) -> (s: StatusRegister)
        ensures
            s == StatusRegister::unpacked(byte),
    {
        proof {
            reveal(StatusRegister::unpacked);
            lemma_masks(byte);
        }
        StatusRegister {
            c: byte & CARRY_BIT != 0,
            z: byte & ZERO_BIT != 0,
            i: byte & INTERRUPT_BIT != 0,
            d: byte & DECIMAL_BIT != 0,
            b: byte & BREAK_BIT != 0,
            v: byte & OVERFLOW_BIT != 0,
            n: byte & NEGATIVE_BIT != 0,
        }
    }
}

/// Testing a bit with a mask is testing a binary digit.
pub proof fn lemma_masks(byte: u8)
    ensures
        (byte & 0x01 != 0) <==> byte % 2 == 1,
        (byte & 0x02 != 0) <==> (byte / 2) % 2 == 1,
        (byte & 0x04 != 0) <==> (byte / 4) % 2 == 1,
        (byte & 0x08 != 0) <==> (byte / 8) % 2 == 1,
        (byte & 0x10 != 0) <==> (byte / 16) % 2 == 1,
        (byte & 0x20 != 0) <==> (byte / 32) % 2 == 1,
        (byte & 0x40 != 0) <==> (byte / 64) % 2 == 1,
        (byte & 0x80 != 0) <==> (byte / 128) % 2 == 1,
{
    assert(((byte & 0x01 != 0) <==> byte % 2 == 1) && ((byte & 0x02 != 0) <==> (byte / 2) % 2 == 1)
        && ((byte & 0x04 != 0) <==> (byte / 4) % 2 == 1) && ((byte & 0x08 != 0) <==> (byte / 8) % 2
        == 1) && ((byte & 0x10 != 0) <==> (byte / 16) % 2 == 1) && ((byte & 0x20 != 0) <==> (byte
        / 32) % 2 == 1) && ((byte & 0x40 != 0) <==> (byte / 64) % 2 == 1) && ((byte & 0x80 != 0)
        <==> (byte / 128) % 2 == 1)) by (bit_vector);
}

/// Unpacking a packed register gives the register back.
pub proof fn lemma_unpack_packed(s: StatusRegister)
    ensures
        StatusRegister::unpacked(s.packed()) == s,
        (s.packed() / 32) % 2 == 1,
{
    reveal(StatusRegister::packed);
    reveal(StatusRegister::unpacked);
}

/// Packing an unpacked byte gives the byte back with bit 5 set.
pub proof fn lemma_pack_unpacked(byte: u8)
    ensures
        StatusRegister::unpacked(byte).packed() == byte | 0x20,
{
    reveal(StatusRegister::unpacked);
    let p = StatusRegister::unpacked(byte).packed();
    lemma_masks(byte);
    lemma_masks(p);
    lemma_unpack_packed(StatusRegister::unpacked(byte));
    assert(p == byte | 0x20) by (bit_vector)
        requires
            (p & 0x01 != 0) <==> (byte & 0x01 != 0),
            (p & 0x02 != 0) <==> (byte & 0x02 != 0),
            (p & 0x04 != 0) <==> (byte & 0x04 != 0),
            (p & 0x08 != 0) <==> (byte & 0x08 != 0),
            (p & 0x10 != 0) <==> (byte & 0x10 != 0),
            p & 0x20 != 0,
            (p & 0x40 != 0) <==> (byte & 0x40 != 0),
            (p & 0x80 != 0) <==> (byte & 0x80 != 0),
    ;
}

} // verus!
