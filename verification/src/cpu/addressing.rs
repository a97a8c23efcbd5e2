//! Resolving the operand of an instruction to an address.
//!
//! Every resolver expects the program counter at the first operand byte
//! and leaves it there.

use vstd::prelude::*;
use crate::bits::{
    high, high_byte, lemma_join_bytes, lemma_wrap16, lemma_wrap16_sum, lemma_wrap8, low,
    low_byte, make_word, plus16, plus8, plus_signed, signed, wrap8,
};
use crate::cpu::CPU;
use crate::instruction::AddressingMode;
use crate::memory::Memory;
use crate::model::{
    effective_address, indirect_word_at, operand_value, page_crossed, word_at, zero_page_word_at,
};

verus! {

impl CPU {
    /// Reads the little-endian word at `at`; the high byte comes from the
    /// next address, wrapping at the end of memory.
    pub fn read_word(&self, memory: &Memory, at: u16) -> (w: u16)
        ensures
            w == word_at(memory@, at),
    {
        let lo = memory.read(at);
        let hi = memory.read(plus16(at, 1));
        make_word(lo, hi)
    }

    /// Reads the little-endian word in page zero at `at`; the high byte
    /// comes from the next address within page zero.
    pub fn read_zero_page_word(&self, memory: &Memory, at: u8) -> (w: u16)
        ensures
            w == zero_page_word_at(memory@, at),
    {
        let lo = memory.read(at as u16);
        let hi = memory.read(plus8(at, 1) as u16);
        make_word(lo, hi)
    }

    /// The operand at `address`: the accumulator in the accumulator mode,
    /// else the byte that memory holds there.
    pub fn operand(&self, mode: AddressingMode, address: u16, memory: &Memory) -> (value: u8)
        ensures
            value == operand_value(mode, self@, memory@, address),
    {
        match mode {
            AddressingMode::Accumulator => self.a,
            _ => memory.read(address),
        }
    }

    /// Zero page: the operand byte is the address.
    pub fn zero_page_addr(&self, memory: &Memory) -> (address: u16)
        ensures
            address == effective_address(AddressingMode::ZeroPage, self@, memory@),
            address == memory@[self@.pc as int],
    {
        memory.read(self.pc) as u16
    }

    /// Zero page indexed by X: operand byte plus X, wrapping within page zero.
    pub fn zero_page_x_addr(&self, memory: &Memory) -> (address: u16)
        ensures
            address == effective_address(AddressingMode::ZeroPageX, self@, memory@),
            address == (memory@[self@.pc as int] + self@.x) % 0x100,
    {
        proof {
            lemma_wrap8(memory@[self@.pc as int] + self@.x);
        }
        plus8(memory.read(self.pc), self.x) as u16
    }

    /// Zero page indexed by Y: operand byte plus Y, wrapping within page zero.
    pub fn zero_page_y_addr(&self, memory: &Memory) -> (address: u16)
        ensures
            address == effective_address(AddressingMode::ZeroPageY, self@, memory@),
            address == (memory@[self@.pc as int] + self@.y) % 0x100,
    {
        proof {
            lemma_wrap8(memory@[self@.pc as int] + self@.y);
        }
        plus8(memory.read(self.pc), self.y) as u16
    }

    /// Absolute: the two operand bytes, low byte first, are the address.
    pub fn absolute_addr(&self, memory: &Memory) -> (address: u16)
        ensures
            address == effective_address(AddressingMode::Absolute, self@, memory@),
            address == word_at(memory@, self@.pc),
    {
        self.read_word(memory, self.pc)
    }

    /// Absolute indexed by X: the absolute address plus X, wrapping at the
    /// end of memory.
    pub fn absolute_x_addr(&self, memory: &Memory) -> (address: u16)
        ensures
            address == effective_address(AddressingMode::AbsoluteX, self@, memory@),
            address == (word_at(memory@, self@.pc) + self@.x) % 0x1_0000,
    {
        proof {
            lemma_wrap16(word_at(memory@, self@.pc) + self@.x);
        }
        plus16(self.absolute_addr(memory), self.x as u16)
    }

    /// Absolute indexed by Y: the absolute address plus Y, wrapping at the
    /// end of memory.
    pub fn absolute_y_addr(&self, memory: &Memory) -> (address: u16)
        ensures
            address == effective_address(AddressingMode::AbsoluteY, self@, memory@),
            address == (word_at(memory@, self@.pc) + self@.y) % 0x1_0000,
    {
        proof {
            lemma_wrap16(word_at(memory@, self@.pc) + self@.y);
        }
        plus16(self.absolute_addr(memory), self.y as u16)
    }

    /// Indirect: the operand is a pointer to the address. The high byte of
    /// the address is fetched from the pointer's own page: for a pointer
    /// `0x02FF` it comes from `0x0200`, not from `0x0300`.
    pub fn indirect_addr(&self, memory: &Memory) -> (address: u16)
        ensures
            address == effective_address(AddressingMode::Indirect, self@, memory@),
            address == indirect_word_at(memory@, word_at(memory@, self@.pc)),
    {
        let pointer = self.absolute_addr(memory);
        proof {
            lemma_join_bytes(wrap8(low_byte(pointer) + 1), high_byte(pointer));
        }
        let lo = memory.read(pointer);
        let hi = memory.read(make_word(plus8(low(pointer), 1), high(pointer)));
        make_word(lo, hi)
    }

    /// Indexed indirect: operand byte plus X, wrapping within page zero,
    /// points at the address, which is read from page zero alone.
    pub fn indirect_x_addr(&self, memory: &Memory) -> (address: u16)
        ensures
            address == effective_address(AddressingMode::IndexedIndirect, self@, memory@),
            address == zero_page_word_at(memory@, wrap8(memory@[self@.pc as int] + self@.x)),
    {
        let pointer = plus8(memory.read(self.pc), self.x);
        self.read_zero_page_word(memory, pointer)
    }

    /// Indirect indexed: the operand byte points, in page zero, at a base
    /// address; Y is added to the whole 16-bit base.
    pub fn indirect_y_addr(&self, memory: &Memory) -> (address: u16)
        ensures
            address == effective_address(AddressingMode::IndirectIndexed, self@, memory@),
            address == (zero_page_word_at(memory@, memory@[self@.pc as int]) + self@.y)
                % 0x1_0000,
    {
        let pointer = memory.read(self.pc);
        proof {
            lemma_wrap16(zero_page_word_at(memory@, memory@[self@.pc as int]) + self@.y);
        }
        plus16(self.read_zero_page_word(memory, pointer), self.y as u16)
    }

    /// Relative: the operand byte, read as a signed number, is added to
    /// the address of the instruction that follows the branch.
    pub fn relative_addr(&self, memory: &Memory) -> (address: u16)
        ensures
            address == effective_address(AddressingMode::Relative, self@, memory@),
            address == (self@.pc + 1 + signed(memory@[self@.pc as int])) % 0x1_0000,
    {
        let offset = memory.read(self.pc);
        proof {
            lemma_wrap16_sum(self@.pc + 1, signed(offset));
            lemma_wrap16(self@.pc + 1 + signed(offset));
        }
        plus_signed(plus16(self.pc, 1), offset)
    }

    /// Resolves the operand in `mode` to its effective address, and tells
    /// whether a page boundary was crossed on the way.
    ///
    /// For the immediate mode the address is that of the operand byte. The
    /// modes without an operand give `0`.
    pub fn resolve(&self, mode: AddressingMode, memory: &Memory) -> (r: (u16, bool))
        ensures
            r.0 == effective_address(mode, self@, memory@),
            r.1 == page_crossed(mode, self@, memory@),
    {
        match mode {
            AddressingMode::Implied | AddressingMode::Accumulator => (0, false),
            AddressingMode::Immediate => (self.pc, false),
            AddressingMode::ZeroPage => (self.zero_page_addr(memory), false),
            AddressingMode::ZeroPageX => (self.zero_page_x_addr(memory), false),
            AddressingMode::ZeroPageY => (self.zero_page_y_addr(memory), false),
            AddressingMode::Absolute => (self.absolute_addr(memory), false),
            AddressingMode::AbsoluteX => {
                let address = self.absolute_x_addr(memory);
                (address, high(self.absolute_addr(memory)) != high(address))
            },
            AddressingMode::AbsoluteY => {
                let address = self.absolute_y_addr(memory);
                (address, high(self.absolute_addr(memory)) != high(address))
            },
            AddressingMode::Indirect => (self.indirect_addr(memory), false),
            AddressingMode::IndexedIndirect => (self.indirect_x_addr(memory), false),
            AddressingMode::IndirectIndexed => {
                let address = self.indirect_y_addr(memory);
                let base = self.read_zero_page_word(memory, memory.read(self.pc));
                (address, high(base) != high(address))
            },
            AddressingMode::Relative => {
                let address = self.relative_addr(memory);
                (address, high(plus16(self.pc, 1)) != high(address))
            },
        }
    }
}

} // verus!
