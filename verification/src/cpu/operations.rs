//! The effect of each operation on registers and flags.

use vstd::prelude::*;
use crate::alu;
use crate::bits::{lemma_wrap8, minus8, plus8, sign_bit};
use crate::cpu::CPU;
use crate::instruction::{AddressingMode, Operation};
use crate::memory::Memory;
use crate::model::{
    add_to_a, bit_test, branch_taken, compare_with, load_a, load_x, load_y,
    modify_effect, register_effect, subtract_from_a, CpuState,
};
use crate::register::StatusRegister;

verus! {

impl CPU {
    /// Sets the zero and negative flags from `value`.
    pub fn set_zero_negative(&mut self, value: u8)
        ensures
            final(self)@ == (CpuState {
                status: StatusRegister {
                    z: value == 0,
                    n: sign_bit(value),
                    ..old(self)@.status
                },
                ..old(self)@
            }),
    {
        self.status.z = value == 0;
        self.status.n = value & 0x80 != 0;
    }

    /// LDA: loads the accumulator. Zero is set exactly when the value is
    /// zero, negative exactly when its bit 7 is set; carry and overflow,
    /// like every other flag, stay as they are.
    pub fn lda(&mut self, value: u8)
        ensures
            final(self)@ == load_a(old(self)@, value),
            final(self)@.a == value,
            final(self)@.status.z <==> value == 0,
            final(self)@.status.n <==> value & 0x80 != 0,
            final(self)@.status.c == old(self)@.status.c,
            final(self)@.status.v == old(self)@.status.v,
    {
        self.a = value;
        self.set_zero_negative(value);
    }

    /// LDX: loads X; zero and negative follow the value.
    pub fn ldx(&mut self, value: u8)
        ensures
            final(self)@ == load_x(old(self)@, value),
    {
        self.x = value;
        self.set_zero_negative(value);
    }

    /// LDY: loads Y; zero and negative follow the value.
    pub fn ldy(&mut self, value: u8)
        ensures
            final(self)@ == load_y(old(self)@, value),
    {
        self.y = value;
        self.set_zero_negative(value);
    }

    /// ADC: adds `value` and the carry to the accumulator.
    ///
    /// With the decimal flag clear the accumulator becomes the sum modulo
    /// 256, carry is set exactly when the sum passes 255, and overflow is
    /// set exactly when the operands agree in sign and the result does
    /// not. With the decimal flag set the addition is made digit by digit
    /// in binary-coded decimal. Zero and negative follow the new
    /// accumulator either way.
    pub fn adc(&mut self, value: u8)
        ensures
            final(self)@ == add_to_a(old(self)@, value),
            !old(self)@.status.d ==> {
                let sum = old(self)@.a + value + alu::carry_value(old(self)@.status.c);
                &&& final(self)@.a == sum % 0x100
                &&& final(self)@.status.c <==> sum > 0xFF
                &&& final(self)@.status.v <==> ((old(self)@.a ^ value) & 0x80 == 0 && (old(self)@.a
                    ^ final(self)@.a) & 0x80 != 0)
            },
    {
        proof {
            alu::lemma_add_binary(self@.a, value, self@.status.c);
        }
        let sum = alu::adc(self.a, value, self.status.c, self.status.d);
        self.a = sum.value;
        self.status.c = sum.carry;
        self.status.v = sum.overflow;
        self.set_zero_negative(sum.value);
    }

    /// SBC: subtracts `value` and the borrow, which is the inverted carry,
    /// from the accumulator.
    ///
    /// With the decimal flag clear this is ADC of the operand's complement.
    /// With the decimal flag set the subtraction is made digit by digit in
    /// binary-coded decimal, and carry and overflow are still those of the
    /// binary subtraction.
    pub fn sbc(&mut self, value: u8)
        ensures
            final(self)@ == subtract_from_a(old(self)@, value),
            !old(self)@.status.d ==> final(self)@ == add_to_a(
                old(self)@,
                alu::complement(value),
            ),
    {
        let sum = alu::sbc(self.a, value, self.status.c, self.status.d);
        self.a = sum.value;
        self.status.c = sum.carry;
        self.status.v = sum.overflow;
        self.set_zero_negative(sum.value);
    }

    /// AND: the accumulator becomes its bitwise AND with `value`; zero and
    /// negative follow it.
    pub fn and(&mut self, value: u8)
        ensures
            final(self)@ == load_a(old(self)@, old(self)@.a & value),
    {
        self.lda(self.a & value);
    }

    /// ORA: the accumulator becomes its bitwise OR with `value`; zero and
    /// negative follow it.
    pub fn ora(&mut self, value: u8)
        ensures
            final(self)@ == load_a(old(self)@, old(self)@.a | value),
    {
        self.lda(self.a | value);
    }

    /// EOR: the accumulator becomes its bitwise exclusive OR with `value`;
    /// zero and negative follow it.
    pub fn eor(&mut self, value: u8)
        ensures
            final(self)@ == load_a(old(self)@, old(self)@.a ^ value),
    {
        self.lda(self.a ^ value);
    }

    /// BIT: zero is set when the accumulator and `value` share no bit;
    /// negative and overflow become bits 7 and 6 of `value`.
    pub fn bit(&mut self, value: u8)
        ensures
            final(self)@ == bit_test(old(self)@, value),
    {
        self.status.z = self.a & value == 0;
        self.status.n = value & 0x80 != 0;
        self.status.v = value & 0x40 != 0;
    }

    /// Compares `register` with `value`, as the three compare instructions
    /// do with A, X and Y: carry is set when the register is not less,
    /// zero and negative follow the difference modulo 256.
    pub fn compare(&mut self, register: u8, value: u8)
        ensures
            final(self)@ == compare_with(old(self)@, register, value),
            final(self)@.status.c <==> register >= value,
            final(self)@.status.z <==> register == value,
    {
        proof {
            lemma_wrap8(register - value);
        }
        let r = alu::compare_bytes(register, value);
        self.status.c = r.carry;
        self.set_zero_negative(r.value);
    }

    /// The shifts, the rotates, INC and DEC: reads the accumulator or the
    /// byte at `address`, changes it, and writes it back where it came
    /// from. Carry takes the bit shifted out and is left alone by INC and
    /// DEC; zero and negative follow the new byte.
    pub fn modify(
        &mut self,
        operation: Operation,
        mode: AddressingMode,
        address: u16,
        memory: &mut Memory,
    )
        ensures
            final(self)@ == modify_effect(operation, mode, old(self)@, old(memory)@, address).cpu,
            final(memory)@ == modify_effect(operation, mode, old(self)@, old(memory)@, address).mem,
    {
        let value = self.operand(mode, address, memory);
        let r = alu::modify(operation, value, self.status.c);
        self.status.c = r.carry;
        self.set_zero_negative(r.value);
        match mode {
            AddressingMode::Accumulator => {
                self.a = r.value;
            },
            _ => {
                memory.write(address, r.value);
            },
        }
    }

    /// Carries out an operation that changes registers and flags only.
    /// `value` is the operand read; operations that take none ignore it.
    /// Operations that touch memory or the program counter do nothing
    /// here.
    pub fn operate(&mut self, operation: Operation, value: u8)
        ensures
            final(self)@ == register_effect(operation, old(self)@, value),
    {
        proof {
            reveal(register_effect);
        }
        match operation {
            Operation::Lda => self.lda(value),
            Operation::Ldx => self.ldx(value),
            Operation::Ldy => self.ldy(value),
            Operation::Adc => self.adc(value),
            Operation::Sbc => self.sbc(value),
            Operation::And => self.and(value),
            Operation::Ora => self.ora(value),
            Operation::Eor => self.eor(value),
            Operation::Bit => self.bit(value),
            Operation::Cpa => self.compare(self.a, value),
            Operation::Cpx => self.compare(self.x, value),
            Operation::Cpy => self.compare(self.y, value),
            Operation::Tax => self.ldx(self.a),
            Operation::Tay => self.ldy(self.a),
            Operation::Txa => self.lda(self.x),
            Operation::Tya => self.lda(self.y),
            Operation::Tsx => self.ldx(self.sp),
            Operation::Txs => {
                self.sp = self.x;
            },
            Operation::Inx => self.ldx(plus8(self.x, 1)),
            Operation::Iny => self.ldy(plus8(self.y, 1)),
            Operation::Dex => self.ldx(minus8(self.x, 1)),
            Operation::Dey => self.ldy(minus8(self.y, 1)),
            Operation::Clc => {
                self.status.c = false;
            },
            Operation::Sec => {
                self.status.c = true;
            },
            Operation::Cli => {
                self.status.i = false;
            },
            Operation::Sei => {
                self.status.i = true;
            },
            Operation::Cld => {
                self.status.d = false;
            },
            Operation::Sed => {
                self.status.d = true;
            },
            Operation::Clv => {
                self.status.v = false;
            },
            _ => {},
        }
    }

    /// Whether the branch `operation` is taken with the flags as they are.
    pub fn branch_condition(&self, operation: Operation) -> (taken: bool)
        ensures
            taken == branch_taken(operation, self@.status),
    {
        match operation {
            Operation::Bcc => !self.status.c,
            Operation::Bcs => self.status.c,
            Operation::Bne => !self.status.z,
            Operation::Beq => self.status.z,
            Operation::Bpl => !self.status.n,
            Operation::Bmi => self.status.n,
            Operation::Bvc => !self.status.v,
            Operation::Bvs => self.status.v,
            _ => false,
        }
    }
}

} // verus!
