//! The stack in page one, and entering and leaving interrupt handlers.

use vstd::prelude::*;
use crate::bits::{
    high, lemma_wrap8_sum, low, make_word, minus16, minus8, plus16, plus8, wrap16, wrap8,
};
use crate::cpu::CPU;
use crate::instruction::Operation;
use crate::laws::lemma_push_pull;
use crate::memory::Memory;
use crate::model::{
    after_pull, after_push, control_effect, interrupt_entry, interrupt_stack,
    return_from_interrupt, return_from_subroutine, stack_after_push, stack_top, subroutine_stack,
    CpuState, IRQ_VECTOR, STACK_BASE,
};
use crate::register::StatusRegister;

verus! {

impl CPU {
    /// Pushes a byte: stores it where the stack pointer points, then
    /// lowers the stack pointer, which wraps within the stack page. The
    /// byte is then on top of the stack: the next pull returns it.
    pub fn push(&mut self, memory: &mut Memory, value: u8)
        ensures
            final(self)@ == after_push(old(self)@),
            final(memory)@ == stack_after_push(old(self)@, old(memory)@, value),
            stack_top(final(self)@, final(memory)@) == value,
    {
        proof {
            memory.lemma_size();
            lemma_push_pull(self@, memory@, value);
        }
        memory.write(STACK_BASE + self.sp as u16, value);
        self.sp = minus8(self.sp, 1);
    }

    /// Pulls a byte: raises the stack pointer, which wraps within the
    /// stack page, then reads where it points.
    pub fn pull(&mut self, memory: &Memory) -> (value: u8)
        ensures
            final(self)@ == after_pull(old(self)@),
            value == stack_top(old(self)@, memory@),
    {
        self.sp = plus8(self.sp, 1);
        memory.read(STACK_BASE + self.sp as u16)
    }

    /// Enters an interrupt handler: sets the break flag, pushes the high
    /// and the low byte of `return_to` and then the flags, sets the
    /// interrupt-disable flag, and loads the program counter from
    /// `vector`.
    pub fn interrupt(&mut self, memory: &mut Memory, return_to: u16, vector: u16)
        ensures
            final(self)@ == interrupt_entry(old(self)@, old(memory)@, return_to, vector),
            final(memory)@ == interrupt_stack(old(self)@, old(memory)@, return_to),
            final(self)@.status.b && final(self)@.status.i,
    {
        proof {
            lemma_wrap8_sum(old(self)@.sp - 1, -1);
            lemma_wrap8_sum(old(self)@.sp - 2, -1);
        }
        self.status.b = true;
        self.push(memory, high(return_to));
        self.push(memory, low(return_to));
        self.push(memory, self.status.to_byte());
        self.status.i = true;
        self.pc = self.read_word(memory, vector);
    }

    /// RTI: pulls the flags, break included, then the program counter, low
    /// byte first.
    pub fn rti(&mut self, memory: &Memory)
        ensures
            final(self)@ == return_from_interrupt(old(self)@, memory@),
    {
        proof {
            lemma_wrap8_sum(old(self)@.sp + 1, 1);
            lemma_wrap8_sum(old(self)@.sp + 2, 1);
        }
        let flags = self.pull(memory);
        self.status = StatusRegister::from_byte(flags);
        let lo = self.pull(memory);
        let hi = self.pull(memory);
        self.pc = make_word(lo, hi);
    }

    /// JSR: pushes the address of the last byte of the instruction, high
    /// byte first, and continues at `target`. The program counter must be
    /// at the instruction that follows.
    pub fn jsr(&mut self, memory: &mut Memory, target: u16)
        ensures
            final(self)@ == (CpuState {
                pc: target,
                sp: wrap8(old(self)@.sp - 2),
                ..old(self)@
            }),
            final(memory)@ == subroutine_stack(
                old(self)@,
                old(memory)@,
                wrap16(old(self)@.pc - 1),
            ),
    {
        proof {
            lemma_wrap8_sum(old(self)@.sp - 1, -1);
        }
        let return_to = minus16(self.pc, 1);
        self.push(memory, high(return_to));
        self.push(memory, low(return_to));
        self.pc = target;
    }

    /// Carries out an operation that moves the program counter or uses
    /// the stack; `address` is where a branch or jump goes. Other
    /// operations do nothing here.
    pub fn control(&mut self, operation: Operation, address: u16, memory: &mut Memory)
        ensures
            final(self)@ == control_effect(operation, old(self)@, old(memory)@, address).cpu,
            final(memory)@ == control_effect(operation, old(self)@, old(memory)@, address).mem,
    {
        proof {
            reveal(control_effect);
        }
        match operation {
            Operation::Jmp => {
                self.pc = address;
            },
            Operation::Jsr => {
                self.jsr(memory, address);
            },
            Operation::Rts => {
                self.rts(memory);
            },
            Operation::Rti => {
                self.rti(memory);
            },
            Operation::Brk => {
                self.interrupt(memory, plus16(self.pc, 1), IRQ_VECTOR);
            },
            Operation::Pha => {
                self.push(memory, self.a);
            },
            Operation::Php => {
                let mut flags = self.status;
                flags.b = true;
                self.push(memory, flags.to_byte());
            },
            Operation::Pla => {
                let value = self.pull(memory);
                self.lda(value);
            },
            Operation::Plp => {
                let flags = self.pull(memory);
                self.status = StatusRegister::from_byte(flags);
            },
            _ => {
                if self.branch_condition(operation) {
                    self.pc = address;
                }
            },
        }
    }

    /// RTS: pulls an address, low byte first, and continues one past it.
    pub fn rts(&mut self, memory: &Memory)
        ensures
            final(self)@ == return_from_subroutine(old(self)@, memory@),
    {
        proof {
            lemma_wrap8_sum(old(self)@.sp + 1, 1);
        }
        let lo = self.pull(memory);
        let hi = self.pull(memory);
        self.pc = plus16(make_word(lo, hi), 1);
    }
}

} // verus!
