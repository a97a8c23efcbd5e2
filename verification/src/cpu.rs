//! The processor: its registers, and the fetch, decode and execute of one
//! instruction at a time.

use vstd::prelude::*;
use crate::bits::plus16;
use crate::error::CpuError;
use crate::instruction::{decode, Access, Instruction, Operation};
use crate::memory::Memory;
use crate::model::{
    apply, cycles_taken, execute_instruction, execute_opcode, initial_state, register_effect,
    word_at, CpuState, StepOutcome, INTERRUPT_CYCLES, IRQ_VECTOR, NMI_VECTOR,
    RESET_VECTOR,
};
use crate::register::StatusRegister;

pub mod addressing;
pub mod operations;
pub mod stack;

verus! {

/// A 6502 processor. It owns no memory: every operation that reads or
/// writes memory is handed the memory to work on.
pub struct CPU {
    a: u8,
    x: u8,
    y: u8,
    pc: u16,
    sp: u8,
    status: StatusRegister,
    irq_pending: bool,
    nmi_pending: bool,
}

impl View for CPU {
    type V = CpuState;

    closed spec fn view(&self) -> CpuState {
        CpuState {
            a: self.a,
            x: self.x,
            y: self.y,
            pc: self.pc,
            sp: self.sp,
            status: self.status,
            irq_pending: self.irq_pending,
            nmi_pending: self.nmi_pending,
        }
    }
}

impl CPU {
    /// A processor in its initial state: registers zero, stack pointer
    /// `0xFF`, all flags clear, no interrupt pending. The program counter
    /// is zero until [`CPU::reset`] loads it.
    pub fn new() -> (cpu: CPU)
        ensures
            cpu@ == initial_state(),
    {
        CPU {
            a: 0,
            x: 0,
            y: 0,
            pc: 0,
            sp: 0xFF,
            status: StatusRegister::new(),
            irq_pending: false,
            nmi_pending: false,
        }
    }

    /// Puts the processor back into its initial state and loads the
    /// program counter from the reset vector at `0xFFFC`.
    pub fn reset(&mut self, memory: &Memory)
        ensures
            final(self)@ == (CpuState { pc: word_at(memory@, RESET_VECTOR), ..initial_state() }),
    {
        *self = CPU::new();
        self.pc = self.read_word(memory, RESET_VECTOR);
    }

    /// Asks for a maskable interrupt. It is taken at the start of the next
    /// step in which the interrupt-disable flag is clear, and stays
    /// pending until then.
    pub fn request_irq(&mut self)
        ensures
            final(self)@ == (CpuState { irq_pending: true, ..old(self)@ }),
    {
        self.irq_pending = true;
    }

    /// Asks for a non-maskable interrupt. It is taken at the start of the
    /// next step.
    pub fn request_nmi(&mut self)
        ensures
            final(self)@ == (CpuState { nmi_pending: true, ..old(self)@ }),
    {
        self.nmi_pending = true;
    }

    /// Runs the processor for one step and returns the cycles it took.
    ///
    /// A pending interrupt is taken first, the non-maskable one before the
    /// maskable one: the program counter and the flags are pushed, and the
    /// step ends at the first instruction of the handler, seven cycles
    /// later. Otherwise the opcode at the program counter is fetched, the
    /// program counter moves past it and its operand, and the instruction
    /// is executed. Its cost is its base count, plus one cycle when an
    /// indexed read crosses a page, plus one for a branch taken and one
    /// more when the branch leaves its page.
    ///
    /// A byte that is no legal opcode is reported as
    /// [`CpuError::IllegalOpcode`]; the program counter is then past that
    /// byte and nothing else has changed.
    pub fn step(&mut self, memory: &mut Memory) -> (result: Result<u8, CpuError>)
        ensures
            (StepOutcome { cpu: final(self)@, mem: final(memory)@, result }) == crate::model::step(
                old(self)@,
                old(memory)@,
            ),
    {
        if self.nmi_pending {
            self.nmi_pending = false;
            self.interrupt(memory, self.pc, NMI_VECTOR);
            Ok(INTERRUPT_CYCLES)
        } else if self.irq_pending && !self.status.i {
            self.irq_pending = false;
            self.interrupt(memory, self.pc, IRQ_VECTOR);
            Ok(INTERRUPT_CYCLES)
        } else {
            let opcode = memory.read(self.pc);
            self.pc = plus16(self.pc, 1);
            self.execute(opcode, memory)
        }
    }

    /// The accumulator.
    pub fn a(&self) -> (value: u8)
        ensures
            value == self@.a,
    {
        self.a
    }

    /// Index register X.
    pub fn x(&self) -> (value: u8)
        ensures
            value == self@.x,
    {
        self.x
    }

    /// Index register Y.
    pub fn y(&self) -> (value: u8)
        ensures
            value == self@.y,
    {
        self.y
    }

    /// The program counter: the address of the next opcode.
    pub fn pc(&self) -> (value: u16)
        ensures
            value == self@.pc,
    {
        self.pc
    }

    /// The stack pointer.
    pub fn sp(&self) -> (value: u8)
        ensures
            value == self@.sp,
    {
        self.sp
    }

    /// The flags.
    pub fn status(&self) -> (flags: StatusRegister)
        ensures
            flags == self@.status,
    {
        self.status
    }

    /// The carry flag.
    pub fn carry(&self) -> (flag: bool)
        ensures
            flag == self@.status.c,
    {
        self.status.c
    }

    /// The zero flag.
    pub fn zero(&self) -> (flag: bool)
        ensures
            flag == self@.status.z,
    {
        self.status.z
    }

    /// The interrupt-disable flag.
    pub fn interrupt_disable(&self) -> (flag: bool)
        ensures
            flag == self@.status.i,
    {
        self.status.i
    }

    /// The decimal-mode flag.
    pub fn decimal(&self) -> (flag: bool)
        ensures
            flag == self@.status.d,
    {
        self.status.d
    }

    /// The break flag.
    pub fn break_flag(&self) -> (flag: bool)
        ensures
            flag == self@.status.b,
    {
        self.status.b
    }

    /// The overflow flag.
    pub fn overflow(&self) -> (flag: bool)
        ensures
            flag == self@.status.v,
    {
        self.status.v
    }

    /// The negative flag.
    pub fn negative(&self) -> (flag: bool)
        ensures
            flag == self@.status.n,
    {
        self.status.n
    }

    /// Executes the instruction that `opcode` stands for. The program
    /// counter must already be past the opcode byte, at the first operand
    /// byte.
    ///
    /// Returns the cycles taken. For a byte that is no legal opcode
    /// nothing changes and the byte is reported.
    pub fn execute(&mut self, opcode: u8, memory: &mut Memory) -> (result: Result<u8, CpuError>)
        ensures
            (StepOutcome { cpu: final(self)@, mem: final(memory)@, result }) == execute_opcode(
                opcode,
                old(self)@,
                old(memory)@,
            ),
    {
        match decode(opcode) {
            Some(instruction) => Ok(self.perform(instruction, memory)),
            None => Err(CpuError::IllegalOpcode(opcode)),
        }
    }

    /// Executes `instruction` with the program counter at its first
    /// operand byte, and returns the cycles it took.
    pub fn perform(&mut self, instruction: Instruction, memory: &mut Memory) -> (cycles: u8)
        ensures
            final(self)@ == execute_instruction(instruction, old(self)@, old(memory)@).cpu,
            final(memory)@ == execute_instruction(instruction, old(self)@, old(memory)@).mem,
            cycles == execute_instruction(instruction, old(self)@, old(memory)@).cycles,
    {
        let (address, crossed) = self.resolve(instruction.mode, memory);
        let taken = self.branch_condition(instruction.operation);
        self.pc = plus16(self.pc, instruction.mode.operand_len());
        self.apply(instruction, address, memory);
        cycle_count(instruction, crossed, taken)
    }

    /// Carries out `instruction` on the operand at `address`, with the
    /// program counter already past the operand bytes.
    pub fn apply(&mut self, instruction: Instruction, address: u16, memory: &mut Memory)
        ensures
            final(self)@ == apply(instruction, old(self)@, old(memory)@, address).cpu,
            final(memory)@ == apply(instruction, old(self)@, old(memory)@, address).mem,
    {
        match instruction.operation.access_kind() {
            Access::Write => {
                let value = match instruction.operation {
                    Operation::Stx => self.x,
                    Operation::Sty => self.y,
                    _ => self.a,
                };
                memory.write(address, value);
            },
            Access::Modify => {
                self.modify(instruction.operation, instruction.mode, address, memory);
            },
            Access::Read => {
                let value = self.operand(instruction.mode, address, memory);
                self.operate(instruction.operation, value);
            },
            Access::Neither => {
                if instruction.operation.uses_stack_or_jumps() {
                    self.control(instruction.operation, address, memory);
                } else {
                    proof {
                        reveal(register_effect);
                    }
                    self.operate(instruction.operation, 0);
                }
            },
        }
    }
}

/// The cycles that `instruction` takes when resolving its operand crossed
/// a page or not, and, for a branch, when it was taken or not.
pub fn cycle_count(instruction: Instruction, crossed: bool, taken: bool) -> (cycles: u8)
    ensures
        cycles == cycles_taken(instruction, crossed, taken),
        2 <= cycles <= 10,
{
    let base = instruction.cycles();
    match instruction.operation {
        Operation::Bcc
        | Operation::Bcs
        | Operation::Beq
        | Operation::Bne
        | Operation::Bmi
        | Operation::Bpl
        | Operation::Bvc
        | Operation::Bvs => {
            if !taken {
                base
            } else if crossed {
                base + 2
            } else {
                base + 1
            }
        },
        _ => {
            if crossed && instruction.has_page_penalty() {
                base + 1
            } else {
                base
            }
        },
    }
}

} // verus!
