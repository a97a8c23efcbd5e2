//! What the processor does, stated as pure functions over plain values.
//!
//! The state of the processor is a [`CpuState`]; memory is a sequence of
//! 65,536 bytes. Addresses and registers are fixed-width, and every sum
//! that could leave its width wraps around: no address is out of range and
//! the stack pointer never leaves the stack page.

use vstd::prelude::*;
use crate::alu::{add_with_carry, compare, modified, subtract_with_borrow, Carried};
use crate::bits::{high_byte, low_byte, sign_bit, signed, word, wrap16, wrap8};
use crate::error::CpuError;
use crate::instruction::{instruction_of, AddressingMode, Instruction, Operation};
use crate::register::StatusRegister;

verus! {

/// Address of the first byte of the stack page.
pub const STACK_BASE: u16 = 0x0100;

/// Address of the low byte of the vector that a non-maskable interrupt takes.
pub const NMI_VECTOR: u16 = 0xFFFA;

/// Address of the low byte of the vector that a reset takes.
pub const RESET_VECTOR: u16 = 0xFFFC;

/// Address of the low byte of the vector that an interrupt request and the
/// software interrupt take.
pub const IRQ_VECTOR: u16 = 0xFFFE;

/// Cycles that entering an interrupt handler takes.
pub const INTERRUPT_CYCLES: u8 = 7;

/// The registers of the processor and its pending interrupt requests.
pub struct CpuState {
    /// Accumulator.
    pub a: u8,
    /// Index register X.
    pub x: u8,
    /// Index register Y.
    pub y: u8,
    /// Program counter.
    pub pc: u16,
    /// Stack pointer, an offset into the stack page.
    pub sp: u8,
    /// Processor flags.
    pub status: StatusRegister,
    /// An interrupt request waits to be taken.
    pub irq_pending: bool,
    /// A non-maskable interrupt waits to be taken.
    pub nmi_pending: bool,
}

/// The processor together with the memory it works on.
pub struct Machine {
    /// The processor.
    pub cpu: CpuState,
    /// Memory.
    pub mem: Seq<u8>,
}

/// What executing one instruction leaves behind.
pub struct Outcome {
    /// The processor afterwards.
    pub cpu: CpuState,
    /// Memory afterwards.
    pub mem: Seq<u8>,
    /// Cycles the instruction took.
    pub cycles: u8,
}

/// What one step of the processor leaves behind.
pub struct StepOutcome {
    /// The processor afterwards.
    pub cpu: CpuState,
    /// Memory afterwards.
    pub mem: Seq<u8>,
    /// Cycles taken, or the illegal opcode met.
    pub result: Result<u8, CpuError>,
}

/// The state of a processor just constructed: registers zero, the stack
/// pointer at the top of the stack page, all flags clear, nothing pending.
pub open spec fn initial_state() -> CpuState {
    CpuState {
        a: 0,
        x: 0,
        y: 0,
        pc: 0,
        sp: 0xFF,
        status: StatusRegister {
            c: false,
            z: false,
            i: false,
            d: false,
            b: false,
            v: false,
            n: false,
        },
        irq_pending: false,
        nmi_pending: false,
    }
}

/// The little-endian word whose low byte is at `at` and whose high byte is
/// at the next address, wrapping at the end of memory.
pub open spec fn word_at(mem: Seq<u8>, at: u16) -> u16 {
    word(mem[at as int], mem[wrap16(at + 1) as int])
}

/// The little-endian word in page zero whose low byte is at `at` and whose
/// high byte is at the next address within page zero.
pub open spec fn zero_page_word_at(mem: Seq<u8>, at: u8) -> u16 {
    word(mem[at as int], mem[wrap8(at + 1) as int])
}

/// The little-endian word that an indirect jump reads through `pointer`:
/// the high byte comes from the next address within the pointer's own
/// page, so a pointer at the last byte of a page takes its high byte from
/// the first byte of that page.
pub open spec fn indirect_word_at(mem: Seq<u8>, pointer: u16) -> u16 {
    word(
        mem[pointer as int],
        mem[high_byte(pointer) * 0x100 + wrap8(low_byte(pointer) + 1)],
    )
}

/// The first operand byte of the instruction being executed; the program
/// counter points at it.
pub open spec fn operand_byte(cpu: CpuState, mem: Seq<u8>) -> u8 {
    mem[cpu.pc as int]
}

/// The address from which an indexed mode starts before the index register
/// is added. For the modes without an index it is the effective address.
pub open spec fn base_address(mode: AddressingMode, cpu: CpuState, mem: Seq<u8>) -> u16 {
    match mode {
        AddressingMode::AbsoluteX | AddressingMode::AbsoluteY => word_at(mem, cpu.pc),
        AddressingMode::IndirectIndexed => zero_page_word_at(mem, operand_byte(cpu, mem)),
        AddressingMode::Relative => wrap16(cpu.pc + 1),
        _ => effective_address(mode, cpu, mem),
    }
}

/// The address that an instruction in `mode` works on, with the program
/// counter at its first operand byte.
///
/// For the immediate mode this is the address of the operand byte itself,
/// for a branch the address that the branch goes to when taken. The modes
/// without an operand have no address, and `0` stands for it.
pub open spec fn effective_address(mode: AddressingMode, cpu: CpuState, mem: Seq<u8>) -> u16 {
    match mode {
        AddressingMode::Implied | AddressingMode::Accumulator => 0,
        AddressingMode::Immediate => cpu.pc,
        AddressingMode::ZeroPage => operand_byte(cpu, mem) as u16,
        AddressingMode::ZeroPageX => wrap8(operand_byte(cpu, mem) + cpu.x) as u16,
        AddressingMode::ZeroPageY => wrap8(operand_byte(cpu, mem) + cpu.y) as u16,
        AddressingMode::Absolute => word_at(mem, cpu.pc),
        AddressingMode::AbsoluteX => wrap16(word_at(mem, cpu.pc) + cpu.x),
        AddressingMode::AbsoluteY => wrap16(word_at(mem, cpu.pc) + cpu.y),
        AddressingMode::Indirect => indirect_word_at(mem, word_at(mem, cpu.pc)),
        AddressingMode::IndexedIndirect => zero_page_word_at(
            mem,
            wrap8(operand_byte(cpu, mem) + cpu.x),
        ),
        AddressingMode::IndirectIndexed => wrap16(
            zero_page_word_at(mem, operand_byte(cpu, mem)) + cpu.y,
        ),
        AddressingMode::Relative => wrap16(cpu.pc + 1 + signed(operand_byte(cpu, mem))),
    }
}

/// Whether two addresses lie in different 256-byte pages.
pub open spec fn pages_differ(first: u16, second: u16) -> bool {
    high_byte(first) != high_byte(second)
}

/// Whether resolving `mode` crosses a page boundary: adding the index
/// changes the high byte of the address, or a branch leaves the page of
/// the instruction that follows it. Indexing within page zero never does.
pub open spec fn page_crossed(mode: AddressingMode, cpu: CpuState, mem: Seq<u8>) -> bool {
    match mode {
        AddressingMode::AbsoluteX
        | AddressingMode::AbsoluteY
        | AddressingMode::IndirectIndexed
        | AddressingMode::Relative => pages_differ(
            base_address(mode, cpu, mem),
            effective_address(mode, cpu, mem),
        ),
        _ => false,
    }
}

/// The address in the stack page that the stack pointer `sp` selects.
pub open spec fn stack_address(sp: u8) -> u16 {
    (STACK_BASE + sp) as u16
}

/// Memory after `value` is pushed: it is stored where the stack pointer
/// points.
pub open spec fn stack_after_push(cpu: CpuState, mem: Seq<u8>, value: u8) -> Seq<u8> {
    mem.update(stack_address(cpu.sp) as int, value)
}

/// The processor after a push: the stack pointer is one lower, wrapping
/// within the stack page.
pub open spec fn after_push(cpu: CpuState) -> CpuState {
    CpuState { sp: wrap8(cpu.sp - 1), ..cpu }
}

/// The byte that a pull returns: the one above the stack pointer.
pub open spec fn stack_top(cpu: CpuState, mem: Seq<u8>) -> u8 {
    mem[stack_address(wrap8(cpu.sp + 1)) as int]
}

/// The processor after a pull: the stack pointer is one higher, wrapping
/// within the stack page.
pub open spec fn after_pull(cpu: CpuState) -> CpuState {
    CpuState { sp: wrap8(cpu.sp + 1), ..cpu }
}

/// The flags with zero and negative taken from `value`.
pub open spec fn with_zero_negative(status: StatusRegister, value: u8) -> StatusRegister {
    StatusRegister { z: value == 0, n: sign_bit(value), ..status }
}

/// Loads the accumulator: zero and negative follow the value, no other
/// flag changes.
pub open spec fn load_a(cpu: CpuState, value: u8) -> CpuState {
    CpuState { a: value, status: with_zero_negative(cpu.status, value), ..cpu }
}

/// Loads X: zero and negative follow the value.
pub open spec fn load_x(cpu: CpuState, value: u8) -> CpuState {
    CpuState { x: value, status: with_zero_negative(cpu.status, value), ..cpu }
}

/// Loads Y: zero and negative follow the value.
pub open spec fn load_y(cpu: CpuState, value: u8) -> CpuState {
    CpuState { y: value, status: with_zero_negative(cpu.status, value), ..cpu }
}

/// Adds `value` and the carry to the accumulator, in decimal when the
/// decimal flag is set. Carry and overflow come from the addition, zero
/// and negative from the new accumulator.
pub open spec fn add_to_a(cpu: CpuState, value: u8) -> CpuState {
    let sum = add_with_carry(cpu.a, value, cpu.status.c, cpu.status.d);
    CpuState {
        a: sum.value,
        status: with_zero_negative(
            StatusRegister { c: sum.carry, v: sum.overflow, ..cpu.status },
            sum.value,
        ),
        ..cpu
    }
}

/// Subtracts `value` and the borrow from the accumulator, in decimal when
/// the decimal flag is set. Flags as for the addition.
pub open spec fn subtract_from_a(cpu: CpuState, value: u8) -> CpuState {
    let sum = subtract_with_borrow(cpu.a, value, cpu.status.c, cpu.status.d);
    CpuState {
        a: sum.value,
        status: with_zero_negative(
            StatusRegister { c: sum.carry, v: sum.overflow, ..cpu.status },
            sum.value,
        ),
        ..cpu
    }
}

/// Tests `value` against the accumulator: zero is set when they share no
/// bit, negative and overflow are copies of bits 7 and 6 of `value`.
pub open spec fn bit_test(cpu: CpuState, value: u8) -> CpuState {
    CpuState {
        status: StatusRegister {
            z: cpu.a & value == 0,
            n: sign_bit(value),
            v: value & 0x40 != 0,
            ..cpu.status
        },
        ..cpu
    }
}

/// Compares `register` with `value`: carry is set when the register is not
/// less, zero and negative follow the difference. No register changes.
pub open spec fn compare_with(cpu: CpuState, register: u8, value: u8) -> CpuState {
    let r = compare(register, value);
    CpuState {
        status: with_zero_negative(StatusRegister { c: r.carry, ..cpu.status }, r.value),
        ..cpu
    }
}

/// The flags after a byte was changed in place: carry as the change left
/// it, zero and negative from the new byte.
pub open spec fn modified_status(status: StatusRegister, r: Carried) -> StatusRegister {
    with_zero_negative(StatusRegister { c: r.carry, ..status }, r.value)
}

/// Whether the branch `operation` is taken with the flags `status`.
pub open spec fn branch_taken(operation: Operation, status: StatusRegister) -> bool {
    match operation {
        Operation::Bcc => !status.c,
        Operation::Bcs => status.c,
        Operation::Bne => !status.z,
        Operation::Beq => status.z,
        Operation::Bpl => !status.n,
        Operation::Bmi => status.n,
        Operation::Bvc => !status.v,
        Operation::Bvs => status.v,
        _ => false,
    }
}

/// Memory after interrupt entry: the high byte of `return_to`, its low
/// byte, and the flags with the break flag set are pushed in that order.
pub open spec fn interrupt_stack(cpu: CpuState, mem: Seq<u8>, return_to: u16) -> Seq<u8> {
    let flags = StatusRegister { b: true, ..cpu.status };
    mem.update(stack_address(cpu.sp) as int, high_byte(return_to)).update(
        stack_address(wrap8(cpu.sp - 1)) as int,
        low_byte(return_to),
    ).update(stack_address(wrap8(cpu.sp - 2)) as int, flags.packed())
}

/// The processor after interrupt entry: three bytes were pushed, the break
/// and interrupt-disable flags are set, and the program counter is loaded
/// from `vector`.
pub open spec fn interrupt_entry(
    cpu: CpuState,
    mem: Seq<u8>,
    return_to: u16,
    vector: u16,
) -> CpuState {
    CpuState {
        sp: wrap8(cpu.sp - 3),
        status: StatusRegister { b: true, i: true, ..cpu.status },
        pc: word_at(interrupt_stack(cpu, mem, return_to), vector),
        ..cpu
    }
}

/// The processor after a return from interrupt: the flags are the byte
/// pulled first, break included, and the program counter is the word
/// pulled after it.
pub open spec fn return_from_interrupt(cpu: CpuState, mem: Seq<u8>) -> CpuState {
    CpuState {
        sp: wrap8(cpu.sp + 3),
        status: StatusRegister::unpacked(mem[stack_address(wrap8(cpu.sp + 1)) as int]),
        pc: word(
            mem[stack_address(wrap8(cpu.sp + 2)) as int],
            mem[stack_address(wrap8(cpu.sp + 3)) as int],
        ),
        ..cpu
    }
}

/// Memory after a jump to subroutine: the address of the last byte of the
/// instruction, `return_to`, is pushed high byte first.
pub open spec fn subroutine_stack(cpu: CpuState, mem: Seq<u8>, return_to: u16) -> Seq<u8> {
    mem.update(stack_address(cpu.sp) as int, high_byte(return_to)).update(
        stack_address(wrap8(cpu.sp - 1)) as int,
        low_byte(return_to),
    )
}

/// The processor after a return from subroutine: the word pulled, low byte
/// first, plus one is the new program counter.
pub open spec fn return_from_subroutine(cpu: CpuState, mem: Seq<u8>) -> CpuState {
    CpuState {
        sp: wrap8(cpu.sp + 2),
        pc: wrap16(
            word(
                mem[stack_address(wrap8(cpu.sp + 1)) as int],
                mem[stack_address(wrap8(cpu.sp + 2)) as int],
            ) + 1,
        ),
        ..cpu
    }
}

/// The cycles an instruction takes, between two and ten: its base count,
/// one more for a read that crosses a page, and for a branch taken one
/// more, or two when it leaves the page of the instruction that follows it.
pub open spec fn cycles_taken(instruction: Instruction, crossed: bool, taken: bool) -> u8 {
    let penalty: int = if instruction.operation.is_branch() {
        if !taken {
            0
        } else if crossed {
            2
        } else {
            1
        }
    } else if instruction.pays_page_penalty() && crossed {
        1
    } else {
        0
    };
    (instruction.base_cycles() + penalty) as u8
}

/// The effect of one instruction on registers and flags alone, with the
/// program counter already past the operand and `value` the operand read.
/// Instructions that touch memory or the program counter leave the
/// processor as it is here; [`apply`] deals with them.
#[verifier::opaque]
pub open spec fn register_effect(operation: Operation, cpu: CpuState, value: u8) -> CpuState {
    match operation {
        Operation::Lda => load_a(cpu, value),
        Operation::Ldx => load_x(cpu, value),
        Operation::Ldy => load_y(cpu, value),
        Operation::Adc => add_to_a(cpu, value),
        Operation::Sbc => subtract_from_a(cpu, value),
        Operation::And => load_a(cpu, cpu.a & value),
        Operation::Ora => load_a(cpu, cpu.a | value),
        Operation::Eor => load_a(cpu, cpu.a ^ value),
        Operation::Bit => bit_test(cpu, value),
        Operation::Cpa => compare_with(cpu, cpu.a, value),
        Operation::Cpx => compare_with(cpu, cpu.x, value),
        Operation::Cpy => compare_with(cpu, cpu.y, value),
        Operation::Tax => load_x(cpu, cpu.a),
        Operation::Tay => load_y(cpu, cpu.a),
        Operation::Txa => load_a(cpu, cpu.x),
        Operation::Tya => load_a(cpu, cpu.y),
        Operation::Tsx => load_x(cpu, cpu.sp),
        Operation::Txs => CpuState { sp: cpu.x, ..cpu },
        Operation::Inx => load_x(cpu, wrap8(cpu.x + 1)),
        Operation::Iny => load_y(cpu, wrap8(cpu.y + 1)),
        Operation::Dex => load_x(cpu, wrap8(cpu.x - 1)),
        Operation::Dey => load_y(cpu, wrap8(cpu.y - 1)),
        Operation::Clc => CpuState { status: StatusRegister { c: false, ..cpu.status }, ..cpu },
        Operation::Sec => CpuState { status: StatusRegister { c: true, ..cpu.status }, ..cpu },
        Operation::Cli => CpuState { status: StatusRegister { i: false, ..cpu.status }, ..cpu },
        Operation::Sei => CpuState { status: StatusRegister { i: true, ..cpu.status }, ..cpu },
        Operation::Cld => CpuState { status: StatusRegister { d: false, ..cpu.status }, ..cpu },
        Operation::Sed => CpuState { status: StatusRegister { d: true, ..cpu.status }, ..cpu },
        Operation::Clv => CpuState { status: StatusRegister { v: false, ..cpu.status }, ..cpu },
        _ => cpu,
    }
}

/// The byte that a store instruction writes.
pub open spec fn stored_value(operation: Operation, cpu: CpuState) -> u8 {
    match operation {
        Operation::Stx => cpu.x,
        Operation::Sty => cpu.y,
        _ => cpu.a,
    }
}

/// The operand that an instruction works on: the accumulator in the
/// accumulator mode, else the byte at the effective address.
pub open spec fn operand_value(
    mode: AddressingMode,
    cpu: CpuState,
    mem: Seq<u8>,
    address: u16,
) -> u8 {
    if mode == AddressingMode::Accumulator {
        cpu.a
    } else {
        mem[address as int]
    }
}

/// The effect of a store: the register is written to `address`.
pub open spec fn store_effect(
    operation: Operation,
    cpu: CpuState,
    mem: Seq<u8>,
    address: u16,
) -> Machine {
    Machine { cpu, mem: mem.update(address as int, stored_value(operation, cpu)) }
}

/// The effect of a shift, a rotate, INC or DEC: the accumulator, or the
/// byte at `address`, is changed in place.
pub open spec fn modify_effect(
    operation: Operation,
    mode: AddressingMode,
    cpu: CpuState,
    mem: Seq<u8>,
    address: u16,
) -> Machine {
    let r = modified(operation, operand_value(mode, cpu, mem, address), cpu.status.c);
    let status = modified_status(cpu.status, r);
    if mode == AddressingMode::Accumulator {
        Machine { cpu: CpuState { a: r.value, status, ..cpu }, mem }
    } else {
        Machine { cpu: CpuState { status, ..cpu }, mem: mem.update(address as int, r.value) }
    }
}

/// The effect of the operations that move the program counter or use the
/// stack: branches, jumps, calls and returns, the software interrupt, and
/// the pushes and pulls. `address` is where a branch or jump goes.
///
/// A branch goes there only when its condition holds. JSR pushes the
/// address of its own last byte, high byte first; BRK pushes the address
/// two past its opcode and the flags with break set, and continues at the
/// address held at `0xFFFE`. PHP pushes the flags with break set; PLP and
/// RTI take every flag, break included, from the byte pulled.
#[verifier::opaque]
pub open spec fn control_effect(
    operation: Operation,
    cpu: CpuState,
    mem: Seq<u8>,
    address: u16,
) -> Machine {
    match operation {
        Operation::Jmp => Machine { cpu: CpuState { pc: address, ..cpu }, mem },
        Operation::Jsr => Machine {
            cpu: CpuState { pc: address, sp: wrap8(cpu.sp - 2), ..cpu },
            mem: subroutine_stack(cpu, mem, wrap16(cpu.pc - 1)),
        },
        Operation::Rts => Machine { cpu: return_from_subroutine(cpu, mem), mem },
        Operation::Rti => Machine { cpu: return_from_interrupt(cpu, mem), mem },
        Operation::Brk => Machine {
            cpu: interrupt_entry(cpu, mem, wrap16(cpu.pc + 1), IRQ_VECTOR),
            mem: interrupt_stack(cpu, mem, wrap16(cpu.pc + 1)),
        },
        Operation::Pha => Machine { cpu: after_push(cpu), mem: stack_after_push(cpu, mem, cpu.a) },
        Operation::Php => Machine {
            cpu: after_push(cpu),
            mem: stack_after_push(cpu, mem, (StatusRegister { b: true, ..cpu.status }).packed()),
        },
        Operation::Pla => Machine { cpu: load_a(after_pull(cpu), stack_top(cpu, mem)), mem },
        Operation::Plp => Machine {
            cpu: CpuState {
                status: StatusRegister::unpacked(stack_top(cpu, mem)),
                ..after_pull(cpu)
            },
            mem,
        },
        _ => Machine {
            cpu: if branch_taken(operation, cpu.status) {
                CpuState { pc: address, ..cpu }
            } else {
                cpu
            },
            mem,
        },
    }
}

/// The effect of `instruction` once its operand is resolved to `address`
/// and the program counter is past the operand bytes.
pub open spec fn apply(
    instruction: Instruction,
    cpu: CpuState,
    mem: Seq<u8>,
    address: u16,
) -> Machine {
    let operation = instruction.operation;
    match operation {
        Operation::Sta | Operation::Stx | Operation::Sty => store_effect(
            operation,
            cpu,
            mem,
            address,
        ),
        Operation::Asl
        | Operation::Lsr
        | Operation::Rol
        | Operation::Ror
        | Operation::Inc
        | Operation::Dec => modify_effect(operation, instruction.mode, cpu, mem, address),
        Operation::Bcc
        | Operation::Bcs
        | Operation::Beq
        | Operation::Bne
        | Operation::Bmi
        | Operation::Bpl
        | Operation::Bvc
        | Operation::Bvs
        | Operation::Jmp
        | Operation::Jsr
        | Operation::Rts
        | Operation::Rti
        | Operation::Brk
        | Operation::Pha
        | Operation::Php
        | Operation::Pla
        | Operation::Plp => control_effect(operation, cpu, mem, address),
        _ => Machine {
            cpu: register_effect(
                operation,
                cpu,
                operand_value(instruction.mode, cpu, mem, address),
            ),
            mem,
        },
    }
}

/// Executes `instruction` with the program counter at its first operand
/// byte, the opcode itself already consumed.
///
/// The operand is resolved first and the program counter moved past it;
/// the operation then works on the address or the value found.
pub open spec fn execute_instruction(
    instruction: Instruction,
    cpu: CpuState,
    mem: Seq<u8>,
) -> Outcome {
    let mode = instruction.mode;
    let address = effective_address(mode, cpu, mem);
    let next = CpuState { pc: wrap16(cpu.pc + mode.operand_width()), ..cpu };
    let after = apply(instruction, next, mem, address);
    Outcome {
        cpu: after.cpu,
        mem: after.mem,
        cycles: cycles_taken(
            instruction,
            page_crossed(mode, cpu, mem),
            branch_taken(instruction.operation, cpu.status),
        ),
    }
}

/// Executes the instruction that the byte `opcode` stands for, with the
/// program counter just past that byte. An illegal opcode changes nothing.
pub open spec fn execute_opcode(opcode: u8, cpu: CpuState, mem: Seq<u8>) -> StepOutcome {
    match instruction_of(opcode) {
        Some(instruction) => {
            let out = execute_instruction(instruction, cpu, mem);
            StepOutcome { cpu: out.cpu, mem: out.mem, result: Ok(out.cycles) }
        },
        None => StepOutcome { cpu, mem, result: Err(CpuError::IllegalOpcode(opcode)) },
    }
}

/// One step of the processor.
///
/// A pending non-maskable interrupt is taken first; then a pending
/// interrupt request, unless the interrupt-disable flag masks it, in which
/// case it stays pending. Taking an interrupt pushes the program counter
/// and the flags and continues at the handler; no instruction is executed
/// in that step. Otherwise the byte at the program counter is fetched, the
/// program counter moves past it, and the instruction it stands for is
/// executed.
pub open spec fn step(cpu: CpuState, mem: Seq<u8>) -> StepOutcome {
    if cpu.nmi_pending {
        let taken = CpuState { nmi_pending: false, ..cpu };
        StepOutcome {
            cpu: interrupt_entry(taken, mem, cpu.pc, NMI_VECTOR),
            mem: interrupt_stack(taken, mem, cpu.pc),
            result: Ok(INTERRUPT_CYCLES),
        }
    } else if cpu.irq_pending && !cpu.status.i {
        let taken = CpuState { irq_pending: false, ..cpu };
        StepOutcome {
            cpu: interrupt_entry(taken, mem, cpu.pc, IRQ_VECTOR),
            mem: interrupt_stack(taken, mem, cpu.pc),
            result: Ok(INTERRUPT_CYCLES),
        }
    } else {
        execute_opcode(mem[cpu.pc as int], CpuState { pc: wrap16(cpu.pc + 1), ..cpu }, mem)
    }
}

} // verus!
