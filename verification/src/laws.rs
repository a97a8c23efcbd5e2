//! Laws of the instruction set: what holds of every state, proved from the
//! definitions in [`crate::model`].

use vstd::prelude::*;
use crate::bits::{
    high_byte, lemma_split_word, lemma_wrap16, lemma_wrap16_sum, lemma_wrap8, lemma_wrap8_sum,
    low_byte, word, wrap16, wrap8,
};
use crate::error::CpuError;
use crate::instruction::{instruction_of, Access, AddressingMode, Instruction, Operation};
use crate::memory::is_memory;
use crate::model::{
    after_pull, after_push, apply, branch_taken, control_effect, cycles_taken, effective_address,
    execute_instruction, execute_opcode, indirect_word_at, interrupt_entry, interrupt_stack,
    load_a, modify_effect, operand_value, page_crossed, register_effect, return_from_interrupt, stack_address, stack_after_push,
    stack_top, step, word_at, zero_page_word_at, CpuState, IRQ_VECTOR,
};
use crate::register::{lemma_unpack_packed, StatusRegister};

verus! {

/// The stack pointer selects an address in page one, and different stack
/// pointers select different addresses.
pub proof fn lemma_stack_address(sp: u8, other: u8)
    ensures
        0x0100 <= stack_address(sp) <= 0x01FF,
        stack_address(sp) == stack_address(other) <==> sp == other,
{
}

/// A pull undoes a push: it returns the byte pushed and leaves the
/// processor as it was before the push.
pub proof fn lemma_push_pull(cpu: CpuState, mem: Seq<u8>, value: u8)
    requires
        is_memory(mem),
    ensures
        stack_top(after_push(cpu), stack_after_push(cpu, mem, value)) == value,
        after_pull(after_push(cpu)) == cpu,
{
    lemma_wrap8_sum(cpu.sp - 1, 1);
    lemma_wrap8(cpu.sp as int);
}

/// A return from subroutine undoes a jump to subroutine: the program
/// counter is back at the instruction after the call and the stack
/// pointer is what it was, whatever the target of the call.
pub proof fn lemma_call_return(cpu: CpuState, mem: Seq<u8>, target: u16)
    requires
        is_memory(mem),
    ensures
        ({
            let called = control_effect(Operation::Jsr, cpu, mem, target);
            let returned = control_effect(Operation::Rts, called.cpu, called.mem, 0);
            &&& called.cpu.pc == target
            &&& returned.cpu == cpu
            &&& returned.mem == called.mem
        }),
{
    reveal(control_effect);
    let return_to = wrap16(cpu.pc - 1);
    // The two pulls read back the two bytes pushed.
    lemma_wrap8_sum(cpu.sp - 2, 1);
    lemma_wrap8_sum(cpu.sp - 2, 2);
    lemma_wrap8(cpu.sp - 1);
    lemma_wrap8(cpu.sp as int);
    lemma_split_word(return_to);
    // One past the address pushed is the address after the call.
    lemma_wrap16_sum(cpu.pc - 1, 1);
    lemma_wrap16(cpu.pc as int);
}

/// Entering an interrupt handler, whether by BRK or by an interrupt
/// taken, sets the break and interrupt-disable flags, lowers the stack
/// pointer by three, leaves on the stack the high byte of the return
/// address, its low byte and the flags with break set, in that order from
/// the top down, and loads the program counter from the vector.
pub proof fn lemma_interrupt_entry(cpu: CpuState, mem: Seq<u8>, return_to: u16, vector: u16)
    requires
        is_memory(mem),
        vector == 0xFFFA || vector == 0xFFFE,
    ensures
        ({
            let after = interrupt_entry(cpu, mem, return_to, vector);
            let stack = interrupt_stack(cpu, mem, return_to);
            &&& after.status == (StatusRegister { b: true, i: true, ..cpu.status })
            &&& after.sp == wrap8(cpu.sp - 3)
            &&& after.pc == word_at(mem, vector)
            &&& after.a == cpu.a && after.x == cpu.x && after.y == cpu.y
            &&& stack[stack_address(cpu.sp) as int] == high_byte(return_to)
            &&& stack[stack_address(wrap8(cpu.sp - 1)) as int] == low_byte(return_to)
            &&& stack[stack_address(wrap8(cpu.sp - 2)) as int] == (StatusRegister {
                b: true,
                ..cpu.status
            }).packed()
            &&& forall|at: int|
                0 <= at < 0x1_0000 && !(0x0100 <= at <= 0x01FF) ==> stack[at] == mem[at]
        }),
{
    // The three bytes land in page one, each at an address of its own.
    lemma_stack_address(cpu.sp, wrap8(cpu.sp - 1));
    lemma_stack_address(cpu.sp, wrap8(cpu.sp - 2));
    lemma_stack_address(wrap8(cpu.sp - 1), wrap8(cpu.sp - 2));
    lemma_wrap8(cpu.sp - 1);
    lemma_wrap8(cpu.sp - 2);
    // The second byte of either vector follows the first without wrapping.
    lemma_wrap16(vector + 1);
}

/// A return from interrupt undoes the entry: the program counter is the
/// return address, the stack pointer is what it was, and the flags are
/// those saved, which are the flags before the entry with break set.
/// Interrupt disable is back to what it was before the entry.
pub proof fn lemma_interrupt_return(cpu: CpuState, mem: Seq<u8>, return_to: u16, vector: u16)
    requires
        is_memory(mem),
    ensures
        return_from_interrupt(
            interrupt_entry(cpu, mem, return_to, vector),
            interrupt_stack(cpu, mem, return_to),
        ) == (CpuState {
            pc: return_to,
            status: StatusRegister { b: true, ..cpu.status },
            ..cpu
        }),
{
    // The three pulls read back the three bytes pushed.
    lemma_wrap8(cpu.sp - 1);
    lemma_wrap8(cpu.sp - 2);
    lemma_wrap8_sum(cpu.sp - 3, 1);
    lemma_wrap8_sum(cpu.sp - 3, 2);
    lemma_wrap8_sum(cpu.sp - 3, 3);
    lemma_wrap8(cpu.sp as int);
    lemma_unpack_packed(StatusRegister { b: true, ..cpu.status });
    lemma_split_word(return_to);
}

/// BRK followed by RTI: the program continues two bytes past the BRK
/// opcode with the stack pointer and every flag but break as they were;
/// break is set, as the flags saved on the stack have it.
///
/// `cpu` is the processor with the program counter just past the BRK
/// opcode.
pub proof fn lemma_break_return(cpu: CpuState, mem: Seq<u8>)
    requires
        is_memory(mem),
    ensures
        ({
            let entered = control_effect(Operation::Brk, cpu, mem, 0);
            let returned = control_effect(Operation::Rti, entered.cpu, entered.mem, 0);
            &&& entered.cpu.status == (StatusRegister { b: true, i: true, ..cpu.status })
            &&& entered.cpu.pc == word_at(mem, IRQ_VECTOR)
            &&& entered.mem == interrupt_stack(cpu, mem, wrap16(cpu.pc + 1))
            &&& returned.cpu == (CpuState {
                pc: wrap16(cpu.pc + 1),
                status: StatusRegister { b: true, ..cpu.status },
                ..cpu
            })
            &&& returned.mem == entered.mem
        }),
{
    reveal(control_effect);
    lemma_interrupt_entry(cpu, mem, wrap16(cpu.pc + 1), IRQ_VECTOR);
    lemma_interrupt_return(cpu, mem, wrap16(cpu.pc + 1), IRQ_VECTOR);
}

/// PHP followed by PLP: carry, zero, interrupt disable, decimal, overflow
/// and negative come back as they were; break comes back set, because the
/// byte pushed has bits 4 and 5 set whatever the break flag was. The stack
/// pointer is what it was.
pub proof fn lemma_push_pull_status(cpu: CpuState, mem: Seq<u8>)
    requires
        is_memory(mem),
    ensures
        ({
            let pushed = control_effect(Operation::Php, cpu, mem, 0);
            let pulled = control_effect(Operation::Plp, pushed.cpu, pushed.mem, 0);
            let saved = pushed.mem[stack_address(cpu.sp) as int];
            &&& pushed.cpu == after_push(cpu)
            &&& saved == (StatusRegister { b: true, ..cpu.status }).packed()
            &&& (saved / 16) % 2 == 1 && (saved / 32) % 2 == 1
            &&& pulled.cpu == (CpuState { status: StatusRegister { b: true, ..cpu.status }, ..cpu })
            &&& pulled.mem == pushed.mem
        }),
{
    reveal(control_effect);
    let flags = StatusRegister { b: true, ..cpu.status };
    lemma_push_pull(cpu, mem, flags.packed());
    lemma_unpack_packed(flags);
    reveal(StatusRegister::packed);
}

/// PHA followed by PLA: the accumulator and the stack pointer come back as
/// they were, and zero and negative are those of the accumulator.
pub proof fn lemma_push_pull_accumulator(cpu: CpuState, mem: Seq<u8>)
    requires
        is_memory(mem),
    ensures
        ({
            let pushed = control_effect(Operation::Pha, cpu, mem, 0);
            let pulled = control_effect(Operation::Pla, pushed.cpu, pushed.mem, 0);
            &&& pulled.cpu.a == cpu.a
            &&& pulled.cpu.sp == cpu.sp
            &&& pulled.cpu == load_a(cpu, cpu.a)
        }),
{
    reveal(control_effect);
    lemma_push_pull(cpu, mem, cpu.a);
}

/// The indirect mode never carries from the low byte of the pointer into
/// its high byte: a pointer at the last byte of a page takes the high byte
/// of the address from the first byte of the same page, and any other
/// pointer takes it from the next byte.
pub proof fn lemma_indirect_stays_in_page(mem: Seq<u8>, pointer: u16)
    ensures
        low_byte(pointer) == 0xFF ==> indirect_word_at(mem, pointer) == word(
            mem[pointer as int],
            mem[pointer - 0xFF],
        ),
        low_byte(pointer) != 0xFF ==> indirect_word_at(mem, pointer) == word(
            mem[pointer as int],
            mem[pointer + 1],
        ),
{
    lemma_split_word(pointer);
    lemma_wrap8(low_byte(pointer) + 1);
}

/// A pointer in page zero is read from page zero alone: the pointer at
/// `0xFF` has its high byte at `0x00`, not at `0x0100`.
pub proof fn lemma_zero_page_pointer_wraps(mem: Seq<u8>, at: u8)
    ensures
        at == 0xFF ==> zero_page_word_at(mem, at) == word(mem[0xFF], mem[0]),
        at != 0xFF ==> zero_page_word_at(mem, at) == word(mem[at as int], mem[at + 1]),
{
    lemma_wrap8(at + 1);
}

/// Indexing crosses a page exactly when adding the index to the low byte
/// of the base address carries.
pub proof fn lemma_page_cross_is_carry(cpu: CpuState, mem: Seq<u8>)
    ensures
        page_crossed(AddressingMode::AbsoluteX, cpu, mem) <==> low_byte(word_at(mem, cpu.pc))
            + cpu.x > 0xFF,
        page_crossed(AddressingMode::AbsoluteY, cpu, mem) <==> low_byte(word_at(mem, cpu.pc))
            + cpu.y > 0xFF,
        page_crossed(AddressingMode::IndirectIndexed, cpu, mem) <==> low_byte(
            zero_page_word_at(mem, mem[cpu.pc as int]),
        ) + cpu.y > 0xFF,
        !page_crossed(AddressingMode::ZeroPageX, cpu, mem),
        !page_crossed(AddressingMode::ZeroPageY, cpu, mem),
        !page_crossed(AddressingMode::IndexedIndirect, cpu, mem),
        effective_address(AddressingMode::ZeroPageX, cpu, mem) <= 0xFF,
        effective_address(AddressingMode::ZeroPageY, cpu, mem) <= 0xFF,
{
    let base = word_at(mem, cpu.pc);
    lemma_split_word(base);
    lemma_wrap16(base + cpu.x);
    lemma_wrap16(base + cpu.y);
    lemma_split_word(wrap16(base + cpu.x));
    lemma_split_word(wrap16(base + cpu.y));
    let pointed = zero_page_word_at(mem, mem[cpu.pc as int]);
    lemma_split_word(pointed);
    lemma_wrap16(pointed + cpu.y);
    lemma_split_word(wrap16(pointed + cpu.y));
}

/// Every legal instruction takes between two and seven cycles before
/// penalties. A page crossed costs a read in an indexed mode exactly one
/// cycle more, and costs a write or an instruction that changes memory in
/// place nothing. A branch not taken costs nothing more, a branch taken
/// one cycle, and a branch taken across a page two.
pub proof fn lemma_cycles(opcode: u8, taken: bool)
    requires
        instruction_of(opcode) is Some,
    ensures
        ({
            let i = instruction_of(opcode)->0;
            &&& 2 <= i.base_cycles() <= 7
            &&& cycles_taken(i, false, false) == i.base_cycles()
            &&& i.pays_page_penalty() ==> cycles_taken(i, true, taken) == cycles_taken(
                i,
                false,
                taken,
            ) + 1
            &&& !i.pays_page_penalty() && !i.operation.is_branch() ==> cycles_taken(i, true, taken)
                == cycles_taken(i, false, taken)
            &&& i.operation.is_branch() ==> cycles_taken(i, false, true) == 3 && cycles_taken(
                i,
                true,
                true,
            ) == 4 && cycles_taken(i, true, false) == 2
        }),
{
    reveal(instruction_of);
}

/// An instruction that neither jumps nor branches leaves the program
/// counter at the next instruction, past its operand of no, one or two
/// bytes. A branch not taken does the same. The stack pointer moves only
/// by the instructions that use the stack and by TXS.
///
/// `cpu` is the processor with the program counter just past the opcode.
pub proof fn lemma_sequential_flow(instruction: Instruction, cpu: CpuState, mem: Seq<u8>)
    ensures
        ({
            let operation = instruction.operation;
            let after = execute_instruction(instruction, cpu, mem).cpu;
            let next = wrap16(cpu.pc + instruction.mode.operand_width());
            &&& 0 <= instruction.mode.operand_width() <= 2
            &&& !operation.is_control() ==> after.pc == next
            &&& !operation.is_control() && operation != Operation::Txs ==> after.sp == cpu.sp
            &&& operation == Operation::Pha || operation == Operation::Php || operation
                == Operation::Pla || operation == Operation::Plp ==> after.pc == next
            &&& operation.is_branch() ==> after.sp == cpu.sp
            &&& operation.is_branch() && !branch_taken(operation, cpu.status) ==> after.pc == next
            &&& operation.is_branch() && branch_taken(operation, cpu.status) ==> after.pc
                == effective_address(instruction.mode, cpu, mem)
        }),
{
    let next = CpuState { pc: wrap16(cpu.pc + instruction.mode.operand_width()), ..cpu };
    let address = effective_address(instruction.mode, cpu, mem);
    let value = operand_value(instruction.mode, next, mem, address);
    assert(register_effect(instruction.operation, next, value).pc == next.pc) by {
        reveal(register_effect);
    }
    assert(instruction.operation != Operation::Txs ==> register_effect(
        instruction.operation,
        next,
        value,
    ).sp == next.sp) by {
        reveal(register_effect);
    }
    reveal(control_effect);
}

/// Every step that does not meet an illegal opcode takes between two and
/// seven cycles.
pub proof fn lemma_step_cycles(cpu: CpuState, mem: Seq<u8>)
    ensures
        step(cpu, mem).result matches Ok(cycles) ==> 2 <= cycles <= 7,
        step(cpu, mem).result is Err <==> !cpu.nmi_pending && !(cpu.irq_pending && !cpu.status.i)
            && instruction_of(mem[cpu.pc as int]) is None,
{
    reveal(instruction_of);
}

/// No two opcodes stand for the same instruction.
pub proof fn lemma_decode_is_injective(first: u8, second: u8)
    requires
        instruction_of(first) is Some,
        instruction_of(first) == instruction_of(second),
    ensures
        first == second,
{
    reveal(instruction_of);
}

/// A byte that is no legal opcode stops the step: the error names the
/// byte, the program counter is past it, and nothing else has changed.
pub proof fn lemma_illegal_opcode(cpu: CpuState, mem: Seq<u8>)
    requires
        !cpu.nmi_pending,
        !cpu.irq_pending || cpu.status.i,
        instruction_of(mem[cpu.pc as int]) is None,
    ensures
        step(cpu, mem).result == Err::<u8, CpuError>(CpuError::IllegalOpcode(mem[cpu.pc as int])),
        step(cpu, mem).cpu == (CpuState { pc: wrap16(cpu.pc + 1), ..cpu }),
        step(cpu, mem).mem == mem,
{
}

/// Which flags an operation on registers may change.
///
/// Decimal and interrupt disable change only by the instructions that set
/// or clear them, and break by none. Carry changes only by addition,
/// subtraction, comparison and its own set and clear; overflow only by
/// addition, subtraction, BIT and its own clear. Loads, transfers, logical
/// operations and register increments and decrements touch zero and
/// negative alone, and the flag instructions, TXS and NOP not even those.
pub proof fn lemma_flag_discipline(operation: Operation, cpu: CpuState, value: u8)
    ensures
        ({
            let after = register_effect(operation, cpu, value).status;
            let before = cpu.status;
            &&& after.b == before.b
            &&& operation != Operation::Sed && operation != Operation::Cld ==> after.d == before.d
            &&& operation != Operation::Sei && operation != Operation::Cli ==> after.i == before.i
            &&& !(operation == Operation::Adc || operation == Operation::Sbc || operation
                == Operation::Cpa || operation == Operation::Cpx || operation == Operation::Cpy
                || operation == Operation::Clc || operation == Operation::Sec) ==> after.c
                == before.c
            &&& !(operation == Operation::Adc || operation == Operation::Sbc || operation
                == Operation::Bit || operation == Operation::Clv) ==> after.v == before.v
            &&& (operation == Operation::Clc || operation == Operation::Sec || operation
                == Operation::Cli || operation == Operation::Sei || operation == Operation::Cld
                || operation == Operation::Sed || operation == Operation::Clv || operation
                == Operation::Txs || operation == Operation::Nop) ==> after.z == before.z
                && after.n == before.n
        }),
{
    reveal(register_effect);
}

/// Which flags the other operations may change.
///
/// A shift or rotate changes carry, zero and negative; INC and DEC change
/// zero and negative alone. Branches, jumps, calls, returns from
/// subroutine and pushes change no flag, and PLA changes zero and negative
/// alone. Only PLP and RTI, which take the flags from the stack, and BRK,
/// which sets break and interrupt disable, reach the other flags.
pub proof fn lemma_flag_discipline_elsewhere(
    operation: Operation,
    mode: AddressingMode,
    cpu: CpuState,
    mem: Seq<u8>,
    address: u16,
)
    ensures
        ({
            let after = modify_effect(operation, mode, cpu, mem, address).cpu.status;
            let before = cpu.status;
            &&& after.b == before.b && after.d == before.d && after.i == before.i && after.v
                == before.v
            &&& operation == Operation::Inc || operation == Operation::Dec ==> after.c == before.c
        }),
        ({
            let after = control_effect(operation, cpu, mem, address).cpu.status;
            let before = cpu.status;
            &&& operation == Operation::Brk ==> after == (StatusRegister {
                b: true,
                i: true,
                ..before
            })
            &&& operation == Operation::Pla ==> after == (StatusRegister {
                z: after.z,
                n: after.n,
                ..before
            })
            &&& !(operation == Operation::Brk || operation == Operation::Pla || operation
                == Operation::Plp || operation == Operation::Rti) ==> after == before
        }),
{
    reveal(control_effect);
}

/// What an instruction may write.
///
/// An operation on registers writes nothing. A store and an operation
/// that changes memory in place write the byte at the effective address
/// and nothing else. Operations that use the stack write in page one and
/// nowhere else.
pub proof fn lemma_writes_are_confined(
    instruction: Instruction,
    cpu: CpuState,
    mem: Seq<u8>,
    address: u16,
    at: int,
)
    requires
        is_memory(mem),
        0 <= at < 0x1_0000,
    ensures
        ({
            let after = apply(instruction, cpu, mem, address).mem;
            let operation = instruction.operation;
            &&& after.len() == mem.len()
            &&& !operation.is_control() && operation.access() != Access::Write
                && operation.access() != Access::Modify ==> after == mem
            &&& !operation.is_control() && at != address ==> after[at] == mem[at]
            &&& operation.is_control() && !(0x0100 <= at <= 0x01FF) ==> after[at] == mem[at]
        }),
{
    reveal(control_effect);
}

/// No instruction changes the pending interrupt requests: they are made
/// from outside and consumed only when an interrupt is taken, between
/// instructions.
pub proof fn lemma_requests_survive_instructions(opcode: u8, cpu: CpuState, mem: Seq<u8>)
    ensures
        execute_opcode(opcode, cpu, mem).cpu.irq_pending == cpu.irq_pending,
        execute_opcode(opcode, cpu, mem).cpu.nmi_pending == cpu.nmi_pending,
{
    reveal(register_effect);
    reveal(control_effect);
}

/// An interrupt request is not lost while it is masked: with the
/// interrupt-disable flag set and no non-maskable interrupt pending, a
/// step executes the next instruction and the request is still pending
/// after it.
pub proof fn lemma_masked_request_waits(cpu: CpuState, mem: Seq<u8>)
    requires
        !cpu.nmi_pending,
        cpu.irq_pending,
        cpu.status.i,
    ensures
        step(cpu, mem) == execute_opcode(
            mem[cpu.pc as int],
            CpuState { pc: wrap16(cpu.pc + 1), ..cpu },
            mem,
        ),
        step(cpu, mem).cpu.irq_pending,
{
    lemma_requests_survive_instructions(
        mem[cpu.pc as int],
        CpuState { pc: wrap16(cpu.pc + 1), ..cpu },
        mem,
    );
}

/// A pending non-maskable interrupt is taken before anything else, and a
/// pending interrupt request next, unless it is masked: the step executes
/// no instruction, takes seven cycles, consumes the request, and enters
/// the handler whose address the vector holds, with the address of the
/// instruction not yet executed as the return address.
pub proof fn lemma_interrupt_taken(cpu: CpuState, mem: Seq<u8>)
    requires
        is_memory(mem),
        cpu.nmi_pending || (cpu.irq_pending && !cpu.status.i),
    ensures
        ({
            let after = step(cpu, mem);
            let vector: u16 = if cpu.nmi_pending {
                0xFFFA
            } else {
                0xFFFE
            };
            &&& after.result == Ok::<u8, CpuError>(7)
            &&& after.cpu.pc == word_at(mem, vector)
            &&& after.cpu.status == (StatusRegister { b: true, i: true, ..cpu.status })
            &&& after.cpu.nmi_pending == false
            &&& after.cpu.irq_pending == (cpu.nmi_pending && cpu.irq_pending)
            &&& after.mem == interrupt_stack(cpu, mem, cpu.pc)
            &&& return_from_interrupt(after.cpu, after.mem).pc == cpu.pc
            &&& return_from_interrupt(after.cpu, after.mem).sp == cpu.sp
        }),
{
    let vector: u16 = if cpu.nmi_pending {
        0xFFFA
    } else {
        0xFFFE
    };
    let taken = if cpu.nmi_pending {
        CpuState { nmi_pending: false, ..cpu }
    } else {
        CpuState { irq_pending: false, ..cpu }
    };
    lemma_interrupt_entry(taken, mem, cpu.pc, vector);
    lemma_interrupt_return(taken, mem, cpu.pc, vector);
}

/// JSR at any address, followed by RTS as the first instruction of the
/// subroutine: after the two steps the program counter is three past the
/// JSR opcode, the stack pointer is what it was, and no register or flag
/// has changed. Each of the two instructions takes six cycles.
pub proof fn lemma_call_return_steps(cpu: CpuState, mem: Seq<u8>)
    requires
        is_memory(mem),
        !cpu.nmi_pending,
        !cpu.irq_pending || cpu.status.i,
        mem[cpu.pc as int] == 0x20,
        step(cpu, mem).mem[step(cpu, mem).cpu.pc as int] == 0x60,
    ensures
        ({
            let called = step(cpu, mem);
            let returned = step(called.cpu, called.mem);
            &&& called.result == Ok::<u8, CpuError>(6)
            &&& called.cpu.pc == word_at(mem, wrap16(cpu.pc + 1))
            &&& returned.result == Ok::<u8, CpuError>(6)
            &&& returned.cpu == (CpuState { pc: wrap16(cpu.pc + 3), ..cpu })
            &&& returned.mem == called.mem
        }),
{
    reveal(instruction_of);
    // The first step fetches 0x20, decodes it as JSR with an absolute
    // operand, and applies it with the program counter past the operand.
    let fetched = CpuState { pc: wrap16(cpu.pc + 1), ..cpu };
    let target = word_at(mem, fetched.pc);
    let next = CpuState { pc: wrap16(fetched.pc + 2), ..fetched };
    lemma_wrap16_sum(cpu.pc + 1, 2);
    lemma_call_return(next, mem, target);
    let called = step(cpu, mem);
    assert(called.cpu == control_effect(Operation::Jsr, next, mem, target).cpu);
    assert(called.mem == control_effect(Operation::Jsr, next, mem, target).mem);
    // No interrupt comes between the two instructions.
    assert(called.cpu.irq_pending == cpu.irq_pending && called.cpu.status == cpu.status) by {
        reveal(control_effect);
    }
    assert(!called.cpu.nmi_pending) by {
        reveal(control_effect);
    }
    // The second step fetches 0x60 and applies RTS, which does not care
    // where the program counter was.
    let inside = CpuState { pc: wrap16(called.cpu.pc + 1), ..called.cpu };
    lemma_wrap16(inside.pc as int);
    let returned = control_effect(Operation::Rts, inside, called.mem, 0);
    assert(step(called.cpu, called.mem).cpu == returned.cpu);
    assert(step(called.cpu, called.mem).mem == returned.mem);
    assert(returned.mem == called.mem && returned.cpu == control_effect(
        Operation::Rts,
        called.cpu,
        called.mem,
        0,
    ).cpu) by {
        reveal(control_effect);
    }
}

/// BRK at any address, with RTI as the first instruction of the handler:
/// after the two steps the program counter is two past the BRK opcode,
/// the stack pointer and the registers are what they were, and so is
/// every flag but break, which is set. BRK takes seven cycles and RTI six.
pub proof fn lemma_break_return_steps(cpu: CpuState, mem: Seq<u8>)
    requires
        is_memory(mem),
        !cpu.nmi_pending,
        !cpu.irq_pending || cpu.status.i,
        mem[cpu.pc as int] == 0x00,
        step(cpu, mem).mem[step(cpu, mem).cpu.pc as int] == 0x40,
    ensures
        ({
            let entered = step(cpu, mem);
            let returned = step(entered.cpu, entered.mem);
            &&& entered.result == Ok::<u8, CpuError>(7)
            &&& entered.cpu.pc == word_at(mem, IRQ_VECTOR)
            &&& entered.cpu.status == (StatusRegister { b: true, i: true, ..cpu.status })
            &&& returned.result == Ok::<u8, CpuError>(6)
            &&& returned.cpu == (CpuState {
                pc: wrap16(cpu.pc + 2),
                status: StatusRegister { b: true, ..cpu.status },
                ..cpu
            })
            &&& returned.mem == entered.mem
        }),
{
    reveal(instruction_of);
    let next = CpuState { pc: wrap16(cpu.pc + 1), ..cpu };
    lemma_wrap16(next.pc as int);
    lemma_wrap16_sum(cpu.pc + 1, 1);
    lemma_break_return(next, mem);
    // The first step fetches 0x00 and applies BRK.
    let entered = step(cpu, mem);
    let by_effect = control_effect(Operation::Brk, next, mem, 0);
    assert(entered.cpu == by_effect.cpu && entered.mem == by_effect.mem);
    // BRK has set interrupt disable, so no request is taken before RTI.
    assert(!entered.cpu.nmi_pending && entered.cpu.status.i) by {
        reveal(control_effect);
    }
    // The second step fetches 0x40 and applies RTI, which does not care
    // where the program counter was.
    let inside = CpuState { pc: wrap16(entered.cpu.pc + 1), ..entered.cpu };
    lemma_wrap16(inside.pc as int);
    let returned = control_effect(Operation::Rti, inside, entered.mem, 0);
    assert(step(entered.cpu, entered.mem).cpu == returned.cpu);
    assert(step(entered.cpu, entered.mem).mem == returned.mem);
    assert(returned.mem == entered.mem && returned.cpu == control_effect(
        Operation::Rti,
        entered.cpu,
        entered.mem,
        0,
    ).cpu) by {
        reveal(control_effect);
    }
}

/// PHP followed at once by PLP: after the two steps the program counter
/// is two further, the stack pointer and the registers are what they
/// were, and so is every flag but break, which is set as the byte on the
/// stack has it. PHP takes three cycles and PLP four.
pub proof fn lemma_push_pull_status_steps(cpu: CpuState, mem: Seq<u8>)
    requires
        is_memory(mem),
        !cpu.nmi_pending,
        !cpu.irq_pending || cpu.status.i,
        mem[cpu.pc as int] == 0x08,
        step(cpu, mem).mem[step(cpu, mem).cpu.pc as int] == 0x28,
    ensures
        ({
            let pushed = step(cpu, mem);
            let pulled = step(pushed.cpu, pushed.mem);
            &&& pushed.result == Ok::<u8, CpuError>(3)
            &&& pushed.cpu == (CpuState { pc: wrap16(cpu.pc + 1), sp: wrap8(cpu.sp - 1), ..cpu })
            &&& pushed.mem == mem.update(
                stack_address(cpu.sp) as int,
                (StatusRegister { b: true, ..cpu.status }).packed(),
            )
            &&& pulled.result == Ok::<u8, CpuError>(4)
            &&& pulled.cpu == (CpuState {
                pc: wrap16(cpu.pc + 2),
                status: StatusRegister { b: true, ..cpu.status },
                ..cpu
            })
            &&& pulled.mem == pushed.mem
        }),
{
    reveal(instruction_of);
    let next = CpuState { pc: wrap16(cpu.pc + 1), ..cpu };
    lemma_wrap16(next.pc as int);
    lemma_wrap16_sum(cpu.pc + 1, 1);
    lemma_push_pull_status(next, mem);
    // The first step fetches 0x08 and applies PHP.
    let pushed = step(cpu, mem);
    let by_effect = control_effect(Operation::Php, next, mem, 0);
    assert(pushed.cpu == by_effect.cpu && pushed.mem == by_effect.mem);
    assert(pushed.mem == mem.update(
        stack_address(cpu.sp) as int,
        (StatusRegister { b: true, ..cpu.status }).packed(),
    )) by {
        reveal(control_effect);
    }
    // The second step fetches 0x28 and applies PLP, which leaves the
    // program counter where the fetch put it.
    let inside = CpuState { pc: wrap16(pushed.cpu.pc + 1), ..pushed.cpu };
    lemma_wrap16(inside.pc as int);
    let pulled = control_effect(Operation::Plp, inside, pushed.mem, 0);
    assert(step(pushed.cpu, pushed.mem).cpu == pulled.cpu);
    assert(step(pushed.cpu, pushed.mem).mem == pulled.mem);
    assert(pulled.mem == pushed.mem && pulled.cpu == (CpuState {
        pc: inside.pc,
        ..control_effect(Operation::Plp, pushed.cpu, pushed.mem, 0).cpu
    })) by {
        reveal(control_effect);
    }
}

} // verus!
