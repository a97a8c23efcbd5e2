//! The instruction set: operations, addressing modes, the opcode matrix and
//! the base cycle count of every instruction.

use vstd::prelude::*;

verus! {

/// What an instruction does, named by its mnemonic.
///
/// The three compare instructions are named alike here, after the
/// register they compare with: `Cpa`, which assemblers write CMP, beside
/// `Cpx` and `Cpy`.
#[derive(Debug, Clone, Copy, PartialEq, Eq, Structural)]
pub enum Operation {
    /// Add memory to the accumulator with carry.
    Adc,
    /// Bitwise AND of memory with the accumulator.
    And,
    /// Arithmetic shift left.
    Asl,
    /// Branch if carry clear.
    Bcc,
    /// Branch if carry set.
    Bcs,
    /// Branch if zero set.
    Beq,
    /// Test bits of memory against the accumulator.
    Bit,
    /// Branch if negative set.
    Bmi,
    /// Branch if zero clear.
    Bne,
    /// Branch if negative clear.
    Bpl,
    /// Software interrupt.
    Brk,
    /// Branch if overflow clear.
    Bvc,
    /// Branch if overflow set.
    Bvs,
    /// Clear carry.
    Clc,
    /// Clear decimal mode.
    Cld,
    /// Clear interrupt disable.
    Cli,
    /// Clear overflow.
    Clv,
    /// Compare memory with the accumulator.
    Cpa,
    /// Compare memory with X.
    Cpx,
    /// Compare memory with Y.
    Cpy,
    /// Decrement memory.
    Dec,
    /// Decrement X.
    Dex,
    /// Decrement Y.
    Dey,
    /// Bitwise exclusive OR of memory with the accumulator.
    Eor,
    /// Increment memory.
    Inc,
    /// Increment X.
    Inx,
    /// Increment Y.
    Iny,
    /// Jump.
    Jmp,
    /// Jump to subroutine.
    Jsr,
    /// Load the accumulator.
    Lda,
    /// Load X.
    Ldx,
    /// Load Y.
    Ldy,
    /// Logical shift right.
    Lsr,
    /// No operation.
    Nop,
    /// Bitwise OR of memory with the accumulator.
    Ora,
    /// Push the accumulator.
    Pha,
    /// Push the status register.
    Php,
    /// Pull the accumulator.
    Pla,
    /// Pull the status register.
    Plp,
    /// Rotate left through carry.
    Rol,
    /// Rotate right through carry.
    Ror,
    /// Return from interrupt.
    Rti,
    /// Return from subroutine.
    Rts,
    /// Subtract memory from the accumulator with borrow.
    Sbc,
    /// Set carry.
    Sec,
    /// Set decimal mode.
    Sed,
    /// Set interrupt disable.
    Sei,
    /// Store the accumulator.
    Sta,
    /// Store X.
    Stx,
    /// Store Y.
    Sty,
    /// Transfer the accumulator to X.
    Tax,
    /// Transfer the accumulator to Y.
    Tay,
    /// Transfer the stack pointer to X.
    Tsx,
    /// Transfer X to the accumulator.
    Txa,
    /// Transfer X to the stack pointer.
    Txs,
    /// Transfer Y to the accumulator.
    Tya,
}

/// How an instruction finds its operand.
#[derive(Debug, Clone, Copy, PartialEq, Eq, Structural)]
pub enum AddressingMode {
    /// No operand.
    Implied,
    /// The operand is the accumulator.
    Accumulator,
    /// The operand is the byte that follows the opcode.
    Immediate,
    /// The operand byte is an address in page zero.
    ZeroPage,
    /// Operand byte plus X, wrapping within page zero.
    ZeroPageX,
    /// Operand byte plus Y, wrapping within page zero.
    ZeroPageY,
    /// The two operand bytes are a little-endian address.
    Absolute,
    /// Absolute address plus X.
    AbsoluteX,
    /// Absolute address plus Y.
    AbsoluteY,
    /// The two operand bytes point at the little-endian target address.
    Indirect,
    /// Operand byte plus X, wrapping within page zero, points at the address.
    IndexedIndirect,
    /// The operand byte points, in page zero, at an address to which Y is added.
    IndirectIndexed,
    /// The operand byte is a signed offset from the next instruction.
    Relative,
}

/// How an operation uses the memory operand that its addressing mode names.
#[derive(Debug, Clone, Copy, PartialEq, Eq, Structural)]
pub enum Access {
    /// The operation neither reads nor writes memory at its operand.
    Neither,
    /// The operand is read.
    Read,
    /// The operand is written.
    Write,
    /// The operand is read, changed and written back.
    Modify,
}

/// A decoded instruction.
#[derive(Debug, Clone, Copy, PartialEq, Eq, Structural)]
pub struct Instruction {
    /// What it does.
    pub operation: Operation,
    /// Where its operand is.
    pub mode: AddressingMode,
}

impl AddressingMode {
    /// Number of operand bytes that follow the opcode.
    pub open spec fn operand_width(self) -> int {
        match self {
            AddressingMode::Implied | AddressingMode::Accumulator => 0,
            AddressingMode::Absolute
            | AddressingMode::AbsoluteX
            | AddressingMode::AbsoluteY
            | AddressingMode::Indirect => 2,
            _ => 1,
        }
    }

    /// Whether indexing in this mode can carry into the high byte of the
    /// address.
    pub open spec fn can_cross_page(self) -> bool {
        self == AddressingMode::AbsoluteX || self == AddressingMode::AbsoluteY || self
            == AddressingMode::IndirectIndexed
    }

    /// Cycles taken by an instruction that reads its operand in this mode,
    /// when no page boundary is crossed.
    pub open spec fn read_cycles(self) -> int {
        match self {
            AddressingMode::Implied
            | AddressingMode::Accumulator
            | AddressingMode::Immediate
            | AddressingMode::Relative => 2,
            AddressingMode::ZeroPage => 3,
            AddressingMode::ZeroPageX
            | AddressingMode::ZeroPageY
            | AddressingMode::Absolute
            | AddressingMode::AbsoluteX
            | AddressingMode::AbsoluteY => 4,
            AddressingMode::Indirect | AddressingMode::IndirectIndexed => 5,
            AddressingMode::IndexedIndirect => 6,
        }
    }

    /// Number of operand bytes that follow the opcode.
    pub fn operand_len(&self) -> (n: u16)
        ensures
            n == self.operand_width(),
    {
        match self {
            AddressingMode::Implied | AddressingMode::Accumulator => 0,
            AddressingMode::Absolute
            | AddressingMode::AbsoluteX
            | AddressingMode::AbsoluteY
            | AddressingMode::Indirect => 2,
            _ => 1,
        }
    }

    /// Whether indexing in this mode can carry into the high byte.
    pub fn crosses_pages(&self) -> (b: bool)
        ensures
            b == self.can_cross_page(),
    {
        match self {
            AddressingMode::AbsoluteX
            | AddressingMode::AbsoluteY
            | AddressingMode::IndirectIndexed => true,
            _ => false,
        }
    }
}

impl Operation {
    /// How the operation uses its memory operand.
    pub open spec fn access(self) -> Access {
        match self {
            Operation::Adc
            | Operation::And
            | Operation::Bit
            | Operation::Cpa
            | Operation::Cpx
            | Operation::Cpy
            | Operation::Eor
            | Operation::Lda
            | Operation::Ldx
            | Operation::Ldy
            | Operation::Ora
            | Operation::Sbc => Access::Read,
            Operation::Sta | Operation::Stx | Operation::Sty => Access::Write,
            Operation::Asl
            | Operation::Lsr
            | Operation::Rol
            | Operation::Ror
            | Operation::Inc
            | Operation::Dec => Access::Modify,
            _ => Access::Neither,
        }
    }

    /// Whether the operation is one of the eight conditional branches.
    pub open spec fn is_branch(self) -> bool {
        self == Operation::Bcc || self == Operation::Bcs || self == Operation::Beq || self
            == Operation::Bne || self == Operation::Bmi || self == Operation::Bpl || self
            == Operation::Bvc || self == Operation::Bvs
    }

    /// Whether the operation moves the program counter or uses the stack:
    /// the branches, JMP, JSR, RTS, RTI, BRK and the pushes and pulls.
    pub open spec fn is_control(self) -> bool {
        self.is_branch() || self == Operation::Jmp || self == Operation::Jsr || self
            == Operation::Rts || self == Operation::Rti || self == Operation::Brk || self
            == Operation::Pha || self == Operation::Php || self == Operation::Pla || self
            == Operation::Plp
    }

    /// Whether the operation moves the program counter or uses the stack.
    pub fn uses_stack_or_jumps(&self) -> (b: bool)
        ensures
            b == self.is_control(),
    {
        match self {
            Operation::Bcc | Operation::Bcs | Operation::Beq | Operation::Bne => true,
            Operation::Bmi | Operation::Bpl | Operation::Bvc | Operation::Bvs => true,
            Operation::Jmp | Operation::Jsr | Operation::Rts | Operation::Rti => true,
            Operation::Brk => true,
            Operation::Pha | Operation::Php | Operation::Pla | Operation::Plp => true,
            _ => false,
        }
    }

    /// How the operation uses its memory operand.
    pub fn access_kind(&self) -> (a: Access)
        ensures
            a == self.access(),
    {
        match self {
            Operation::Lda | Operation::Ldx | Operation::Ldy => Access::Read,
            Operation::Adc | Operation::Sbc => Access::Read,
            Operation::And | Operation::Ora | Operation::Eor | Operation::Bit => Access::Read,
            Operation::Cpa | Operation::Cpx | Operation::Cpy => Access::Read,
            Operation::Sta | Operation::Stx | Operation::Sty => Access::Write,
            Operation::Asl | Operation::Lsr | Operation::Rol | Operation::Ror => Access::Modify,
            Operation::Inc | Operation::Dec => Access::Modify,
            _ => Access::Neither,
        }
    }
}

impl Instruction {
    /// Cycles the instruction takes before any penalty: a page crossed by a
    /// read, or a branch taken.
    ///
    /// A read costs what its addressing mode costs. A write in a mode that
    /// can cross a page always pays the extra cycle. An instruction that
    /// changes memory in place pays that and two cycles more. Instructions
    /// that use the stack or change the program counter have counts of
    /// their own.
    pub open spec fn base_cycles(self) -> int {
        let indexed: int = if self.mode.can_cross_page() {
            1
        } else {
            0
        };
        match self.operation {
            Operation::Brk => 7,
            Operation::Jsr | Operation::Rts | Operation::Rti => 6,
            Operation::Pla | Operation::Plp => 4,
            Operation::Pha | Operation::Php => 3,
            Operation::Jmp => if self.mode == AddressingMode::Indirect {
                5
            } else {
                3
            },
            _ => match self.operation.access() {
                Access::Read => self.mode.read_cycles(),
                Access::Write => self.mode.read_cycles() + indexed,
                Access::Modify => if self.mode == AddressingMode::Accumulator {
                    2
                } else {
                    self.mode.read_cycles() + indexed + 2
                },
                Access::Neither => 2,
            },
        }
    }

    /// Whether crossing a page boundary while indexing costs this
    /// instruction one more cycle: it does for reads, never for writes.
    pub open spec fn pays_page_penalty(self) -> bool {
        self.operation.access() == Access::Read && self.mode.can_cross_page()
    }

    /// Cycles the instruction takes before any penalty.
    pub fn cycles(&self) -> (n: u8)
        ensures
            n == self.base_cycles(),
            2 <= n <= 8,
    {
        let mode_cost: u8 = match self.mode {
            AddressingMode::ZeroPage => 3,
            AddressingMode::ZeroPageX | AddressingMode::ZeroPageY => 4,
            AddressingMode::Absolute | AddressingMode::AbsoluteX | AddressingMode::AbsoluteY => 4,
            AddressingMode::Indirect | AddressingMode::IndirectIndexed => 5,
            AddressingMode::IndexedIndirect => 6,
            _ => 2,
        };
        let indexed: u8 = if self.mode.crosses_pages() {
            1
        } else {
            0
        };
        match self.operation {
            Operation::Brk => 7,
            Operation::Jsr | Operation::Rts | Operation::Rti => 6,
            Operation::Pla | Operation::Plp => 4,
            Operation::Pha | Operation::Php => 3,
            Operation::Jmp => match self.mode {
                AddressingMode::Indirect => 5,
                _ => 3,
            },
            _ => match self.operation.access_kind() {
                Access::Read => mode_cost,
                Access::Write => mode_cost + indexed,
                Access::Modify => match self.mode {
                    AddressingMode::Accumulator => 2,
                    _ => mode_cost + indexed + 2,
                },
                Access::Neither => 2,
            },
        }
    }

    /// Whether a page crossed while indexing costs one more cycle.
    pub fn has_page_penalty(&self) -> (b: bool)
        ensures
            b == self.pays_page_penalty(),
    {
        match self.operation.access_kind() {
            Access::Read => self.mode.crosses_pages(),
            _ => false,
        }
    }
}

/// The opcode matrix: the instruction that each byte stands for, or `None`
/// for a byte that is no legal opcode.
#[verifier::opaque]
pub open spec fn instruction_of(opcode: u8) -> Option<Instruction> {
    match opcode {
        0x00 => Some(Instruction { operation: Operation::Brk, mode: AddressingMode::Implied }),
        0x01 => Some(Instruction { operation: Operation::Ora, mode: AddressingMode::IndexedIndirect }),
        0x05 => Some(Instruction { operation: Operation::Ora, mode: AddressingMode::ZeroPage }),
        0x06 => Some(Instruction { operation: Operation::Asl, mode: AddressingMode::ZeroPage }),
        0x08 => Some(Instruction { operation: Operation::Php, mode: AddressingMode::Implied }),
        0x09 => Some(Instruction { operation: Operation::Ora, mode: AddressingMode::Immediate }),
        0x0A => Some(Instruction { operation: Operation::Asl, mode: AddressingMode::Accumulator }),
        0x0D => Some(Instruction { operation: Operation::Ora, mode: AddressingMode::Absolute }),
        0x0E => Some(Instruction { operation: Operation::Asl, mode: AddressingMode::Absolute }),
        0x10 => Some(Instruction { operation: Operation::Bpl, mode: AddressingMode::Relative }),
        0x11 => Some(Instruction { operation: Operation::Ora, mode: AddressingMode::IndirectIndexed }),
        0x15 => Some(Instruction { operation: Operation::Ora, mode: AddressingMode::ZeroPageX }),
        0x16 => Some(Instruction { operation: Operation::Asl, mode: AddressingMode::ZeroPageX }),
        0x18 => Some(Instruction { operation: Operation::Clc, mode: AddressingMode::Implied }),
        0x19 => Some(Instruction { operation: Operation::Ora, mode: AddressingMode::AbsoluteY }),
        0x1D => Some(Instruction { operation: Operation::Ora, mode: AddressingMode::AbsoluteX }),
        0x1E => Some(Instruction { operation: Operation::Asl, mode: AddressingMode::AbsoluteX }),
        0x20 => Some(Instruction { operation: Operation::Jsr, mode: AddressingMode::Absolute }),
        0x21 => Some(Instruction { operation: Operation::And, mode: AddressingMode::IndexedIndirect }),
        0x24 => Some(Instruction { operation: Operation::Bit, mode: AddressingMode::ZeroPage }),
        0x25 => Some(Instruction { operation: Operation::And, mode: AddressingMode::ZeroPage }),
        0x26 => Some(Instruction { operation: Operation::Rol, mode: AddressingMode::ZeroPage }),
        0x28 => Some(Instruction { operation: Operation::Plp, mode: AddressingMode::Implied }),
        0x29 => Some(Instruction { operation: Operation::And, mode: AddressingMode::Immediate }),
        0x2A => Some(Instruction { operation: Operation::Rol, mode: AddressingMode::Accumulator }),
        0x2C => Some(Instruction { operation: Operation::Bit, mode: AddressingMode::Absolute }),
        0x2D => Some(Instruction { operation: Operation::And, mode: AddressingMode::Absolute }),
        0x2E => Some(Instruction { operation: Operation::Rol, mode: AddressingMode::Absolute }),
        0x30 => Some(Instruction { operation: Operation::Bmi, mode: AddressingMode::Relative }),
        0x31 => Some(Instruction { operation: Operation::And, mode: AddressingMode::IndirectIndexed }),
        0x35 => Some(Instruction { operation: Operation::And, mode: AddressingMode::ZeroPageX }),
        0x36 => Some(Instruction { operation: Operation::Rol, mode: AddressingMode::ZeroPageX }),
        0x38 => Some(Instruction { operation: Operation::Sec, mode: AddressingMode::Implied }),
        0x39 => Some(Instruction { operation: Operation::And, mode: AddressingMode::AbsoluteY }),
        0x3D => Some(Instruction { operation: Operation::And, mode: AddressingMode::AbsoluteX }),
        0x3E => Some(Instruction { operation: Operation::Rol, mode: AddressingMode::AbsoluteX }),
        0x40 => Some(Instruction { operation: Operation::Rti, mode: AddressingMode::Implied }),
        0x41 => Some(Instruction { operation: Operation::Eor, mode: AddressingMode::IndexedIndirect }),
        0x45 => Some(Instruction { operation: Operation::Eor, mode: AddressingMode::ZeroPage }),
        0x46 => Some(Instruction { operation: Operation::Lsr, mode: AddressingMode::ZeroPage }),
        0x48 => Some(Instruction { operation: Operation::Pha, mode: AddressingMode::Implied }),
        0x49 => Some(Instruction { operation: Operation::Eor, mode: AddressingMode::Immediate }),
        0x4A => Some(Instruction { operation: Operation::Lsr, mode: AddressingMode::Accumulator }),
        0x4C => Some(Instruction { operation: Operation::Jmp, mode: AddressingMode::Absolute }),
        0x4D => Some(Instruction { operation: Operation::Eor, mode: AddressingMode::Absolute }),
        0x4E => Some(Instruction { operation: Operation::Lsr, mode: AddressingMode::Absolute }),
        0x50 => Some(Instruction { operation: Operation::Bvc, mode: AddressingMode::Relative }),
        0x51 => Some(Instruction { operation: Operation::Eor, mode: AddressingMode::IndirectIndexed }),
        0x55 => Some(Instruction { operation: Operation::Eor, mode: AddressingMode::ZeroPageX }),
        0x56 => Some(Instruction { operation: Operation::Lsr, mode: AddressingMode::ZeroPageX }),
        0x58 => Some(Instruction { operation: Operation::Cli, mode: AddressingMode::Implied }),
        0x59 => Some(Instruction { operation: Operation::Eor, mode: AddressingMode::AbsoluteY }),
        0x5D => Some(Instruction { operation: Operation::Eor, mode: AddressingMode::AbsoluteX }),
        0x5E => Some(Instruction { operation: Operation::Lsr, mode: AddressingMode::AbsoluteX }),
        0x60 => Some(Instruction { operation: Operation::Rts, mode: AddressingMode::Implied }),
        0x61 => Some(Instruction { operation: Operation::Adc, mode: AddressingMode::IndexedIndirect }),
        0x65 => Some(Instruction { operation: Operation::Adc, mode: AddressingMode::ZeroPage }),
        0x66 => Some(Instruction { operation: Operation::Ror, mode: AddressingMode::ZeroPage }),
        0x68 => Some(Instruction { operation: Operation::Pla, mode: AddressingMode::Implied }),
        0x69 => Some(Instruction { operation: Operation::Adc, mode: AddressingMode::Immediate }),
        0x6A => Some(Instruction { operation: Operation::Ror, mode: AddressingMode::Accumulator }),
        0x6C => Some(Instruction { operation: Operation::Jmp, mode: AddressingMode::Indirect }),
        0x6D => Some(Instruction { operation: Operation::Adc, mode: AddressingMode::Absolute }),
        0x6E => Some(Instruction { operation: Operation::Ror, mode: AddressingMode::Absolute }),
        0x70 => Some(Instruction { operation: Operation::Bvs, mode: AddressingMode::Relative }),
        0x71 => Some(Instruction { operation: Operation::Adc, mode: AddressingMode::IndirectIndexed }),
        0x75 => Some(Instruction { operation: Operation::Adc, mode: AddressingMode::ZeroPageX }),
        0x76 => Some(Instruction { operation: Operation::Ror, mode: AddressingMode::ZeroPageX }),
        0x78 => Some(Instruction { operation: Operation::Sei, mode: AddressingMode::Implied }),
        0x79 => Some(Instruction { operation: Operation::Adc, mode: AddressingMode::AbsoluteY }),
        0x7D => Some(Instruction { operation: Operation::Adc, mode: AddressingMode::AbsoluteX }),
        0x7E => Some(Instruction { operation: Operation::Ror, mode: AddressingMode::AbsoluteX }),
        0x81 => Some(Instruction { operation: Operation::Sta, mode: AddressingMode::IndexedIndirect }),
        0x84 => Some(Instruction { operation: Operation::Sty, mode: AddressingMode::ZeroPage }),
        0x85 => Some(Instruction { operation: Operation::Sta, mode: AddressingMode::ZeroPage }),
        0x86 => Some(Instruction { operation: Operation::Stx, mode: AddressingMode::ZeroPage }),
        0x88 => Some(Instruction { operation: Operation::Dey, mode: AddressingMode::Implied }),
        0x8A => Some(Instruction { operation: Operation::Txa, mode: AddressingMode::Implied }),
        0x8C => Some(Instruction { operation: Operation::Sty, mode: AddressingMode::Absolute }),
        0x8D => Some(Instruction { operation: Operation::Sta, mode: AddressingMode::Absolute }),
        0x8E => Some(Instruction { operation: Operation::Stx, mode: AddressingMode::Absolute }),
        0x90 => Some(Instruction { operation: Operation::Bcc, mode: AddressingMode::Relative }),
        0x91 => Some(Instruction { operation: Operation::Sta, mode: AddressingMode::IndirectIndexed }),
        0x94 => Some(Instruction { operation: Operation::Sty, mode: AddressingMode::ZeroPageX }),
        0x95 => Some(Instruction { operation: Operation::Sta, mode: AddressingMode::ZeroPageX }),
        0x96 => Some(Instruction { operation: Operation::Stx, mode: AddressingMode::ZeroPageY }),
        0x98 => Some(Instruction { operation: Operation::Tya, mode: AddressingMode::Implied }),
        0x99 => Some(Instruction { operation: Operation::Sta, mode: AddressingMode::AbsoluteY }),
        0x9A => Some(Instruction { operation: Operation::Txs, mode: AddressingMode::Implied }),
        0x9D => Some(Instruction { operation: Operation::Sta, mode: AddressingMode::AbsoluteX }),
        0xA0 => Some(Instruction { operation: Operation::Ldy, mode: AddressingMode::Immediate }),
        0xA1 => Some(Instruction { operation: Operation::Lda, mode: AddressingMode::IndexedIndirect }),
        0xA2 => Some(Instruction { operation: Operation::Ldx, mode: AddressingMode::Immediate }),
        0xA4 => Some(Instruction { operation: Operation::Ldy, mode: AddressingMode::ZeroPage }),
        0xA5 => Some(Instruction { operation: Operation::Lda, mode: AddressingMode::ZeroPage }),
        0xA6 => Some(Instruction { operation: Operation::Ldx, mode: AddressingMode::ZeroPage }),
        0xA8 => Some(Instruction { operation: Operation::Tay, mode: AddressingMode::Implied }),
        0xA9 => Some(Instruction { operation: Operation::Lda, mode: AddressingMode::Immediate }),
        0xAA => Some(Instruction { operation: Operation::Tax, mode: AddressingMode::Implied }),
        0xAC => Some(Instruction { operation: Operation::Ldy, mode: AddressingMode::Absolute }),
        0xAD => Some(Instruction { operation: Operation::Lda, mode: AddressingMode::Absolute }),
        0xAE => Some(Instruction { operation: Operation::Ldx, mode: AddressingMode::Absolute }),
        0xB0 => Some(Instruction { operation: Operation::Bcs, mode: AddressingMode::Relative }),
        0xB1 => Some(Instruction { operation: Operation::Lda, mode: AddressingMode::IndirectIndexed }),
        0xB4 => Some(Instruction { operation: Operation::Ldy, mode: AddressingMode::ZeroPageX }),
        0xB5 => Some(Instruction { operation: Operation::Lda, mode: AddressingMode::ZeroPageX }),
        0xB6 => Some(Instruction { operation: Operation::Ldx, mode: AddressingMode::ZeroPageY }),
        0xB8 => Some(Instruction { operation: Operation::Clv, mode: AddressingMode::Implied }),
        0xB9 => Some(Instruction { operation: Operation::Lda, mode: AddressingMode::AbsoluteY }),
        0xBA => Some(Instruction { operation: Operation::Tsx, mode: AddressingMode::Implied }),
        0xBC => Some(Instruction { operation: Operation::Ldy, mode: AddressingMode::AbsoluteX }),
        0xBD => Some(Instruction { operation: Operation::Lda, mode: AddressingMode::AbsoluteX }),
        0xBE => Some(Instruction { operation: Operation::Ldx, mode: AddressingMode::AbsoluteY }),
        0xC0 => Some(Instruction { operation: Operation::Cpy, mode: AddressingMode::Immediate }),
        0xC1 => Some(Instruction { operation: Operation::Cpa, mode: AddressingMode::IndexedIndirect }),
        0xC4 => Some(Instruction { operation: Operation::Cpy, mode: AddressingMode::ZeroPage }),
        0xC5 => Some(Instruction { operation: Operation::Cpa, mode: AddressingMode::ZeroPage }),
        0xC6 => Some(Instruction { operation: Operation::Dec, mode: AddressingMode::ZeroPage }),
        0xC8 => Some(Instruction { operation: Operation::Iny, mode: AddressingMode::Implied }),
        0xC9 => Some(Instruction { operation: Operation::Cpa, mode: AddressingMode::Immediate }),
        0xCA => Some(Instruction { operation: Operation::Dex, mode: AddressingMode::Implied }),
        0xCC => Some(Instruction { operation: Operation::Cpy, mode: AddressingMode::Absolute }),
        0xCD => Some(Instruction { operation: Operation::Cpa, mode: AddressingMode::Absolute }),
        0xCE => Some(Instruction { operation: Operation::Dec, mode: AddressingMode::Absolute }),
        0xD0 => Some(Instruction { operation: Operation::Bne, mode: AddressingMode::Relative }),
        0xD1 => Some(Instruction { operation: Operation::Cpa, mode: AddressingMode::IndirectIndexed }),
        0xD5 => Some(Instruction { operation: Operation::Cpa, mode: AddressingMode::ZeroPageX }),
        0xD6 => Some(Instruction { operation: Operation::Dec, mode: AddressingMode::ZeroPageX }),
        0xD8 => Some(Instruction { operation: Operation::Cld, mode: AddressingMode::Implied }),
        0xD9 => Some(Instruction { operation: Operation::Cpa, mode: AddressingMode::AbsoluteY }),
        0xDD => Some(Instruction { operation: Operation::Cpa, mode: AddressingMode::AbsoluteX }),
        0xDE => Some(Instruction { operation: Operation::Dec, mode: AddressingMode::AbsoluteX }),
        0xE0 => Some(Instruction { operation: Operation::Cpx, mode: AddressingMode::Immediate }),
        0xE1 => Some(Instruction { operation: Operation::Sbc, mode: AddressingMode::IndexedIndirect }),
        0xE4 => Some(Instruction { operation: Operation::Cpx, mode: AddressingMode::ZeroPage }),
        0xE5 => Some(Instruction { operation: Operation::Sbc, mode: AddressingMode::ZeroPage }),
        0xE6 => Some(Instruction { operation: Operation::Inc, mode: AddressingMode::ZeroPage }),
        0xE8 => Some(Instruction { operation: Operation::Inx, mode: AddressingMode::Implied }),
        0xE9 => Some(Instruction { operation: Operation::Sbc, mode: AddressingMode::Immediate }),
        0xEA => Some(Instruction { operation: Operation::Nop, mode: AddressingMode::Implied }),
        0xEC => Some(Instruction { operation: Operation::Cpx, mode: AddressingMode::Absolute }),
        0xED => Some(Instruction { operation: Operation::Sbc, mode: AddressingMode::Absolute }),
        0xEE => Some(Instruction { operation: Operation::Inc, mode: AddressingMode::Absolute }),
        0xF0 => Some(Instruction { operation: Operation::Beq, mode: AddressingMode::Relative }),
        0xF1 => Some(Instruction { operation: Operation::Sbc, mode: AddressingMode::IndirectIndexed }),
        0xF5 => Some(Instruction { operation: Operation::Sbc, mode: AddressingMode::ZeroPageX }),
        0xF6 => Some(Instruction { operation: Operation::Inc, mode: AddressingMode::ZeroPageX }),
        0xF8 => Some(Instruction { operation: Operation::Sed, mode: AddressingMode::Implied }),
        0xF9 => Some(Instruction { operation: Operation::Sbc, mode: AddressingMode::AbsoluteY }),
        0xFD => Some(Instruction { operation: Operation::Sbc, mode: AddressingMode::AbsoluteX }),
        0xFE => Some(Instruction { operation: Operation::Inc, mode: AddressingMode::AbsoluteX }),
        _ => None,
    }
}

/// Decodes an opcode byte.
///
/// Returns `None` exactly for the bytes that the opcode matrix leaves empty.
pub fn decode(opcode: u8) -> (instruction: Option<Instruction>)
    ensures
        instruction == instruction_of(opcode),
{
    proof {
        reveal(instruction_of);
    }
    match operation_for(opcode) {
        None => None,
        Some(operation) => Some(Instruction { operation, mode: mode_for(opcode) }),
    }
}

/// The operation that an opcode byte selects, listed by mnemonic.
fn operation_for(opcode: u8) -> (operation: Option<Operation>)
    ensures
        match instruction_of(opcode) {
            Some(i) => operation == Some(i.operation),
            None => operation is None,
        },
{
    proof {
        reveal(instruction_of);
    }
    Some(
        match opcode {
            0x61 | 0x65 | 0x69 | 0x6D | 0x71 | 0x75 | 0x79 | 0x7D => Operation::Adc,
            0x21 | 0x25 | 0x29 | 0x2D | 0x31 | 0x35 | 0x39 | 0x3D => Operation::And,
            0x06 | 0x0A | 0x0E | 0x16 | 0x1E => Operation::Asl,
            0x90 => Operation::Bcc,
            0xB0 => Operation::Bcs,
            0xF0 => Operation::Beq,
            0x24 | 0x2C => Operation::Bit,
            0x30 => Operation::Bmi,
            0xD0 => Operation::Bne,
            0x10 => Operation::Bpl,
            0x00 => Operation::Brk,
            0x50 => Operation::Bvc,
            0x70 => Operation::Bvs,
            0x18 => Operation::Clc,
            0xD8 => Operation::Cld,
            0x58 => Operation::Cli,
            0xB8 => Operation::Clv,
            0xC1 | 0xC5 | 0xC9 | 0xCD | 0xD1 | 0xD5 | 0xD9 | 0xDD => Operation::Cpa,
            0xE0 | 0xE4 | 0xEC => Operation::Cpx,
            0xC0 | 0xC4 | 0xCC => Operation::Cpy,
            0xC6 | 0xCE | 0xD6 | 0xDE => Operation::Dec,
            0xCA => Operation::Dex,
            0x88 => Operation::Dey,
            0x41 | 0x45 | 0x49 | 0x4D | 0x51 | 0x55 | 0x59 | 0x5D => Operation::Eor,
            0xE6 | 0xEE | 0xF6 | 0xFE => Operation::Inc,
            0xE8 => Operation::Inx,
            0xC8 => Operation::Iny,
            0x4C | 0x6C => Operation::Jmp,
            0x20 => Operation::Jsr,
            0xA1 | 0xA5 | 0xA9 | 0xAD | 0xB1 | 0xB5 | 0xB9 | 0xBD => Operation::Lda,
            0xA2 | 0xA6 | 0xAE | 0xB6 | 0xBE => Operation::Ldx,
            0xA0 | 0xA4 | 0xAC | 0xB4 | 0xBC => Operation::Ldy,
            0x46 | 0x4A | 0x4E | 0x56 | 0x5E => Operation::Lsr,
            0xEA => Operation::Nop,
            0x01 | 0x05 | 0x09 | 0x0D | 0x11 | 0x15 | 0x19 | 0x1D => Operation::Ora,
            0x48 => Operation::Pha,
            0x08 => Operation::Php,
            0x68 => Operation::Pla,
            0x28 => Operation::Plp,
            0x26 | 0x2A | 0x2E | 0x36 | 0x3E => Operation::Rol,
            0x66 | 0x6A | 0x6E | 0x76 | 0x7E => Operation::Ror,
            0x40 => Operation::Rti,
            0x60 => Operation::Rts,
            0xE1 | 0xE5 | 0xE9 | 0xED | 0xF1 | 0xF5 | 0xF9 | 0xFD => Operation::Sbc,
            0x38 => Operation::Sec,
            0xF8 => Operation::Sed,
            0x78 => Operation::Sei,
            0x81 | 0x85 | 0x8D | 0x91 | 0x95 | 0x99 | 0x9D => Operation::Sta,
            0x86 | 0x8E | 0x96 => Operation::Stx,
            0x84 | 0x8C | 0x94 => Operation::Sty,
            0xAA => Operation::Tax,
            0xA8 => Operation::Tay,
            0xBA => Operation::Tsx,
            0x8A => Operation::Txa,
            0x9A => Operation::Txs,
            0x98 => Operation::Tya,
            _ => {
                return None;
            },
        },
    )
}

/// The addressing mode that an opcode byte selects, listed by mode; a byte
/// that is in no list has no operand.
fn mode_for(opcode: u8) -> (mode: AddressingMode)
    ensures
        instruction_of(opcode) matches Some(i) ==> mode == i.mode,
{
    proof {
        reveal(instruction_of);
    }
    match opcode {
            0x0A | 0x2A | 0x4A | 0x6A => AddressingMode::Accumulator,
            0x09 | 0x29 | 0x49 | 0x69 | 0xA0 | 0xA2 | 0xA9 | 0xC0 | 0xC9 | 0xE0 | 0xE9 => AddressingMode::Immediate,
            0x05 | 0x06 | 0x24 | 0x25 | 0x26 | 0x45 | 0x46 | 0x65 | 0x66 | 0x84 | 0x85
            | 0x86 | 0xA4 | 0xA5 | 0xA6 | 0xC4 | 0xC5 | 0xC6 | 0xE4 | 0xE5 | 0xE6 => AddressingMode::ZeroPage,
            0x15 | 0x16 | 0x35 | 0x36 | 0x55 | 0x56 | 0x75 | 0x76 | 0x94 | 0x95 | 0xB4
            | 0xB5 | 0xD5 | 0xD6 | 0xF5 | 0xF6 => AddressingMode::ZeroPageX,
            0x96 | 0xB6 => AddressingMode::ZeroPageY,
            0x0D | 0x0E | 0x20 | 0x2C | 0x2D | 0x2E | 0x4C | 0x4D | 0x4E | 0x6D | 0x6E
            | 0x8C | 0x8D | 0x8E | 0xAC | 0xAD | 0xAE | 0xCC | 0xCD | 0xCE | 0xEC | 0xED
            | 0xEE => AddressingMode::Absolute,
            0x1D | 0x1E | 0x3D | 0x3E | 0x5D | 0x5E | 0x7D | 0x7E | 0x9D | 0xBC | 0xBD
            | 0xDD | 0xDE | 0xFD | 0xFE => AddressingMode::AbsoluteX,
            0x19 | 0x39 | 0x59 | 0x79 | 0x99 | 0xB9 | 0xBE | 0xD9 | 0xF9 => AddressingMode::AbsoluteY,
            0x6C => AddressingMode::Indirect,
            0x01 | 0x21 | 0x41 | 0x61 | 0x81 | 0xA1 | 0xC1 | 0xE1 => AddressingMode::IndexedIndirect,
            0x11 | 0x31 | 0x51 | 0x71 | 0x91 | 0xB1 | 0xD1 | 0xF1 => AddressingMode::IndirectIndexed,
            0x10 | 0x30 | 0x50 | 0x70 | 0x90 | 0xB0 | 0xD0 | 0xF0 => AddressingMode::Relative,
        _ => AddressingMode::Implied,
    }
}

} // verus!
