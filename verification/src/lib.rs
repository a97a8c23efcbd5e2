//! A cycle-counting emulator core for the MOS 6502 microprocessor.
//!
//! The crate has three parts: [`memory::Memory`], the flat 64 KiB address
//! space; [`register::StatusRegister`], the processor flags; and
//! [`cpu::CPU`], which takes pending interrupts and fetches, decodes and
//! executes one instruction per call of [`cpu::CPU::step`].
//!
//! What every instruction does is defined once, as pure functions over
//! plain values, in [`model`], with the arithmetic in [`alu`] and the
//! opcode matrix in [`instruction`]. The executable code is proved to
//! compute exactly that, and [`laws`] holds what follows from the
//! definitions for every state: that a return undoes a call, that flags
//! pushed come back when pulled, that a page crossed costs a read one
//! cycle and a write none.

pub mod bits;
pub mod error;
pub mod memory;
pub mod register;
pub mod instruction;
pub mod alu;
pub mod model;
pub mod cpu;
pub mod laws;
