//! The one condition that the processor reports instead of carrying on.

use vstd::prelude::*;

verus! {

/// The error that the processor reports.
///
/// Addresses, registers and the stack pointer wrap around and never fail;
/// the only thing the processor cannot do is execute a byte that stands
/// for no instruction. It reports the byte and leaves it to its driver to
/// stop or to carry on.
#[derive(Debug, Clone, Copy, PartialEq, Eq, Structural)]
pub enum CpuError {
    /// The byte fetched as an opcode stands for no instruction.
    IllegalOpcode(u8),
}

} // verus!
