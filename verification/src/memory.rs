//! The flat 64 KiB address space the processor reads and writes.

use vstd::prelude::*;

verus! {

/// Number of addressable bytes.
pub const MEMORY_SIZE: usize = 0x10000;

/// Whether `mem` has one byte for each 16-bit address.
pub open spec fn is_memory(mem: Seq<u8>) -> bool {
    mem.len() == MEMORY_SIZE
}

/// 65,536 bytes, one per 16-bit address.
pub struct Memory {
    data: [u8; 0x10000],
}

impl View for Memory {
    type V = Seq<u8>;

    closed spec fn view(&self) -> Seq<u8> {
        self.data@
    }
}

impl Memory {
    /// A memory with every byte zero.
    pub fn new() -> (m: Memory)
        ensures
            is_memory(m@),
            forall|a: int| 0 <= a < MEMORY_SIZE ==> m@[a] == 0u8,
    {
        Memory { data: [0u8; 0x10000] }
    }

    /// Every memory holds exactly 65,536 bytes, so that each 16-bit
    /// address names one of them.
    pub proof fn lemma_size(&self)
        ensures
            is_memory(self@),
    {
    }

    /// The byte stored at `address`.
    pub fn read(&self, address: u16) -> (value: u8)
        ensures
            value == self@[address as int],
    {
        self.data[address as usize]
    }

    /// Stores `data` at `address`, leaving every other byte as it was.
    pub fn write(&mut self, address: u16, data: u8)
        ensures
            final(self)@ == old(self)@.update(address as int, data),
    {
        self.data[address as usize] = data;
    }
}

} // verus!
