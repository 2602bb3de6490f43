//! Word-addressed instruction memory as the disassembler reads it.

use vstd::prelude::*;

verus! {

/// Instruction memory: 16-bit words read at byte addresses. Decoders only
/// read addresses they can name, so availability is part of the contract
/// rather than a runtime failure.
pub trait Memory {
    /// Whether a word can be read at this byte address.
    spec fn has_word(&self, address: int) -> bool;

    /// The word stored at this byte address.
    spec fn word_at(&self, address: int) -> u16;

    fn read_word(&self, address: u32) -> (r: u16)
        requires
            self.has_word(address as int),
        ensures
            r == self.word_at(address as int),
    ;
}

/// A contiguous run of words starting at a base address: the simplest
/// instruction memory, fed directly with opcode and extension words.
pub struct MemoryVec {
    pub offset: u32,
    pub words: Vec<u16>,
}

impl MemoryVec {
    /// Memory whose first word sits at `pc` and continues word by word.
    pub fn new16(pc: u32, words: Vec<u16>) -> (r: Self)
        ensures
            r.offset == pc,
            r.words@ == words@,
    {
        MemoryVec { offset: pc, words }
    }
}

impl Memory for MemoryVec {
    open spec fn has_word(&self, address: int) -> bool {
        &&& address >= self.offset
        &&& (address - self.offset) % 2 == 0
        &&& (address - self.offset) / 2 < self.words@.len()
    }

    open spec fn word_at(&self, address: int) -> u16 {
        self.words@[(address - self.offset) / 2]
    }

    fn read_word(&self, address: u32) -> (r: u16)
    {
        let i = ((address - self.offset) / 2) as usize;
        self.words[i]
    }
}

} // verus!
