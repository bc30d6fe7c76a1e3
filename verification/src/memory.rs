//! Flat word-addressed memory.
//!
//! The store holds one 16-bit word for every address a 16-bit address can
//! name, so reads and writes are total: no out-of-range address exists.

use vstd::array::ArrayAdditionalExecFns;
use vstd::prelude::*;

verus! {

/// Number of words in memory: one for each 16-bit address.
pub const MEM_WORDS: usize = 65536;

/// Flat addressable word store. Its view is the sequence of all 65536 words.
pub struct Memory {
    data: [u16; MEM_WORDS],
}

impl View for Memory {
    type V = Seq<u16>;

    closed spec fn view(&self) -> Seq<u16> {
        self.data@
    }
}

impl Memory {
    /// Every memory value holds exactly one word per 16-bit address.
    pub proof fn lemma_size(&self)
        ensures
            self@.len() == MEM_WORDS,
    {
    }

    /// A fresh memory with every word zeroed.
    pub fn new() -> (m: Memory)
        ensures
            m@.len() == MEM_WORDS,
            forall|a: int| 0 <= a < MEM_WORDS ==> m@[a] == 0u16,
    {
        Memory { data: [0u16; MEM_WORDS] }
    }

    /// Reads the word at `address`. Total: every 16-bit address is in range.
    pub fn read(&self, address: u16) -> (w: u16)
        ensures
            w == self@[address as int],
    {
        self.data[address as usize]
    }

    /// Stores `value` at `address`, leaving every other word unchanged.
    pub fn write(&mut self, address: u16, value: u16)
        ensures
            final(self)@ == old(self)@.update(address as int, value),
    {
        self.data.set(address as usize, value);
    }
}

} // verus!
