//! The flat 64 KiB memory: a byte array spanning the full 16-bit address
//! space. The CPU owns it for reads and writes; the host populates it with
//! a program image before execution begins.

use vstd::prelude::*;

verus! {

/// The number of addressable bytes: the full 16-bit address space.
pub const MEMORY_SIZE: usize = 0x10000;

/// A flat byte-addressable memory covering addresses 0x0000 through 0xFFFF.
pub struct Memory {
    bytes: Vec<u8>,
}

impl View for Memory {
    type V = Seq<u8>;

    closed spec fn view(&self) -> Seq<u8> {
        self.bytes@
    }
}

impl Memory {
    /// Well-formedness: the memory spans exactly the 16-bit address space,
    /// so that every 16-bit address is in bounds.
    pub open spec fn wf(&self) -> bool {
        self@.len() == MEMORY_SIZE
    }

    /// A fresh memory with every byte zeroed.
    pub fn new() -> (r: Memory)
        ensures
            r.wf(),
            r@ == Seq::<u8>::new(MEMORY_SIZE as nat, |i: int| 0u8),
    {
        let mut bytes: Vec<u8> = Vec::new();
        let mut i: usize = 0;
        while i < MEMORY_SIZE
            invariant
                i <= MEMORY_SIZE,
                bytes@.len() == i,
                forall|j: int| 0 <= j < i ==> bytes@[j] == 0u8,
            decreases MEMORY_SIZE - i,
        {
            bytes.push(0);
            i = i + 1;
        }
        let r = Memory { bytes };
        proof {
            assert(r@ =~= Seq::<u8>::new(MEMORY_SIZE as nat, |i: int| 0u8));
        }
        r
    }

    /// Reads the byte at a 16-bit address.
    pub fn get(&self, address: u16) -> (r: u8)
        requires
            self.wf(),
        ensures
            r == self@[address as int],
    {
        self.bytes[address as usize]
    }

    /// Writes the byte at a 16-bit address.
    pub fn set(&mut self, address: u16, value: u8)
        requires
            old(self).wf(),
        ensures
            final(self).wf(),
            final(self)@ == old(self)@.update(address as int, value),
    {
        self.bytes[address as usize] = value;
    }
}

} // verus!
