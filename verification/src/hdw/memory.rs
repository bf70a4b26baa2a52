use vstd::prelude::*;
use vstd::array::spec_array_update;

verus! {

broadcast use vstd::array::group_array_axioms;

/// A flat 64K-minus-one byte store for addresses 0x0000-0xFFFE.
pub struct Memory {
    pub memory: [u8; 0xFFFF],
}

impl Memory {
    pub fn new() -> (r: Self)
        ensures
            forall|i: int| 0 <= i < 0xFFFF ==> r.memory@[i] == 0,
    {
        Memory { memory: [0; 0xFFFF] }
    }

    pub fn read_byte(&self, address: u16) -> (r: u8)
        requires
            address < 0xFFFF,
        ensures
            r == self.memory@[address as int],
    {
        self.memory[address as usize]
    }

    /// Stores `value`; a write to 0xFFFF, which lies outside the store, is ignored.
    pub fn write_byte(&mut self, address: u16, value: u8)
        ensures
            address < 0xFFFF ==> final(self).memory == spec_array_update(old(self).memory, address as int, value),
            address == 0xFFFF ==> final(self).memory == old(self).memory,
    {
        if address < 0xFFFF {
            self.memory[address as usize] = value;
        }
    }
}

} // verus!
