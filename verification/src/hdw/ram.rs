use vstd::prelude::*;
use vstd::array::spec_array_update;

verus! {

broadcast use vstd::array::group_array_axioms;

/// Work RAM (0xC000-0xDFFF) and high RAM (0xFF80-0xFFFF).
#[derive(Copy, Clone)]
pub struct RAM {
    pub wram: [u8; 0x2000],
    pub hram: [u8; 0x80],
}

impl RAM {
    pub open spec fn wram_at(self, address: u16) -> u8 {
        self.wram@[address - 0xC000]
    }

    pub open spec fn hram_at(self, address: u16) -> u8 {
        self.hram@[address - 0xFF80]
    }

    pub open spec fn wram_written(self, address: u16, value: u8) -> RAM {
        RAM { wram: spec_array_update(self.wram, address - 0xC000, value), ..self }
    }

    pub open spec fn hram_written(self, address: u16, value: u8) -> RAM {
        RAM { hram: spec_array_update(self.hram, address - 0xFF80, value), ..self }
    }

    pub fn new() -> (r: Self)
        ensures
            forall|i: int| 0 <= i < 0x2000 ==> r.wram@[i] == 0,
            forall|i: int| 0 <= i < 0x80 ==> r.hram@[i] == 0,
    {
        RAM { wram: [0; 0x2000], hram: [0; 0x80] }
    }

    pub fn wram_read(&self, address: u16) -> (r: u8)
        requires
            0xC000 <= address < 0xE000,
        ensures
            r == self.wram_at(address),
    {
        let offset_address = address - 0xC000;
        self.wram[offset_address as usize]
    }

    pub fn wram_write(&mut self, address: u16, value: u8)
        requires
            0xC000 <= address < 0xE000,
        ensures
            *final(self) == old(self).wram_written(address, value),
    {
        let offset_address = address - 0xC000;
        self.wram[offset_address as usize] = value;
    }

    pub fn hram_read(&self, address: u16) -> (r: u8)
        requires
            0xFF80 <= address,
        ensures
            r == self.hram_at(address),
    {
        let offset_address = address - 0xFF80;
        self.hram[offset_address as usize]
    }

    pub fn hram_write(&mut self, address: u16, value: u8)
        requires
            0xFF80 <= address,
        ensures
            *final(self) == old(self).hram_written(address, value),
    {
        let offset_address = address - 0xFF80;
        self.hram[offset_address as usize] = value;
    }
}

/// What is written to work RAM is read back from it, and no other byte changes.
pub proof fn law_wram_read_after_write(ram: RAM, address: u16, other: u16, value: u8)
    requires
        0xC000 <= address < 0xE000,
        0xC000 <= other < 0xE000,
    ensures
        ram.wram_written(address, value).wram_at(address) == value,
        other != address ==> ram.wram_written(address, value).wram_at(other) == ram.wram_at(other),
{
}

} // verus!
