//! Flat 64KB memory for the early interpreter: a plain byte array with
//! little-endian two-byte access.

use vstd::prelude::*;

verus! {

pub const MEMORY_SIZE: usize = 65536;

/// The whole 16-bit address space as one byte array.
pub struct Memory {
    pub array: Vec<u8>,
}

impl Memory {
    pub fn new() -> (r: Memory)
        ensures
            r.array@.len() == MEMORY_SIZE,
            forall|i: int| 0 <= i < MEMORY_SIZE ==> r.array@[i] == 0u8,
    {
        Memory { array: vec![0u8; MEMORY_SIZE] }
    }

    pub fn read(&self, address: u16) -> (r: u8)
        requires
            self.array@.len() == MEMORY_SIZE,
        ensures
            r == self.array@[address as int],
    {
        self.array[address as usize]
    }

    pub fn write(&mut self, address: u16, value: u8)
        requires
            old(self).array@.len() == MEMORY_SIZE,
        ensures
            final(self).array@ == old(self).array@.update(address as int, value),
    {
        self.array[address as usize] = value;
    }

    /// Two bytes little-endian: the low byte at `address`, the high byte at
    /// the next cell (wrapping at the top of the address space).
    pub fn read_u16(&self, address: u16) -> (r: u16)
        requires
            self.array@.len() == MEMORY_SIZE,
        ensures
            r == spec_read_u16(self.array@, address),
    {
        let lo = self.read(address);
        let hi = self.read(address.wrapping_add(1));
        (hi as u16) * 256 + (lo as u16)
    }

    /// Two bytes little-endian, written in the same order `read_u16` reads.
    pub fn write_u16(&mut self, address: u16, value: u16)
        requires
            old(self).array@.len() == MEMORY_SIZE,
        ensures
            final(self).array@ == old(self).array@.update(
                address as int,
                (value % 256) as u8,
            ).update(address.wrapping_add(1) as int, (value / 256) as u8),
    {
        self.write(address, (value % 256) as u8);
        let next = address.wrapping_add(1);
        self.write(next, (value / 256) as u8);
    }
}

/// The little-endian two-byte value at `address`.
pub open spec fn spec_read_u16(m: Seq<u8>, address: u16) -> u16
    recommends
        m.len() == MEMORY_SIZE,
{
    (m[address.wrapping_add(1) as int] * 256 + m[address as int]) as u16
}

} // verus!
