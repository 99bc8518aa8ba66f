//! Cartridge data as the bus consumes it: program ROM, character ROM and the
//! nametable mirroring mode.

use vstd::prelude::*;

verus! {

/// How the 2KB of video RAM is mapped into the four logical nametables.
#[derive(Clone, Copy, Debug, PartialEq, Eq, Structural)]
pub enum Mirroring {
    Horizontal,
    Vertical,
}

/// Raw cartridge contents handed to the bus: program ROM bytes, character ROM
/// bytes and the mirroring mode the board is wired for.
pub struct Cartridge {
    pub prg_rom: Vec<u8>,
    pub chr_rom: Vec<u8>,
    pub mirroring: Mirroring,
}

impl Cartridge {
    pub fn new(prg_rom: Vec<u8>, chr_rom: Vec<u8>, mirroring: Mirroring) -> (r: Cartridge)
        ensures
            r.prg_rom@ == prg_rom@,
            r.chr_rom@ == chr_rom@,
            r.mirroring == mirroring,
    {
        Cartridge { prg_rom, chr_rom, mirroring }
    }
}

} // verus!
