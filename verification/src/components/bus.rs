//! Bus: presents the flat 16-bit address space to the processor, routing
//! accesses to mirrored internal RAM, the eight mirrored video-unit register
//! ports and the cartridge program-ROM window, and forwarding elapsed
//! processor cycles to the video timing unit at three dot units per cycle.
//!
//! Accesses to windows with no defined routing follow the open-bus rule: a
//! read returns the last byte latched on the bus and a write only latches its
//! value. The rule is applied consistently to every unmapped window and to
//! the write-only and unimplemented register ports.

use vstd::prelude::*;

use crate::components::cartridges::Cartridge;
use crate::components::ppu::PPU;
use crate::components::ppu::PpuView;
use crate::components::ppu::spec_ppu_poll;
use crate::components::ppu::spec_ppu_read_data;
use crate::components::ppu::spec_ppu_read_status;
use crate::components::ppu::spec_ppu_tick;
use crate::components::ppu::spec_ppu_write_address;
use crate::components::ppu::spec_ppu_write_control;
use crate::components::ppu::spec_ppu_write_data;

verus! {

/// Address-space router: 2KB internal RAM, the video timing unit, the
/// cartridge program ROM, and the open-bus latch.
pub struct Bus {
    pub ram: Vec<u8>,
    pub prg_rom: Vec<u8>,
    pub ppu: PPU,
    pub latch: u8,
}

/// Mathematical image of the bus state.
#[verifier::ext_equal]
pub ghost struct BusView {
    pub ram: Seq<u8>,
    pub prg: Seq<u8>,
    pub ppu: PpuView,
    pub latch: u8,
}

impl View for Bus {
    type V = BusView;

    open spec fn view(&self) -> BusView {
        BusView { ram: self.ram@, prg: self.prg_rom@, ppu: self.ppu@, latch: self.latch }
    }
}

impl BusView {
    pub open spec fn wf(self) -> bool {
        &&& self.ram.len() == 2048
        &&& self.ppu.wf()
    }
}

/// Index into program ROM for an address in the 0x8000..=0xFFFF window; a
/// 16KB image is mirrored across the 32KB window.
pub open spec fn spec_rom_index(prg: Seq<u8>, address: u16) -> int
    recommends
        0x8000 <= address,
{
    let idx = address - 0x8000;
    if prg.len() == 0x4000 && idx >= 0x4000 {
        idx - 0x4000
    } else {
        idx
    }
}

/// One byte read: the value that comes back and the bus state after it.
#[verifier::opaque]
pub open spec fn spec_bus_read(b: BusView, address: u16) -> (u8, BusView) {
    if address < 0x2000 {
        let v = b.ram[(address % 0x800) as int];
        (v, BusView { latch: v, ..b })
    } else if address < 0x4000 {
        let port = (address - 0x2000) % 8;
        if port == 2 {
            let (r, p2) = spec_ppu_read_status(b.ppu);
            (r, BusView { ppu: p2, latch: r, ..b })
        } else if port == 7 {
            let (r, p2) = spec_ppu_read_data(b.ppu);
            (r, BusView { ppu: p2, latch: r, ..b })
        } else {
            (b.latch, b)
        }
    } else if address < 0x8000 {
        (b.latch, b)
    } else {
        let idx = spec_rom_index(b.prg, address);
        if idx < b.prg.len() {
            let v = b.prg[idx];
            (v, BusView { latch: v, ..b })
        } else {
            (b.latch, b)
        }
    }
}

/// One byte written: the bus state after it.
#[verifier::opaque]
pub open spec fn spec_bus_write(b: BusView, address: u16, value: u8) -> BusView {
    if address < 0x2000 {
        BusView { ram: b.ram.update((address % 0x800) as int, value), latch: value, ..b }
    } else if address < 0x4000 {
        let port = (address - 0x2000) % 8;
        if port == 0 {
            BusView { ppu: spec_ppu_write_control(b.ppu, value), latch: value, ..b }
        } else if port == 6 {
            BusView { ppu: spec_ppu_write_address(b.ppu, value), latch: value, ..b }
        } else if port == 7 {
            BusView { ppu: spec_ppu_write_data(b.ppu, value), latch: value, ..b }
        } else {
            BusView { latch: value, ..b }
        }
    } else {
        BusView { latch: value, ..b }
    }
}

/// A little-endian two-byte read: low byte first, high byte at the next
/// address (wrapping at the top of the address space).
pub open spec fn spec_bus_read_u16(b: BusView, address: u16) -> (u16, BusView) {
    let (lo, b1) = spec_bus_read(b, address);
    let (hi, b2) = spec_bus_read(b1, address.wrapping_add(1));
    ((hi * 256 + lo) as u16, b2)
}

/// Elapsed processor cycles forwarded to the video unit at 3 dot units each.
#[verifier::opaque]
pub open spec fn spec_bus_tick(b: BusView, cycles: u8) -> (bool, BusView) {
    let (done, p2) = spec_ppu_tick(b.ppu, 3 * cycles);
    (done, BusView { ppu: p2, ..b })
}

impl Bus {
    pub fn new(cartridge: Cartridge) -> (r: Bus)
        ensures
            r@.wf(),
            r@.ram =~= Seq::<u8>::new(2048, |i: int| 0u8),
            r@.prg == cartridge.prg_rom@,
            r@.ppu.chr == cartridge.chr_rom@,
            r@.ppu.mirroring == cartridge.mirroring,
            r@.ppu.scanline == 0,
            r@.ppu.cycles == 0,
            !r@.ppu.status.vblank_started,
            !r@.ppu.control.generate_nmi,
            r@.ppu.nmi is None,
            r@.latch == 0,
    {
        let ppu = PPU::new(cartridge.chr_rom, cartridge.mirroring);
        let r = Bus { ram: vec![0u8; 2048], prg_rom: cartridge.prg_rom, ppu, latch: 0 };
        proof {
            assert(r@.ram =~= Seq::<u8>::new(2048, |i: int| 0u8));
        }
        r
    }

    pub fn memory_read(&mut self, address: u16) -> (r: u8)
        requires
            old(self)@.wf(),
        ensures
            final(self)@.wf(),
            r == spec_bus_read(old(self)@, address).0,
            final(self)@ == spec_bus_read(old(self)@, address).1,
    {
        proof { reveal(spec_bus_read); }
        if address < 0x2000 {
            let v = self.ram[(address % 0x800) as usize];
            self.latch = v;
            v
        } else if address < 0x4000 {
            let port = (address - 0x2000) % 8;
            if port == 2 {
                let r = self.ppu.read_status();
                self.latch = r;
                r
            } else if port == 7 {
                let r = self.ppu.read_data();
                self.latch = r;
                r
            } else {
                self.latch
            }
        } else if address < 0x8000 {
            self.latch
        } else {
            let idx0 = (address - 0x8000) as usize;
            let idx = if self.prg_rom.len() == 0x4000 && idx0 >= 0x4000 {
                idx0 - 0x4000
            } else {
                idx0
            };
            if idx < self.prg_rom.len() {
                let v = self.prg_rom[idx];
                self.latch = v;
                v
            } else {
                self.latch
            }
        }
    }

    pub fn memory_write(&mut self, address: u16, value: u8)
        requires
            old(self)@.wf(),
        ensures
            final(self)@.wf(),
            final(self)@ == spec_bus_write(old(self)@, address, value),
    {
        proof { reveal(spec_bus_write); }
        if address < 0x2000 {
            let index = (address % 0x800) as usize;
            self.ram[index] = value;
        } else if address < 0x4000 {
            let port = (address - 0x2000) % 8;
            if port == 0 {
                self.ppu.write_in_control(value);
            } else if port == 6 {
                self.ppu.write_in_ppu_address(value);
            } else if port == 7 {
                self.ppu.write_in_data(value);
            }
        }
        self.latch = value;
    }

    pub fn memory_read_u16(&mut self, address: u16) -> (r: u16)
        requires
            old(self)@.wf(),
        ensures
            final(self)@.wf(),
            r == spec_bus_read_u16(old(self)@, address).0,
            final(self)@ == spec_bus_read_u16(old(self)@, address).1,
    {
        let lo = self.memory_read(address);
        let hi = self.memory_read(address.wrapping_add(1));
        (hi as u16) * 256 + (lo as u16)
    }

    /// Forward elapsed processor cycles to the video timing unit; reports
    /// whether a frame completed.
    pub fn tick(&mut self, cycles: u8) -> (frame_done: bool)
        requires
            old(self)@.wf(),
            cycles <= 85,
        ensures
            final(self)@.wf(),
            frame_done == spec_bus_tick(old(self)@, cycles).0,
            final(self)@ == spec_bus_tick(old(self)@, cycles).1,
    {
        proof { reveal(spec_bus_tick); }
        self.ppu.tick(3 * cycles)
    }

    /// Consume the video unit's pending interrupt.
    pub fn poll_nmi_status(&mut self) -> (r: Option<u8>)
        requires
            old(self)@.wf(),
        ensures
            final(self)@.wf(),
            r == spec_ppu_poll(old(self)@.ppu).0,
            final(self)@ == (BusView { ppu: spec_ppu_poll(old(self)@.ppu).1, ..old(self)@ }),
    {
        self.ppu.pool_nmi_status()
    }
}

} // verus!
