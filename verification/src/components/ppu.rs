//! Video timing unit: owns video memory, palette and sprite memory, the
//! control/status/address register ports, and the scanline/dot counters that
//! advance in lockstep with processor cycles and raise the non-maskable
//! interrupt.

use vstd::prelude::*;

use crate::components::cartridges::Mirroring;

verus! {

pub const DOTS_PER_SCANLINE: u16 = 341;
pub const SCANLINES_PER_FRAME: u16 = 262;
pub const VBLANK_SCANLINE: u16 = 241;

// ---------------------------------------------------------------------------
// Control register
//
//  7  bit  0
//  ---- ----
//  VPHB SINN
//  |||| ||||
//  |||| ||++- base nametable select
//  |||| |+--- address increment per data-port access (0: add 1; 1: add 32)
//  |||| +---- sprite pattern table select
//  |||+------ background pattern table select
//  ||+------- sprite size
//  |+-------- master/slave select
//  +--------- generate an NMI at the start of vertical blank
// ---------------------------------------------------------------------------

/// The eight named bits of the control register, in hardware bit order
/// (`nametable1` is bit 0, `generate_nmi` is bit 7).
#[derive(Clone, Copy, Debug, PartialEq, Eq, Structural)]
pub struct ControlRegister {
    pub nametable1: bool,
    pub nametable2: bool,
    pub vram_add_increment: bool,
    pub sprite_pattern_address: bool,
    pub background_pattern_address: bool,
    pub sprite_size: bool,
    pub master_slave_select: bool,
    pub generate_nmi: bool,
}

/// The control register decoded from a written byte, bit by bit.
pub open spec fn spec_control_from_bits(v: u8) -> ControlRegister {
    ControlRegister {
        nametable1: v % 2 == 1,
        nametable2: v / 2 % 2 == 1,
        vram_add_increment: v / 4 % 2 == 1,
        sprite_pattern_address: v / 8 % 2 == 1,
        background_pattern_address: v / 16 % 2 == 1,
        sprite_size: v / 32 % 2 == 1,
        master_slave_select: v / 64 % 2 == 1,
        generate_nmi: v / 128 % 2 == 1,
    }
}

impl ControlRegister {
    pub fn new() -> (r: ControlRegister)
        ensures
            r == spec_control_from_bits(0),
    {
        ControlRegister {
            nametable1: false,
            nametable2: false,
            vram_add_increment: false,
            sprite_pattern_address: false,
            background_pattern_address: false,
            sprite_size: false,
            master_slave_select: false,
            generate_nmi: false,
        }
    }

    /// Step the data-port address advances by: 32 when the increment bit is
    /// set (down a column), 1 otherwise (across a row).
    pub fn vram_address_increment(&self) -> (r: u8)
        ensures
            r == (if self.vram_add_increment { 32u8 } else { 1u8 }),
    {
        if self.vram_add_increment {
            32
        } else {
            1
        }
    }

    pub fn update(&mut self, value: u8)
        ensures
            *final(self) == spec_control_from_bits(value),
    {
        self.nametable1 = value % 2 == 1;
        self.nametable2 = value / 2 % 2 == 1;
        self.vram_add_increment = value / 4 % 2 == 1;
        self.sprite_pattern_address = value / 8 % 2 == 1;
        self.background_pattern_address = value / 16 % 2 == 1;
        self.sprite_size = value / 32 % 2 == 1;
        self.master_slave_select = value / 64 % 2 == 1;
        self.generate_nmi = value / 128 % 2 == 1;
    }

    pub fn generate_vblank_nmi(&self) -> (r: bool)
        ensures
            r == self.generate_nmi,
    {
        self.generate_nmi
    }
}

// ---------------------------------------------------------------------------
// Status register
//
//  7  bit  0
//  ---- ----
//  VSO. ....
//  |||
//  ||+------- sprite overflow (bit 5)
//  |+-------- sprite zero hit (bit 6)
//  +--------- vertical blank has started (bit 7)
// ---------------------------------------------------------------------------

/// The named bits of the status register; the five low bits read as zero.
#[derive(Clone, Copy, Debug, PartialEq, Eq, Structural)]
pub struct StatusRegister {
    pub sprite_overflow: bool,
    pub sprite_zero_hit: bool,
    pub vblank_started: bool,
}

/// The byte a status-register read returns, with each named bit at its
/// hardware position and the unused low bits zero.
pub open spec fn spec_status_bits(s: StatusRegister) -> u8 {
    ((if s.sprite_overflow {
        32int
    } else {
        0int
    }) + (if s.sprite_zero_hit {
        64int
    } else {
        0int
    }) + (if s.vblank_started {
        128int
    } else {
        0int
    })) as u8
}

impl StatusRegister {
    pub fn new() -> (r: StatusRegister)
        ensures
            !r.sprite_overflow,
            !r.sprite_zero_hit,
            !r.vblank_started,
    {
        StatusRegister { sprite_overflow: false, sprite_zero_hit: false, vblank_started: false }
    }

    pub fn set_vblank_status(&mut self, status: bool)
        ensures
            *final(self) == (StatusRegister { vblank_started: status, ..*old(self) }),
    {
        self.vblank_started = status;
    }

    pub fn reset_vblank_status(&mut self)
        ensures
            *final(self) == (StatusRegister { vblank_started: false, ..*old(self) }),
    {
        self.vblank_started = false;
    }

    pub fn is_in_vblank(&self) -> (r: bool)
        ensures
            r == self.vblank_started,
    {
        self.vblank_started
    }

    /// The register as a byte, named bits at their hardware positions.
    pub fn bits(&self) -> (r: u8)
        ensures
            r == spec_status_bits(*self),
    {
        let mut v: u8 = 0;
        if self.sprite_overflow {
            v = v + 32;
        }
        if self.sprite_zero_hit {
            v = v + 64;
        }
        if self.vblank_started {
            v = v + 128;
        }
        v
    }
}

// ---------------------------------------------------------------------------
// Address register: a 16-bit address built from two successive byte writes
// through a high/low toggle; the composed value wraps at the 0x3FFF ceiling.
// ---------------------------------------------------------------------------

#[derive(Clone, Copy, Debug, PartialEq, Eq, Structural)]
pub struct AddressRegister {
    pub low: u8,
    pub high: u8,
    /// True when the next byte written lands in the high half.
    pub high_pointer: bool,
}

pub open spec fn spec_addr_get(r: AddressRegister) -> u16 {
    (r.high * 256 + r.low) as u16
}

pub open spec fn spec_addr_set(r: AddressRegister, value: u16) -> AddressRegister {
    AddressRegister { high: (value / 256) as u8, low: (value % 256) as u8, ..r }
}

/// One byte written through the port: it lands in the half the toggle points
/// at, the composed address wraps at 0x3FFF, and the toggle flips.
pub open spec fn spec_addr_update(r: AddressRegister, value: u8) -> AddressRegister {
    let r1 = if r.high_pointer {
        AddressRegister { high: value, ..r }
    } else {
        AddressRegister { low: value, ..r }
    };
    let r2 = if spec_addr_get(r1) > 0x3fff {
        spec_addr_set(r1, (spec_addr_get(r1) % 0x4000) as u16)
    } else {
        r1
    };
    AddressRegister { high_pointer: !r.high_pointer, ..r2 }
}

/// The data-port auto-increment: add the step to the low byte, carry into the
/// high byte on wrap-around, then wrap the composed address at 0x3FFF.
pub open spec fn spec_addr_increment(r: AddressRegister, step: u8) -> AddressRegister {
    let low2 = r.low.wrapping_add(step);
    let r1 = AddressRegister {
        low: low2,
        high: if low2 < r.low {
            r.high.wrapping_add(1)
        } else {
            r.high
        },
        ..r
    };
    if spec_addr_get(r1) > 0x3fff {
        spec_addr_set(r1, (spec_addr_get(r1) % 0x4000) as u16)
    } else {
        r1
    }
}

impl AddressRegister {
    pub fn new() -> (r: AddressRegister)
        ensures
            r == (AddressRegister { low: 0, high: 0, high_pointer: true }),
    {
        AddressRegister { low: 0, high: 0, high_pointer: true }
    }

    pub fn get(&self) -> (r: u16)
        ensures
            r == spec_addr_get(*self),
    {
        let high_u16: u16 = self.high as u16;
        let low_u16: u16 = self.low as u16;
        high_u16 * 256 + low_u16
    }

    pub fn set(&mut self, value: u16)
        ensures
            *final(self) == spec_addr_set(*old(self), value),
    {
        self.high = (value / 256) as u8;
        self.low = (value % 256) as u8;
    }

    pub fn update(&mut self, value: u8)
        ensures
            *final(self) == spec_addr_update(*old(self), value),
            spec_addr_get(*final(self)) <= 0x3fff,
    {
        if self.high_pointer {
            self.high = value;
        } else {
            self.low = value;
        }
        if self.get() > 0x3fff {
            let masked: u16 = self.get() % 0x4000;
            self.set(masked);
        }
        self.high_pointer = !self.high_pointer;
    }

    pub fn increment(&mut self, value: u8)
        ensures
            *final(self) == spec_addr_increment(*old(self), value),
            spec_addr_get(*final(self)) <= 0x3fff,
    {
        let old_low = self.low;
        self.low = self.low.wrapping_add(value);
        if old_low > self.low {
            self.high = self.high.wrapping_add(1);
        }
        if self.get() > 0x3fff {
            let masked: u16 = self.get() % 0x4000;
            self.set(masked);
        }
    }

    pub fn reset_latch(&mut self)
        ensures
            *final(self) == (AddressRegister { high_pointer: true, ..*old(self) }),
    {
        self.high_pointer = true;
    }
}

// ---------------------------------------------------------------------------
// The video timing unit itself
// ---------------------------------------------------------------------------

/// Owns character ROM, palette, video RAM and sprite memory, the register
/// ports, and the dot/scanline counters; raises the pending interrupt.
pub struct PPU {
    pub chr_rom: Vec<u8>,
    pub pallete_table: Vec<u8>,
    pub vram: Vec<u8>,
    pub oam_data: Vec<u8>,
    pub mirroring: Mirroring,
    pub address: AddressRegister,
    pub control: ControlRegister,
    pub status: StatusRegister,
    pub internal_data_buffer: u8,
    pub scanline: u16,
    pub cycles: usize,
    pub nmi_interrupt: Option<u8>,
}

/// Mathematical image of the unit's state; contracts are stated over it.
#[verifier::ext_equal]
pub ghost struct PpuView {
    pub chr: Seq<u8>,
    pub palette: Seq<u8>,
    pub vram: Seq<u8>,
    pub oam: Seq<u8>,
    pub mirroring: Mirroring,
    pub address: AddressRegister,
    pub control: ControlRegister,
    pub status: StatusRegister,
    pub buffer: u8,
    pub scanline: u16,
    pub cycles: usize,
    pub nmi: Option<u8>,
}

impl View for PPU {
    type V = PpuView;

    open spec fn view(&self) -> PpuView {
        PpuView {
            chr: self.chr_rom@,
            palette: self.pallete_table@,
            vram: self.vram@,
            oam: self.oam_data@,
            mirroring: self.mirroring,
            address: self.address,
            control: self.control,
            status: self.status,
            buffer: self.internal_data_buffer,
            scanline: self.scanline,
            cycles: self.cycles,
            nmi: self.nmi_interrupt,
        }
    }
}

impl PpuView {
    /// Structural invariant: fixed buffer sizes, counters inside one frame,
    /// and a latched address below the port window's ceiling.
    pub open spec fn wf(self) -> bool {
        &&& self.palette.len() == 32
        &&& self.vram.len() == 2048
        &&& self.oam.len() == 256
        &&& self.cycles < DOTS_PER_SCANLINE
        &&& self.scanline < SCANLINES_PER_FRAME
        &&& spec_addr_get(self.address) <= 0x3fff
    }
}

/// Nametable mirroring: the 4KB logical nametable window folded onto the 2KB
/// of physical video RAM; which two logical tables alias which physical half
/// depends on the cartridge's mirroring mode.
pub open spec fn spec_mirror_vram(m: Mirroring, address: u16) -> int
    recommends
        0x2000 <= address < 0x3f00,
{
    let vram_index = (address - 0x2000) % 0x1000;
    let name_table = vram_index / 0x400;
    match m {
        Mirroring::Vertical => if name_table == 2 || name_table == 3 {
            vram_index - 0x800
        } else {
            vram_index
        },
        Mirroring::Horizontal => if name_table == 1 || name_table == 2 {
            vram_index - 0x400
        } else if name_table == 3 {
            vram_index - 0x800
        } else {
            vram_index
        },
    }
}

/// A control-register write; when NMI generation turns on while vertical
/// blank is already active, the pending interrupt is raised immediately.
#[verifier::opaque]
pub open spec fn spec_ppu_write_control(p: PpuView, value: u8) -> PpuView {
    let control2 = spec_control_from_bits(value);
    let nmi2 = if !p.control.generate_nmi && control2.generate_nmi && p.status.vblank_started {
        Some(1u8)
    } else {
        p.nmi
    };
    PpuView { control: control2, nmi: nmi2, ..p }
}

/// An address-port write: one byte into the two-write latch.
#[verifier::opaque]
pub open spec fn spec_ppu_write_address(p: PpuView, value: u8) -> PpuView {
    PpuView { address: spec_addr_update(p.address, value), ..p }
}

/// A status-register read: returns the status bits, clears vertical-blank
/// status and resets the address latch toggle.
#[verifier::opaque]
pub open spec fn spec_ppu_read_status(p: PpuView) -> (u8, PpuView) {
    (
        spec_status_bits(p.status),
        PpuView {
            status: StatusRegister { vblank_started: false, ..p.status },
            address: AddressRegister { high_pointer: true, ..p.address },
            ..p
        },
    )
}

/// A data-port read. Reads below the palette window go through the internal
/// buffer: the buffered byte comes back and the byte under the latched
/// address replaces it. Palette reads return directly, mirrored modulo the
/// 32-byte table. The latched address advances by the control register's
/// step. A pattern-table byte beyond the character ROM reads as zero, and a
/// read in the unused 0x3000..0x3eff window leaves the buffer as it was.
#[verifier::opaque]
pub open spec fn spec_ppu_read_data(p: PpuView) -> (u8, PpuView) {
    let address = spec_addr_get(p.address);
    let p1 = PpuView {
        address: spec_addr_increment(p.address, if p.control.vram_add_increment {
            32u8
        } else {
            1u8
        }),
        ..p
    };
    if address < 0x2000 {
        let fetched: u8 = if address < p.chr.len() {
            p.chr[address as int]
        } else {
            0u8
        };
        (p.buffer, PpuView { buffer: fetched, ..p1 })
    } else if address < 0x3000 {
        (p.buffer, PpuView { buffer: p.vram[spec_mirror_vram(p.mirroring, address)], ..p1 })
    } else if address < 0x3f00 {
        (p.buffer, p1)
    } else {
        (p.palette[(address - 0x3f00) % 32], p1)
    }
}

/// A data-port write: video RAM through the mirroring map, palette entries
/// modulo the 32-byte table with the four sprite-backdrop mirrors folded
/// down; pattern-table and unused-window writes are dropped. The latched
/// address advances as on a read.
#[verifier::opaque]
pub open spec fn spec_ppu_write_data(p: PpuView, data: u8) -> PpuView {
    let address = spec_addr_get(p.address);
    let p1 = PpuView {
        address: spec_addr_increment(p.address, if p.control.vram_add_increment {
            32u8
        } else {
            1u8
        }),
        ..p
    };
    if address < 0x2000 {
        p1
    } else if address < 0x3000 {
        PpuView { vram: p.vram.update(spec_mirror_vram(p.mirroring, address), data), ..p1 }
    } else if address < 0x3f00 {
        p1
    } else if address == 0x3f10 || address == 0x3f14 || address == 0x3f18 || address == 0x3f1c {
        PpuView { palette: p.palette.update((address - 0x10 - 0x3f00) % 32, data), ..p1 }
    } else {
        PpuView { palette: p.palette.update((address - 0x3f00) % 32, data), ..p1 }
    }
}

/// The clock: accumulate dot units; at 341 the scanline advances. Entering
/// scanline 241 sets vertical blank (and raises the interrupt when enabled);
/// reaching scanline 262 resets the counters, clears vertical blank and the
/// pending interrupt, and reports frame completion.
#[verifier::opaque]
pub open spec fn spec_ppu_tick(p: PpuView, dots: int) -> (bool, PpuView)
    recommends
        0 <= dots,
{
    let total = p.cycles + dots;
    if total < DOTS_PER_SCANLINE {
        (false, PpuView { cycles: total as usize, ..p })
    } else {
        let rest = (total - DOTS_PER_SCANLINE) as usize;
        let next_line = (p.scanline + 1) as u16;
        if next_line == VBLANK_SCANLINE {
            (
                false,
                PpuView {
                    cycles: rest,
                    scanline: next_line,
                    status: StatusRegister { vblank_started: true, ..p.status },
                    nmi: if p.control.generate_nmi {
                        Some(1u8)
                    } else {
                        p.nmi
                    },
                    ..p
                },
            )
        } else if next_line >= SCANLINES_PER_FRAME {
            (
                true,
                PpuView {
                    cycles: rest,
                    scanline: 0,
                    status: StatusRegister { vblank_started: false, ..p.status },
                    nmi: None,
                    ..p
                },
            )
        } else {
            (false, PpuView { cycles: rest, scanline: next_line, ..p })
        }
    }
}

/// Consuming the pending interrupt: hand it out and clear it.
#[verifier::opaque]
pub open spec fn spec_ppu_poll(p: PpuView) -> (Option<u8>, PpuView) {
    (p.nmi, PpuView { nmi: None, ..p })
}

impl PPU {
    pub fn new(chr_rom: Vec<u8>, mirroring: Mirroring) -> (r: PPU)
        ensures
            r@.wf(),
            r@.chr == chr_rom@,
            r@.mirroring == mirroring,
            r@.palette =~= Seq::<u8>::new(32, |i: int| 0u8),
            r@.vram =~= Seq::<u8>::new(2048, |i: int| 0u8),
            r@.oam =~= Seq::<u8>::new(256, |i: int| 0u8),
            r@.address == (AddressRegister { low: 0, high: 0, high_pointer: true }),
            r@.control == spec_control_from_bits(0),
            !r@.status.vblank_started,
            r@.buffer == 0,
            r@.scanline == 0,
            r@.cycles == 0,
            r@.nmi is None,
    {
        let r = PPU {
            chr_rom,
            pallete_table: vec![0u8; 32],
            vram: vec![0u8; 2048],
            oam_data: vec![0u8; 256],
            mirroring,
            address: AddressRegister::new(),
            control: ControlRegister::new(),
            status: StatusRegister::new(),
            internal_data_buffer: 0,
            scanline: 0,
            cycles: 0,
            nmi_interrupt: None,
        };
        proof {
            assert(r@.palette =~= Seq::<u8>::new(32, |i: int| 0u8));
            assert(r@.vram =~= Seq::<u8>::new(2048, |i: int| 0u8));
            assert(r@.oam =~= Seq::<u8>::new(256, |i: int| 0u8));
        }
        r
    }

    pub fn write_in_ppu_address(&mut self, value: u8)
        requires
            old(self)@.wf(),
        ensures
            final(self)@.wf(),
            final(self)@ == spec_ppu_write_address(old(self)@, value),
    {
        proof { reveal(spec_ppu_write_address); }
        self.address.update(value);
    }

    pub fn write_in_control(&mut self, value: u8)
        requires
            old(self)@.wf(),
        ensures
            final(self)@.wf(),
            final(self)@ == spec_ppu_write_control(old(self)@, value),
    {
        proof { reveal(spec_ppu_write_control); }
        let before_nmi_status = self.control.generate_vblank_nmi();
        self.control.update(value);
        if !before_nmi_status && self.control.generate_vblank_nmi() && self.status.is_in_vblank() {
            self.nmi_interrupt = Some(1);
        }
    }

    fn increment_vram_address(&mut self)
        requires
            old(self)@.wf(),
        ensures
            final(self)@.wf(),
            final(self)@ == (PpuView {
                address: spec_addr_increment(
                    old(self)@.address,
                    if old(self)@.control.vram_add_increment {
                        32u8
                    } else {
                        1u8
                    },
                ),
                ..old(self)@
            }),
    {
        let step = self.control.vram_address_increment();
        self.address.increment(step);
    }

    /// Fold a logical nametable address onto the 2KB of physical video RAM.
    pub fn mirror_vram_address(&self, address: u16) -> (r: u16)
        requires
            0x2000 <= address < 0x3f00,
        ensures
            r == spec_mirror_vram(self.mirroring, address),
            r < 2048,
    {
        let vram_index: u16 = (address - 0x2000) % 0x1000;
        let name_table: u16 = vram_index / 0x400;
        match (&self.mirroring, name_table) {
            (Mirroring::Vertical, 2) | (Mirroring::Vertical, 3) => vram_index - 0x800,
            (Mirroring::Horizontal, 1) => vram_index - 0x400,
            (Mirroring::Horizontal, 2) => vram_index - 0x400,
            (Mirroring::Horizontal, 3) => vram_index - 0x800,
            _ => vram_index,
        }
    }

    /// Read the status register port: the bits come back, vertical-blank
    /// status clears, and the address latch toggle resets.
    pub fn read_status(&mut self) -> (r: u8)
        requires
            old(self)@.wf(),
        ensures
            final(self)@.wf(),
            r == spec_ppu_read_status(old(self)@).0,
            final(self)@ == spec_ppu_read_status(old(self)@).1,
    {
        proof { reveal(spec_ppu_read_status); }
        let bits = self.status.bits();
        self.status.reset_vblank_status();
        self.address.reset_latch();
        bits
    }

    /// Read the data port (buffered below the palette window).
    pub fn read_data(&mut self) -> (r: u8)
        requires
            old(self)@.wf(),
        ensures
            final(self)@.wf(),
            r == spec_ppu_read_data(old(self)@).0,
            final(self)@ == spec_ppu_read_data(old(self)@).1,
    {
        proof { reveal(spec_ppu_read_data); }
        let address = self.address.get();
        self.increment_vram_address();
        if address < 0x2000 {
            let result = self.internal_data_buffer;
            self.internal_data_buffer = if (address as usize) < self.chr_rom.len() {
                self.chr_rom[address as usize]
            } else {
                0
            };
            result
        } else if address < 0x3000 {
            let result = self.internal_data_buffer;
            let index = self.mirror_vram_address(address);
            self.internal_data_buffer = self.vram[index as usize];
            result
        } else if address < 0x3f00 {
            self.internal_data_buffer
        } else {
            let index: u16 = (address - 0x3f00) % 32;
            self.pallete_table[index as usize]
        }
    }

    /// Write the data port.
    pub fn write_in_data(&mut self, data: u8)
        requires
            old(self)@.wf(),
        ensures
            final(self)@.wf(),
            final(self)@ == spec_ppu_write_data(old(self)@, data),
    {
        proof { reveal(spec_ppu_write_data); }
        let address = self.address.get();
        if address < 0x2000 {
            // pattern tables live in character ROM; the write is dropped
        } else if address < 0x3000 {
            let index = self.mirror_vram_address(address);
            self.vram[index as usize] = data;
        } else if address < 0x3f00 {
            // unused window; the write is dropped
        } else if address == 0x3f10 || address == 0x3f14 || address == 0x3f18 || address == 0x3f1c
        {
            let add_mirror = address - 0x10;
            let index: u16 = (add_mirror - 0x3f00) % 32;
            self.pallete_table[index as usize] = data;
        } else {
            let index: u16 = (address - 0x3f00) % 32;
            self.pallete_table[index as usize] = data;
        }
        self.increment_vram_address();
    }

    /// Advance the clock by `cycles` dot units.
    pub fn tick(&mut self, cycles: u8) -> (frame_done: bool)
        requires
            old(self)@.wf(),
        ensures
            final(self)@.wf(),
            frame_done == spec_ppu_tick(old(self)@, cycles as int).0,
            final(self)@ == spec_ppu_tick(old(self)@, cycles as int).1,
    {
        proof { reveal(spec_ppu_tick); }
        self.cycles = self.cycles + cycles as usize;
        if self.cycles < DOTS_PER_SCANLINE as usize {
            return false;
        }
        self.cycles = self.cycles - DOTS_PER_SCANLINE as usize;
        self.scanline = self.scanline + 1;
        if self.scanline == VBLANK_SCANLINE {
            self.status.set_vblank_status(true);
            if self.control.generate_vblank_nmi() {
                self.nmi_interrupt = Some(1);
            }
            return false;
        }
        if self.scanline >= SCANLINES_PER_FRAME {
            self.scanline = 0;
            self.nmi_interrupt = None;
            self.status.reset_vblank_status();
            return true;
        }
        false
    }

    /// Consume (not merely peek at) the pending interrupt.
    pub fn pool_nmi_status(&mut self) -> (r: Option<u8>)
        ensures
            r == spec_ppu_poll(old(self)@).0,
            final(self)@ == spec_ppu_poll(old(self)@).1,
            old(self)@.wf() ==> final(self)@.wf(),
    {
        proof { reveal(spec_ppu_poll); }
        self.nmi_interrupt.take()
    }
}

// ---------------------------------------------------------------------------
// Timing laws
// ---------------------------------------------------------------------------

/// Splitting a batch of dot units across two ticks lands in the same state,
/// and reports frame completion the same way, as one combined tick — as long
/// as the batch cannot cross two scanline boundaries at once.
#[verifier::rlimit(100)]
pub proof fn lemma_tick_additive(p: PpuView, a: int, b: int)
    requires
        p.cycles < DOTS_PER_SCANLINE,
        0 <= a,
        0 <= b,
        a + b <= DOTS_PER_SCANLINE,
    ensures
        spec_ppu_tick(p, a + b).1 == spec_ppu_tick(spec_ppu_tick(p, a).1, b).1,
        spec_ppu_tick(p, a + b).0 == (spec_ppu_tick(p, a).0 || spec_ppu_tick(
            spec_ppu_tick(p, a).1,
            b,
        ).0),
{
    reveal(spec_ppu_tick);
    let (f1, q1) = spec_ppu_tick(p, a);
    let (f2, q2) = spec_ppu_tick(q1, b);
    let (f, q) = spec_ppu_tick(p, a + b);
    assert(q =~= q2);
}

/// `n` single dot units applied in sequence: the frame-completion count and
/// the resulting state.
pub open spec fn spec_ppu_run_dots(p: PpuView, n: nat) -> (nat, PpuView)
    decreases n,
{
    if n == 0 {
        (0, p)
    } else {
        let (frames, q) = spec_ppu_run_dots(p, (n - 1) as nat);
        let (done, q2) = spec_ppu_tick(q, 1);
        (
            frames + if done {
                1nat
            } else {
                0nat
            },
            q2,
        )
    }
}

proof fn lemma_run_dots_invariant(p: PpuView, n: nat)
    requires
        p.cycles == 0,
        p.scanline == 0,
        !p.status.vblank_started,
        n <= 341 * 262,
    ensures
        ({
            let (frames, q) = spec_ppu_run_dots(p, n);
            &&& n < 341 * 262 ==> {
                &&& frames == 0
                &&& n == 341 * q.scanline + q.cycles
                &&& q.cycles < 341
                &&& q.scanline < 262
                &&& q.status.vblank_started == (n >= 341 * 241)
            }
            &&& n == 341 * 262 ==> {
                &&& frames == 1
                &&& q.scanline == 0
                &&& q.cycles == 0
                &&& !q.status.vblank_started
            }
            &&& q.chr == p.chr
            &&& q.palette == p.palette
            &&& q.vram == p.vram
            &&& q.oam == p.oam
            &&& q.address == p.address
            &&& q.control == p.control
            &&& q.status.sprite_overflow == p.status.sprite_overflow
            &&& q.status.sprite_zero_hit == p.status.sprite_zero_hit
        }),
    decreases n,
{
    reveal(spec_ppu_tick);
    if n > 0 {
        lemma_run_dots_invariant(p, (n - 1) as nat);
    }
}

/// Frame timing: from the top of the frame, exactly 341 x 241 dot units set
/// vertical-blank status (with no frame completion yet); continuing to
/// exactly 341 x 262 dot units clears it again and reports frame completion
/// exactly once.
pub proof fn lemma_vblank_frame_timing(p: PpuView)
    requires
        p.cycles == 0,
        p.scanline == 0,
        !p.status.vblank_started,
    ensures
        spec_ppu_run_dots(p, (341 * 241) as nat).0 == 0,
        spec_ppu_run_dots(p, (341 * 241) as nat).1.status.vblank_started,
        spec_ppu_run_dots(p, (341 * 262) as nat).0 == 1,
        !spec_ppu_run_dots(p, (341 * 262) as nat).1.status.vblank_started,
{
    lemma_run_dots_invariant(p, (341 * 241) as nat);
    lemma_run_dots_invariant(p, (341 * 262) as nat);
}

// ---------------------------------------------------------------------------
// System palette
// ---------------------------------------------------------------------------

/// The fixed 64-entry system palette as a mapping from color index to RGB.
pub open spec fn spec_system_palette_color(index: int) -> (u8, u8, u8) {
    if index == 0 {
        (0x80u8, 0x80u8, 0x80u8)
    } else if index == 1 {
        (0x00u8, 0x3du8, 0xa6u8)
    } else if index == 2 {
        (0x00u8, 0x12u8, 0xb0u8)
    } else if index == 3 {
        (0x44u8, 0x00u8, 0x96u8)
    } else if index == 4 {
        (0xa1u8, 0x00u8, 0x5eu8)
    } else if index == 5 {
        (0xc7u8, 0x00u8, 0x28u8)
    } else if index == 6 {
        (0xbau8, 0x06u8, 0x00u8)
    } else if index == 7 {
        (0x8cu8, 0x17u8, 0x00u8)
    } else if index == 8 {
        (0x5cu8, 0x2fu8, 0x00u8)
    } else if index == 9 {
        (0x10u8, 0x45u8, 0x00u8)
    } else if index == 10 {
        (0x05u8, 0x4au8, 0x00u8)
    } else if index == 11 {
        (0x00u8, 0x47u8, 0x2eu8)
    } else if index == 12 {
        (0x00u8, 0x41u8, 0x66u8)
    } else if index == 13 {
        (0x00u8, 0x00u8, 0x00u8)
    } else if index == 14 {
        (0x05u8, 0x05u8, 0x05u8)
    } else if index == 15 {
        (0x05u8, 0x05u8, 0x05u8)
    } else if index == 16 {
        (0xc7u8, 0xc7u8, 0xc7u8)
    } else if index == 17 {
        (0x00u8, 0x77u8, 0xffu8)
    } else if index == 18 {
        (0x21u8, 0x55u8, 0xffu8)
    } else if index == 19 {
        (0x82u8, 0x37u8, 0xfau8)
    } else if index == 20 {
        (0xebu8, 0x2fu8, 0xb5u8)
    } else if index == 21 {
        (0xffu8, 0x29u8, 0x50u8)
    } else if index == 22 {
        (0xffu8, 0x22u8, 0x00u8)
    } else if index == 23 {
        (0xd6u8, 0x32u8, 0x00u8)
    } else if index == 24 {
        (0xc4u8, 0x62u8, 0x00u8)
    } else if index == 25 {
        (0x35u8, 0x80u8, 0x00u8)
    } else if index == 26 {
        (0x05u8, 0x8fu8, 0x00u8)
    } else if index == 27 {
        (0x00u8, 0x8au8, 0x55u8)
    } else if index == 28 {
        (0x00u8, 0x99u8, 0xccu8)
    } else if index == 29 {
        (0x21u8, 0x21u8, 0x21u8)
    } else if index == 30 {
        (0x09u8, 0x09u8, 0x09u8)
    } else if index == 31 {
        (0x09u8, 0x09u8, 0x09u8)
    } else if index == 32 {
        (0xffu8, 0xffu8, 0xffu8)
    } else if index == 33 {
        (0x0fu8, 0xd7u8, 0xffu8)
    } else if index == 34 {
        (0x69u8, 0xa2u8, 0xffu8)
    } else if index == 35 {
        (0xd4u8, 0x80u8, 0xffu8)
    } else if index == 36 {
        (0xffu8, 0x45u8, 0xf3u8)
    } else if index == 37 {
        (0xffu8, 0x61u8, 0x8bu8)
    } else if index == 38 {
        (0xffu8, 0x88u8, 0x33u8)
    } else if index == 39 {
        (0xffu8, 0x9cu8, 0x12u8)
    } else if index == 40 {
        (0xfau8, 0xbcu8, 0x20u8)
    } else if index == 41 {
        (0x9fu8, 0xe3u8, 0x0eu8)
    } else if index == 42 {
        (0x2bu8, 0xf0u8, 0x35u8)
    } else if index == 43 {
        (0x0cu8, 0xf0u8, 0xa4u8)
    } else if index == 44 {
        (0x05u8, 0xfbu8, 0xffu8)
    } else if index == 45 {
        (0x5eu8, 0x5eu8, 0x5eu8)
    } else if index == 46 {
        (0x0du8, 0x0du8, 0x0du8)
    } else if index == 47 {
        (0x0du8, 0x0du8, 0x0du8)
    } else if index == 48 {
        (0xffu8, 0xffu8, 0xffu8)
    } else if index == 49 {
        (0xa6u8, 0xfcu8, 0xffu8)
    } else if index == 50 {
        (0xb3u8, 0xecu8, 0xffu8)
    } else if index == 51 {
        (0xdau8, 0xabu8, 0xebu8)
    } else if index == 52 {
        (0xffu8, 0xa8u8, 0xf9u8)
    } else if index == 53 {
        (0xffu8, 0xabu8, 0xb3u8)
    } else if index == 54 {
        (0xffu8, 0xd2u8, 0xb0u8)
    } else if index == 55 {
        (0xffu8, 0xefu8, 0xa6u8)
    } else if index == 56 {
        (0xffu8, 0xf7u8, 0x9cu8)
    } else if index == 57 {
        (0xd7u8, 0xe8u8, 0x95u8)
    } else if index == 58 {
        (0xa6u8, 0xedu8, 0xafu8)
    } else if index == 59 {
        (0xa2u8, 0xf2u8, 0xdau8)
    } else if index == 60 {
        (0x99u8, 0xffu8, 0xfcu8)
    } else if index == 61 {
        (0xddu8, 0xddu8, 0xddu8)
    } else if index == 62 {
        (0x11u8, 0x11u8, 0x11u8)
    } else {
        (0x11u8, 0x11u8, 0x11u8)
    }
}

/// Look a color index up in the fixed system palette; an external renderer
/// combines this with the palette table to fill the frame buffer.
pub fn system_palette_color(index: u8) -> (rgb: (u8, u8, u8))
    requires
        index < 64,
    ensures
        rgb == spec_system_palette_color(index as int),
{
    match index {
        0 => (0x80, 0x80, 0x80),
        1 => (0x00, 0x3d, 0xa6),
        2 => (0x00, 0x12, 0xb0),
        3 => (0x44, 0x00, 0x96),
        4 => (0xa1, 0x00, 0x5e),
        5 => (0xc7, 0x00, 0x28),
        6 => (0xba, 0x06, 0x00),
        7 => (0x8c, 0x17, 0x00),
        8 => (0x5c, 0x2f, 0x00),
        9 => (0x10, 0x45, 0x00),
        10 => (0x05, 0x4a, 0x00),
        11 => (0x00, 0x47, 0x2e),
        12 => (0x00, 0x41, 0x66),
        13 => (0x00, 0x00, 0x00),
        14 => (0x05, 0x05, 0x05),
        15 => (0x05, 0x05, 0x05),
        16 => (0xc7, 0xc7, 0xc7),
        17 => (0x00, 0x77, 0xff),
        18 => (0x21, 0x55, 0xff),
        19 => (0x82, 0x37, 0xfa),
        20 => (0xeb, 0x2f, 0xb5),
        21 => (0xff, 0x29, 0x50),
        22 => (0xff, 0x22, 0x00),
        23 => (0xd6, 0x32, 0x00),
        24 => (0xc4, 0x62, 0x00),
        25 => (0x35, 0x80, 0x00),
        26 => (0x05, 0x8f, 0x00),
        27 => (0x00, 0x8a, 0x55),
        28 => (0x00, 0x99, 0xcc),
        29 => (0x21, 0x21, 0x21),
        30 => (0x09, 0x09, 0x09),
        31 => (0x09, 0x09, 0x09),
        32 => (0xff, 0xff, 0xff),
        33 => (0x0f, 0xd7, 0xff),
        34 => (0x69, 0xa2, 0xff),
        35 => (0xd4, 0x80, 0xff),
        36 => (0xff, 0x45, 0xf3),
        37 => (0xff, 0x61, 0x8b),
        38 => (0xff, 0x88, 0x33),
        39 => (0xff, 0x9c, 0x12),
        40 => (0xfa, 0xbc, 0x20),
        41 => (0x9f, 0xe3, 0x0e),
        42 => (0x2b, 0xf0, 0x35),
        43 => (0x0c, 0xf0, 0xa4),
        44 => (0x05, 0xfb, 0xff),
        45 => (0x5e, 0x5e, 0x5e),
        46 => (0x0d, 0x0d, 0x0d),
        47 => (0x0d, 0x0d, 0x0d),
        48 => (0xff, 0xff, 0xff),
        49 => (0xa6, 0xfc, 0xff),
        50 => (0xb3, 0xec, 0xff),
        51 => (0xda, 0xab, 0xeb),
        52 => (0xff, 0xa8, 0xf9),
        53 => (0xff, 0xab, 0xb3),
        54 => (0xff, 0xd2, 0xb0),
        55 => (0xff, 0xef, 0xa6),
        56 => (0xff, 0xf7, 0x9c),
        57 => (0xd7, 0xe8, 0x95),
        58 => (0xa6, 0xed, 0xaf),
        59 => (0xa2, 0xf2, 0xda),
        60 => (0x99, 0xff, 0xfc),
        61 => (0xdd, 0xdd, 0xdd),
        62 => (0x11, 0x11, 0x11),
        _ => (0x11, 0x11, 0x11),
    }
}

// ---------------------------------------------------------------------------
// Frame buffer
// ---------------------------------------------------------------------------

pub const FRAME_WIDTH: usize = 256;
pub const FRAME_HEIGHT: usize = 240;

/// Fixed-size RGB byte surface an external renderer samples once per
/// completed frame.
pub struct Frame {
    pub data: Vec<u8>,
}

impl Frame {
    pub fn new() -> (r: Frame)
        ensures
            r.data@.len() == FRAME_WIDTH * FRAME_HEIGHT * 3,
            forall|i: int| 0 <= i < r.data@.len() ==> r.data@[i] == 0u8,
    {
        Frame { data: vec![0u8; FRAME_WIDTH * FRAME_HEIGHT * 3] }
    }

    /// Set one pixel; writes outside the 256 x 240 surface are dropped.
    pub fn set_pixel(&mut self, x: usize, y: usize, rgb: (u8, u8, u8))
        requires
            old(self).data@.len() == FRAME_WIDTH * FRAME_HEIGHT * 3,
        ensures
            final(self).data@.len() == old(self).data@.len(),
            x < FRAME_WIDTH && y < FRAME_HEIGHT ==> final(self).data@ == old(
                self,
            ).data@.update((y * 3 * FRAME_WIDTH + x * 3) as int, rgb.0).update(
                (y * 3 * FRAME_WIDTH + x * 3 + 1) as int,
                rgb.1,
            ).update((y * 3 * FRAME_WIDTH + x * 3 + 2) as int, rgb.2),
            !(x < FRAME_WIDTH && y < FRAME_HEIGHT) ==> final(self).data@ == old(self).data@,
    {
        if x < FRAME_WIDTH && y < FRAME_HEIGHT {
            let base: usize = y * 3 * FRAME_WIDTH + x * 3;
            self.data[base] = rgb.0;
            self.data[base + 1] = rgb.1;
            self.data[base + 2] = rgb.2;
        }
    }

    pub fn get_data(&self) -> (r: &Vec<u8>)
        ensures
            r@ == self.data@,
    {
        &self.data
    }
}

} // verus!
