use nes_core::components::bus::Bus;
use nes_core::components::cartridges::{Cartridge, Mirroring};
use nes_core::components::ppu::{Frame, PPU, system_palette_color};

fn fresh_ppu(mirroring: Mirroring) -> PPU {
    PPU::new(Vec::new(), mirroring)
}

#[test]
fn vblank_sets_at_scanline_241_and_clears_at_frame_end() {
    let mut ppu = fresh_ppu(Mirroring::Horizontal);
    let mut frames: u32 = 0;
    let mut i: u32 = 0;
    while i < 341 * 241 {
        if ppu.tick(1) {
            frames += 1;
        }
        i += 1;
    }
    assert!(ppu.status.vblank_started);
    assert_eq!(frames, 0);
    while i < 341 * 262 {
        if ppu.tick(1) {
            frames += 1;
        }
        i += 1;
    }
    assert!(!ppu.status.vblank_started);
    assert_eq!(frames, 1);
    assert_eq!(ppu.scanline, 0);
    assert_eq!(ppu.cycles, 0);
}

#[test]
fn enabling_nmi_during_vblank_raises_the_interrupt_immediately() {
    let mut ppu = fresh_ppu(Mirroring::Horizontal);
    let mut i: u32 = 0;
    while i < 341 * 241 {
        ppu.tick(1);
        i += 1;
    }
    assert!(ppu.status.vblank_started);
    assert_eq!(ppu.pool_nmi_status(), None);
    ppu.write_in_control(0b1000_0000);
    assert_eq!(ppu.pool_nmi_status(), Some(1));
    // consuming it clears it
    assert_eq!(ppu.pool_nmi_status(), None);
}

#[test]
fn nmi_fires_when_entering_vblank_with_generation_enabled() {
    let mut ppu = fresh_ppu(Mirroring::Horizontal);
    ppu.write_in_control(0b1000_0000);
    let mut i: u32 = 0;
    while i < 341 * 241 {
        ppu.tick(1);
        i += 1;
    }
    assert_eq!(ppu.pool_nmi_status(), Some(1));
}

#[test]
fn nmi_poll_through_the_bus_after_control_write() {
    let cartridge = Cartridge::new(Vec::new(), Vec::new(), Mirroring::Vertical);
    let mut bus = Bus::new(cartridge);
    // push the video unit into vertical blank: 27394 processor cycles are
    // 82182 dot units, just past 341 x 241
    let mut i: u32 = 0;
    while i < 27394 {
        bus.tick(1);
        i += 1;
    }
    assert!(bus.ppu.status.vblank_started);
    assert_eq!(bus.poll_nmi_status(), None);
    bus.memory_write(0x2000, 0b1000_0000);
    assert_eq!(bus.poll_nmi_status(), Some(1));
}

#[test]
fn address_latch_composes_high_then_low_and_wraps() {
    let mut ppu = fresh_ppu(Mirroring::Horizontal);
    ppu.write_in_ppu_address(0x21);
    ppu.write_in_ppu_address(0x15);
    assert_eq!(ppu.address.get(), 0x2115);
    // a composed address past 0x3FFF wraps at the ceiling
    ppu.write_in_ppu_address(0x41);
    assert_eq!(ppu.address.get(), 0x0115);
}

#[test]
fn status_read_resets_the_address_latch_toggle() {
    let mut ppu = fresh_ppu(Mirroring::Horizontal);
    ppu.write_in_ppu_address(0x21); // high half written, toggle now points low
    ppu.read_status();
    ppu.write_in_ppu_address(0x23); // after the reset this lands in the high half
    ppu.write_in_ppu_address(0x05);
    assert_eq!(ppu.address.get(), 0x2305);
}

#[test]
fn status_read_clears_vertical_blank() {
    let mut ppu = fresh_ppu(Mirroring::Horizontal);
    let mut i: u32 = 0;
    while i < 341 * 241 {
        ppu.tick(1);
        i += 1;
    }
    assert!(ppu.status.vblank_started);
    let bits = ppu.read_status();
    assert_eq!(bits & 0x80, 0x80);
    assert!(!ppu.status.vblank_started);
}

#[test]
fn data_port_reads_are_buffered_one_behind() {
    let mut ppu = fresh_ppu(Mirroring::Horizontal);
    // write 0xAB then 0xCD at 0x2300 and 0x2301
    ppu.write_in_ppu_address(0x23);
    ppu.write_in_ppu_address(0x00);
    ppu.write_in_data(0xab);
    ppu.write_in_data(0xcd);
    // point back and read: the first read returns the stale buffer
    ppu.write_in_ppu_address(0x23);
    ppu.write_in_ppu_address(0x00);
    let first = ppu.read_data();
    let second = ppu.read_data();
    let third = ppu.read_data();
    assert_eq!(first, 0x00);
    assert_eq!(second, 0xab);
    assert_eq!(third, 0xcd);
}

#[test]
fn data_port_increments_by_32_when_the_control_bit_is_set() {
    let mut ppu = fresh_ppu(Mirroring::Horizontal);
    ppu.write_in_control(0b0000_0100);
    ppu.write_in_ppu_address(0x23);
    ppu.write_in_ppu_address(0x00);
    ppu.write_in_data(0x11); // lands at 0x2300, address moves to 0x2320
    ppu.write_in_data(0x22); // lands at 0x2320
    assert_eq!(ppu.address.get(), 0x2340);
    assert_eq!(ppu.vram[0x0300], 0x11);
    assert_eq!(ppu.vram[0x0320], 0x22);
}

#[test]
fn nametable_mirroring_folds_logical_tables() {
    let horizontal = fresh_ppu(Mirroring::Horizontal);
    // horizontal: tables 0 and 1 alias the first half, 2 and 3 the second
    assert_eq!(horizontal.mirror_vram_address(0x2000), 0x0000);
    assert_eq!(horizontal.mirror_vram_address(0x2400), 0x0000);
    assert_eq!(horizontal.mirror_vram_address(0x2800), 0x0400);
    assert_eq!(horizontal.mirror_vram_address(0x2c00), 0x0400);

    let vertical = fresh_ppu(Mirroring::Vertical);
    // vertical: tables 0 and 2 alias the first half, 1 and 3 the second
    assert_eq!(vertical.mirror_vram_address(0x2000), 0x0000);
    assert_eq!(vertical.mirror_vram_address(0x2400), 0x0400);
    assert_eq!(vertical.mirror_vram_address(0x2800), 0x0000);
    assert_eq!(vertical.mirror_vram_address(0x2c00), 0x0400);
}

#[test]
fn open_bus_reads_return_the_last_latched_byte() {
    let cartridge = Cartridge::new(Vec::new(), Vec::new(), Mirroring::Horizontal);
    let mut bus = Bus::new(cartridge);
    bus.memory_write(0x0000, 0x5a);
    assert_eq!(bus.memory_read(0x4000), 0x5a); // unmapped window
    assert_eq!(bus.memory_read(0x2001), 0x5a); // unimplemented register port
}

#[test]
fn frame_set_pixel_writes_in_bounds_and_drops_outside() {
    let mut frame = Frame::new();
    frame.set_pixel(2, 1, (10, 20, 30));
    let base = 1 * 3 * 256 + 2 * 3;
    assert_eq!(frame.get_data()[base], 10);
    assert_eq!(frame.get_data()[base + 1], 20);
    assert_eq!(frame.get_data()[base + 2], 30);
    frame.set_pixel(256, 0, (1, 2, 3));
    frame.set_pixel(0, 240, (1, 2, 3));
    assert_eq!(frame.get_data().iter().filter(|&&b| b != 0).count(), 3);
}

#[test]
fn system_palette_holds_the_fixed_colors() {
    assert_eq!(system_palette_color(0), (0x80, 0x80, 0x80));
    assert_eq!(system_palette_color(1), (0x00, 0x3d, 0xa6));
    assert_eq!(system_palette_color(32), (0xff, 0xff, 0xff));
    assert_eq!(system_palette_color(63), (0x11, 0x11, 0x11));
}
