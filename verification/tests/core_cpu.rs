use nes_core::components::assembly::{Assembler, OpCode, opcode_info};
use nes_core::components::bus::Bus;
use nes_core::components::cartridges::{Cartridge, Mirroring};
use nes_core::components::cpu::{AddressingMode, CPU};

fn fresh_cpu() -> CPU {
    let cartridge = Cartridge::new(Vec::new(), Vec::new(), Mirroring::Horizontal);
    CPU::new(Bus::new(cartridge))
}

#[test]
fn core_load_immediate_sets_accumulator_and_flags() {
    let mut cpu = fresh_cpu();
    cpu.load_and_run(vec![0xa9, 0x05, 0x00]);
    assert_eq!(cpu.register_a, 5);
    assert!(!cpu.register_p.zero);
    assert!(!cpu.register_p.negative);
}

#[test]
fn core_load_immediate_zero_sets_zero_flag() {
    let mut cpu = fresh_cpu();
    cpu.load_and_run(vec![0xa9, 0x00, 0x00]);
    assert!(cpu.register_p.zero);
}

#[test]
fn core_load_immediate_negative_sets_negative_flag() {
    let mut cpu = fresh_cpu();
    cpu.load_and_run(vec![0xa9, 0x80, 0x00]);
    assert!(cpu.register_p.negative);
    assert!(!cpu.register_p.zero);
}

#[test]
fn core_five_ops_working_together() {
    let mut cpu = fresh_cpu();
    cpu.load_and_run(vec![0xa9, 0xc0, 0xaa, 0xe8, 0x00]);
    assert_eq!(cpu.register_x, 0xc1);
}

#[test]
fn core_adc_then_sbc_restores_accumulator() {
    // clear carry, add 0x30 to 0x50, set carry, subtract 0x30 again
    let mut cpu = fresh_cpu();
    cpu.load_and_run(vec![0x18, 0xa9, 0x50, 0x69, 0x30, 0x38, 0xe9, 0x30, 0x00]);
    assert_eq!(cpu.register_a, 0x50);
}

#[test]
fn core_adc_sets_carry_and_overflow() {
    let mut cpu = fresh_cpu();
    // 0x50 + 0x50 with carry clear: result 0xA0, signed overflow, no carry out
    cpu.load_and_run(vec![0x18, 0xa9, 0x50, 0x69, 0x50, 0x00]);
    assert_eq!(cpu.register_a, 0xa0);
    assert!(cpu.register_p.overflow);
    assert!(!cpu.register_p.carry);
    assert!(cpu.register_p.negative);
}

#[test]
fn core_push_pop_round_trip_restores_byte_and_pointer() {
    let mut cpu = fresh_cpu();
    cpu.load_and_run(vec![0xa9, 0x42, 0x48, 0xa9, 0x00, 0x68, 0x00]);
    assert_eq!(cpu.register_a, 0x42);
    assert_eq!(cpu.register_sp, 0xfd);
}

#[test]
fn core_zero_page_indexed_wraps_modulo_256() {
    let mut cpu = fresh_cpu();
    cpu.register_x = 0x20;
    cpu.bus.memory_write(0x10, 0xf0);
    let (address, crossed) = cpu.get_absolute_address(&AddressingMode::ZeroPageX, 0x10);
    assert_eq!(address, 0x10); // (0xF0 + 0x20) % 256
    assert!(!crossed);
}

#[test]
fn core_absolute_indexed_reports_page_cross() {
    let mut cpu = fresh_cpu();
    cpu.register_x = 0x01;
    cpu.bus.memory_write(0x10, 0xff); // base low
    cpu.bus.memory_write(0x11, 0x00); // base high -> base 0x00FF
    let (address, crossed) = cpu.get_absolute_address(&AddressingMode::AbsoluteX, 0x10);
    assert_eq!(address, 0x0100);
    assert!(crossed);

    let mut cpu2 = fresh_cpu();
    cpu2.register_x = 0x01;
    cpu2.bus.memory_write(0x10, 0x10);
    cpu2.bus.memory_write(0x11, 0x00); // base 0x0010
    let (address2, crossed2) = cpu2.get_absolute_address(&AddressingMode::AbsoluteX, 0x10);
    assert_eq!(address2, 0x0011);
    assert!(!crossed2);
}

#[test]
fn core_branch_cost_untaken_is_base_cycles() {
    let mut cpu = fresh_cpu();
    // LDA #0 sets zero, so BNE is untaken: 2 + 2 cycles = 12 dot units
    cpu.load_and_run(vec![0xa9, 0x00, 0xd0, 0x01, 0x00]);
    assert_eq!(cpu.bus.ppu.cycles, 12);
}

#[test]
fn core_branch_cost_taken_is_base_plus_one() {
    let mut cpu = fresh_cpu();
    // LDA #1 clears zero, BNE +0 is taken within the page: 2 + 3 cycles = 15
    cpu.load_and_run(vec![0xa9, 0x01, 0xd0, 0x00, 0x00]);
    assert_eq!(cpu.bus.ppu.cycles, 15);
}

#[test]
fn core_branch_cost_taken_with_page_cross_is_base_plus_two() {
    let mut cpu = fresh_cpu();
    // BNE -6 from 0x0604 lands at 0x05FE, a different page: 2 + 4 cycles = 18
    cpu.load_and_run(vec![0xa9, 0x01, 0xd0, 0xfa, 0x00]);
    assert_eq!(cpu.bus.ppu.cycles, 18);
}

#[test]
fn core_every_opcode_byte_is_mapped() {
    let mut code: u16 = 0;
    while code < 256 {
        let op: OpCode = opcode_info(code as u8);
        assert!(op.len >= 1 && op.len <= 3);
        assert!(op.cycles >= 1 && op.cycles <= 8);
        code += 1;
    }
}

#[test]
fn core_interpret_halts_on_the_reserved_opcode() {
    let mut cpu = fresh_cpu();
    let assembler = Assembler::new();
    assert!(assembler.interpret(&mut cpu, 0x00));
    assert!(!assembler.interpret(&mut cpu, 0xea));
}

#[test]
fn core_stores_write_through_the_bus() {
    let mut cpu = fresh_cpu();
    cpu.load_and_run(vec![0xa9, 0x77, 0x85, 0x10, 0x00]);
    assert_eq!(cpu.bus.memory_read(0x10), 0x77);
}

#[test]
fn core_jsr_rts_round_trip() {
    // JSR to 0x0606, LDX #5 there, RTS back, then LDA #1, BRK
    let mut cpu = fresh_cpu();
    cpu.load_and_run(vec![0x20, 0x06, 0x06, 0xa9, 0x01, 0x00, 0xa2, 0x05, 0x60]);
    assert_eq!(cpu.register_x, 0x05);
    assert_eq!(cpu.register_a, 0x01);
}

#[test]
fn core_rol_in_memory_updates_the_zero_flag() {
    // ROL $10 of 0x80 with carry clear: result 0x00, zero and carry set
    let mut cpu = fresh_cpu();
    cpu.load_and_run(vec![0xa9, 0x80, 0x85, 0x10, 0x26, 0x10, 0x00]);
    assert_eq!(cpu.bus.memory_read(0x10), 0x00);
    assert!(cpu.register_p.zero);
    assert!(cpu.register_p.carry);
}

#[test]
fn core_ror_in_memory_updates_the_zero_flag() {
    // ROR $10 of 0x01 with carry clear: result 0x00, zero and carry set
    let mut cpu = fresh_cpu();
    cpu.load_and_run(vec![0xa9, 0x01, 0x85, 0x10, 0x66, 0x10, 0x00]);
    assert_eq!(cpu.bus.memory_read(0x10), 0x00);
    assert!(cpu.register_p.zero);
    assert!(cpu.register_p.carry);
}

#[test]
fn core_dcp_clears_carry_when_the_result_exceeds_the_accumulator() {
    // SEC; LDA #1; memory 0x10 holds 0x10; DCP $10 leaves 0x0F > A, so
    // the compare clears the carry
    let mut cpu = fresh_cpu();
    cpu.load_and_run(vec![0x38, 0xa9, 0x01, 0xa2, 0x10, 0x86, 0x10, 0xc7, 0x10, 0x00]);
    assert_eq!(cpu.bus.memory_read(0x10), 0x0f);
    assert!(!cpu.register_p.carry);
    assert!(cpu.register_p.negative); // 0x01 - 0x0F is negative
}

#[test]
fn core_dcp_sets_carry_when_the_accumulator_reaches_the_result() {
    // CLC; LDA #0x20; memory 0x10 holds 0x10; DCP $10 leaves 0x0F <= A
    let mut cpu = fresh_cpu();
    cpu.load_and_run(vec![0x18, 0xa9, 0x20, 0xa2, 0x10, 0x86, 0x10, 0xc7, 0x10, 0x00]);
    assert!(cpu.register_p.carry);
}
