//! Opcode table and dispatcher: a read-only mapping from every one of the
//! 256 opcode byte values to its record (addressing mode, byte length, base
//! cycle cost), and the interpreter that dispatches a fetched opcode byte to
//! its operation and then closes the instruction out.
//!
//! Every byte value is mapped -- undocumented combinations to their fused
//! operations, the remaining values to no-op equivalents of the correct byte
//! length and cycle cost -- so lookup never fails.

use vstd::prelude::*;

use crate::components::cpu::AddressingMode;
use crate::components::cpu::CPU;
use crate::components::cpu::CpuFlags;
use crate::components::cpu::CpuView;
use crate::components::cpu::spec_adc;
use crate::components::cpu::spec_alr;
use crate::components::cpu::spec_anc;
use crate::components::cpu::spec_and;
use crate::components::cpu::spec_arr;
use crate::components::cpu::spec_asl;
use crate::components::cpu::spec_asl_accumulator;
use crate::components::cpu::spec_axa_absolute;
use crate::components::cpu::spec_axa_indirect;
use crate::components::cpu::spec_axs;
use crate::components::cpu::spec_bit;
use crate::components::cpu::spec_branch;
use crate::components::cpu::spec_compare;
use crate::components::cpu::spec_dcp;
use crate::components::cpu::spec_dec;
use crate::components::cpu::spec_dex;
use crate::components::cpu::spec_dey;
use crate::components::cpu::spec_eor;
use crate::components::cpu::spec_inc;
use crate::components::cpu::spec_inx;
use crate::components::cpu::spec_iny;
use crate::components::cpu::spec_isb;
use crate::components::cpu::spec_jmp_absolute;
use crate::components::cpu::spec_jmp_indirect;
use crate::components::cpu::spec_jsr;
use crate::components::cpu::spec_las;
use crate::components::cpu::spec_lax;
use crate::components::cpu::spec_lda;
use crate::components::cpu::spec_ldx;
use crate::components::cpu::spec_ldy;
use crate::components::cpu::spec_lsr;
use crate::components::cpu::spec_lsr_accumulator;
use crate::components::cpu::spec_lxa;
use crate::components::cpu::spec_nop_read;
use crate::components::cpu::spec_ora;
use crate::components::cpu::spec_pha;
use crate::components::cpu::spec_php;
use crate::components::cpu::spec_pla;
use crate::components::cpu::spec_plp;
use crate::components::cpu::spec_rla;
use crate::components::cpu::spec_rol;
use crate::components::cpu::spec_rol_accumulator;
use crate::components::cpu::spec_ror;
use crate::components::cpu::spec_ror_accumulator;
use crate::components::cpu::spec_rra;
use crate::components::cpu::spec_rti;
use crate::components::cpu::spec_rts;
use crate::components::cpu::spec_sax;
use crate::components::cpu::spec_sbc;
use crate::components::cpu::spec_slo;
use crate::components::cpu::spec_sre;
use crate::components::cpu::spec_sta;
use crate::components::cpu::spec_stx;
use crate::components::cpu::spec_sty;
use crate::components::cpu::spec_sxa;
use crate::components::cpu::spec_sya;
use crate::components::cpu::spec_tas;
use crate::components::cpu::spec_tax;
use crate::components::cpu::spec_tay;
use crate::components::cpu::spec_tsx;
use crate::components::cpu::spec_txa;
use crate::components::cpu::spec_txs;
use crate::components::cpu::spec_tya;
use crate::components::cpu::spec_unofficial_sbc;
use crate::components::cpu::spec_update_pc;
use crate::components::cpu::spec_xaa;

verus! {

/// Opcode record: addressing mode, instruction byte length and base cycle
/// cost. Immutable, looked up by opcode byte.
#[derive(Clone, Copy, Debug, PartialEq, Eq, Structural)]
pub struct OpCode {
    pub mode: AddressingMode,
    pub len: u8,
    pub cycles: u8,
}

/// The complete byte-indexed opcode mapping.
pub open spec fn spec_opcode_info(code: u8) -> OpCode {
    if code == 0x00 {
        OpCode { mode: AddressingMode::NoneAddressing, len: 1, cycles: 7 }
    } else if code == 0x01 || code == 0x21 || code == 0x41 || code == 0x61 || code == 0x81 || code == 0x83 || code == 0xa1 || code == 0xa3 || code == 0xc1 || code == 0xe1 {
        OpCode { mode: AddressingMode::IndirectX, len: 2, cycles: 6 }
    } else if code == 0x02 || code == 0x0a || code == 0x12 || code == 0x18 || code == 0x1a || code == 0x22 || code == 0x2a || code == 0x32 || code == 0x38 || code == 0x3a || code == 0x42 || code == 0x4a || code == 0x52 || code == 0x58 || code == 0x5a || code == 0x62 || code == 0x6a || code == 0x72 || code == 0x78 || code == 0x7a || code == 0x88 || code == 0x8a || code == 0x92 || code == 0x98 || code == 0x9a || code == 0xa8 || code == 0xaa || code == 0xb2 || code == 0xb8 || code == 0xba || code == 0xc8 || code == 0xca || code == 0xd2 || code == 0xd8 || code == 0xda || code == 0xe8 || code == 0xea || code == 0xf2 || code == 0xf8 || code == 0xfa {
        OpCode { mode: AddressingMode::NoneAddressing, len: 1, cycles: 2 }
    } else if code == 0x03 || code == 0x23 || code == 0x43 || code == 0x63 || code == 0xc3 || code == 0xe3 {
        OpCode { mode: AddressingMode::IndirectX, len: 2, cycles: 8 }
    } else if code == 0x04 || code == 0x05 || code == 0x24 || code == 0x25 || code == 0x44 || code == 0x45 || code == 0x64 || code == 0x65 || code == 0x84 || code == 0x85 || code == 0x86 || code == 0x87 || code == 0xa4 || code == 0xa5 || code == 0xa6 || code == 0xa7 || code == 0xc4 || code == 0xc5 || code == 0xe4 || code == 0xe5 {
        OpCode { mode: AddressingMode::ZeroPage, len: 2, cycles: 3 }
    } else if code == 0x06 || code == 0x07 || code == 0x26 || code == 0x27 || code == 0x46 || code == 0x47 || code == 0x66 || code == 0x67 || code == 0xc6 || code == 0xc7 || code == 0xe6 || code == 0xe7 {
        OpCode { mode: AddressingMode::ZeroPage, len: 2, cycles: 5 }
    } else if code == 0x08 || code == 0x48 {
        OpCode { mode: AddressingMode::NoneAddressing, len: 1, cycles: 3 }
    } else if code == 0x09 || code == 0x0b || code == 0x29 || code == 0x2b || code == 0x49 || code == 0x4b || code == 0x69 || code == 0x6b || code == 0x80 || code == 0x82 || code == 0x89 || code == 0x8b || code == 0xa0 || code == 0xa2 || code == 0xa9 || code == 0xab || code == 0xc0 || code == 0xc2 || code == 0xc9 || code == 0xcb || code == 0xe0 || code == 0xe2 || code == 0xe9 || code == 0xeb {
        OpCode { mode: AddressingMode::Immediate, len: 2, cycles: 2 }
    } else if code == 0x0c || code == 0x0d || code == 0x2c || code == 0x2d || code == 0x4d || code == 0x6d || code == 0x8c || code == 0x8d || code == 0x8e || code == 0x8f || code == 0xac || code == 0xad || code == 0xae || code == 0xaf || code == 0xcc || code == 0xcd || code == 0xec || code == 0xed {
        OpCode { mode: AddressingMode::Absolute, len: 3, cycles: 4 }
    } else if code == 0x0e || code == 0x0f || code == 0x2e || code == 0x2f || code == 0x4e || code == 0x4f || code == 0x6e || code == 0x6f || code == 0xce || code == 0xcf || code == 0xee || code == 0xef {
        OpCode { mode: AddressingMode::Absolute, len: 3, cycles: 6 }
    } else if code == 0x10 || code == 0x30 || code == 0x50 || code == 0x70 || code == 0x90 || code == 0xb0 || code == 0xd0 || code == 0xf0 {
        OpCode { mode: AddressingMode::NoneAddressing, len: 2, cycles: 2 }
    } else if code == 0x11 || code == 0x31 || code == 0x51 || code == 0x71 || code == 0xb1 || code == 0xb3 || code == 0xd1 || code == 0xf1 {
        OpCode { mode: AddressingMode::IndirectY, len: 2, cycles: 5 }
    } else if code == 0x13 || code == 0x33 || code == 0x53 || code == 0x73 || code == 0xd3 || code == 0xf3 {
        OpCode { mode: AddressingMode::IndirectY, len: 2, cycles: 8 }
    } else if code == 0x14 || code == 0x15 || code == 0x34 || code == 0x35 || code == 0x54 || code == 0x55 || code == 0x74 || code == 0x75 || code == 0x94 || code == 0x95 || code == 0xb4 || code == 0xb5 || code == 0xd4 || code == 0xd5 || code == 0xf4 || code == 0xf5 {
        OpCode { mode: AddressingMode::ZeroPageX, len: 2, cycles: 4 }
    } else if code == 0x16 || code == 0x17 || code == 0x36 || code == 0x37 || code == 0x56 || code == 0x57 || code == 0x76 || code == 0x77 || code == 0xd6 || code == 0xd7 || code == 0xf6 || code == 0xf7 {
        OpCode { mode: AddressingMode::ZeroPageX, len: 2, cycles: 6 }
    } else if code == 0x19 || code == 0x39 || code == 0x59 || code == 0x79 || code == 0xb9 || code == 0xbb || code == 0xbe || code == 0xbf || code == 0xd9 || code == 0xf9 {
        OpCode { mode: AddressingMode::AbsoluteY, len: 3, cycles: 4 }
    } else if code == 0x1b || code == 0x3b || code == 0x5b || code == 0x7b || code == 0xdb || code == 0xfb {
        OpCode { mode: AddressingMode::AbsoluteY, len: 3, cycles: 7 }
    } else if code == 0x1c || code == 0x1d || code == 0x3c || code == 0x3d || code == 0x5c || code == 0x5d || code == 0x7c || code == 0x7d || code == 0xbc || code == 0xbd || code == 0xdc || code == 0xdd || code == 0xfc || code == 0xfd {
        OpCode { mode: AddressingMode::AbsoluteX, len: 3, cycles: 4 }
    } else if code == 0x1e || code == 0x1f || code == 0x3e || code == 0x3f || code == 0x5e || code == 0x5f || code == 0x7e || code == 0x7f || code == 0xde || code == 0xdf || code == 0xfe || code == 0xff {
        OpCode { mode: AddressingMode::AbsoluteX, len: 3, cycles: 7 }
    } else if code == 0x20 {
        OpCode { mode: AddressingMode::NoneAddressing, len: 3, cycles: 6 }
    } else if code == 0x28 || code == 0x68 {
        OpCode { mode: AddressingMode::NoneAddressing, len: 1, cycles: 4 }
    } else if code == 0x40 || code == 0x60 {
        OpCode { mode: AddressingMode::NoneAddressing, len: 1, cycles: 6 }
    } else if code == 0x4c {
        OpCode { mode: AddressingMode::NoneAddressing, len: 3, cycles: 3 }
    } else if code == 0x6c || code == 0x9b || code == 0x9c || code == 0x9e || code == 0x9f {
        OpCode { mode: AddressingMode::NoneAddressing, len: 3, cycles: 5 }
    } else if code == 0x91 {
        OpCode { mode: AddressingMode::IndirectY, len: 2, cycles: 6 }
    } else if code == 0x93 {
        OpCode { mode: AddressingMode::NoneAddressing, len: 2, cycles: 6 }
    } else if code == 0x96 || code == 0x97 || code == 0xb6 || code == 0xb7 {
        OpCode { mode: AddressingMode::ZeroPageY, len: 2, cycles: 4 }
    } else if code == 0x99 {
        OpCode { mode: AddressingMode::AbsoluteY, len: 3, cycles: 5 }
    } else {
        OpCode { mode: AddressingMode::AbsoluteX, len: 3, cycles: 5 }
    }
}

/// Look an opcode byte up in the table. Every byte value is mapped, lengths
/// are at least one byte, base cycle costs are small, and an operation that
/// resolves an operand is never mapped to the marker mode.
pub fn opcode_info(code: u8) -> (r: OpCode)
    ensures
        r == spec_opcode_info(code),
        1 <= r.len <= 3,
        1 <= r.cycles <= 8,
        (r.mode is NoneAddressing) ==> !spec_resolving_code(code),
{
    match code {
        0x00 => OpCode { mode: AddressingMode::NoneAddressing, len: 1, cycles: 7 },
        0x01 | 0x21 | 0x41 | 0x61 | 0x81 | 0x83 | 0xa1 | 0xa3 | 0xc1 | 0xe1 => OpCode { mode: AddressingMode::IndirectX, len: 2, cycles: 6 },
        0x02 | 0x0a | 0x12 | 0x18 | 0x1a | 0x22 | 0x2a | 0x32 | 0x38 | 0x3a | 0x42 | 0x4a | 0x52 | 0x58 | 0x5a | 0x62 | 0x6a | 0x72 | 0x78 | 0x7a | 0x88 | 0x8a | 0x92 | 0x98 | 0x9a | 0xa8 | 0xaa | 0xb2 | 0xb8 | 0xba | 0xc8 | 0xca | 0xd2 | 0xd8 | 0xda | 0xe8 | 0xea | 0xf2 | 0xf8 | 0xfa => OpCode { mode: AddressingMode::NoneAddressing, len: 1, cycles: 2 },
        0x03 | 0x23 | 0x43 | 0x63 | 0xc3 | 0xe3 => OpCode { mode: AddressingMode::IndirectX, len: 2, cycles: 8 },
        0x04 | 0x05 | 0x24 | 0x25 | 0x44 | 0x45 | 0x64 | 0x65 | 0x84 | 0x85 | 0x86 | 0x87 | 0xa4 | 0xa5 | 0xa6 | 0xa7 | 0xc4 | 0xc5 | 0xe4 | 0xe5 => OpCode { mode: AddressingMode::ZeroPage, len: 2, cycles: 3 },
        0x06 | 0x07 | 0x26 | 0x27 | 0x46 | 0x47 | 0x66 | 0x67 | 0xc6 | 0xc7 | 0xe6 | 0xe7 => OpCode { mode: AddressingMode::ZeroPage, len: 2, cycles: 5 },
        0x08 | 0x48 => OpCode { mode: AddressingMode::NoneAddressing, len: 1, cycles: 3 },
        0x09 | 0x0b | 0x29 | 0x2b | 0x49 | 0x4b | 0x69 | 0x6b | 0x80 | 0x82 | 0x89 | 0x8b | 0xa0 | 0xa2 | 0xa9 | 0xab | 0xc0 | 0xc2 | 0xc9 | 0xcb | 0xe0 | 0xe2 | 0xe9 | 0xeb => OpCode { mode: AddressingMode::Immediate, len: 2, cycles: 2 },
        0x0c | 0x0d | 0x2c | 0x2d | 0x4d | 0x6d | 0x8c | 0x8d | 0x8e | 0x8f | 0xac | 0xad | 0xae | 0xaf | 0xcc | 0xcd | 0xec | 0xed => OpCode { mode: AddressingMode::Absolute, len: 3, cycles: 4 },
        0x0e | 0x0f | 0x2e | 0x2f | 0x4e | 0x4f | 0x6e | 0x6f | 0xce | 0xcf | 0xee | 0xef => OpCode { mode: AddressingMode::Absolute, len: 3, cycles: 6 },
        0x10 | 0x30 | 0x50 | 0x70 | 0x90 | 0xb0 | 0xd0 | 0xf0 => OpCode { mode: AddressingMode::NoneAddressing, len: 2, cycles: 2 },
        0x11 | 0x31 | 0x51 | 0x71 | 0xb1 | 0xb3 | 0xd1 | 0xf1 => OpCode { mode: AddressingMode::IndirectY, len: 2, cycles: 5 },
        0x13 | 0x33 | 0x53 | 0x73 | 0xd3 | 0xf3 => OpCode { mode: AddressingMode::IndirectY, len: 2, cycles: 8 },
        0x14 | 0x15 | 0x34 | 0x35 | 0x54 | 0x55 | 0x74 | 0x75 | 0x94 | 0x95 | 0xb4 | 0xb5 | 0xd4 | 0xd5 | 0xf4 | 0xf5 => OpCode { mode: AddressingMode::ZeroPageX, len: 2, cycles: 4 },
        0x16 | 0x17 | 0x36 | 0x37 | 0x56 | 0x57 | 0x76 | 0x77 | 0xd6 | 0xd7 | 0xf6 | 0xf7 => OpCode { mode: AddressingMode::ZeroPageX, len: 2, cycles: 6 },
        0x19 | 0x39 | 0x59 | 0x79 | 0xb9 | 0xbb | 0xbe | 0xbf | 0xd9 | 0xf9 => OpCode { mode: AddressingMode::AbsoluteY, len: 3, cycles: 4 },
        0x1b | 0x3b | 0x5b | 0x7b | 0xdb | 0xfb => OpCode { mode: AddressingMode::AbsoluteY, len: 3, cycles: 7 },
        0x1c | 0x1d | 0x3c | 0x3d | 0x5c | 0x5d | 0x7c | 0x7d | 0xbc | 0xbd | 0xdc | 0xdd | 0xfc | 0xfd => OpCode { mode: AddressingMode::AbsoluteX, len: 3, cycles: 4 },
        0x1e | 0x1f | 0x3e | 0x3f | 0x5e | 0x5f | 0x7e | 0x7f | 0xde | 0xdf | 0xfe | 0xff => OpCode { mode: AddressingMode::AbsoluteX, len: 3, cycles: 7 },
        0x20 => OpCode { mode: AddressingMode::NoneAddressing, len: 3, cycles: 6 },
        0x28 | 0x68 => OpCode { mode: AddressingMode::NoneAddressing, len: 1, cycles: 4 },
        0x40 | 0x60 => OpCode { mode: AddressingMode::NoneAddressing, len: 1, cycles: 6 },
        0x4c => OpCode { mode: AddressingMode::NoneAddressing, len: 3, cycles: 3 },
        0x6c | 0x9b | 0x9c | 0x9e | 0x9f => OpCode { mode: AddressingMode::NoneAddressing, len: 3, cycles: 5 },
        0x91 => OpCode { mode: AddressingMode::IndirectY, len: 2, cycles: 6 },
        0x93 => OpCode { mode: AddressingMode::NoneAddressing, len: 2, cycles: 6 },
        0x96 | 0x97 | 0xb6 | 0xb7 => OpCode { mode: AddressingMode::ZeroPageY, len: 2, cycles: 4 },
        0x99 => OpCode { mode: AddressingMode::AbsoluteY, len: 3, cycles: 5 },
        _ => OpCode { mode: AddressingMode::AbsoluteX, len: 3, cycles: 5 },
    }
}

/// The opcodes whose operation resolves an operand through an addressing
/// mode; the table never maps one of them to the marker mode.
pub open spec fn spec_resolving_code(code: u8) -> bool {
    code == 0x01 || code == 0x03 || code == 0x04 || code == 0x05 || code == 0x06 || code == 0x07 || code == 0x09 || code == 0x0b || code == 0x0c || code == 0x0d || code == 0x0e || code == 0x0f || code == 0x11 || code == 0x13 || code == 0x14 || code == 0x15 || code == 0x16 || code == 0x17 || code == 0x19 || code == 0x1b || code == 0x1c || code == 0x1d || code == 0x1e || code == 0x1f || code == 0x21 || code == 0x23 || code == 0x24 || code == 0x25 || code == 0x26 || code == 0x27 || code == 0x29 || code == 0x2b || code == 0x2c || code == 0x2d || code == 0x2e || code == 0x2f || code == 0x31 || code == 0x33 || code == 0x34 || code == 0x35 || code == 0x36 || code == 0x37 || code == 0x39 || code == 0x3b || code == 0x3c || code == 0x3d || code == 0x3e || code == 0x3f || code == 0x41 || code == 0x43 || code == 0x44 || code == 0x45 || code == 0x46 || code == 0x47 || code == 0x49 || code == 0x4b || code == 0x4d || code == 0x4e || code == 0x4f || code == 0x51 || code == 0x53 || code == 0x54 || code == 0x55 || code == 0x56 || code == 0x57 || code == 0x59 || code == 0x5b || code == 0x5c || code == 0x5d || code == 0x5e || code == 0x5f || code == 0x61 || code == 0x63 || code == 0x64 || code == 0x65 || code == 0x66 || code == 0x67 || code == 0x69 || code == 0x6b || code == 0x6d || code == 0x6e || code == 0x6f || code == 0x71 || code == 0x73 || code == 0x74 || code == 0x75 || code == 0x76 || code == 0x77 || code == 0x79 || code == 0x7b || code == 0x7c || code == 0x7d || code == 0x7e || code == 0x7f || code == 0x81 || code == 0x83 || code == 0x84 || code == 0x85 || code == 0x86 || code == 0x87 || code == 0x8b || code == 0x8c || code == 0x8d || code == 0x8e || code == 0x8f || code == 0x91 || code == 0x94 || code == 0x95 || code == 0x96 || code == 0x97 || code == 0x99 || code == 0x9d || code == 0xa0 || code == 0xa1 || code == 0xa2 || code == 0xa3 || code == 0xa4 || code == 0xa5 || code == 0xa6 || code == 0xa7 || code == 0xa9 || code == 0xab || code == 0xac || code == 0xad || code == 0xae || code == 0xaf || code == 0xb1 || code == 0xb3 || code == 0xb4 || code == 0xb5 || code == 0xb6 || code == 0xb7 || code == 0xb9 || code == 0xbb || code == 0xbc || code == 0xbd || code == 0xbe || code == 0xbf || code == 0xc0 || code == 0xc1 || code == 0xc3 || code == 0xc4 || code == 0xc5 || code == 0xc6 || code == 0xc7 || code == 0xc9 || code == 0xcb || code == 0xcc || code == 0xcd || code == 0xce || code == 0xcf || code == 0xd1 || code == 0xd3 || code == 0xd4 || code == 0xd5 || code == 0xd6 || code == 0xd7 || code == 0xd9 || code == 0xdb || code == 0xdc || code == 0xdd || code == 0xde || code == 0xdf || code == 0xe0 || code == 0xe1 || code == 0xe3 || code == 0xe4 || code == 0xe5 || code == 0xe6 || code == 0xe7 || code == 0xe9 || code == 0xeb || code == 0xec || code == 0xed || code == 0xee || code == 0xef || code == 0xf1 || code == 0xf3 || code == 0xf4 || code == 0xf5 || code == 0xf6 || code == 0xf7 || code == 0xf9 || code == 0xfb || code == 0xfc || code == 0xfd || code == 0xfe || code == 0xff
}


/// One stage of the dispatched-operation semantics; opcodes it does not
/// cover fall through to the next stage.
pub open spec fn spec_dispatch_a(s: CpuView, code: u8) -> CpuView {
    if code == 0x69 || code == 0x65 || code == 0x75 || code == 0x6d || code == 0x7d || code == 0x79 || code == 0x61 || code == 0x71 {
        spec_adc(s, spec_opcode_info(code).mode)
    } else if code == 0x29 || code == 0x25 || code == 0x35 || code == 0x2d || code == 0x3d || code == 0x39 || code == 0x21 || code == 0x31 {
        spec_and(s, spec_opcode_info(code).mode)
    } else if code == 0x49 || code == 0x45 || code == 0x55 || code == 0x4d || code == 0x5d || code == 0x59 || code == 0x41 || code == 0x51 {
        spec_eor(s, spec_opcode_info(code).mode)
    } else if code == 0x09 || code == 0x05 || code == 0x15 || code == 0x0d || code == 0x1d || code == 0x19 || code == 0x01 || code == 0x11 {
        spec_ora(s, spec_opcode_info(code).mode)
    } else if code == 0xa9 || code == 0xa5 || code == 0xb5 || code == 0xad || code == 0xbd || code == 0xb9 || code == 0xa1 || code == 0xb1 {
        spec_lda(s, spec_opcode_info(code).mode)
    } else if code == 0xa2 || code == 0xa6 || code == 0xb6 || code == 0xae || code == 0xbe {
        spec_ldx(s, spec_opcode_info(code).mode)
    } else if code == 0xa0 || code == 0xa4 || code == 0xb4 || code == 0xac || code == 0xbc {
        spec_ldy(s, spec_opcode_info(code).mode)
    } else if code == 0xe9 || code == 0xe5 || code == 0xf5 || code == 0xed || code == 0xfd || code == 0xf9 || code == 0xe1 || code == 0xf1 {
        spec_sbc(s, spec_opcode_info(code).mode)
    } else if code == 0x85 || code == 0x95 || code == 0x8d || code == 0x9d || code == 0x99 || code == 0x81 || code == 0x91 {
        spec_sta(s, spec_opcode_info(code).mode)
    } else if code == 0x86 || code == 0x96 || code == 0x8e {
        spec_stx(s, spec_opcode_info(code).mode)
    } else if code == 0x84 || code == 0x94 || code == 0x8c {
        spec_sty(s, spec_opcode_info(code).mode)
    } else {
        spec_dispatch_b(s, code)
    }
}

/// One stage of the dispatched-operation semantics; opcodes it does not
/// cover fall through to the next stage.
pub open spec fn spec_dispatch_b(s: CpuView, code: u8) -> CpuView {
    if code == 0x24 || code == 0x2c {
        spec_bit(s, spec_opcode_info(code).mode)
    } else if code == 0xc9 || code == 0xc5 || code == 0xd5 || code == 0xcd || code == 0xdd || code == 0xd9 || code == 0xc1 || code == 0xd1 {
        spec_compare(s, spec_opcode_info(code).mode, s.a)
    } else if code == 0xe0 || code == 0xe4 || code == 0xec {
        spec_compare(s, spec_opcode_info(code).mode, s.x)
    } else if code == 0xc0 || code == 0xc4 || code == 0xcc {
        spec_compare(s, spec_opcode_info(code).mode, s.y)
    } else if code == 0x0a {
        spec_asl_accumulator(s)
    } else if code == 0x06 || code == 0x16 || code == 0x0e || code == 0x1e {
        spec_asl(s, spec_opcode_info(code).mode).1
    } else if code == 0x4a {
        spec_lsr_accumulator(s)
    } else if code == 0x46 || code == 0x56 || code == 0x4e || code == 0x5e {
        spec_lsr(s, spec_opcode_info(code).mode).1
    } else if code == 0x2a {
        spec_rol_accumulator(s)
    } else if code == 0x26 || code == 0x36 || code == 0x2e || code == 0x3e {
        spec_rol(s, spec_opcode_info(code).mode).1
    } else if code == 0x6a {
        spec_ror_accumulator(s)
    } else {
        spec_dispatch_c(s, code)
    }
}

/// One stage of the dispatched-operation semantics; opcodes it does not
/// cover fall through to the next stage.
pub open spec fn spec_dispatch_c(s: CpuView, code: u8) -> CpuView {
    if code == 0x66 || code == 0x76 || code == 0x6e || code == 0x7e {
        spec_ror(s, spec_opcode_info(code).mode).1
    } else if code == 0xc6 || code == 0xd6 || code == 0xce || code == 0xde {
        spec_dec(s, spec_opcode_info(code).mode).1
    } else if code == 0xe6 || code == 0xf6 || code == 0xee || code == 0xfe {
        spec_inc(s, spec_opcode_info(code).mode).1
    } else if code == 0x90 {
        spec_branch(s, !s.p.carry)
    } else if code == 0xb0 {
        spec_branch(s, s.p.carry)
    } else if code == 0xf0 {
        spec_branch(s, s.p.zero)
    } else if code == 0x30 {
        spec_branch(s, s.p.negative)
    } else if code == 0xd0 {
        spec_branch(s, !s.p.zero)
    } else if code == 0x10 {
        spec_branch(s, !s.p.negative)
    } else if code == 0x50 {
        spec_branch(s, !s.p.overflow)
    } else if code == 0x70 {
        spec_branch(s, s.p.overflow)
    } else {
        spec_dispatch_d(s, code)
    }
}

/// One stage of the dispatched-operation semantics; opcodes it does not
/// cover fall through to the next stage.
pub open spec fn spec_dispatch_d(s: CpuView, code: u8) -> CpuView {
    if code == 0x18 {
        CpuView { p: CpuFlags { carry: false, ..s.p }, ..s }
    } else if code == 0xd8 {
        CpuView { p: CpuFlags { decimal_mode: false, ..s.p }, ..s }
    } else if code == 0x58 {
        CpuView { p: CpuFlags { interrupt_disable: false, ..s.p }, ..s }
    } else if code == 0xb8 {
        CpuView { p: CpuFlags { overflow: false, ..s.p }, ..s }
    } else if code == 0x38 {
        CpuView { p: CpuFlags { carry: true, ..s.p }, ..s }
    } else if code == 0xf8 {
        CpuView { p: CpuFlags { decimal_mode: true, ..s.p }, ..s }
    } else if code == 0x78 {
        CpuView { p: CpuFlags { interrupt_disable: true, ..s.p }, ..s }
    } else if code == 0xca {
        spec_dex(s)
    } else if code == 0x88 {
        spec_dey(s)
    } else if code == 0xe8 {
        spec_inx(s)
    } else if code == 0xc8 {
        spec_iny(s)
    } else {
        spec_dispatch_e(s, code)
    }
}

/// One stage of the dispatched-operation semantics; opcodes it does not
/// cover fall through to the next stage.
pub open spec fn spec_dispatch_e(s: CpuView, code: u8) -> CpuView {
    if code == 0x4c {
        spec_jmp_absolute(s)
    } else if code == 0x6c {
        spec_jmp_indirect(s)
    } else if code == 0x20 {
        spec_jsr(s)
    } else if code == 0x60 {
        spec_rts(s)
    } else if code == 0x40 {
        spec_rti(s)
    } else if code == 0x48 {
        spec_pha(s)
    } else if code == 0x08 {
        spec_php(s)
    } else if code == 0x68 {
        spec_pla(s)
    } else if code == 0x28 {
        spec_plp(s)
    } else if code == 0xaa {
        spec_tax(s)
    } else if code == 0xa8 {
        spec_tay(s)
    } else {
        spec_dispatch_f(s, code)
    }
}

/// One stage of the dispatched-operation semantics; opcodes it does not
/// cover fall through to the next stage.
pub open spec fn spec_dispatch_f(s: CpuView, code: u8) -> CpuView {
    if code == 0xba {
        spec_tsx(s)
    } else if code == 0x8a {
        spec_txa(s)
    } else if code == 0x9a {
        spec_txs(s)
    } else if code == 0x98 {
        spec_tya(s)
    } else if code == 0xc7 || code == 0xd7 || code == 0xcf || code == 0xdf || code == 0xdb || code == 0xc3 || code == 0xd3 {
        spec_dcp(s, spec_opcode_info(code).mode)
    } else if code == 0x27 || code == 0x37 || code == 0x2f || code == 0x3f || code == 0x3b || code == 0x23 || code == 0x33 {
        spec_rla(s, spec_opcode_info(code).mode)
    } else if code == 0x07 || code == 0x17 || code == 0x0f || code == 0x1f || code == 0x1b || code == 0x03 || code == 0x13 {
        spec_slo(s, spec_opcode_info(code).mode)
    } else if code == 0x47 || code == 0x57 || code == 0x4f || code == 0x5f || code == 0x5b || code == 0x43 || code == 0x53 {
        spec_sre(s, spec_opcode_info(code).mode)
    } else if code == 0x67 || code == 0x77 || code == 0x6f || code == 0x7f || code == 0x7b || code == 0x63 || code == 0x73 {
        spec_rra(s, spec_opcode_info(code).mode)
    } else if code == 0xe7 || code == 0xf7 || code == 0xef || code == 0xff || code == 0xfb || code == 0xe3 || code == 0xf3 {
        spec_isb(s, spec_opcode_info(code).mode)
    } else if code == 0xa7 || code == 0xb7 || code == 0xaf || code == 0xbf || code == 0xa3 || code == 0xb3 {
        spec_lax(s, spec_opcode_info(code).mode)
    } else {
        spec_dispatch_g(s, code)
    }
}

/// One stage of the dispatched-operation semantics; opcodes it does not
/// cover fall through to the next stage.
pub open spec fn spec_dispatch_g(s: CpuView, code: u8) -> CpuView {
    if code == 0x87 || code == 0x97 || code == 0x8f || code == 0x83 {
        spec_sax(s, spec_opcode_info(code).mode)
    } else if code == 0xeb {
        spec_unofficial_sbc(s, spec_opcode_info(code).mode)
    } else if code == 0x0b || code == 0x2b {
        spec_anc(s, spec_opcode_info(code).mode)
    } else if code == 0x4b {
        spec_alr(s, spec_opcode_info(code).mode)
    } else if code == 0x6b {
        spec_arr(s, spec_opcode_info(code).mode)
    } else if code == 0xcb {
        spec_axs(s, spec_opcode_info(code).mode)
    } else if code == 0xab {
        spec_lxa(s, spec_opcode_info(code).mode)
    } else if code == 0x8b {
        spec_xaa(s, spec_opcode_info(code).mode)
    } else if code == 0xbb {
        spec_las(s, spec_opcode_info(code).mode)
    } else if code == 0x9b {
        spec_tas(s)
    } else if code == 0x93 {
        spec_axa_indirect(s)
    } else {
        spec_dispatch_h(s, code)
    }
}

/// One stage of the dispatched-operation semantics; opcodes it does not
/// cover fall through to the next stage.
pub open spec fn spec_dispatch_h(s: CpuView, code: u8) -> CpuView {
    if code == 0x9f {
        spec_axa_absolute(s)
    } else if code == 0x9e {
        spec_sxa(s)
    } else if code == 0x9c {
        spec_sya(s)
    } else if code == 0x04 || code == 0x44 || code == 0x64 || code == 0x14 || code == 0x34 || code == 0x54 || code == 0x74 || code == 0xd4 || code == 0xf4 || code == 0x0c || code == 0x1c || code == 0x3c || code == 0x5c || code == 0x7c || code == 0xdc || code == 0xfc {
        spec_nop_read(s, spec_opcode_info(code).mode)
    } else {
        s
    }
}

/// The effect of one dispatched operation on the machine state, before the
/// instruction is closed out.
pub open spec fn spec_dispatch(s: CpuView, code: u8) -> CpuView {
    spec_dispatch_a(s, code)
}

/// One full instruction after the opcode byte has been fetched: the reserved
/// halt opcode stops the loop; any other operation runs and the instruction
/// is closed out by `spec_update_pc`.
pub open spec fn spec_interpret(s: CpuView, code: u8) -> (bool, CpuView) {
    if code == 0x00 {
        (true, s)
    } else {
        (false, spec_update_pc(spec_dispatch(s, code), spec_opcode_info(code), s.pc))
    }
}

/// The dispatcher: owns no state; it reads the opcode table and drives the
/// processor's operation handlers.
pub struct Assembler {}

impl Assembler {
    pub fn new() -> (r: Assembler)
        ensures
            r == (Assembler {  }),
    {
        Assembler {  }
    }

    #[verifier::rlimit(100)]
    #[verifier::spinoff_prover]
    fn dispatch_a(&self, cpu: &mut CPU, code: u8, opcode: &OpCode) -> (handled: bool)
        requires
            old(cpu)@.wf(),
            *opcode == spec_opcode_info(code),
            (opcode.mode is NoneAddressing) ==> !spec_resolving_code(code),
        ensures
            final(cpu)@.wf(),
            handled ==> final(cpu)@ == spec_dispatch_a(old(cpu)@, code),
            !handled ==> final(cpu)@ == old(cpu)@ && spec_dispatch_a(old(cpu)@, code) == spec_dispatch_b(old(cpu)@, code),
    {
        match code {
            0x69 | 0x65 | 0x75 | 0x6d | 0x7d | 0x79 | 0x61 | 0x71 => {
                cpu.adc(&opcode.mode);
                true
            },
            0x29 | 0x25 | 0x35 | 0x2d | 0x3d | 0x39 | 0x21 | 0x31 => {
                cpu.and(&opcode.mode);
                true
            },
            0x49 | 0x45 | 0x55 | 0x4d | 0x5d | 0x59 | 0x41 | 0x51 => {
                cpu.eor(&opcode.mode);
                true
            },
            0x09 | 0x05 | 0x15 | 0x0d | 0x1d | 0x19 | 0x01 | 0x11 => {
                cpu.ora(&opcode.mode);
                true
            },
            0xa9 | 0xa5 | 0xb5 | 0xad | 0xbd | 0xb9 | 0xa1 | 0xb1 => {
                cpu.lda(&opcode.mode);
                true
            },
            0xa2 | 0xa6 | 0xb6 | 0xae | 0xbe => {
                cpu.ldx(&opcode.mode);
                true
            },
            0xa0 | 0xa4 | 0xb4 | 0xac | 0xbc => {
                cpu.ldy(&opcode.mode);
                true
            },
            0xe9 | 0xe5 | 0xf5 | 0xed | 0xfd | 0xf9 | 0xe1 | 0xf1 => {
                cpu.sbc(&opcode.mode);
                true
            },
            0x85 | 0x95 | 0x8d | 0x9d | 0x99 | 0x81 | 0x91 => {
                cpu.sta(&opcode.mode);
                true
            },
            0x86 | 0x96 | 0x8e => {
                cpu.stx(&opcode.mode);
                true
            },
            0x84 | 0x94 | 0x8c => {
                cpu.sty(&opcode.mode);
                true
            },
            _ => false,
        }
    }

    #[verifier::rlimit(100)]
    #[verifier::spinoff_prover]
    fn dispatch_b(&self, cpu: &mut CPU, code: u8, opcode: &OpCode) -> (handled: bool)
        requires
            old(cpu)@.wf(),
            *opcode == spec_opcode_info(code),
            (opcode.mode is NoneAddressing) ==> !spec_resolving_code(code),
        ensures
            final(cpu)@.wf(),
            handled ==> final(cpu)@ == spec_dispatch_b(old(cpu)@, code),
            !handled ==> final(cpu)@ == old(cpu)@ && spec_dispatch_b(old(cpu)@, code) == spec_dispatch_c(old(cpu)@, code),
    {
        match code {
            0x24 | 0x2c => {
                cpu.bit(&opcode.mode);
                true
            },
            0xc9 | 0xc5 | 0xd5 | 0xcd | 0xdd | 0xd9 | 0xc1 | 0xd1 => {
                cpu.cmp(&opcode.mode);
                true
            },
            0xe0 | 0xe4 | 0xec => {
                cpu.cpx(&opcode.mode);
                true
            },
            0xc0 | 0xc4 | 0xcc => {
                cpu.cpy(&opcode.mode);
                true
            },
            0x0a => {
                cpu.asl_accumulator();
                true
            },
            0x06 | 0x16 | 0x0e | 0x1e => {
                cpu.asl(&opcode.mode);
                true
            },
            0x4a => {
                cpu.lsr_accumulator();
                true
            },
            0x46 | 0x56 | 0x4e | 0x5e => {
                cpu.lsr(&opcode.mode);
                true
            },
            0x2a => {
                cpu.rol_accumulator();
                true
            },
            0x26 | 0x36 | 0x2e | 0x3e => {
                cpu.rol(&opcode.mode);
                true
            },
            0x6a => {
                cpu.ror_accumulator();
                true
            },
            _ => false,
        }
    }

    #[verifier::rlimit(100)]
    #[verifier::spinoff_prover]
    fn dispatch_c(&self, cpu: &mut CPU, code: u8, opcode: &OpCode) -> (handled: bool)
        requires
            old(cpu)@.wf(),
            *opcode == spec_opcode_info(code),
            (opcode.mode is NoneAddressing) ==> !spec_resolving_code(code),
        ensures
            final(cpu)@.wf(),
            handled ==> final(cpu)@ == spec_dispatch_c(old(cpu)@, code),
            !handled ==> final(cpu)@ == old(cpu)@ && spec_dispatch_c(old(cpu)@, code) == spec_dispatch_d(old(cpu)@, code),
    {
        match code {
            0x66 | 0x76 | 0x6e | 0x7e => {
                cpu.ror(&opcode.mode);
                true
            },
            0xc6 | 0xd6 | 0xce | 0xde => {
                cpu.dec(&opcode.mode);
                true
            },
            0xe6 | 0xf6 | 0xee | 0xfe => {
                cpu.inc(&opcode.mode);
                true
            },
            0x90 => {
                cpu.bcc();
                true
            },
            0xb0 => {
                cpu.bcs();
                true
            },
            0xf0 => {
                cpu.beq();
                true
            },
            0x30 => {
                cpu.bmi();
                true
            },
            0xd0 => {
                cpu.bne();
                true
            },
            0x10 => {
                cpu.bpl();
                true
            },
            0x50 => {
                cpu.bvc();
                true
            },
            0x70 => {
                cpu.bvs();
                true
            },
            _ => false,
        }
    }

    #[verifier::rlimit(100)]
    #[verifier::spinoff_prover]
    fn dispatch_d(&self, cpu: &mut CPU, code: u8, opcode: &OpCode) -> (handled: bool)
        requires
            old(cpu)@.wf(),
            *opcode == spec_opcode_info(code),
            (opcode.mode is NoneAddressing) ==> !spec_resolving_code(code),
        ensures
            final(cpu)@.wf(),
            handled ==> final(cpu)@ == spec_dispatch_d(old(cpu)@, code),
            !handled ==> final(cpu)@ == old(cpu)@ && spec_dispatch_d(old(cpu)@, code) == spec_dispatch_e(old(cpu)@, code),
    {
        match code {
            0x18 => {
                cpu.clc();
                true
            },
            0xd8 => {
                cpu.cld();
                true
            },
            0x58 => {
                cpu.cli();
                true
            },
            0xb8 => {
                cpu.clv();
                true
            },
            0x38 => {
                cpu.sec();
                true
            },
            0xf8 => {
                cpu.sed();
                true
            },
            0x78 => {
                cpu.sei();
                true
            },
            0xca => {
                cpu.dex();
                true
            },
            0x88 => {
                cpu.dey();
                true
            },
            0xe8 => {
                cpu.inx();
                true
            },
            0xc8 => {
                cpu.iny();
                true
            },
            _ => false,
        }
    }

    #[verifier::rlimit(100)]
    #[verifier::spinoff_prover]
    fn dispatch_e(&self, cpu: &mut CPU, code: u8, opcode: &OpCode) -> (handled: bool)
        requires
            old(cpu)@.wf(),
            *opcode == spec_opcode_info(code),
            (opcode.mode is NoneAddressing) ==> !spec_resolving_code(code),
        ensures
            final(cpu)@.wf(),
            handled ==> final(cpu)@ == spec_dispatch_e(old(cpu)@, code),
            !handled ==> final(cpu)@ == old(cpu)@ && spec_dispatch_e(old(cpu)@, code) == spec_dispatch_f(old(cpu)@, code),
    {
        match code {
            0x4c => {
                cpu.jmp_absolute();
                true
            },
            0x6c => {
                cpu.jmp_indirect();
                true
            },
            0x20 => {
                cpu.jsr();
                true
            },
            0x60 => {
                cpu.rts();
                true
            },
            0x40 => {
                cpu.rti();
                true
            },
            0x48 => {
                cpu.pha();
                true
            },
            0x08 => {
                cpu.php();
                true
            },
            0x68 => {
                cpu.pla();
                true
            },
            0x28 => {
                cpu.plp();
                true
            },
            0xaa => {
                cpu.tax();
                true
            },
            0xa8 => {
                cpu.tay();
                true
            },
            _ => false,
        }
    }

    #[verifier::rlimit(100)]
    #[verifier::spinoff_prover]
    fn dispatch_f(&self, cpu: &mut CPU, code: u8, opcode: &OpCode) -> (handled: bool)
        requires
            old(cpu)@.wf(),
            *opcode == spec_opcode_info(code),
            (opcode.mode is NoneAddressing) ==> !spec_resolving_code(code),
        ensures
            final(cpu)@.wf(),
            handled ==> final(cpu)@ == spec_dispatch_f(old(cpu)@, code),
            !handled ==> final(cpu)@ == old(cpu)@ && spec_dispatch_f(old(cpu)@, code) == spec_dispatch_g(old(cpu)@, code),
    {
        match code {
            0xba => {
                cpu.tsx();
                true
            },
            0x8a => {
                cpu.txa();
                true
            },
            0x9a => {
                cpu.txs();
                true
            },
            0x98 => {
                cpu.tya();
                true
            },
            0xc7 | 0xd7 | 0xcf | 0xdf | 0xdb | 0xc3 | 0xd3 => {
                cpu.dcp(&opcode.mode);
                true
            },
            0x27 | 0x37 | 0x2f | 0x3f | 0x3b | 0x23 | 0x33 => {
                cpu.rla(&opcode.mode);
                true
            },
            0x07 | 0x17 | 0x0f | 0x1f | 0x1b | 0x03 | 0x13 => {
                cpu.slo(&opcode.mode);
                true
            },
            0x47 | 0x57 | 0x4f | 0x5f | 0x5b | 0x43 | 0x53 => {
                cpu.sre(&opcode.mode);
                true
            },
            0x67 | 0x77 | 0x6f | 0x7f | 0x7b | 0x63 | 0x73 => {
                cpu.rra(&opcode.mode);
                true
            },
            0xe7 | 0xf7 | 0xef | 0xff | 0xfb | 0xe3 | 0xf3 => {
                cpu.isb(&opcode.mode);
                true
            },
            0xa7 | 0xb7 | 0xaf | 0xbf | 0xa3 | 0xb3 => {
                cpu.lax(&opcode.mode);
                true
            },
            _ => false,
        }
    }

    #[verifier::rlimit(100)]
    #[verifier::spinoff_prover]
    fn dispatch_g(&self, cpu: &mut CPU, code: u8, opcode: &OpCode) -> (handled: bool)
        requires
            old(cpu)@.wf(),
            *opcode == spec_opcode_info(code),
            (opcode.mode is NoneAddressing) ==> !spec_resolving_code(code),
        ensures
            final(cpu)@.wf(),
            handled ==> final(cpu)@ == spec_dispatch_g(old(cpu)@, code),
            !handled ==> final(cpu)@ == old(cpu)@ && spec_dispatch_g(old(cpu)@, code) == spec_dispatch_h(old(cpu)@, code),
    {
        match code {
            0x87 | 0x97 | 0x8f | 0x83 => {
                cpu.sax(&opcode.mode);
                true
            },
            0xeb => {
                cpu.unofficial_sbc(&opcode.mode);
                true
            },
            0x0b | 0x2b => {
                cpu.anc(&opcode.mode);
                true
            },
            0x4b => {
                cpu.alr(&opcode.mode);
                true
            },
            0x6b => {
                cpu.arr(&opcode.mode);
                true
            },
            0xcb => {
                cpu.axs(&opcode.mode);
                true
            },
            0xab => {
                cpu.lxa(&opcode.mode);
                true
            },
            0x8b => {
                cpu.xaa(&opcode.mode);
                true
            },
            0xbb => {
                cpu.las(&opcode.mode);
                true
            },
            0x9b => {
                cpu.tas();
                true
            },
            0x93 => {
                cpu.axa_indirect();
                true
            },
            _ => false,
        }
    }

    #[verifier::rlimit(100)]
    #[verifier::spinoff_prover]
    fn dispatch_h(&self, cpu: &mut CPU, code: u8, opcode: &OpCode) -> (handled: bool)
        requires
            old(cpu)@.wf(),
            *opcode == spec_opcode_info(code),
            (opcode.mode is NoneAddressing) ==> !spec_resolving_code(code),
        ensures
            final(cpu)@.wf(),
            handled ==> final(cpu)@ == spec_dispatch_h(old(cpu)@, code),
            !handled ==> final(cpu)@ == old(cpu)@ && spec_dispatch_h(old(cpu)@, code) == old(cpu)@,
    {
        match code {
            0x9f => {
                cpu.axa_absolute();
                true
            },
            0x9e => {
                cpu.sxa();
                true
            },
            0x9c => {
                cpu.sya();
                true
            },
            0x04 | 0x44 | 0x64 | 0x14 | 0x34 | 0x54 | 0x74 | 0xd4 | 0xf4 | 0x0c | 0x1c | 0x3c | 0x5c | 0x7c | 0xdc | 0xfc => {
                cpu.nop_read(&opcode.mode);
                true
            },
            _ => false,
        }
    }

    /// Dispatch one fetched opcode byte; returns whether the program ends
    /// (the reserved halt opcode).
    #[verifier::rlimit(100)]
    pub fn interpret(&self, cpu: &mut CPU, code: u8) -> (ends: bool)
        requires
            old(cpu)@.wf(),
        ensures
            final(cpu)@.wf(),
            ends == spec_interpret(old(cpu)@, code).0,
            final(cpu)@ == spec_interpret(old(cpu)@, code).1,
    {
        if code == 0x00 {
            return true;
        }
        let opcode = opcode_info(code);
        let pc_state = cpu.register_pc;
        if !self.dispatch_a(cpu, code, &opcode) {
            if !self.dispatch_b(cpu, code, &opcode) {
                if !self.dispatch_c(cpu, code, &opcode) {
                    if !self.dispatch_d(cpu, code, &opcode) {
                        if !self.dispatch_e(cpu, code, &opcode) {
                            if !self.dispatch_f(cpu, code, &opcode) {
                                if !self.dispatch_g(cpu, code, &opcode) {
                                    self.dispatch_h(cpu, code, &opcode);
                                }
                            }
                        }
                    }
                }
            }
        }
        cpu.update_pc(&opcode, pc_state);
        false
    }
}

} // verus!
