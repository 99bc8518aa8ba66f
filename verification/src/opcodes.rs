//! Opcode metadata for the early interpreter: a partial, read-only mapping
//! from opcode byte to addressing mode, instruction byte length and base
//! cycle cost. A byte with no entry is an unsupported opcode.

use vstd::prelude::*;

use crate::cpu::AddressingMode;

verus! {

/// Opcode record: addressing mode, instruction byte length and base cycle
/// cost.
#[derive(Clone, Copy, Debug, PartialEq, Eq, Structural)]
pub struct OpCode {
    pub mode: AddressingMode,
    pub len: u8,
    pub cycles: u8,
}

/// The byte-indexed opcode mapping; `None` marks an unsupported byte.
pub open spec fn spec_opcode_info(code: u8) -> Option<OpCode> {
    if code == 0x00 {
        Some(OpCode { mode: AddressingMode::NoneAddressing, len: 1, cycles: 7 })
    } else if code == 0x01 || code == 0x21 || code == 0x41 || code == 0x61 || code == 0x81 || code == 0xa1 || code == 0xc1 || code == 0xe1 {
        Some(OpCode { mode: AddressingMode::IndirectX, len: 2, cycles: 6 })
    } else if code == 0x05 || code == 0x24 || code == 0x25 || code == 0x45 || code == 0x65 || code == 0x84 || code == 0x85 || code == 0x86 || code == 0xa4 || code == 0xa5 || code == 0xa6 || code == 0xc4 || code == 0xc5 || code == 0xe4 || code == 0xe5 {
        Some(OpCode { mode: AddressingMode::ZeroPage, len: 2, cycles: 3 })
    } else if code == 0x08 || code == 0x48 {
        Some(OpCode { mode: AddressingMode::NoneAddressing, len: 1, cycles: 3 })
    } else if code == 0x09 || code == 0x29 || code == 0x49 || code == 0x69 || code == 0xa0 || code == 0xa2 || code == 0xa9 || code == 0xc0 || code == 0xc9 || code == 0xe0 || code == 0xe9 {
        Some(OpCode { mode: AddressingMode::Immediate, len: 2, cycles: 2 })
    } else if code == 0x0a || code == 0x1a || code == 0x2a || code == 0x4a || code == 0x6a {
        Some(OpCode { mode: AddressingMode::Accumulator, len: 1, cycles: 2 })
    } else if code == 0x0d || code == 0x2c || code == 0x2d || code == 0x4d || code == 0x6d || code == 0x8c || code == 0x8d || code == 0x8e || code == 0xac || code == 0xad || code == 0xae || code == 0xcc || code == 0xcd || code == 0xec || code == 0xed {
        Some(OpCode { mode: AddressingMode::Absolute, len: 3, cycles: 4 })
    } else if code == 0x10 || code == 0x30 || code == 0x50 || code == 0x70 || code == 0x90 || code == 0xb0 || code == 0xd0 || code == 0xf0 {
        Some(OpCode { mode: AddressingMode::Relative, len: 2, cycles: 2 })
    } else if code == 0x11 || code == 0x31 || code == 0x51 || code == 0x71 || code == 0xb1 || code == 0xd1 || code == 0xf1 {
        Some(OpCode { mode: AddressingMode::IndirectY, len: 2, cycles: 5 })
    } else if code == 0x15 || code == 0x35 || code == 0x55 || code == 0x75 || code == 0x94 || code == 0x95 || code == 0xb4 || code == 0xb5 || code == 0xd5 || code == 0xf5 {
        Some(OpCode { mode: AddressingMode::ZeroPageX, len: 2, cycles: 4 })
    } else if code == 0x18 || code == 0x58 || code == 0x88 || code == 0x8a || code == 0x98 || code == 0x9a || code == 0xa8 || code == 0xaa || code == 0xb8 || code == 0xba || code == 0xc8 || code == 0xca || code == 0xd8 || code == 0xe8 {
        Some(OpCode { mode: AddressingMode::NoneAddressing, len: 1, cycles: 2 })
    } else if code == 0x19 || code == 0x39 || code == 0x59 || code == 0x79 || code == 0xb9 || code == 0xbe || code == 0xd9 || code == 0xf9 {
        Some(OpCode { mode: AddressingMode::AbsoluteY, len: 3, cycles: 4 })
    } else if code == 0x1d || code == 0x3d || code == 0x5d || code == 0x7d || code == 0xbc || code == 0xbd || code == 0xdd || code == 0xfd {
        Some(OpCode { mode: AddressingMode::AbsoluteX, len: 3, cycles: 4 })
    } else if code == 0x20 || code == 0x2e || code == 0x4e || code == 0x6e || code == 0xce || code == 0xee {
        Some(OpCode { mode: AddressingMode::Absolute, len: 3, cycles: 6 })
    } else if code == 0x26 || code == 0x46 || code == 0x66 || code == 0xc6 || code == 0xe6 {
        Some(OpCode { mode: AddressingMode::ZeroPage, len: 2, cycles: 5 })
    } else if code == 0x28 || code == 0x68 {
        Some(OpCode { mode: AddressingMode::NoneAddressing, len: 1, cycles: 4 })
    } else if code == 0x36 || code == 0x56 || code == 0x76 || code == 0xd6 || code == 0xf6 {
        Some(OpCode { mode: AddressingMode::ZeroPageX, len: 2, cycles: 6 })
    } else if code == 0x3e || code == 0x5e || code == 0x7e || code == 0xde || code == 0xfe {
        Some(OpCode { mode: AddressingMode::AbsoluteX, len: 3, cycles: 7 })
    } else if code == 0x40 || code == 0x60 {
        Some(OpCode { mode: AddressingMode::NoneAddressing, len: 1, cycles: 6 })
    } else if code == 0x4c {
        Some(OpCode { mode: AddressingMode::Absolute, len: 3, cycles: 3 })
    } else if code == 0x6c {
        Some(OpCode { mode: AddressingMode::Indirect, len: 3, cycles: 5 })
    } else if code == 0x91 {
        Some(OpCode { mode: AddressingMode::IndirectY, len: 2, cycles: 6 })
    } else if code == 0x96 || code == 0xb6 {
        Some(OpCode { mode: AddressingMode::ZeroPageY, len: 2, cycles: 4 })
    } else if code == 0x99 {
        Some(OpCode { mode: AddressingMode::AbsoluteY, len: 3, cycles: 5 })
    } else if code == 0x9d {
        Some(OpCode { mode: AddressingMode::AbsoluteX, len: 3, cycles: 5 })
    } else {
        None
    }
}

/// Whether the table maps `code` to an implied operation, one that resolves
/// no operand.
pub open spec fn spec_implied_code(code: u8) -> bool {
    code == 0x00 || code == 0x08 || code == 0x18 || code == 0x28 || code == 0x40 || code == 0x48 || code == 0x58 || code == 0x60 || code == 0x68 || code == 0x88 || code == 0x8a || code == 0x98 || code == 0x9a || code == 0xa8 || code == 0xaa || code == 0xb8 || code == 0xba || code == 0xc8 || code == 0xca || code == 0xd8 || code == 0xe8
}

/// Look an opcode byte up; every mapped entry has a sane length, and only
/// implied operations carry the marker mode.
pub fn opcode_info(code: u8) -> (r: Option<OpCode>)
    ensures
        r == spec_opcode_info(code),
        r is Some ==> 1 <= r.unwrap().len <= 3,
        (r is Some && r.unwrap().mode is NoneAddressing) ==> spec_implied_code(code),
{
    match code {
        0x00 => Some(OpCode { mode: AddressingMode::NoneAddressing, len: 1, cycles: 7 }),
        0x01 | 0x21 | 0x41 | 0x61 | 0x81 | 0xa1 | 0xc1 | 0xe1 => Some(OpCode { mode: AddressingMode::IndirectX, len: 2, cycles: 6 }),
        0x05 | 0x24 | 0x25 | 0x45 | 0x65 | 0x84 | 0x85 | 0x86 | 0xa4 | 0xa5 | 0xa6 | 0xc4 | 0xc5 | 0xe4 | 0xe5 => Some(OpCode { mode: AddressingMode::ZeroPage, len: 2, cycles: 3 }),
        0x08 | 0x48 => Some(OpCode { mode: AddressingMode::NoneAddressing, len: 1, cycles: 3 }),
        0x09 | 0x29 | 0x49 | 0x69 | 0xa0 | 0xa2 | 0xa9 | 0xc0 | 0xc9 | 0xe0 | 0xe9 => Some(OpCode { mode: AddressingMode::Immediate, len: 2, cycles: 2 }),
        0x0a | 0x1a | 0x2a | 0x4a | 0x6a => Some(OpCode { mode: AddressingMode::Accumulator, len: 1, cycles: 2 }),
        0x0d | 0x2c | 0x2d | 0x4d | 0x6d | 0x8c | 0x8d | 0x8e | 0xac | 0xad | 0xae | 0xcc | 0xcd | 0xec | 0xed => Some(OpCode { mode: AddressingMode::Absolute, len: 3, cycles: 4 }),
        0x10 | 0x30 | 0x50 | 0x70 | 0x90 | 0xb0 | 0xd0 | 0xf0 => Some(OpCode { mode: AddressingMode::Relative, len: 2, cycles: 2 }),
        0x11 | 0x31 | 0x51 | 0x71 | 0xb1 | 0xd1 | 0xf1 => Some(OpCode { mode: AddressingMode::IndirectY, len: 2, cycles: 5 }),
        0x15 | 0x35 | 0x55 | 0x75 | 0x94 | 0x95 | 0xb4 | 0xb5 | 0xd5 | 0xf5 => Some(OpCode { mode: AddressingMode::ZeroPageX, len: 2, cycles: 4 }),
        0x18 | 0x58 | 0x88 | 0x8a | 0x98 | 0x9a | 0xa8 | 0xaa | 0xb8 | 0xba | 0xc8 | 0xca | 0xd8 | 0xe8 => Some(OpCode { mode: AddressingMode::NoneAddressing, len: 1, cycles: 2 }),
        0x19 | 0x39 | 0x59 | 0x79 | 0xb9 | 0xbe | 0xd9 | 0xf9 => Some(OpCode { mode: AddressingMode::AbsoluteY, len: 3, cycles: 4 }),
        0x1d | 0x3d | 0x5d | 0x7d | 0xbc | 0xbd | 0xdd | 0xfd => Some(OpCode { mode: AddressingMode::AbsoluteX, len: 3, cycles: 4 }),
        0x20 | 0x2e | 0x4e | 0x6e | 0xce | 0xee => Some(OpCode { mode: AddressingMode::Absolute, len: 3, cycles: 6 }),
        0x26 | 0x46 | 0x66 | 0xc6 | 0xe6 => Some(OpCode { mode: AddressingMode::ZeroPage, len: 2, cycles: 5 }),
        0x28 | 0x68 => Some(OpCode { mode: AddressingMode::NoneAddressing, len: 1, cycles: 4 }),
        0x36 | 0x56 | 0x76 | 0xd6 | 0xf6 => Some(OpCode { mode: AddressingMode::ZeroPageX, len: 2, cycles: 6 }),
        0x3e | 0x5e | 0x7e | 0xde | 0xfe => Some(OpCode { mode: AddressingMode::AbsoluteX, len: 3, cycles: 7 }),
        0x40 | 0x60 => Some(OpCode { mode: AddressingMode::NoneAddressing, len: 1, cycles: 6 }),
        0x4c => Some(OpCode { mode: AddressingMode::Absolute, len: 3, cycles: 3 }),
        0x6c => Some(OpCode { mode: AddressingMode::Indirect, len: 3, cycles: 5 }),
        0x91 => Some(OpCode { mode: AddressingMode::IndirectY, len: 2, cycles: 6 }),
        0x96 | 0xb6 => Some(OpCode { mode: AddressingMode::ZeroPageY, len: 2, cycles: 4 }),
        0x99 => Some(OpCode { mode: AddressingMode::AbsoluteY, len: 3, cycles: 5 }),
        0x9d => Some(OpCode { mode: AddressingMode::AbsoluteX, len: 3, cycles: 5 }),
        _ => None,
    }
}

} // verus!
