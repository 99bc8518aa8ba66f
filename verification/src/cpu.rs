//! The early interpreter: a self-contained processor over a flat 64KB byte
//! array and a growable byte stack, without interrupt or video-timing
//! coupling. Kept alive for its simpler memory model; the full core lives
//! under `components`.

use vstd::prelude::*;
use vstd::pervasive::unreached;

use crate::memory::MEMORY_SIZE;
use crate::memory::Memory;
use crate::memory::spec_read_u16;
use crate::opcodes::OpCode;
use crate::opcodes::opcode_info;
use crate::opcodes::spec_implied_code;

verus! {

/// First byte of the program window in the flat address space.
pub const ROM_FIRST_BYTE: u16 = 0x8000;

/// Address the program counter is loaded from on reset.
pub const ROM_FIRST_ADDRESS: u16 = 0xFFFC;

/// Step budget of the driving loop: astronomically beyond any program, it
/// exists only to give the verifier a termination measure.
pub const RUN_BUDGET: u64 = 0xFFFF_FFFF_FFFF_FFFF;

#[derive(Clone, Copy, Debug, PartialEq, Eq, Structural)]
pub enum AddressingMode {
    Accumulator,
    Immediate,
    ZeroPage,
    ZeroPageX,
    ZeroPageY,
    Relative,
    Absolute,
    AbsoluteX,
    AbsoluteY,
    Indirect,
    IndirectX,
    IndirectY,
    NoneAddressing,
}

/// Why a run stopped short of the halt opcode. The original design treats
/// these as process aborts; they surface here as values for the caller.
#[derive(Clone, Copy, Debug, PartialEq, Eq, Structural)]
pub enum RunError {
    /// A byte with no opcode-table entry was fetched.
    UnsupportedOpcode(u8),
    /// A pull operation found the byte stack empty.
    StackUnderflow,
}

/// Registers, status byte, program counter, byte stack and flat memory.
pub struct CPU {
    pub register_a: u8,
    pub register_x: u8,
    pub register_y: u8,
    pub register_sr: u8,
    pub register_pc: u16,
    pub stack: Vec<u8>,
    pub memory: Memory,
}

// Status byte masks: carry 0x01, zero 0x02, interrupt-disable 0x08,
// decimal 0x10, overflow 0x40, negative 0x80.

/// The status byte with the zero flag set iff the result byte is zero.
pub open spec fn spec_zero_flag(sr: u8, result: u8) -> u8 {
    if result == 0 {
        sr | 0x02
    } else {
        sr & 0xFD
    }
}

/// The status byte with the negative flag mirroring bit 7 of the result.
pub open spec fn spec_negative_flag(sr: u8, result: u8) -> u8 {
    if result & 0x80 != 0 {
        sr | 0x80
    } else {
        sr & 0x7F
    }
}

/// Zero then negative, the order every handler applies them in.
pub open spec fn spec_zn_flags(sr: u8, result: u8) -> u8 {
    spec_negative_flag(spec_zero_flag(sr, result), result)
}

pub open spec fn spec_carry_flag(sr: u8, status: bool) -> u8 {
    if status {
        sr | 0x01
    } else {
        sr & 0xFE
    }
}

pub open spec fn spec_decimal_flag(sr: u8, status: bool) -> u8 {
    if status {
        sr | 0x10
    } else {
        sr & 0xEF
    }
}

pub open spec fn spec_interrupt_disable_flag(sr: u8, status: bool) -> u8 {
    if status {
        sr | 0x08
    } else {
        sr & 0xF7
    }
}

pub open spec fn spec_overflow_flag(sr: u8, status: bool) -> u8 {
    if status {
        sr | 0x40
    } else {
        sr & 0xBF
    }
}

/// Mathematical image of the early interpreter's state; contracts are
/// stated over it.
#[verifier::ext_equal]
pub ghost struct CpuView {
    pub a: u8,
    pub x: u8,
    pub y: u8,
    pub sr: u8,
    pub pc: u16,
    pub stack: Seq<u8>,
    pub mem: Seq<u8>,
}

impl View for CPU {
    type V = CpuView;

    open spec fn view(&self) -> CpuView {
        CpuView {
            a: self.register_a,
            x: self.register_x,
            y: self.register_y,
            sr: self.register_sr,
            pc: self.register_pc,
            stack: self.stack@,
            mem: self.memory.array@,
        }
    }
}

impl CpuView {
    /// Fixed memory size; everything else may vary freely.
    pub open spec fn wf(self) -> bool {
        self.mem.len() == MEMORY_SIZE
    }
}

impl CPU {
    /// Fixed memory size; everything else may vary freely.
    pub open spec fn wf(&self) -> bool {
        self@.wf()
    }
}

/// The effective operand address of the instruction at the program counter.
/// Resolution is pure: it reads memory and registers and moves nothing.
#[verifier::opaque]
pub open spec fn spec_operand_address(s: CpuView, mode: AddressingMode) -> u16
    recommends
        s.wf(),
        !(mode is NoneAddressing),
{
    let m = s.mem;
    match mode {
        AddressingMode::Accumulator => s.a as u16,
        AddressingMode::Immediate => s.pc,
        AddressingMode::ZeroPage => m[s.pc as int] as u16,
        AddressingMode::Absolute => spec_read_u16(m, s.pc),
        AddressingMode::ZeroPageX => m[s.pc as int].wrapping_add(s.x) as u16,
        AddressingMode::ZeroPageY => m[s.pc as int].wrapping_add(s.y) as u16,
        AddressingMode::Relative => s.pc.wrapping_add(m[s.pc as int] as u16),
        AddressingMode::AbsoluteX => spec_read_u16(m, s.pc).wrapping_add(
            s.x as u16,
        ),
        AddressingMode::AbsoluteY => spec_read_u16(m, s.pc).wrapping_add(
            s.y as u16,
        ),
        AddressingMode::Indirect => spec_read_u16(m, spec_read_u16(m, s.pc)),
        AddressingMode::IndirectX => {
            let pointer = m[s.pc as int].wrapping_add(s.x);
            (m[pointer.wrapping_add(1) as int] * 256 + m[pointer as int]) as u16
        },
        AddressingMode::IndirectY => {
            let base = m[s.pc as int];
            let deref_base = (m[base.wrapping_add(1) as int] * 256 + m[base as int]) as u16;
            deref_base.wrapping_add(s.y as u16)
        },
        AddressingMode::NoneAddressing => 0u16,
    }
}

/// The operand byte itself: the byte at the effective address.
#[verifier::opaque]
pub open spec fn spec_operand(s: CpuView, mode: AddressingMode) -> u8 {
    s.mem[spec_operand_address(s, mode) as int]
}

// ---------------------------------------------------------------------------
// Operation semantics over the view
// ---------------------------------------------------------------------------

/// Add the operand into the accumulator; carry records the unsigned
/// overflow of the sum. This early interpreter takes no carry in.
#[verifier::opaque]
pub open spec fn spec_adc(s: CpuView, mode: AddressingMode) -> CpuView {
    let v = spec_operand(s, mode);
    let a2 = s.a.wrapping_add(v);
    CpuView { a: a2, sr: spec_zn_flags(spec_carry_flag(s.sr, s.a + v > 255), a2), ..s }
}

/// AND the operand into the accumulator.
#[verifier::opaque]
pub open spec fn spec_and(s: CpuView, mode: AddressingMode) -> CpuView {
    let a2 = s.a & spec_operand(s, mode);
    CpuView { a: a2, sr: spec_zn_flags(s.sr, a2), ..s }
}

/// Shift the operand byte left; the result lands both in the accumulator
/// and back in memory, as this early interpreter had it.
#[verifier::opaque]
pub open spec fn spec_asl(s: CpuView, mode: AddressingMode) -> CpuView {
    let address = spec_operand_address(s, mode);
    let v = spec_operand(s, mode);
    let r = v.wrapping_add(v);
    CpuView { a: r, sr: spec_zn_flags(s.sr, r), mem: s.mem.update(address as int, r), ..s }
}

/// The jump this interpreter uses for branches and jumps alike: the program
/// counter is loaded from the byte at the operand address.
#[verifier::opaque]
pub open spec fn spec_branch(s: CpuView, mode: AddressingMode) -> CpuView {
    CpuView { pc: spec_operand(s, mode) as u16, ..s }
}

/// Jump to subroutine: the low byte of the program counter is remembered on
/// the byte stack, then the jump happens as in `spec_branch`.
#[verifier::opaque]
pub open spec fn spec_jsr(s: CpuView, mode: AddressingMode) -> CpuView {
    CpuView {
        stack: s.stack.push((s.pc % 256) as u8),
        pc: spec_operand(s, mode) as u16,
        ..s
    }
}

/// Return from subroutine: the program counter comes back from the top of
/// the byte stack.
#[verifier::opaque]
pub open spec fn spec_rts(s: CpuView) -> CpuView
    recommends
        s.stack.len() > 0,
{
    CpuView { pc: s.stack.last() as u16, stack: s.stack.drop_last(), ..s }
}

/// Return from interrupt: the status byte comes back first, then the
/// program counter, both from the byte stack.
#[verifier::opaque]
pub open spec fn spec_rti(s: CpuView) -> CpuView
    recommends
        s.stack.len() >= 2,
{
    CpuView {
        sr: s.stack.last(),
        pc: s.stack[s.stack.len() - 2] as u16,
        stack: s.stack.take(s.stack.len() - 2),
        ..s
    }
}

/// Bit test: zero from accumulator AND operand, negative from bit 7 of the
/// operand, overflow from bit 6.
#[verifier::opaque]
pub open spec fn spec_bit(s: CpuView, mode: AddressingMode) -> CpuView {
    let v = spec_operand(s, mode);
    CpuView {
        sr: spec_overflow_flag(
            spec_negative_flag(spec_zero_flag(s.sr, s.a & v), v),
            v / 64 % 2 == 1,
        ),
        ..s
    }
}

#[verifier::opaque]
pub open spec fn spec_clc(s: CpuView) -> CpuView {
    CpuView { sr: spec_carry_flag(s.sr, false), ..s }
}

#[verifier::opaque]
pub open spec fn spec_cld(s: CpuView) -> CpuView {
    CpuView { sr: spec_decimal_flag(s.sr, false), ..s }
}

#[verifier::opaque]
pub open spec fn spec_cli(s: CpuView) -> CpuView {
    CpuView { sr: spec_interrupt_disable_flag(s.sr, false), ..s }
}

#[verifier::opaque]
pub open spec fn spec_clv(s: CpuView) -> CpuView {
    CpuView { sr: spec_overflow_flag(s.sr, false), ..s }
}

/// Compare a register with the operand: carry when the register is at least
/// the operand, zero/negative from the difference.
#[verifier::opaque]
pub open spec fn spec_cmp(s: CpuView, register: u8, mode: AddressingMode) -> CpuView {
    let v = spec_operand(s, mode);
    CpuView {
        sr: spec_zn_flags(spec_carry_flag(s.sr, register >= v), register.wrapping_sub(v)),
        ..s
    }
}

/// Decrement the byte at the operand address.
#[verifier::opaque]
pub open spec fn spec_dec(s: CpuView, mode: AddressingMode) -> CpuView {
    let address = spec_operand_address(s, mode);
    let r = spec_operand(s, mode).wrapping_sub(1);
    CpuView { sr: spec_zn_flags(s.sr, r), mem: s.mem.update(address as int, r), ..s }
}

/// Increment the byte at the operand address.
#[verifier::opaque]
pub open spec fn spec_inc(s: CpuView, mode: AddressingMode) -> CpuView {
    let address = spec_operand_address(s, mode);
    let r = spec_operand(s, mode).wrapping_add(1);
    CpuView { sr: spec_zn_flags(s.sr, r), mem: s.mem.update(address as int, r), ..s }
}

#[verifier::opaque]
pub open spec fn spec_dex(s: CpuView) -> CpuView {
    CpuView { x: s.x.wrapping_sub(1), sr: spec_zn_flags(s.sr, s.x.wrapping_sub(1)), ..s }
}

#[verifier::opaque]
pub open spec fn spec_dey(s: CpuView) -> CpuView {
    CpuView { y: s.y.wrapping_sub(1), sr: spec_zn_flags(s.sr, s.y.wrapping_sub(1)), ..s }
}

#[verifier::opaque]
pub open spec fn spec_inx(s: CpuView) -> CpuView {
    CpuView { x: s.x.wrapping_add(1), sr: spec_zn_flags(s.sr, s.x.wrapping_add(1)), ..s }
}

#[verifier::opaque]
pub open spec fn spec_iny(s: CpuView) -> CpuView {
    CpuView { y: s.y.wrapping_add(1), sr: spec_zn_flags(s.sr, s.y.wrapping_add(1)), ..s }
}

#[verifier::opaque]
pub open spec fn spec_lda(s: CpuView, mode: AddressingMode) -> CpuView {
    let v = spec_operand(s, mode);
    CpuView { a: v, sr: spec_zn_flags(s.sr, v), ..s }
}

#[verifier::opaque]
pub open spec fn spec_ldx(s: CpuView, mode: AddressingMode) -> CpuView {
    let v = spec_operand(s, mode);
    CpuView { x: v, sr: spec_zn_flags(s.sr, v), ..s }
}

#[verifier::opaque]
pub open spec fn spec_ldy(s: CpuView, mode: AddressingMode) -> CpuView {
    let v = spec_operand(s, mode);
    CpuView { y: v, sr: spec_zn_flags(s.sr, v), ..s }
}

/// Shift the operand byte right; as with `spec_asl`, the result lands both
/// in the accumulator and back in memory.
#[verifier::opaque]
pub open spec fn spec_lsr(s: CpuView, mode: AddressingMode) -> CpuView {
    let address = spec_operand_address(s, mode);
    let r = spec_operand(s, mode) / 2;
    CpuView { a: r, sr: spec_zn_flags(s.sr, r), mem: s.mem.update(address as int, r), ..s }
}

/// Rotate the operand byte left through the carry bit; the result lands in
/// the accumulator and back in memory.
#[verifier::opaque]
pub open spec fn spec_rol(s: CpuView, mode: AddressingMode) -> CpuView {
    let address = spec_operand_address(s, mode);
    let v = spec_operand(s, mode);
    let doubled = v.wrapping_add(v);
    let r = if s.sr & 0x01 == 1 {
        (doubled + 1) as u8
    } else {
        doubled
    };
    CpuView { a: r, sr: spec_zn_flags(s.sr, r), mem: s.mem.update(address as int, r), ..s }
}

/// Rotate the operand byte right through the carry bit; the result lands in
/// the accumulator and back in memory.
#[verifier::opaque]
pub open spec fn spec_ror(s: CpuView, mode: AddressingMode) -> CpuView {
    let address = spec_operand_address(s, mode);
    let v = spec_operand(s, mode);
    let r = if s.sr & 0x01 == 1 {
        (v / 2 + 128) as u8
    } else {
        v / 2
    };
    CpuView { a: r, sr: spec_zn_flags(s.sr, r), mem: s.mem.update(address as int, r), ..s }
}

#[verifier::opaque]
pub open spec fn spec_eor(s: CpuView, mode: AddressingMode) -> CpuView {
    let a2 = s.a ^ spec_operand(s, mode);
    CpuView { a: a2, sr: spec_zn_flags(s.sr, a2), ..s }
}

#[verifier::opaque]
pub open spec fn spec_ora(s: CpuView, mode: AddressingMode) -> CpuView {
    let a2 = s.a | spec_operand(s, mode);
    CpuView { a: a2, sr: spec_zn_flags(s.sr, a2), ..s }
}

/// Subtract the operand from the accumulator; carry records that a borrow
/// occurred. This early interpreter takes no carry in.
#[verifier::opaque]
pub open spec fn spec_sbc(s: CpuView, mode: AddressingMode) -> CpuView {
    let v = spec_operand(s, mode);
    let a2 = s.a.wrapping_sub(v);
    CpuView { a: a2, sr: spec_zn_flags(spec_carry_flag(s.sr, v > s.a), a2), ..s }
}

#[verifier::opaque]
pub open spec fn spec_sta(s: CpuView, mode: AddressingMode) -> CpuView {
    CpuView { mem: s.mem.update(spec_operand_address(s, mode) as int, s.a), ..s }
}

#[verifier::opaque]
pub open spec fn spec_stx(s: CpuView, mode: AddressingMode) -> CpuView {
    CpuView { mem: s.mem.update(spec_operand_address(s, mode) as int, s.x), ..s }
}

#[verifier::opaque]
pub open spec fn spec_sty(s: CpuView, mode: AddressingMode) -> CpuView {
    CpuView { mem: s.mem.update(spec_operand_address(s, mode) as int, s.y), ..s }
}

#[verifier::opaque]
pub open spec fn spec_tax(s: CpuView) -> CpuView {
    CpuView { x: s.a, sr: spec_zn_flags(s.sr, s.a), ..s }
}

#[verifier::opaque]
pub open spec fn spec_tay(s: CpuView) -> CpuView {
    CpuView { y: s.a, sr: spec_zn_flags(s.sr, s.a), ..s }
}

/// Transfer the top of the byte stack into X.
#[verifier::opaque]
pub open spec fn spec_tsx(s: CpuView) -> CpuView
    recommends
        s.stack.len() > 0,
{
    CpuView {
        x: s.stack.last(),
        sr: spec_zn_flags(s.sr, s.stack.last()),
        stack: s.stack.drop_last(),
        ..s
    }
}

#[verifier::opaque]
pub open spec fn spec_txa(s: CpuView) -> CpuView {
    CpuView { a: s.x, sr: spec_zn_flags(s.sr, s.x), ..s }
}

/// Transfer X onto the byte stack.
#[verifier::opaque]
pub open spec fn spec_txs(s: CpuView) -> CpuView {
    CpuView { stack: s.stack.push(s.x), ..s }
}

#[verifier::opaque]
pub open spec fn spec_tya(s: CpuView) -> CpuView {
    CpuView { a: s.y, sr: spec_zn_flags(s.sr, s.y), ..s }
}

/// Push the accumulator onto the byte stack.
#[verifier::opaque]
pub open spec fn spec_pha(s: CpuView) -> CpuView {
    CpuView { stack: s.stack.push(s.a), ..s }
}

/// Push the status byte onto the byte stack.
#[verifier::opaque]
pub open spec fn spec_php(s: CpuView) -> CpuView {
    CpuView { stack: s.stack.push(s.sr), ..s }
}

/// Pull the accumulator from the byte stack, updating zero/negative.
#[verifier::opaque]
pub open spec fn spec_pla(s: CpuView) -> CpuView
    recommends
        s.stack.len() > 0,
{
    CpuView {
        a: s.stack.last(),
        sr: spec_zn_flags(s.sr, s.stack.last()),
        stack: s.stack.drop_last(),
        ..s
    }
}

/// Pull the status byte from the byte stack.
#[verifier::opaque]
pub open spec fn spec_plp(s: CpuView) -> CpuView
    recommends
        s.stack.len() > 0,
{
    CpuView { sr: s.stack.last(), stack: s.stack.drop_last(), ..s }
}


/// The table entry's addressing mode; unmapped bytes never reach a handler.
pub open spec fn spec_opcode_mode(code: u8) -> AddressingMode {
    match crate::opcodes::spec_opcode_info(code) {
        Some(op) => op.mode,
        None => AddressingMode::NoneAddressing,
    }
}

/// The table entry's instruction byte length.
pub open spec fn spec_opcode_len(code: u8) -> u8 {
    match crate::opcodes::spec_opcode_info(code) {
        Some(op) => op.len,
        None => 1u8,
    }
}

/// One dispatched opcode: `Some` carries an early outcome for the loop (the
/// halt opcode, or a pull from a too-short stack); `None` means the
/// operation ran. First half of the dispatch; opcodes it does not cover
/// fall through to `spec_execute_more`.
#[verifier::opaque]
pub open spec fn spec_execute(s: CpuView, code: u8) -> (Option<Result<(), RunError>>, CpuView) {
    if code == 0x69 || code == 0x65 || code == 0x75 || code == 0x6d || code == 0x7d || code == 0x79
        || code == 0x61 || code == 0x71 {
        (None, spec_adc(s, spec_opcode_mode(code)))
    } else if code == 0x29 || code == 0x25 || code == 0x35 || code == 0x2d || code == 0x3d || code
        == 0x39 || code == 0x21 || code == 0x31 {
        (None, spec_and(s, spec_opcode_mode(code)))
    } else if code == 0x0a || code == 0x1a {
        (None, spec_asl(s, spec_opcode_mode(code)))
    } else if code == 0xa9 || code == 0xa5 || code == 0xb5 || code == 0xad || code == 0xbd || code
        == 0xb9 || code == 0xa1 || code == 0xb1 {
        (None, spec_lda(s, spec_opcode_mode(code)))
    } else if code == 0xa2 || code == 0xa6 || code == 0xb6 || code == 0xae || code == 0xbe {
        (None, spec_ldx(s, spec_opcode_mode(code)))
    } else if code == 0xa0 || code == 0xa4 || code == 0xb4 || code == 0xac || code == 0xbc {
        (None, spec_ldy(s, spec_opcode_mode(code)))
    } else if code == 0x90 || code == 0xb0 || code == 0xf0 || code == 0x30 || code == 0xd0 || code
        == 0x10 || code == 0x50 || code == 0x70 || code == 0x4c || code == 0x6c {
        (None, spec_branch(s, spec_opcode_mode(code)))
    } else if code == 0x20 {
        (None, spec_jsr(s, spec_opcode_mode(code)))
    } else if code == 0x24 || code == 0x2c {
        (None, spec_bit(s, spec_opcode_mode(code)))
    } else if code == 0x18 {
        (None, spec_clc(s))
    } else if code == 0xd8 {
        (None, spec_cld(s))
    } else if code == 0x58 {
        (None, spec_cli(s))
    } else if code == 0xb8 {
        (None, spec_clv(s))
    } else if code == 0xc9 || code == 0xc5 || code == 0xd5 || code == 0xcd || code == 0xdd || code
        == 0xd9 || code == 0xc1 || code == 0xd1 {
        (None, spec_cmp(s, s.a, spec_opcode_mode(code)))
    } else if code == 0xe0 || code == 0xe4 || code == 0xec {
        (None, spec_cmp(s, s.x, spec_opcode_mode(code)))
    } else if code == 0xc0 || code == 0xc4 || code == 0xcc {
        (None, spec_cmp(s, s.y, spec_opcode_mode(code)))
    } else if code == 0xc6 || code == 0xce || code == 0xd6 || code == 0xde {
        (None, spec_dec(s, spec_opcode_mode(code)))
    } else if code == 0xe6 || code == 0xf6 || code == 0xee || code == 0xfe {
        (None, spec_inc(s, spec_opcode_mode(code)))
    } else if code == 0xca {
        (None, spec_dex(s))
    } else if code == 0x88 {
        (None, spec_dey(s))
    } else if code == 0x85 || code == 0x95 || code == 0x8d || code == 0x9d || code == 0x99 || code
        == 0x81 || code == 0x91 {
        (None, spec_sta(s, spec_opcode_mode(code)))
    } else if code == 0x86 || code == 0x96 || code == 0x8e {
        (None, spec_stx(s, spec_opcode_mode(code)))
    } else if code == 0x84 || code == 0x94 || code == 0x8c {
        (None, spec_sty(s, spec_opcode_mode(code)))
    } else {
        spec_execute_more(s, code)
    }
}

/// The second half of the dispatch.
#[verifier::opaque]
pub open spec fn spec_execute_more(s: CpuView, code: u8) -> (
    Option<Result<(), RunError>>,
    CpuView,
) {
    if code == 0x49 || code == 0x45 || code == 0x55 || code == 0x4d || code == 0x5d || code == 0x59
        || code == 0x41 || code == 0x51 {
        (None, spec_eor(s, spec_opcode_mode(code)))
    } else if code == 0x09 || code == 0x05 || code == 0x15 || code == 0x0d || code == 0x1d || code
        == 0x19 || code == 0x01 || code == 0x11 {
        (None, spec_ora(s, spec_opcode_mode(code)))
    } else if code == 0xe9 || code == 0xe5 || code == 0xf5 || code == 0xed || code == 0xfd || code
        == 0xf9 || code == 0xe1 || code == 0xf1 {
        (None, spec_sbc(s, spec_opcode_mode(code)))
    } else if code == 0x4a || code == 0x46 || code == 0x56 || code == 0x4e || code == 0x5e {
        (None, spec_lsr(s, spec_opcode_mode(code)))
    } else if code == 0x2a || code == 0x26 || code == 0x36 || code == 0x2e || code == 0x3e {
        (None, spec_rol(s, spec_opcode_mode(code)))
    } else if code == 0x6a || code == 0x66 || code == 0x76 || code == 0x6e || code == 0x7e {
        (None, spec_ror(s, spec_opcode_mode(code)))
    } else if code == 0xaa {
        (None, spec_tax(s))
    } else if code == 0xa8 {
        (None, spec_tay(s))
    } else if code == 0xba {
        if s.stack.len() == 0 {
            (Some(Err(RunError::StackUnderflow)), s)
        } else {
            (None, spec_tsx(s))
        }
    } else if code == 0x8a {
        (None, spec_txa(s))
    } else if code == 0x9a {
        (None, spec_txs(s))
    } else if code == 0x98 {
        (None, spec_tya(s))
    } else if code == 0xe8 {
        (None, spec_inx(s))
    } else if code == 0xc8 {
        (None, spec_iny(s))
    } else if code == 0x48 {
        (None, spec_pha(s))
    } else if code == 0x08 {
        (None, spec_php(s))
    } else if code == 0x68 {
        if s.stack.len() == 0 {
            (Some(Err(RunError::StackUnderflow)), s)
        } else {
            (None, spec_pla(s))
        }
    } else if code == 0x28 {
        if s.stack.len() == 0 {
            (Some(Err(RunError::StackUnderflow)), s)
        } else {
            (None, spec_plp(s))
        }
    } else if code == 0x60 {
        if s.stack.len() == 0 {
            (Some(Err(RunError::StackUnderflow)), s)
        } else {
            (None, spec_rts(s))
        }
    } else if code == 0x40 {
        if s.stack.len() < 2 {
            (Some(Err(RunError::StackUnderflow)), s)
        } else {
            (None, spec_rti(s))
        }
    } else if code == 0x00 {
        (Some(Ok(())), s)
    } else {
        (Some(Err(RunError::UnsupportedOpcode(code))), s)
    }
}

/// One iteration of the driving loop: fetch the opcode byte, advance the
/// program counter, look the byte up (an unmapped byte is the unsupported
/// error), dispatch, and auto-advance by the remaining instruction length
/// unless the handler moved the counter.
pub open spec fn spec_step(s: CpuView) -> (Option<Result<(), RunError>>, CpuView)
    recommends
        s.wf(),
{
    let code = s.mem[s.pc as int];
    let s1 = CpuView { pc: s.pc.wrapping_add(1), ..s };
    if crate::opcodes::spec_opcode_info(code) is None {
        (Some(Err(RunError::UnsupportedOpcode(code))), s1)
    } else {
        let (outcome, s2) = spec_execute(s1, code);
        if outcome is Some {
            (outcome, s2)
        } else if s2.pc == s1.pc {
            (None, CpuView { pc: s2.pc.wrapping_add((spec_opcode_len(code) - 1) as u16), ..s2 })
        } else {
            (None, s2)
        }
    }
}

/// The driving loop as a function: iterate `spec_step` until it reports an
/// outcome — normal termination at the halt opcode, or an error — or the
/// fuel runs out.
pub open spec fn spec_run(s: CpuView, fuel: nat) -> (Result<(), RunError>, CpuView)
    decreases fuel,
{
    if fuel == 0 {
        (Ok(()), s)
    } else {
        let (outcome, s2) = spec_step(s);
        match outcome {
            Some(result) => (result, s2),
            None => spec_run(s2, (fuel - 1) as nat),
        }
    }
}

/// A reset: registers and status cleared, the program counter loaded from
/// the reset vector, the byte stack left alone.
pub open spec fn spec_reset(s: CpuView) -> CpuView {
    CpuView { a: 0, x: 0, y: 0, sr: 0, pc: spec_read_u16(s.mem, ROM_FIRST_ADDRESS), ..s }
}

/// Loading a program: the window at 0x8000 holds the program bytes and the
/// reset vector points at the window; nothing else changes.
pub open spec fn spec_load(s: CpuView, program: Seq<u8>) -> CpuView
    recommends
        program.len() <= 0x7FFC,
{
    CpuView {
        mem: Seq::new(
            s.mem.len(),
            |k: int|
                if ROM_FIRST_BYTE <= k < ROM_FIRST_BYTE + program.len() {
                    program[k - ROM_FIRST_BYTE]
                } else if k == ROM_FIRST_ADDRESS {
                    0u8
                } else if k == ROM_FIRST_ADDRESS + 1 {
                    0x80u8
                } else {
                    s.mem[k]
                },
        ),
        ..s
    }
}

impl CPU {
    pub fn new() -> (r: CPU)
        ensures
            r.wf(),
            r.register_a == 0,
            r.register_x == 0,
            r.register_y == 0,
            r.register_sr == 0,
            r.register_pc == 0,
            r.stack@.len() == 0,
            forall|i: int| 0 <= i < MEMORY_SIZE ==> r.memory.array@[i] == 0u8,
    {
        CPU {
            register_a: 0x00,
            register_x: 0x00,
            register_y: 0x00,
            register_sr: 0b0000_0000,
            register_pc: 0x00,
            memory: Memory::new(),
            stack: Vec::new(),
        }
    }

    /// Resolve the operand address of the instruction at the program
    /// counter; resolution itself changes nothing.
    pub fn get_operand_address(&self, mode: &AddressingMode) -> (r: u16)
        requires
            self.wf(),
            !(mode is NoneAddressing),
        ensures
            r == spec_operand_address(self@, *mode),
    {
        proof { reveal(spec_operand_address); }
        match mode {
            AddressingMode::Accumulator => self.register_a as u16,
            AddressingMode::Immediate => self.register_pc,
            AddressingMode::ZeroPage => self.memory.read(self.register_pc) as u16,
            AddressingMode::Absolute => self.memory.read_u16(self.register_pc),
            AddressingMode::ZeroPageX => {
                let position = self.memory.read(self.register_pc);
                position.wrapping_add(self.register_x) as u16
            },
            AddressingMode::ZeroPageY => {
                let position = self.memory.read(self.register_pc);
                position.wrapping_add(self.register_y) as u16
            },
            AddressingMode::Relative => {
                let position = self.memory.read(self.register_pc);
                self.register_pc.wrapping_add(position as u16)
            },
            AddressingMode::AbsoluteX => {
                let base = self.memory.read_u16(self.register_pc);
                base.wrapping_add(self.register_x as u16)
            },
            AddressingMode::AbsoluteY => {
                let base = self.memory.read_u16(self.register_pc);
                base.wrapping_add(self.register_y as u16)
            },
            AddressingMode::Indirect => {
                let base = self.memory.read_u16(self.register_pc);
                self.memory.read_u16(base)
            },
            AddressingMode::IndirectX => {
                let base = self.memory.read(self.register_pc);
                let pointer = base.wrapping_add(self.register_x);
                let low = self.memory.read(pointer as u16);
                let high = self.memory.read(pointer.wrapping_add(1) as u16);
                (high as u16) * 256 + (low as u16)
            },
            AddressingMode::IndirectY => {
                let base = self.memory.read(self.register_pc);
                let low = self.memory.read(base as u16);
                let high = self.memory.read(base.wrapping_add(1) as u16);
                let deref_base = (high as u16) * 256 + (low as u16);
                deref_base.wrapping_add(self.register_y as u16)
            },
            AddressingMode::NoneAddressing => unreached(),
        }
    }

    fn update_zero_flag(&mut self, result: u8)
        ensures
            *final(self) == (CPU { register_sr: spec_zero_flag(old(self).register_sr, result), ..*old(self) }),
    {
        if result == 0 {
            self.register_sr = self.register_sr | 0x02;
        } else {
            self.register_sr = self.register_sr & 0xFD;
        }
    }

    fn update_negative_flag(&mut self, result: u8)
        ensures
            *final(self) == (CPU { register_sr: spec_negative_flag(old(self).register_sr, result), ..*old(self) }),
    {
        if result & 0x80 != 0 {
            self.register_sr = self.register_sr | 0x80;
        } else {
            self.register_sr = self.register_sr & 0x7F;
        }
    }

    fn set_carry_flag(&mut self, status: bool)
        ensures
            *final(self) == (CPU { register_sr: spec_carry_flag(old(self).register_sr, status), ..*old(self) }),
    {
        if status {
            self.register_sr = self.register_sr | 0x01;
        } else {
            self.register_sr = self.register_sr & 0xFE;
        }
    }

    fn set_decimal_flag(&mut self, status: bool)
        ensures
            *final(self) == (CPU { register_sr: spec_decimal_flag(old(self).register_sr, status), ..*old(self) }),
    {
        if status {
            self.register_sr = self.register_sr | 0x10;
        } else {
            self.register_sr = self.register_sr & 0xEF;
        }
    }

    fn set_interrupt_disable_flag(&mut self, status: bool)
        ensures
            *final(self) == (CPU { register_sr: spec_interrupt_disable_flag(old(self).register_sr, status), ..*old(self) }),
    {
        if status {
            self.register_sr = self.register_sr | 0x08;
        } else {
            self.register_sr = self.register_sr & 0xF7;
        }
    }

    fn set_overflow_flag(&mut self, status: bool)
        ensures
            *final(self) == (CPU { register_sr: spec_overflow_flag(old(self).register_sr, status), ..*old(self) }),
    {
        if status {
            self.register_sr = self.register_sr | 0x40;
        } else {
            self.register_sr = self.register_sr & 0xBF;
        }
    }
}


impl CPU {
    /// Add the operand into the accumulator; carry records the unsigned
    /// overflow of the sum. This early interpreter takes no carry in.
    pub fn adc(&mut self, mode: &AddressingMode)
        requires
            old(self).wf(),
            !(mode is NoneAddressing),
        ensures
            final(self).wf(),
            final(self)@ == spec_adc(old(self)@, *mode),
    {
        proof { reveal(spec_adc); }
        proof { reveal(spec_operand); }
        let address = self.get_operand_address(mode);
        let value = self.memory.read(address);
        if self.register_a > self.register_a.wrapping_add(value) {
            self.set_carry_flag(true);
        } else {
            self.set_carry_flag(false);
        }
        self.register_a = self.register_a.wrapping_add(value);
        let a = self.register_a;
        self.update_zero_flag(a);
        self.update_negative_flag(a);
    }

    /// AND the operand into the accumulator.
    pub fn and(&mut self, mode: &AddressingMode)
        requires
            old(self).wf(),
            !(mode is NoneAddressing),
        ensures
            final(self).wf(),
            final(self)@ == spec_and(old(self)@, *mode),
    {
        proof { reveal(spec_and); }
        proof { reveal(spec_operand); }
        let address = self.get_operand_address(mode);
        let value = self.memory.read(address);
        self.register_a = self.register_a & value;
        let a = self.register_a;
        self.update_zero_flag(a);
        self.update_negative_flag(a);
    }

    /// Shift the byte at the operand address left; the result lands both in
    /// the accumulator and back in memory, as this early interpreter had it.
    pub fn asl(&mut self, mode: &AddressingMode)
        requires
            old(self).wf(),
            !(mode is NoneAddressing),
        ensures
            final(self).wf(),
            final(self)@ == spec_asl(old(self)@, *mode),
    {
        proof { reveal(spec_asl); }
        proof { reveal(spec_operand); }
        let address = self.get_operand_address(mode);
        let value = self.memory.read(address);
        self.register_a = value.wrapping_add(value);
        let a = self.register_a;
        self.memory.write(address, a);
        self.update_zero_flag(a);
        self.update_negative_flag(a);
    }

    /// The jump this interpreter uses for branches and jumps alike: the
    /// program counter is loaded from the byte at the operand address.
    pub fn branch(&mut self, mode: &AddressingMode)
        requires
            old(self).wf(),
            !(mode is NoneAddressing),
        ensures
            final(self).wf(),
            final(self)@ == spec_branch(old(self)@, *mode),
    {
        proof { reveal(spec_branch); }
        proof { reveal(spec_operand); }
        let address = self.get_operand_address(mode);
        let value = self.memory.read(address);
        self.register_pc = value as u16;
    }

    /// Jump to subroutine: remember the low byte of the program counter on
    /// the byte stack, then jump as `branch` does.
    pub fn jsr(&mut self, mode: &AddressingMode)
        requires
            old(self).wf(),
            !(mode is NoneAddressing),
        ensures
            final(self).wf(),
            final(self)@ == spec_jsr(old(self)@, *mode),
    {
        proof { reveal(spec_jsr); }
        proof { reveal(spec_operand); }
        let address = self.get_operand_address(mode);
        let value = self.memory.read(address);
        let ret = (self.register_pc % 256) as u8;
        self.stack.push(ret);
        self.register_pc = value as u16;
    }

    /// Return from subroutine: the program counter comes back from the top
    /// of the byte stack.
    pub fn rts(&mut self)
        requires
            old(self).wf(),
            old(self)@.stack.len() > 0,
        ensures
            final(self).wf(),
            final(self)@ == spec_rts(old(self)@),
    {
        proof { reveal(spec_rts); }
        let value = self.stack.pop().unwrap();
        self.register_pc = value as u16;
    }

    /// Return from interrupt: the status byte comes back first, then the
    /// program counter, both from the byte stack.
    pub fn rti(&mut self)
        requires
            old(self).wf(),
            old(self)@.stack.len() >= 2,
        ensures
            final(self).wf(),
            final(self)@ == spec_rti(old(self)@),
    {
        proof { reveal(spec_rti); }
        let sr = self.stack.pop().unwrap();
        self.register_sr = sr;
        let pc = self.stack.pop().unwrap();
        self.register_pc = pc as u16;
        proof {
            assert(self@.stack =~= old(self)@.stack.take(old(self)@.stack.len() - 2));
        }
    }

    /// Bit test: zero from accumulator AND operand, negative from bit 7 of
    /// the operand, overflow from bit 6.
    pub fn bit(&mut self, mode: &AddressingMode)
        requires
            old(self).wf(),
            !(mode is NoneAddressing),
        ensures
            final(self).wf(),
            final(self)@ == spec_bit(old(self)@, *mode),
    {
        proof { reveal(spec_bit); }
        proof { reveal(spec_operand); }
        let address = self.get_operand_address(mode);
        let value = self.memory.read(address);
        let a = self.register_a;
        self.update_zero_flag(a & value);
        self.update_negative_flag(value);
        let overflow_flag = (value / 64) % 2;
        if overflow_flag == 1 {
            self.set_overflow_flag(true);
        } else {
            self.set_overflow_flag(false);
        }
    }

    pub fn clc(&mut self)
        requires
            old(self).wf(),
        ensures
            final(self).wf(),
            final(self)@ == spec_clc(old(self)@),
    {
        proof { reveal(spec_clc); }
        self.set_carry_flag(false);
    }

    pub fn cld(&mut self)
        requires
            old(self).wf(),
        ensures
            final(self).wf(),
            final(self)@ == spec_cld(old(self)@),
    {
        proof { reveal(spec_cld); }
        self.set_decimal_flag(false);
    }

    pub fn cli(&mut self)
        requires
            old(self).wf(),
        ensures
            final(self).wf(),
            final(self)@ == spec_cli(old(self)@),
    {
        proof { reveal(spec_cli); }
        self.set_interrupt_disable_flag(false);
    }

    pub fn clv(&mut self)
        requires
            old(self).wf(),
        ensures
            final(self).wf(),
            final(self)@ == spec_clv(old(self)@),
    {
        proof { reveal(spec_clv); }
        self.set_overflow_flag(false);
    }

    /// Compare a register with the operand: carry when the register is at
    /// least the operand, zero/negative from the difference.
    pub fn cmp(&mut self, register: u8, mode: &AddressingMode)
        requires
            old(self).wf(),
            !(mode is NoneAddressing),
        ensures
            final(self).wf(),
            final(self)@ == spec_cmp(old(self)@, register, *mode),
    {
        proof { reveal(spec_cmp); }
        proof { reveal(spec_operand); }
        let address = self.get_operand_address(mode);
        let value = self.memory.read(address);
        let result = register.wrapping_sub(value);
        if register >= value {
            self.set_carry_flag(true);
        } else {
            self.set_carry_flag(false);
        }
        self.update_zero_flag(result);
        self.update_negative_flag(result);
    }

    /// Decrement the byte at the operand address.
    pub fn dec(&mut self, mode: &AddressingMode)
        requires
            old(self).wf(),
            !(mode is NoneAddressing),
        ensures
            final(self).wf(),
            final(self)@ == spec_dec(old(self)@, *mode),
    {
        proof { reveal(spec_dec); }
        proof { reveal(spec_operand); }
        let address = self.get_operand_address(mode);
        let value = self.memory.read(address);
        let result = value.wrapping_sub(1);
        self.memory.write(address, result);
        self.update_zero_flag(result);
        self.update_negative_flag(result);
    }

    /// Increment the byte at the operand address.
    pub fn inc(&mut self, mode: &AddressingMode)
        requires
            old(self).wf(),
            !(mode is NoneAddressing),
        ensures
            final(self).wf(),
            final(self)@ == spec_inc(old(self)@, *mode),
    {
        proof { reveal(spec_inc); }
        proof { reveal(spec_operand); }
        let address = self.get_operand_address(mode);
        let value = self.memory.read(address);
        let result = value.wrapping_add(1);
        self.memory.write(address, result);
        self.update_zero_flag(result);
        self.update_negative_flag(result);
    }

    pub fn dex(&mut self)
        requires
            old(self).wf(),
        ensures
            final(self).wf(),
            final(self)@ == spec_dex(old(self)@),
    {
        proof { reveal(spec_dex); }
        self.register_x = self.register_x.wrapping_sub(1);
        let x = self.register_x;
        self.update_zero_flag(x);
        self.update_negative_flag(x);
    }

    pub fn dey(&mut self)
        requires
            old(self).wf(),
        ensures
            final(self).wf(),
            final(self)@ == spec_dey(old(self)@),
    {
        proof { reveal(spec_dey); }
        self.register_y = self.register_y.wrapping_sub(1);
        let y = self.register_y;
        self.update_zero_flag(y);
        self.update_negative_flag(y);
    }

    pub fn inx(&mut self)
        requires
            old(self).wf(),
        ensures
            final(self).wf(),
            final(self)@ == spec_inx(old(self)@),
    {
        proof { reveal(spec_inx); }
        self.register_x = self.register_x.wrapping_add(1);
        let x = self.register_x;
        self.update_zero_flag(x);
        self.update_negative_flag(x);
    }

    pub fn iny(&mut self)
        requires
            old(self).wf(),
        ensures
            final(self).wf(),
            final(self)@ == spec_iny(old(self)@),
    {
        proof { reveal(spec_iny); }
        self.register_y = self.register_y.wrapping_add(1);
        let y = self.register_y;
        self.update_zero_flag(y);
        self.update_negative_flag(y);
    }

    pub fn lda(&mut self, mode: &AddressingMode)
        requires
            old(self).wf(),
            !(mode is NoneAddressing),
        ensures
            final(self).wf(),
            final(self)@ == spec_lda(old(self)@, *mode),
    {
        proof { reveal(spec_lda); }
        proof { reveal(spec_operand); }
        let address = self.get_operand_address(mode);
        let value = self.memory.read(address);
        self.register_a = value;
        self.update_zero_flag(value);
        self.update_negative_flag(value);
    }

    pub fn ldx(&mut self, mode: &AddressingMode)
        requires
            old(self).wf(),
            !(mode is NoneAddressing),
        ensures
            final(self).wf(),
            final(self)@ == spec_ldx(old(self)@, *mode),
    {
        proof { reveal(spec_ldx); }
        proof { reveal(spec_operand); }
        let address = self.get_operand_address(mode);
        let value = self.memory.read(address);
        self.register_x = value;
        self.update_zero_flag(value);
        self.update_negative_flag(value);
    }

    pub fn ldy(&mut self, mode: &AddressingMode)
        requires
            old(self).wf(),
            !(mode is NoneAddressing),
        ensures
            final(self).wf(),
            final(self)@ == spec_ldy(old(self)@, *mode),
    {
        proof { reveal(spec_ldy); }
        proof { reveal(spec_operand); }
        let address = self.get_operand_address(mode);
        let value = self.memory.read(address);
        self.register_y = value;
        self.update_zero_flag(value);
        self.update_negative_flag(value);
    }

    /// Shift the byte at the operand address right; as with `asl`, the
    /// result lands both in the accumulator and back in memory.
    pub fn lsr(&mut self, mode: &AddressingMode)
        requires
            old(self).wf(),
            !(mode is NoneAddressing),
        ensures
            final(self).wf(),
            final(self)@ == spec_lsr(old(self)@, *mode),
    {
        proof { reveal(spec_lsr); }
        proof { reveal(spec_operand); }
        let address = self.get_operand_address(mode);
        let value = self.memory.read(address);
        self.register_a = value / 2;
        let a = self.register_a;
        self.memory.write(address, a);
        self.update_zero_flag(a);
        self.update_negative_flag(a);
    }

    /// Rotate the byte at the operand address left through the carry bit;
    /// the result lands in the accumulator and back in memory.
    pub fn rol(&mut self, mode: &AddressingMode)
        requires
            old(self).wf(),
            !(mode is NoneAddressing),
        ensures
            final(self).wf(),
            final(self)@ == spec_rol(old(self)@, *mode),
    {
        proof { reveal(spec_rol); }
        proof { reveal(spec_operand); }
        let address = self.get_operand_address(mode);
        let value = self.memory.read(address);
        let doubled = value.wrapping_add(value);
        let result = if self.register_sr & 0x01 == 1 {
            doubled + 1
        } else {
            doubled
        };
        self.register_a = result;
        self.memory.write(address, result);
        self.update_zero_flag(result);
        self.update_negative_flag(result);
    }

    /// Rotate the byte at the operand address right through the carry bit;
    /// the result lands in the accumulator and back in memory.
    pub fn ror(&mut self, mode: &AddressingMode)
        requires
            old(self).wf(),
            !(mode is NoneAddressing),
        ensures
            final(self).wf(),
            final(self)@ == spec_ror(old(self)@, *mode),
    {
        proof { reveal(spec_ror); }
        proof { reveal(spec_operand); }
        let address = self.get_operand_address(mode);
        let value = self.memory.read(address);
        let result = if self.register_sr & 0x01 == 1 {
            value / 2 + 128
        } else {
            value / 2
        };
        self.register_a = result;
        self.memory.write(address, result);
        self.update_zero_flag(result);
        self.update_negative_flag(result);
    }

    pub fn eor(&mut self, mode: &AddressingMode)
        requires
            old(self).wf(),
            !(mode is NoneAddressing),
        ensures
            final(self).wf(),
            final(self)@ == spec_eor(old(self)@, *mode),
    {
        proof { reveal(spec_eor); }
        proof { reveal(spec_operand); }
        let address = self.get_operand_address(mode);
        let value = self.memory.read(address);
        self.register_a = self.register_a ^ value;
        let a = self.register_a;
        self.update_zero_flag(a);
        self.update_negative_flag(a);
    }

    pub fn ora(&mut self, mode: &AddressingMode)
        requires
            old(self).wf(),
            !(mode is NoneAddressing),
        ensures
            final(self).wf(),
            final(self)@ == spec_ora(old(self)@, *mode),
    {
        proof { reveal(spec_ora); }
        proof { reveal(spec_operand); }
        let address = self.get_operand_address(mode);
        let value = self.memory.read(address);
        self.register_a = self.register_a | value;
        let a = self.register_a;
        self.update_zero_flag(a);
        self.update_negative_flag(a);
    }

    /// Subtract the operand from the accumulator; carry records that a
    /// borrow occurred. This early interpreter takes no carry in.
    pub fn sbc(&mut self, mode: &AddressingMode)
        requires
            old(self).wf(),
            !(mode is NoneAddressing),
        ensures
            final(self).wf(),
            final(self)@ == spec_sbc(old(self)@, *mode),
    {
        proof { reveal(spec_sbc); }
        proof { reveal(spec_operand); }
        let address = self.get_operand_address(mode);
        let value = self.memory.read(address);
        if value > self.register_a {
            self.set_carry_flag(true);
        } else {
            self.set_carry_flag(false);
        }
        self.register_a = self.register_a.wrapping_sub(value);
        let a = self.register_a;
        self.update_zero_flag(a);
        self.update_negative_flag(a);
    }

    pub fn sta(&mut self, mode: &AddressingMode)
        requires
            old(self).wf(),
            !(mode is NoneAddressing),
        ensures
            final(self).wf(),
            final(self)@ == spec_sta(old(self)@, *mode),
    {
        proof { reveal(spec_sta); }
        proof { reveal(spec_operand); }
        let address = self.get_operand_address(mode);
        let a = self.register_a;
        self.memory.write(address, a);
    }

    pub fn stx(&mut self, mode: &AddressingMode)
        requires
            old(self).wf(),
            !(mode is NoneAddressing),
        ensures
            final(self).wf(),
            final(self)@ == spec_stx(old(self)@, *mode),
    {
        proof { reveal(spec_stx); }
        proof { reveal(spec_operand); }
        let address = self.get_operand_address(mode);
        let x = self.register_x;
        self.memory.write(address, x);
    }

    pub fn sty(&mut self, mode: &AddressingMode)
        requires
            old(self).wf(),
            !(mode is NoneAddressing),
        ensures
            final(self).wf(),
            final(self)@ == spec_sty(old(self)@, *mode),
    {
        proof { reveal(spec_sty); }
        proof { reveal(spec_operand); }
        let address = self.get_operand_address(mode);
        let y = self.register_y;
        self.memory.write(address, y);
    }

    pub fn tax(&mut self)
        requires
            old(self).wf(),
        ensures
            final(self).wf(),
            final(self)@ == spec_tax(old(self)@),
    {
        proof { reveal(spec_tax); }
        self.register_x = self.register_a;
        let x = self.register_x;
        self.update_zero_flag(x);
        self.update_negative_flag(x);
    }

    pub fn tay(&mut self)
        requires
            old(self).wf(),
        ensures
            final(self).wf(),
            final(self)@ == spec_tay(old(self)@),
    {
        proof { reveal(spec_tay); }
        self.register_y = self.register_a;
        let y = self.register_y;
        self.update_zero_flag(y);
        self.update_negative_flag(y);
    }

    /// Transfer the top of the byte stack into X.
    pub fn tsx(&mut self)
        requires
            old(self).wf(),
            old(self)@.stack.len() > 0,
        ensures
            final(self).wf(),
            final(self)@ == spec_tsx(old(self)@),
    {
        proof { reveal(spec_tsx); }
        let value = self.stack.pop().unwrap();
        self.register_x = value;
        self.update_zero_flag(value);
        self.update_negative_flag(value);
    }

    pub fn txa(&mut self)
        requires
            old(self).wf(),
        ensures
            final(self).wf(),
            final(self)@ == spec_txa(old(self)@),
    {
        proof { reveal(spec_txa); }
        self.register_a = self.register_x;
        let a = self.register_a;
        self.update_zero_flag(a);
        self.update_negative_flag(a);
    }

    /// Transfer X onto the byte stack.
    pub fn txs(&mut self)
        requires
            old(self).wf(),
        ensures
            final(self).wf(),
            final(self)@ == spec_txs(old(self)@),
    {
        proof { reveal(spec_txs); }
        let x = self.register_x;
        self.stack.push(x);
    }

    pub fn tya(&mut self)
        requires
            old(self).wf(),
        ensures
            final(self).wf(),
            final(self)@ == spec_tya(old(self)@),
    {
        proof { reveal(spec_tya); }
        self.register_a = self.register_y;
        let a = self.register_a;
        self.update_zero_flag(a);
        self.update_negative_flag(a);
    }

    /// Push the accumulator onto the byte stack.
    pub fn pha(&mut self)
        requires
            old(self).wf(),
        ensures
            final(self).wf(),
            final(self)@ == spec_pha(old(self)@),
    {
        proof { reveal(spec_pha); }
        let a = self.register_a;
        self.stack.push(a);
    }

    /// Push the status byte onto the byte stack.
    pub fn php(&mut self)
        requires
            old(self).wf(),
        ensures
            final(self).wf(),
            final(self)@ == spec_php(old(self)@),
    {
        proof { reveal(spec_php); }
        let sr = self.register_sr;
        self.stack.push(sr);
    }

    /// Pull the accumulator from the byte stack, updating zero/negative.
    pub fn pla(&mut self)
        requires
            old(self).wf(),
            old(self)@.stack.len() > 0,
        ensures
            final(self).wf(),
            final(self)@ == spec_pla(old(self)@),
    {
        proof { reveal(spec_pla); }
        let value = self.stack.pop().unwrap();
        self.register_a = value;
        self.update_zero_flag(value);
        self.update_negative_flag(value);
    }

    /// Pull the status byte from the byte stack.
    pub fn plp(&mut self)
        requires
            old(self).wf(),
            old(self)@.stack.len() > 0,
        ensures
            final(self).wf(),
            final(self)@ == spec_plp(old(self)@),
    {
        proof { reveal(spec_plp); }
        let value = self.stack.pop().unwrap();
        self.register_sr = value;
    }

    /// Copy a program into the window at 0x8000 and point the reset vector
    /// at it. The program must fit below the reset vector.
    pub fn load(&mut self, program: Vec<u8>)
        requires
            old(self).wf(),
            program@.len() <= 0x7FFC,
        ensures
            final(self).wf(),
            final(self)@ == spec_load(old(self)@, program@),
    {
        let mut i: usize = 0;
        while i < program.len()
            invariant
                self.wf(),
                i <= program@.len(),
                program@.len() <= 0x7FFC,
                forall|j: int|
                    0 <= j < i ==> self.memory.array@[ROM_FIRST_BYTE + j] == program@[j],
                forall|k: int|
                    0 <= k < MEMORY_SIZE && !(ROM_FIRST_BYTE <= k < ROM_FIRST_BYTE + i)
                        ==> self.memory.array@[k] == old(self).memory.array@[k],
                self.register_a == old(self).register_a,
                self.register_x == old(self).register_x,
                self.register_y == old(self).register_y,
                self.register_sr == old(self).register_sr,
                self.register_pc == old(self).register_pc,
                self.stack@ == old(self).stack@,
            decreases program@.len() - i,
        {
            let address: u16 = ROM_FIRST_BYTE + i as u16;
            let value = program[i];
            self.memory.write(address, value);
            i = i + 1;
        }
        self.memory.write_u16(ROM_FIRST_ADDRESS, ROM_FIRST_BYTE);
        proof {
            assert forall|k: int| 0 <= k < self@.mem.len() implies self@.mem[k] == spec_load(
                old(self)@,
                program@,
            ).mem[k] by {
                if ROM_FIRST_BYTE <= k < ROM_FIRST_BYTE + program@.len() {
                    assert(self@.mem[ROM_FIRST_BYTE + (k - ROM_FIRST_BYTE)] == program@[k
                        - ROM_FIRST_BYTE]);
                }
            }
            assert(self@.mem =~= spec_load(old(self)@, program@).mem);
            assert(self@ =~= spec_load(old(self)@, program@));
        }
    }

    /// Zero the registers and status, then load the program counter from
    /// the reset vector. The byte stack is left alone.
    pub fn reset(&mut self)
        requires
            old(self).wf(),
        ensures
            final(self).wf(),
            final(self)@ == spec_reset(old(self)@),
    {
        self.register_a = 0x00;
        self.register_x = 0x00;
        self.register_y = 0x00;
        self.register_sr = 0b0000_0000;
        self.register_pc = 0x00;
        self.register_pc = self.memory.read_u16(ROM_FIRST_ADDRESS);
    }

    /// Dispatch one fetched opcode to its handler. `Some` carries an early
    /// outcome for the loop: the halt opcode or an error.
    #[verifier::rlimit(100)]
    #[verifier::spinoff_prover]
    fn execute_opcode(&mut self, code: u8, opcode: &OpCode) -> (r: Option<Result<(), RunError>>)
        requires
            old(self).wf(),
            Some(*opcode) == crate::opcodes::spec_opcode_info(code),
            (opcode.mode is NoneAddressing) ==> spec_implied_code(code),
        ensures
            final(self).wf(),
            r == spec_execute(old(self)@, code).0,
            final(self)@ == spec_execute(old(self)@, code).1,
    {
        proof { reveal(spec_execute); }
        match code {
            0x69 | 0x65 | 0x75 | 0x6d | 0x7d | 0x79 | 0x61 | 0x71 => {
                self.adc(&opcode.mode);
            },
            0x29 | 0x25 | 0x35 | 0x2d | 0x3d | 0x39 | 0x21 | 0x31 => {
                self.and(&opcode.mode);
            },
            0x0a | 0x1a => {
                self.asl(&opcode.mode);
            },
            0xa9 | 0xa5 | 0xb5 | 0xad | 0xbd | 0xb9 | 0xa1 | 0xb1 => {
                self.lda(&opcode.mode);
            },
            0xa2 | 0xa6 | 0xb6 | 0xae | 0xbe => {
                self.ldx(&opcode.mode);
            },
            0xa0 | 0xa4 | 0xb4 | 0xac | 0xbc => {
                self.ldy(&opcode.mode);
            },
            0x90 | 0xb0 | 0xf0 | 0x30 | 0xd0 | 0x10 | 0x50 | 0x70 | 0x4c | 0x6c => {
                self.branch(&opcode.mode);
            },
            0x20 => {
                self.jsr(&opcode.mode);
            },
            0x24 | 0x2c => {
                self.bit(&opcode.mode);
            },
            0x18 => self.clc(),
            0xd8 => self.cld(),
            0x58 => self.cli(),
            0xb8 => self.clv(),
            0xc9 | 0xc5 | 0xd5 | 0xcd | 0xdd | 0xd9 | 0xc1 | 0xd1 => {
                let a = self.register_a;
                self.cmp(a, &opcode.mode);
            },
            0xe0 | 0xe4 | 0xec => {
                let x = self.register_x;
                self.cmp(x, &opcode.mode);
            },
            0xc0 | 0xc4 | 0xcc => {
                let y = self.register_y;
                self.cmp(y, &opcode.mode);
            },
            0xc6 | 0xce | 0xd6 | 0xde => {
                self.dec(&opcode.mode);
            },
            0xe6 | 0xf6 | 0xee | 0xfe => {
                self.inc(&opcode.mode);
            },
            0xca => self.dex(),
            0x88 => self.dey(),
            0x85 | 0x95 | 0x8d | 0x9d | 0x99 | 0x81 | 0x91 => {
                self.sta(&opcode.mode);
            },
            0x86 | 0x96 | 0x8e => {
                self.stx(&opcode.mode);
            },
            0x84 | 0x94 | 0x8c => {
                self.sty(&opcode.mode);
            },
            _ => {
                return self.execute_opcode_more(code, opcode);
            },
        }

        None
    }

    /// The second half of the opcode dispatch.
    #[verifier::rlimit(100)]
    #[verifier::spinoff_prover]
    fn execute_opcode_more(&mut self, code: u8, opcode: &OpCode) -> (r: Option<
        Result<(), RunError>,
    >)
        requires
            old(self).wf(),
            Some(*opcode) == crate::opcodes::spec_opcode_info(code),
            (opcode.mode is NoneAddressing) ==> spec_implied_code(code),
        ensures
            final(self).wf(),
            r == spec_execute_more(old(self)@, code).0,
            final(self)@ == spec_execute_more(old(self)@, code).1,
    {
        proof { reveal(spec_execute_more); }
        match code {
            0x49 | 0x45 | 0x55 | 0x4d | 0x5d | 0x59 | 0x41 | 0x51 => {
                self.eor(&opcode.mode);
            },
            0x09 | 0x05 | 0x15 | 0x0d | 0x1d | 0x19 | 0x01 | 0x11 => {
                self.ora(&opcode.mode);
            },
            0xe9 | 0xe5 | 0xf5 | 0xed | 0xfd | 0xf9 | 0xe1 | 0xf1 => {
                self.sbc(&opcode.mode);
            },
            0x4a | 0x46 | 0x56 | 0x4e | 0x5e => {
                self.lsr(&opcode.mode);
            },
            0x2a | 0x26 | 0x36 | 0x2e | 0x3e => {
                self.rol(&opcode.mode);
            },
            0x6a | 0x66 | 0x76 | 0x6e | 0x7e => {
                self.ror(&opcode.mode);
            },
            0xaa => self.tax(),
            0xa8 => self.tay(),
            0xba => {
                if self.stack.len() == 0 {
                    return Some(Err(RunError::StackUnderflow));
                }
                self.tsx();
            },
            0x8a => self.txa(),
            0x9a => self.txs(),
            0x98 => self.tya(),
            0xe8 => self.inx(),
            0xc8 => self.iny(),
            0x48 => self.pha(),
            0x08 => self.php(),
            0x68 => {
                if self.stack.len() == 0 {
                    return Some(Err(RunError::StackUnderflow));
                }
                self.pla();
            },
            0x28 => {
                if self.stack.len() == 0 {
                    return Some(Err(RunError::StackUnderflow));
                }
                self.plp();
            },
            0x60 => {
                if self.stack.len() == 0 {
                    return Some(Err(RunError::StackUnderflow));
                }
                self.rts();
            },
            0x40 => {
                if self.stack.len() < 2 {
                    return Some(Err(RunError::StackUnderflow));
                }
                self.rti();
            },
            0x00 => {
                return Some(Ok(()));
            },
            _ => {
                return Some(Err(RunError::UnsupportedOpcode(code)));
            },
        }

        None
    }

    /// The fetch-decode-execute loop: run until the halt opcode, an
    /// unsupported opcode or a pull from an empty stack. The loop carries a
    /// step budget of two to the sixty-fourth so the verifier sees it
    /// terminate; no real program comes near it.
    #[verifier::rlimit(100)]
    #[verifier::spinoff_prover]
    pub fn run(&mut self) -> (r: Result<(), RunError>)
        requires
            old(self).wf(),
        ensures
            final(self).wf(),
            r == spec_run(old(self)@, RUN_BUDGET as nat).0,
            final(self)@ == spec_run(old(self)@, RUN_BUDGET as nat).1,
    {
        let mut budget: u64 = RUN_BUDGET;
        while budget > 0
            invariant
                self.wf(),
                spec_run(old(self)@, RUN_BUDGET as nat) == spec_run(self@, budget as nat),
            decreases budget,
        {
            let ghost pre = self@;
            let ghost fuel = budget as nat;
            proof {
                assert(spec_run(pre, fuel) == ({
                    let (outcome, s2) = spec_step(pre);
                    match outcome {
                        Some(result) => (result, s2),
                        None => spec_run(s2, (fuel - 1) as nat),
                    }
                }));
            }
            budget = budget - 1;
            let pc = self.register_pc;
            let code = self.memory.read(pc);
            self.register_pc = self.register_pc.wrapping_add(1);
            let pc_state = self.register_pc;

            let looked_up = opcode_info(code);
            let opcode = match looked_up {
                Some(op) => op,
                None => {
                    return Err(RunError::UnsupportedOpcode(code));
                },
            };

            match self.execute_opcode(code, &opcode) {
                Some(outcome) => {
                    return outcome;
                },
                None => {},
            }

            if pc_state == self.register_pc {
                self.register_pc = self.register_pc.wrapping_add((opcode.len - 1) as u16);
            }
        }
        Ok(())
    }

    /// Load, reset and run to the halt opcode: the outcome and final state
    /// are those `spec_run` reaches from the loaded, reset machine.
    pub fn load_and_run(&mut self, program: Vec<u8>) -> (r: Result<(), RunError>)
        requires
            old(self).wf(),
            program@.len() <= 0x7FFC,
        ensures
            final(self).wf(),
            r == spec_run(spec_reset(spec_load(old(self)@, program@)), RUN_BUDGET as nat).0,
            final(self)@ == spec_run(
                spec_reset(spec_load(old(self)@, program@)),
                RUN_BUDGET as nat,
            ).1,
    {
        self.load(program);
        self.reset();
        self.run()
    }
}


// ---------------------------------------------------------------------------
// Flag law for the packed status byte
// ---------------------------------------------------------------------------

/// After every flag update of this interpreter, the zero bit of the status
/// byte is set exactly when the result byte is zero, the negative bit
/// exactly when bit 7 of the result is one, and no other bit moves.
pub proof fn lemma_zero_and_negative_bits(sr: u8, result: u8)
    ensures
        (spec_zn_flags(sr, result) & 0x02 == 0x02) <==> result == 0,
        (spec_zn_flags(sr, result) & 0x80 == 0x80) <==> (result >> 7u8) == 1,
        spec_zn_flags(sr, result) & 0x7D == sr & 0x7D,
{
    assert(((result >> 7u8) == 1) <==> (result & 0x80 != 0)) by (bit_vector);
    if result == 0 {
        assert(0u8 & 0x80 == 0) by (bit_vector);
        assert(((sr | 0x02) & 0x7F) & 0x02 == 0x02) by (bit_vector);
        assert(((sr | 0x02) & 0x7F) & 0x80 != 0x80) by (bit_vector);
        assert(((sr | 0x02) & 0x7F) & 0x7D == sr & 0x7D) by (bit_vector);
    } else if result & 0x80 != 0 {
        assert(((sr & 0xFD) | 0x80) & 0x02 != 0x02) by (bit_vector);
        assert(((sr & 0xFD) | 0x80) & 0x80 == 0x80) by (bit_vector);
        assert(((sr & 0xFD) | 0x80) & 0x7D == sr & 0x7D) by (bit_vector);
    } else {
        assert(((sr & 0xFD) & 0x7F) & 0x02 != 0x02) by (bit_vector);
        assert(((sr & 0xFD) & 0x7F) & 0x80 != 0x80) by (bit_vector);
        assert(((sr & 0xFD) & 0x7F) & 0x7D == sr & 0x7D) by (bit_vector);
    }
}

} // verus!
