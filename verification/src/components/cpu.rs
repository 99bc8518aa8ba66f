//! Processor core: registers and flags, the addressing-mode resolver, every
//! documented and undocumented operation, interrupt sequencing, and the
//! fetch-decode-execute loop driving the bus.

use vstd::prelude::*;
use vstd::pervasive::unreached;

use crate::components::assembly::Assembler;
use crate::components::assembly::OpCode;
use crate::components::assembly::spec_interpret;
use crate::components::bus::Bus;
use crate::components::bus::BusView;
use crate::components::bus::spec_bus_read;
use crate::components::bus::spec_bus_read_u16;
use crate::components::bus::spec_bus_tick;
use crate::components::bus::spec_bus_write;
use crate::components::ppu::spec_ppu_poll;

verus! {

/// Base of the fixed 256-byte stack page.
pub const STACK: u16 = 0x0100;

/// Stack pointer value after a reset.
pub const STACK_RESET: u8 = 0xfd;

/// Address the program counter is loaded from on reset.
pub const RESET_VECTOR: u16 = 0xFFFC;

/// Start of the fixed program-load window in internal RAM.
pub const PROGRAM_LOAD_ADDRESS: u16 = 0x0600;

/// Step budget of the driving loops: astronomically beyond any program, it
/// exists only to give the verifier a termination measure.
pub const RUN_BUDGET: u64 = 0xFFFF_FFFF_FFFF_FFFF;

// ---------------------------------------------------------------------------
// Status register (P)
//
//  7 6 5 4 3 2 1 0
//  N V _ B D I Z C
//  | |   | | | | +--- carry
//  | |   | | | +----- zero
//  | |   | | +------- interrupt disable
//  | |   | +--------- decimal mode (tracked, never alters results)
//  | |   +----------- break command
//  | +--------------- overflow
//  +----------------- negative
// ---------------------------------------------------------------------------

/// The eight named status bits, in hardware bit order (`carry` is bit 0,
/// `negative` is bit 7).
#[derive(Clone, Copy, Debug, PartialEq, Eq, Structural)]
pub struct CpuFlags {
    pub carry: bool,
    pub zero: bool,
    pub interrupt_disable: bool,
    pub decimal_mode: bool,
    pub break_command: bool,
    pub unused: bool,
    pub overflow: bool,
    pub negative: bool,
}

/// The flag set decoded from a byte, bit by bit.
pub open spec fn spec_flags_from_bits(v: u8) -> CpuFlags {
    CpuFlags {
        carry: v % 2 == 1,
        zero: v / 2 % 2 == 1,
        interrupt_disable: v / 4 % 2 == 1,
        decimal_mode: v / 8 % 2 == 1,
        break_command: v / 16 % 2 == 1,
        unused: v / 32 % 2 == 1,
        overflow: v / 64 % 2 == 1,
        negative: v / 128 % 2 == 1,
    }
}

/// The flag set encoded as a byte, each flag at its hardware position.
pub open spec fn spec_flags_bits(f: CpuFlags) -> u8 {
    ((if f.carry {
        1int
    } else {
        0int
    }) + (if f.zero {
        2int
    } else {
        0int
    }) + (if f.interrupt_disable {
        4int
    } else {
        0int
    }) + (if f.decimal_mode {
        8int
    } else {
        0int
    }) + (if f.break_command {
        16int
    } else {
        0int
    }) + (if f.unused {
        32int
    } else {
        0int
    }) + (if f.overflow {
        64int
    } else {
        0int
    }) + (if f.negative {
        128int
    } else {
        0int
    })) as u8
}

/// Zero set iff the result byte is zero; negative mirrors bit 7.
pub open spec fn spec_zn(p: CpuFlags, result: u8) -> CpuFlags {
    CpuFlags { zero: result == 0, negative: result >= 128, ..p }
}

impl CpuFlags {
    pub fn from_bits(v: u8) -> (r: CpuFlags)
        ensures
            r == spec_flags_from_bits(v),
    {
        CpuFlags {
            carry: v % 2 == 1,
            zero: v / 2 % 2 == 1,
            interrupt_disable: v / 4 % 2 == 1,
            decimal_mode: v / 8 % 2 == 1,
            break_command: v / 16 % 2 == 1,
            unused: v / 32 % 2 == 1,
            overflow: v / 64 % 2 == 1,
            negative: v / 128 % 2 == 1,
        }
    }

    pub fn bits(&self) -> (r: u8)
        ensures
            r == spec_flags_bits(*self),
    {
        let mut v: u8 = 0;
        if self.carry {
            v = v + 1;
        }
        if self.zero {
            v = v + 2;
        }
        if self.interrupt_disable {
            v = v + 4;
        }
        if self.decimal_mode {
            v = v + 8;
        }
        if self.break_command {
            v = v + 16;
        }
        if self.unused {
            v = v + 32;
        }
        if self.overflow {
            v = v + 64;
        }
        if self.negative {
            v = v + 128;
        }
        v
    }
}

// ---------------------------------------------------------------------------
// Addressing modes and interrupts
// ---------------------------------------------------------------------------

#[derive(Clone, Copy, Debug, PartialEq, Eq, Structural)]
pub enum AddressingMode {
    Immediate,
    ZeroPage,
    ZeroPageX,
    ZeroPageY,
    Absolute,
    AbsoluteX,
    AbsoluteY,
    IndirectX,
    IndirectY,
    NoneAddressing,
}

#[derive(Clone, Copy, Debug, PartialEq, Eq, Structural)]
pub enum InterruptType {
    NMI,
}

/// Interrupt descriptor: the vector the program counter is loaded from, the
/// mask forcing the break/unused bits of the pushed status byte, and the
/// cycle cost charged against the timing source.
#[derive(Clone, Copy, Debug, PartialEq, Eq, Structural)]
pub struct Interrupt {
    pub interrupt_type: InterruptType,
    pub vector_address: u16,
    pub binary_flag_mask: u8,
    pub cpu_cycles: u8,
}

impl Interrupt {
    /// The non-maskable interrupt the video timing unit raises.
    pub fn nmi() -> (r: Interrupt)
        ensures
            r == spec_nmi_interrupt(),
    {
        Interrupt {
            interrupt_type: InterruptType::NMI,
            vector_address: 0xfffA,
            binary_flag_mask: 0b100000,
            cpu_cycles: 2,
        }
    }
}

pub open spec fn spec_nmi_interrupt() -> Interrupt {
    Interrupt {
        interrupt_type: InterruptType::NMI,
        vector_address: 0xfffA,
        binary_flag_mask: 0b100000,
        cpu_cycles: 2,
    }
}

/// Whether two addresses lie in different 256-byte pages, that is, whether
/// their high bytes differ.
pub open spec fn spec_page_cross(addr1: u16, addr2: u16) -> bool {
    addr1 / 0x100 != addr2 / 0x100
}

pub fn page_cross(addr1: u16, addr2: u16) -> (r: bool)
    ensures
        r == spec_page_cross(addr1, addr2),
{
    addr1 / 0x100 != addr2 / 0x100
}

/// A displacement byte sign-extended to sixteen bits.
pub open spec fn spec_sign_extend(d: u8) -> u16 {
    if d < 128 {
        d as u16
    } else {
        (d + 0xFF00) as u16
    }
}

// ---------------------------------------------------------------------------
// The processor
// ---------------------------------------------------------------------------

pub struct CPU {
    pub register_a: u8,
    pub register_x: u8,
    pub register_y: u8,
    pub register_p: CpuFlags,
    pub register_pc: u16,
    pub register_sp: u8,
    pub bus: Bus,
}

/// Mathematical image of the whole machine: registers, flags and bus.
#[verifier::ext_equal]
pub ghost struct CpuView {
    pub a: u8,
    pub x: u8,
    pub y: u8,
    pub p: CpuFlags,
    pub pc: u16,
    pub sp: u8,
    pub bus: BusView,
}

impl View for CPU {
    type V = CpuView;

    open spec fn view(&self) -> CpuView {
        CpuView {
            a: self.register_a,
            x: self.register_x,
            y: self.register_y,
            p: self.register_p,
            pc: self.register_pc,
            sp: self.register_sp,
            bus: self.bus@,
        }
    }
}

impl CpuView {
    pub open spec fn wf(self) -> bool {
        self.bus.wf()
    }
}

// ---------------------------------------------------------------------------
// Addressing-mode resolution, as a specification
// ---------------------------------------------------------------------------

/// Resolve an addressing mode against the bytes at `at`: the effective
/// address, whether a page was crossed, and the bus after the reads the
/// resolution itself performs. `Immediate` and `NoneAddressing` never reach
/// this function.
pub open spec fn spec_resolve_absolute(s: CpuView, mode: AddressingMode, at: u16) -> (
    u16,
    bool,
    BusView,
) {
    match mode {
        AddressingMode::ZeroPage => {
            let (v, b1) = spec_bus_read(s.bus, at);
            (v as u16, false, b1)
        },
        AddressingMode::Absolute => {
            let (v, b1) = spec_bus_read_u16(s.bus, at);
            (v, false, b1)
        },
        AddressingMode::ZeroPageX => {
            let (v, b1) = spec_bus_read(s.bus, at);
            (v.wrapping_add(s.x) as u16, false, b1)
        },
        AddressingMode::ZeroPageY => {
            let (v, b1) = spec_bus_read(s.bus, at);
            (v.wrapping_add(s.y) as u16, false, b1)
        },
        AddressingMode::AbsoluteX => {
            let (base, b1) = spec_bus_read_u16(s.bus, at);
            let address = base.wrapping_add(s.x as u16);
            (address, spec_page_cross(base, address), b1)
        },
        AddressingMode::AbsoluteY => {
            let (base, b1) = spec_bus_read_u16(s.bus, at);
            let address = base.wrapping_add(s.y as u16);
            (address, spec_page_cross(base, address), b1)
        },
        AddressingMode::IndirectX => {
            let (base, b1) = spec_bus_read(s.bus, at);
            let ptr = base.wrapping_add(s.x);
            let (lo, b2) = spec_bus_read(b1, ptr as u16);
            let (hi, b3) = spec_bus_read(b2, ptr.wrapping_add(1) as u16);
            ((hi * 256 + lo) as u16, false, b3)
        },
        AddressingMode::IndirectY => {
            let (base, b1) = spec_bus_read(s.bus, at);
            let (lo, b2) = spec_bus_read(b1, base as u16);
            let (hi, b3) = spec_bus_read(b2, base.wrapping_add(1) as u16);
            let deref_base = (hi * 256 + lo) as u16;
            let deref = deref_base.wrapping_add(s.y as u16);
            (deref, spec_page_cross(deref, deref_base), b3)
        },
        _ => (0u16, false, s.bus),
    }
}

/// Resolve the operand of the instruction at the program counter. Immediate
/// operands live at the program counter itself; every other mode reads its
/// bytes there.
pub open spec fn spec_resolve(s: CpuView, mode: AddressingMode) -> (u16, bool, BusView) {
    match mode {
        AddressingMode::Immediate => (s.pc, false, s.bus),
        _ => spec_resolve_absolute(s, mode, s.pc),
    }
}

impl CPU {
    pub fn new(bus: Bus) -> (r: CPU)
        ensures
            r@ == (CpuView {
                a: 0,
                x: 0,
                y: 0,
                p: spec_flags_from_bits(0b100100),
                pc: 0,
                sp: STACK_RESET,
                bus: bus@,
            }),
    {
        CPU {
            register_a: 0,
            register_x: 0,
            register_y: 0,
            register_sp: STACK_RESET,
            register_pc: 0,
            register_p: CpuFlags::from_bits(0b100100),
            bus,
        }
    }

    pub fn memory_read(&mut self, address: u16) -> (r: u8)
        requires
            old(self)@.wf(),
        ensures
            final(self)@.wf(),
            r == spec_bus_read(old(self)@.bus, address).0,
            final(self)@ == (CpuView { bus: spec_bus_read(old(self)@.bus, address).1, ..old(self)@ }),
    {
        self.bus.memory_read(address)
    }

    pub fn memory_write(&mut self, address: u16, value: u8)
        requires
            old(self)@.wf(),
        ensures
            final(self)@.wf(),
            final(self)@ == (CpuView {
                bus: spec_bus_write(old(self)@.bus, address, value),
                ..old(self)@
            }),
    {
        self.bus.memory_write(address, value)
    }

    pub fn memory_read_u16(&mut self, address: u16) -> (r: u16)
        requires
            old(self)@.wf(),
        ensures
            final(self)@.wf(),
            r == spec_bus_read_u16(old(self)@.bus, address).0,
            final(self)@ == (CpuView {
                bus: spec_bus_read_u16(old(self)@.bus, address).1,
                ..old(self)@
            }),
    {
        self.bus.memory_read_u16(address)
    }

    /// Resolve `mode` against the instruction bytes at `address`; returns the
    /// effective address and whether the indexed address crossed a page.
    #[verifier::rlimit(50)]
    pub fn get_absolute_address(&mut self, mode: &AddressingMode, address: u16) -> (r: (u16, bool))
        requires
            old(self)@.wf(),
            !(mode is Immediate),
            !(mode is NoneAddressing),
        ensures
            final(self)@.wf(),
            r.0 == spec_resolve_absolute(old(self)@, *mode, address).0,
            r.1 == spec_resolve_absolute(old(self)@, *mode, address).1,
            final(self)@ == (CpuView {
                bus: spec_resolve_absolute(old(self)@, *mode, address).2,
                ..old(self)@
            }),
    {
        match mode {
            AddressingMode::ZeroPage => (self.memory_read(address) as u16, false),
            AddressingMode::Absolute => (self.memory_read_u16(address), false),
            AddressingMode::ZeroPageX => {
                let index = self.memory_read(address);
                let address = index.wrapping_add(self.register_x) as u16;
                (address, false)
            },
            AddressingMode::ZeroPageY => {
                let index = self.memory_read(address);
                let address = index.wrapping_add(self.register_y) as u16;
                (address, false)
            },
            AddressingMode::AbsoluteX => {
                let base = self.memory_read_u16(address);
                let address = base.wrapping_add(self.register_x as u16);
                (address, page_cross(base, address))
            },
            AddressingMode::AbsoluteY => {
                let base = self.memory_read_u16(address);
                let address = base.wrapping_add(self.register_y as u16);
                (address, page_cross(base, address))
            },
            AddressingMode::IndirectX => {
                let base = self.memory_read(address);
                let ptr: u8 = base.wrapping_add(self.register_x);
                let lo = self.memory_read(ptr as u16);
                let hi = self.memory_read(ptr.wrapping_add(1) as u16);
                ((hi as u16) * 256 + (lo as u16), false)
            },
            AddressingMode::IndirectY => {
                let base = self.memory_read(address);
                let lo = self.memory_read(base as u16);
                let hi = self.memory_read(base.wrapping_add(1) as u16);
                let deref_base = (hi as u16) * 256 + (lo as u16);
                let deref = deref_base.wrapping_add(self.register_y as u16);
                (deref, page_cross(deref, deref_base))
            },
            _ => unreached(),
        }
    }

    /// Resolve the operand of the instruction at the program counter.
    pub fn get_operand_address(&mut self, mode: &AddressingMode) -> (r: (u16, bool))
        requires
            old(self)@.wf(),
            !(mode is NoneAddressing),
        ensures
            final(self)@.wf(),
            r.0 == spec_resolve(old(self)@, *mode).0,
            r.1 == spec_resolve(old(self)@, *mode).1,
            final(self)@ == (CpuView { bus: spec_resolve(old(self)@, *mode).2, ..old(self)@ }),
    {
        match mode {
            AddressingMode::Immediate => (self.register_pc, false),
            _ => {
                let pc = self.register_pc;
                self.get_absolute_address(mode, pc)
            },
        }
    }
}

// ---------------------------------------------------------------------------
// Addressing laws
// ---------------------------------------------------------------------------

/// For both indexed zero-page modes the effective address is (base + index)
/// modulo 256, for every base byte and every index byte: the sum wraps
/// inside the zero page.
#[verifier::rlimit(50)]
pub proof fn lemma_zero_page_indexed_wraps(s: CpuView)
    ensures
        spec_resolve(s, AddressingMode::ZeroPageX).0 == (spec_bus_read(s.bus, s.pc).0 + s.x) % 256,
        spec_resolve(s, AddressingMode::ZeroPageY).0 == (spec_bus_read(s.bus, s.pc).0 + s.y) % 256,
{
}

/// Adding a byte-sized index to a sixteen-bit base wraps modulo 0x10000, and
/// the pair lies in different pages exactly when the high bytes differ.
proof fn lemma_indexed_sum_and_page(base: u16, index: u8)
    ensures
        base.wrapping_add(index as u16) == (base + index) % 0x10000,
        spec_page_cross(base, base.wrapping_add(index as u16)) == ((((base + index) % 0x10000)
            / 0x100) != base / 0x100),
{
    assert(base.wrapping_add(index as u16) == (base + index) % 0x10000) by {
        if base + index > 0xFFFFint {
            assert((base + index) % 0x10000 == base + index - 0x10000);
        } else {
            assert((base + index) % 0x10000 == base + index);
        }
    }
}

/// For both indexed absolute modes a page cross is reported exactly when the
/// high byte of (base + index) differs from the high byte of the unindexed
/// base, for every base and index.
#[verifier::rlimit(50)]
pub proof fn lemma_absolute_indexed_page_cross(s: CpuView)
    ensures
        ({
            let base = spec_bus_read_u16(s.bus, s.pc).0;
            &&& spec_resolve(s, AddressingMode::AbsoluteX).0 == (base + s.x) % 0x10000
            &&& spec_resolve(s, AddressingMode::AbsoluteX).1 == ((((base + s.x) % 0x10000) / 0x100)
                != base / 0x100)
            &&& spec_resolve(s, AddressingMode::AbsoluteY).0 == (base + s.y) % 0x10000
            &&& spec_resolve(s, AddressingMode::AbsoluteY).1 == ((((base + s.y) % 0x10000) / 0x100)
                != base / 0x100)
        }),
{
    let base = spec_bus_read_u16(s.bus, s.pc).0;
    lemma_indexed_sum_and_page(base, s.x);
    lemma_indexed_sum_and_page(base, s.y);
}

// ---------------------------------------------------------------------------
// Register, flag and stack helpers, as specifications
// ---------------------------------------------------------------------------

/// Loading a value into the accumulator updates the zero/negative flags.
#[verifier::opaque]
pub open spec fn spec_set_register_a(s: CpuView, value: u8) -> CpuView {
    CpuView { a: value, p: spec_zn(s.p, value), ..s }
}

/// Add with carry into the accumulator. Carry comes out when the unsigned
/// sum exceeds a byte; overflow when the operands' signs agree but differ
/// from the sign of the result.
#[verifier::opaque]
pub open spec fn spec_add_to_a(s: CpuView, data: u8) -> CpuView {
    let c = if s.p.carry {
        1int
    } else {
        0int
    };
    let sum = s.a + data + c;
    let result = (sum % 256) as u8;
    CpuView {
        a: result,
        p: CpuFlags {
            carry: sum > 0xff,
            overflow: ((s.a >= 128) == (data >= 128)) && ((result >= 128) != (s.a >= 128)),
            zero: result == 0,
            negative: result >= 128,
            ..s.p
        },
        ..s
    }
}

/// Subtract with carry: addition of the operand's ones' complement, reusing
/// the add path and its flag logic.
#[verifier::opaque]
pub open spec fn spec_sub_from_a(s: CpuView, data: u8) -> CpuView {
    spec_add_to_a(s, (255 - data) as u8)
}

/// Push: write to the stack-pointer cell of the fixed stack page, then
/// decrement the pointer (wrapping silently).
#[verifier::opaque]
pub open spec fn spec_stack_push(s: CpuView, data: u8) -> CpuView {
    CpuView {
        bus: spec_bus_write(s.bus, (STACK + s.sp) as u16, data),
        sp: s.sp.wrapping_sub(1),
        ..s
    }
}

/// Pop: increment the pointer (wrapping silently), then read the cell.
#[verifier::opaque]
pub open spec fn spec_stack_pop(s: CpuView) -> (u8, CpuView) {
    let sp2 = s.sp.wrapping_add(1);
    let (v, b) = spec_bus_read(s.bus, (STACK + sp2) as u16);
    (v, CpuView { sp: sp2, bus: b, ..s })
}

/// Push a sixteen-bit value: high byte first, then low byte.
#[verifier::opaque]
pub open spec fn spec_stack_push_u16(s: CpuView, data: u16) -> CpuView {
    spec_stack_push(spec_stack_push(s, (data / 256) as u8), (data % 256) as u8)
}

/// Pop a sixteen-bit value: low byte first, then high byte.
#[verifier::opaque]
pub open spec fn spec_stack_pop_u16(s: CpuView) -> (u16, CpuView) {
    let (lo, s1) = spec_stack_pop(s);
    let (hi, s2) = spec_stack_pop(s1);
    (((hi * 256) + lo) as u16, s2)
}

/// After a handler: charge the opcode's base cycles, then advance the
/// program counter by the remaining instruction length — unless the handler
/// already moved it (jumps, calls, branches, returns).
#[verifier::opaque]
pub open spec fn spec_update_pc(s: CpuView, opcode: OpCode, pc_state: u16) -> CpuView
    recommends
        opcode.len >= 1,
{
    CpuView {
        bus: spec_bus_tick(s.bus, opcode.cycles).1,
        pc: if s.pc == pc_state {
            s.pc.wrapping_add((opcode.len - 1) as u16)
        } else {
            s.pc
        },
        ..s
    }
}

impl CPU {
    fn update_zero_and_negative_flags(&mut self, result: u8)
        ensures
            final(self)@ == (CpuView { p: spec_zn(old(self)@.p, result), ..old(self)@ }),
    {
        if result == 0 {
            self.register_p.zero = true;
        } else {
            self.register_p.zero = false;
        }
        if result >= 128 {
            self.register_p.negative = true;
        } else {
            self.register_p.negative = false;
        }
    }

    fn set_carry_flag(&mut self)
        ensures
            final(self)@ == (CpuView { p: CpuFlags { carry: true, ..old(self)@.p }, ..old(self)@ }),
    {
        self.register_p.carry = true;
    }

    fn clear_carry_flag(&mut self)
        ensures
            final(self)@ == (CpuView {
                p: CpuFlags { carry: false, ..old(self)@.p },
                ..old(self)@
            }),
    {
        self.register_p.carry = false;
    }

    fn set_register_a(&mut self, value: u8)
        ensures
            final(self)@.bus == old(self)@.bus,
            final(self)@ == spec_set_register_a(old(self)@, value),
    {
        proof { reveal(spec_set_register_a); }
        self.register_a = value;
        let a = self.register_a;
        self.update_zero_and_negative_flags(a);
    }

    fn add_to_register_a(&mut self, data: u8)
        ensures
            final(self)@.bus == old(self)@.bus,
            final(self)@ == spec_add_to_a(old(self)@, data),
    {
        proof { reveal(spec_add_to_a); }
        proof { reveal(spec_set_register_a); }
        let carry_in: u16 = if self.register_p.carry {
            1
        } else {
            0
        };
        let sum: u16 = self.register_a as u16 + data as u16 + carry_in;
        let result: u8 = (sum % 256) as u8;
        self.register_p.carry = sum > 0xff;
        self.register_p.overflow = ((self.register_a >= 128) == (data >= 128)) && ((result >= 128)
            != (self.register_a >= 128));
        self.set_register_a(result);
    }

    fn sub_from_register_a(&mut self, data: u8)
        ensures
            final(self)@.bus == old(self)@.bus,
            final(self)@ == spec_sub_from_a(old(self)@, data),
    {
        proof { reveal(spec_sub_from_a); }
        self.add_to_register_a(255 - data);
    }

    fn stack_pop(&mut self) -> (r: u8)
        requires
            old(self)@.wf(),
        ensures
            final(self)@.wf(),
            r == spec_stack_pop(old(self)@).0,
            final(self)@ == spec_stack_pop(old(self)@).1,
    {
        proof { reveal(spec_stack_pop); }
        self.register_sp = self.register_sp.wrapping_add(1);
        let address: u16 = STACK + self.register_sp as u16;
        self.memory_read(address)
    }

    fn stack_push(&mut self, data: u8)
        requires
            old(self)@.wf(),
        ensures
            final(self)@.wf(),
            final(self)@ == spec_stack_push(old(self)@, data),
    {
        proof { reveal(spec_stack_push); }
        let address: u16 = STACK + self.register_sp as u16;
        self.memory_write(address, data);
        self.register_sp = self.register_sp.wrapping_sub(1);
    }

    fn stack_push_u16(&mut self, data: u16)
        requires
            old(self)@.wf(),
        ensures
            final(self)@.wf(),
            final(self)@ == spec_stack_push_u16(old(self)@, data),
    {
        proof { reveal(spec_stack_push_u16); }
        let hi = (data / 256) as u8;
        let lo = (data % 256) as u8;
        self.stack_push(hi);
        self.stack_push(lo);
    }

    fn stack_pop_u16(&mut self) -> (r: u16)
        requires
            old(self)@.wf(),
        ensures
            final(self)@.wf(),
            r == spec_stack_pop_u16(old(self)@).0,
            final(self)@ == spec_stack_pop_u16(old(self)@).1,
    {
        proof { reveal(spec_stack_pop_u16); }
        let lo = self.stack_pop() as u16;
        let hi = self.stack_pop() as u16;
        hi * 256 + lo
    }

    /// Close out an instruction: charge its base cycles and auto-advance the
    /// program counter when the handler has not already altered it.
    pub fn update_pc(&mut self, opcode: &OpCode, pc_state: u16)
        requires
            old(self)@.wf(),
            opcode.cycles <= 85,
            opcode.len >= 1,
        ensures
            final(self)@.wf(),
            final(self)@ == spec_update_pc(old(self)@, *opcode, pc_state),
    {
        proof { reveal(spec_update_pc); }
        self.bus.tick(opcode.cycles);
        if pc_state == self.register_pc {
            self.register_pc = self.register_pc.wrapping_add((opcode.len - 1) as u16);
        }
    }
}

// ---------------------------------------------------------------------------
// Flag, arithmetic and stack laws
// ---------------------------------------------------------------------------

/// After every flag update, zero is set exactly when the result byte is
/// zero, negative exactly when bit 7 of the result is one, and no other
/// flag moves.
pub proof fn lemma_zero_and_negative_flags(p: CpuFlags, result: u8)
    ensures
        spec_zn(p, result).zero <==> result == 0,
        spec_zn(p, result).negative <==> (result >> 7u8) == 1,
        spec_zn(p, result).carry == p.carry,
        spec_zn(p, result).overflow == p.overflow,
        spec_zn(p, result).interrupt_disable == p.interrupt_disable,
        spec_zn(p, result).decimal_mode == p.decimal_mode,
        spec_zn(p, result).break_command == p.break_command,
        spec_zn(p, result).unused == p.unused,
{
    assert(((result >> 7u8) == 1) <==> result >= 128) by (bit_vector);
}

/// An add-with-carry followed by a subtract-with-carry on the same operand
/// and the same carry state restores the accumulator up to the documented
/// carry correction: one more than the original when carry was set, one
/// less when it was clear. With the canonical idiom — carry cleared before
/// the add, set before the subtract — the accumulator comes back exactly.
pub proof fn lemma_adc_sbc_round_trip(s: CpuView, data: u8)
    ensures
        ({
            let s1 = spec_add_to_a(s, data);
            let s2 = spec_sub_from_a(
                CpuView { p: CpuFlags { carry: s.p.carry, ..s1.p }, ..s1 },
                data,
            );
            s2.a == if s.p.carry {
                (s.a + 1) % 256
            } else {
                (s.a + 255) % 256
            }
        }),
        ({
            let t1 = spec_add_to_a(CpuView { p: CpuFlags { carry: false, ..s.p }, ..s }, data);
            let t2 = spec_sub_from_a(
                CpuView { p: CpuFlags { carry: true, ..t1.p }, ..t1 },
                data,
            );
            t2.a == s.a
        }),
{
    reveal(spec_add_to_a);
    reveal(spec_sub_from_a);
}

/// Pushing a byte and then popping returns that byte unchanged and leaves
/// the stack pointer — and every register — where it was.
pub proof fn lemma_stack_push_pop_round_trip(s: CpuView, value: u8)
    requires
        s.wf(),
    ensures
        ({
            let s1 = spec_stack_push(s, value);
            let (r, s2) = spec_stack_pop(s1);
            &&& r == value
            &&& s2.sp == s.sp
            &&& s2.a == s.a
            &&& s2.x == s.x
            &&& s2.y == s.y
            &&& s2.p == s.p
            &&& s2.pc == s.pc
        }),
{
    reveal(spec_stack_push);
    reveal(spec_stack_pop);
    reveal(crate::components::bus::spec_bus_read);
    reveal(crate::components::bus::spec_bus_write);
}


// ---------------------------------------------------------------------------
// Operation semantics: loads, stores, logic, transfers, flags, branches
// ---------------------------------------------------------------------------

/// Read the operand and combine it into the accumulator with `spec_add_to_a`;
/// an extra cycle is charged on a page cross.
#[verifier::opaque]
pub open spec fn spec_adc(s: CpuView, mode: AddressingMode) -> CpuView {
    let (address, cross, b1) = spec_resolve(s, mode);
    let (value, b2) = spec_bus_read(b1, address);
    let s2 = spec_add_to_a(CpuView { bus: b2, ..s }, value);
    if cross {
        CpuView { bus: spec_bus_tick(s2.bus, 1).1, ..s2 }
    } else {
        s2
    }
}

/// Accumulator AND operand; an extra cycle on a page cross.
#[verifier::opaque]
pub open spec fn spec_and(s: CpuView, mode: AddressingMode) -> CpuView {
    let (address, cross, b1) = spec_resolve(s, mode);
    let (value, b2) = spec_bus_read(b1, address);
    let s2 = spec_set_register_a(CpuView { bus: b2, ..s }, value & s.a);
    if cross {
        CpuView { bus: spec_bus_tick(s2.bus, 1).1, ..s2 }
    } else {
        s2
    }
}

/// Accumulator XOR operand; an extra cycle on a page cross.
#[verifier::opaque]
pub open spec fn spec_eor(s: CpuView, mode: AddressingMode) -> CpuView {
    let (address, cross, b1) = spec_resolve(s, mode);
    let (value, b2) = spec_bus_read(b1, address);
    let s2 = spec_set_register_a(CpuView { bus: b2, ..s }, value ^ s.a);
    if cross {
        CpuView { bus: spec_bus_tick(s2.bus, 1).1, ..s2 }
    } else {
        s2
    }
}

/// Accumulator OR operand; an extra cycle on a page cross.
#[verifier::opaque]
pub open spec fn spec_ora(s: CpuView, mode: AddressingMode) -> CpuView {
    let (address, cross, b1) = spec_resolve(s, mode);
    let (value, b2) = spec_bus_read(b1, address);
    let s2 = spec_set_register_a(CpuView { bus: b2, ..s }, value | s.a);
    if cross {
        CpuView { bus: spec_bus_tick(s2.bus, 1).1, ..s2 }
    } else {
        s2
    }
}

/// Load the accumulator; an extra cycle on a page cross.
#[verifier::opaque]
pub open spec fn spec_lda(s: CpuView, mode: AddressingMode) -> CpuView {
    let (address, cross, b1) = spec_resolve(s, mode);
    let (value, b2) = spec_bus_read(b1, address);
    let s2 = spec_set_register_a(CpuView { bus: b2, ..s }, value);
    if cross {
        CpuView { bus: spec_bus_tick(s2.bus, 1).1, ..s2 }
    } else {
        s2
    }
}

/// Load the X register; an extra cycle on a page cross.
#[verifier::opaque]
pub open spec fn spec_ldx(s: CpuView, mode: AddressingMode) -> CpuView {
    let (address, cross, b1) = spec_resolve(s, mode);
    let (value, b2) = spec_bus_read(b1, address);
    let s2 = CpuView { x: value, p: spec_zn(s.p, value), bus: b2, ..s };
    if cross {
        CpuView { bus: spec_bus_tick(s2.bus, 1).1, ..s2 }
    } else {
        s2
    }
}

/// Load the Y register; an extra cycle on a page cross.
#[verifier::opaque]
pub open spec fn spec_ldy(s: CpuView, mode: AddressingMode) -> CpuView {
    let (address, cross, b1) = spec_resolve(s, mode);
    let (value, b2) = spec_bus_read(b1, address);
    let s2 = CpuView { y: value, p: spec_zn(s.p, value), bus: b2, ..s };
    if cross {
        CpuView { bus: spec_bus_tick(s2.bus, 1).1, ..s2 }
    } else {
        s2
    }
}

/// Subtract with carry; an extra cycle on a page cross.
#[verifier::opaque]
pub open spec fn spec_sbc(s: CpuView, mode: AddressingMode) -> CpuView {
    let (address, cross, b1) = spec_resolve(s, mode);
    let (value, b2) = spec_bus_read(b1, address);
    let s2 = spec_sub_from_a(CpuView { bus: b2, ..s }, value);
    if cross {
        CpuView { bus: spec_bus_tick(s2.bus, 1).1, ..s2 }
    } else {
        s2
    }
}

/// Store the accumulator at the resolved address.
#[verifier::opaque]
pub open spec fn spec_sta(s: CpuView, mode: AddressingMode) -> CpuView {
    let (address, cross, b1) = spec_resolve(s, mode);
    CpuView { bus: spec_bus_write(b1, address, s.a), ..s }
}

/// Store the X register at the resolved address.
#[verifier::opaque]
pub open spec fn spec_stx(s: CpuView, mode: AddressingMode) -> CpuView {
    let (address, cross, b1) = spec_resolve(s, mode);
    CpuView { bus: spec_bus_write(b1, address, s.x), ..s }
}

/// Store the Y register at the resolved address.
#[verifier::opaque]
pub open spec fn spec_sty(s: CpuView, mode: AddressingMode) -> CpuView {
    let (address, cross, b1) = spec_resolve(s, mode);
    CpuView { bus: spec_bus_write(b1, address, s.y), ..s }
}

/// Bit test: zero from accumulator AND operand, negative and overflow
/// copied from bits 7 and 6 of the operand.
#[verifier::opaque]
pub open spec fn spec_bit(s: CpuView, mode: AddressingMode) -> CpuView {
    let (address, cross, b1) = spec_resolve(s, mode);
    let (value, b2) = spec_bus_read(b1, address);
    CpuView {
        p: CpuFlags {
            zero: (s.a & value) == 0,
            negative: value >= 128,
            overflow: value / 64 % 2 == 1,
            ..s.p
        },
        bus: b2,
        ..s
    }
}

/// Compare a register with the operand: carry when the operand does not
/// exceed it, zero/negative from the difference; an extra cycle on a page
/// cross.
#[verifier::opaque]
pub open spec fn spec_compare(s: CpuView, mode: AddressingMode, compare_with: u8) -> CpuView {
    let (address, cross, b1) = spec_resolve(s, mode);
    let (data, b2) = spec_bus_read(b1, address);
    let p2 = spec_zn(CpuFlags { carry: data <= compare_with, ..s.p }, compare_with.wrapping_sub(data));
    let b3 = if cross {
        spec_bus_tick(b2, 1).1
    } else {
        b2
    };
    CpuView { p: p2, bus: b3, ..s }
}

/// A conditional branch. Taken: one extra cycle, the displacement byte is
/// read and sign-extended, and a further cycle is charged when the target
/// lies in a different page than the address after the displacement byte.
#[verifier::opaque]
pub open spec fn spec_branch(s: CpuView, condition: bool) -> CpuView {
    if !condition {
        s
    } else {
        let b1 = spec_bus_tick(s.bus, 1).1;
        let (jump, b2) = spec_bus_read(b1, s.pc);
        let target = s.pc.wrapping_add(1).wrapping_add(spec_sign_extend(jump));
        let b3 = if spec_page_cross(s.pc.wrapping_add(1), target) {
            spec_bus_tick(b2, 1).1
        } else {
            b2
        };
        CpuView { pc: target, bus: b3, ..s }
    }
}

#[verifier::opaque]
pub open spec fn spec_tax(s: CpuView) -> CpuView {
    CpuView { x: s.a, p: spec_zn(s.p, s.a), ..s }
}

#[verifier::opaque]
pub open spec fn spec_tay(s: CpuView) -> CpuView {
    CpuView { y: s.a, p: spec_zn(s.p, s.a), ..s }
}

#[verifier::opaque]
pub open spec fn spec_tsx(s: CpuView) -> CpuView {
    CpuView { x: s.sp, p: spec_zn(s.p, s.sp), ..s }
}

#[verifier::opaque]
pub open spec fn spec_txa(s: CpuView) -> CpuView {
    CpuView { a: s.x, p: spec_zn(s.p, s.x), ..s }
}

#[verifier::opaque]
pub open spec fn spec_txs(s: CpuView) -> CpuView {
    CpuView { sp: s.x, ..s }
}

#[verifier::opaque]
pub open spec fn spec_tya(s: CpuView) -> CpuView {
    CpuView { a: s.y, p: spec_zn(s.p, s.y), ..s }
}

#[verifier::opaque]
pub open spec fn spec_dex(s: CpuView) -> CpuView {
    CpuView { x: s.x.wrapping_sub(1), p: spec_zn(s.p, s.x.wrapping_sub(1)), ..s }
}

#[verifier::opaque]
pub open spec fn spec_dey(s: CpuView) -> CpuView {
    CpuView { y: s.y.wrapping_sub(1), p: spec_zn(s.p, s.y.wrapping_sub(1)), ..s }
}

#[verifier::opaque]
pub open spec fn spec_inx(s: CpuView) -> CpuView {
    CpuView { x: s.x.wrapping_add(1), p: spec_zn(s.p, s.x.wrapping_add(1)), ..s }
}

#[verifier::opaque]
pub open spec fn spec_iny(s: CpuView) -> CpuView {
    CpuView { y: s.y.wrapping_add(1), p: spec_zn(s.p, s.y.wrapping_add(1)), ..s }
}

impl CPU {
    pub fn adc(&mut self, mode: &AddressingMode)
        requires
            old(self)@.wf(),
            !(mode is NoneAddressing),
        ensures
            final(self)@.wf(),
            final(self)@ == spec_adc(old(self)@, *mode),
    {
        proof { reveal(spec_adc); }
        let (address, page_crossed) = self.get_operand_address(mode);
        let value = self.memory_read(address);
        self.add_to_register_a(value);
        if page_crossed {
            self.bus.tick(1);
        }
    }

    pub fn and(&mut self, mode: &AddressingMode)
        requires
            old(self)@.wf(),
            !(mode is NoneAddressing),
        ensures
            final(self)@.wf(),
            final(self)@ == spec_and(old(self)@, *mode),
    {
        proof { reveal(spec_and); }
        let (address, page_crossed) = self.get_operand_address(mode);
        let value = self.memory_read(address);
        let a = self.register_a;
        self.set_register_a(value & a);
        if page_crossed {
            self.bus.tick(1);
        }
    }

    pub fn eor(&mut self, mode: &AddressingMode)
        requires
            old(self)@.wf(),
            !(mode is NoneAddressing),
        ensures
            final(self)@.wf(),
            final(self)@ == spec_eor(old(self)@, *mode),
    {
        proof { reveal(spec_eor); }
        let (address, page_crossed) = self.get_operand_address(mode);
        let value = self.memory_read(address);
        let a = self.register_a;
        self.set_register_a(value ^ a);
        if page_crossed {
            self.bus.tick(1);
        }
    }

    pub fn ora(&mut self, mode: &AddressingMode)
        requires
            old(self)@.wf(),
            !(mode is NoneAddressing),
        ensures
            final(self)@.wf(),
            final(self)@ == spec_ora(old(self)@, *mode),
    {
        proof { reveal(spec_ora); }
        let (address, page_crossed) = self.get_operand_address(mode);
        let value = self.memory_read(address);
        let a = self.register_a;
        self.set_register_a(value | a);
        if page_crossed {
            self.bus.tick(1);
        }
    }

    pub fn lda(&mut self, mode: &AddressingMode)
        requires
            old(self)@.wf(),
            !(mode is NoneAddressing),
        ensures
            final(self)@.wf(),
            final(self)@ == spec_lda(old(self)@, *mode),
    {
        proof { reveal(spec_lda); }
        let (address, page_crossed) = self.get_operand_address(mode);
        let value = self.memory_read(address);
        self.set_register_a(value);
        if page_crossed {
            self.bus.tick(1);
        }
    }

    pub fn ldx(&mut self, mode: &AddressingMode)
        requires
            old(self)@.wf(),
            !(mode is NoneAddressing),
        ensures
            final(self)@.wf(),
            final(self)@ == spec_ldx(old(self)@, *mode),
    {
        proof { reveal(spec_ldx); }
        let (address, page_crossed) = self.get_operand_address(mode);
        let value = self.memory_read(address);
        self.register_x = value;
        let x = self.register_x;
        self.update_zero_and_negative_flags(x);
        if page_crossed {
            self.bus.tick(1);
        }
    }

    pub fn ldy(&mut self, mode: &AddressingMode)
        requires
            old(self)@.wf(),
            !(mode is NoneAddressing),
        ensures
            final(self)@.wf(),
            final(self)@ == spec_ldy(old(self)@, *mode),
    {
        proof { reveal(spec_ldy); }
        let (address, page_crossed) = self.get_operand_address(mode);
        let value = self.memory_read(address);
        self.register_y = value;
        let y = self.register_y;
        self.update_zero_and_negative_flags(y);
        if page_crossed {
            self.bus.tick(1);
        }
    }

    pub fn sbc(&mut self, mode: &AddressingMode)
        requires
            old(self)@.wf(),
            !(mode is NoneAddressing),
        ensures
            final(self)@.wf(),
            final(self)@ == spec_sbc(old(self)@, *mode),
    {
        proof { reveal(spec_sbc); }
        let (address, page_crossed) = self.get_operand_address(mode);
        let value = self.memory_read(address);
        self.sub_from_register_a(value);
        if page_crossed {
            self.bus.tick(1);
        }
    }

    pub fn sta(&mut self, mode: &AddressingMode)
        requires
            old(self)@.wf(),
            !(mode is NoneAddressing),
        ensures
            final(self)@.wf(),
            final(self)@ == spec_sta(old(self)@, *mode),
    {
        proof { reveal(spec_sta); }
        let (address, _) = self.get_operand_address(mode);
        let a = self.register_a;
        self.memory_write(address, a);
    }

    pub fn stx(&mut self, mode: &AddressingMode)
        requires
            old(self)@.wf(),
            !(mode is NoneAddressing),
        ensures
            final(self)@.wf(),
            final(self)@ == spec_stx(old(self)@, *mode),
    {
        proof { reveal(spec_stx); }
        let (address, _) = self.get_operand_address(mode);
        let x = self.register_x;
        self.memory_write(address, x);
    }

    pub fn sty(&mut self, mode: &AddressingMode)
        requires
            old(self)@.wf(),
            !(mode is NoneAddressing),
        ensures
            final(self)@.wf(),
            final(self)@ == spec_sty(old(self)@, *mode),
    {
        proof { reveal(spec_sty); }
        let (address, _) = self.get_operand_address(mode);
        let y = self.register_y;
        self.memory_write(address, y);
    }

    pub fn bit(&mut self, mode: &AddressingMode)
        requires
            old(self)@.wf(),
            !(mode is NoneAddressing),
        ensures
            final(self)@.wf(),
            final(self)@ == spec_bit(old(self)@, *mode),
    {
        proof { reveal(spec_bit); }
        let (address, _) = self.get_operand_address(mode);
        let value = self.memory_read(address);
        let and = self.register_a & value;
        if and == 0 {
            self.register_p.zero = true;
        } else {
            self.register_p.zero = false;
        }
        self.register_p.negative = value >= 128;
        self.register_p.overflow = value / 64 % 2 == 1;
    }

    #[verifier::rlimit(100)]
    fn compare(&mut self, mode: &AddressingMode, compare_with: u8)
        requires
            old(self)@.wf(),
            !(mode is NoneAddressing),
        ensures
            final(self)@.wf(),
            final(self)@ == spec_compare(old(self)@, *mode, compare_with),
    {
        proof { reveal(spec_compare); }
        let (address, page_crossed) = self.get_operand_address(mode);
        let data = self.memory_read(address);
        if data <= compare_with {
            self.register_p.carry = true;
        } else {
            self.register_p.carry = false;
        }
        self.update_zero_and_negative_flags(compare_with.wrapping_sub(data));
        if page_crossed {
            self.bus.tick(1);
        }
    }

    pub fn cmp(&mut self, mode: &AddressingMode)
        requires
            old(self)@.wf(),
            !(mode is NoneAddressing),
        ensures
            final(self)@.wf(),
            final(self)@.wf(),
            final(self)@ == spec_compare(old(self)@, *mode, old(self)@.a),
    {
        let a = self.register_a;
        self.compare(mode, a);
    }

    pub fn cpx(&mut self, mode: &AddressingMode)
        requires
            old(self)@.wf(),
            !(mode is NoneAddressing),
        ensures
            final(self)@.wf(),
            final(self)@.wf(),
            final(self)@ == spec_compare(old(self)@, *mode, old(self)@.x),
    {
        let x = self.register_x;
        self.compare(mode, x);
    }

    pub fn cpy(&mut self, mode: &AddressingMode)
        requires
            old(self)@.wf(),
            !(mode is NoneAddressing),
        ensures
            final(self)@.wf(),
            final(self)@.wf(),
            final(self)@ == spec_compare(old(self)@, *mode, old(self)@.y),
    {
        let y = self.register_y;
        self.compare(mode, y);
    }

    fn branch(&mut self, condition: bool)
        requires
            old(self)@.wf(),
        ensures
            final(self)@.wf(),
            final(self)@ == spec_branch(old(self)@, condition),
    {
        proof { reveal(spec_branch); }
        if condition {
            self.bus.tick(1);
            let pc = self.register_pc;
            let jump = self.memory_read(pc);
            let offset: u16 = if jump < 128 {
                jump as u16
            } else {
                jump as u16 + 0xFF00
            };
            let jump_addr = self.register_pc.wrapping_add(1).wrapping_add(offset);
            if page_cross(self.register_pc.wrapping_add(1), jump_addr) {
                self.bus.tick(1);
            }
            self.register_pc = jump_addr;
        }
    }

    pub fn bcc(&mut self)
        requires
            old(self)@.wf(),
        ensures
            final(self)@.wf(),
            final(self)@.wf(),
            final(self)@ == spec_branch(old(self)@, !old(self)@.p.carry),
    {
        let c = self.register_p.carry;
        self.branch(!c);
    }

    pub fn bcs(&mut self)
        requires
            old(self)@.wf(),
        ensures
            final(self)@.wf(),
            final(self)@.wf(),
            final(self)@ == spec_branch(old(self)@, old(self)@.p.carry),
    {
        let c = self.register_p.carry;
        self.branch(c);
    }

    pub fn beq(&mut self)
        requires
            old(self)@.wf(),
        ensures
            final(self)@.wf(),
            final(self)@.wf(),
            final(self)@ == spec_branch(old(self)@, old(self)@.p.zero),
    {
        let z = self.register_p.zero;
        self.branch(z);
    }

    pub fn bmi(&mut self)
        requires
            old(self)@.wf(),
        ensures
            final(self)@.wf(),
            final(self)@.wf(),
            final(self)@ == spec_branch(old(self)@, old(self)@.p.negative),
    {
        let n = self.register_p.negative;
        self.branch(n);
    }

    pub fn bne(&mut self)
        requires
            old(self)@.wf(),
        ensures
            final(self)@.wf(),
            final(self)@.wf(),
            final(self)@ == spec_branch(old(self)@, !old(self)@.p.zero),
    {
        let z = self.register_p.zero;
        self.branch(!z);
    }

    pub fn bpl(&mut self)
        requires
            old(self)@.wf(),
        ensures
            final(self)@.wf(),
            final(self)@.wf(),
            final(self)@ == spec_branch(old(self)@, !old(self)@.p.negative),
    {
        let n = self.register_p.negative;
        self.branch(!n);
    }

    pub fn bvc(&mut self)
        requires
            old(self)@.wf(),
        ensures
            final(self)@.wf(),
            final(self)@.wf(),
            final(self)@ == spec_branch(old(self)@, !old(self)@.p.overflow),
    {
        let v = self.register_p.overflow;
        self.branch(!v);
    }

    pub fn bvs(&mut self)
        requires
            old(self)@.wf(),
        ensures
            final(self)@.wf(),
            final(self)@.wf(),
            final(self)@ == spec_branch(old(self)@, old(self)@.p.overflow),
    {
        let v = self.register_p.overflow;
        self.branch(v);
    }

    pub fn clc(&mut self)
        ensures
            final(self)@.bus == old(self)@.bus,
            final(self)@ == (CpuView { p: CpuFlags { carry: false, ..old(self)@.p }, ..old(self)@ }),
    {
        self.clear_carry_flag();
    }

    pub fn cld(&mut self)
        ensures
            final(self)@.bus == old(self)@.bus,
            final(self)@ == (CpuView {
                p: CpuFlags { decimal_mode: false, ..old(self)@.p },
                ..old(self)@
            }),
    {
        self.register_p.decimal_mode = false;
    }

    pub fn cli(&mut self)
        ensures
            final(self)@.bus == old(self)@.bus,
            final(self)@ == (CpuView {
                p: CpuFlags { interrupt_disable: false, ..old(self)@.p },
                ..old(self)@
            }),
    {
        self.register_p.interrupt_disable = false;
    }

    pub fn clv(&mut self)
        ensures
            final(self)@.bus == old(self)@.bus,
            final(self)@ == (CpuView {
                p: CpuFlags { overflow: false, ..old(self)@.p },
                ..old(self)@
            }),
    {
        self.register_p.overflow = false;
    }

    pub fn sec(&mut self)
        ensures
            final(self)@.bus == old(self)@.bus,
            final(self)@ == (CpuView { p: CpuFlags { carry: true, ..old(self)@.p }, ..old(self)@ }),
    {
        self.set_carry_flag();
    }

    pub fn sed(&mut self)
        ensures
            final(self)@.bus == old(self)@.bus,
            final(self)@ == (CpuView {
                p: CpuFlags { decimal_mode: true, ..old(self)@.p },
                ..old(self)@
            }),
    {
        self.register_p.decimal_mode = true;
    }

    pub fn sei(&mut self)
        ensures
            final(self)@.bus == old(self)@.bus,
            final(self)@ == (CpuView {
                p: CpuFlags { interrupt_disable: true, ..old(self)@.p },
                ..old(self)@
            }),
    {
        self.register_p.interrupt_disable = true;
    }

    pub fn tax(&mut self)
        ensures
            final(self)@.bus == old(self)@.bus,
            final(self)@ == spec_tax(old(self)@),
    {
        proof { reveal(spec_tax); }
        self.register_x = self.register_a;
        let x = self.register_x;
        self.update_zero_and_negative_flags(x);
    }

    pub fn tay(&mut self)
        ensures
            final(self)@.bus == old(self)@.bus,
            final(self)@ == spec_tay(old(self)@),
    {
        proof { reveal(spec_tay); }
        self.register_y = self.register_a;
        let y = self.register_y;
        self.update_zero_and_negative_flags(y);
    }

    pub fn tsx(&mut self)
        ensures
            final(self)@.bus == old(self)@.bus,
            final(self)@ == spec_tsx(old(self)@),
    {
        proof { reveal(spec_tsx); }
        self.register_x = self.register_sp;
        let x = self.register_x;
        self.update_zero_and_negative_flags(x);
    }

    pub fn txa(&mut self)
        ensures
            final(self)@.bus == old(self)@.bus,
            final(self)@ == spec_txa(old(self)@),
    {
        proof { reveal(spec_txa); }
        self.register_a = self.register_x;
        let a = self.register_a;
        self.update_zero_and_negative_flags(a);
    }

    pub fn txs(&mut self)
        ensures
            final(self)@.bus == old(self)@.bus,
            final(self)@ == spec_txs(old(self)@),
    {
        proof { reveal(spec_txs); }
        self.register_sp = self.register_x;
    }

    pub fn tya(&mut self)
        ensures
            final(self)@.bus == old(self)@.bus,
            final(self)@ == spec_tya(old(self)@),
    {
        proof { reveal(spec_tya); }
        self.register_a = self.register_y;
        let a = self.register_a;
        self.update_zero_and_negative_flags(a);
    }

    pub fn dex(&mut self)
        ensures
            final(self)@.bus == old(self)@.bus,
            final(self)@ == spec_dex(old(self)@),
    {
        proof { reveal(spec_dex); }
        self.register_x = self.register_x.wrapping_sub(1);
        let x = self.register_x;
        self.update_zero_and_negative_flags(x);
    }

    pub fn dey(&mut self)
        ensures
            final(self)@.bus == old(self)@.bus,
            final(self)@ == spec_dey(old(self)@),
    {
        proof { reveal(spec_dey); }
        self.register_y = self.register_y.wrapping_sub(1);
        let y = self.register_y;
        self.update_zero_and_negative_flags(y);
    }

    pub fn inx(&mut self)
        ensures
            final(self)@.bus == old(self)@.bus,
            final(self)@ == spec_inx(old(self)@),
    {
        proof { reveal(spec_inx); }
        self.register_x = self.register_x.wrapping_add(1);
        let x = self.register_x;
        self.update_zero_and_negative_flags(x);
    }

    pub fn iny(&mut self)
        ensures
            final(self)@.bus == old(self)@.bus,
            final(self)@ == spec_iny(old(self)@),
    {
        proof { reveal(spec_iny); }
        self.register_y = self.register_y.wrapping_add(1);
        let y = self.register_y;
        self.update_zero_and_negative_flags(y);
    }
}


// ---------------------------------------------------------------------------
// Operation semantics: shifts, rotates, memory increments, stack, jumps
// ---------------------------------------------------------------------------

/// Arithmetic shift left in memory: carry from bit 7, the shifted byte is
/// written back, zero/negative follow the result.
#[verifier::opaque]
pub open spec fn spec_asl(s: CpuView, mode: AddressingMode) -> (u8, CpuView) {
    let (address, cross, b1) = spec_resolve(s, mode);
    let (value, b2) = spec_bus_read(b1, address);
    let result = value.wrapping_add(value);
    let b3 = spec_bus_write(b2, address, result);
    (result, CpuView { p: spec_zn(CpuFlags { carry: value >= 128, ..s.p }, result), bus: b3, ..s })
}

/// Arithmetic shift left of the accumulator.
#[verifier::opaque]
pub open spec fn spec_asl_accumulator(s: CpuView) -> CpuView {
    let result = s.a.wrapping_add(s.a);
    spec_set_register_a(CpuView { p: CpuFlags { carry: s.a >= 128, ..s.p }, ..s }, result)
}

/// Logical shift right in memory: carry from bit 0.
#[verifier::opaque]
pub open spec fn spec_lsr(s: CpuView, mode: AddressingMode) -> (u8, CpuView) {
    let (address, cross, b1) = spec_resolve(s, mode);
    let (value, b2) = spec_bus_read(b1, address);
    let result = value / 2;
    let b3 = spec_bus_write(b2, address, result);
    (
        result,
        CpuView { p: spec_zn(CpuFlags { carry: value % 2 == 1, ..s.p }, result), bus: b3, ..s },
    )
}

/// Logical shift right of the accumulator.
#[verifier::opaque]
pub open spec fn spec_lsr_accumulator(s: CpuView) -> CpuView {
    spec_set_register_a(CpuView { p: CpuFlags { carry: s.a % 2 == 1, ..s.p }, ..s }, s.a / 2)
}

/// Rotate left in memory through carry: carry from bit 7 of the operand,
/// zero and negative from the result.
#[verifier::opaque]
pub open spec fn spec_rol(s: CpuView, mode: AddressingMode) -> (u8, CpuView) {
    let (address, cross, b1) = spec_resolve(s, mode);
    let (value, b2) = spec_bus_read(b1, address);
    let result = if s.p.carry {
        (value.wrapping_add(value) + 1) as u8
    } else {
        value.wrapping_add(value)
    };
    let b3 = spec_bus_write(b2, address, result);
    (result, CpuView { p: spec_zn(CpuFlags { carry: value >= 128, ..s.p }, result), bus: b3, ..s })
}

/// Rotate the accumulator left through carry.
#[verifier::opaque]
pub open spec fn spec_rol_accumulator(s: CpuView) -> CpuView {
    let result = if s.p.carry {
        (s.a.wrapping_add(s.a) + 1) as u8
    } else {
        s.a.wrapping_add(s.a)
    };
    spec_set_register_a(CpuView { p: CpuFlags { carry: s.a >= 128, ..s.p }, ..s }, result)
}

/// Rotate right in memory through carry: carry from bit 0 of the operand,
/// zero and negative from the result.
#[verifier::opaque]
pub open spec fn spec_ror(s: CpuView, mode: AddressingMode) -> (u8, CpuView) {
    let (address, cross, b1) = spec_resolve(s, mode);
    let (value, b2) = spec_bus_read(b1, address);
    let result = if s.p.carry {
        (value / 2 + 128) as u8
    } else {
        value / 2
    };
    let b3 = spec_bus_write(b2, address, result);
    (
        result,
        CpuView { p: spec_zn(CpuFlags { carry: value % 2 == 1, ..s.p }, result), bus: b3, ..s },
    )
}

/// Rotate the accumulator right through carry.
#[verifier::opaque]
pub open spec fn spec_ror_accumulator(s: CpuView) -> CpuView {
    let result = if s.p.carry {
        (s.a / 2 + 128) as u8
    } else {
        s.a / 2
    };
    spec_set_register_a(CpuView { p: CpuFlags { carry: s.a % 2 == 1, ..s.p }, ..s }, result)
}

/// Decrement the byte at the resolved address.
#[verifier::opaque]
pub open spec fn spec_dec(s: CpuView, mode: AddressingMode) -> (u8, CpuView) {
    let (address, cross, b1) = spec_resolve(s, mode);
    let (value, b2) = spec_bus_read(b1, address);
    let result = value.wrapping_sub(1);
    let b3 = spec_bus_write(b2, address, result);
    (result, CpuView { p: spec_zn(s.p, result), bus: b3, ..s })
}

/// Increment the byte at the resolved address.
#[verifier::opaque]
pub open spec fn spec_inc(s: CpuView, mode: AddressingMode) -> (u8, CpuView) {
    let (address, cross, b1) = spec_resolve(s, mode);
    let (value, b2) = spec_bus_read(b1, address);
    let result = value.wrapping_add(1);
    let b3 = spec_bus_write(b2, address, result);
    (result, CpuView { p: spec_zn(s.p, result), bus: b3, ..s })
}

/// Push the accumulator.
#[verifier::opaque]
pub open spec fn spec_pha(s: CpuView) -> CpuView {
    spec_stack_push(s, s.a)
}

/// Push the status byte with break and unused forced on.
#[verifier::opaque]
pub open spec fn spec_php(s: CpuView) -> CpuView {
    spec_stack_push(s, spec_flags_bits(CpuFlags { break_command: true, unused: true, ..s.p }))
}

/// Pop into the accumulator, updating zero/negative.
#[verifier::opaque]
pub open spec fn spec_pla(s: CpuView) -> CpuView {
    let (value, s1) = spec_stack_pop(s);
    spec_set_register_a(s1, value)
}

/// Pop the status byte; break comes back cleared and unused set.
#[verifier::opaque]
pub open spec fn spec_plp(s: CpuView) -> CpuView {
    let (value, s1) = spec_stack_pop(s);
    CpuView {
        p: CpuFlags { break_command: false, unused: true, ..spec_flags_from_bits(value) },
        ..s1
    }
}

/// Jump to the two-byte operand.
#[verifier::opaque]
pub open spec fn spec_jmp_absolute(s: CpuView) -> CpuView {
    let (address, b1) = spec_bus_read_u16(s.bus, s.pc);
    CpuView { pc: address, bus: b1, ..s }
}

/// Indirect jump, reproducing the hardware page-boundary quirk: a pointer
/// ending in 0xFF takes its high byte from the start of the same page.
#[verifier::opaque]
pub open spec fn spec_jmp_indirect(s: CpuView) -> CpuView {
    let (memory_address, b1) = spec_bus_read_u16(s.bus, s.pc);
    if memory_address % 256 == 255 {
        let (lo, b2) = spec_bus_read(b1, memory_address);
        let (hi, b3) = spec_bus_read(b2, ((memory_address / 256) * 256) as u16);
        CpuView { pc: (hi * 256 + lo) as u16, bus: b3, ..s }
    } else {
        let (target, b2) = spec_bus_read_u16(b1, memory_address);
        CpuView { pc: target, bus: b2, ..s }
    }
}

/// Jump to subroutine: push the address of the last byte of the call
/// instruction, then jump to the two-byte operand.
#[verifier::opaque]
pub open spec fn spec_jsr(s: CpuView) -> CpuView {
    let s1 = spec_stack_push_u16(s, s.pc.wrapping_add(1));
    let (target, b2) = spec_bus_read_u16(s1.bus, s1.pc);
    CpuView { pc: target, bus: b2, ..s1 }
}

/// Return from subroutine: pop the return address and step past it.
#[verifier::opaque]
pub open spec fn spec_rts(s: CpuView) -> CpuView {
    let (address, s1) = spec_stack_pop_u16(s);
    CpuView { pc: address.wrapping_add(1), ..s1 }
}

/// Return from interrupt: pop the status byte (break cleared, unused set),
/// then pop the program counter.
#[verifier::opaque]
pub open spec fn spec_rti(s: CpuView) -> CpuView {
    let (value, s1) = spec_stack_pop(s);
    let s2 = CpuView {
        p: CpuFlags { break_command: false, unused: true, ..spec_flags_from_bits(value) },
        ..s1
    };
    let (pc2, s3) = spec_stack_pop_u16(s2);
    CpuView { pc: pc2, ..s3 }
}

/// The interrupt sequence: push the program counter (high byte first), push
/// the status byte with break/unused forced per the descriptor's mask, set
/// interrupt-disable, charge the descriptor's cycle cost, and load the
/// program counter from the vector.
#[verifier::opaque]
pub open spec fn spec_interrupt(s: CpuView, interrupt: Interrupt) -> CpuView {
    let s1 = spec_stack_push_u16(s, s.pc);
    let pushed = CpuFlags {
        break_command: interrupt.binary_flag_mask / 16 % 2 == 1,
        unused: interrupt.binary_flag_mask / 32 % 2 == 1,
        ..s1.p
    };
    let s2 = spec_stack_push(s1, spec_flags_bits(pushed));
    let s3 = CpuView { p: CpuFlags { interrupt_disable: true, ..s2.p }, ..s2 };
    let b4 = spec_bus_tick(s3.bus, interrupt.cpu_cycles).1;
    let (pc2, b5) = spec_bus_read_u16(b4, interrupt.vector_address);
    CpuView { pc: pc2, bus: b5, ..s3 }
}

impl CPU {
    pub fn asl_accumulator(&mut self)
        ensures
            final(self)@.bus == old(self)@.bus,
            final(self)@ == spec_asl_accumulator(old(self)@),
    {
        proof { reveal(spec_asl_accumulator); }
        let value = self.register_a;
        if value >= 128 {
            self.set_carry_flag();
        } else {
            self.clear_carry_flag();
        }
        self.set_register_a(value.wrapping_add(value));
    }

    pub fn asl(&mut self, mode: &AddressingMode) -> (r: u8)
        requires
            old(self)@.wf(),
            !(mode is NoneAddressing),
        ensures
            final(self)@.wf(),
            r == spec_asl(old(self)@, *mode).0,
            final(self)@ == spec_asl(old(self)@, *mode).1,
    {
        proof { reveal(spec_asl); }
        let (address, _) = self.get_operand_address(mode);
        let value = self.memory_read(address);
        if value >= 128 {
            self.set_carry_flag();
        } else {
            self.clear_carry_flag();
        }
        let result = value.wrapping_add(value);
        self.memory_write(address, result);
        self.update_zero_and_negative_flags(result);
        result
    }

    pub fn lsr_accumulator(&mut self)
        ensures
            final(self)@.bus == old(self)@.bus,
            final(self)@ == spec_lsr_accumulator(old(self)@),
    {
        proof { reveal(spec_lsr_accumulator); }
        let value = self.register_a;
        if value % 2 == 1 {
            self.set_carry_flag();
        } else {
            self.clear_carry_flag();
        }
        self.set_register_a(value / 2);
    }

    pub fn lsr(&mut self, mode: &AddressingMode) -> (r: u8)
        requires
            old(self)@.wf(),
            !(mode is NoneAddressing),
        ensures
            final(self)@.wf(),
            r == spec_lsr(old(self)@, *mode).0,
            final(self)@ == spec_lsr(old(self)@, *mode).1,
    {
        proof { reveal(spec_lsr); }
        let (address, _) = self.get_operand_address(mode);
        let value = self.memory_read(address);
        if value % 2 == 1 {
            self.set_carry_flag();
        } else {
            self.clear_carry_flag();
        }
        let result = value / 2;
        self.memory_write(address, result);
        self.update_zero_and_negative_flags(result);
        result
    }

    pub fn rol_accumulator(&mut self)
        ensures
            final(self)@.bus == old(self)@.bus,
            final(self)@ == spec_rol_accumulator(old(self)@),
    {
        proof { reveal(spec_rol_accumulator); }
        let value = self.register_a;
        let old_carry = self.register_p.carry;
        if value >= 128 {
            self.set_carry_flag();
        } else {
            self.clear_carry_flag();
        }
        let result = if old_carry {
            value.wrapping_add(value) + 1
        } else {
            value.wrapping_add(value)
        };
        self.set_register_a(result);
    }

    #[verifier::rlimit(100)]
    pub fn rol(&mut self, mode: &AddressingMode) -> (r: u8)
        requires
            old(self)@.wf(),
            !(mode is NoneAddressing),
        ensures
            final(self)@.wf(),
            r == spec_rol(old(self)@, *mode).0,
            final(self)@ == spec_rol(old(self)@, *mode).1,
    {
        proof { reveal(spec_rol); }
        let (address, _) = self.get_operand_address(mode);
        let value = self.memory_read(address);
        let old_carry = self.register_p.carry;
        if value >= 128 {
            self.set_carry_flag();
        } else {
            self.clear_carry_flag();
        }
        let result = if old_carry {
            value.wrapping_add(value) + 1
        } else {
            value.wrapping_add(value)
        };
        self.memory_write(address, result);
        self.update_zero_and_negative_flags(result);
        result
    }

    pub fn ror_accumulator(&mut self)
        ensures
            final(self)@.bus == old(self)@.bus,
            final(self)@ == spec_ror_accumulator(old(self)@),
    {
        proof { reveal(spec_ror_accumulator); }
        let value = self.register_a;
        let old_carry = self.register_p.carry;
        if value % 2 == 1 {
            self.set_carry_flag();
        } else {
            self.clear_carry_flag();
        }
        let result = if old_carry {
            value / 2 + 128
        } else {
            value / 2
        };
        self.set_register_a(result);
    }

    pub fn ror(&mut self, mode: &AddressingMode) -> (r: u8)
        requires
            old(self)@.wf(),
            !(mode is NoneAddressing),
        ensures
            final(self)@.wf(),
            r == spec_ror(old(self)@, *mode).0,
            final(self)@ == spec_ror(old(self)@, *mode).1,
    {
        proof { reveal(spec_ror); }
        let (address, _) = self.get_operand_address(mode);
        let value = self.memory_read(address);
        let old_carry = self.register_p.carry;
        if value % 2 == 1 {
            self.set_carry_flag();
        } else {
            self.clear_carry_flag();
        }
        let result = if old_carry {
            value / 2 + 128
        } else {
            value / 2
        };
        self.memory_write(address, result);
        self.update_zero_and_negative_flags(result);
        result
    }

    pub fn dec(&mut self, mode: &AddressingMode) -> (r: u8)
        requires
            old(self)@.wf(),
            !(mode is NoneAddressing),
        ensures
            final(self)@.wf(),
            r == spec_dec(old(self)@, *mode).0,
            final(self)@ == spec_dec(old(self)@, *mode).1,
    {
        proof { reveal(spec_dec); }
        let (address, _) = self.get_operand_address(mode);
        let value = self.memory_read(address);
        let result = value.wrapping_sub(1);
        self.memory_write(address, result);
        self.update_zero_and_negative_flags(result);
        result
    }

    pub fn inc(&mut self, mode: &AddressingMode) -> (r: u8)
        requires
            old(self)@.wf(),
            !(mode is NoneAddressing),
        ensures
            final(self)@.wf(),
            r == spec_inc(old(self)@, *mode).0,
            final(self)@ == spec_inc(old(self)@, *mode).1,
    {
        proof { reveal(spec_inc); }
        let (address, _) = self.get_operand_address(mode);
        let value = self.memory_read(address);
        let result = value.wrapping_add(1);
        self.memory_write(address, result);
        self.update_zero_and_negative_flags(result);
        result
    }

    pub fn pha(&mut self)
        requires
            old(self)@.wf(),
        ensures
            final(self)@.wf(),
            final(self)@ == spec_pha(old(self)@),
    {
        proof { reveal(spec_pha); }
        let a = self.register_a;
        self.stack_push(a);
    }

    pub fn php(&mut self)
        requires
            old(self)@.wf(),
        ensures
            final(self)@.wf(),
            final(self)@ == spec_php(old(self)@),
    {
        proof { reveal(spec_php); }
        let mut flags = self.register_p;
        flags.break_command = true;
        flags.unused = true;
        let bits = flags.bits();
        self.stack_push(bits);
    }

    pub fn pla(&mut self)
        requires
            old(self)@.wf(),
        ensures
            final(self)@.wf(),
            final(self)@ == spec_pla(old(self)@),
    {
        proof { reveal(spec_pla); }
        let value = self.stack_pop();
        self.set_register_a(value);
    }

    pub fn plp(&mut self)
        requires
            old(self)@.wf(),
        ensures
            final(self)@.wf(),
            final(self)@ == spec_plp(old(self)@),
    {
        proof { reveal(spec_plp); }
        let value = self.stack_pop();
        self.register_p = CpuFlags::from_bits(value);
        self.register_p.break_command = false;
        self.register_p.unused = true;
    }

    pub fn jmp_absolute(&mut self)
        requires
            old(self)@.wf(),
        ensures
            final(self)@.wf(),
            final(self)@ == spec_jmp_absolute(old(self)@),
    {
        proof { reveal(spec_jmp_absolute); }
        let pc = self.register_pc;
        let memory_address = self.memory_read_u16(pc);
        self.register_pc = memory_address;
    }

    pub fn jmp_indirect(&mut self)
        requires
            old(self)@.wf(),
        ensures
            final(self)@.wf(),
            final(self)@ == spec_jmp_indirect(old(self)@),
    {
        proof { reveal(spec_jmp_indirect); }
        let pc = self.register_pc;
        let memory_address = self.memory_read_u16(pc);
        let indirect_reference = if memory_address % 256 == 255 {
            let low = self.memory_read(memory_address);
            let high = self.memory_read((memory_address / 256) * 256);
            (high as u16) * 256 + (low as u16)
        } else {
            self.memory_read_u16(memory_address)
        };
        self.register_pc = indirect_reference;
    }

    pub fn jsr(&mut self)
        requires
            old(self)@.wf(),
        ensures
            final(self)@.wf(),
            final(self)@ == spec_jsr(old(self)@),
    {
        proof { reveal(spec_jsr); }
        let ret = self.register_pc.wrapping_add(1);
        self.stack_push_u16(ret);
        let pc = self.register_pc;
        let target_address = self.memory_read_u16(pc);
        self.register_pc = target_address;
    }

    pub fn rts(&mut self)
        requires
            old(self)@.wf(),
        ensures
            final(self)@.wf(),
            final(self)@ == spec_rts(old(self)@),
    {
        proof { reveal(spec_rts); }
        let address = self.stack_pop_u16();
        self.register_pc = address.wrapping_add(1);
    }

    pub fn rti(&mut self)
        requires
            old(self)@.wf(),
        ensures
            final(self)@.wf(),
            final(self)@ == spec_rti(old(self)@),
    {
        proof { reveal(spec_rti); }
        let value = self.stack_pop();
        self.register_p = CpuFlags::from_bits(value);
        self.register_p.break_command = false;
        self.register_p.unused = true;
        let pc = self.stack_pop_u16();
        self.register_pc = pc;
    }

    /// Run the interrupt sequence for the given descriptor.
    #[verifier::rlimit(100)]
    #[verifier::spinoff_prover]
    pub fn interrupt(&mut self, interrupt: Interrupt)
        requires
            old(self)@.wf(),
            interrupt.cpu_cycles <= 85,
        ensures
            final(self)@.wf(),
            final(self)@ == spec_interrupt(old(self)@, interrupt),
    {
        proof { reveal(spec_interrupt); }
        let ghost s1 = spec_stack_push_u16(old(self)@, old(self)@.pc);
        let ghost pushed = CpuFlags {
            break_command: interrupt.binary_flag_mask / 16 % 2 == 1,
            unused: interrupt.binary_flag_mask / 32 % 2 == 1,
            ..s1.p
        };
        let ghost s2 = spec_stack_push(s1, spec_flags_bits(pushed));
        let ghost s3 = CpuView { p: CpuFlags { interrupt_disable: true, ..s2.p }, ..s2 };
        let pc = self.register_pc;
        self.stack_push_u16(pc);
        proof { assert(self@ == s1); }
        let mut flag = self.register_p;
        flag.break_command = interrupt.binary_flag_mask / 16 % 2 == 1;
        flag.unused = interrupt.binary_flag_mask / 32 % 2 == 1;
        proof { assert(flag == pushed); }
        let bits = flag.bits();
        self.stack_push(bits);
        proof { assert(self@ == s2); }
        self.register_p.interrupt_disable = true;
        proof { assert(self@ == s3); }
        self.bus.tick(interrupt.cpu_cycles);
        let pc2 = self.memory_read_u16(interrupt.vector_address);
        self.register_pc = pc2;
    }
}


// ---------------------------------------------------------------------------
// Operation semantics: undocumented operations
// ---------------------------------------------------------------------------

/// Decrement memory, then compare the accumulator with the result: the
/// fused operation carries compare semantics, so carry is set exactly when
/// the accumulator is at least the decremented byte.
#[verifier::opaque]
pub open spec fn spec_dcp(s: CpuView, mode: AddressingMode) -> CpuView {
    let (address, cross, b1) = spec_resolve(s, mode);
    let (value, b2) = spec_bus_read(b1, address);
    let result = value.wrapping_sub(1);
    let b3 = spec_bus_write(b2, address, result);
    CpuView {
        p: spec_zn(CpuFlags { carry: result <= s.a, ..s.p }, s.a.wrapping_sub(result)),
        bus: b3,
        ..s
    }
}

/// Rotate memory left, then AND the result into the accumulator.
#[verifier::opaque]
pub open spec fn spec_rla(s: CpuView, mode: AddressingMode) -> CpuView {
    let (value, s1) = spec_rol(s, mode);
    spec_set_register_a(s1, value & s1.a)
}

/// Shift memory left, then OR the result into the accumulator.
#[verifier::opaque]
pub open spec fn spec_slo(s: CpuView, mode: AddressingMode) -> CpuView {
    let (value, s1) = spec_asl(s, mode);
    spec_set_register_a(s1, value | s1.a)
}

/// Shift memory right, then XOR the result into the accumulator.
#[verifier::opaque]
pub open spec fn spec_sre(s: CpuView, mode: AddressingMode) -> CpuView {
    let (value, s1) = spec_lsr(s, mode);
    spec_set_register_a(s1, value ^ s1.a)
}

/// X := (A AND X) - operand, with compare semantics for the carry: set
/// exactly when the operand does not exceed A AND X.
#[verifier::opaque]
pub open spec fn spec_axs(s: CpuView, mode: AddressingMode) -> CpuView {
    let (address, cross, b1) = spec_resolve(s, mode);
    let (value, b2) = spec_bus_read(b1, address);
    let x_and_a = s.x & s.a;
    let result = x_and_a.wrapping_sub(value);
    CpuView {
        x: result,
        p: spec_zn(CpuFlags { carry: value <= x_and_a, ..s.p }, result),
        bus: b2,
        ..s
    }
}

/// AND the operand into the accumulator, rotate the accumulator right, then
/// derive carry from bit 6 and overflow from bits 5 and 6 of the result.
#[verifier::opaque]
pub open spec fn spec_arr(s: CpuView, mode: AddressingMode) -> CpuView {
    let (address, cross, b1) = spec_resolve(s, mode);
    let (value, b2) = spec_bus_read(b1, address);
    let s2 = spec_set_register_a(CpuView { bus: b2, ..s }, value & s.a);
    let s3 = spec_ror_accumulator(s2);
    let result = s3.a;
    CpuView {
        p: spec_zn(
            CpuFlags {
                carry: result / 64 % 2 == 1,
                overflow: (result / 32 % 2) != (result / 64 % 2),
                ..s3.p
            },
            result,
        ),
        ..s3
    }
}

/// The undocumented immediate subtract: identical to subtract-with-carry but
/// without the page-cross cycle.
#[verifier::opaque]
pub open spec fn spec_unofficial_sbc(s: CpuView, mode: AddressingMode) -> CpuView {
    let (address, cross, b1) = spec_resolve(s, mode);
    let (value, b2) = spec_bus_read(b1, address);
    spec_sub_from_a(CpuView { bus: b2, ..s }, value)
}

/// AND the operand into the accumulator and copy negative into carry.
#[verifier::opaque]
pub open spec fn spec_anc(s: CpuView, mode: AddressingMode) -> CpuView {
    let (address, cross, b1) = spec_resolve(s, mode);
    let (value, b2) = spec_bus_read(b1, address);
    let s2 = spec_set_register_a(CpuView { bus: b2, ..s }, value & s.a);
    CpuView { p: CpuFlags { carry: s2.p.negative, ..s2.p }, ..s2 }
}

/// AND the operand into the accumulator, then shift the accumulator right.
#[verifier::opaque]
pub open spec fn spec_alr(s: CpuView, mode: AddressingMode) -> CpuView {
    let (address, cross, b1) = spec_resolve(s, mode);
    let (value, b2) = spec_bus_read(b1, address);
    spec_lsr_accumulator(spec_set_register_a(CpuView { bus: b2, ..s }, value & s.a))
}

/// A read-only no-op: the operand is fetched and dropped; an extra cycle on
/// a page cross.
#[verifier::opaque]
pub open spec fn spec_nop_read(s: CpuView, mode: AddressingMode) -> CpuView {
    let (address, cross, b1) = spec_resolve(s, mode);
    let (value, b2) = spec_bus_read(b1, address);
    let b3 = if cross {
        spec_bus_tick(b2, 1).1
    } else {
        b2
    };
    CpuView { bus: b3, ..s }
}

/// Rotate memory right, then add the result into the accumulator.
#[verifier::opaque]
pub open spec fn spec_rra(s: CpuView, mode: AddressingMode) -> CpuView {
    let (value, s1) = spec_ror(s, mode);
    spec_add_to_a(s1, value)
}

/// Increment memory, then subtract the result from the accumulator.
#[verifier::opaque]
pub open spec fn spec_isb(s: CpuView, mode: AddressingMode) -> CpuView {
    let (value, s1) = spec_inc(s, mode);
    spec_sub_from_a(s1, value)
}

/// Load the accumulator and copy it into X.
#[verifier::opaque]
pub open spec fn spec_lax(s: CpuView, mode: AddressingMode) -> CpuView {
    let (address, cross, b1) = spec_resolve(s, mode);
    let (value, b2) = spec_bus_read(b1, address);
    let s2 = spec_set_register_a(CpuView { bus: b2, ..s }, value);
    CpuView { x: s2.a, ..s2 }
}

/// Store A AND X at the resolved address.
#[verifier::opaque]
pub open spec fn spec_sax(s: CpuView, mode: AddressingMode) -> CpuView {
    let value = s.a & s.x;
    let (address, cross, b1) = spec_resolve(s, mode);
    CpuView { bus: spec_bus_write(b1, address, value), ..s }
}

/// Load the accumulator, then transfer it to X.
#[verifier::opaque]
pub open spec fn spec_lxa(s: CpuView, mode: AddressingMode) -> CpuView {
    spec_tax(spec_lda(s, mode))
}

/// Copy X into the accumulator, then AND the operand into it.
#[verifier::opaque]
pub open spec fn spec_xaa(s: CpuView, mode: AddressingMode) -> CpuView {
    let s1 = CpuView { a: s.x, p: spec_zn(s.p, s.x), ..s };
    let (address, cross, b1) = spec_resolve(s1, mode);
    let (value, b2) = spec_bus_read(b1, address);
    spec_set_register_a(CpuView { bus: b2, ..s1 }, value & s1.a)
}

/// AND the operand with the stack pointer and spread the result over A, X
/// and the stack pointer.
#[verifier::opaque]
pub open spec fn spec_las(s: CpuView, mode: AddressingMode) -> CpuView {
    let (address, cross, b1) = spec_resolve(s, mode);
    let (value, b2) = spec_bus_read(b1, address);
    let result = value & s.sp;
    CpuView { a: result, x: result, sp: result, p: spec_zn(s.p, result), bus: b2, ..s }
}

/// Move A AND X into the stack pointer, then store it ANDed with one more
/// than the high byte of the Y-indexed operand address.
#[verifier::opaque]
pub open spec fn spec_tas(s: CpuView) -> CpuView {
    let sp2 = s.x & s.a;
    let (base, b1) = spec_bus_read_u16(s.bus, s.pc);
    let address = base.wrapping_add(s.y as u16);
    let value = ((address / 256) as u8).wrapping_add(1) & sp2;
    CpuView { sp: sp2, bus: spec_bus_write(b1, address, value), ..s }
}

/// Store A AND X AND the high byte of the Y-indexed zero-page-pointed
/// address.
#[verifier::opaque]
pub open spec fn spec_axa_indirect(s: CpuView) -> CpuView {
    let (position, b1) = spec_bus_read(s.bus, s.pc);
    let (base, b2) = spec_bus_read_u16(b1, position as u16);
    let address = base.wrapping_add(s.y as u16);
    let value = (s.x & s.a) & (address / 256) as u8;
    CpuView { bus: spec_bus_write(b2, address, value), ..s }
}

/// Store A AND X AND the high byte of the Y-indexed absolute address.
#[verifier::opaque]
pub open spec fn spec_axa_absolute(s: CpuView) -> CpuView {
    let (base, b1) = spec_bus_read_u16(s.bus, s.pc);
    let address = base.wrapping_add(s.y as u16);
    let value = (s.x & s.a) & (address / 256) as u8;
    CpuView { bus: spec_bus_write(b1, address, value), ..s }
}

/// Store X ANDed with one more than the high byte of the Y-indexed address.
#[verifier::opaque]
pub open spec fn spec_sxa(s: CpuView) -> CpuView {
    let (base, b1) = spec_bus_read_u16(s.bus, s.pc);
    let address = base.wrapping_add(s.y as u16);
    let value = s.x & ((address / 256) as u8).wrapping_add(1);
    CpuView { bus: spec_bus_write(b1, address, value), ..s }
}

/// Store X ANDed with one more than the high byte of the X-indexed address.
#[verifier::opaque]
pub open spec fn spec_sya(s: CpuView) -> CpuView {
    let (base, b1) = spec_bus_read_u16(s.bus, s.pc);
    let address = base.wrapping_add(s.x as u16);
    let value = s.x & ((address / 256) as u8).wrapping_add(1);
    CpuView { bus: spec_bus_write(b1, address, value), ..s }
}

impl CPU {
    pub fn dcp(&mut self, mode: &AddressingMode)
        requires
            old(self)@.wf(),
            !(mode is NoneAddressing),
        ensures
            final(self)@.wf(),
            final(self)@ == spec_dcp(old(self)@, *mode),
    {
        proof { reveal(spec_dcp); }
        let (address, _) = self.get_operand_address(mode);
        let value = self.memory_read(address);
        let result = value.wrapping_sub(1);
        self.memory_write(address, result);
        self.register_p.carry = result <= self.register_a;
        let a = self.register_a;
        self.update_zero_and_negative_flags(a.wrapping_sub(result));
    }

    pub fn rla(&mut self, mode: &AddressingMode)
        requires
            old(self)@.wf(),
            !(mode is NoneAddressing),
        ensures
            final(self)@.wf(),
            final(self)@ == spec_rla(old(self)@, *mode),
    {
        proof { reveal(spec_rla); }
        let value = self.rol(mode);
        let a = self.register_a;
        self.set_register_a(value & a);
    }

    pub fn slo(&mut self, mode: &AddressingMode)
        requires
            old(self)@.wf(),
            !(mode is NoneAddressing),
        ensures
            final(self)@.wf(),
            final(self)@ == spec_slo(old(self)@, *mode),
    {
        proof { reveal(spec_slo); }
        let value = self.asl(mode);
        let a = self.register_a;
        self.set_register_a(value | a);
    }

    pub fn sre(&mut self, mode: &AddressingMode)
        requires
            old(self)@.wf(),
            !(mode is NoneAddressing),
        ensures
            final(self)@.wf(),
            final(self)@ == spec_sre(old(self)@, *mode),
    {
        proof { reveal(spec_sre); }
        let value = self.lsr(mode);
        let a = self.register_a;
        self.set_register_a(value ^ a);
    }

    pub fn axs(&mut self, mode: &AddressingMode)
        requires
            old(self)@.wf(),
            !(mode is NoneAddressing),
        ensures
            final(self)@.wf(),
            final(self)@ == spec_axs(old(self)@, *mode),
    {
        proof { reveal(spec_axs); }
        let (address, _) = self.get_operand_address(mode);
        let value = self.memory_read(address);
        let x_and_a = self.register_x & self.register_a;
        let result = x_and_a.wrapping_sub(value);
        self.register_p.carry = value <= x_and_a;
        self.update_zero_and_negative_flags(result);
        self.register_x = result;
    }

    #[verifier::rlimit(100)]
    pub fn arr(&mut self, mode: &AddressingMode)
        requires
            old(self)@.wf(),
            !(mode is NoneAddressing),
        ensures
            final(self)@.wf(),
            final(self)@ == spec_arr(old(self)@, *mode),
    {
        proof { reveal(spec_arr); }
        let (address, _) = self.get_operand_address(mode);
        let value = self.memory_read(address);
        let a = self.register_a;
        self.set_register_a(value & a);
        self.ror_accumulator();
        let result = self.register_a;
        let bit_5 = (result / 32) % 2;
        let bit_6 = (result / 64) % 2;
        self.register_p.carry = bit_6 == 1;
        self.register_p.overflow = bit_5 != bit_6;
        self.update_zero_and_negative_flags(result);
    }

    pub fn unofficial_sbc(&mut self, mode: &AddressingMode)
        requires
            old(self)@.wf(),
            !(mode is NoneAddressing),
        ensures
            final(self)@.wf(),
            final(self)@ == spec_unofficial_sbc(old(self)@, *mode),
    {
        proof { reveal(spec_unofficial_sbc); }
        let (address, _) = self.get_operand_address(mode);
        let value = self.memory_read(address);
        self.sub_from_register_a(value);
    }

    pub fn anc(&mut self, mode: &AddressingMode)
        requires
            old(self)@.wf(),
            !(mode is NoneAddressing),
        ensures
            final(self)@.wf(),
            final(self)@ == spec_anc(old(self)@, *mode),
    {
        proof { reveal(spec_anc); }
        let (address, _) = self.get_operand_address(mode);
        let value = self.memory_read(address);
        let a = self.register_a;
        self.set_register_a(value & a);
        let n = self.register_p.negative;
        self.register_p.carry = n;
    }

    pub fn alr(&mut self, mode: &AddressingMode)
        requires
            old(self)@.wf(),
            !(mode is NoneAddressing),
        ensures
            final(self)@.wf(),
            final(self)@ == spec_alr(old(self)@, *mode),
    {
        proof { reveal(spec_alr); }
        let (address, _) = self.get_operand_address(mode);
        let value = self.memory_read(address);
        let a = self.register_a;
        self.set_register_a(value & a);
        self.lsr_accumulator();
    }

    pub fn nop_read(&mut self, mode: &AddressingMode)
        requires
            old(self)@.wf(),
            !(mode is NoneAddressing),
        ensures
            final(self)@.wf(),
            final(self)@ == spec_nop_read(old(self)@, *mode),
    {
        proof { reveal(spec_nop_read); }
        let (address, page_crossed) = self.get_operand_address(mode);
        let _value = self.memory_read(address);
        if page_crossed {
            self.bus.tick(1);
        }
    }

    pub fn rra(&mut self, mode: &AddressingMode)
        requires
            old(self)@.wf(),
            !(mode is NoneAddressing),
        ensures
            final(self)@.wf(),
            final(self)@ == spec_rra(old(self)@, *mode),
    {
        proof { reveal(spec_rra); }
        let value = self.ror(mode);
        self.add_to_register_a(value);
    }

    pub fn isb(&mut self, mode: &AddressingMode)
        requires
            old(self)@.wf(),
            !(mode is NoneAddressing),
        ensures
            final(self)@.wf(),
            final(self)@ == spec_isb(old(self)@, *mode),
    {
        proof { reveal(spec_isb); }
        let value = self.inc(mode);
        self.sub_from_register_a(value);
    }

    pub fn lax(&mut self, mode: &AddressingMode)
        requires
            old(self)@.wf(),
            !(mode is NoneAddressing),
        ensures
            final(self)@.wf(),
            final(self)@ == spec_lax(old(self)@, *mode),
    {
        proof { reveal(spec_lax); }
        let (address, _) = self.get_operand_address(mode);
        let value = self.memory_read(address);
        self.set_register_a(value);
        self.register_x = self.register_a;
    }

    pub fn sax(&mut self, mode: &AddressingMode)
        requires
            old(self)@.wf(),
            !(mode is NoneAddressing),
        ensures
            final(self)@.wf(),
            final(self)@ == spec_sax(old(self)@, *mode),
    {
        proof { reveal(spec_sax); }
        let value = self.register_a & self.register_x;
        let (address, _) = self.get_operand_address(mode);
        self.memory_write(address, value);
    }

    pub fn lxa(&mut self, mode: &AddressingMode)
        requires
            old(self)@.wf(),
            !(mode is NoneAddressing),
        ensures
            final(self)@.wf(),
            final(self)@ == spec_lxa(old(self)@, *mode),
    {
        proof { reveal(spec_lxa); }
        self.lda(mode);
        self.tax();
    }

    pub fn xaa(&mut self, mode: &AddressingMode)
        requires
            old(self)@.wf(),
            !(mode is NoneAddressing),
        ensures
            final(self)@.wf(),
            final(self)@ == spec_xaa(old(self)@, *mode),
    {
        proof { reveal(spec_xaa); }
        self.register_a = self.register_x;
        let a0 = self.register_a;
        self.update_zero_and_negative_flags(a0);
        let (address, _) = self.get_operand_address(mode);
        let value = self.memory_read(address);
        let a = self.register_a;
        self.set_register_a(value & a);
    }

    pub fn las(&mut self, mode: &AddressingMode)
        requires
            old(self)@.wf(),
            !(mode is NoneAddressing),
        ensures
            final(self)@.wf(),
            final(self)@ == spec_las(old(self)@, *mode),
    {
        proof { reveal(spec_las); }
        let (address, _) = self.get_operand_address(mode);
        let value = self.memory_read(address);
        let result = value & self.register_sp;
        self.register_a = result;
        self.register_x = result;
        self.register_sp = result;
        self.update_zero_and_negative_flags(result);
    }

    pub fn tas(&mut self)
        requires
            old(self)@.wf(),
        ensures
            final(self)@.wf(),
            final(self)@ == spec_tas(old(self)@),
    {
        proof { reveal(spec_tas); }
        let x_and_a = self.register_x & self.register_a;
        self.register_sp = x_and_a;
        let pc = self.register_pc;
        let base = self.memory_read_u16(pc);
        let address = base.wrapping_add(self.register_y as u16);
        let high_plus_1 = ((address / 256) as u8).wrapping_add(1);
        let value = high_plus_1 & self.register_sp;
        self.memory_write(address, value);
    }

    pub fn axa_indirect(&mut self)
        requires
            old(self)@.wf(),
        ensures
            final(self)@.wf(),
            final(self)@ == spec_axa_indirect(old(self)@),
    {
        proof { reveal(spec_axa_indirect); }
        let pc = self.register_pc;
        let position = self.memory_read(pc);
        let base = self.memory_read_u16(position as u16);
        let address = base.wrapping_add(self.register_y as u16);
        let x_and_a = self.register_x & self.register_a;
        let high = (address / 256) as u8;
        let value = x_and_a & high;
        self.memory_write(address, value);
    }

    pub fn axa_absolute(&mut self)
        requires
            old(self)@.wf(),
        ensures
            final(self)@.wf(),
            final(self)@ == spec_axa_absolute(old(self)@),
    {
        proof { reveal(spec_axa_absolute); }
        let pc = self.register_pc;
        let base = self.memory_read_u16(pc);
        let address = base.wrapping_add(self.register_y as u16);
        let x_and_a = self.register_x & self.register_a;
        let high = (address / 256) as u8;
        let value = x_and_a & high;
        self.memory_write(address, value);
    }

    pub fn sxa(&mut self)
        requires
            old(self)@.wf(),
        ensures
            final(self)@.wf(),
            final(self)@ == spec_sxa(old(self)@),
    {
        proof { reveal(spec_sxa); }
        let pc = self.register_pc;
        let base = self.memory_read_u16(pc);
        let address = base.wrapping_add(self.register_y as u16);
        let high_plus_1 = ((address / 256) as u8).wrapping_add(1);
        let value = self.register_x & high_plus_1;
        self.memory_write(address, value);
    }

    pub fn sya(&mut self)
        requires
            old(self)@.wf(),
        ensures
            final(self)@.wf(),
            final(self)@ == spec_sya(old(self)@),
    {
        proof { reveal(spec_sya); }
        let pc = self.register_pc;
        let base = self.memory_read_u16(pc);
        let address = base.wrapping_add(self.register_x as u16);
        let high_plus_1 = ((address / 256) as u8).wrapping_add(1);
        let value = self.register_x & high_plus_1;
        self.memory_write(address, value);
    }
}


// ---------------------------------------------------------------------------
// Reset, program loading and the fetch-decode-execute loop
// ---------------------------------------------------------------------------

/// A reset: registers and flags cleared (interrupt-disable and the unused
/// bit set), stack pointer at its reset value, and the program counter
/// loaded from the reset vector.
pub open spec fn spec_reset(s: CpuView) -> CpuView {
    let (pc2, b2) = spec_bus_read_u16(s.bus, RESET_VECTOR);
    CpuView {
        a: 0,
        x: 0,
        y: 0,
        sp: STACK_RESET,
        p: spec_flags_from_bits(0b100100),
        pc: pc2,
        bus: b2,
    }
}

/// One iteration of the driving loop: consume a pending interrupt and run
/// its sequence, fetch the opcode byte at the program counter, advance the
/// counter, and dispatch. Returns whether the program ends.
pub open spec fn spec_step(s: CpuView) -> (bool, CpuView) {
    let (nmi, p2) = spec_ppu_poll(s.bus.ppu);
    let s1 = CpuView { bus: BusView { ppu: p2, ..s.bus }, ..s };
    let s2 = if nmi is Some {
        spec_interrupt(s1, spec_nmi_interrupt())
    } else {
        s1
    };
    let (code, b3) = spec_bus_read(s2.bus, s2.pc);
    let s3 = CpuView { pc: s2.pc.wrapping_add(1), bus: b3, ..s2 };
    spec_interpret(s3, code)
}

/// The driving loop as a function: iterate `spec_step` until the halt
/// opcode retires or the fuel runs out.
pub open spec fn spec_run(s: CpuView, fuel: nat) -> CpuView
    decreases fuel,
{
    if fuel == 0 {
        s
    } else {
        let (halted, s2) = spec_step(s);
        if halted {
            s2
        } else {
            spec_run(s2, (fuel - 1) as nat)
        }
    }
}

/// The program-load window of RAM overwritten with the program bytes.
pub open spec fn spec_load_ram(ram: Seq<u8>, program: Seq<u8>) -> Seq<u8> {
    Seq::new(
        ram.len(),
        |k: int|
            if PROGRAM_LOAD_ADDRESS <= k < PROGRAM_LOAD_ADDRESS + program.len() {
                program[k - PROGRAM_LOAD_ADDRESS]
            } else {
                ram[k]
            },
    )
}

/// Loading a program: only the load window of RAM and the open-bus latch
/// (left holding the last byte written) change.
pub open spec fn spec_load(s: CpuView, program: Seq<u8>) -> CpuView {
    CpuView {
        bus: BusView {
            ram: spec_load_ram(s.bus.ram, program),
            latch: if program.len() > 0 {
                program.last()
            } else {
                s.bus.latch
            },
            ..s.bus
        },
        ..s
    }
}

/// An observation hook run synchronously after every retired instruction;
/// it may inspect and alter the processor but must leave it well-formed.
pub trait RunHook {
    fn after_instruction(&mut self, cpu: &mut CPU)
        requires
            old(cpu)@.wf(),
        ensures
            final(cpu)@.wf(),
    ;
}

impl CPU {
    /// Copy a program into the fixed load window of internal RAM. The window
    /// is 0x200 bytes wide, so no more than that can be loaded.
    pub fn load(&mut self, program: Vec<u8>)
        requires
            old(self)@.wf(),
            program@.len() <= 0x200,
        ensures
            final(self)@.wf(),
            final(self)@ == spec_load(old(self)@, program@),
    {
        let mut i: usize = 0;
        while i < program.len()
            invariant
                self@.wf(),
                i <= program@.len(),
                program@.len() <= 0x200,
                forall|j: int|
                    0 <= j < i ==> self@.bus.ram[PROGRAM_LOAD_ADDRESS + j] == program@[j],
                forall|k: int|
                    0 <= k < 2048 && !(PROGRAM_LOAD_ADDRESS <= k < PROGRAM_LOAD_ADDRESS + i)
                        ==> self@.bus.ram[k] == old(self)@.bus.ram[k],
                self@.bus.ppu == old(self)@.bus.ppu,
                self@.bus.prg == old(self)@.bus.prg,
                i > 0 ==> self@.bus.latch == program@[i - 1],
                i == 0 ==> self@.bus == old(self)@.bus,
                self@.a == old(self)@.a,
                self@.x == old(self)@.x,
                self@.y == old(self)@.y,
                self@.p == old(self)@.p,
                self@.pc == old(self)@.pc,
                self@.sp == old(self)@.sp,
            decreases program@.len() - i,
        {
            proof {
                reveal(crate::components::bus::spec_bus_write);
            }
            let address: u16 = PROGRAM_LOAD_ADDRESS + i as u16;
            let value = program[i];
            self.memory_write(address, value);
            i = i + 1;
        }
        proof {
            assert forall|k: int| 0 <= k < self@.bus.ram.len() implies self@.bus.ram[k]
                == spec_load_ram(old(self)@.bus.ram, program@)[k] by {
                if PROGRAM_LOAD_ADDRESS <= k < PROGRAM_LOAD_ADDRESS + program@.len() {
                    assert(self@.bus.ram[PROGRAM_LOAD_ADDRESS + (k - PROGRAM_LOAD_ADDRESS)]
                        == program@[k - PROGRAM_LOAD_ADDRESS]);
                }
            }
            assert(self@.bus.ram =~= spec_load_ram(old(self)@.bus.ram, program@));
            assert(self@.bus =~= spec_load(old(self)@, program@).bus);
            assert(self@ =~= spec_load(old(self)@, program@));
        }
    }

    /// Zero the registers and flags, restore the stack pointer, and load the
    /// program counter from the reset vector.
    pub fn reset(&mut self)
        requires
            old(self)@.wf(),
        ensures
            final(self)@.wf(),
            final(self)@ == spec_reset(old(self)@),
    {
        self.register_a = 0;
        self.register_x = 0;
        self.register_y = 0;
        self.register_sp = STACK_RESET;
        self.register_p = CpuFlags::from_bits(0b100100);
        self.register_pc = self.memory_read_u16(RESET_VECTOR);
    }

    /// One iteration of the driving loop; returns whether the program ends.
    pub fn step(&mut self) -> (halted: bool)
        requires
            old(self)@.wf(),
        ensures
            final(self)@.wf(),
            halted == spec_step(old(self)@).0,
            final(self)@ == spec_step(old(self)@).1,
    {
        if let Some(_nmi) = self.bus.poll_nmi_status() {
            self.interrupt(Interrupt::nmi());
        }
        let pc = self.register_pc;
        let code = self.memory_read(pc);
        self.register_pc = self.register_pc.wrapping_add(1);
        let assembler = Assembler::new();
        assembler.interpret(self, code)
    }

    /// Execute until the reserved halt opcode is retired: the machine ends
    /// in the state `spec_run` reaches by iterating `spec_step`. The loop
    /// carries a step budget of two to the sixty-fourth so the verifier
    /// sees it terminate; no real program comes near it.
    pub fn run(&mut self)
        requires
            old(self)@.wf(),
        ensures
            final(self)@.wf(),
            final(self)@ == spec_run(old(self)@, RUN_BUDGET as nat),
    {
        let mut budget: u64 = RUN_BUDGET;
        let mut halted = false;
        while !halted && budget > 0
            invariant
                self@.wf(),
                !halted ==> spec_run(old(self)@, RUN_BUDGET as nat) == spec_run(
                    self@,
                    budget as nat,
                ),
                halted ==> spec_run(old(self)@, RUN_BUDGET as nat) == self@,
            decreases budget,
        {
            let ghost pre = self@;
            let ghost fuel = budget as nat;
            halted = self.step();
            proof {
                assert(spec_run(pre, fuel) == (if spec_step(pre).0 {
                    spec_step(pre).1
                } else {
                    spec_run(spec_step(pre).1, (fuel - 1) as nat)
                }));
            }
            budget = budget - 1;
        }
    }

    /// Execute until the halt opcode, running the hook synchronously after
    /// every retired instruction; the loop carries the same step budget as
    /// `run`.
    pub fn run_with_callback<H: RunHook>(&mut self, callback: &mut H)
        requires
            old(self)@.wf(),
        ensures
            final(self)@.wf(),
    {
        let mut budget: u64 = RUN_BUDGET;
        let mut halted = false;
        while !halted && budget > 0
            invariant
                self@.wf(),
            decreases budget,
        {
            halted = self.step();
            if !halted {
                callback.after_instruction(self);
            }
            budget = budget - 1;
        }
    }

    /// Load a program into the fixed window, reset, point the program
    /// counter at the window, and run to the halt opcode: the machine ends
    /// where `spec_run` takes the loaded, reset, window-pointed state.
    pub fn load_and_run(&mut self, program: Vec<u8>)
        requires
            old(self)@.wf(),
            program@.len() <= 0x200,
        ensures
            final(self)@.wf(),
            final(self)@ == spec_run(
                CpuView {
                    pc: PROGRAM_LOAD_ADDRESS,
                    ..spec_reset(spec_load(old(self)@, program@))
                },
                RUN_BUDGET as nat,
            ),
    {
        self.load(program);
        self.reset();
        self.register_pc = PROGRAM_LOAD_ADDRESS;
        self.run()
    }
}

// ---------------------------------------------------------------------------
// Branch cost law
// ---------------------------------------------------------------------------

/// The cycles a branch charges beyond its base cost: none when untaken, one
/// when taken within the page, two when taken across a page boundary.
pub open spec fn spec_branch_extra_cycles(s: CpuView, condition: bool) -> int {
    if !condition {
        0
    } else {
        let b1 = spec_bus_tick(s.bus, 1).1;
        let (jump, b2) = spec_bus_read(b1, s.pc);
        let target = s.pc.wrapping_add(1).wrapping_add(spec_sign_extend(jump));
        if spec_page_cross(s.pc.wrapping_add(1), target) {
            2
        } else {
            1
        }
    }
}

/// Branch cost: an untaken branch leaves the machine untouched beyond the
/// base cycles the dispatcher charges; a taken branch charges exactly one
/// extra cycle, and one more when the target's page differs from the page of
/// the address after the displacement byte. Together with the base cost
/// charged when the instruction is closed out, a branch costs base, base
/// plus one, or base plus two cycles.
pub proof fn lemma_branch_cycle_cost(s: CpuView, condition: bool)
    ensures
        !condition ==> spec_branch_extra_cycles(s, condition) == 0 && spec_branch(s, condition)
            == s,
        condition ==> ({
            let b1 = spec_bus_tick(s.bus, 1).1;
            let (jump, b2) = spec_bus_read(b1, s.pc);
            let target = s.pc.wrapping_add(1).wrapping_add(spec_sign_extend(jump));
            let cross = spec_page_cross(s.pc.wrapping_add(1), target);
            &&& spec_branch_extra_cycles(s, condition) == (if cross {
                2int
            } else {
                1int
            })
            &&& spec_branch(s, condition).pc == target
            &&& spec_branch(s, condition).bus == (if cross {
                spec_bus_tick(b2, 1).1
            } else {
                b2
            })
            &&& spec_branch(s, condition).a == s.a
            &&& spec_branch(s, condition).p == s.p
        }),
{
    reveal(spec_branch);
}

} // verus!
