//! Instruction-execution and video-timing core of a classic 8-bit game
//! console: a 6502-family processor interpreter (documented and undocumented
//! opcodes), a bus that maps the 16-bit address space onto RAM, video-chip
//! register ports and cartridge storage, and a video timing unit that advances
//! in lockstep with processor cycles and raises the non-maskable interrupt.
//!
//! `components` holds the full core; `cpu`, `memory` and `opcodes` hold an
//! earlier, self-contained interpreter without interrupt or video-timing
//! coupling, kept alive for its simpler flat-memory model.

pub mod components;
pub mod cpu;
pub mod memory;
pub mod opcodes;
