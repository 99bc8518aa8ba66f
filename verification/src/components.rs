//! The full core: processor, opcode table, bus and video timing unit.

pub mod assembly;
pub mod bus;
pub mod cartridges;
pub mod cpu;
pub mod ppu;
