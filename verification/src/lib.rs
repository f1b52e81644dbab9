//! Core of a Game Boy Color style emulator: an 8-bit register file with
//! packed status flags, a 64 KiB banked memory map with echo and unusable
//! regions, the instruction decode/execute engine with exact size and cycle
//! accounting, and prioritized interrupt dispatch.

pub mod cpu;
pub mod instructions;
pub mod interrupt;
pub mod laws;
pub mod memory;
pub mod registers;
pub mod semantics;
