//! State model of an 8-bit CPU emulator: the register file and the flat
//! 16-bit memory bus that an execution engine operates on.

pub mod bytes;
pub mod cpu;
pub mod mmu;
