//! Core of an 8-bit handheld game console emulator: instruction decoding and
//! execution, the register file with its flag semantics, interrupt dispatch,
//! and the cycle-tick scheduler, together with the memory-mapped peripherals
//! (memory controller, pixel-processing unit, timer) that share the 16-bit
//! address space.

mod bits;
pub mod cpu;
pub mod io;
pub mod memory;
pub mod mmu;
pub mod ppu;
pub mod timer;
