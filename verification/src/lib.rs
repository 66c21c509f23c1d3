//! Cycle-level model of the original Game Boy (DMG) hardware: the SM83 CPU,
//! the memory-mapped bus with MBC1/MBC5 cartridge banking, the four-mode
//! picture processor, the four-channel audio unit and the DIV/TIMA timer.
//!
//! Every subsystem is specified by a pure step function over a mathematical
//! view of its state; the executable code is proved to follow that function
//! on every T-cycle.

pub mod memory;
pub mod instruction;
pub mod cpu;
pub mod timer;
pub mod ppu;
pub mod apu;
pub mod emulator;
pub mod laws;
