//! A Game Boy (DMG) core: the memory map with its cartridge mappers, the
//! processor's instruction interpreter with its interrupt model, and the
//! scanline state machine of the pixel unit.

pub mod util;
pub mod rom;
pub mod memory;
pub mod flags;
pub mod instr;
pub mod interrupt;
pub mod cpu;
pub mod step;
pub mod laws;
pub mod frame;
pub mod ppu;
pub mod clock;
