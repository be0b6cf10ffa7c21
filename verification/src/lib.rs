//! A verified model of the pip16 fantasy console: the 16-bit machine word,
//! the three banked 64K-word memory spaces, the RISC-P and RiSC-16 cores,
//! and the PPU/APU co-processors stepped once per CPU instruction.

pub mod word;
pub mod mmio;
pub mod memory;
pub mod riscp;
pub mod apu;
pub mod ppu;
pub mod vm;
pub mod risc16;
