//! The RiSC-16 core: eight registers and eight instructions over one memory bank.
pub mod inst;
pub mod cpu;
