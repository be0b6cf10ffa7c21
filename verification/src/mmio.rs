//! Addresses of the memory-mapped I/O registers (0xFFC0 - 0xFFFF, mirrored
//! in every bank) and the interrupt bit masks.
use vstd::prelude::*;

verus! {

/// First address of the MMIO block.
pub const MMIO_BASE: u16 = 0xFFC0;

pub const SYSTEM_CONTROL: u16 = MMIO_BASE + 0x00;  // BIOS-only
pub const BANK_CONTROL: u16 = MMIO_BASE + 0x01;
pub const INT_ENABLE: u16 = MMIO_BASE + 0x02;
pub const INT_STATUS: u16 = MMIO_BASE + 0x03;  // write 1 to a bit to clear it
pub const DISPLAY_CONTROL: u16 = MMIO_BASE + 0x04;
pub const DISPLAY_VCOUNT: u16 = MMIO_BASE + 0x05;  // read-only
pub const SPR_X: u16 = MMIO_BASE + 0x06;
pub const SPR_Y: u16 = MMIO_BASE + 0x07;
pub const SPR_TILE: u16 = MMIO_BASE + 0x08;
pub const SPR_ATTR: u16 = MMIO_BASE + 0x09;
pub const SPR_CONTROL: u16 = MMIO_BASE + 0x0A;
pub const BG_SCROLL_X: u16 = MMIO_BASE + 0x0B;
pub const BG_SCROLL_Y: u16 = MMIO_BASE + 0x0C;
pub const BG_CONTROL: u16 = MMIO_BASE + 0x0D;
pub const BUTTON_STATE: u16 = MMIO_BASE + 0x0E;  // read-only
pub const APU_CONTROL: u16 = MMIO_BASE + 0x0F;
pub const APU_CH0_FREQ: u16 = MMIO_BASE + 0x10;
pub const APU_CH0_CTRL: u16 = MMIO_BASE + 0x11;
pub const APU_CH1_FREQ: u16 = MMIO_BASE + 0x12;
pub const APU_CH1_CTRL: u16 = MMIO_BASE + 0x13;
pub const APU_CH2_FREQ: u16 = MMIO_BASE + 0x14;
pub const APU_CH2_CTRL: u16 = MMIO_BASE + 0x15;
pub const APU_CH2_ADDR: u16 = MMIO_BASE + 0x16;
pub const APU_CH2_LEN: u16 = MMIO_BASE + 0x17;
pub const APU_CH3_FREQ: u16 = MMIO_BASE + 0x18;
pub const APU_CH3_CTRL: u16 = MMIO_BASE + 0x19;
/// Reserved slot used by the VM to pause the CPU until the next frame.
pub const HALT_CONTROL: u16 = MMIO_BASE + 0x1A;
/// Reserved slot in which the RiSC-16 core saves the interrupted program counter.
pub const INTERRUPT_PROGRAM_COUNTER: u16 = MMIO_BASE + 0x1B;

// Interrupt enable/status bit masks
pub const INT_VBLANK: u16 = 1;
pub const INT_HBLANK: u16 = 2;
pub const INT_PPU_DONE: u16 = 4;
pub const INT_APU_DONE: u16 = 8;
pub const INT_BUTTON: u16 = 16;

/// The register map of MMIO.md: 0xFFC0 System Control through 0xFFD9 APU
/// Channel 3 Control, in the order listed there, and the interrupt bits
/// VBlank, HBlank, PPU Done, APU Done and Button as bits 0-4.
pub proof fn lemma_mmio_map()
    ensures
        SYSTEM_CONTROL == 0xFFC0 && BANK_CONTROL == 0xFFC1 && INT_ENABLE == 0xFFC2 && INT_STATUS
            == 0xFFC3,
        DISPLAY_CONTROL == 0xFFC4 && DISPLAY_VCOUNT == 0xFFC5,
        SPR_X == 0xFFC6 && SPR_Y == 0xFFC7 && SPR_TILE == 0xFFC8 && SPR_ATTR == 0xFFC9
            && SPR_CONTROL == 0xFFCA,
        BG_SCROLL_X == 0xFFCB && BG_SCROLL_Y == 0xFFCC && BG_CONTROL == 0xFFCD,
        BUTTON_STATE == 0xFFCE && APU_CONTROL == 0xFFCF,
        APU_CH0_FREQ == 0xFFD0 && APU_CH0_CTRL == 0xFFD1 && APU_CH1_FREQ == 0xFFD2
            && APU_CH1_CTRL == 0xFFD3,
        APU_CH2_FREQ == 0xFFD4 && APU_CH2_CTRL == 0xFFD5 && APU_CH2_ADDR == 0xFFD6
            && APU_CH2_LEN == 0xFFD7,
        APU_CH3_FREQ == 0xFFD8 && APU_CH3_CTRL == 0xFFD9,
        HALT_CONTROL == 0xFFDA && INTERRUPT_PROGRAM_COUNTER == 0xFFDB,
        INT_VBLANK == 1 && INT_HBLANK == 2 && INT_PPU_DONE == 4 && INT_APU_DONE == 8
            && INT_BUTTON == 16,
{
}

} // verus!
