//! The RISC-P core: instruction encoding, the CPU, and a test program.
pub mod inst;
pub mod cpu;

use vstd::prelude::*;
use crate::word::Word;
use crate::mmio::{HALT_CONTROL, SPR_CONTROL, SPR_X, SPR_Y};
use crate::riscp::inst::{DecodedInst, encode_spec};

verus! {

/// Length of the test ROM: the whole Cart ROM region.
pub const TEST_ROM_LEN: usize = 0xB7C0;

/// Word `i` of the test ROM: a jump over a data section, a loop that moves a
/// sprite one pixel per frame and halts until the next frame, a handler that
/// returns at once, and the interrupt dispatch sequence in the last three words.
pub open spec fn test_gfx_word(i: int) -> Word {
    if i == 0 {
        Word(encode_spec(DecodedInst::Lli { r_a: 1, imm: Word(8) }))  // r1 = 8
    } else if i == 1 {
        Word(encode_spec(DecodedInst::Jalr { r_a: 0, r_b: 1, imm: Word(0) }))  // jump to addr 8
    } else if i == 2 {
        Word(20)  // initial x
    } else if i == 3 {
        Word(30)  // initial y
    } else if i == 4 {
        Word(SPR_X)
    } else if i == 5 {
        Word(SPR_Y)
    } else if i == 6 {
        Word(SPR_CONTROL)
    } else if i == 7 {
        Word(HALT_CONTROL)
    } else if i == 8 {
        Word(encode_spec(DecodedInst::Lw { r_a: 1, r_b: 0, imm: Word(2) }))  // r1 = x
    } else if i == 9 {
        Word(encode_spec(DecodedInst::Lw { r_a: 2, r_b: 0, imm: Word(3) }))  // r2 = y
    } else if i == 10 {
        Word(encode_spec(DecodedInst::Lli { r_a: 6, imm: Word(1) }))  // r6 = draw bit
    } else if i == 11 {
        Word(encode_spec(DecodedInst::Lli { r_a: 7, imm: Word(1) }))  // r7 = increment
    } else if i == 12 {
        Word(encode_spec(DecodedInst::Lli { r_a: 8, imm: Word(13) }))  // r8 = loop start
    } else if i == 13 {
        Word(encode_spec(DecodedInst::Lw { r_a: 3, r_b: 0, imm: Word(4) }))  // r3 = SPR_X addr
    } else if i == 14 {
        Word(encode_spec(DecodedInst::Lw { r_a: 4, r_b: 0, imm: Word(5) }))  // r4 = SPR_Y addr
    } else if i == 15 {
        Word(encode_spec(DecodedInst::Lw { r_a: 5, r_b: 0, imm: Word(6) }))  // r5 = SPR_CONTROL addr
    } else if i == 16 {
        Word(encode_spec(DecodedInst::Sw { r_a: 1, r_b: 3, imm: Word(0) }))  // mem[SPR_X] = r1
    } else if i == 17 {
        Word(encode_spec(DecodedInst::Sw { r_a: 2, r_b: 4, imm: Word(0) }))  // mem[SPR_Y] = r2
    } else if i == 18 {
        Word(encode_spec(DecodedInst::Sw { r_a: 6, r_b: 5, imm: Word(0) }))  // mem[SPR_CONTROL] = 1
    } else if i == 19 {
        Word(encode_spec(DecodedInst::Add { r_a: 1, r_b: 1, r_c: 7 }))  // r1++
    } else if i == 20 {
        Word(encode_spec(DecodedInst::Add { r_a: 2, r_b: 2, r_c: 7 }))  // r2++
    } else if i == 21 {
        Word(encode_spec(DecodedInst::Lw { r_a: 9, r_b: 0, imm: Word(7) }))  // r9 = HALT_CONTROL addr
    } else if i == 22 {
        Word(encode_spec(DecodedInst::Sw { r_a: 7, r_b: 9, imm: Word(0) }))  // mem[HALT_CONTROL] = 1
    } else if i == 23 {
        Word(encode_spec(DecodedInst::Jalr { r_a: 0, r_b: 8, imm: Word(0) }))  // jump to loop start
    } else if i == 24 {
        Word(encode_spec(DecodedInst::Retl))  // interrupt handler: return at once
    } else if i == 0xB7BD {
        Word(encode_spec(DecodedInst::Lui { r_a: 15, imm: Word(0) }))
    } else if i == 0xB7BE {
        Word(encode_spec(DecodedInst::Lli { r_a: 15, imm: Word(24) }))
    } else if i == 0xB7BF {
        Word(encode_spec(DecodedInst::Jalr { r_a: 0, r_b: 15, imm: Word(0) }))
    } else {
        Word(0)
    }
}

/// Builds a test ROM padded to 0xB7C0 words. The last 3 words (0xB7BD–0xB7BF)
/// hold the interrupt dispatch sequence; the real handler is at index 24 and
/// ends with RETL.
pub fn test_gfx_prgm() -> (rom: Vec<Word>)
    ensures
        rom@.len() == TEST_ROM_LEN,
        forall|i: int| 0 <= i < TEST_ROM_LEN ==> rom@[i] == test_gfx_word(i),
{
    // Interrupt dispatch at 0xB7BD: LUI r15, 0x00 / LLI r15, 24 / JALR r0, r15
    let dispatch_lui = DecodedInst::Lui { r_a: 15, imm: Word(0) }.encode().to_word();
    let dispatch_lli = DecodedInst::Lli { r_a: 15, imm: Word(24) }.encode().to_word();
    let dispatch_jalr = DecodedInst::Jalr { r_a: 0, r_b: 15, imm: Word(0) }.encode().to_word();

    let mut rom: Vec<Word> = Vec::with_capacity(TEST_ROM_LEN);
    let mut k: usize = 0;
    while k < TEST_ROM_LEN
        invariant
            k <= TEST_ROM_LEN,
            rom@.len() == k,
            forall|j: int| 0 <= j < k ==> rom@[j] == Word(0),
        decreases TEST_ROM_LEN - k,
    {
        rom.push(Word(0));
        k = k + 1;
    }

    // --- 00: jump over data section to program start ---
    rom.set(0, DecodedInst::Lli { r_a: 1, imm: Word(8) }.encode().to_word());
    rom.set(1, DecodedInst::Jalr { r_a: 0, r_b: 1, imm: Word(0) }.encode().to_word());

    // --- 02–07: data section ---
    rom.set(2, Word(20));
    rom.set(3, Word(30));
    rom.set(4, Word(SPR_X));
    rom.set(5, Word(SPR_Y));
    rom.set(6, Word(SPR_CONTROL));
    rom.set(7, Word(HALT_CONTROL));

    // --- 08–12: one-time init ---
    rom.set(8, DecodedInst::Lw { r_a: 1, r_b: 0, imm: Word(2) }.encode().to_word());
    rom.set(9, DecodedInst::Lw { r_a: 2, r_b: 0, imm: Word(3) }.encode().to_word());
    rom.set(10, DecodedInst::Lli { r_a: 6, imm: Word(1) }.encode().to_word());
    rom.set(11, DecodedInst::Lli { r_a: 7, imm: Word(1) }.encode().to_word());
    rom.set(12, DecodedInst::Lli { r_a: 8, imm: Word(13) }.encode().to_word());

    // --- 13–23: main loop ---
    rom.set(13, DecodedInst::Lw { r_a: 3, r_b: 0, imm: Word(4) }.encode().to_word());
    rom.set(14, DecodedInst::Lw { r_a: 4, r_b: 0, imm: Word(5) }.encode().to_word());
    rom.set(15, DecodedInst::Lw { r_a: 5, r_b: 0, imm: Word(6) }.encode().to_word());
    rom.set(16, DecodedInst::Sw { r_a: 1, r_b: 3, imm: Word(0) }.encode().to_word());
    rom.set(17, DecodedInst::Sw { r_a: 2, r_b: 4, imm: Word(0) }.encode().to_word());
    rom.set(18, DecodedInst::Sw { r_a: 6, r_b: 5, imm: Word(0) }.encode().to_word());
    rom.set(19, DecodedInst::Add { r_a: 1, r_b: 1, r_c: 7 }.encode().to_word());
    rom.set(20, DecodedInst::Add { r_a: 2, r_b: 2, r_c: 7 }.encode().to_word());
    rom.set(21, DecodedInst::Lw { r_a: 9, r_b: 0, imm: Word(7) }.encode().to_word());
    rom.set(22, DecodedInst::Sw { r_a: 7, r_b: 9, imm: Word(0) }.encode().to_word());
    rom.set(23, DecodedInst::Jalr { r_a: 0, r_b: 8, imm: Word(0) }.encode().to_word());

    // --- 24: interrupt handler (just return) ---
    rom.set(24, DecodedInst::Retl.encode().to_word());

    // --- 0xB7BD–0xB7BF: interrupt dispatch sequence ---
    rom.set(0xB7BD, dispatch_lui);
    rom.set(0xB7BE, dispatch_lli);
    rom.set(0xB7BF, dispatch_jalr);

    assert forall|i: int| 0 <= i < TEST_ROM_LEN implies rom@[i] == test_gfx_word(i) by {}
    rom
}

} // verus!
