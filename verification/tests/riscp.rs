use pip16::memory::BankedMemory;
use pip16::mmio::{BANK_CONTROL, HALT_CONTROL, SPR_CONTROL, SPR_X, SPR_Y};
use pip16::riscp::cpu::{Reg, CPU, INTERRUPT_VECTOR};
use pip16::riscp::inst::DecodedInst::{Add, Beq, Blt, Bne, Jalr, Lli, Lui, Lw, Mul, Nand, Retl, Shl, Shr, Sub, Sw, Xor};
use pip16::riscp::inst::{DecodedInst, EncodedInst};
use pip16::riscp::{test_gfx_prgm, TEST_ROM_LEN};
use pip16::word::Word;

fn enc(inst: DecodedInst) -> Word {
    inst.encode().to_word()
}

fn dec(w: u16) -> DecodedInst {
    EncodedInst::from(Word(w)).decode()
}

/// Loads `prog` at address 0 and runs `steps` CPU steps.
fn run(prog: &[DecodedInst], steps: usize) -> (CPU, BankedMemory) {
    let words: Vec<Word> = prog.iter().map(|i| enc(*i)).collect();
    let mut mem = BankedMemory::new();
    mem.load_default(&words);
    let mut cpu = CPU::new();
    for _ in 0..steps {
        assert!(cpu.can_step(&mem));
        cpu.step(&mut mem);
    }
    (cpu, mem)
}

#[test]
fn reg_new_load_store() {
    let mut r = Reg::new();
    assert_eq!(r.load(), Word(0));
    r.store(Word(9));
    assert_eq!(r.load(), Word(9));
}

#[test]
fn encode_formats() {
    assert_eq!(enc(DecodedInst::Add { r_a: 1, r_b: 2, r_c: 3 }), Word(0x0123));
    assert_eq!(enc(DecodedInst::Blt { r_a: 0xF, r_b: 0xE, r_c: 0xD }), Word(0xEFED));
    assert_eq!(enc(DecodedInst::Shl { r_a: 1, r_b: 2, imm: Word(3) }), Word(0x5123));
    assert_eq!(enc(DecodedInst::Lui { r_a: 15, imm: Word(0xAB) }), Word(0x7FAB));
    assert_eq!(enc(DecodedInst::Lli { r_a: 1, imm: Word(8) }), Word(0x8108));
    assert_eq!(enc(DecodedInst::Jalr { r_a: 0, r_b: 15, imm: Word(0) }), Word(0xB0F0));
    assert_eq!(enc(DecodedInst::Noop), Word(0));
    assert_eq!(enc(DecodedInst::Retl), Word(0xB001));
}

#[test]
fn encode_does_not_mask_fields() {
    // an out-of-range register spills into the opcode field
    assert_eq!(enc(DecodedInst::Add { r_a: 0x10, r_b: 0, r_c: 0 }), Word(0x1000));
}

#[test]
fn decode_each_opcode() {
    assert_eq!(dec(0x0123), DecodedInst::Add { r_a: 1, r_b: 2, r_c: 3 });
    assert_eq!(dec(0x1123), DecodedInst::Sub { r_a: 1, r_b: 2, r_c: 3 });
    assert_eq!(dec(0x2123), DecodedInst::Mul { r_a: 1, r_b: 2, r_c: 3 });
    assert_eq!(dec(0x3123), DecodedInst::Xor { r_a: 1, r_b: 2, r_c: 3 });
    assert_eq!(dec(0x4123), DecodedInst::Nand { r_a: 1, r_b: 2, r_c: 3 });
    assert_eq!(dec(0x5123), DecodedInst::Shl { r_a: 1, r_b: 2, imm: Word(3) });
    assert_eq!(dec(0x6123), DecodedInst::Shr { r_a: 1, r_b: 2, imm: Word(3) });
    assert_eq!(dec(0x7123), DecodedInst::Lui { r_a: 1, imm: Word(0x23) });
    assert_eq!(dec(0x8123), DecodedInst::Lli { r_a: 1, imm: Word(0x23) });
    assert_eq!(dec(0x9123), DecodedInst::Sw { r_a: 1, r_b: 2, imm: Word(3) });
    assert_eq!(dec(0xA123), DecodedInst::Lw { r_a: 1, r_b: 2, imm: Word(3) });
    assert_eq!(dec(0xB120), DecodedInst::Jalr { r_a: 1, r_b: 2, imm: Word(0) });
    assert_eq!(dec(0xC123), DecodedInst::Beq { r_a: 1, r_b: 2, r_c: 3 });
    assert_eq!(dec(0xD123), DecodedInst::Bne { r_a: 1, r_b: 2, r_c: 3 });
    assert_eq!(dec(0xE123), DecodedInst::Blt { r_a: 1, r_b: 2, r_c: 3 });
}

#[test]
fn decode_pseudo_instructions() {
    assert_eq!(dec(0x0000), DecodedInst::Noop);
    assert!(EncodedInst::from(Word(0)).is_noop());
    assert!(!EncodedInst::from(Word(0x0001)).is_noop());
    assert_eq!(dec(0xB001), DecodedInst::Retl);
    assert_eq!(dec(0xB00F), DecodedInst::Retl);
    // JALR with registers other than r0 keeps its meaning whatever the immediate
    assert_eq!(dec(0xB123), DecodedInst::Jalr { r_a: 1, r_b: 2, imm: Word(3) });
}

#[test]
fn decode_encode_round_trip() {
    let insts = [
        DecodedInst::Add { r_a: 15, r_b: 0, r_c: 7 },
        DecodedInst::Mul { r_a: 3, r_b: 4, r_c: 5 },
        DecodedInst::Shr { r_a: 2, r_b: 9, imm: Word(15) },
        DecodedInst::Lui { r_a: 4, imm: Word(0xFF) },
        DecodedInst::Lli { r_a: 4, imm: Word(0x01) },
        DecodedInst::Sw { r_a: 1, r_b: 2, imm: Word(0) },
        DecodedInst::Jalr { r_a: 0, r_b: 0, imm: Word(0) },
        DecodedInst::Bne { r_a: 8, r_b: 9, r_c: 10 },
        DecodedInst::Noop,
        DecodedInst::Retl,
    ];
    for inst in insts {
        assert_eq!(inst.encode().decode(), inst);
    }
}

#[test]
fn encodedinst_word_conversions() {
    let e = EncodedInst::from(Word(0x1234));
    let w: Word = e.into();
    assert_eq!(w, Word(0x1234));
    assert_eq!(EncodedInst::new(Word(7)).to_word(), Word(7));
}

#[test]
fn cpu_new_state() {
    let cpu = CPU::new();
    assert_eq!(cpu.get_program_counter(), Word(0));
    for r in 0..16u8 {
        assert_eq!(cpu.register(r), Word(0));
    }
    assert!(!cpu.interrupt_pending());
    assert!(!cpu.handling_interrupt());
    assert_eq!(cpu.interrupt_return(), Word(0));
}

#[test]
fn cpu_arithmetic() {
    let prog = [
        Lli { r_a: 1, imm: Word(200) },
        Lli { r_a: 2, imm: Word(100) },
        Add { r_a: 3, r_b: 1, r_c: 2 },
        Sub { r_a: 4, r_b: 2, r_c: 1 },
        Mul { r_a: 5, r_b: 1, r_c: 2 },
        Xor { r_a: 6, r_b: 1, r_c: 2 },
        Nand { r_a: 7, r_b: 1, r_c: 2 },
    ];
    let (cpu, _) = run(&prog, 7);
    assert_eq!(cpu.register(3), Word(300));
    assert_eq!(cpu.register(4), Word(0xFF9C)); // 100 - 200 wraps
    assert_eq!(cpu.register(5), Word(20000));
    assert_eq!(cpu.register(6), Word(200 ^ 100));
    assert_eq!(cpu.register(7), Word(!(200u16 & 100u16)));
    assert_eq!(cpu.get_program_counter(), Word(7));
}

#[test]
fn cpu_shifts_and_immediates() {
    let prog = [
        Lui { r_a: 1, imm: Word(0x12) },
        Lli { r_a: 1, imm: Word(0x34) },
        Shl { r_a: 2, r_b: 1, imm: Word(4) },
        Shr { r_a: 3, r_b: 1, imm: Word(8) },
    ];
    let (cpu, _) = run(&prog, 4);
    assert_eq!(cpu.register(1), Word(0x1234));
    assert_eq!(cpu.register(2), Word(0x2340));
    assert_eq!(cpu.register(3), Word(0x0012));
}

#[test]
fn cpu_mul_wraps() {
    let prog = [
        Lui { r_a: 1, imm: Word(0x01) }, // 0x0100
        Mul { r_a: 2, r_b: 1, r_c: 1 },
    ];
    let (cpu, _) = run(&prog, 2);
    assert_eq!(cpu.register(2), Word(0));
}

#[test]
fn cpu_register_zero_reads_zero() {
    let prog = [
        Lli { r_a: 0, imm: Word(5) },
        Add { r_a: 1, r_b: 0, r_c: 0 },
        Lli { r_a: 2, imm: Word(1) },
        Add { r_a: 3, r_b: 0, r_c: 2 },
    ];
    let (cpu, _) = run(&prog, 4);
    assert_eq!(cpu.register(1), Word(0));
    assert_eq!(cpu.register(3), Word(1));
}

#[test]
fn cpu_store_and_load_through_banks() {
    let prog = [
        Lui { r_a: 1, imm: Word(0xB8) }, // r1 = 0xB800 (Save SRAM)
        Lli { r_a: 2, imm: Word(77) },
        Sw { r_a: 2, r_b: 1, imm: Word(3) }, // default[0xB803] = 77
        Lw { r_a: 3, r_b: 1, imm: Word(3) },
    ];
    let (cpu, mut mem) = run(&prog, 4);
    assert_eq!(cpu.register(3), Word(77));
    assert_eq!(mem.load(Word(0xB803)), Word(77));
    mem.store(Word(BANK_CONTROL), Word(1));
    assert_eq!(mem.load(Word(0xB803)), Word(0));
}

#[test]
fn cpu_load_address_wraps() {
    let prog = [
        Lui { r_a: 1, imm: Word(0xFF) },
        Lli { r_a: 1, imm: Word(0xFF) }, // r1 = 0xFFFF
        Lw { r_a: 2, r_b: 1, imm: Word(1) }, // address 0 holds this program's first word
    ];
    let (cpu, _) = run(&prog, 3);
    assert_eq!(cpu.register(2), Word(0x71FF));
}

#[test]
fn cpu_jalr_links_and_jumps() {
    let prog = [
        Lli { r_a: 1, imm: Word(5) },
        Jalr { r_a: 15, r_b: 1, imm: Word(0) },
    ];
    let (cpu, _) = run(&prog, 2);
    assert_eq!(cpu.register(15), Word(2));
    assert_eq!(cpu.get_program_counter(), Word(5));
}

#[test]
fn cpu_jalr_same_register_jumps_to_link() {
    let prog = [Lli { r_a: 1, imm: Word(9) }, Jalr { r_a: 1, r_b: 1, imm: Word(0) }];
    let (cpu, _) = run(&prog, 2);
    assert_eq!(cpu.register(1), Word(2));
    assert_eq!(cpu.get_program_counter(), Word(2));
}

#[test]
fn cpu_branches() {
    let taken = [Lli { r_a: 1, imm: Word(40) }, Beq { r_a: 1, r_b: 0, r_c: 0 }];
    assert_eq!(run(&taken, 2).0.get_program_counter(), Word(40));
    let not_taken = [Lli { r_a: 1, imm: Word(40) }, Lli { r_a: 2, imm: Word(1) }, Beq { r_a: 1, r_b: 2, r_c: 0 }];
    assert_eq!(run(&not_taken, 3).0.get_program_counter(), Word(3));
    let bne = [Lli { r_a: 1, imm: Word(40) }, Lli { r_a: 2, imm: Word(1) }, Bne { r_a: 1, r_b: 2, r_c: 0 }];
    assert_eq!(run(&bne, 3).0.get_program_counter(), Word(40));
    let blt = [Lli { r_a: 1, imm: Word(40) }, Lli { r_a: 2, imm: Word(1) }, Blt { r_a: 1, r_b: 0, r_c: 2 }];
    assert_eq!(run(&blt, 3).0.get_program_counter(), Word(40));
    // BLT compares unsigned: 0xFFFF is not less than 1
    let blt_unsigned = [
        Lui { r_a: 3, imm: Word(0xFF) },
        Lli { r_a: 3, imm: Word(0xFF) },
        Lli { r_a: 1, imm: Word(40) },
        Lli { r_a: 2, imm: Word(1) },
        Blt { r_a: 1, r_b: 3, r_c: 2 },
    ];
    assert_eq!(run(&blt_unsigned, 5).0.get_program_counter(), Word(5));
}

#[test]
fn cpu_noop_only_advances() {
    let (cpu, _) = run(&[DecodedInst::Noop, DecodedInst::Noop], 2);
    assert_eq!(cpu.get_program_counter(), Word(2));
}

#[test]
fn cpu_reserved_instruction_cannot_step() {
    let mut mem = BankedMemory::new();
    mem.load_default(&[Word(0xF000)]);
    let cpu = CPU::new();
    assert!(!cpu.can_step(&mem));
}

#[test]
fn cpu_interrupt_entry_and_return() {
    let mut mem = BankedMemory::new();
    let mut rom = vec![Word(0); INTERRUPT_VECTOR as usize + 2];
    rom[0] = enc(Lli { r_a: 1, imm: Word(1) });
    rom[1] = enc(Lli { r_a: 2, imm: Word(2) });
    rom[INTERRUPT_VECTOR as usize] = enc(Lli { r_a: 3, imm: Word(3) });
    rom[INTERRUPT_VECTOR as usize + 1] = enc(Retl);
    mem.load_default(&rom);
    let mut cpu = CPU::new();
    cpu.trigger_interrupt();
    assert!(cpu.interrupt_pending());
    cpu.step(&mut mem); // executes word 0, then enters the interrupt
    assert_eq!(cpu.register(1), Word(1));
    assert_eq!(cpu.get_program_counter(), Word(INTERRUPT_VECTOR));
    assert_eq!(cpu.interrupt_return(), Word(1));
    assert!(cpu.handling_interrupt());
    assert!(!cpu.interrupt_pending());
    // a second interrupt is ignored while handling
    cpu.trigger_interrupt();
    assert!(!cpu.interrupt_pending());
    cpu.step(&mut mem);
    assert_eq!(cpu.register(3), Word(3));
    cpu.step(&mut mem); // RETL
    assert_eq!(cpu.get_program_counter(), Word(1));
    assert!(!cpu.handling_interrupt());
    cpu.step(&mut mem);
    assert_eq!(cpu.register(2), Word(2));
}

#[test]
fn cpu_interrupt_entered_after_noop() {
    let mut mem = BankedMemory::new();
    let mut cpu = CPU::new();
    cpu.trigger_interrupt();
    cpu.step(&mut mem); // word 0 is a NOOP
    assert!(!cpu.interrupt_pending());
    assert!(cpu.handling_interrupt());
    assert_eq!(cpu.get_program_counter(), Word(INTERRUPT_VECTOR));
    assert_eq!(cpu.interrupt_return(), Word(1));
}

#[test]
fn cpu_load_reg_reads_zero_for_register_zero() {
    let (cpu, _) = run(&[Lli { r_a: 0, imm: Word(5) }, Lli { r_a: 4, imm: Word(6) }], 2);
    assert_eq!(cpu.load_reg(0), Word(0));
    assert_eq!(cpu.load_reg(4), Word(6));
}

#[test]
fn test_gfx_prgm_layout() {
    let rom = test_gfx_prgm();
    assert_eq!(rom.len(), TEST_ROM_LEN);
    assert_eq!(rom[0], Word(0x8108));
    assert_eq!(rom[1], Word(0xB010));
    assert_eq!(rom[2], Word(20));
    assert_eq!(rom[3], Word(30));
    assert_eq!(rom[4], Word(SPR_X));
    assert_eq!(rom[5], Word(SPR_Y));
    assert_eq!(rom[6], Word(SPR_CONTROL));
    assert_eq!(rom[7], Word(HALT_CONTROL));
    assert_eq!(rom[19], Word(0x0117));
    assert_eq!(rom[24], Word(0xB001));
    assert_eq!(rom[25], Word(0));
    assert_eq!(rom[0xB7BD], Word(0x7F00));
    assert_eq!(rom[0xB7BE], Word(0x8F18));
    assert_eq!(rom[0xB7BF], Word(0xB0F0));
}

#[test]
fn encode_decode_round_trip_on_words() {
    for w in [0x0000u16, 0x0123, 0x1FFF, 0x5A0F, 0x7FAB, 0x8F18, 0x9123, 0xB001, 0xB0F0, 0xB123, 0xEFED] {
        assert_eq!(dec(w).encode().to_word(), Word(w));
    }
    // other RETL spellings all encode as JALR r0, r0, 1
    assert_eq!(dec(0xB007).encode().to_word(), Word(0xB001));
}

#[test]
fn cpu_cannot_overwrite_cart_rom() {
    let prog = [
        Lli { r_a: 2, imm: Word(0x55) },
        Sw { r_a: 2, r_b: 0, imm: Word(0) }, // mem[0] = 0x55, ignored
        Lw { r_a: 3, r_b: 0, imm: Word(0) },
    ];
    let (cpu, mem) = run(&prog, 3);
    assert_eq!(cpu.register(3), Word(0x8255));
    assert_eq!(mem.fetch(Word(0)), Word(0x8255));
}
