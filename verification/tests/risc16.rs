use pip16::memory::MemoryBank;
use pip16::mmio::INTERRUPT_PROGRAM_COUNTER;
use pip16::risc16::cpu::{Reg, CPU};
use pip16::risc16::inst::{self, DecInst, EncInst, Opcode};
use pip16::word::Word;

fn run(prog: &[EncInst], steps: usize) -> (CPU, MemoryBank) {
    let words: Vec<Word> = prog.iter().map(|e| e.to_word()).collect();
    let mut mem = MemoryBank::new();
    mem.load(&words);
    let mut cpu = CPU::new();
    for _ in 0..steps {
        cpu.step(&mut mem);
    }
    (cpu, mem)
}

#[test]
fn risc16_reg_new_load_store() {
    let mut r = Reg::new();
    assert_eq!(r.load(), Word(0));
    r.store(Word(0xBEEF));
    assert_eq!(r.load(), Word(0xBEEF));
}

#[test]
fn risc16_field_extraction() {
    // ADDI r5, r3, -1
    let e = EncInst::new_addi(5, 3, -1);
    assert_eq!(e.to_word(), Word(0x2000 | (5 << 10) | (3 << 7) | 0x7F));
    assert!(e.opcode() == Opcode(inst::ADDI));
    assert_eq!(e.reg_a(), 5);
    assert_eq!(e.reg_b(), 3);
    assert_eq!(e.simm(), Word(0xFFFF));
    let e = EncInst::from(Word(0x0007));
    assert_eq!(e.reg_c(), 7);
    assert!(e.opcode() == Opcode(inst::ADD));
}

#[test]
fn risc16_simm_sign_extension() {
    assert_eq!(EncInst::from(Word(0x003F)).simm(), Word(63));
    assert_eq!(EncInst::from(Word(0x0040)).simm(), Word(0xFFC0)); // -64
    assert_eq!(EncInst::from(Word(0x007F)).simm(), Word(0xFFFF)); // -1
    assert_eq!(EncInst::from(Word(0x0080)).simm(), Word(0));
}

#[test]
fn risc16_imm_is_upper_ten_bits() {
    assert_eq!(EncInst::from(Word(0x03FF)).imm(), Word(0xFFC0));
    assert_eq!(EncInst::from(Word(0x0001)).imm(), Word(0x0040));
}

#[test]
fn risc16_noop_and_reti_bits() {
    assert!(EncInst::new_noop().is_noop());
    assert_eq!(EncInst::new_noop().to_word(), Word(0));
    assert!(EncInst::from(Word(0xE001)).is_reti_imm());
    assert!(!EncInst::new_jalr(1, 2).is_reti_imm());
}

#[test]
fn risc16_constructors_decode_back() {
    let cpu = CPU::new();
    assert_eq!(cpu.decode(EncInst::new_add(1, 2, 3)), DecInst::Add { r_a: 1, r_b: 2, r_c: 3 });
    assert_eq!(cpu.decode(EncInst::new_addi(1, 2, -64)), DecInst::Addi { r_a: 1, r_b: 2, imm: Word(0xFFC0) });
    assert_eq!(cpu.decode(EncInst::new_nand(7, 6, 5)), DecInst::Nand { r_a: 7, r_b: 6, r_c: 5 });
    assert_eq!(cpu.decode(EncInst::new_lui(4, 0x1234)), DecInst::Lui { r_a: 4, imm: Word(0x1200) });
    assert_eq!(cpu.decode(EncInst::new_sw(1, 2, 63)), DecInst::Sw { r_a: 1, r_b: 2, imm: Word(63) });
    assert_eq!(cpu.decode(EncInst::new_lw(1, 2, -3)), DecInst::Lw { r_a: 1, r_b: 2, imm: Word(0xFFFD) });
    assert_eq!(cpu.decode(EncInst::new_beq(1, 2, 5)), DecInst::Beq { r_a: 1, r_b: 2, imm: Word(5) });
    assert_eq!(cpu.decode(EncInst::new_jalr(1, 2)), DecInst::Jalr { r_a: 1, r_b: 2 });
    assert_eq!(cpu.decode(EncInst::from(Word(0xE005))), DecInst::Reti);
}

#[test]
fn risc16_encode_values() {
    assert_eq!(DecInst::Lui { r_a: 1, imm: Word(0x3FF) }.encode().to_word(), Word(0x6000 | 0x0400 | 0x3FF));
    assert_eq!(DecInst::Reti.encode().to_word(), Word(0x0001));
    let w: Word = DecInst::Jalr { r_a: 7, r_b: 7 }.encode().into();
    assert_eq!(w, Word(0xE000 | (7 << 10) | (7 << 7)));
}

#[test]
fn risc16_cpu_program() {
    let prog = [
        EncInst::new_addi(1, 0, 10),   // r1 = 10
        EncInst::new_addi(2, 1, -3),   // r2 = 7
        EncInst::new_add(3, 1, 2),     // r3 = 17
        EncInst::new_nand(4, 1, 1),    // r4 = !10
        EncInst::new_lui(5, 0x8000),   // r5 = 0x8000
        EncInst::new_sw(3, 0, 40),     // mem[40] = 17
        EncInst::new_lw(6, 0, 40),     // r6 = 17
    ];
    let (cpu, mem) = run(&prog, 7);
    assert_eq!(cpu.register(1), Word(10));
    assert_eq!(cpu.register(2), Word(7));
    assert_eq!(cpu.register(3), Word(17));
    assert_eq!(cpu.register(4), Word(!10u16));
    assert_eq!(cpu.register(5), Word(0x8000));
    assert_eq!(cpu.register(6), Word(17));
    assert_eq!(mem.load_word(Word(40)), Word(17));
    assert_eq!(cpu.get_program_counter(), Word(7));
}

#[test]
fn risc16_cpu_register_zero() {
    let prog = [EncInst::new_addi(0, 0, 5), EncInst::new_add(1, 0, 0)];
    let (cpu, _) = run(&prog, 2);
    assert_eq!(cpu.register(1), Word(0));
}

#[test]
fn risc16_cpu_beq_relative() {
    // taken branch skips forward from the next instruction
    let prog = [EncInst::new_beq(0, 0, 3)];
    let (cpu, _) = run(&prog, 1);
    assert_eq!(cpu.get_program_counter(), Word(4));
    // negative offset
    let prog = [EncInst::new_noop(), EncInst::new_beq(1, 1, -2)];
    let (cpu, _) = run(&prog, 2);
    assert_eq!(cpu.get_program_counter(), Word(0));
    // not taken
    let prog = [EncInst::new_addi(1, 0, 1), EncInst::new_beq(1, 0, 10)];
    let (cpu, _) = run(&prog, 2);
    assert_eq!(cpu.get_program_counter(), Word(2));
}

#[test]
fn risc16_cpu_jalr() {
    let prog = [EncInst::new_addi(1, 0, 20), EncInst::new_jalr(7, 1)];
    let (cpu, _) = run(&prog, 2);
    assert_eq!(cpu.register(7), Word(2));
    assert_eq!(cpu.get_program_counter(), Word(20));
}

#[test]
fn risc16_cpu_reti_reads_saved_pc() {
    let mut mem = MemoryBank::new();
    mem.load(&[Word(0xE001)]); // RETI
    mem.store_word(Word(INTERRUPT_PROGRAM_COUNTER), Word(0x0123));
    let mut cpu = CPU::new();
    cpu.step(&mut mem);
    assert_eq!(cpu.get_program_counter(), Word(0x0123));
}
