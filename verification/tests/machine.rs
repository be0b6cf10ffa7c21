use pip16::apu::APU;
use pip16::memory::BankedMemory;
use pip16::mmio::{
    APU_CONTROL, BG_CONTROL, HALT_CONTROL, INT_APU_DONE, INT_ENABLE, INT_PPU_DONE, INT_STATUS,
    INT_VBLANK, SPR_ATTR, SPR_CONTROL, SPR_TILE, SPR_X, SPR_Y,
};
use pip16::ppu::{SpriteDraw, PPU};
use pip16::riscp::cpu::INTERRUPT_VECTOR;
use pip16::riscp::inst::DecodedInst;
use pip16::riscp::test_gfx_prgm;
use pip16::vm::{FrameFault, VM};
use pip16::word::Word;

fn enc(inst: DecodedInst) -> Word {
    inst.encode().to_word()
}

#[test]
fn apu_idle_costs_nothing() {
    let apu = APU::new();
    let mut mem = BankedMemory::new();
    assert_eq!(apu.step(&mut mem), 0);
    assert_eq!(mem.load_mmio(INT_STATUS), Word(0));
}

#[test]
fn apu_trigger_clears_trigger_bit_and_sets_status() {
    let apu = APU::new();
    let mut mem = BankedMemory::new();
    mem.store_mmio(APU_CONTROL, Word(0x3));
    mem.store_mmio(INT_ENABLE, Word(INT_APU_DONE));
    assert_eq!(apu.step(&mut mem), 8);
    assert_eq!(mem.load_mmio(APU_CONTROL), Word(0x1)); // enable bit kept
    assert_eq!(mem.load_mmio(INT_STATUS), Word(INT_APU_DONE));
    // without the enable bit in Interrupt Enable the status is left alone
    let mut mem = BankedMemory::new();
    mem.store_mmio(APU_CONTROL, Word(0x2));
    assert_eq!(apu.step(&mut mem), 8);
    assert_eq!(mem.load_mmio(APU_CONTROL), Word(0));
    assert_eq!(mem.load_mmio(INT_STATUS), Word(0));
}

#[test]
fn apu_enable_alone_does_not_trigger() {
    let apu = APU::new();
    let mut mem = BankedMemory::new();
    mem.store_mmio(APU_CONTROL, Word(0x1));
    mem.store_mmio(INT_ENABLE, Word(INT_APU_DONE));
    assert_eq!(apu.step(&mut mem), 0);
    assert_eq!(mem.load_mmio(APU_CONTROL), Word(0x1));
    assert_eq!(mem.load_mmio(INT_STATUS), Word(0));
}

#[test]
fn ppu_idle_draws_nothing() {
    let ppu = PPU::new(128);
    let mut mem = BankedMemory::new();
    assert_eq!(ppu.step(&mut mem), (0, None));
}

#[test]
fn ppu_draws_sprite_from_registers() {
    let ppu = PPU::new(128); // 16 tile columns
    let mut mem = BankedMemory::new();
    mem.store_mmio(SPR_X, Word(0xFFF6)); // -10
    mem.store_mmio(SPR_Y, Word(30));
    mem.store_mmio(SPR_TILE, Word(0xFE00 | 35)); // reserved bits ignored
    mem.store_mmio(SPR_ATTR, Word(0x0302 | 0x0C)); // size 2, both flips, rotation 3
    mem.store_mmio(SPR_CONTROL, Word(1));
    mem.store_mmio(INT_ENABLE, Word(INT_PPU_DONE));
    mem.store_mmio(INT_STATUS, Word(INT_VBLANK));
    let (cost, draw) = ppu.step(&mut mem);
    assert_eq!(cost, 16);
    assert_eq!(
        draw,
        Some(SpriteDraw {
            x: -10,
            y: 30,
            src_x: 3 * 8,
            src_y: 2 * 8,
            size: 32,
            flip_x: true,
            flip_y: true,
            quarter_turns: 3,
        })
    );
    assert_eq!(mem.load_mmio(SPR_CONTROL), Word(0));
    assert_eq!(mem.load_mmio(INT_STATUS), Word(INT_VBLANK | INT_PPU_DONE));
}

#[test]
fn ppu_background_costs_extra() {
    let ppu = PPU::new(8);
    let mut mem = BankedMemory::new();
    mem.store_mmio(SPR_CONTROL, Word(1));
    mem.store_mmio(BG_CONTROL, Word(1));
    let (cost, draw) = ppu.step(&mut mem);
    assert_eq!(cost, 80);
    assert_eq!(draw.unwrap().size, 8);
}

#[test]
fn vm_runs_test_program() {
    let mut vm = VM::new(128);
    let prgm = test_gfx_prgm();
    vm.load(&prgm);
    let first = vm.step_frame().unwrap();
    assert_eq!(first.len(), 1);
    assert_eq!((first[0].x, first[0].y), (20, 30));
    assert_eq!((first[0].src_x, first[0].src_y, first[0].size), (0, 0, 8));
    assert_eq!(vm.memory().load_mmio(HALT_CONTROL), Word(1));
    let second = vm.step_frame().unwrap();
    assert_eq!(second.len(), 1);
    assert_eq!((second[0].x, second[0].y), (21, 31));
    let third = vm.step_frame().unwrap();
    assert_eq!((third[0].x, third[0].y), (22, 32));
}

#[test]
fn vm_frame_without_halt_spends_budget() {
    // a program of NOOPs runs the whole frame without drawing
    let mut vm = VM::new(128);
    let draws = vm.step_frame().unwrap();
    assert!(draws.is_empty());
    assert_eq!(vm.cpu().get_program_counter(), Word((256_000u32 % 65536) as u16));
}

#[test]
fn vm_reserved_instruction_faults() {
    let mut vm = VM::new(128);
    vm.load(&[Word(0), Word(0xF123)]);
    assert_eq!(vm.step_frame(), Err(FrameFault::ReservedInstruction { pc: Word(1) }));
}

#[test]
fn vm_narrow_sprite_sheet_faults_on_draw() {
    let mut vm = VM::new(4);
    // r1 = SPR_CONTROL address, r2 = 1, mem[r1] = r2
    let prog = [
        enc(DecodedInst::Lui { r_a: 1, imm: Word(0xFF) }),
        enc(DecodedInst::Lli { r_a: 1, imm: Word(0xCA) }),
        enc(DecodedInst::Lli { r_a: 2, imm: Word(1) }),
        enc(DecodedInst::Sw { r_a: 2, r_b: 1, imm: Word(0) }),
    ];
    vm.load(&prog);
    assert_eq!(vm.step_frame(), Err(FrameFault::EmptySpriteSheet));
}

#[test]
fn vm_vblank_interrupt_from_second_frame() {
    // enable VBlank, then halt; the interrupt handler at the vector halts too
    let mut vm = VM::new(128);
    let prog = vec![
        enc(DecodedInst::Lui { r_a: 1, imm: Word(0xFF) }),
        enc(DecodedInst::Lli { r_a: 1, imm: Word(0xC2) }), // r1 = INT_ENABLE
        enc(DecodedInst::Lli { r_a: 2, imm: Word(1) }),
        enc(DecodedInst::Sw { r_a: 2, r_b: 1, imm: Word(0) }), // enable VBlank
        enc(DecodedInst::Noop),
        enc(DecodedInst::Lui { r_a: 3, imm: Word(0xFF) }),
        enc(DecodedInst::Lli { r_a: 3, imm: Word(0xDA) }), // r3 = HALT_CONTROL
        enc(DecodedInst::Sw { r_a: 2, r_b: 3, imm: Word(0) }), // halt
        enc(DecodedInst::Sw { r_a: 2, r_b: 3, imm: Word(0) }), // halt again
    ];
    vm.load(&prog);
    assert!(vm.step_frame().unwrap().is_empty());
    // first frame: no interrupt
    assert!(!vm.cpu().handling_interrupt());
    assert_eq!(vm.memory().load_mmio(INT_STATUS), Word(0));
    assert_eq!(vm.memory().load_mmio(INT_ENABLE), Word(INT_VBLANK));
    assert!(vm.step_frame().unwrap().is_empty());
    // second frame: VBlank set and entered after the next instruction
    assert_eq!(vm.memory().load_mmio(INT_STATUS), Word(INT_VBLANK));
    assert!(vm.cpu().handling_interrupt());
    assert_eq!(vm.cpu().interrupt_return(), Word(9));
    assert_eq!(vm.cpu().get_program_counter(), Word(INTERRUPT_VECTOR));
}

#[test]
fn ppu_can_step_needs_a_tile_column_only_when_drawing() {
    let narrow = PPU::new(7);
    let mut mem = BankedMemory::new();
    assert!(narrow.can_step(&mem));
    mem.store_mmio(SPR_CONTROL, Word(1));
    assert!(!narrow.can_step(&mem));
    assert!(PPU::new(8).can_step(&mem));
}
