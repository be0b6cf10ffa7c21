use pip16::memory::{BankedMemory, MemoryBank, BANK_SIZE, MIRRORED_BASE};
use pip16::mmio::{BANK_CONTROL, BUTTON_STATE, DISPLAY_VCOUNT, INT_STATUS, SPR_X, SYSTEM_CONTROL};
use pip16::word::Word;

#[test]
fn word_new_const_truncates() {
    assert_eq!(Word::new_const(0xFFC0), Word(0xFFC0));
    assert_eq!(Word::new_const(-1), Word(0xFFFF));
    assert_eq!(Word::new_const(0x1_0005), Word(5));
}

#[test]
fn word_wrapping_arithmetic() {
    assert_eq!(Word(0xFFFF).wrapping_add(Word(2)), Word(1));
    assert_eq!(Word(1).wrapping_sub(Word(3)), Word(0xFFFE));
    assert_eq!(Word(0x100).wrapping_mul(Word(0x100)), Word(0));
    assert_eq!(Word(300).wrapping_mul(Word(7)), Word(2100));
}

#[test]
fn word_bit_operations() {
    assert_eq!(Word(0b1100).xor(Word(0b1010)), Word(0b0110));
    assert_eq!(Word(0b1100).and(Word(0b1010)), Word(0b1000));
    assert_eq!(Word(0b1100).or(Word(0b1010)), Word(0b1110));
    assert_eq!(Word(0x00FF).not(), Word(0xFF00));
    assert_eq!(Word(0x8001).shl(Word(1)), Word(0x0002));
    assert_eq!(Word(0x8001).shr(Word(15)), Word(1));
}

#[test]
fn word_conversions() {
    assert_eq!(Word::from(0x1234u16), Word(0x1234));
    assert_eq!(Word::from(-2i16), Word(0xFFFE));
    assert_eq!(Word::from(-1i8), Word(0xFFFF));
    let v: u16 = Word(7).into();
    assert_eq!(v, 7);
    let s: i16 = Word(0xFFFF).into();
    assert_eq!(s, -1);
    let u: usize = Word(0xFFFF).into();
    assert_eq!(u, 65535);
}

#[test]
fn memory_bank_starts_zeroed_and_stores() {
    let mut bank = MemoryBank::new();
    assert_eq!(bank.load_word(Word(0)), Word(0));
    assert_eq!(bank.load_word(Word(0xFFFF)), Word(0));
    bank.store_word(Word(0xFFFF), Word(42));
    assert_eq!(bank.load_word(Word(0xFFFF)), Word(42));
    assert_eq!(bank.load_word(Word(0xFFFE)), Word(0));
}

#[test]
fn memory_bank_load_copies_prefix_only() {
    let mut bank = MemoryBank::new();
    bank.store_word(Word(3), Word(99));
    bank.load(&[Word(1), Word(2)]);
    assert_eq!(bank.load_word(Word(0)), Word(1));
    assert_eq!(bank.load_word(Word(1)), Word(2));
    assert_eq!(bank.load_word(Word(2)), Word(0));
    assert_eq!(bank.load_word(Word(3)), Word(99));
}

#[test]
fn memory_bank_load_full_size() {
    let mut bank = MemoryBank::new();
    let data = vec![Word(5); BANK_SIZE];
    bank.load(&data);
    assert_eq!(bank.load_word(Word(0xFFFF)), Word(5));
}

#[test]
fn banked_memory_default_bank_by_default() {
    let mut mem = BankedMemory::new();
    mem.store(Word(0xB800), Word(7));
    assert_eq!(mem.load(Word(0xB800)), Word(7));
    assert_eq!(mem.fetch(Word(0xB800)), Word(7));
}

#[test]
fn banked_memory_bank_switch_isolates_banks() {
    let mut mem = BankedMemory::new();
    mem.store(Word(0xB800), Word(1)); // default
    mem.store(Word(BANK_CONTROL), Word(1)); // PPU bank
    assert_eq!(mem.load(Word(0xB800)), Word(0));
    mem.store(Word(0xB800), Word(2));
    assert_eq!(mem.load(Word(0xB800)), Word(2));
    // fetch always reads the default bank
    assert_eq!(mem.fetch(Word(0xB800)), Word(1));
    mem.store(Word(BANK_CONTROL), Word(2)); // APU bank
    assert_eq!(mem.load(Word(0xB800)), Word(0));
    mem.store(Word(0xB800), Word(3));
    mem.store(Word(BANK_CONTROL), Word(0));
    assert_eq!(mem.load(Word(0xB800)), Word(1));
    mem.store(Word(BANK_CONTROL), Word(1));
    assert_eq!(mem.load(Word(0xB800)), Word(2));
    mem.store(Word(BANK_CONTROL), Word(2));
    assert_eq!(mem.load(Word(0xB800)), Word(3));
}

#[test]
fn banked_memory_bank_three_is_default() {
    let mut mem = BankedMemory::new();
    mem.store(Word(0xB810), Word(9));
    mem.store(Word(BANK_CONTROL), Word(3));
    assert_eq!(mem.load(Word(0xB810)), Word(9));
    // only the low two bits select the bank
    mem.store(Word(BANK_CONTROL), Word(0x0005));
    assert_eq!(mem.load(Word(0xB810)), Word(0));
}

#[test]
fn banked_memory_mirrored_region_ignores_bank() {
    let mut mem = BankedMemory::new();
    mem.store(Word(BANK_CONTROL), Word(1));
    mem.store(Word(MIRRORED_BASE), Word(11));
    mem.store(Word(MIRRORED_BASE - 1), Word(12));
    mem.store(Word(BANK_CONTROL), Word(0));
    assert_eq!(mem.load(Word(MIRRORED_BASE)), Word(11));
    assert_eq!(mem.load(Word(MIRRORED_BASE - 1)), Word(0));
    assert_eq!(mem.load_mmio(MIRRORED_BASE), Word(11));
}

#[test]
fn banked_memory_mmio_access() {
    let mut mem = BankedMemory::new();
    mem.store_mmio(SPR_X, Word(20));
    assert_eq!(mem.load_mmio(SPR_X), Word(20));
    mem.store(Word(BANK_CONTROL), Word(2));
    assert_eq!(mem.load(Word(SPR_X)), Word(20));
    mem.store_mmio(INT_STATUS, Word(4));
    assert_eq!(mem.load(Word(INT_STATUS)), Word(4));
}

#[test]
fn banked_memory_load_default() {
    let mut mem = BankedMemory::new();
    mem.store(Word(BANK_CONTROL), Word(1));
    mem.load_default(&[Word(10), Word(20)]);
    assert_eq!(mem.fetch(Word(0)), Word(10));
    assert_eq!(mem.fetch(Word(1)), Word(20));
    // the PPU bank is untouched
    assert_eq!(mem.load(Word(0)), Word(0));
}

#[test]
fn banked_store_keeps_other_addresses() {
    let mut mem = BankedMemory::new();
    mem.store(Word(0xB900), Word(1));
    mem.store(Word(0xB901), Word(2));
    mem.store(Word(0xC000), Word(3));
    assert_eq!(mem.load(Word(0xB900)), Word(1));
    assert_eq!(mem.load(Word(0xB901)), Word(2));
    assert_eq!(mem.load(Word(0xC000)), Word(3));
}

#[test]
fn banked_memory_protected_registers_ignore_writes() {
    let mut mem = BankedMemory::new();
    mem.store_mmio(SYSTEM_CONTROL, Word(7));
    mem.store_mmio(DISPLAY_VCOUNT, Word(8));
    mem.store_mmio(BUTTON_STATE, Word(9));
    mem.store(Word(SYSTEM_CONTROL), Word(1));
    mem.store(Word(DISPLAY_VCOUNT), Word(1));
    mem.store(Word(BUTTON_STATE), Word(1));
    assert_eq!(mem.load_mmio(SYSTEM_CONTROL), Word(7));
    assert_eq!(mem.load(Word(DISPLAY_VCOUNT)), Word(8));
    assert_eq!(mem.load(Word(BUTTON_STATE)), Word(9));
    // System Control reads as zero to programs
    assert_eq!(mem.load(Word(SYSTEM_CONTROL)), Word(0));
}

#[test]
fn banked_memory_interrupt_status_write_one_to_clear() {
    let mut mem = BankedMemory::new();
    mem.store_mmio(INT_STATUS, Word(0b1011));
    mem.store(Word(INT_STATUS), Word(0b0010));
    assert_eq!(mem.load(Word(INT_STATUS)), Word(0b1001));
    mem.store(Word(INT_STATUS), Word(0b0100)); // clearing a clear bit changes nothing
    assert_eq!(mem.load(Word(INT_STATUS)), Word(0b1001));
    mem.store(Word(INT_STATUS), Word(0xFFFF));
    assert_eq!(mem.load(Word(INT_STATUS)), Word(0));
}

#[test]
fn word_operators() {
    assert_eq!(Word(0b1100) ^ Word(0b1010), Word(0b0110));
    assert_eq!(Word(0b1100) & Word(0b1010), Word(0b1000));
    assert_eq!(Word(0b1100) | Word(0b1010), Word(0b1110));
    assert_eq!(!Word(0x00FF), Word(0xFF00));
}

#[test]
fn banked_memory_cart_rom_is_read_only() {
    let mut mem = BankedMemory::new();
    mem.load_default(&[Word(5)]);
    mem.store(Word(0x0000), Word(7));
    mem.store(Word(0x0010), Word(7));
    mem.store(Word(0xB7BF), Word(7));
    assert_eq!(mem.load(Word(0x0000)), Word(5));
    assert_eq!(mem.load(Word(0x0010)), Word(0));
    assert_eq!(mem.load(Word(0xB7BF)), Word(0));
    // the first Save SRAM word is writable
    mem.store(Word(0xB7C0), Word(7));
    assert_eq!(mem.load(Word(0xB7C0)), Word(7));
    // the same addresses in the PPU bank are writable
    mem.store(Word(BANK_CONTROL), Word(1));
    mem.store(Word(0x0010), Word(8));
    assert_eq!(mem.load(Word(0x0010)), Word(8));
    assert_eq!(mem.fetch(Word(0x0010)), Word(0));
}
