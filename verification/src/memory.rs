//! Word-addressed memory: a single 64K-word bank, and the three banks
//! (Default, PPU, APU) that the Bank Control register switches between.
use vstd::prelude::*;
use crate::word::Word;
use crate::mmio::{BANK_CONTROL, BUTTON_STATE, DISPLAY_VCOUNT, INT_STATUS, SYSTEM_CONTROL};

verus! {

/// Number of word addresses in one bank.
pub const BANK_SIZE: usize = 0x10000;

/// Addresses at or above this boundary are in the mirrored RAM/MMIO region and
/// always resolve to the default bank, regardless of the active bank setting.
pub const MIRRORED_BASE: u16 = 0xBFC0;

/// The Cart ROM occupies the default bank below this address and is read-only.
pub const CART_ROM_END: u16 = 0xB7C0;

/// One 64K-word address space.
pub struct MemoryBank(Vec<Word>);

impl View for MemoryBank {
    type V = Seq<Word>;

    closed spec fn view(&self) -> Seq<Word> {
        self.0@
    }
}

impl MemoryBank {
    /// A bank holds exactly one word for every 16-bit address.
    pub open spec fn inv(&self) -> bool {
        self@.len() == BANK_SIZE
    }

    pub fn new() -> (b: MemoryBank)
        ensures
            b.inv(),
            forall|i: int| 0 <= i < BANK_SIZE ==> b@[i] == Word(0),
    {
        let mut v: Vec<Word> = Vec::with_capacity(BANK_SIZE);
        let mut i: usize = 0;
        while i < BANK_SIZE
            invariant
                i <= BANK_SIZE,
                v@.len() == i,
                forall|j: int| 0 <= j < i ==> v@[j] == Word(0),
            decreases BANK_SIZE - i,
        {
            v.push(Word(0));
            i = i + 1;
        }
        MemoryBank(v)
    }

    /// Copies `data` to the start of the bank; the rest is left unchanged.
    pub fn load(&mut self, data: &[Word])
        requires
            old(self).inv(),
            data@.len() <= BANK_SIZE,
        ensures
            final(self).inv(),
            final(self)@ == data@ + old(self)@.subrange(data@.len() as int, BANK_SIZE as int),
    {
        let mut i: usize = 0;
        while i < data.len()
            invariant
                i <= data@.len() <= BANK_SIZE,
                self@.len() == BANK_SIZE,
                forall|j: int| 0 <= j < i ==> self@[j] == data@[j],
                forall|j: int| i <= j < BANK_SIZE ==> self@[j] == old(self)@[j],
            decreases data@.len() - i,
        {
            self.0.set(i, data[i]);
            i = i + 1;
        }
        assert(self@ =~= data@ + old(self)@.subrange(data@.len() as int, BANK_SIZE as int));
    }

    pub fn load_word(&self, addr: Word) -> (w: Word)
        requires
            self.inv(),
        ensures
            w == self@[addr.0 as int],
    {
        self.0[addr.0 as usize]
    }

    pub fn store_word(&mut self, addr: Word, value: Word)
        requires
            old(self).inv(),
        ensures
            final(self).inv(),
            final(self)@ == old(self)@.update(addr.0 as int, value),
    {
        self.0.set(addr.0 as usize, value);
    }
}

/// The registers whose writes from programs are ignored: System Control is
/// BIOS-only; Display VCount and Button State are read-only.
pub open spec fn is_write_protected(addr: u16) -> bool {
    addr == SYSTEM_CONTROL || addr == DISPLAY_VCOUNT || addr == BUTTON_STATE
}

/// The contents of the three banks.
pub struct MemView {
    pub default: Seq<Word>,
    pub ppu: Seq<Word>,
    pub apu: Seq<Word>,
}

impl MemView {
    pub open spec fn inv(self) -> bool {
        &&& self.default.len() == BANK_SIZE
        &&& self.ppu.len() == BANK_SIZE
        &&& self.apu.len() == BANK_SIZE
    }

    /// The bank selected by bits 0-1 of Bank Control (0 = Default, 1 = PPU, 2 = APU).
    pub open spec fn active_bank(self) -> u16 {
        self.default[BANK_CONTROL as int].0 & 3
    }

    /// Instruction fetch: always the default bank.
    pub open spec fn fetch(self, addr: Word) -> Word {
        self.default[addr.0 as int]
    }

    /// A load (LW) through the active bank; the mirrored region is always the
    /// default bank, and the BIOS-only System Control reads as zero.
    pub open spec fn load(self, addr: Word) -> Word {
        if addr.0 == SYSTEM_CONTROL {
            Word(0)
        } else if addr.0 >= MIRRORED_BASE {
            self.default[addr.0 as int]
        } else if self.active_bank() == 1 {
            self.ppu[addr.0 as int]
        } else if self.active_bank() == 2 {
            self.apu[addr.0 as int]
        } else {
            self.default[addr.0 as int]
        }
    }

    /// A store (SW) through the active bank; the mirrored region is always the
    /// default bank. Writes to the Cart ROM and to write-protected registers
    /// are ignored, and a write to Interrupt Status clears the bits that are 1
    /// in the value.
    pub open spec fn store(self, addr: Word, value: Word) -> MemView {
        if addr.0 >= MIRRORED_BASE {
            if is_write_protected(addr.0) {
                self
            } else if addr.0 == INT_STATUS {
                self.store_mmio(INT_STATUS, Word(self.load_mmio(INT_STATUS).0 & !value.0))
            } else {
                MemView { default: self.default.update(addr.0 as int, value), ..self }
            }
        } else if self.active_bank() == 1 {
            MemView { ppu: self.ppu.update(addr.0 as int, value), ..self }
        } else if self.active_bank() == 2 {
            MemView { apu: self.apu.update(addr.0 as int, value), ..self }
        } else if addr.0 < CART_ROM_END {
            self
        } else {
            MemView { default: self.default.update(addr.0 as int, value), ..self }
        }
    }

    /// Direct access to an MMIO register: always the default bank.
    pub open spec fn load_mmio(self, addr: u16) -> Word {
        self.default[addr as int]
    }

    pub open spec fn store_mmio(self, addr: u16, value: Word) -> MemView {
        MemView { default: self.default.update(addr as int, value), ..self }
    }
}

/// The Cart ROM is read-only: a store through the default bank below its end
/// changes nothing.
pub proof fn lemma_cart_rom_read_only(m: MemView, addr: Word, value: Word)
    requires
        addr.0 < CART_ROM_END,
        m.active_bank() != 1,
        m.active_bank() != 2,
    ensures
        m.store(addr, value) == m,
{
}

/// A load right after a store to the same address returns the stored word,
/// for every writable address: not write-protected, not Interrupt Status,
/// and not in the Cart ROM when the default bank is active.
pub proof fn lemma_load_after_store(m: MemView, addr: Word, value: Word)
    requires
        m.inv(),
        !is_write_protected(addr.0),
        addr.0 != INT_STATUS,
        addr.0 < CART_ROM_END ==> (m.active_bank() == 1 || m.active_bank() == 2),
    ensures
        m.store(addr, value).load(addr) == value,
{
}

/// A store leaves what loads see at every other address unchanged, unless it
/// wrote the Bank Control register.
pub proof fn lemma_store_keeps_other_addresses(m: MemView, addr: Word, value: Word, other: Word)
    requires
        m.inv(),
        addr.0 != other.0,
        addr.0 != BANK_CONTROL,
    ensures
        m.store(addr, value).load(other) == m.load(other),
{
}

/// Addresses in the mirrored RAM/MMIO region reach the default bank whichever
/// bank is active (apart from the registers with a rule of their own).
pub proof fn lemma_mirrored_region(m: MemView, addr: Word, value: Word)
    requires
        addr.0 >= MIRRORED_BASE,
        !is_write_protected(addr.0),
        addr.0 != INT_STATUS,
    ensures
        m.load(addr) == m.load_mmio(addr.0),
        m.store(addr, value) == m.store_mmio(addr.0, value),
{
}

/// Programs cannot write the BIOS-only or read-only registers, and System
/// Control reads as zero to them.
pub proof fn lemma_protected_registers(m: MemView, addr: Word, value: Word)
    requires
        is_write_protected(addr.0),
    ensures
        m.store(addr, value) == m,
        m.load(Word(SYSTEM_CONTROL)) == Word(0),
{
}

/// Writing 1 to a bit of Interrupt Status acknowledges and clears it; bits
/// written as 0 keep their value, and nothing else changes.
pub proof fn lemma_interrupt_status_acknowledge(m: MemView, value: Word)
    ensures
        m.store(Word(INT_STATUS), value) == m.store_mmio(
            INT_STATUS,
            Word(m.load_mmio(INT_STATUS).0 & !value.0),
        ),
{
}

/// Storing a word to Bank Control selects the bank named by its low two bits.
pub proof fn lemma_bank_select(m: MemView, value: Word)
    requires
        m.inv(),
    ensures
        m.store(Word(BANK_CONTROL), value).active_bank() == value.0 & 3,
{
}

/// While the PPU or APU bank is active, stores below the mirrored region leave
/// the default bank, and so every instruction fetch, unchanged.
pub proof fn lemma_banked_store_keeps_default(m: MemView, addr: Word, value: Word)
    requires
        m.inv(),
        addr.0 < MIRRORED_BASE,
        m.active_bank() == 1 || m.active_bank() == 2,
    ensures
        m.store(addr, value).default == m.default,
        forall|pc: Word| m.store(addr, value).fetch(pc) == m.fetch(pc),
{
}

/// Every store keeps the three banks at their full size.
pub proof fn lemma_store_keeps_inv(m: MemView, addr: Word, value: Word)
    requires
        m.inv(),
    ensures
        m.store(addr, value).inv(),
        m.store_mmio(addr.0, value).inv(),
{
}

/// The memory map of MEMORY_MAP.md: Cart ROM 0x0000-0xB7BF, Save SRAM up to
/// 0xBFBF, then the mirrored RAM and MMIO from 0xBFC0; Bank Control's values
/// 0, 1, 2 select the Default, PPU and APU banks.
pub proof fn lemma_memory_map(m: MemView)
    ensures
        CART_ROM_END == 0xB7C0,
        MIRRORED_BASE == 0xBFC0,
        BANK_SIZE == 0x10000,
        m.active_bank() == m.default[0xFFC1].0 % 4,
{
    let c = m.default[0xFFC1].0;
    assert(c & 3u16 == c % 4u16) by (bit_vector);
}

/// The Default, PPU and APU banks, switched by the Bank Control register.
pub struct BankedMemory {
    default: MemoryBank,
    ppu: MemoryBank,
    apu: MemoryBank,
}

impl View for BankedMemory {
    type V = MemView;

    closed spec fn view(&self) -> MemView {
        MemView { default: self.default@, ppu: self.ppu@, apu: self.apu@ }
    }
}

impl BankedMemory {
    pub open spec fn inv(&self) -> bool {
        self@.inv()
    }

    pub fn new() -> (m: BankedMemory)
        ensures
            m.inv(),
            forall|i: int| 0 <= i < BANK_SIZE ==> m@.default[i] == Word(0),
            forall|i: int| 0 <= i < BANK_SIZE ==> m@.ppu[i] == Word(0),
            forall|i: int| 0 <= i < BANK_SIZE ==> m@.apu[i] == Word(0),
    {
        BankedMemory { default: MemoryBank::new(), ppu: MemoryBank::new(), apu: MemoryBank::new() }
    }

    fn active_bank(&self) -> (b: u8)
        requires
            self.inv(),
        ensures
            b as u16 == self@.active_bank(),
    {
        let ctrl: u16 = self.default.load_word(Word(BANK_CONTROL)).0;
        let b = ctrl & 0x3;
        assert(b < 4) by (bit_vector)
            requires b == ctrl & 0x3;
        b as u8
    }

    /// Instruction fetch — always reads from the default bank.
    pub fn fetch(&self, addr: Word) -> (w: Word)
        requires
            self.inv(),
        ensures
            w == self@.fetch(addr),
    {
        self.default.load_word(addr)
    }

    /// Banked load (LW instruction). Addresses in the mirrored region always
    /// resolve to the default bank; System Control reads as zero.
    pub fn load(&self, addr: Word) -> (w: Word)
        requires
            self.inv(),
        ensures
            w == self@.load(addr),
    {
        if addr.0 == SYSTEM_CONTROL {
            return Word(0);
        }
        if addr.0 >= MIRRORED_BASE {
            return self.default.load_word(addr);
        }
        match self.active_bank() {
            1 => self.ppu.load_word(addr),
            2 => self.apu.load_word(addr),
            _ => self.default.load_word(addr),
        }
    }

    /// Banked store (SW instruction). Addresses in the mirrored region always
    /// resolve to the default bank; writes to the BIOS-only and read-only
    /// registers and to the Cart ROM are ignored, and writing 1s to Interrupt
    /// Status clears those bits.
    pub fn store(&mut self, addr: Word, value: Word)
        requires
            old(self).inv(),
        ensures
            final(self).inv(),
            final(self)@ == old(self)@.store(addr, value),
    {
        if addr.0 >= MIRRORED_BASE {
            if addr.0 == SYSTEM_CONTROL || addr.0 == DISPLAY_VCOUNT || addr.0 == BUTTON_STATE {
                return;
            }
            if addr.0 == INT_STATUS {
                let status = self.default.load_word(addr);
                self.default.store_word(addr, Word(status.0 & !value.0));
                return;
            }
            self.default.store_word(addr, value);
            return;
        }
        match self.active_bank() {
            1 => self.ppu.store_word(addr, value),
            2 => self.apu.store_word(addr, value),
            _ => {
                // the Cart ROM is read-only
                if addr.0 >= CART_ROM_END {
                    self.default.store_word(addr, value);
                }
            },
        }
    }

    /// Direct MMIO access for internal use by the VM, PPU, and APU. Always
    /// reads/writes the default bank; MMIO lives in the mirrored region.
    pub fn load_mmio(&self, addr: u16) -> (w: Word)
        requires
            self.inv(),
        ensures
            w == self@.load_mmio(addr),
    {
        self.default.load_word(Word(addr))
    }

    pub fn store_mmio(&mut self, addr: u16, value: Word)
        requires
            old(self).inv(),
        ensures
            final(self).inv(),
            final(self)@ == old(self)@.store_mmio(addr, value),
    {
        self.default.store_word(Word(addr), value);
    }

    /// Load cartridge data into the default bank starting at address 0.
    pub fn load_default(&mut self, data: &[Word])
        requires
            old(self).inv(),
            data@.len() <= BANK_SIZE,
        ensures
            final(self).inv(),
            final(self)@ == (MemView {
                default: data@ + old(self)@.default.subrange(data@.len() as int, BANK_SIZE as int),
                ..old(self)@
            }),
    {
        self.default.load(data);
    }
}

} // verus!
