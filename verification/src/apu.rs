//! The audio co-processor. Triggering playback through APU Control costs the
//! CPU a fixed number of cycles and raises the APU Done interrupt status if enabled.
use vstd::prelude::*;
use crate::word::Word;
use crate::memory::{BankedMemory, MemView, BANK_SIZE};
use crate::mmio::{APU_CONTROL, INT_APU_DONE, INT_ENABLE, INT_STATUS};

verus! {

/// CPU cycles consumed by starting or stopping playback.
pub const APU_COST: usize = 8;

/// APU Control bit 0: APU enable.
pub const APU_ENABLE: u16 = 0x1;

/// APU Control bit 1: trigger playback (write 1 to start).
pub const APU_TRIGGER: u16 = 0x2;

/// Memory after an APU step, and the cycles it consumed: nothing happens unless
/// the trigger bit (bit 1) of APU Control is set; then that bit is cleared,
/// leaving the enable bit and the rest as they were, and, when enabled, the
/// APU Done status bit is set.
pub open spec fn apu_step(mem: MemView) -> (MemView, usize) {
    let ctrl = mem.load_mmio(APU_CONTROL).0;
    if ctrl & APU_TRIGGER == 0 {
        (mem, 0)
    } else {
        let cleared = mem.store_mmio(APU_CONTROL, Word(ctrl & !APU_TRIGGER));
        if cleared.load_mmio(INT_ENABLE).0 & INT_APU_DONE != 0 {
            let status = cleared.load_mmio(INT_STATUS).0;
            (cleared.store_mmio(INT_STATUS, Word(status | INT_APU_DONE)), APU_COST)
        } else {
            (cleared, APU_COST)
        }
    }
}

/// An APU step changes nothing and costs nothing unless playback is triggered;
/// then it costs exactly its fixed cost, after which the trigger bit is clear
/// and the enable bit is as it was.
pub proof fn lemma_apu_cost(mem: MemView)
    requires
        mem.inv(),
    ensures
        apu_step(mem).1 == 0 || apu_step(mem).1 == APU_COST,
        apu_step(mem).1 == 0 <==> mem.load_mmio(APU_CONTROL).0 & APU_TRIGGER == 0,
        apu_step(mem).1 == 0 ==> apu_step(mem).0 == mem,
        apu_step(mem).1 == APU_COST ==> apu_step(mem).0.load_mmio(APU_CONTROL).0 & APU_TRIGGER
            == 0,
        apu_step(mem).1 == APU_COST ==> apu_step(mem).0.load_mmio(APU_CONTROL).0 & APU_ENABLE
            == mem.load_mmio(APU_CONTROL).0 & APU_ENABLE,
        apu_step(mem).0.inv(),
{
    let c = mem.load_mmio(APU_CONTROL).0;
    assert((c & !0x2u16) & 0x2u16 == 0 && (c & !0x2u16) & 0x1u16 == c & 0x1u16) by (bit_vector);
}

/// An APU step only ever sets bits of Interrupt Status: every bit set before
/// stays set, and a triggered step with APU Done enabled adds exactly that bit.
/// It changes no other register than APU Control and Interrupt Status.
pub proof fn lemma_apu_keeps_status_bits(mem: MemView)
    requires
        mem.inv(),
    ensures
        ({
            let (after, cost) = apu_step(mem);
            let old_status = mem.load_mmio(INT_STATUS).0;
            let new_status = after.load_mmio(INT_STATUS).0;
            &&& old_status & new_status == old_status
            &&& cost == APU_COST && mem.load_mmio(INT_ENABLE).0 & INT_APU_DONE != 0 ==> new_status
                == old_status | INT_APU_DONE
            &&& mem.load_mmio(INT_ENABLE).0 & INT_APU_DONE == 0 ==> new_status == old_status
            &&& forall|a: int|
                0 <= a < BANK_SIZE && a != APU_CONTROL && a != INT_STATUS ==> #[trigger] after.default[a]
                    == mem.default[a]
            &&& after.ppu == mem.ppu && after.apu == mem.apu
        }),
{
    let s = mem.load_mmio(INT_STATUS).0;
    assert(s & (s | 8u16) == s && s & s == s) by (bit_vector);
}

pub struct APU;

impl APU {
    pub fn new() -> (a: APU) {
        APU
    }

    /// Steps the APU. Returns the number of CPU cycles consumed this step.
    pub fn step(&self, mem: &mut BankedMemory) -> (cost: usize)
        requires
            old(mem).inv(),
        ensures
            final(mem).inv(),
            (final(mem)@, cost) == apu_step(old(mem)@),
    {
        let apu_ctrl: u16 = mem.load_mmio(APU_CONTROL).0;
        if apu_ctrl & APU_TRIGGER == 0 {
            return 0;
        }

        mem.store_mmio(APU_CONTROL, Word(apu_ctrl & !APU_TRIGGER));

        let int_enable: u16 = mem.load_mmio(INT_ENABLE).0;
        if int_enable & INT_APU_DONE != 0 {
            let status: u16 = mem.load_mmio(INT_STATUS).0;
            mem.store_mmio(INT_STATUS, Word(status | INT_APU_DONE));
        }

        APU_COST
    }
}

} // verus!
