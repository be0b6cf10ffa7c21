//! The whole machine: CPU, PPU, APU and banked memory, run one 60 Hz frame
//! at a time.
use vstd::prelude::*;
use crate::word::Word;
use crate::memory::{BankedMemory, MemView, BANK_SIZE};
use crate::mmio::{HALT_CONTROL, INT_ENABLE, INT_STATUS, INT_VBLANK, SPR_CONTROL};
use crate::riscp::cpu::{CPU, CpuState};
use crate::ppu::{PPU, SpriteDraw, lemma_ppu_cost, lemma_ppu_keeps_status_bits};
use crate::apu::{APU, apu_step, lemma_apu_cost, lemma_apu_keeps_status_bits};

verus! {

pub const CPU_HZ: usize = 15_360_000;

/// CPU cycles in one frame at 60 frames per second (CPU_HZ / 60).
pub const CYCLES_PER_FRAME: usize = 256_000;

/// Why a frame stopped before its end.
#[derive(Clone, Copy, PartialEq, Eq, Structural, Debug)]
pub enum FrameFault {
    /// The CPU reached a word with the reserved opcode at `pc`.
    ReservedInstruction { pc: Word },
    /// A sprite draw was requested but the sprite sheet is narrower than one tile.
    EmptySpriteSheet,
}

/// The state of the machine between frames.
pub struct VmState {
    pub cpu: CpuState,
    pub mem: MemView,
    pub ppu: PPU,
    pub first_frame: bool,
}

/// Where a frame ended: the CPU and memory, the sprites drawn in order, and
/// the fault that stopped it early, if any.
pub struct FrameResult {
    pub cpu: CpuState,
    pub mem: MemView,
    pub draws: Seq<SpriteDraw>,
    pub fault: Option<FrameFault>,
}

/// An interrupt is signalled whenever an enabled interrupt's status bit is set.
pub open spec fn check_pending(cpu: CpuState, mem: MemView) -> CpuState {
    if mem.load_mmio(INT_ENABLE).0 & mem.load_mmio(INT_STATUS).0 != 0 {
        cpu.trigger_interrupt()
    } else {
        cpu
    }
}

/// The start of a frame: HALT is cleared, and, except on the first frame, an
/// enabled VBlank interrupt sets its status bit and is signalled to the CPU.
pub open spec fn frame_start(cpu: CpuState, mem: MemView, first_frame: bool) -> (CpuState, MemView) {
    let cleared = mem.store_mmio(HALT_CONTROL, Word(0));
    if !first_frame && cleared.load_mmio(INT_ENABLE).0 & INT_VBLANK != 0 {
        let status = cleared.load_mmio(INT_STATUS).0;
        (cpu.trigger_interrupt(), cleared.store_mmio(INT_STATUS, Word(status | INT_VBLANK)))
    } else {
        (cpu, cleared)
    }
}

/// Cycles of the frame budget not yet spent.
pub open spec fn cycles_left(cycles: nat) -> nat {
    if cycles < CYCLES_PER_FRAME {
        (CYCLES_PER_FRAME - cycles) as nat
    } else {
        0
    }
}

/// What follows a CPU step within a frame: the PPU steps, then the APU, then
/// pending interrupts are signalled. Gives the CPU and memory after it, the
/// cycles used with the CPU's own one, and the sprite drawn.
pub open spec fn after_cpu_step(ppu: PPU, stepped: CpuState, mem1: MemView) -> (
    CpuState,
    MemView,
    nat,
    Option<SpriteDraw>,
) {
    let (mem2, ppu_cost, draw) = ppu.step_spec(mem1);
    let (mem3, apu_cost) = apu_step(mem2);
    (check_pending(stepped, mem3), mem3, (1 + ppu_cost + apu_cost) as nat, draw)
}

/// The rest of a frame from `cycles` cycles in: until the cycle budget is spent
/// or HALT is set, the CPU steps (one cycle), then the PPU and APU step (their
/// costs in cycles), then pending interrupts are checked.
pub open spec fn run_frame(
    ppu: PPU,
    cpu: CpuState,
    mem: MemView,
    cycles: nat,
    draws: Seq<SpriteDraw>,
) -> FrameResult
    decreases cycles_left(cycles),
{
    if cycles >= CYCLES_PER_FRAME || mem.load_mmio(HALT_CONTROL) != Word(0) {
        FrameResult { cpu, mem, draws, fault: None }
    } else if !cpu.can_step(mem) {
        FrameResult { cpu, mem, draws, fault: Some(FrameFault::ReservedInstruction { pc: cpu.pc }) }
    } else {
        let (stepped, mem1) = cpu.step(mem);
        if !ppu.step_possible(mem1) {
            FrameResult { cpu: stepped, mem: mem1, draws, fault: Some(FrameFault::EmptySpriteSheet) }
        } else {
            let (cpu2, mem3, cost, draw) = after_cpu_step(ppu, stepped, mem1);
            let draws2 = match draw {
                Some(d) => draws.push(d),
                None => draws,
            };
            run_frame(ppu, cpu2, mem3, cycles + cost, draws2)
        }
    }
}

/// One whole frame from a state between frames.
pub open spec fn frame(s: VmState) -> FrameResult {
    let (cpu, mem) = frame_start(s.cpu, s.mem, s.first_frame);
    run_frame(s.ppu, cpu, mem, 0, Seq::empty())
}

/// Every frame starts with HALT cleared, so the CPU can run.
pub proof fn lemma_frame_start_clears_halt(cpu: CpuState, mem: MemView, first_frame: bool)
    requires
        mem.inv(),
    ensures
        frame_start(cpu, mem, first_frame).1.load_mmio(HALT_CONTROL) == Word(0),
        frame_start(cpu, mem, first_frame).1.inv(),
{
}

/// No interrupt fires at the start of the very first frame, so boot code runs
/// before any handler can.
pub proof fn lemma_first_frame_no_vblank(cpu: CpuState, mem: MemView)
    ensures
        frame_start(cpu, mem, true) == (cpu, mem.store_mmio(HALT_CONTROL, Word(0))),
{
}

/// Once HALT is set the frame ends: no instruction runs and nothing is drawn.
pub proof fn lemma_halt_ends_frame(
    ppu: PPU,
    cpu: CpuState,
    mem: MemView,
    cycles: nat,
    draws: Seq<SpriteDraw>,
)
    requires
        mem.load_mmio(HALT_CONTROL) != Word(0),
    ensures
        run_frame(ppu, cpu, mem, cycles, draws) == (FrameResult { cpu, mem, draws, fault: None }),
{
}

/// A frame only ever adds sprites after those already drawn.
pub proof fn lemma_frame_draws_extend(
    ppu: PPU,
    cpu: CpuState,
    mem: MemView,
    cycles: nat,
    draws: Seq<SpriteDraw>,
)
    ensures
        draws.is_prefix_of(run_frame(ppu, cpu, mem, cycles, draws).draws),
    decreases cycles_left(cycles),
{
    if cycles >= CYCLES_PER_FRAME || mem.load_mmio(HALT_CONTROL) != Word(0) {
    } else if !cpu.can_step(mem) {
    } else {
        let (stepped, mem1) = cpu.step(mem);
        if ppu.step_possible(mem1) {
            let (cpu2, mem3, cost, draw) = after_cpu_step(ppu, stepped, mem1);
            let draws2 = match draw {
                Some(d) => draws.push(d),
                None => draws,
            };
            let next = cycles + cost;
            lemma_frame_draws_extend(ppu, cpu2, mem3, next, draws2);
            assert(draws.is_prefix_of(draws2));
        }
    }
}

/// Every enabled interrupt, whatever its bit, is signalled once its status bit
/// is set, unless the CPU is already handling one; with no enabled status bit
/// set, or while handling, the CPU is left as it is. Only the pending flag can
/// change.
pub proof fn lemma_check_pending(cpu: CpuState, mem: MemView)
    ensures
        ({
            let enable = mem.load_mmio(INT_ENABLE).0;
            let status = mem.load_mmio(INT_STATUS).0;
            let after = check_pending(cpu, mem);
            &&& forall|i: u16|
                #![trigger (enable >> i) & 1, (status >> i) & 1]
                i < 16 && (enable >> i) & 1 == 1 && (status >> i) & 1 == 1
                    && !cpu.handling_interrupt ==> after.interrupt_pending
            &&& enable & status == 0 ==> after == cpu
            &&& cpu.handling_interrupt ==> after == cpu
            &&& after.pc == cpu.pc && after.regs == cpu.regs
            &&& after.interrupt_return == cpu.interrupt_return
            &&& after.handling_interrupt == cpu.handling_interrupt
            &&& cpu.interrupt_pending ==> after.interrupt_pending
        }),
{
    let enable = mem.load_mmio(INT_ENABLE).0;
    let status = mem.load_mmio(INT_STATUS).0;
    assert(forall|i: u16|
        #![trigger (enable >> i) & 1u16, (status >> i) & 1u16]
        i < 16 && (enable >> i) & 1u16 == 1u16 && (status >> i) & 1u16 == 1u16 ==> enable
            & status != 0u16) by (bit_vector);
}

/// After the CPU's step, the co-processors cost 0, 8, 16, 24, 80 or 88 cycles
/// on top of the CPU's one; they only ever set Interrupt Status bits; and any
/// enabled interrupt whose status bit is then set is pending for the next step
/// unless one is being handled. The CPU's registers and program counter are
/// left as the step left them.
pub proof fn lemma_after_cpu_step(ppu: PPU, stepped: CpuState, mem1: MemView)
    requires
        mem1.inv(),
    ensures
        ({
            let (cpu, mem, cost, draw) = after_cpu_step(ppu, stepped, mem1);
            let before = mem1.load_mmio(INT_STATUS).0;
            let after = mem.load_mmio(INT_STATUS).0;
            &&& cost == 1 || cost == 9 || cost == 17 || cost == 25 || cost == 81 || cost == 89
            &&& before & after == before
            &&& mem.load_mmio(INT_ENABLE) == mem1.load_mmio(INT_ENABLE)
            &&& mem.load_mmio(INT_ENABLE).0 & after != 0 && !stepped.handling_interrupt
                ==> cpu.interrupt_pending
            &&& cpu.pc == stepped.pc && cpu.regs == stepped.regs
            &&& cpu.handling_interrupt == stepped.handling_interrupt
            &&& (draw is Some <==> mem1.load_mmio(SPR_CONTROL).0 & 1 != 0)
        }),
{
    let (mem2, ppu_cost, draw) = ppu.step_spec(mem1);
    let (mem3, apu_cost) = apu_step(mem2);
    lemma_ppu_cost(ppu, mem1);
    lemma_ppu_keeps_status_bits(ppu, mem1);
    lemma_apu_cost(mem2);
    lemma_apu_keeps_status_bits(mem2);
    let a = mem1.load_mmio(INT_STATUS).0;
    let b = mem2.load_mmio(INT_STATUS).0;
    let c = mem3.load_mmio(INT_STATUS).0;
    assert(a & b == a && b & c == b ==> a & c == a) by (bit_vector);
}

/// A frame start that fires VBlank only sets the VBlank status bit.
pub proof fn lemma_frame_start_status(cpu: CpuState, mem: MemView, first_frame: bool)
    requires
        mem.inv(),
    ensures
        ({
            let (c, m) = frame_start(cpu, mem, first_frame);
            let before = mem.load_mmio(INT_STATUS).0;
            &&& !first_frame && mem.load_mmio(INT_ENABLE).0 & INT_VBLANK != 0 ==> m.load_mmio(
                INT_STATUS,
            ).0 == before | INT_VBLANK && c == cpu.trigger_interrupt()
            &&& (first_frame || mem.load_mmio(INT_ENABLE).0 & INT_VBLANK == 0) ==> m.load_mmio(
                INT_STATUS,
            ).0 == before && c == cpu
        }),
{
}

/// A frame is one sixtieth of a second of CPU time.
pub proof fn lemma_cycles_per_frame()
    ensures
        CYCLES_PER_FRAME * 60 == CPU_HZ,
{
}

pub struct VM {
    cpu: CPU,
    ppu: PPU,
    apu: APU,
    mem: BankedMemory,
    first_frame: bool,
}

impl View for VM {
    type V = VmState;

    closed spec fn view(&self) -> VmState {
        VmState { cpu: self.cpu@, mem: self.mem@, ppu: self.ppu, first_frame: self.first_frame }
    }
}

impl VM {
    pub open spec fn inv(&self) -> bool {
        self@.mem.inv()
    }

    /// A machine at power-on drawing from a sprite sheet `sheet_width` pixels wide.
    pub fn new(sheet_width: u32) -> (vm: VM)
        ensures
            vm.inv(),
            vm@.cpu == CpuState::initial(),
            vm@.ppu.sheet_width() == sheet_width,
            vm@.first_frame,
            forall|i: int| 0 <= i < BANK_SIZE ==> vm@.mem.default[i] == Word(0),
            forall|i: int| 0 <= i < BANK_SIZE ==> vm@.mem.ppu[i] == Word(0),
            forall|i: int| 0 <= i < BANK_SIZE ==> vm@.mem.apu[i] == Word(0),
    {
        VM {
            cpu: CPU::new(),
            ppu: PPU::new(sheet_width),
            apu: APU::new(),
            mem: BankedMemory::new(),
            first_frame: true,
        }
    }

    /// Loads cartridge data into the default bank from address 0.
    pub fn load(&mut self, data: &[Word])
        requires
            old(self).inv(),
            data@.len() <= BANK_SIZE,
        ensures
            final(self).inv(),
            final(self)@ == (VmState {
                mem: MemView {
                    default: data@ + old(self)@.mem.default.subrange(
                        data@.len() as int,
                        BANK_SIZE as int,
                    ),
                    ..old(self)@.mem
                },
                ..old(self)@
            }),
    {
        self.mem.load_default(data);
    }

    pub fn cpu(&self) -> (c: &CPU)
        ensures
            c@ == self@.cpu,
    {
        &self.cpu
    }

    pub fn memory(&self) -> (m: &BankedMemory)
        ensures
            m@ == self@.mem,
    {
        &self.mem
    }

    /// Runs one frame and returns the sprites drawn in it, in order. A frame
    /// that hits a reserved instruction, or asks for a sprite from a sheet
    /// narrower than one tile, stops there with the fault.
    pub fn step_frame(&mut self) -> (out: Result<Vec<SpriteDraw>, FrameFault>)
        requires
            old(self).inv(),
        ensures
            final(self).inv(),
            final(self)@.cpu == frame(old(self)@).cpu,
            final(self)@.mem == frame(old(self)@).mem,
            final(self)@.ppu == old(self)@.ppu,
            !final(self)@.first_frame,
            match out {
                Ok(draws) => frame(old(self)@).fault is None && draws@ == frame(old(self)@).draws,
                Err(fault) => frame(old(self)@).fault == Some(fault),
            },
    {
        // Always clear HALT at the start of a new frame so the CPU can run.
        self.mem.store_mmio(HALT_CONTROL, Word(0));

        // Fire VBlank interrupt if enabled. Skipped on the very first frame so
        // boot code runs cleanly before any interrupt can fire.
        if !self.first_frame {
            let int_enable: u16 = self.mem.load_mmio(INT_ENABLE).0;
            if int_enable & INT_VBLANK != 0 {
                let status: u16 = self.mem.load_mmio(INT_STATUS).0;
                self.mem.store_mmio(INT_STATUS, Word(status | INT_VBLANK));
                self.cpu.trigger_interrupt();
            }
        }
        self.first_frame = false;

        let ghost target = run_frame(self.ppu, self.cpu@, self.mem@, 0, Seq::empty());
        assert(target == frame(old(self)@));

        let mut draws: Vec<SpriteDraw> = Vec::new();
        let mut cycles: usize = 0;
        while cycles < CYCLES_PER_FRAME
            invariant
                self.mem.inv(),
                self.ppu == old(self).ppu,
                !self.first_frame,
                target == frame(old(self)@),
                run_frame(self.ppu, self.cpu@, self.mem@, cycles as nat, draws@) == target,
            ensures
                cycles >= CYCLES_PER_FRAME || self.mem@.load_mmio(HALT_CONTROL) != Word(0),
            decreases cycles_left(cycles as nat),
        {
            if self.mem.load_mmio(HALT_CONTROL) != Word(0) {
                break;
            }
            if !self.cpu.can_step(&self.mem) {
                return Err(FrameFault::ReservedInstruction { pc: self.cpu.get_program_counter() });
            }
            self.cpu.step(&mut self.mem);
            cycles += 1;

            if !self.ppu.can_step(&self.mem) {
                return Err(FrameFault::EmptySpriteSheet);
            }
            let (ppu_cost, draw) = self.ppu.step(&mut self.mem);
            cycles += ppu_cost;
            match draw {
                Some(d) => draws.push(d),
                None => {},
            }

            let apu_cost = self.apu.step(&mut self.mem);
            cycles += apu_cost;

            self.check_pending_interrupts();
        }
        Ok(draws)
    }

    fn check_pending_interrupts(&mut self)
        requires
            old(self).inv(),
        ensures
            final(self)@ == (VmState { cpu: check_pending(old(self)@.cpu, old(self)@.mem), ..old(self)@ }),
    {
        let int_enable: u16 = self.mem.load_mmio(INT_ENABLE).0;
        let int_status: u16 = self.mem.load_mmio(INT_STATUS).0;
        if int_enable & int_status != 0 {
            self.cpu.trigger_interrupt();
        }
    }
}

} // verus!
