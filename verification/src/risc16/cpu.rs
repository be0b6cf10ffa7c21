//! The RiSC-16 CPU: eight registers (register 0 always reads as zero) over a
//! single memory bank. An interrupt saves the program counter in the
//! Interrupt Program Counter MMIO slot, and RETI restores it from there.
use vstd::prelude::*;
use crate::word::{Word, wrap_add};
use crate::memory::MemoryBank;
use crate::mmio::INTERRUPT_PROGRAM_COUNTER;
use crate::riscp::cpu::{INTERRUPT_VECTOR, lemma_nand_bits};
use crate::risc16::inst::{self, DecInst, EncInst, Opcode, decode_spec};

verus! {

/// This is represents a RiSC-16 register
#[derive(Clone, Copy)]
pub struct Reg(Word);

impl View for Reg {
    type V = Word;

    closed spec fn view(&self) -> Word {
        self.0
    }
}

impl Reg {
    pub fn new() -> (r: Reg)
        ensures
            r@ == Word(0),
    {
        Reg(Word(0))
    }

    pub fn load(&self) -> (w: Word)
        ensures
            w == self@,
    {
        self.0
    }

    pub fn store(&mut self, word: Word)
        ensures
            final(self)@ == word,
    {
        self.0 = word
    }
}

pub const CPU_HZ: usize = 15_360_000;

/// Number of general registers.
pub const NUM_REGS: usize = 8;

/// The programmer-visible state of the CPU.
pub struct Cpu16State {
    pub pc: Word,
    pub regs: Seq<Word>,
    pub interrupt_pending: bool,
    pub handling_interrupt: bool,
}

impl Cpu16State {
    pub open spec fn initial() -> Cpu16State {
        Cpu16State {
            pc: Word(0),
            regs: Seq::new(NUM_REGS as nat, |i: int| Word(0)),
            interrupt_pending: false,
            handling_interrupt: false,
        }
    }

    /// Reading a register: register 0 always reads as zero.
    pub open spec fn reg(self, r: u8) -> Word {
        if r == 0 {
            Word(0)
        } else {
            self.regs[r as int]
        }
    }

    pub open spec fn set_reg(self, r: u8, value: Word) -> Cpu16State {
        Cpu16State { regs: self.regs.update(r as int, value), ..self }
    }

    pub open spec fn set_pc(self, pc: Word) -> Cpu16State {
        Cpu16State { pc, ..self }
    }

    /// Entering the handler: save the program counter in memory and jump to the vector.
    pub open spec fn handle_interrupt(self, mem: Seq<Word>) -> (Cpu16State, Seq<Word>) {
        (
            Cpu16State {
                handling_interrupt: true,
                interrupt_pending: false,
                pc: Word(INTERRUPT_VECTOR),
                ..self
            },
            mem.update(INTERRUPT_PROGRAM_COUNTER as int, self.pc),
        )
    }

    /// The effect of one decoded instruction; the program counter already
    /// points past it. BEQ adds its sign-extended offset modulo 2^16.
    pub open spec fn exec(self, mem: Seq<Word>, inst: DecInst) -> (Cpu16State, Seq<Word>) {
        match inst {
            DecInst::Add { r_a, r_b, r_c } => (
                self.set_reg(r_a, Word(wrap_add(self.reg(r_b).0, self.reg(r_c).0))),
                mem,
            ),
            DecInst::Addi { r_a, r_b, imm } => (
                self.set_reg(r_a, Word(wrap_add(self.reg(r_b).0, imm.0))),
                mem,
            ),
            DecInst::Nand { r_a, r_b, r_c } => (
                self.set_reg(r_a, Word(!(self.reg(r_b).0 & self.reg(r_c).0))),
                mem,
            ),
            DecInst::Lui { r_a, imm } => (self.set_reg(r_a, imm), mem),
            DecInst::Sw { r_a, r_b, imm } => (
                self,
                mem.update(wrap_add(self.reg(r_b).0, imm.0) as int, self.reg(r_a)),
            ),
            DecInst::Lw { r_a, r_b, imm } => (
                self.set_reg(r_a, mem[wrap_add(self.reg(r_b).0, imm.0) as int]),
                mem,
            ),
            DecInst::Beq { r_a, r_b, imm } => (
                if self.reg(r_a) == self.reg(r_b) {
                    self.set_pc(Word(wrap_add(self.pc.0, imm.0)))
                } else {
                    self
                },
                mem,
            ),
            DecInst::Jalr { r_a, r_b } => {
                let linked = self.set_reg(r_a, self.pc);
                (linked.set_pc(linked.reg(r_b)), mem)
            },
            DecInst::Reti => (
                Cpu16State {
                    pc: mem[INTERRUPT_PROGRAM_COUNTER as int],
                    handling_interrupt: false,
                    ..self
                },
                mem,
            ),
        }
    }

    /// One step: fetch, advance the program counter, execute (the NOOP word 0
    /// does nothing), then enter a pending interrupt.
    pub open spec fn step(self, mem: Seq<Word>) -> (Cpu16State, Seq<Word>) {
        let word = mem[self.pc.0 as int];
        let advanced = self.set_pc(Word(wrap_add(self.pc.0, 1)));
        let (executed, mem2) = if word.0 == 0 {
            (advanced, mem)
        } else {
            advanced.exec(mem, decode_spec(word.0))
        };
        if executed.interrupt_pending {
            executed.handle_interrupt(mem2)
        } else {
            (executed, mem2)
        }
    }
}

/// Every register other than `r` reads the same in both states.
pub open spec fn same_other_regs16(s: Cpu16State, t: Cpu16State, r: u8) -> bool {
    forall|q: u8| q < 8 && q != r ==> #[trigger] t.reg(q) == s.reg(q)
}

/// ADD and ADDI add modulo 2^16 (ADDI's immediate already sign-extended), NAND
/// clears exactly the bits set in both operands, and LUI loads its word; each
/// writes register A only and leaves the program counter and memory alone.
pub proof fn lemma_exec16_alu(s: Cpu16State, mem: Seq<Word>, r_a: u8, r_b: u8, r_c: u8, imm: Word)
    requires
        s.regs.len() == NUM_REGS,
        0 < r_a < 8,
        r_b < 8,
        r_c < 8,
    ensures
        ({
            let b = s.reg(r_b).0;
            let c = s.reg(r_c).0;
            let add = s.exec(mem, DecInst::Add { r_a, r_b, r_c });
            let addi = s.exec(mem, DecInst::Addi { r_a, r_b, imm });
            let nand = s.exec(mem, DecInst::Nand { r_a, r_b, r_c });
            let lui = s.exec(mem, DecInst::Lui { r_a, imm });
            &&& add.0.reg(r_a).0 as int == (b + c) % 0x10000
            &&& addi.0.reg(r_a).0 as int == (b + imm.0) % 0x10000
            &&& forall|i: u16|
                i < 16 ==> (((nand.0.reg(r_a).0 >> i) & 1 == 0) <==> ((b >> i) & 1 == 1 && (c
                    >> i) & 1 == 1))
            &&& lui.0.reg(r_a) == imm
            &&& add.0.pc == s.pc && addi.0.pc == s.pc && nand.0.pc == s.pc && lui.0.pc == s.pc
            &&& add.1 == mem && addi.1 == mem && nand.1 == mem && lui.1 == mem
            &&& same_other_regs16(s, add.0, r_a) && same_other_regs16(s, addi.0, r_a)
                && same_other_regs16(s, nand.0, r_a) && same_other_regs16(s, lui.0, r_a)
        }),
{
    lemma_nand_bits(s.reg(r_b).0, s.reg(r_c).0);
}

/// SW writes register A at register B plus the immediate (modulo 2^16), LW
/// reads that word into register A; BEQ adds its offset to the program counter
/// when A equals B and otherwise leaves it; JALR saves the program counter in
/// register A and jumps to (the new) register B; RETI resumes at the word saved
/// in the Interrupt Program Counter slot.
pub proof fn lemma_exec16_memory_and_control(
    s: Cpu16State,
    mem: Seq<Word>,
    r_a: u8,
    r_b: u8,
    imm: Word,
)
    requires
        s.regs.len() == NUM_REGS,
        r_a < 8,
        r_b < 8,
    ensures
        ({
            let addr = (s.reg(r_b).0 + imm.0) % 0x10000;
            let sw = s.exec(mem, DecInst::Sw { r_a, r_b, imm });
            let lw = s.exec(mem, DecInst::Lw { r_a, r_b, imm });
            let beq = s.exec(mem, DecInst::Beq { r_a, r_b, imm });
            let jalr = s.exec(mem, DecInst::Jalr { r_a, r_b });
            let reti = s.exec(mem, DecInst::Reti);
            &&& sw.1 == mem.update(addr, s.reg(r_a)) && sw.0 == s
            &&& r_a != 0 ==> lw.0.reg(r_a) == mem[addr]
            &&& lw.1 == mem && lw.0.pc == s.pc && same_other_regs16(s, lw.0, r_a)
            &&& s.reg(r_a) == s.reg(r_b) ==> beq.0.pc.0 as int == (s.pc.0 + imm.0) % 0x10000
            &&& s.reg(r_a) != s.reg(r_b) ==> beq.0.pc == s.pc
            &&& beq.0.regs == s.regs && beq.1 == mem
            &&& r_a != 0 ==> jalr.0.reg(r_a) == s.pc
            &&& jalr.0.pc == (if r_b == r_a && r_a != 0 { s.pc } else { s.reg(r_b) })
            &&& jalr.1 == mem && same_other_regs16(s, jalr.0, r_a)
            &&& reti.0.pc == mem[INTERRUPT_PROGRAM_COUNTER as int] && !reti.0.handling_interrupt
            &&& reti.0.regs == s.regs && reti.1 == mem
        }),
{
}

pub struct CPU {
    program_counter: Word,
    regs: [Reg; 8],
    interrupt_pending: bool,
    handling_interrupt: bool,
}

impl View for CPU {
    type V = Cpu16State;

    closed spec fn view(&self) -> Cpu16State {
        Cpu16State {
            pc: self.program_counter,
            regs: self.regs@.map_values(|r: Reg| r@),
            interrupt_pending: self.interrupt_pending,
            handling_interrupt: self.handling_interrupt,
        }
    }
}

impl CPU {
    /// The register file always has eight registers.
    pub proof fn lemma_regs_len(&self)
        ensures
            self@.regs.len() == NUM_REGS,
    {
    }

    pub fn new() -> (c: CPU)
        ensures
            c@ == Cpu16State::initial(),
    {
        let c = CPU {
            program_counter: Word(0),
            regs: [Reg(Word(0));8],
            interrupt_pending: false,
            handling_interrupt: false,
        };
        assert(c@.regs =~= Cpu16State::initial().regs);
        c
    }

    pub fn get_program_counter(&self) -> (pc: Word)
        ensures
            pc == self@.pc,
    {
        self.program_counter
    }

    /// The raw contents of register `reg`.
    pub fn register(&self, reg: u8) -> (w: Word)
        requires
            reg < 8,
        ensures
            w == self@.regs[reg as int],
    {
        self.regs[reg as usize].load()
    }

    /// Fetches, decodes and executes the instruction at the program counter,
    /// then enters a pending interrupt.
    pub fn step(&mut self, mem: &mut MemoryBank)
        requires
            old(mem).inv(),
        ensures
            final(mem).inv(),
            (final(self)@, final(mem)@) == old(self)@.step(old(mem)@),
    {
        let inst = mem.load_word(self.program_counter);
        self.program_counter = self.program_counter.wrapping_add(Word(1));

        // decode the instruction
        let inst = EncInst::new(inst);
        if !inst.is_noop() {
            let inst = self.decode(inst);

            // execute the instruction
            self.exec(mem, inst);
        }

        // check for and handle any interrupts
        if self.interrupt_pending {
            self.handle_interupt(mem);
        }
    }

    pub fn decode(&self, inst: EncInst) -> (d: DecInst)
        ensures
            d == decode_spec(inst@),
            d.wf(),
    {
        let op = inst.opcode();
        if op == Opcode(inst::ADD) {
            DecInst::Add { r_a: inst.reg_a(), r_b: inst.reg_b(), r_c: inst.reg_c() }
        } else if op == Opcode(inst::ADDI) {
            DecInst::Addi { r_a: inst.reg_a(), r_b: inst.reg_b(), imm: inst.simm() }
        } else if op == Opcode(inst::NAND) {
            DecInst::Nand { r_a: inst.reg_a(), r_b: inst.reg_b(), r_c: inst.reg_c() }
        } else if op == Opcode(inst::LUI) {
            DecInst::Lui { r_a: inst.reg_a(), imm: inst.imm() }
        } else if op == Opcode(inst::SW) {
            DecInst::Sw { r_a: inst.reg_a(), r_b: inst.reg_b(), imm: inst.simm() }
        } else if op == Opcode(inst::LW) {
            DecInst::Lw { r_a: inst.reg_a(), r_b: inst.reg_b(), imm: inst.simm() }
        } else if op == Opcode(inst::BEQ) {
            DecInst::Beq { r_a: inst.reg_a(), r_b: inst.reg_b(), imm: inst.simm() }
        } else if inst.is_reti_imm() {
            DecInst::Reti
        } else {
            DecInst::Jalr { r_a: inst.reg_a(), r_b: inst.reg_b() }
        }
    }

    /// Reads register `reg` as instructions see it: register 0 always reads
    /// as zero, whatever was last written to it.
    pub fn load_reg(&self, reg: u8) -> (w: Word)
        requires
            reg < 8,
        ensures
            w == self@.reg(reg),
            reg == 0 ==> w == Word(0),
            reg != 0 ==> w == self@.regs[reg as int],
    {
        // register 0 always contains the value 0 as per the spec
        if reg == 0 {
            return Word(0);
        }
        self.regs[reg as usize].load()
    }

    fn store_reg(&mut self, reg: u8, value: Word)
        requires
            reg < 8,
        ensures
            final(self)@ == old(self)@.set_reg(reg, value),
    {
        let mut r = self.regs[reg as usize];
        r.store(value);
        self.regs[reg as usize] = r;
        assert(self@.regs =~= old(self)@.regs.update(reg as int, value));
    }

    fn exec(&mut self, mem: &mut MemoryBank, inst: DecInst)
        requires
            old(mem).inv(),
            inst.wf(),
        ensures
            final(mem).inv(),
            (final(self)@, final(mem)@) == old(self)@.exec(old(mem)@, inst),
    {
        match inst {
            DecInst::Add { r_a, r_b, r_c } => {
                let value = self.load_reg(r_b).wrapping_add(self.load_reg(r_c));
                self.store_reg(r_a, value);
            },
            DecInst::Addi { r_a, r_b, imm } => {
                let value = self.load_reg(r_b).wrapping_add(imm);
                self.store_reg(r_a, value);
            },
            DecInst::Nand { r_a, r_b, r_c } => {
                let value = self.load_reg(r_b).and(self.load_reg(r_c)).not();
                self.store_reg(r_a, value);
            },
            DecInst::Lui { r_a, imm } => {
                self.store_reg(r_a, imm);
            },
            DecInst::Sw { r_a, r_b, imm } => {
                let addr = self.load_reg(r_b).wrapping_add(imm);
                let value = self.load_reg(r_a);
                mem.store_word(addr, value);
            },
            DecInst::Lw { r_a, r_b, imm } => {
                let addr = self.load_reg(r_b).wrapping_add(imm);
                let value = mem.load_word(addr);
                self.store_reg(r_a, value);
            },
            DecInst::Beq { r_a, r_b, imm } => {
                if self.load_reg(r_a) == self.load_reg(r_b) {
                    // adding the sign-extended offset modulo 2^16
                    self.program_counter = self.program_counter.wrapping_add(imm);
                }
            },
            DecInst::Jalr { r_a, r_b } => {
                let value = self.program_counter;
                self.store_reg(r_a, value);
                let reg_value = self.load_reg(r_b);
                self.program_counter = reg_value;
            },
            DecInst::Reti => {
                let return_addr = mem.load_word(Word(INTERRUPT_PROGRAM_COUNTER));
                self.program_counter = return_addr;
                self.handling_interrupt = false;
            },
        }
    }

    fn handle_interupt(&mut self, mem: &mut MemoryBank)
        requires
            old(mem).inv(),
        ensures
            final(mem).inv(),
            (final(self)@, final(mem)@) == old(self)@.handle_interrupt(old(mem)@),
    {
        self.handling_interrupt = true;
        self.interrupt_pending = false;

        let pc = self.program_counter;
        mem.store_word(Word(INTERRUPT_PROGRAM_COUNTER), pc);
        self.program_counter = Word(INTERRUPT_VECTOR);
    }
}

} // verus!
