//! The RISC-P CPU: sixteen registers (register 0 always reads as zero), a
//! program counter, and a hidden register that holds the interrupted program
//! counter while an interrupt is handled.
use vstd::prelude::*;
use crate::word::{Word, wrap_add, wrap_sub, wrap_mul};
use crate::memory::{BankedMemory, MemView};
use crate::riscp::inst::{DecodedInst, EncodedInst, decode_spec, is_reserved, lemma_decode_wf};
use crate::memory::lemma_store_keeps_inv;

verus! {

#[derive(Clone, Copy)]
pub struct Reg(Word);

impl View for Reg {
    type V = Word;

    closed spec fn view(&self) -> Word {
        self.0
    }
}

impl Reg {
    pub fn new() -> (r: Reg)
        ensures
            r@ == Word(0),
    {
        Reg(Word(0))
    }

    pub fn load(&self) -> (w: Word)
        ensures
            w == self@,
    {
        self.0
    }

    pub fn store(&mut self, word: Word)
        ensures
            final(self)@ == word,
    {
        self.0 = word
    }
}

/// The CPU jumps here when an interrupt fires. The last 3 words of Cart ROM
/// (0xB7BD–0xB7BF) hold a 3-instruction dispatch sequence:
///   LUI rX, <high byte of handler>
///   LLI rX, <low byte of handler>
///   JALR r0, rX
/// The actual handler ends with RETL to resume interrupted code.
pub const INTERRUPT_VECTOR: u16 = 0xB7BD;

/// Number of general registers.
pub const NUM_REGS: usize = 16;

/// The programmer-visible state of the CPU.
pub struct CpuState {
    pub pc: Word,
    pub interrupt_return: Word,
    pub regs: Seq<Word>,
    pub interrupt_pending: bool,
    pub handling_interrupt: bool,
}

impl CpuState {
    /// The power-on state: everything zero, no interrupt.
    pub open spec fn initial() -> CpuState {
        CpuState {
            pc: Word(0),
            interrupt_return: Word(0),
            regs: Seq::new(NUM_REGS as nat, |i: int| Word(0)),
            interrupt_pending: false,
            handling_interrupt: false,
        }
    }

    /// Reading a register: register 0 always reads as zero.
    pub open spec fn reg(self, r: u8) -> Word {
        if r == 0 {
            Word(0)
        } else {
            self.regs[r as int]
        }
    }

    pub open spec fn set_reg(self, r: u8, value: Word) -> CpuState {
        CpuState { regs: self.regs.update(r as int, value), ..self }
    }

    pub open spec fn set_pc(self, pc: Word) -> CpuState {
        CpuState { pc, ..self }
    }

    /// An interrupt signal: ignored while one is being handled.
    pub open spec fn trigger_interrupt(self) -> CpuState {
        if !self.handling_interrupt {
            CpuState { interrupt_pending: true, ..self }
        } else {
            self
        }
    }

    /// Entering the handler: save the program counter and jump to the vector.
    pub open spec fn handle_interrupt(self) -> CpuState {
        CpuState {
            interrupt_pending: false,
            handling_interrupt: true,
            interrupt_return: self.pc,
            pc: Word(INTERRUPT_VECTOR),
            ..self
        }
    }

    /// The effect of one decoded instruction; the program counter already
    /// points past it.
    pub open spec fn exec(self, mem: MemView, inst: DecodedInst) -> (CpuState, MemView) {
        match inst {
            DecodedInst::Add { r_a, r_b, r_c } => (
                self.set_reg(r_a, Word(wrap_add(self.reg(r_b).0, self.reg(r_c).0))),
                mem,
            ),
            DecodedInst::Sub { r_a, r_b, r_c } => (
                self.set_reg(r_a, Word(wrap_sub(self.reg(r_b).0, self.reg(r_c).0))),
                mem,
            ),
            DecodedInst::Mul { r_a, r_b, r_c } => (
                self.set_reg(r_a, Word(wrap_mul(self.reg(r_b).0, self.reg(r_c).0))),
                mem,
            ),
            DecodedInst::Xor { r_a, r_b, r_c } => (
                self.set_reg(r_a, Word(self.reg(r_b).0 ^ self.reg(r_c).0)),
                mem,
            ),
            DecodedInst::Nand { r_a, r_b, r_c } => (
                self.set_reg(r_a, Word(!(self.reg(r_b).0 & self.reg(r_c).0))),
                mem,
            ),
            DecodedInst::Shl { r_a, r_b, imm } => (
                self.set_reg(r_a, Word(self.reg(r_b).0 << imm.0)),
                mem,
            ),
            DecodedInst::Shr { r_a, r_b, imm } => (
                self.set_reg(r_a, Word(self.reg(r_b).0 >> imm.0)),
                mem,
            ),
            DecodedInst::Lui { r_a, imm } => (self.set_reg(r_a, Word(imm.0 << 8u16)), mem),
            DecodedInst::Lli { r_a, imm } => (
                self.set_reg(r_a, Word(self.reg(r_a).0 | imm.0)),
                mem,
            ),
            DecodedInst::Sw { r_a, r_b, imm } => (
                self,
                mem.store(Word(wrap_add(self.reg(r_b).0, imm.0)), self.reg(r_a)),
            ),
            DecodedInst::Lw { r_a, r_b, imm } => (
                self.set_reg(r_a, mem.load(Word(wrap_add(self.reg(r_b).0, imm.0)))),
                mem,
            ),
            DecodedInst::Jalr { r_a, r_b, .. } => {
                let linked = self.set_reg(r_a, self.pc);
                (linked.set_pc(linked.reg(r_b)), mem)
            },
            DecodedInst::Beq { r_a, r_b, r_c } => (
                if self.reg(r_b) == self.reg(r_c) {
                    self.set_pc(self.reg(r_a))
                } else {
                    self
                },
                mem,
            ),
            DecodedInst::Bne { r_a, r_b, r_c } => (
                if self.reg(r_b) != self.reg(r_c) {
                    self.set_pc(self.reg(r_a))
                } else {
                    self
                },
                mem,
            ),
            DecodedInst::Blt { r_a, r_b, r_c } => (
                if self.reg(r_b).0 < self.reg(r_c).0 {
                    self.set_pc(self.reg(r_a))
                } else {
                    self
                },
                mem,
            ),
            DecodedInst::Noop => (self, mem),
            DecodedInst::Retl => (
                CpuState { handling_interrupt: false, pc: self.interrupt_return, ..self },
                mem,
            ),
        }
    }

    /// The word at the program counter, fetched from the default bank.
    pub open spec fn next_word(self, mem: MemView) -> Word {
        mem.fetch(self.pc)
    }

    /// The CPU can take a step unless the next word has the reserved opcode.
    pub open spec fn can_step(self, mem: MemView) -> bool {
        !is_reserved(self.next_word(mem).0)
    }

    /// One step: fetch, advance the program counter, execute (the NOOP word 0
    /// does nothing), then enter a pending interrupt.
    pub open spec fn step(self, mem: MemView) -> (CpuState, MemView) {
        let word = self.next_word(mem);
        let advanced = self.set_pc(Word(wrap_add(self.pc.0, 1)));
        let (executed, mem2) = if word.0 == 0 {
            (advanced, mem)
        } else {
            advanced.exec(mem, decode_spec(word.0))
        };
        if executed.interrupt_pending {
            (executed.handle_interrupt(), mem2)
        } else {
            (executed, mem2)
        }
    }
}

/// Register 0 reads as zero in every state, also right after a write to it.
pub proof fn lemma_register_zero(s: CpuState, value: Word)
    ensures
        s.reg(0) == Word(0),
        s.set_reg(0, value).reg(0) == Word(0),
{
}

/// A step keeps the register file at sixteen registers and every bank at full size.
pub proof fn lemma_step_keeps_shape(s: CpuState, mem: MemView)
    requires
        s.regs.len() == NUM_REGS,
        mem.inv(),
        s.can_step(mem),
    ensures
        s.step(mem).0.regs.len() == NUM_REGS,
        s.step(mem).1.inv(),
{
    let word = s.next_word(mem);
    lemma_decode_wf(word.0);
    let advanced = s.set_pc(Word(wrap_add(s.pc.0, 1)));
    match decode_spec(word.0) {
        DecodedInst::Sw { r_a, r_b, imm } => {
            lemma_store_keeps_inv(mem, Word(wrap_add(advanced.reg(r_b).0, imm.0)), advanced.reg(r_a));
        },
        _ => {},
    }
}

/// Instructions never touch the pending flag or the saved return address: only
/// entering an interrupt does.
pub proof fn lemma_exec_keeps_interrupt_state(s: CpuState, mem: MemView, inst: DecodedInst)
    ensures
        s.exec(mem, inst).0.interrupt_pending == s.interrupt_pending,
        s.exec(mem, inst).0.interrupt_return == s.interrupt_return,
{
}

/// With no interrupt pending, a step keeps the saved return address.
pub proof fn lemma_step_keeps_return_address(s: CpuState, mem: MemView)
    requires
        !s.interrupt_pending,
    ensures
        s.step(mem).0.interrupt_return == s.interrupt_return,
        !s.step(mem).0.interrupt_pending,
{
}

/// A pending interrupt is entered right after the next word, an instruction or
/// the NOOP word 0: the program counter that the word left is saved, and
/// execution continues at the interrupt vector with the interrupt marked as
/// being handled.
pub proof fn lemma_interrupt_entry(s: CpuState, mem: MemView)
    requires
        s.interrupt_pending,
    ensures
        ({
            let word = s.next_word(mem);
            let advanced = s.set_pc(Word(wrap_add(s.pc.0, 1)));
            let executed = if word.0 == 0 {
                advanced
            } else {
                advanced.exec(mem, decode_spec(word.0)).0
            };
            let after = s.step(mem).0;
            &&& after.pc == Word(INTERRUPT_VECTOR)
            &&& after.interrupt_return == executed.pc
            &&& after.handling_interrupt
            &&& !after.interrupt_pending
        }),
        s.next_word(mem).0 == 0 ==> s.step(mem).0.interrupt_return == Word(wrap_add(s.pc.0, 1)),
        INTERRUPT_VECTOR == 0xB7BD,
{
    let advanced = s.set_pc(Word(wrap_add(s.pc.0, 1)));
    lemma_exec_keeps_interrupt_state(advanced, mem, decode_spec(s.next_word(mem).0));
}

/// RETL resumes the interrupted code: the program counter becomes the saved
/// return address and the interrupt is no longer being handled.
pub proof fn lemma_retl_resumes(s: CpuState, mem: MemView)
    requires
        decode_spec(s.next_word(mem).0) is Retl,
        !s.interrupt_pending,
    ensures
        s.step(mem).0.pc == s.interrupt_return,
        !s.step(mem).0.handling_interrupt,
{
}

/// An interrupt signalled while one is being handled is ignored.
pub proof fn lemma_no_nested_interrupts(s: CpuState)
    requires
        s.handling_interrupt,
    ensures
        s.trigger_interrupt() == s,
{
}

/// Bit `i` of a NAND is clear exactly when bit `i` is set in both operands.
pub proof fn lemma_nand_bits(x: u16, y: u16)
    ensures
        forall|i: u16|
            i < 16 ==> (((!(x & y)) >> i) & 1 == 0 <==> ((x >> i) & 1 == 1 && (y >> i) & 1 == 1)),
{
    assert(forall|i: u16|
        i < 16 ==> (((!(x & y)) >> i) & 1u16 == 0u16 <==> ((x >> i) & 1u16 == 1u16 && (y >> i)
            & 1u16 == 1u16))) by (bit_vector);
}

/// Every register other than `r` reads the same in both states.
pub open spec fn same_other_regs(s: CpuState, t: CpuState, r: u8) -> bool {
    forall|q: u8| q < 16 && q != r ==> #[trigger] t.reg(q) == s.reg(q)
}

/// The register-to-register instructions: each writes its result to register A
/// and leaves the other registers, the program counter and memory alone. ADD,
/// SUB and MUL compute modulo 2^16; NAND clears exactly the bits set in both
/// operands; XOR sets exactly the bits in which the operands differ.
pub proof fn lemma_exec_alu(s: CpuState, mem: MemView, r_a: u8, r_b: u8, r_c: u8)
    requires
        s.regs.len() == NUM_REGS,
        0 < r_a < 16,
        r_b < 16,
        r_c < 16,
    ensures
        ({
            let b = s.reg(r_b).0;
            let c = s.reg(r_c).0;
            let add = s.exec(mem, DecodedInst::Add { r_a, r_b, r_c });
            let sub = s.exec(mem, DecodedInst::Sub { r_a, r_b, r_c });
            let mul = s.exec(mem, DecodedInst::Mul { r_a, r_b, r_c });
            let xor = s.exec(mem, DecodedInst::Xor { r_a, r_b, r_c });
            let nand = s.exec(mem, DecodedInst::Nand { r_a, r_b, r_c });
            &&& add.0.reg(r_a).0 as int == (b + c) % 0x10000
            &&& sub.0.reg(r_a).0 as int == (b - c) % 0x10000
            &&& mul.0.reg(r_a).0 as int == (b * c) % 0x10000
            &&& forall|i: u16|
                i < 16 ==> (((xor.0.reg(r_a).0 >> i) & 1 == 1) <==> ((b >> i) & 1 != (c >> i)
                    & 1))
            &&& forall|i: u16|
                i < 16 ==> (((nand.0.reg(r_a).0 >> i) & 1 == 0) <==> ((b >> i) & 1 == 1 && (c
                    >> i) & 1 == 1))
            &&& add.0.pc == s.pc && sub.0.pc == s.pc && mul.0.pc == s.pc && xor.0.pc == s.pc
                && nand.0.pc == s.pc
            &&& add.1 == mem && sub.1 == mem && mul.1 == mem && xor.1 == mem && nand.1 == mem
            &&& same_other_regs(s, add.0, r_a) && same_other_regs(s, sub.0, r_a)
                && same_other_regs(s, mul.0, r_a) && same_other_regs(s, xor.0, r_a)
                && same_other_regs(s, nand.0, r_a)
        }),
{
    let b = s.reg(r_b).0;
    let c = s.reg(r_c).0;
    lemma_nand_bits(b, c);
    assert(forall|i: u16|
        i < 16 ==> ((((b ^ c) >> i) & 1u16 == 1u16) <==> ((b >> i) & 1u16 != (c >> i) & 1u16)))
        by (bit_vector);
}

/// Shifts: after SHL by k, bit i of register A is bit i - k of register B (zero
/// below k); after SHR by k, bit i is bit i + k of register B (zero from 16 - k).
pub proof fn lemma_exec_shifts(s: CpuState, mem: MemView, r_a: u8, r_b: u8, imm: Word)
    requires
        s.regs.len() == NUM_REGS,
        0 < r_a < 16,
        r_b < 16,
        imm.0 < 16,
    ensures
        ({
            let b = s.reg(r_b).0;
            let k = imm.0;
            let shl = s.exec(mem, DecodedInst::Shl { r_a, r_b, imm }).0.reg(r_a).0;
            let shr = s.exec(mem, DecodedInst::Shr { r_a, r_b, imm }).0.reg(r_a).0;
            &&& forall|i: u16|
                i < 16 ==> (shl >> i) & 1 == (if i >= k {
                    (b >> ((i - k) as u16)) & 1
                } else {
                    0
                })
            &&& forall|i: u16|
                i < 16 ==> (shr >> i) & 1 == (if i + k < 16 {
                    (b >> ((i + k) as u16)) & 1
                } else {
                    0
                })
        }),
        same_other_regs(s, s.exec(mem, DecodedInst::Shl { r_a, r_b, imm }).0, r_a),
        same_other_regs(s, s.exec(mem, DecodedInst::Shr { r_a, r_b, imm }).0, r_a),
        s.exec(mem, DecodedInst::Shl { r_a, r_b, imm }).0.pc == s.pc,
        s.exec(mem, DecodedInst::Shr { r_a, r_b, imm }).0.pc == s.pc,
        s.exec(mem, DecodedInst::Shl { r_a, r_b, imm }).1 == mem,
        s.exec(mem, DecodedInst::Shr { r_a, r_b, imm }).1 == mem,
{
    let b = s.reg(r_b).0;
    let k = imm.0;
    assert(forall|i: u16|
        i < 16 && k < 16 ==> ((b << k) >> i) & 1u16 == (if i >= k {
            (b >> ((i - k) as u16)) & 1u16
        } else {
            0u16
        })) by (bit_vector);
    assert(forall|i: u16|
        i < 16 && k < 16 ==> ((b >> k) >> i) & 1u16 == (if i + k < 16 {
            (b >> ((i + k) as u16)) & 1u16
        } else {
            0u16
        })) by (bit_vector);
}

/// LUI loads its 8-bit immediate into the upper byte and clears the lower one;
/// LLI ORs its immediate into register A.
pub proof fn lemma_exec_load_immediates(s: CpuState, mem: MemView, r_a: u8, imm: Word)
    requires
        s.regs.len() == NUM_REGS,
        0 < r_a < 16,
        imm.0 < 256,
    ensures
        s.exec(mem, DecodedInst::Lui { r_a, imm }).0.reg(r_a).0 == imm.0 * 256,
        s.exec(mem, DecodedInst::Lli { r_a, imm }).0.reg(r_a).0 == s.reg(r_a).0 | imm.0,
        same_other_regs(s, s.exec(mem, DecodedInst::Lui { r_a, imm }).0, r_a),
        same_other_regs(s, s.exec(mem, DecodedInst::Lli { r_a, imm }).0, r_a),
        s.exec(mem, DecodedInst::Lui { r_a, imm }).1 == mem,
        s.exec(mem, DecodedInst::Lli { r_a, imm }).1 == mem,
{
    let i = imm.0;
    assert(i < 256 ==> i << 8u16 == i * 256) by (bit_vector);
}

/// SW writes register A through the active bank at register B plus the
/// immediate (modulo 2^16); LW reads that address into register A.
pub proof fn lemma_exec_memory(s: CpuState, mem: MemView, r_a: u8, r_b: u8, imm: Word)
    requires
        s.regs.len() == NUM_REGS,
        r_a < 16,
        r_b < 16,
    ensures
        ({
            let addr = Word(((s.reg(r_b).0 + imm.0) % 0x10000) as u16);
            let sw = s.exec(mem, DecodedInst::Sw { r_a, r_b, imm });
            let lw = s.exec(mem, DecodedInst::Lw { r_a, r_b, imm });
            &&& sw.1 == mem.store(addr, s.reg(r_a))
            &&& sw.0 == s
            &&& r_a != 0 ==> lw.0.reg(r_a) == mem.load(addr)
            &&& lw.1 == mem
            &&& lw.0.pc == s.pc
            &&& same_other_regs(s, lw.0, r_a)
        }),
{
}

/// Branches: BEQ jumps to register A when B equals C, BNE when they differ,
/// and BLT when B is less than C as an unsigned number; otherwise the program
/// counter stays. Registers and memory never change. JALR saves the program
/// counter in register A and jumps to (the new) register B.
pub proof fn lemma_exec_branches(s: CpuState, mem: MemView, r_a: u8, r_b: u8, r_c: u8, imm: Word)
    requires
        s.regs.len() == NUM_REGS,
        r_a < 16,
        r_b < 16,
        r_c < 16,
    ensures
        ({
            let b = s.reg(r_b).0;
            let c = s.reg(r_c).0;
            let beq = s.exec(mem, DecodedInst::Beq { r_a, r_b, r_c });
            let bne = s.exec(mem, DecodedInst::Bne { r_a, r_b, r_c });
            let blt = s.exec(mem, DecodedInst::Blt { r_a, r_b, r_c });
            let jalr = s.exec(mem, DecodedInst::Jalr { r_a, r_b, imm });
            &&& b == c ==> beq.0.pc == s.reg(r_a) && bne.0.pc == s.pc
            &&& b != c ==> beq.0.pc == s.pc && bne.0.pc == s.reg(r_a)
            &&& b < c ==> blt.0.pc == s.reg(r_a)
            &&& b >= c ==> blt.0.pc == s.pc
            &&& beq.0.regs == s.regs && bne.0.regs == s.regs && blt.0.regs == s.regs
            &&& beq.1 == mem && bne.1 == mem && blt.1 == mem
            &&& r_a != 0 ==> jalr.0.reg(r_a) == s.pc
            &&& jalr.0.pc == (if r_b == r_a && r_a != 0 { s.pc } else { s.reg(r_b) })
            &&& jalr.1 == mem
            &&& same_other_regs(s, jalr.0, r_a)
        }),
{
}

/// With no interrupt pending, a step that fetches a non-jumping instruction (or
/// the NOOP word) from the default bank moves the program counter on by one,
/// modulo 2^16.
pub proof fn lemma_step_advances(s: CpuState, mem: MemView)
    requires
        !s.interrupt_pending,
        ({
            let d = decode_spec(mem.default[s.pc.0 as int].0);
            !(d is Jalr || d is Beq || d is Bne || d is Blt || d is Retl)
        }),
    ensures
        s.step(mem).0.pc.0 as int == (s.pc.0 + 1) % 0x10000,
{
}

pub struct CPU {
    program_counter: Word,
    interrupt_return: Reg,
    regs: [Reg; 16],
    interrupt_pending: bool,
    handling_interrupt: bool,
}

impl View for CPU {
    type V = CpuState;

    closed spec fn view(&self) -> CpuState {
        CpuState {
            pc: self.program_counter,
            interrupt_return: self.interrupt_return@,
            regs: self.regs@.map_values(|r: Reg| r@),
            interrupt_pending: self.interrupt_pending,
            handling_interrupt: self.handling_interrupt,
        }
    }
}

impl CPU {
    /// The register file always has sixteen registers.
    pub proof fn lemma_regs_len(&self)
        ensures
            self@.regs.len() == NUM_REGS,
    {
    }

    pub fn new() -> (c: CPU)
        ensures
            c@ == CpuState::initial(),
    {
        let c = CPU {
            program_counter: Word(0),
            interrupt_return: Reg::new(),
            regs: [Reg(Word(0));16],
            interrupt_pending: false,
            handling_interrupt: false,
        };
        assert(c@.regs =~= CpuState::initial().regs);
        c
    }

    pub fn get_program_counter(&self) -> (pc: Word)
        ensures
            pc == self@.pc,
    {
        self.program_counter
    }

    /// The raw contents of register `reg` (register 0 holds whatever was
    /// last written to it, though instructions always read it as zero).
    pub fn register(&self, reg: u8) -> (w: Word)
        requires
            reg < 16,
        ensures
            w == self@.regs[reg as int],
    {
        self.regs[reg as usize].load()
    }

    pub fn interrupt_return(&self) -> (w: Word)
        ensures
            w == self@.interrupt_return,
    {
        self.interrupt_return.load()
    }

    pub fn interrupt_pending(&self) -> (b: bool)
        ensures
            b == self@.interrupt_pending,
    {
        self.interrupt_pending
    }

    pub fn handling_interrupt(&self) -> (b: bool)
        ensures
            b == self@.handling_interrupt,
    {
        self.handling_interrupt
    }

    /// Signals an interrupt to the CPU. Ignored if already handling one.
    pub fn trigger_interrupt(&mut self)
        ensures
            final(self)@ == old(self)@.trigger_interrupt(),
    {
        if !self.handling_interrupt {
            self.interrupt_pending = true;
        }
    }

    /// Whether the word at the program counter is an instruction (its opcode is
    /// not the reserved one), so that `step` may run.
    pub fn can_step(&self, mem: &BankedMemory) -> (b: bool)
        requires
            mem.inv(),
        ensures
            b == self@.can_step(mem@),
    {
        let word = mem.fetch(self.program_counter);
        (word.0 & crate::riscp::inst::OPCODE_MASK) != crate::riscp::inst::RESERVED
    }

    /// Fetches, decodes and executes the instruction at the program counter,
    /// then enters a pending interrupt.
    pub fn step(&mut self, mem: &mut BankedMemory)
        requires
            old(mem).inv(),
            old(self)@.can_step(old(mem)@),
        ensures
            final(mem).inv(),
            (final(self)@, final(mem)@) == old(self)@.step(old(mem)@),
    {
        // Instruction fetch always reads from the default bank.
        let inst = mem.fetch(self.program_counter);
        self.program_counter = self.program_counter.wrapping_add(Word(1));

        let inst = EncodedInst::new(inst);
        if !inst.is_noop() {
            let inst = inst.decode();
            self.exec(mem, inst);
        }

        if self.interrupt_pending {
            self.handle_interrupt();
        }
    }

    /// Reads register `reg` as instructions see it: register 0 always reads
    /// as zero, whatever was last written to it.
    pub fn load_reg(&self, reg: u8) -> (w: Word)
        requires
            reg < 16,
        ensures
            w == self@.reg(reg),
            reg == 0 ==> w == Word(0),
            reg != 0 ==> w == self@.regs[reg as int],
    {
        if reg == 0 {
            return Word(0);
        }
        self.regs[reg as usize].load()
    }

    fn store_reg(&mut self, reg: u8, value: Word)
        requires
            reg < 16,
        ensures
            final(self)@ == old(self)@.set_reg(reg, value),
    {
        let mut r = self.regs[reg as usize];
        r.store(value);
        self.regs[reg as usize] = r;
        assert(self@.regs =~= old(self)@.regs.update(reg as int, value));
    }

    fn exec(&mut self, mem: &mut BankedMemory, inst: DecodedInst)
        requires
            old(mem).inv(),
            inst.wf(),
        ensures
            final(mem).inv(),
            (final(self)@, final(mem)@) == old(self)@.exec(old(mem)@, inst),
    {
        match inst {
            DecodedInst::Add { r_a, r_b, r_c } => {
                let value = self.load_reg(r_b).wrapping_add(self.load_reg(r_c));
                self.store_reg(r_a, value);
            },
            DecodedInst::Sub { r_a, r_b, r_c } => {
                let value = self.load_reg(r_b).wrapping_sub(self.load_reg(r_c));
                self.store_reg(r_a, value);
            },
            DecodedInst::Mul { r_a, r_b, r_c } => {
                let value = self.load_reg(r_b).wrapping_mul(self.load_reg(r_c));
                self.store_reg(r_a, value);
            },
            DecodedInst::Xor { r_a, r_b, r_c } => {
                let value = self.load_reg(r_b).xor(self.load_reg(r_c));
                self.store_reg(r_a, value);
            },
            DecodedInst::Nand { r_a, r_b, r_c } => {
                let value = self.load_reg(r_b).and(self.load_reg(r_c)).not();
                self.store_reg(r_a, value);
            },
            DecodedInst::Shl { r_a, r_b, imm } => {
                let value = self.load_reg(r_b).shl(imm);
                self.store_reg(r_a, value);
            },
            DecodedInst::Shr { r_a, r_b, imm } => {
                let value = self.load_reg(r_b).shr(imm);
                self.store_reg(r_a, value);
            },
            DecodedInst::Lui { r_a, imm } => {
                self.store_reg(r_a, imm.shl(Word(8)));
            },
            DecodedInst::Lli { r_a, imm } => {
                let value = self.load_reg(r_a).or(imm);
                self.store_reg(r_a, value);
            },
            DecodedInst::Sw { r_a, r_b, imm } => {
                let addr = self.load_reg(r_b).wrapping_add(imm);
                let value = self.load_reg(r_a);
                mem.store(addr, value);
            },
            DecodedInst::Lw { r_a, r_b, imm } => {
                let addr = self.load_reg(r_b).wrapping_add(imm);
                let value = mem.load(addr);
                self.store_reg(r_a, value);
            },
            DecodedInst::Jalr { r_a, r_b, .. } => {
                self.store_reg(r_a, self.program_counter);
                let reg_value = self.load_reg(r_b);
                self.program_counter = reg_value;
            },
            DecodedInst::Beq { r_a, r_b, r_c } => {
                if self.load_reg(r_b) == self.load_reg(r_c) {
                    self.program_counter = self.load_reg(r_a);
                }
            },
            DecodedInst::Bne { r_a, r_b, r_c } => {
                if self.load_reg(r_b) != self.load_reg(r_c) {
                    self.program_counter = self.load_reg(r_a);
                }
            },
            DecodedInst::Blt { r_a, r_b, r_c } => {
                if self.load_reg(r_b).0 < self.load_reg(r_c).0 {
                    self.program_counter = self.load_reg(r_a);
                }
            },
            DecodedInst::Noop => {},
            DecodedInst::Retl => {
                self.handling_interrupt = false;
                self.program_counter = self.interrupt_return.load();
            },
        }
    }

    fn handle_interrupt(&mut self)
        ensures
            final(self)@ == old(self)@.handle_interrupt(),
    {
        self.interrupt_pending = false;
        self.handling_interrupt = true;
        self.interrupt_return.store(self.program_counter);
        self.program_counter = Word(INTERRUPT_VECTOR);
    }
}

} // verus!
