//! RiSC-16 instruction encoding: a 3-bit opcode, 3-bit register fields, and a
//! 7-bit signed or 10-bit unsigned immediate.
use vstd::prelude::*;
use crate::word::Word;

verus! {

/// The opcode field of an instruction, kept in place (bits 13-15).
#[derive(Clone, Copy, PartialEq, Eq, Structural, Debug)]
pub struct Opcode(pub u16);

pub const ADD: u16 = 0x0000;
pub const ADDI: u16 = 0x2000;
pub const NAND: u16 = 0x4000;
pub const LUI: u16 = 0x6000;
pub const SW: u16 = 0x8000;
pub const LW: u16 = 0xA000;
pub const BEQ: u16 = 0xC000;
pub const JALR: u16 = 0xE000;

pub const OPCODE_MASK: u16 = 0b1110_0000_0000_0000;
pub const REG_A_MASK: u16 = 0b0001_1100_0000_0000;
pub const REG_B_MASK: u16 = 0b0000_0011_1000_0000;
pub const REG_C_MASK: u16 = 0b0000_0000_0000_0111;
pub const SIMM_MASK: u16 = 0b0000_0000_0111_1111;
pub const IMM_MASK: u16 = 0b0000_0011_1111_1111;
pub const RETI_MASK: u16 = 0b0000_0000_0111_1111;

/// Register A: bits 10-12.
pub open spec fn field_a(bits: u16) -> u8 {
    ((bits & REG_A_MASK) >> 10u16) as u8
}

/// Register B: bits 7-9.
pub open spec fn field_b(bits: u16) -> u8 {
    ((bits & REG_B_MASK) >> 7u16) as u8
}

/// Register C: bits 0-2.
pub open spec fn field_c(bits: u16) -> u8 {
    (bits & REG_C_MASK) as u8
}

/// The 7-bit signed immediate (bits 0-6), sign-extended to 16 bits.
pub open spec fn field_simm(bits: u16) -> Word {
    if bits & 0x40 != 0 {
        Word((bits & SIMM_MASK) | 0xFF80)
    } else {
        Word(bits & SIMM_MASK)
    }
}

/// The 10-bit unsigned immediate (bits 0-9), placed in the upper ten bits.
pub open spec fn field_imm(bits: u16) -> Word {
    Word((bits & IMM_MASK) << 6u16)
}

/// The instruction that a word stands for. JALR with a non-zero low
/// immediate is RETI.
pub open spec fn decode_spec(bits: u16) -> DecInst {
    let op = bits & OPCODE_MASK;
    let r_a = field_a(bits);
    let r_b = field_b(bits);
    if op == ADD {
        DecInst::Add { r_a, r_b, r_c: field_c(bits) }
    } else if op == ADDI {
        DecInst::Addi { r_a, r_b, imm: field_simm(bits) }
    } else if op == NAND {
        DecInst::Nand { r_a, r_b, r_c: field_c(bits) }
    } else if op == LUI {
        DecInst::Lui { r_a, imm: field_imm(bits) }
    } else if op == SW {
        DecInst::Sw { r_a, r_b, imm: field_simm(bits) }
    } else if op == LW {
        DecInst::Lw { r_a, r_b, imm: field_simm(bits) }
    } else if op == BEQ {
        DecInst::Beq { r_a, r_b, imm: field_simm(bits) }
    } else if bits & RETI_MASK > 0 {
        DecInst::Reti
    } else {
        DecInst::Jalr { r_a, r_b }
    }
}

pub open spec fn pack_rr(op: u16, r_a: u8, r_b: u8) -> u16 {
    op | ((r_a as u16) << 10u16) | ((r_b as u16) << 7u16)
}

/// The word that an instruction is encoded as. Register fields are OR-ed in
/// unmasked; immediates are cut to their field width.
pub open spec fn encode_spec(inst: DecInst) -> u16 {
    match inst {
        DecInst::Add { r_a, r_b, r_c } => pack_rr(ADD, r_a, r_b) | (r_c as u16),
        DecInst::Addi { r_a, r_b, imm } => pack_rr(ADDI, r_a, r_b) | (imm.0 & 0x7F),
        DecInst::Nand { r_a, r_b, r_c } => pack_rr(NAND, r_a, r_b) | (r_c as u16),
        DecInst::Lui { r_a, imm } => LUI | ((r_a as u16) << 10u16) | (imm.0 & 0x3FF),
        DecInst::Sw { r_a, r_b, imm } => pack_rr(SW, r_a, r_b) | (imm.0 & 0x7F),
        DecInst::Lw { r_a, r_b, imm } => pack_rr(LW, r_a, r_b) | (imm.0 & 0x7F),
        DecInst::Beq { r_a, r_b, imm } => pack_rr(BEQ, r_a, r_b) | (imm.0 & 0x7F),
        DecInst::Jalr { r_a, r_b } => pack_rr(JALR, r_a, r_b),
        DecInst::Reti => 0x0001,
    }
}

/// A word that is the sign extension of a 7-bit value, i.e. lies in -64 ..= 63.
pub open spec fn is_simm7(w: Word) -> bool {
    w.0 < 64 || w.0 >= 0xFFC0
}

/// These are the decoded instructions which mean they may be longer than 16-bits for conviencne
#[derive(Clone, Copy, PartialEq, Eq, Structural, Debug)]
pub enum DecInst {
    Add { r_a: u8, r_b: u8, r_c: u8 },
    Addi { r_a: u8, r_b: u8, imm: Word },
    Nand { r_a: u8, r_b: u8, r_c: u8 },
    Lui { r_a: u8, imm: Word },
    Sw { r_a: u8, r_b: u8, imm: Word },
    Lw { r_a: u8, r_b: u8, imm: Word },
    Beq { r_a: u8, r_b: u8, imm: Word },
    Jalr { r_a: u8, r_b: u8 },
    Reti,
}

impl DecInst {
    /// Every register field names one of the eight registers.
    pub open spec fn wf(self) -> bool {
        match self {
            DecInst::Add { r_a, r_b, r_c } | DecInst::Nand { r_a, r_b, r_c } => r_a < 8 && r_b
                < 8 && r_c < 8,
            DecInst::Addi { r_a, r_b, .. }
            | DecInst::Sw { r_a, r_b, .. }
            | DecInst::Lw { r_a, r_b, .. }
            | DecInst::Beq { r_a, r_b, .. }
            | DecInst::Jalr { r_a, r_b } => r_a < 8 && r_b < 8,
            DecInst::Lui { r_a, .. } => r_a < 8,
            DecInst::Reti => true,
        }
    }

    /// An instruction that decodes back from its encoding: registers in range,
    /// signed immediates within -64 ..= 63, and not LUI (whose encoding keeps
    /// the field, while its decoding is the field shifted into place) or RETI.
    pub open spec fn is_canonical(self) -> bool {
        &&& self.wf()
        &&& match self {
            DecInst::Addi { imm, .. }
            | DecInst::Sw { imm, .. }
            | DecInst::Lw { imm, .. }
            | DecInst::Beq { imm, .. } => is_simm7(imm),
            DecInst::Lui { .. } | DecInst::Reti => false,
            _ => true,
        }
    }

    pub fn encode(self) -> (e: EncInst)
        ensures
            e@ == encode_spec(self),
    {
        let bits = match self {
            DecInst::Add { r_a, r_b, r_c } => ADD | ((r_a as u16) << 10) | ((r_b as u16) << 7) | (
            r_c as u16),
            DecInst::Addi { r_a, r_b, imm } => {
                let imm: u16 = imm.0;
                ADDI | ((r_a as u16) << 10) | ((r_b as u16) << 7) | (imm & 0x7Fu16)
            },
            DecInst::Nand { r_a, r_b, r_c } => NAND | ((r_a as u16) << 10) | ((r_b as u16) << 7)
                | (r_c as u16),
            DecInst::Lui { r_a, imm } => {
                let imm: u16 = imm.0;
                LUI | ((r_a as u16) << 10) | (imm & 0x3FF)
            },
            DecInst::Sw { r_a, r_b, imm } => {
                let imm: u16 = imm.0;
                SW | ((r_a as u16) << 10) | ((r_b as u16) << 7) | (imm & 0x7F)
            },
            DecInst::Lw { r_a, r_b, imm } => {
                let imm: u16 = imm.0;
                LW | ((r_a as u16) << 10) | ((r_b as u16) << 7) | (imm & 0x7F)
            },
            DecInst::Beq { r_a, r_b, imm } => {
                let imm: u16 = imm.0;
                BEQ | ((r_a as u16) << 10) | ((r_b as u16) << 7) | (imm & 0x7F)
            },
            DecInst::Jalr { r_a, r_b } => JALR | ((r_a as u16) << 10) | ((r_b as u16) << 7),
            DecInst::Reti => 0x0001,
        };
        EncInst(bits)
    }
}

/// The layout of RISC-16.md: the opcode number in bits 13-15 (0 ADD, 1 ADDI,
/// 2 NAND, 3 LUI, 4 SW, 5 LW, 6 BEQ, 7 JALR), register A in bits 10-12,
/// register B in bits 7-9, register C in bits 0-2, the signed immediate in bits
/// 0-6 (-64 ..= 63), and the unsigned immediate in bits 0-9, loaded into the
/// upper ten bits. JALR with a non-zero low immediate is RETI.
pub proof fn lemma_decode_layout(bits: u16)
    ensures
        field_a(bits) as u16 == (bits / 1024) % 8,
        field_b(bits) as u16 == (bits / 128) % 8,
        field_c(bits) as u16 == bits % 8,
        bits % 128 < 64 ==> field_simm(bits).0 == bits % 128,
        bits % 128 >= 64 ==> field_simm(bits).0 as int == bits % 128 - 128 + 0x10000,
        field_imm(bits).0 as int == (bits % 1024) * 64,
        ({
            let (a, b, c) = (field_a(bits), field_b(bits), field_c(bits));
            let simm = field_simm(bits);
            let op = bits / 8192;
            let d = decode_spec(bits);
            &&& op == 0 ==> d == DecInst::Add { r_a: a, r_b: b, r_c: c }
            &&& op == 1 ==> d == DecInst::Addi { r_a: a, r_b: b, imm: simm }
            &&& op == 2 ==> d == DecInst::Nand { r_a: a, r_b: b, r_c: c }
            &&& op == 3 ==> d == DecInst::Lui { r_a: a, imm: field_imm(bits) }
            &&& op == 4 ==> d == DecInst::Sw { r_a: a, r_b: b, imm: simm }
            &&& op == 5 ==> d == DecInst::Lw { r_a: a, r_b: b, imm: simm }
            &&& op == 6 ==> d == DecInst::Beq { r_a: a, r_b: b, imm: simm }
            &&& op == 7 && bits % 128 == 0 ==> d == DecInst::Jalr { r_a: a, r_b: b }
            &&& op == 7 && bits % 128 != 0 ==> d == DecInst::Reti
        }),
{
    assert((bits & 0xE000u16) == (bits / 8192u16) * 8192u16 && bits / 8192u16 < 8u16 && ((((
    bits & 0x1C00u16) >> 10u16) as u8) as u16) == (bits / 1024u16) % 8u16 && ((((bits
        & 0x0380u16) >> 7u16) as u8) as u16) == (bits / 128u16) % 8u16 && (((bits & 0x0007u16)
        as u8) as u16) == bits % 8u16 && (bits & 0x7Fu16) == bits % 128u16 && ((bits & 0x40u16
        != 0u16) <==> bits % 128u16 >= 64u16) && (bits % 128u16 >= 64u16 ==> ((bits & 0x7Fu16)
        | 0xFF80u16) == bits % 128u16 + 0xFF80u16) && ((bits & 0x3FFu16) << 6u16) as int == (bits
        % 1024u16) as int * 64) by (bit_vector);
}

/// This is the encoded instruction passed to the VM
#[derive(Clone, Copy)]
pub struct EncInst(u16);

impl View for EncInst {
    type V = u16;

    closed spec fn view(&self) -> u16 {
        self.0
    }
}

impl From<Word> for EncInst {
    fn from(value: Word) -> (e: EncInst)
        ensures
            e@ == value.0,
    {
        EncInst(value.0)
    }
}

impl vstd::std_specs::convert::FromSpecImpl<Word> for EncInst {
    open spec fn obeys_from_spec() -> bool {
        true
    }

    closed spec fn from_spec(value: Word) -> EncInst {
        EncInst(value.0)
    }
}

impl From<EncInst> for Word {
    fn from(value: EncInst) -> (w: Word) {
        Word(value.0)
    }
}

impl vstd::std_specs::convert::FromSpecImpl<EncInst> for Word {
    open spec fn obeys_from_spec() -> bool {
        true
    }

    open spec fn from_spec(value: EncInst) -> Word {
        Word(value@)
    }
}

impl EncInst {
    /// The word holding this instruction.
    pub fn new(value: Word) -> (e: EncInst)
        ensures
            e@ == value.0,
    {
        EncInst(value.0)
    }

    pub fn to_word(self) -> (w: Word)
        ensures
            w.0 == self@,
    {
        Word(self.0)
    }

    pub fn opcode(&self) -> (op: Opcode)
        ensures
            op.0 == self@ & OPCODE_MASK,
    {
        Opcode(self.0 & OPCODE_MASK)
    }

    /// `add 0,0,0` is the noop pseudo-instruction.
    pub fn is_noop(&self) -> (b: bool)
        ensures
            b == (self@ == 0),
    {
        self.0 == 0
    }

    pub fn is_reti_imm(&self) -> (b: bool)
        ensures
            b == (self@ & RETI_MASK > 0),
    {
        (self.0 & RETI_MASK) > 0
    }

    pub fn reg_a(&self) -> (r: u8)
        ensures
            r == field_a(self@),
            r < 8,
    {
        let b = self.0;
        assert(((b & REG_A_MASK) >> 10u16) < 8) by (bit_vector);
        ((self.0 & REG_A_MASK) >> 10) as u8
    }

    pub fn reg_b(&self) -> (r: u8)
        ensures
            r == field_b(self@),
            r < 8,
    {
        let b = self.0;
        assert(((b & REG_B_MASK) >> 7u16) < 8) by (bit_vector);
        ((self.0 & REG_B_MASK) >> 7) as u8
    }

    pub fn reg_c(&self) -> (r: u8)
        ensures
            r == field_c(self@),
            r < 8,
    {
        let b = self.0;
        assert((b & REG_C_MASK) < 8) by (bit_vector);
        (self.0 & REG_C_MASK) as u8
    }

    /// The signed 7-bit immediate, sign-extended.
    pub fn simm(&self) -> (w: Word)
        ensures
            w == field_simm(self@),
    {
        let low = self.0 & SIMM_MASK;
        if self.0 & 0x40 != 0 {
            Word(low | 0xFF80)
        } else {
            Word(low)
        }
    }

    /// The unsigned 10-bit immediate, shifted into the upper ten bits.
    pub fn imm(&self) -> (w: Word)
        ensures
            w == field_imm(self@),
    {
        Word((self.0 & IMM_MASK) << 6)
    }

    pub fn new_noop() -> (e: EncInst)
        ensures
            e@ == 0,
            decode_spec(e@) == (DecInst::Add { r_a: 0, r_b: 0, r_c: 0 }),
    {
        let e = DecInst::Add { r_a: 0, r_b: 0, r_c: 0 }.encode();
        proof {
            lemma_decode_encode(DecInst::Add { r_a: 0, r_b: 0, r_c: 0 });
            assert(pack_rr(0, 0, 0) | (0u8 as u16) == 0) by (bit_vector);
        }
        e
    }

    pub fn new_add(r_a: u8, r_b: u8, r_c: u8) -> (e: EncInst)
        ensures
            e@ == encode_spec(DecInst::Add { r_a, r_b, r_c }),
            r_a < 8 && r_b < 8 && r_c < 8 ==> decode_spec(e@) == (DecInst::Add { r_a, r_b, r_c }),
    {
        proof {
            if r_a < 8 && r_b < 8 && r_c < 8 {
                lemma_decode_encode(DecInst::Add { r_a, r_b, r_c });
            }
        }
        DecInst::Add { r_a, r_b, r_c }.encode()
    }

    pub fn new_addi(r_a: u8, r_b: u8, imm: i16) -> (e: EncInst)
        requires
            -64 <= imm <= 63,
        ensures
            e@ == encode_spec(DecInst::Addi { r_a, r_b, imm: Word(imm as u16) }),
            r_a < 8 && r_b < 8 ==> decode_spec(e@) == (DecInst::Addi {
                r_a,
                r_b,
                imm: Word(imm as u16),
            }),
    {
        proof {
            lemma_simm7_cast(imm);
            if r_a < 8 && r_b < 8 {
                lemma_decode_encode(DecInst::Addi { r_a, r_b, imm: Word(imm as u16) });
            }
        }
        DecInst::Addi { r_a, r_b, imm: Word(imm as u16) }.encode()
    }

    pub fn new_nand(r_a: u8, r_b: u8, r_c: u8) -> (e: EncInst)
        ensures
            e@ == encode_spec(DecInst::Nand { r_a, r_b, r_c }),
            r_a < 8 && r_b < 8 && r_c < 8 ==> decode_spec(e@) == (DecInst::Nand { r_a, r_b, r_c }),
    {
        proof {
            if r_a < 8 && r_b < 8 && r_c < 8 {
                lemma_decode_encode(DecInst::Nand { r_a, r_b, r_c });
            }
        }
        DecInst::Nand { r_a, r_b, r_c }.encode()
    }

    /// LUI loads the upper ten bits of `imm` (which must be 0 or at least 1 << 6).
    pub fn new_lui(r_a: u8, imm: u16) -> (e: EncInst)
        requires
            imm >= 64 || imm == 0,
        ensures
            e@ == encode_spec(DecInst::Lui { r_a, imm: Word(imm >> 6u16) }),
            r_a < 8 ==> decode_spec(e@) == (DecInst::Lui { r_a, imm: Word(imm & 0xFFC0) }),
    {
        proof {
            if r_a < 8 {
                lemma_lui_fields(r_a, imm);
            }
        }
        DecInst::Lui { r_a, imm: Word(imm >> 6) }.encode()
    }

    pub fn new_sw(r_a: u8, r_b: u8, imm: i16) -> (e: EncInst)
        requires
            -64 <= imm <= 63,
        ensures
            e@ == encode_spec(DecInst::Sw { r_a, r_b, imm: Word(imm as u16) }),
            r_a < 8 && r_b < 8 ==> decode_spec(e@) == (DecInst::Sw {
                r_a,
                r_b,
                imm: Word(imm as u16),
            }),
    {
        proof {
            lemma_simm7_cast(imm);
            if r_a < 8 && r_b < 8 {
                lemma_decode_encode(DecInst::Sw { r_a, r_b, imm: Word(imm as u16) });
            }
        }
        DecInst::Sw { r_a, r_b, imm: Word(imm as u16) }.encode()
    }

    pub fn new_lw(r_a: u8, r_b: u8, imm: i16) -> (e: EncInst)
        requires
            -64 <= imm <= 63,
        ensures
            e@ == encode_spec(DecInst::Lw { r_a, r_b, imm: Word(imm as u16) }),
            r_a < 8 && r_b < 8 ==> decode_spec(e@) == (DecInst::Lw {
                r_a,
                r_b,
                imm: Word(imm as u16),
            }),
    {
        proof {
            lemma_simm7_cast(imm);
            if r_a < 8 && r_b < 8 {
                lemma_decode_encode(DecInst::Lw { r_a, r_b, imm: Word(imm as u16) });
            }
        }
        DecInst::Lw { r_a, r_b, imm: Word(imm as u16) }.encode()
    }

    pub fn new_beq(r_a: u8, r_b: u8, imm: i16) -> (e: EncInst)
        requires
            -64 <= imm <= 63,
        ensures
            e@ == encode_spec(DecInst::Beq { r_a, r_b, imm: Word(imm as u16) }),
            r_a < 8 && r_b < 8 ==> decode_spec(e@) == (DecInst::Beq {
                r_a,
                r_b,
                imm: Word(imm as u16),
            }),
    {
        proof {
            lemma_simm7_cast(imm);
            if r_a < 8 && r_b < 8 {
                lemma_decode_encode(DecInst::Beq { r_a, r_b, imm: Word(imm as u16) });
            }
        }
        DecInst::Beq { r_a, r_b, imm: Word(imm as u16) }.encode()
    }

    pub fn new_jalr(r_a: u8, r_b: u8) -> (e: EncInst)
        ensures
            e@ == encode_spec(DecInst::Jalr { r_a, r_b }),
            r_a < 8 && r_b < 8 ==> decode_spec(e@) == (DecInst::Jalr { r_a, r_b }),
    {
        proof {
            if r_a < 8 && r_b < 8 {
                lemma_decode_encode(DecInst::Jalr { r_a, r_b });
            }
        }
        DecInst::Jalr { r_a, r_b }.encode()
    }
}

/// A 16-bit integer in -64 ..= 63 is, as a word, a sign-extended 7-bit value.
proof fn lemma_simm7_cast(imm: i16)
    requires
        -64 <= imm <= 63,
    ensures
        is_simm7(Word(imm as u16)),
{
    assert(-64 <= imm <= 63 ==> ((imm as u16) < 64 || (imm as u16) >= 0xFFC0)) by (bit_vector);
}

/// LUI's encoding keeps bits 6-15 of the value, and its decoding puts them back.
proof fn lemma_lui_fields(r_a: u8, imm: u16)
    requires
        r_a < 8,
    ensures
        decode_spec(encode_spec(DecInst::Lui { r_a, imm: Word(imm >> 6u16) })) == (DecInst::Lui {
            r_a,
            imm: Word(imm & 0xFFC0),
        }),
{
    let w = LUI | ((r_a as u16) << 10u16) | ((imm >> 6u16) & 0x3FF);
    assert(w == 0x6000u16 | ((r_a as u16) << 10u16) | ((imm >> 6u16) & 0x3FFu16));
    assert(r_a < 8 ==> ((0x6000u16 | ((r_a as u16) << 10u16) | ((imm >> 6u16) & 0x3FFu16))
        & 0xE000u16) == 0x6000u16 && (((((0x6000u16 | ((r_a as u16) << 10u16) | ((imm >> 6u16)
        & 0x3FFu16)) & 0x1C00u16) >> 10u16) as u8) == r_a) && (((0x6000u16 | ((r_a as u16)
        << 10u16) | ((imm >> 6u16) & 0x3FFu16)) & 0x03FFu16) << 6u16) == (imm & 0xFFC0u16))
        by (bit_vector);
}

/// Decoding the encoding of a canonical instruction gives the instruction back.
pub proof fn lemma_decode_encode(inst: DecInst)
    requires
        inst.is_canonical(),
    ensures
        decode_spec(encode_spec(inst)) == inst,
{
    match inst {
        DecInst::Add { r_a, r_b, r_c } => lemma_rrr_fields(ADD, r_a, r_b, r_c),
        DecInst::Nand { r_a, r_b, r_c } => lemma_rrr_fields(NAND, r_a, r_b, r_c),
        DecInst::Addi { r_a, r_b, imm } => lemma_rri_fields(ADDI, r_a, r_b, imm.0),
        DecInst::Sw { r_a, r_b, imm } => lemma_rri_fields(SW, r_a, r_b, imm.0),
        DecInst::Lw { r_a, r_b, imm } => lemma_rri_fields(LW, r_a, r_b, imm.0),
        DecInst::Beq { r_a, r_b, imm } => lemma_rri_fields(BEQ, r_a, r_b, imm.0),
        DecInst::Jalr { r_a, r_b } => lemma_jalr_fields(r_a, r_b),
        DecInst::Lui { .. } | DecInst::Reti => {},
    }
}

proof fn lemma_opcode_values()
    ensures
        ADD & 0x1FFFu16 == 0,
        ADDI & 0x1FFFu16 == 0,
        NAND & 0x1FFFu16 == 0,
        SW & 0x1FFFu16 == 0,
        LW & 0x1FFFu16 == 0,
        BEQ & 0x1FFFu16 == 0,
        JALR & 0x1FFFu16 == 0,
{
    assert(0u16 & 0x1FFFu16 == 0 && 0x2000u16 & 0x1FFFu16 == 0 && 0x4000u16 & 0x1FFFu16 == 0
        && 0x8000u16 & 0x1FFFu16 == 0 && 0xA000u16 & 0x1FFFu16 == 0 && 0xC000u16 & 0x1FFFu16 == 0
        && 0xE000u16 & 0x1FFFu16 == 0) by (bit_vector);
}

proof fn lemma_rrr_fields(op: u16, a: u8, b: u8, c: u8)
    requires
        op == ADD || op == NAND,
        a < 8,
        b < 8,
        c < 8,
    ensures
        ({
            let w = pack_rr(op, a, b) | (c as u16);
            &&& w & OPCODE_MASK == op
            &&& field_a(w) == a
            &&& field_b(w) == b
            &&& field_c(w) == c
        }),
{
    lemma_opcode_values();
    let w = pack_rr(op, a, b) | (c as u16);
    assert(w == (op | ((a as u16) << 10u16) | ((b as u16) << 7u16) | (c as u16)));
    assert(op & 0x1FFFu16 == 0 && a < 8 && b < 8 && c < 8 && w == (op | ((a as u16) << 10u16) | ((
    b as u16) << 7u16) | (c as u16)) ==> (w & 0xE000u16) == op && (((w & 0x1C00u16) >> 10u16)
        as u8) == a && (((w & 0x0380u16) >> 7u16) as u8) == b && ((w & 0x0007u16) as u8) == c)
        by (bit_vector);
}

proof fn lemma_rri_fields(op: u16, a: u8, b: u8, imm: u16)
    requires
        op == ADDI || op == SW || op == LW || op == BEQ,
        a < 8,
        b < 8,
        imm < 64 || imm >= 0xFFC0,
    ensures
        ({
            let w = pack_rr(op, a, b) | (imm & 0x7F);
            &&& w & OPCODE_MASK == op
            &&& field_a(w) == a
            &&& field_b(w) == b
            &&& field_simm(w) == Word(imm)
        }),
{
    lemma_opcode_values();
    let w = pack_rr(op, a, b) | (imm & 0x7F);
    assert(w == (op | ((a as u16) << 10u16) | ((b as u16) << 7u16) | (imm & 0x7Fu16)));
    assert(op & 0x1FFFu16 == 0 && a < 8 && b < 8 && (imm < 64 || imm >= 0xFFC0) && w == (op | ((
    a as u16) << 10u16) | ((b as u16) << 7u16) | (imm & 0x7Fu16)) ==> (w & 0xE000u16) == op && (((
    w & 0x1C00u16) >> 10u16) as u8) == a && (((w & 0x0380u16) >> 7u16) as u8) == b && (if w
        & 0x40u16 != 0 {
        (w & 0x7Fu16) | 0xFF80u16
    } else {
        w & 0x7Fu16
    }) == imm) by (bit_vector);
}

proof fn lemma_jalr_fields(a: u8, b: u8)
    requires
        a < 8,
        b < 8,
    ensures
        ({
            let w = pack_rr(JALR, a, b);
            &&& w & OPCODE_MASK == JALR
            &&& field_a(w) == a
            &&& field_b(w) == b
            &&& w & RETI_MASK == 0
        }),
{
    let w = pack_rr(JALR, a, b);
    assert(w == (0xE000u16 | ((a as u16) << 10u16) | ((b as u16) << 7u16)));
    assert(a < 8 && b < 8 && w == (0xE000u16 | ((a as u16) << 10u16) | ((b as u16) << 7u16)) ==> (
    w & 0xE000u16) == 0xE000u16 && (((w & 0x1C00u16) >> 10u16) as u8) == a && (((w & 0x0380u16)
        >> 7u16) as u8) == b && (w & 0x7Fu16) == 0) by (bit_vector);
}

} // verus!
