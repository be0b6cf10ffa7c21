//! RISC-P instruction encoding: every instruction is one 16-bit word with the
//! opcode in the top nibble and register/immediate fields below it.
use vstd::prelude::*;
use crate::word::Word;

verus! {

pub const ADD: u16 = 0;
pub const SUB: u16 = 0x1000;
pub const MUL: u16 = 0x2000;
pub const XOR: u16 = 0x3000;
pub const NAND: u16 = 0x4000;
pub const SHL: u16 = 0x5000;
pub const SHR: u16 = 0x6000;
pub const LUI: u16 = 0x7000;
pub const LLI: u16 = 0x8000;
pub const SW: u16 = 0x9000;
pub const LW: u16 = 0xA000;
pub const JALR: u16 = 0xB000;
pub const BEQ: u16 = 0xC000;
pub const BNE: u16 = 0xD000;
pub const BLT: u16 = 0xE000;
/// The top opcode, 0b1111, is reserved and has no meaning.
pub const RESERVED: u16 = 0xF000;

pub const OPCODE_MASK: u16 = 0xF000;
pub const REG_A_MASK: u16 = 0x0F00;
pub const REG_B_MASK: u16 = 0x00F0;
pub const REG_C_MASK: u16 = 0x000F;
pub const WIDE_IMM_MASK: u16 = 0x00FF;
pub const IMM_MASK: u16 = 0x000F;

/// Register A: bits 8-11.
pub open spec fn field_a(bits: u16) -> u8 {
    ((bits & REG_A_MASK) >> 8u16) as u8
}

/// Register B: bits 4-7.
pub open spec fn field_b(bits: u16) -> u8 {
    ((bits & REG_B_MASK) >> 4u16) as u8
}

/// Register C: bits 0-3.
pub open spec fn field_c(bits: u16) -> u8 {
    (bits & REG_C_MASK) as u8
}

/// The 4-bit immediate of the RRI format: bits 0-3.
pub open spec fn field_imm(bits: u16) -> Word {
    Word(bits & IMM_MASK)
}

/// The 8-bit immediate of the RI format: bits 0-7.
pub open spec fn field_wide_imm(bits: u16) -> Word {
    Word(bits & WIDE_IMM_MASK)
}

/// True of the words whose opcode is the reserved one.
pub open spec fn is_reserved(bits: u16) -> bool {
    bits & OPCODE_MASK == RESERVED
}

/// The instruction that a word stands for. The all-zero word (ADD r0, r0, r0) is
/// NOOP, and JALR r0, r0 with a non-zero immediate is RETL.
pub open spec fn decode_spec(bits: u16) -> DecodedInst {
    let op = bits & OPCODE_MASK;
    let r_a = field_a(bits);
    let r_b = field_b(bits);
    let r_c = field_c(bits);
    if bits == 0 {
        DecodedInst::Noop
    } else if op == ADD {
        DecodedInst::Add { r_a, r_b, r_c }
    } else if op == SUB {
        DecodedInst::Sub { r_a, r_b, r_c }
    } else if op == MUL {
        DecodedInst::Mul { r_a, r_b, r_c }
    } else if op == XOR {
        DecodedInst::Xor { r_a, r_b, r_c }
    } else if op == NAND {
        DecodedInst::Nand { r_a, r_b, r_c }
    } else if op == SHL {
        DecodedInst::Shl { r_a, r_b, imm: field_imm(bits) }
    } else if op == SHR {
        DecodedInst::Shr { r_a, r_b, imm: field_imm(bits) }
    } else if op == LUI {
        DecodedInst::Lui { r_a, imm: field_wide_imm(bits) }
    } else if op == LLI {
        DecodedInst::Lli { r_a, imm: field_wide_imm(bits) }
    } else if op == SW {
        DecodedInst::Sw { r_a, r_b, imm: field_imm(bits) }
    } else if op == LW {
        DecodedInst::Lw { r_a, r_b, imm: field_imm(bits) }
    } else if op == JALR {
        if r_a == 0 && r_b == 0 && field_imm(bits).0 > 0 {
            DecodedInst::Retl
        } else {
            DecodedInst::Jalr { r_a, r_b, imm: field_imm(bits) }
        }
    } else if op == BEQ {
        DecodedInst::Beq { r_a, r_b, r_c }
    } else if op == BNE {
        DecodedInst::Bne { r_a, r_b, r_c }
    } else if op == BLT {
        DecodedInst::Blt { r_a, r_b, r_c }
    } else {
        arbitrary()
    }
}

/// The opcode field takes one of sixteen values.
pub proof fn lemma_opcode_cases(bits: u16)
    ensures
        ({
            let op = bits & OPCODE_MASK;
            ||| op == ADD
            ||| op == SUB
            ||| op == MUL
            ||| op == XOR
            ||| op == NAND
            ||| op == SHL
            ||| op == SHR
            ||| op == LUI
            ||| op == LLI
            ||| op == SW
            ||| op == LW
            ||| op == JALR
            ||| op == BEQ
            ||| op == BNE
            ||| op == BLT
            ||| op == RESERVED
        }),
{
    assert({
        let op = bits & 0xF000u16;
        ||| op == 0u16
        ||| op == 0x1000u16
        ||| op == 0x2000u16
        ||| op == 0x3000u16
        ||| op == 0x4000u16
        ||| op == 0x5000u16
        ||| op == 0x6000u16
        ||| op == 0x7000u16
        ||| op == 0x8000u16
        ||| op == 0x9000u16
        ||| op == 0xA000u16
        ||| op == 0xB000u16
        ||| op == 0xC000u16
        ||| op == 0xD000u16
        ||| op == 0xE000u16
        ||| op == 0xF000u16
    }) by (bit_vector);
}

/// Packs the RRR format.
pub open spec fn pack_rrr(op: u16, r_a: u8, r_b: u8, r_c: u8) -> u16 {
    op | ((r_a as u16) << 8u16) | ((r_b as u16) << 4u16) | (r_c as u16)
}

/// Packs the RRI format.
pub open spec fn pack_rri(op: u16, r_a: u8, r_b: u8, imm: Word) -> u16 {
    op | ((r_a as u16) << 8u16) | ((r_b as u16) << 4u16) | imm.0
}

/// Packs the RI format.
pub open spec fn pack_ri(op: u16, r_a: u8, imm: Word) -> u16 {
    op | ((r_a as u16) << 8u16) | imm.0
}

/// The word that an instruction is encoded as. Fields are OR-ed into place
/// unmasked, so out-of-range fields spill into their neighbours.
pub open spec fn encode_spec(inst: DecodedInst) -> u16 {
    match inst {
        DecodedInst::Add { r_a, r_b, r_c } => pack_rrr(ADD, r_a, r_b, r_c),
        DecodedInst::Sub { r_a, r_b, r_c } => pack_rrr(SUB, r_a, r_b, r_c),
        DecodedInst::Mul { r_a, r_b, r_c } => pack_rrr(MUL, r_a, r_b, r_c),
        DecodedInst::Xor { r_a, r_b, r_c } => pack_rrr(XOR, r_a, r_b, r_c),
        DecodedInst::Nand { r_a, r_b, r_c } => pack_rrr(NAND, r_a, r_b, r_c),
        DecodedInst::Shl { r_a, r_b, imm } => pack_rri(SHL, r_a, r_b, imm),
        DecodedInst::Shr { r_a, r_b, imm } => pack_rri(SHR, r_a, r_b, imm),
        DecodedInst::Lui { r_a, imm } => pack_ri(LUI, r_a, imm),
        DecodedInst::Lli { r_a, imm } => pack_ri(LLI, r_a, imm),
        DecodedInst::Sw { r_a, r_b, imm } => pack_rri(SW, r_a, r_b, imm),
        DecodedInst::Lw { r_a, r_b, imm } => pack_rri(LW, r_a, r_b, imm),
        DecodedInst::Jalr { r_a, r_b, imm } => pack_rri(JALR, r_a, r_b, imm),
        DecodedInst::Beq { r_a, r_b, r_c } => pack_rrr(BEQ, r_a, r_b, r_c),
        DecodedInst::Bne { r_a, r_b, r_c } => pack_rrr(BNE, r_a, r_b, r_c),
        DecodedInst::Blt { r_a, r_b, r_c } => pack_rrr(BLT, r_a, r_b, r_c),
        DecodedInst::Noop => 0,
        DecodedInst::Retl => JALR | 1,
    }
}

/// Every opcode leaves the twelve field bits clear.
proof fn lemma_opcodes_low_clear()
    ensures
        ADD & 0x0FFFu16 == 0,
        SUB & 0x0FFFu16 == 0,
        MUL & 0x0FFFu16 == 0,
        XOR & 0x0FFFu16 == 0,
        NAND & 0x0FFFu16 == 0,
        SHL & 0x0FFFu16 == 0,
        SHR & 0x0FFFu16 == 0,
        LUI & 0x0FFFu16 == 0,
        LLI & 0x0FFFu16 == 0,
        SW & 0x0FFFu16 == 0,
        LW & 0x0FFFu16 == 0,
        JALR & 0x0FFFu16 == 0,
        BEQ & 0x0FFFu16 == 0,
        BNE & 0x0FFFu16 == 0,
        BLT & 0x0FFFu16 == 0,
{
    assert(0u16 & 0x0FFFu16 == 0 && 0x1000u16 & 0x0FFFu16 == 0 && 0x2000u16 & 0x0FFFu16 == 0
        && 0x3000u16 & 0x0FFFu16 == 0 && 0x4000u16 & 0x0FFFu16 == 0 && 0x5000u16 & 0x0FFFu16 == 0
        && 0x6000u16 & 0x0FFFu16 == 0 && 0x7000u16 & 0x0FFFu16 == 0 && 0x8000u16 & 0x0FFFu16 == 0
        && 0x9000u16 & 0x0FFFu16 == 0 && 0xA000u16 & 0x0FFFu16 == 0 && 0xB000u16 & 0x0FFFu16 == 0
        && 0xC000u16 & 0x0FFFu16 == 0 && 0xD000u16 & 0x0FFFu16 == 0 && 0xE000u16 & 0x0FFFu16 == 0)
        by (bit_vector);
}

/// The fields of a packed word read back as the values packed into it.
proof fn lemma_pack_fields(op: u16, a: u8, b: u8, c: u8, imm: u16, wide: u16)
    requires
        op & 0x0FFFu16 == 0,
        a < 16,
        b < 16,
        c < 16,
        imm < 16,
        wide < 256,
    ensures
        pack_rrr(op, a, b, c) & OPCODE_MASK == op,
        field_a(pack_rrr(op, a, b, c)) == a,
        field_b(pack_rrr(op, a, b, c)) == b,
        field_c(pack_rrr(op, a, b, c)) == c,
        pack_rrr(op, a, b, c) == 0 <==> (op == 0 && a == 0 && b == 0 && c == 0),
        pack_rri(op, a, b, Word(imm)) & OPCODE_MASK == op,
        field_a(pack_rri(op, a, b, Word(imm))) == a,
        field_b(pack_rri(op, a, b, Word(imm))) == b,
        field_imm(pack_rri(op, a, b, Word(imm))) == Word(imm),
        pack_rri(op, a, b, Word(imm)) == 0 <==> (op == 0 && a == 0 && b == 0 && imm == 0),
        pack_ri(op, a, Word(wide)) & OPCODE_MASK == op,
        field_a(pack_ri(op, a, Word(wide))) == a,
        field_wide_imm(pack_ri(op, a, Word(wide))) == Word(wide),
        pack_ri(op, a, Word(wide)) == 0 <==> (op == 0 && a == 0 && wide == 0),
{
    assert(((op | ((a as u16) << 8u16) | ((b as u16) << 4u16) | (c as u16)) & 0xF000u16 == op) && ((((op | ((a as u16) << 8u16) | ((b as u16) << 4u16) | (c as u16)) & 0x0F00u16) >> 8u16) as u8 == a) && ((((op | ((a as u16) << 8u16) | ((b as u16) << 4u16) | (c as u16)) & 0x00F0u16) >> 4u16) as u8 == b) && (((op | ((a as u16) << 8u16) | ((b as u16) << 4u16) | (c as u16)) & 0x000Fu16) as u8 == c) && ((op | ((a as u16) << 8u16) | ((b as u16) << 4u16) | (c as u16)) == 0 <==> (op == 0 && a == 0 && b == 0 && c == 0))) by (bit_vector)
        requires
            op & 0x0FFFu16 == 0,
            a < 16,
            b < 16,
            c < 16,
    ;
    assert(((op | ((a as u16) << 8u16) | ((b as u16) << 4u16) | imm) & 0xF000u16 == op) && ((((op | ((a as u16) << 8u16) | ((b as u16) << 4u16) | imm) & 0x0F00u16) >> 8u16) as u8 == a) && ((((op | ((a as u16) << 8u16) | ((b as u16) << 4u16) | imm) & 0x00F0u16) >> 4u16) as u8 == b) && (((op | ((a as u16) << 8u16) | ((b as u16) << 4u16) | imm) & 0x000Fu16) == imm) && ((op | ((a as u16) << 8u16) | ((b as u16) << 4u16) | imm) == 0 <==> (op == 0 && a == 0 && b == 0 && imm == 0))) by (bit_vector)
        requires
            op & 0x0FFFu16 == 0,
            a < 16,
            b < 16,
            imm < 16,
    ;
    assert(((op | ((a as u16) << 8u16) | wide) & 0xF000u16 == op) && ((((op | ((a as u16) << 8u16) | wide) & 0x0F00u16) >> 8u16) as u8 == a) && (((op | ((a as u16) << 8u16) | wide) & 0x00FFu16) == wide) && ((op | ((a as u16) << 8u16) | wide) == 0 <==> (op == 0 && a == 0 && wide == 0))) by (bit_vector)
        requires
            op & 0x0FFFu16 == 0,
            a < 16,
            wide < 256,
    ;
}

/// Every word is its fields packed back together, in each of the three formats.
proof fn lemma_unpack_fields(bits: u16)
    ensures
        bits == pack_rrr(bits & OPCODE_MASK, field_a(bits), field_b(bits), field_c(bits)),
        bits == pack_rri(bits & OPCODE_MASK, field_a(bits), field_b(bits), field_imm(bits)),
        bits == pack_ri(bits & OPCODE_MASK, field_a(bits), field_wide_imm(bits)),
{
    assert(bits == ((bits & 0xF000u16) | (((((bits & 0x0F00u16) >> 8u16) as u8) as u16) << 8u16) | (((((bits & 0x00F0u16) >> 4u16) as u8) as u16) << 4u16) | (((bits & 0x000Fu16) as u8) as u16))) by (bit_vector);
    assert(bits == ((bits & 0xF000u16) | (((((bits & 0x0F00u16) >> 8u16) as u8) as u16) << 8u16) | (((((bits & 0x00F0u16) >> 4u16) as u8) as u16) << 4u16) | (bits & 0x000Fu16))) by (bit_vector);
    assert(bits == ((bits & 0xF000u16) | (((((bits & 0x0F00u16) >> 8u16) as u8) as u16) << 8u16) | (bits & 0x00FFu16))) by (bit_vector);
}

/// Decoding the encoding of a canonical instruction gives the instruction back.
pub proof fn lemma_decode_encode(inst: DecodedInst)
    requires
        inst.is_canonical(),
    ensures
        !is_reserved(encode_spec(inst)),
        decode_spec(encode_spec(inst)) == inst,
{
    lemma_opcodes_low_clear();
    assert(0u16 & 0xF000u16 == 0u16) by (bit_vector);
    assert(JALR | 1u16 == 0xB001u16) by (bit_vector);
    assert((0xB001u16 & 0xF000u16) == 0xB000u16 && ((0xB001u16 & 0x0F00u16) >> 8u16) as u8 == 0u8
        && ((0xB001u16 & 0x00F0u16) >> 4u16) as u8 == 0u8 && (0xB001u16 & 0x000Fu16) == 1u16)
        by (bit_vector);
    match inst {
        DecodedInst::Add { r_a, r_b, r_c } => lemma_pack_fields(ADD, r_a, r_b, r_c, 0, 0),
        DecodedInst::Sub { r_a, r_b, r_c } => lemma_pack_fields(SUB, r_a, r_b, r_c, 0, 0),
        DecodedInst::Mul { r_a, r_b, r_c } => lemma_pack_fields(MUL, r_a, r_b, r_c, 0, 0),
        DecodedInst::Xor { r_a, r_b, r_c } => lemma_pack_fields(XOR, r_a, r_b, r_c, 0, 0),
        DecodedInst::Nand { r_a, r_b, r_c } => lemma_pack_fields(NAND, r_a, r_b, r_c, 0, 0),
        DecodedInst::Beq { r_a, r_b, r_c } => lemma_pack_fields(BEQ, r_a, r_b, r_c, 0, 0),
        DecodedInst::Bne { r_a, r_b, r_c } => lemma_pack_fields(BNE, r_a, r_b, r_c, 0, 0),
        DecodedInst::Blt { r_a, r_b, r_c } => lemma_pack_fields(BLT, r_a, r_b, r_c, 0, 0),
        DecodedInst::Shl { r_a, r_b, imm } => lemma_pack_fields(SHL, r_a, r_b, 0, imm.0, 0),
        DecodedInst::Shr { r_a, r_b, imm } => lemma_pack_fields(SHR, r_a, r_b, 0, imm.0, 0),
        DecodedInst::Sw { r_a, r_b, imm } => lemma_pack_fields(SW, r_a, r_b, 0, imm.0, 0),
        DecodedInst::Lw { r_a, r_b, imm } => lemma_pack_fields(LW, r_a, r_b, 0, imm.0, 0),
        DecodedInst::Jalr { r_a, r_b, imm } => lemma_pack_fields(JALR, r_a, r_b, 0, imm.0, 0),
        DecodedInst::Lui { r_a, imm } => lemma_pack_fields(LUI, r_a, 0, 0, 0, imm.0),
        DecodedInst::Lli { r_a, imm } => lemma_pack_fields(LLI, r_a, 0, 0, 0, imm.0),
        DecodedInst::Noop | DecodedInst::Retl => {},
    }
}

/// Encoding the decoding of a word gives the word back, except for the
/// RETL spellings other than `JALR r0, r0, 1`.
pub proof fn lemma_encode_decode(bits: u16)
    requires
        !is_reserved(bits),
        decode_spec(bits) is Retl ==> bits == (JALR | 1),
    ensures
        encode_spec(decode_spec(bits)) == bits,
{
    lemma_opcode_cases(bits);
    lemma_unpack_fields(bits);
    assert(JALR | 1u16 == 0xB001u16) by (bit_vector);
}

/// Every decoded word names registers 0-15 and has immediates within their fields.
pub proof fn lemma_decode_wf(bits: u16)
    requires
        !is_reserved(bits),
    ensures
        decode_spec(bits).wf(),
{
    lemma_opcode_cases(bits);
    assert(((bits & 0x0F00u16) >> 8u16) < 16 && ((bits & 0x00F0u16) >> 4u16) < 16 && (bits
        & 0x000Fu16) < 16 && (bits & 0x00FFu16) < 256) by (bit_vector);
}

/// The layout of RISC-P.md: register A in bits 8-11, register B in bits 4-7,
/// register C and the short immediate in bits 0-3, the long immediate in bits
/// 0-7, and the opcode number in bits 12-15 naming the instruction of the
/// table (0 ADD, 1 SUB, 2 MUL, 3 XOR, 4 NAND, 5 SHL, 6 SHR, 7 LUI, 8 LLI, 9 SW,
/// 10 LW, 11 JALR, 12 BEQ, 13 BNE, 14 BLT, 15 reserved).
pub proof fn lemma_decode_layout(bits: u16)
    ensures
        field_a(bits) as u16 == (bits / 256) % 16,
        field_b(bits) as u16 == (bits / 16) % 16,
        field_c(bits) as u16 == bits % 16,
        field_imm(bits).0 == bits % 16,
        field_wide_imm(bits).0 == bits % 256,
        is_reserved(bits) <==> bits / 4096 == 15,
        ({
            let (a, b, c) = (field_a(bits), field_b(bits), field_c(bits));
            let (imm, wide) = (field_imm(bits), field_wide_imm(bits));
            let op = bits / 4096;
            let d = decode_spec(bits);
            &&& bits == 0 ==> d == DecodedInst::Noop
            &&& bits != 0 && op == 0 ==> d == DecodedInst::Add { r_a: a, r_b: b, r_c: c }
            &&& op == 1 ==> d == DecodedInst::Sub { r_a: a, r_b: b, r_c: c }
            &&& op == 2 ==> d == DecodedInst::Mul { r_a: a, r_b: b, r_c: c }
            &&& op == 3 ==> d == DecodedInst::Xor { r_a: a, r_b: b, r_c: c }
            &&& op == 4 ==> d == DecodedInst::Nand { r_a: a, r_b: b, r_c: c }
            &&& op == 5 ==> d == DecodedInst::Shl { r_a: a, r_b: b, imm }
            &&& op == 6 ==> d == DecodedInst::Shr { r_a: a, r_b: b, imm }
            &&& op == 7 ==> d == DecodedInst::Lui { r_a: a, imm: wide }
            &&& op == 8 ==> d == DecodedInst::Lli { r_a: a, imm: wide }
            &&& op == 9 ==> d == DecodedInst::Sw { r_a: a, r_b: b, imm }
            &&& op == 10 ==> d == DecodedInst::Lw { r_a: a, r_b: b, imm }
            &&& op == 11 && a == 0 && b == 0 && imm.0 > 0 ==> d == DecodedInst::Retl
            &&& op == 11 && !(a == 0 && b == 0 && imm.0 > 0) ==> d == DecodedInst::Jalr {
                r_a: a,
                r_b: b,
                imm,
            }
            &&& op == 12 ==> d == DecodedInst::Beq { r_a: a, r_b: b, r_c: c }
            &&& op == 13 ==> d == DecodedInst::Bne { r_a: a, r_b: b, r_c: c }
            &&& op == 14 ==> d == DecodedInst::Blt { r_a: a, r_b: b, r_c: c }
        }),
{
    assert((bits & 0xF000u16) == (bits / 4096u16) * 4096u16 && bits / 4096u16 < 16u16 && ((((bits
        & 0x0F00u16) >> 8u16) as u8) as u16) == (bits / 256u16) % 16u16 && ((((bits & 0x00F0u16)
        >> 4u16) as u8) as u16) == (bits / 16u16) % 16u16 && (((bits & 0x000Fu16) as u8) as u16)
        == bits % 16u16 && (bits & 0x000Fu16) == bits % 16u16 && (bits & 0x00FFu16) == bits
        % 256u16) by (bit_vector);
}

/// This is the encoded instruction passed to the VM
#[derive(Clone, Copy)]
pub struct EncodedInst(u16);

impl View for EncodedInst {
    type V = u16;

    closed spec fn view(&self) -> u16 {
        self.0
    }
}

impl From<Word> for EncodedInst {
    fn from(value: Word) -> (e: EncodedInst)
        ensures
            e@ == value.0,
    {
        EncodedInst(value.0)
    }
}

impl vstd::std_specs::convert::FromSpecImpl<Word> for EncodedInst {
    open spec fn obeys_from_spec() -> bool {
        true
    }

    closed spec fn from_spec(value: Word) -> EncodedInst {
        EncodedInst(value.0)
    }
}

impl From<EncodedInst> for Word {
    fn from(value: EncodedInst) -> (w: Word) {
        Word(value.0)
    }
}

impl vstd::std_specs::convert::FromSpecImpl<EncodedInst> for Word {
    open spec fn obeys_from_spec() -> bool {
        true
    }

    open spec fn from_spec(value: EncodedInst) -> Word {
        Word(value@)
    }
}

impl EncodedInst {
    /// The word holding this instruction.
    pub fn new(value: Word) -> (e: EncodedInst)
        ensures
            e@ == value.0,
    {
        EncodedInst(value.0)
    }

    pub fn to_word(self) -> (w: Word)
        ensures
            w.0 == self@,
    {
        Word(self.0)
    }

    pub fn is_noop(&self) -> (b: bool)
        ensures
            b == (self@ == 0),
    {
        self.0 == 0
    }

    fn imm_gt_0(&self) -> (b: bool)
        ensures
            b == (field_imm(self@).0 > 0),
    {
        (self.0 & IMM_MASK) > 0
    }

    fn opcode(&self) -> (op: u16)
        ensures
            op == self@ & OPCODE_MASK,
    {
        self.0 & OPCODE_MASK
    }

    fn reg_a(&self) -> (r: u8)
        ensures
            r == field_a(self@),
            r < 16,
    {
        let b = self.0;
        assert(((b & REG_A_MASK) >> 8u16) < 16) by (bit_vector);
        ((self.0 & REG_A_MASK) >> 8) as u8
    }

    fn reg_b(&self) -> (r: u8)
        ensures
            r == field_b(self@),
            r < 16,
    {
        let b = self.0;
        assert(((b & REG_B_MASK) >> 4u16) < 16) by (bit_vector);
        ((self.0 & REG_B_MASK) >> 4) as u8
    }

    fn reg_c(&self) -> (r: u8)
        ensures
            r == field_c(self@),
            r < 16,
    {
        let b = self.0;
        assert((b & REG_C_MASK) < 16) by (bit_vector);
        (self.0 & REG_C_MASK) as u8
    }

    fn wide_imm(&self) -> (w: Word)
        ensures
            w == field_wide_imm(self@),
            w.0 < 256,
    {
        let b = self.0;
        assert((b & WIDE_IMM_MASK) < 256) by (bit_vector);
        Word(self.0 & WIDE_IMM_MASK)
    }

    fn imm(&self) -> (w: Word)
        ensures
            w == field_imm(self@),
            w.0 < 16,
    {
        let b = self.0;
        assert((b & IMM_MASK) < 16) by (bit_vector);
        Word(self.0 & IMM_MASK)
    }

    /// Decodes the instruction. A word with the reserved opcode has no meaning.
    pub fn decode(self) -> (inst: DecodedInst)
        requires
            !is_reserved(self@),
        ensures
            inst == decode_spec(self@),
            inst.wf(),
    {
        if self.0 == 0 {
            return DecodedInst::Noop;
        }
        let op = self.opcode();
        proof {
            lemma_opcode_cases(self@);
        }
        if op == ADD {
            DecodedInst::Add { r_a: self.reg_a(), r_b: self.reg_b(), r_c: self.reg_c() }
        } else if op == SUB {
            DecodedInst::Sub { r_a: self.reg_a(), r_b: self.reg_b(), r_c: self.reg_c() }
        } else if op == MUL {
            DecodedInst::Mul { r_a: self.reg_a(), r_b: self.reg_b(), r_c: self.reg_c() }
        } else if op == XOR {
            DecodedInst::Xor { r_a: self.reg_a(), r_b: self.reg_b(), r_c: self.reg_c() }
        } else if op == NAND {
            DecodedInst::Nand { r_a: self.reg_a(), r_b: self.reg_b(), r_c: self.reg_c() }
        } else if op == SHL {
            DecodedInst::Shl { r_a: self.reg_a(), r_b: self.reg_b(), imm: self.imm() }
        } else if op == SHR {
            DecodedInst::Shr { r_a: self.reg_a(), r_b: self.reg_b(), imm: self.imm() }
        } else if op == LUI {
            DecodedInst::Lui { r_a: self.reg_a(), imm: self.wide_imm() }
        } else if op == LLI {
            DecodedInst::Lli { r_a: self.reg_a(), imm: self.wide_imm() }
        } else if op == SW {
            DecodedInst::Sw { r_a: self.reg_a(), r_b: self.reg_b(), imm: self.imm() }
        } else if op == LW {
            DecodedInst::Lw { r_a: self.reg_a(), r_b: self.reg_b(), imm: self.imm() }
        } else if op == JALR {
            let r_a = self.reg_a();
            let r_b = self.reg_b();
            if r_a == 0 && r_b == 0 && self.imm_gt_0() {
                DecodedInst::Retl
            } else {
                DecodedInst::Jalr { r_a, r_b, imm: self.imm() }
            }
        } else if op == BEQ {
            DecodedInst::Beq { r_a: self.reg_a(), r_b: self.reg_b(), r_c: self.reg_c() }
        } else if op == BNE {
            DecodedInst::Bne { r_a: self.reg_a(), r_b: self.reg_b(), r_c: self.reg_c() }
        } else {
            DecodedInst::Blt { r_a: self.reg_a(), r_b: self.reg_b(), r_c: self.reg_c() }
        }
    }
}

/// These are the decoded instructions which mean they may be longer than 16-bits for conviencne
#[derive(Clone, Copy, PartialEq, Eq, Structural, Debug)]
pub enum DecodedInst {
    Add { r_a: u8, r_b: u8, r_c: u8 },
    Sub { r_a: u8, r_b: u8, r_c: u8 },
    Mul { r_a: u8, r_b: u8, r_c: u8 },
    Xor { r_a: u8, r_b: u8, r_c: u8 },
    Nand { r_a: u8, r_b: u8, r_c: u8 },
    Shl { r_a: u8, r_b: u8, imm: Word },
    Shr { r_a: u8, r_b: u8, imm: Word },
    Lui { r_a: u8, imm: Word },
    Lli { r_a: u8, imm: Word },
    Sw { r_a: u8, r_b: u8, imm: Word },
    Lw { r_a: u8, r_b: u8, imm: Word },
    Jalr { r_a: u8, r_b: u8, imm: Word },
    Beq { r_a: u8, r_b: u8, r_c: u8 },
    Bne { r_a: u8, r_b: u8, r_c: u8 },
    Blt { r_a: u8, r_b: u8, r_c: u8 },
    Noop,
    Retl,
}

impl DecodedInst {
    /// Every field fits its slot: registers in 4 bits, RRI immediates in 4 bits,
    /// RI immediates in 8 bits.
    pub open spec fn wf(self) -> bool {
        match self {
            DecodedInst::Add { r_a, r_b, r_c }
            | DecodedInst::Sub { r_a, r_b, r_c }
            | DecodedInst::Mul { r_a, r_b, r_c }
            | DecodedInst::Xor { r_a, r_b, r_c }
            | DecodedInst::Nand { r_a, r_b, r_c }
            | DecodedInst::Beq { r_a, r_b, r_c }
            | DecodedInst::Bne { r_a, r_b, r_c }
            | DecodedInst::Blt { r_a, r_b, r_c } => r_a < 16 && r_b < 16 && r_c < 16,
            DecodedInst::Shl { r_a, r_b, imm }
            | DecodedInst::Shr { r_a, r_b, imm }
            | DecodedInst::Sw { r_a, r_b, imm }
            | DecodedInst::Lw { r_a, r_b, imm }
            | DecodedInst::Jalr { r_a, r_b, imm } => r_a < 16 && r_b < 16 && imm.0 < 16,
            DecodedInst::Lui { r_a, imm } | DecodedInst::Lli { r_a, imm } => r_a < 16 && imm.0
                < 256,
            DecodedInst::Noop | DecodedInst::Retl => true,
        }
    }

    /// An instruction whose encoding decodes back to itself: well-formed, and not
    /// one of the spellings that the decoder reads as a pseudo-instruction
    /// (ADD r0, r0, r0 is NOOP; JALR r0, r0 with a non-zero immediate is RETL).
    pub open spec fn is_canonical(self) -> bool {
        &&& self.wf()
        &&& self != (DecodedInst::Add { r_a: 0, r_b: 0, r_c: 0 })
        &&& !(self matches DecodedInst::Jalr { r_a, r_b, imm } && r_a == 0 && r_b == 0 && imm.0 > 0)
    }

    pub fn encode(self) -> (e: EncodedInst)
        ensures
            e@ == encode_spec(self),
    {
        let bits = match self {
            DecodedInst::Add { r_a, r_b, r_c } => ADD | ((r_a as u16) << 8) | ((r_b as u16) << 4)
                | (r_c as u16),
            DecodedInst::Sub { r_a, r_b, r_c } => SUB | ((r_a as u16) << 8) | ((r_b as u16) << 4)
                | (r_c as u16),
            DecodedInst::Mul { r_a, r_b, r_c } => MUL | ((r_a as u16) << 8) | ((r_b as u16) << 4)
                | (r_c as u16),
            DecodedInst::Xor { r_a, r_b, r_c } => XOR | ((r_a as u16) << 8) | ((r_b as u16) << 4)
                | (r_c as u16),
            DecodedInst::Nand { r_a, r_b, r_c } => NAND | ((r_a as u16) << 8) | ((r_b as u16)
                << 4) | (r_c as u16),
            DecodedInst::Shl { r_a, r_b, imm } => SHL | ((r_a as u16) << 8) | ((r_b as u16) << 4)
                | imm.0,
            DecodedInst::Shr { r_a, r_b, imm } => SHR | ((r_a as u16) << 8) | ((r_b as u16) << 4)
                | imm.0,
            DecodedInst::Lui { r_a, imm } => LUI | ((r_a as u16) << 8) | imm.0,
            DecodedInst::Lli { r_a, imm } => LLI | ((r_a as u16) << 8) | imm.0,
            DecodedInst::Sw { r_a, r_b, imm } => SW | ((r_a as u16) << 8) | ((r_b as u16) << 4)
                | imm.0,
            DecodedInst::Lw { r_a, r_b, imm } => LW | ((r_a as u16) << 8) | ((r_b as u16) << 4)
                | imm.0,
            DecodedInst::Jalr { r_a, r_b, imm } => JALR | ((r_a as u16) << 8) | ((r_b as u16)
                << 4) | imm.0,
            DecodedInst::Beq { r_a, r_b, r_c } => BEQ | ((r_a as u16) << 8) | ((r_b as u16) << 4)
                | (r_c as u16),
            DecodedInst::Bne { r_a, r_b, r_c } => BNE | ((r_a as u16) << 8) | ((r_b as u16) << 4)
                | (r_c as u16),
            DecodedInst::Blt { r_a, r_b, r_c } => BLT | ((r_a as u16) << 8) | ((r_b as u16) << 4)
                | (r_c as u16),
            DecodedInst::Noop => 0x0000,
            DecodedInst::Retl => JALR | 0x0001,
        };
        EncodedInst(bits)
    }
}

} // verus!
