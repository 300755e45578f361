//! Bit-field decoder: pure functions that extract the opcode, register
//! indices, function-select fields and the J-type immediate from a raw
//! 32-bit instruction word, together with encoders that pack fields back
//! into a word. Decoding an encoded word recovers the fields exactly.

use vstd::prelude::*;

verus! {

/// Opcode of the R-type (register-register) instruction family.
pub const OPCODE_RTYPE: u32 = 0b0110011;

/// Opcode of the J-type unconditional jump-and-link instruction.
pub const OPCODE_JAL: u32 = 0b1101111;

/// `funct3` value selecting integer addition within the R-type family.
pub const FUNCT3_ADD: u32 = 0b000;

/// `funct7` value selecting integer addition within the R-type family.
pub const FUNCT7_ADD: u32 = 0b0000000;

/// Opcode field: bits [6:0] of the instruction word.
pub open spec fn spec_opcode(instr: u32) -> u32 {
    instr & 0x7f
}

/// Destination register field: bits [11:7].
pub open spec fn spec_rd(instr: u32) -> u32 {
    (instr >> 7) & 0x1f
}

/// Sub-opcode selector field: bits [14:12].
pub open spec fn spec_funct3(instr: u32) -> u32 {
    (instr >> 12) & 0x7
}

/// First source register field: bits [19:15].
pub open spec fn spec_rs1(instr: u32) -> u32 {
    (instr >> 15) & 0x1f
}

/// Second source register field: bits [24:20].
pub open spec fn spec_rs2(instr: u32) -> u32 {
    (instr >> 20) & 0x1f
}

/// Secondary sub-opcode selector field: bits [31:25], R-type only.
pub open spec fn spec_funct7(instr: u32) -> u32 {
    (instr >> 25) & 0x7f
}

/// J-type immediate, assembled from its four scrambled bit ranges and
/// sign-extended to 32 bits: word bit 31 is immediate bit 20 (the sign),
/// word bits [30:21] are immediate bits [10:1], word bit 20 is immediate
/// bit 11, word bits [19:12] are immediate bits [19:12]; immediate bit 0
/// is always 0.
pub open spec fn spec_imm_jtype(instr: u32) -> u32 {
    (if instr >> 31 == 1 {
        0xfff0_0000u32
    } else {
        0u32
    }) | (((instr >> 21) & 0x3ff) << 1) | (((instr >> 20) & 0x1) << 11) | (((instr >> 12)
        & 0xff) << 12)
}

/// A 32-bit value is a well-formed J-type immediate when it is even and
/// its bits above bit 20 replicate the sign bit (bit 20).
pub open spec fn valid_jtype_imm(imm: u32) -> bool {
    imm & 1 == 0 && (imm >> 20 == 0 || imm >> 20 == 0xfff)
}

/// Mask with the low `n` bits set.
pub fn n_bits(n: u32) -> (r: u32)
    requires
        n < 32,
    ensures
        r == (1u32 << n) - 1,
{
    proof {
        assert(n < 32 ==> 1u32 << n >= 1) by (bit_vector);
    }
    (1u32 << n) - 1
}

/// Extract the opcode field, bits [6:0].
pub fn get_opcode(instr: u32) -> (r: u32)
    ensures
        r == spec_opcode(instr),
        r < 0x80,
{
    proof {
        assert((1u32 << 7) - 1 == 0x7f) by (bit_vector);
        assert(instr & 0x7f < 0x80) by (bit_vector);
    }
    instr & n_bits(7)
}

/// Extract the destination register index, bits [11:7].
pub fn get_rd(instr: u32) -> (r: u32)
    ensures
        r == spec_rd(instr),
        r < 32,
{
    proof {
        assert((1u32 << 5) - 1 == 0x1f) by (bit_vector);
        assert((instr >> 7) & 0x1f < 32) by (bit_vector);
    }
    (instr >> 7) & n_bits(5)
}

/// Extract the `funct3` sub-opcode field, bits [14:12].
pub fn get_funct3(instr: u32) -> (r: u32)
    ensures
        r == spec_funct3(instr),
        r < 8,
{
    proof {
        assert((1u32 << 3) - 1 == 0x7) by (bit_vector);
        assert((instr >> 12) & 0x7 < 8) by (bit_vector);
    }
    (instr >> 12) & n_bits(3)
}

/// Extract the first source register index, bits [19:15].
pub fn get_rs1(instr: u32) -> (r: u32)
    ensures
        r == spec_rs1(instr),
        r < 32,
{
    proof {
        assert((1u32 << 5) - 1 == 0x1f) by (bit_vector);
        assert((instr >> 15) & 0x1f < 32) by (bit_vector);
    }
    (instr >> 15) & n_bits(5)
}

/// Extract the second source register index, bits [24:20].
pub fn get_rs2(instr: u32) -> (r: u32)
    ensures
        r == spec_rs2(instr),
        r < 32,
{
    proof {
        assert((1u32 << 5) - 1 == 0x1f) by (bit_vector);
        assert((instr >> 20) & 0x1f < 32) by (bit_vector);
    }
    (instr >> 20) & n_bits(5)
}

/// Extract the `funct7` sub-opcode field, bits [31:25].
pub fn get_funct7(instr: u32) -> (r: u32)
    ensures
        r == spec_funct7(instr),
        r < 0x80,
{
    proof {
        assert((1u32 << 7) - 1 == 0x7f) by (bit_vector);
        assert((instr >> 25) & 0x7f < 0x80) by (bit_vector);
    }
    (instr >> 25) & n_bits(7)
}

/// Assemble the sign-extended J-type immediate from its four scrambled
/// bit ranges. Total over all words; the result is always even and
/// correctly sign-extended.
pub fn get_imm_jtype(instr: u32) -> (r: u32)
    ensures
        r == spec_imm_jtype(instr),
        valid_jtype_imm(r),
{
    let sign: u32 = instr >> 31;
    let imm_20: u32 = if sign == 1 {
        0xfff0_0000
    } else {
        0
    };
    proof {
        assert((1u32 << 10) - 1 == 0x3ff) by (bit_vector);
        assert((1u32 << 1) - 1 == 0x1) by (bit_vector);
        assert((1u32 << 8) - 1 == 0xff) by (bit_vector);
    }
    let imm_10_1: u32 = ((instr >> 21) & n_bits(10)) << 1;
    let imm_11: u32 = ((instr >> 20) & n_bits(1)) << 11;
    let imm_19_12: u32 = ((instr >> 12) & n_bits(8)) << 12;
    proof {
        assert(valid_jtype_imm(spec_imm_jtype(instr))) by (bit_vector);
    }
    imm_20 | imm_10_1 | imm_11 | imm_19_12
}

/// Pack the six standard instruction fields into a word laid out in the
/// R-type format. Decoding the result recovers every field.
pub fn encode_rtype(opcode: u32, rd: u32, funct3: u32, rs1: u32, rs2: u32, funct7: u32) -> (r: u32)
    requires
        opcode < 0x80,
        rd < 32,
        funct3 < 8,
        rs1 < 32,
        rs2 < 32,
        funct7 < 0x80,
    ensures
        spec_opcode(r) == opcode,
        spec_rd(r) == rd,
        spec_funct3(r) == funct3,
        spec_rs1(r) == rs1,
        spec_rs2(r) == rs2,
        spec_funct7(r) == funct7,
{
    let r: u32 = opcode | (rd << 7) | (funct3 << 12) | (rs1 << 15) | (rs2 << 20) | (funct7 << 25);
    proof {
        assert(spec_opcode(r) == opcode && spec_rd(r) == rd && spec_funct3(r) == funct3
            && spec_rs1(r) == rs1 && spec_rs2(r) == rs2 && spec_funct7(r) == funct7)
            by (bit_vector)
            requires
                r == opcode | (rd << 7) | (funct3 << 12) | (rs1 << 15) | (rs2 << 20) | (funct7
                    << 25),
                opcode < 0x80,
                rd < 32,
                funct3 < 8,
                rs1 < 32,
                rs2 < 32,
                funct7 < 0x80,
        ;
    }
    r
}

/// Pack an opcode, a destination register and a well-formed sign-extended
/// J-type immediate into a word laid out in the J-type format. Decoding
/// the result recovers every field, the immediate included.
pub fn encode_jtype(opcode: u32, rd: u32, imm: u32) -> (r: u32)
    requires
        opcode < 0x80,
        rd < 32,
        valid_jtype_imm(imm),
    ensures
        spec_opcode(r) == opcode,
        spec_rd(r) == rd,
        spec_imm_jtype(r) == imm,
{
    let r: u32 = opcode | (rd << 7) | (((imm >> 12) & 0xff) << 12) | (((imm >> 11) & 0x1) << 20) | (
    ((imm >> 1) & 0x3ff) << 21) | (((imm >> 20) & 0x1) << 31);
    proof {
        assert(spec_opcode(r) == opcode && spec_rd(r) == rd && spec_imm_jtype(r) == imm)
            by (bit_vector)
            requires
                r == opcode | (rd << 7) | (((imm >> 12) & 0xff) << 12) | (((imm >> 11) & 0x1)
                    << 20) | (((imm >> 1) & 0x3ff) << 21) | (((imm >> 20) & 0x1) << 31),
                opcode < 0x80,
                rd < 32,
                imm & 1 == 0,
                imm >> 20 == 0 || imm >> 20 == 0xfff,
        ;
    }
    r
}

} // verus!
