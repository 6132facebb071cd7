//! The inverse of field extraction: how operand fields are laid out in a
//! 32-bit instruction word, and the proof that decoding gives them back.

use vstd::prelude::*;
use crate::decode::{funct3_of, funct7_of, imm_s, imm_sb, imm_uj, rd_of, rs1_of, rs2_of};
use crate::opcode::opcode_bits;

verus! {

/// An R-layout instruction word with the given fields.
pub open spec fn encode_r_type(
    funct7: u32,
    rs2: u32,
    rs1: u32,
    funct3: u32,
    rd: u32,
    opcode: u32,
) -> u32 {
    funct7 << 25 | rs2 << 20 | rs1 << 15 | funct3 << 12 | rd << 7 | opcode
}

/// An S-layout instruction word: immediate bits 11..5 go to bits 31..25,
/// immediate bits 4..0 to bits 11..7.
pub open spec fn encode_s_type(imm: i16, rs2: u32, rs1: u32, funct3: u32, opcode: u32) -> u32 {
    (((imm as u32) >> 5) & 0x7f) << 25 | rs2 << 20 | rs1 << 15 | funct3 << 12 | ((imm as u32)
        & 0x1f) << 7 | opcode
}

/// An SB-layout instruction word: offset bit 12 goes to bit 31, bits 10..5
/// to bits 30..25, bits 4..1 to bits 11..8 and bit 11 to bit 7.
pub open spec fn encode_sb_type(imm: i16, rs2: u32, rs1: u32, funct3: u32, opcode: u32) -> u32 {
    (((imm as u32) >> 12) & 0x1) << 31 | (((imm as u32) >> 5) & 0x3f) << 25 | rs2 << 20 | rs1 << 15
        | funct3 << 12 | (((imm as u32) >> 1) & 0xf) << 8 | (((imm as u32) >> 11) & 0x1) << 7
        | opcode
}

/// A UJ-layout instruction word: offset bit 20 goes to bit 31, bits 10..1 to
/// bits 30..21, bit 11 to bit 20 and bits 19..12 stay in place.
pub open spec fn encode_uj_type(imm: i32, rd: u32, opcode: u32) -> u32 {
    (((imm as u32) >> 20) & 0x1) << 31 | (((imm as u32) >> 1) & 0x3ff) << 21 | (((imm as u32) >> 11)
        & 0x1) << 20 | (((imm as u32) >> 12) & 0xff) << 12 | rd << 7 | opcode
}

/// Decoding an encoded R-layout word gives back every field.
pub proof fn lemma_r_type_round_trip(
    funct7: u32,
    rs2: u32,
    rs1: u32,
    funct3: u32,
    rd: u32,
    opcode: u32,
)
    by (bit_vector)
    requires
        funct7 < 128,
        rs2 < 32,
        rs1 < 32,
        funct3 < 8,
        rd < 32,
        opcode < 128,
    ensures
        funct7_of(encode_r_type(funct7, rs2, rs1, funct3, rd, opcode)) == funct7,
        rs2_of(encode_r_type(funct7, rs2, rs1, funct3, rd, opcode)) == rs2,
        rs1_of(encode_r_type(funct7, rs2, rs1, funct3, rd, opcode)) == rs1,
        funct3_of(encode_r_type(funct7, rs2, rs1, funct3, rd, opcode)) == funct3,
        rd_of(encode_r_type(funct7, rs2, rs1, funct3, rd, opcode)) == rd,
        opcode_bits(encode_r_type(funct7, rs2, rs1, funct3, rd, opcode)) == opcode,
{
}

/// Every signed 12-bit immediate survives the split into the two immediate
/// fields of the S layout, and the other fields are untouched by it.
pub proof fn lemma_s_type_round_trip(imm: i16, rs2: u32, rs1: u32, funct3: u32, opcode: u32)
    by (bit_vector)
    requires
        -0x800 <= imm < 0x800,
        rs2 < 32,
        rs1 < 32,
        funct3 < 8,
        opcode < 128,
    ensures
        imm_s(encode_s_type(imm, rs2, rs1, funct3, opcode)) == imm,
        rs2_of(encode_s_type(imm, rs2, rs1, funct3, opcode)) == rs2,
        rs1_of(encode_s_type(imm, rs2, rs1, funct3, opcode)) == rs1,
        funct3_of(encode_s_type(imm, rs2, rs1, funct3, opcode)) == funct3,
        opcode_bits(encode_s_type(imm, rs2, rs1, funct3, opcode)) == opcode,
{
}

/// Every even signed 13-bit offset survives the split into the four offset
/// fields of the SB layout, and the other fields are untouched by it. The
/// layout has no place for offset bit 0: an odd offset comes back with that
/// bit cleared.
pub proof fn lemma_sb_type_round_trip(imm: i16, rs2: u32, rs1: u32, funct3: u32, opcode: u32)
    by (bit_vector)
    requires
        -0x1000 <= imm < 0x1000,
        rs2 < 32,
        rs1 < 32,
        funct3 < 8,
        opcode < 128,
    ensures
        imm % 2 == 0 ==> imm_sb(encode_sb_type(imm, rs2, rs1, funct3, opcode)) == imm,
        imm_sb(encode_sb_type(imm, rs2, rs1, funct3, opcode)) == imm - imm % 2,
        rs2_of(encode_sb_type(imm, rs2, rs1, funct3, opcode)) == rs2,
        rs1_of(encode_sb_type(imm, rs2, rs1, funct3, opcode)) == rs1,
        funct3_of(encode_sb_type(imm, rs2, rs1, funct3, opcode)) == funct3,
        opcode_bits(encode_sb_type(imm, rs2, rs1, funct3, opcode)) == opcode,
{
}

/// Every even signed 21-bit offset survives the split into the four offset
/// fields of the UJ layout, and the other fields are untouched by it. The
/// layout has no place for offset bit 0: an odd offset comes back with that
/// bit cleared.
pub proof fn lemma_uj_type_round_trip(imm: i32, rd: u32, opcode: u32)
    by (bit_vector)
    requires
        -0x10_0000 <= imm < 0x10_0000,
        rd < 32,
        opcode < 128,
    ensures
        imm % 2 == 0 ==> imm_uj(encode_uj_type(imm, rd, opcode)) == imm,
        imm_uj(encode_uj_type(imm, rd, opcode)) == imm - imm % 2,
        rd_of(encode_uj_type(imm, rd, opcode)) == rd,
        opcode_bits(encode_uj_type(imm, rd, opcode)) == opcode,
{
}

} // verus!
