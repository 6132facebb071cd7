//! The 16-bit compact instruction layouts and their expansion to canonical
//! 32-bit instructions.
//!
//! A compact instruction is recognized by its two low bits, the quadrant,
//! being other than `11`. Only its low 16 bits carry meaning. The 3-bit
//! register fields name registers 8 to 15.

use vstd::prelude::*;
use crate::decode::{funct3_of, funct7_of, rd_of, rs1_of, rs2_of, signed};
use crate::encode::{encode_r_type, lemma_r_type_round_trip};
use crate::opcode::{lemma_opcode_of_code, opcode_bits, opcode_of, RiscvOpcode};

verus! {

/// Bits 15..13.
pub open spec fn c_funct3_of(insn: u32) -> u8 {
    ((insn >> 13) & 0x7) as u8
}

/// Bits 15..12.
pub open spec fn c_funct4_of(insn: u32) -> u8 {
    ((insn >> 12) & 0xf) as u8
}

/// The full register field in bits 11..7.
pub open spec fn c_rd_of(insn: u32) -> usize {
    ((insn >> 7) & 0x1f) as usize
}

/// The full register field in bits 6..2.
pub open spec fn c_rs2_of(insn: u32) -> usize {
    ((insn >> 2) & 0x1f) as usize
}

/// The short register field in bits 9..7, naming registers 8 to 15.
pub open spec fn c_rs1_short_of(insn: u32) -> usize {
    (((insn >> 7) & 0x7) + 8) as usize
}

/// The short register field in bits 4..2, naming registers 8 to 15.
pub open spec fn c_rd_short_of(insn: u32) -> usize {
    (((insn >> 2) & 0x7) + 8) as usize
}

/// The immediate of the CI layout: bit 12 gives immediate bit 5, bits 6..2
/// give bits 4..0.
pub open spec fn c_imm_ci(insn: u32) -> u32 {
    ((insn >> 2) & 0x1f) | (((insn >> 12) & 0x1) << 5)
}

/// The immediate of the CSS layout: bits 12..7.
pub open spec fn c_imm_css(insn: u32) -> u32 {
    (insn >> 7) & 0x3f
}

/// The immediate of the CIW layout: bits 12..5.
pub open spec fn c_imm_ciw(insn: u32) -> u32 {
    (insn >> 5) & 0xff
}

/// The immediate of the CL and CS layouts: bits 12..10 give immediate bits
/// 4..2, bits 6..5 give bits 1..0.
pub open spec fn c_imm_cl(insn: u32) -> u32 {
    ((insn >> 5) & 0x3) | (((insn >> 10) & 0x7) << 2)
}

/// The offset bits of the CB layout: bits 12..10 give offset bits 8..6, bits
/// 6..2 give bits 5..1.
pub open spec fn c_raw_off_cb(insn: u32) -> u32 {
    (((insn >> 2) & 0x1f) << 1) | (((insn >> 10) & 0x7) << 6)
}

/// The target bits of the CJ layout: bits 12..2 give target bits 11..1.
pub open spec fn c_raw_target_cj(insn: u32) -> u32 {
    ((insn >> 2) & 0x7ff) << 1
}

/// The signed 9-bit branch offset of the CB layout; always even.
pub open spec fn c_off_cb(insn: u32) -> int {
    signed(c_raw_off_cb(insn), 0x100)
}

/// The signed 12-bit jump target of the CJ layout; always even.
pub open spec fn c_target_cj(insn: u32) -> int {
    signed(c_raw_target_cj(insn), 0x800)
}

proof fn lemma_compact_field_bounds(insn: u32)
    by (bit_vector)
    ensures
        (insn >> 13) & 0x7 < 8,
        (insn >> 12) & 0xf < 16,
        (insn >> 7) & 0x1f < 32,
        (insn >> 2) & 0x1f < 32,
        (insn >> 7) & 0x7 < 8,
        (insn >> 2) & 0x7 < 8,
        (insn >> 5) & 0x3 < 4,
        c_imm_ci(insn) < 64,
        c_imm_css(insn) < 64,
        c_imm_ciw(insn) < 256,
        c_imm_cl(insn) < 32,
        c_raw_off_cb(insn) < 0x200,
        c_raw_off_cb(insn) % 2 == 0,
        c_raw_target_cj(insn) < 0x1000,
        c_raw_target_cj(insn) % 2 == 0,
{
}

/// Every field of a compact instruction lies within the range of its width,
/// the short register fields name registers 8 to 15, and the branch and jump
/// offsets are even.
pub proof fn lemma_compact_field_ranges(insn: u32)
    ensures
        c_funct3_of(insn) < 8,
        c_funct4_of(insn) < 16,
        c_rd_of(insn) < 32,
        c_rs2_of(insn) < 32,
        8 <= c_rs1_short_of(insn) < 16,
        8 <= c_rd_short_of(insn) < 16,
        c_imm_ci(insn) < 64,
        c_imm_css(insn) < 64,
        c_imm_ciw(insn) < 256,
        c_imm_cl(insn) < 32,
        -0x100 <= c_off_cb(insn) < 0x100,
        c_off_cb(insn) % 2 == 0,
        -0x800 <= c_target_cj(insn) < 0x800,
        c_target_cj(insn) % 2 == 0,
{
    lemma_compact_field_bounds(insn);
}

/// The CR layout: `(funct4, rd, rs2)`.
pub fn decode_cr_type(insn: u32) -> (r: (u8, usize, usize))
    ensures
        r == (c_funct4_of(insn), c_rd_of(insn), c_rs2_of(insn)),
        r.0 < 16 && r.1 < 32 && r.2 < 32,
{
    proof {
        lemma_compact_field_bounds(insn);
    }
    let funct4 = ((insn >> 12) & 0x0F) as u8;
    let rd = ((insn >> 7) & 0x1F) as usize;
    let rs2 = ((insn >> 2) & 0x1F) as usize;
    (funct4, rd, rs2)
}

/// The CI layout: `(funct3, imm, rd)`, the immediate zero-extended.
pub fn decode_ci_type(insn: u32) -> (r: (u8, i16, usize))
    ensures
        r.0 == c_funct3_of(insn),
        r.1 == c_imm_ci(insn),
        r.2 == c_rd_of(insn),
        r.0 < 8 && 0 <= r.1 < 64 && r.2 < 32,
{
    proof {
        lemma_compact_field_bounds(insn);
    }
    let funct3 = ((insn >> 13) & 0x07) as u8;
    let imm5 = ((insn >> 12) & 0x01) << 5;
    let imm4_0 = (insn >> 2) & 0x1F;
    let rd = ((insn >> 7) & 0x1F) as usize;
    let imm = (imm4_0 | imm5) as i16;
    (funct3, imm, rd)
}

/// The CSS layout: `(funct3, imm, rs2)`, the immediate zero-extended.
pub fn decode_css_type(insn: u32) -> (r: (u8, i16, usize))
    ensures
        r.0 == c_funct3_of(insn),
        r.1 == c_imm_css(insn),
        r.2 == c_rs2_of(insn),
        r.0 < 8 && 0 <= r.1 < 64 && r.2 < 32,
{
    proof {
        lemma_compact_field_bounds(insn);
    }
    let funct3 = ((insn >> 13) & 0x07) as u8;
    let imm = ((insn >> 7) & 0x3F) as i16;
    let rs2 = ((insn >> 2) & 0x1F) as usize;
    (funct3, imm, rs2)
}

/// The CIW layout: `(funct3, imm, rd)`, the immediate zero-extended and the
/// register one of 8 to 15.
pub fn decode_ciw_type(insn: u32) -> (r: (u8, i16, usize))
    ensures
        r.0 == c_funct3_of(insn),
        r.1 == c_imm_ciw(insn),
        r.2 == c_rd_short_of(insn),
        r.0 < 8 && 0 <= r.1 < 256 && 8 <= r.2 < 16,
{
    proof {
        lemma_compact_field_bounds(insn);
    }
    let funct3 = ((insn >> 13) & 0x07) as u8;
    let imm = ((insn >> 5) & 0xFF) as i16;
    let rd = (((insn >> 2) & 0x07) + 8) as usize;
    (funct3, imm, rd)
}

/// The CL layout: `(funct3, imm, rs1, rd)`, the immediate zero-extended and
/// both registers among 8 to 15.
pub fn decode_cl_type(insn: u32) -> (r: (u8, i16, usize, usize))
    ensures
        r.0 == c_funct3_of(insn),
        r.1 == c_imm_cl(insn),
        r.2 == c_rs1_short_of(insn),
        r.3 == c_rd_short_of(insn),
        r.0 < 8 && 0 <= r.1 < 32 && 8 <= r.2 < 16 && 8 <= r.3 < 16,
{
    proof {
        lemma_compact_field_bounds(insn);
    }
    let funct3 = ((insn >> 13) & 0x07) as u8;
    let imm4_2 = ((insn >> 10) & 0x07) << 2;
    let imm1_0 = (insn >> 5) & 0x03;
    let rs1 = (((insn >> 7) & 0x07) + 8) as usize;
    let rd = (((insn >> 2) & 0x07) + 8) as usize;
    let imm = (imm1_0 | imm4_2) as i16;
    (funct3, imm, rs1, rd)
}

/// The CS layout: `(funct3, imm, rs1, rs2)`. It has the fields of the CL
/// layout; only the role of the last register differs.
pub fn decode_cs_type(insn: u32) -> (r: (u8, i16, usize, usize))
    ensures
        r.0 == c_funct3_of(insn),
        r.1 == c_imm_cl(insn),
        r.2 == c_rs1_short_of(insn),
        r.3 == c_rd_short_of(insn),
        r.0 < 8 && 0 <= r.1 < 32 && 8 <= r.2 < 16 && 8 <= r.3 < 16,
{
    decode_cl_type(insn)
}

/// The CB layout: `(funct3, offset, rs1)`, the branch offset put together
/// from its two parts and sign-extended from 9 bits, the register one of 8
/// to 15.
pub fn decode_cb_type(insn: u32) -> (r: (u8, i16, usize))
    ensures
        r.0 == c_funct3_of(insn),
        r.1 == c_off_cb(insn),
        r.2 == c_rs1_short_of(insn),
        r.0 < 8 && -0x100 <= r.1 < 0x100 && 8 <= r.2 < 16,
{
    proof {
        lemma_compact_field_bounds(insn);
    }
    let funct3 = ((insn >> 13) & 0x07) as u8;
    let off8_6 = ((insn >> 10) & 0x07) << 6;
    let off5_1 = ((insn >> 2) & 0x1F) << 1;
    let rs1 = (((insn >> 7) & 0x07) + 8) as usize;
    let raw = off5_1 | off8_6;
    let off: i16 = if raw >= 0x100 {
        (raw as i16) - 0x200
    } else {
        raw as i16
    };
    (funct3, off, rs1)
}

/// The CJ layout: `(funct3, target)`, the jump target sign-extended from 12
/// bits.
pub fn decode_cj_type(insn: u32) -> (r: (u8, i16))
    ensures
        r.0 == c_funct3_of(insn),
        r.1 == c_target_cj(insn),
        r.0 < 8 && -0x800 <= r.1 < 0x800,
{
    proof {
        lemma_compact_field_bounds(insn);
    }
    let funct3 = ((insn >> 13) & 0x07) as u8;
    let raw = ((insn >> 2) & 0x7FF) << 1;
    let target: i16 = if raw >= 0x800 {
        (raw as i16) - 0x1000
    } else {
        raw as i16
    };
    (funct3, target)
}

/// A CB-layout instruction word: offset bits 8..6 go to bits 12..10, offset
/// bits 5..1 to bits 6..2; the register field holds `rs1 - 8`.
pub open spec fn encode_cb_type(funct3: u32, off: i16, rs1: u32, quadrant: u32) -> u32 {
    funct3 << 13 | (((off as u32) >> 6) & 0x7) << 10 | ((rs1 - 8) as u32) << 7 | (((off as u32) >> 1)
        & 0x1f) << 2 | quadrant
}

/// A CJ-layout instruction word: target bits 11..1 go to bits 12..2.
pub open spec fn encode_cj_type(funct3: u32, target: i16, quadrant: u32) -> u32 {
    funct3 << 13 | (((target as u32) >> 1) & 0x7ff) << 2 | quadrant
}

/// Every even signed 9-bit offset survives the split into the two offset
/// fields of the CB layout, and the other fields are untouched by it. The
/// layout has no place for offset bit 0: an odd offset comes back with that
/// bit cleared.
pub proof fn lemma_cb_type_round_trip(funct3: u32, off: i16, rs1: u32, quadrant: u32)
    by (bit_vector)
    requires
        funct3 < 8,
        -0x100 <= off < 0x100,
        8 <= rs1 < 16,
        quadrant < 4,
    ensures
        c_funct3_of(encode_cb_type(funct3, off, rs1, quadrant)) == funct3,
        off % 2 == 0 ==> c_off_cb(encode_cb_type(funct3, off, rs1, quadrant)) == off,
        c_off_cb(encode_cb_type(funct3, off, rs1, quadrant)) == off - off % 2,
        c_rs1_short_of(encode_cb_type(funct3, off, rs1, quadrant)) == rs1,
        encode_cb_type(funct3, off, rs1, quadrant) & 0x3 == quadrant,
        encode_cb_type(funct3, off, rs1, quadrant) < 0x1_0000,
{
}

/// Every even signed 12-bit target survives the CJ layout, and the other
/// fields are untouched by it. The layout has no place for target bit 0: an
/// odd target comes back with that bit cleared.
pub proof fn lemma_cj_type_round_trip(funct3: u32, target: i16, quadrant: u32)
    by (bit_vector)
    requires
        funct3 < 8,
        -0x800 <= target < 0x800,
        quadrant < 4,
    ensures
        c_funct3_of(encode_cj_type(funct3, target, quadrant)) == funct3,
        target % 2 == 0 ==> c_target_cj(encode_cj_type(funct3, target, quadrant)) == target,
        c_target_cj(encode_cj_type(funct3, target, quadrant)) == target - target % 2,
        encode_cj_type(funct3, target, quadrant) & 0x3 == quadrant,
        encode_cj_type(funct3, target, quadrant) < 0x1_0000,
{
}

/// Whether a fetched word starts with a compact instruction.
pub open spec fn is_compressed(insn: u32) -> bool {
    insn & 0x3 != 0x3
}

/// Whether a fetched word starts with a compact instruction: its two low
/// bits are not both set.
pub fn insn_is_compressed(insn: u32) -> (r: bool)
    ensures
        r == is_compressed(insn),
{
    (insn & 0x3) != 0x3
}

/// The compact forms that expand: quadrant 1 with function code `100` in
/// bits 15..13, `11` in bits 11..10 and bit 12 clear. These are the
/// register-register subtract, exclusive-or, or and and.
pub open spec fn is_compact_alu(compressed: u32) -> bool {
    &&& compressed & 0x3 == 0b01
    &&& (compressed >> 13) & 0x7 == 0b100
    &&& (compressed >> 10) & 0x3 == 0b11
    &&& (compressed >> 12) & 0x1 == 0
}

/// The canonical `(funct7, funct3)` of the operation selected by bits 6..5
/// of a compact register-register instruction.
pub open spec fn compact_alu_funct(select: u32) -> (u32, u32) {
    if select == 0b00 {
        (0b010_0000, 0b000)
    } else if select == 0b01 {
        (0b000_0000, 0b100)
    } else if select == 0b10 {
        (0b000_0000, 0b110)
    } else {
        (0b000_0000, 0b111)
    }
}

/// The canonical instruction that a compact instruction stands for, where it
/// is one of the forms that expand: the selected operation on the register
/// in bits 9..7, which is both destination and first source, and the
/// register in bits 4..2.
pub open spec fn expand_spec(compressed: u32) -> Option<u32> {
    if is_compact_alu(compressed) {
        let rd = ((compressed >> 7) & 0x7) + 8;
        let rs2 = ((compressed >> 2) & 0x7) + 8;
        let funct = compact_alu_funct((compressed >> 5) & 0x3);
        Some(encode_r_type(funct.0, rs2 as u32, rd as u32, funct.1, rd as u32, 0b011_0011))
    } else {
        None
    }
}

/// Expands a compact instruction, held in the low 16 bits of `compressed`,
/// to the canonical instruction it stands for. Every form outside the
/// supported subset is refused.
pub fn insn_decompress(compressed: u32) -> (r: Result<u32, ()>)
    ensures
        r == (match expand_spec(compressed) {
            Some(insn) => Ok::<u32, ()>(insn),
            None => Err::<u32, ()>(()),
        }),
{
    proof {
        lemma_compact_field_bounds(compressed);
    }
    match compressed & 0x3 {
        0b01 => {
            match (compressed >> 13) & 0x7 {
                0b100 => {
                    match (compressed >> 10) & 0x3 {
                        0b11 => {
                            if (compressed >> 12) & 0x1 != 0 {
                                return Err(());
                            }
                            let opcode: u32 = 0b011_0011;
                            let rs2 = ((compressed >> 2) & 0x07) + 8;
                            let rs1 = ((compressed >> 7) & 0x07) + 8;
                            let (funct7, funct3): (u32, u32) = match (compressed >> 5) & 0x3 {
                                0b00 => (0b010_0000, 0b000),
                                0b01 => (0b000_0000, 0b100),
                                0b10 => (0b000_0000, 0b110),
                                _ => (0b000_0000, 0b111),
                            };
                            Ok(
                                funct7 << 25 | rs2 << 20 | rs1 << 15 | funct3 << 12 | rs1 << 7
                                    | opcode,
                            )
                        },
                        _ => Err(()),
                    }
                },
                _ => Err(()),
            }
        },
        _ => Err(()),
    }
}

/// Only the low 16 bits of the argument decide what a compact instruction
/// expands to.
pub proof fn lemma_expand_reads_low_half(compressed: u32)
    ensures
        expand_spec(compressed) == expand_spec(compressed & 0xffff),
{
    let low = compressed & 0xffff;
    assert(low & 0x3 == compressed & 0x3 && (low >> 13) & 0x7 == (compressed >> 13) & 0x7 && (low
        >> 10) & 0x3 == (compressed >> 10) & 0x3 && (low >> 12) & 0x1 == (compressed >> 12) & 0x1
        && (low >> 7) & 0x7 == (compressed >> 7) & 0x7 && (low >> 2) & 0x7 == (compressed >> 2)
        & 0x7 && (low >> 5) & 0x3 == (compressed >> 5) & 0x3) by (bit_vector)
        requires
            low == compressed & 0xffff,
    ;
}

/// What comes out of an expansion is a canonical register-register
/// instruction: it is not compact, its opcode is `Op`, its destination and
/// first source are the register of bits 9..7, its second source the
/// register of bits 4..2, and its function codes those of the selected
/// operation.
pub proof fn lemma_expand_gives_op(compressed: u32)
    requires
        expand_spec(compressed) is Some,
    ensures
        !is_compressed(expand_spec(compressed)->Some_0),
        opcode_of(expand_spec(compressed)->Some_0) == RiscvOpcode::Op,
        rd_of(expand_spec(compressed)->Some_0) == c_rs1_short_of(compressed),
        rs1_of(expand_spec(compressed)->Some_0) == c_rs1_short_of(compressed),
        rs2_of(expand_spec(compressed)->Some_0) == c_rd_short_of(compressed),
        funct7_of(expand_spec(compressed)->Some_0) == compact_alu_funct(
            (compressed >> 5) & 0x3,
        ).0,
        funct3_of(expand_spec(compressed)->Some_0) == compact_alu_funct(
            (compressed >> 5) & 0x3,
        ).1,
{
    lemma_compact_field_bounds(compressed);
    let rd = (((compressed >> 7) & 0x7) + 8) as u32;
    let rs2 = (((compressed >> 2) & 0x7) + 8) as u32;
    let funct = compact_alu_funct((compressed >> 5) & 0x3);
    let insn = expand_spec(compressed)->Some_0;
    lemma_r_type_round_trip(funct.0, rs2, rd, funct.1, rd, 0b011_0011);
    lemma_opcode_of_code(insn, RiscvOpcode::Op);
    assert(insn & 0x3 == 0x3) by (bit_vector)
        requires
            insn & 0x7f == 0b011_0011,
    ;
}

} // verus!
