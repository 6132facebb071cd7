//! Operand fields of the fixed 32-bit instruction layouts.
//!
//! Register numbers and function codes are plain bit fields. The split
//! immediates of the store, branch and jump layouts are put back together
//! bit by bit and read as two's-complement numbers of their own width.

use vstd::prelude::*;

verus! {

/// Bits 31..25.
pub open spec fn funct7_of(insn: u32) -> u8 {
    ((insn >> 25) & 0x7f) as u8
}

/// Bits 24..20.
pub open spec fn rs2_of(insn: u32) -> usize {
    ((insn >> 20) & 0x1f) as usize
}

/// Bits 19..15.
pub open spec fn rs1_of(insn: u32) -> usize {
    ((insn >> 15) & 0x1f) as usize
}

/// Bits 14..12.
pub open spec fn funct3_of(insn: u32) -> u8 {
    ((insn >> 12) & 0x7) as u8
}

/// Bits 11..7.
pub open spec fn rd_of(insn: u32) -> usize {
    ((insn >> 7) & 0x1f) as usize
}

/// The number that the low bits of `raw` stand for in two's complement,
/// where `half` is the weight of the sign bit and `raw < 2 * half`.
pub open spec fn signed(raw: u32, half: u32) -> int {
    if raw >= half {
        raw - 2 * half
    } else {
        raw as int
    }
}

/// The immediate bits of the I layout: instruction bits 31..20.
pub open spec fn raw_imm_i(insn: u32) -> u32 {
    (insn >> 20) & 0xfff
}

/// The immediate bits of the S layout: bits 31..25 give immediate bits
/// 11..5, bits 11..7 give immediate bits 4..0.
pub open spec fn raw_imm_s(insn: u32) -> u32 {
    (((insn >> 25) & 0x7f) << 5) | ((insn >> 7) & 0x1f)
}

/// The immediate bits of the SB layout: bit 31 gives immediate bit 12, bit 7
/// gives bit 11, bits 30..25 give bits 10..5 and bits 11..8 give bits 4..1.
pub open spec fn raw_imm_sb(insn: u32) -> u32 {
    (((insn >> 31) & 0x1) << 12) | (((insn >> 7) & 0x1) << 11) | (((insn >> 25) & 0x3f) << 5) | (((
    insn >> 8) & 0xf) << 1)
}

/// The immediate bits of the UJ layout: bit 31 gives immediate bit 20, bits
/// 19..12 stay in place, bit 20 gives bit 11 and bits 30..21 give bits 10..1.
pub open spec fn raw_imm_uj(insn: u32) -> u32 {
    (((insn >> 31) & 0x1) << 20) | (((insn >> 12) & 0xff) << 12) | (((insn >> 20) & 0x1) << 11) | (((
    insn >> 21) & 0x3ff) << 1)
}

/// The signed 12-bit immediate of the I layout.
pub open spec fn imm_i(insn: u32) -> int {
    signed(raw_imm_i(insn), 0x800)
}

/// The signed 12-bit immediate of the S layout.
pub open spec fn imm_s(insn: u32) -> int {
    signed(raw_imm_s(insn), 0x800)
}

/// The signed 13-bit branch offset of the SB layout; always even.
pub open spec fn imm_sb(insn: u32) -> int {
    signed(raw_imm_sb(insn), 0x1000)
}

/// The upper immediate of the U layout: bits 31..12 in place, low bits zero.
pub open spec fn imm_u(insn: u32) -> u32 {
    ((insn >> 12) & 0xfffff) << 12
}

/// The signed 21-bit jump offset of the UJ layout; always even.
pub open spec fn imm_uj(insn: u32) -> int {
    signed(raw_imm_uj(insn), 0x10_0000)
}

proof fn lemma_field_bounds(insn: u32)
    by (bit_vector)
    ensures
        (insn >> 25) & 0x7f < 128,
        (insn >> 20) & 0x1f < 32,
        (insn >> 15) & 0x1f < 32,
        (insn >> 12) & 0x7 < 8,
        (insn >> 7) & 0x1f < 32,
        raw_imm_i(insn) < 0x1000,
        raw_imm_s(insn) < 0x1000,
        raw_imm_sb(insn) < 0x2000,
        raw_imm_uj(insn) < 0x20_0000,
{
}

/// Every field of a canonical instruction lies within the range of its
/// width, and the branch and jump offsets are even.
pub proof fn lemma_field_ranges(insn: u32)
    ensures
        funct7_of(insn) < 128,
        rs2_of(insn) < 32,
        rs1_of(insn) < 32,
        funct3_of(insn) < 8,
        rd_of(insn) < 32,
        -0x800 <= imm_i(insn) < 0x800,
        -0x800 <= imm_s(insn) < 0x800,
        -0x1000 <= imm_sb(insn) < 0x1000,
        imm_sb(insn) % 2 == 0,
        imm_u(insn) % 0x1000 == 0,
        -0x10_0000 <= imm_uj(insn) < 0x10_0000,
        imm_uj(insn) % 2 == 0,
{
    lemma_field_bounds(insn);
    assert(raw_imm_sb(insn) % 2 == 0 && raw_imm_uj(insn) % 2 == 0 && imm_u(insn) % 0x1000 == 0)
        by (bit_vector);
}

/// The R layout: `(funct7, rs2, rs1, funct3, rd)`.
pub fn decode_r_type(insn: u32) -> (r: (u8, usize, usize, u8, usize))
    ensures
        r == (funct7_of(insn), rs2_of(insn), rs1_of(insn), funct3_of(insn), rd_of(insn)),
        r.0 < 128 && r.1 < 32 && r.2 < 32 && r.3 < 8 && r.4 < 32,
{
    proof {
        lemma_field_bounds(insn);
    }
    let funct7 = ((insn >> 25) & 0x7F) as u8;
    let rs2 = ((insn >> 20) & 0x1F) as usize;
    let rs1 = ((insn >> 15) & 0x1F) as usize;
    let funct3 = ((insn >> 12) & 0x7) as u8;
    let rd = ((insn >> 7) & 0x1F) as usize;
    (funct7, rs2, rs1, funct3, rd)
}

/// The I layout: `(imm, rs1, funct3, rd)`, the immediate sign-extended from
/// 12 bits.
pub fn decode_i_type(insn: u32) -> (r: (i16, usize, u8, usize))
    ensures
        r.0 == imm_i(insn),
        r.1 == rs1_of(insn),
        r.2 == funct3_of(insn),
        r.3 == rd_of(insn),
        -0x800 <= r.0 < 0x800 && r.1 < 32 && r.2 < 8 && r.3 < 32,
{
    proof {
        lemma_field_bounds(insn);
    }
    let raw = (insn >> 20) & 0xFFF;
    let imm: i16 = if raw >= 0x800 {
        (raw as i16) - 0x1000
    } else {
        raw as i16
    };
    let rs1 = ((insn >> 15) & 0x1F) as usize;
    let funct3 = ((insn >> 12) & 0x7) as u8;
    let rd = ((insn >> 7) & 0x1F) as usize;
    (imm, rs1, funct3, rd)
}

/// The S layout: `(imm, rs2, rs1, funct3)`, the immediate put together from
/// its two parts and sign-extended from 12 bits.
pub fn decode_s_type(insn: u32) -> (r: (i16, usize, usize, u8))
    ensures
        r.0 == imm_s(insn),
        r.1 == rs2_of(insn),
        r.2 == rs1_of(insn),
        r.3 == funct3_of(insn),
        -0x800 <= r.0 < 0x800 && r.1 < 32 && r.2 < 32 && r.3 < 8,
{
    proof {
        lemma_field_bounds(insn);
    }
    let raw = (((insn >> 25) & 0x7F) << 5) | ((insn >> 7) & 0x1F);
    let imm: i16 = if raw >= 0x800 {
        (raw as i16) - 0x1000
    } else {
        raw as i16
    };
    let rs2 = ((insn >> 20) & 0x1F) as usize;
    let rs1 = ((insn >> 15) & 0x1F) as usize;
    let funct3 = ((insn >> 12) & 0x7) as u8;
    (imm, rs2, rs1, funct3)
}

/// The SB layout: `(imm, rs2, rs1, funct3)`, the branch offset put together
/// from its four parts and sign-extended from 13 bits.
pub fn decode_sb_type(insn: u32) -> (r: (i16, usize, usize, u8))
    ensures
        r.0 == imm_sb(insn),
        r.1 == rs2_of(insn),
        r.2 == rs1_of(insn),
        r.3 == funct3_of(insn),
        -0x1000 <= r.0 < 0x1000 && r.1 < 32 && r.2 < 32 && r.3 < 8,
{
    proof {
        lemma_field_bounds(insn);
    }
    let imm12 = ((insn >> 31) & 0x01) << 12;
    let imm11 = ((insn >> 7) & 0x01) << 11;
    let imm10_5 = ((insn >> 25) & 0x3F) << 5;
    let imm4_1 = ((insn >> 8) & 0xF) << 1;
    let raw = imm12 | imm11 | imm10_5 | imm4_1;
    let imm: i16 = if raw >= 0x1000 {
        (raw as i16) - 0x2000
    } else {
        raw as i16
    };
    let rs2 = ((insn >> 20) & 0x1F) as usize;
    let rs1 = ((insn >> 15) & 0x1F) as usize;
    let funct3 = ((insn >> 12) & 0x7) as u8;
    (imm, rs2, rs1, funct3)
}

/// The U layout: `(imm, rd)`, the immediate being bits 31..12 in place.
pub fn decode_u_type(insn: u32) -> (r: (u32, usize))
    ensures
        r == (imm_u(insn), rd_of(insn)),
        r.1 < 32,
{
    proof {
        lemma_field_bounds(insn);
    }
    let imm = ((insn >> 12) & 0xFFFFF) << 12;
    let rd = ((insn >> 7) & 0x1F) as usize;
    (imm, rd)
}

/// The 32-bit two's-complement pattern of a number in `-2^31 .. 2^31`.
pub open spec fn twos_complement32(value: int) -> int {
    if value < 0 {
        value + 0x1_0000_0000
    } else {
        value
    }
}

/// The UJ layout: `(imm, rd)`, the jump offset put together from its four
/// parts and sign-extended from 21 bits, as a 32-bit two's-complement
/// pattern.
pub fn decode_uj_type(insn: u32) -> (r: (u32, usize))
    ensures
        r.0 == twos_complement32(imm_uj(insn)),
        r.1 == rd_of(insn),
        r.1 < 32,
{
    proof {
        lemma_field_bounds(insn);
    }
    let imm20 = ((insn >> 31) & 0x001) << 20;
    let imm19_12 = ((insn >> 12) & 0x0FF) << 12;
    let imm11 = ((insn >> 20) & 0x001) << 11;
    let imm10_1 = ((insn >> 21) & 0x3FF) << 1;
    let raw = imm20 | imm19_12 | imm11 | imm10_1;
    let imm: u32 = if raw >= 0x10_0000 {
        raw + 0xFFE0_0000
    } else {
        raw
    };
    let rd = ((insn >> 7) & 0x1F) as usize;
    (imm, rd)
}

} // verus!
