use riscv_sim::{
    decode_cb_type, decode_ci_type, decode_ciw_type, decode_cj_type, decode_cl_type,
    decode_cr_type, decode_cs_type, decode_css_type, decode_i_type, decode_r_type, decode_s_type,
    decode_sb_type, decode_u_type, decode_uj_type,
};

fn encode_s(imm: i16, rs2: u32, rs1: u32, funct3: u32, opcode: u32) -> u32 {
    let v = (imm as u32) & 0xFFF;
    ((v >> 5) << 25) | (rs2 << 20) | (rs1 << 15) | (funct3 << 12) | ((v & 0x1F) << 7) | opcode
}

fn encode_sb(imm: i16, rs2: u32, rs1: u32, funct3: u32, opcode: u32) -> u32 {
    let v = (imm as u32) & 0x1FFF;
    (((v >> 12) & 0x1) << 31)
        | (((v >> 5) & 0x3F) << 25)
        | (rs2 << 20)
        | (rs1 << 15)
        | (funct3 << 12)
        | (((v >> 1) & 0xF) << 8)
        | (((v >> 11) & 0x1) << 7)
        | opcode
}

fn encode_uj(imm: i32, rd: u32, opcode: u32) -> u32 {
    let v = (imm as u32) & 0x1F_FFFF;
    (((v >> 20) & 0x1) << 31)
        | (((v >> 1) & 0x3FF) << 21)
        | (((v >> 11) & 0x1) << 20)
        | (((v >> 12) & 0xFF) << 12)
        | (rd << 7)
        | opcode
}

fn encode_cb(funct3: u32, off: i16, rs1: u32) -> u32 {
    let v = (off as u32) & 0x1FF;
    (funct3 << 13) | (((v >> 6) & 0x7) << 10) | ((rs1 - 8) << 7) | (((v >> 1) & 0x1F) << 2) | 0b01
}

fn encode_cj(funct3: u32, target: i16) -> u32 {
    let v = (target as u32) & 0xFFF;
    (funct3 << 13) | (((v >> 1) & 0x7FF) << 2) | 0b01
}

#[test]
fn r_type_fields() {
    // sub x8, x8, x9
    assert_eq!(decode_r_type(0x4094_0433), (0x20, 9, 8, 0, 8));
    assert_eq!(decode_r_type(0xFFFF_FFFF), (0x7F, 31, 31, 7, 31));
    assert_eq!(decode_r_type(0), (0, 0, 0, 0, 0));
    // One field set at a time.
    assert_eq!(decode_r_type(0x7F << 25), (0x7F, 0, 0, 0, 0));
    assert_eq!(decode_r_type(0x1F << 20), (0, 31, 0, 0, 0));
    assert_eq!(decode_r_type(0x1F << 15), (0, 0, 31, 0, 0));
    assert_eq!(decode_r_type(0x7 << 12), (0, 0, 0, 7, 0));
    assert_eq!(decode_r_type(0x1F << 7), (0, 0, 0, 0, 31));
    assert_eq!(decode_r_type(0x7F), (0, 0, 0, 0, 0));
}

#[test]
fn i_type_fields() {
    // addi x1, x0, 5
    assert_eq!(decode_i_type(0x0050_0093), (5, 0, 0, 1));
    // addi x1, x0, -1
    assert_eq!(decode_i_type(0xFFF0_0093), (-1, 0, 0, 1));
    assert_eq!(decode_i_type(0x8000_0093), (-2048, 0, 0, 1));
    assert_eq!(decode_i_type(0x7FF0_0093), (2047, 0, 0, 1));
    // All twelve immediate bits count: bits 10 and 11 are not dropped.
    assert_eq!(decode_i_type(0x4000_0000), (1024, 0, 0, 0));
    assert_eq!(decode_i_type(0x000F_FFFF), (0, 31, 7, 31));
}

#[test]
fn s_type_fields() {
    // sw x3, -1(x4)
    assert_eq!(decode_s_type(0xFE32_2FA3), (-1, 3, 4, 2));
    // The two immediate parts land at bits 11..5 and 4..0.
    assert_eq!(decode_s_type(0x1F << 7), (0x1F, 0, 0, 0));
    assert_eq!(decode_s_type(0x1 << 25), (0x20, 0, 0, 0));
    assert_eq!(decode_s_type(0x3F << 25), (0x7E0, 0, 0, 0));
    assert_eq!(decode_s_type(0x1 << 31), (-2048, 0, 0, 0));
    assert_eq!(decode_s_type(0x01FF_F07F), (0, 31, 31, 7));
}

#[test]
fn s_type_immediate_round_trips() {
    for &imm in &[0i16, 1, -1, 2047, -2048, 5, -5, 0x555, -0x556] {
        let insn = encode_s(imm, 17, 29, 3, 0b010_0011);
        assert_eq!(decode_s_type(insn), (imm, 17, 29, 3));
    }
}

#[test]
fn sb_type_fields() {
    // beq x2, x1, -2
    assert_eq!(decode_sb_type(0xFE11_0FE3), (-2, 1, 2, 0));
    // Each immediate part lands on its own bits.
    assert_eq!(decode_sb_type(0x1 << 8), (2, 0, 0, 0));
    assert_eq!(decode_sb_type(0xF << 8), (0x1E, 0, 0, 0));
    assert_eq!(decode_sb_type(0x1 << 25), (0x20, 0, 0, 0));
    assert_eq!(decode_sb_type(0x3F << 25), (0x7E0, 0, 0, 0));
    assert_eq!(decode_sb_type(0x1 << 7), (0x800, 0, 0, 0));
    assert_eq!(decode_sb_type(0x1 << 31), (-4096, 0, 0, 0));
    assert_eq!(decode_sb_type(0x01FF_F07F), (0, 31, 31, 7));
}

#[test]
fn sb_type_offset_round_trips() {
    for &imm in &[0i16, 2, -2, 4094, -4096, 0x800, -0x800, 0xAAA, -0xAAA] {
        let insn = encode_sb(imm, 1, 2, 5, 0b110_0011);
        assert_eq!(decode_sb_type(insn), (imm, 1, 2, 5));
    }
}

#[test]
fn u_type_fields() {
    // lui x5, 0x12345
    assert_eq!(decode_u_type(0x1234_52B7), (0x1234_5000, 5));
    assert_eq!(decode_u_type(0xFFFF_FFFF), (0xFFFF_F000, 31));
    assert_eq!(decode_u_type(0x0000_0FFF), (0, 31));
    assert_eq!(decode_u_type(0x8000_0000), (0x8000_0000, 0));
}

#[test]
fn uj_type_fields() {
    // jal x1, -2
    assert_eq!(decode_uj_type(0xFFFF_F0EF), (0xFFFF_FFFE, 1));
    // jal x1, 2
    assert_eq!(decode_uj_type(0x0020_00EF), (2, 1));
    // Each immediate part lands on its own bits.
    assert_eq!(decode_uj_type(0x3FF << 21), (0x7FE, 0));
    assert_eq!(decode_uj_type(0x1 << 20), (0x800, 0));
    assert_eq!(decode_uj_type(0xFF << 12), (0xF_F000, 0));
    assert_eq!(decode_uj_type(0x1 << 31), (0xFFF0_0000, 0));
    assert_eq!(decode_uj_type(0x0000_0FFF), (0, 31));
}

#[test]
fn uj_type_offset_round_trips() {
    for &imm in &[0i32, 2, -2, 0xF_FFFE, -0x10_0000, 0x800, -0x800, 0x5_5554, -0x5_5556] {
        let insn = encode_uj(imm, 1, 0b110_1111);
        assert_eq!(decode_uj_type(insn), (imm as u32, 1));
        assert_eq!(decode_uj_type(insn).0 as i32, imm);
    }
}

#[test]
fn cr_type_fields() {
    assert_eq!(decode_cr_type(0xFFFF), (0xF, 31, 31));
    assert_eq!(decode_cr_type(0xF000), (0xF, 0, 0));
    assert_eq!(decode_cr_type(0x0F80), (0, 31, 0));
    assert_eq!(decode_cr_type(0x007C), (0, 0, 31));
    assert_eq!(decode_cr_type(0x0003), (0, 0, 0));
}

#[test]
fn ci_type_fields() {
    assert_eq!(decode_ci_type(0xFFFF), (7, 63, 31));
    assert_eq!(decode_ci_type(0xE000), (7, 0, 0));
    assert_eq!(decode_ci_type(0x1000), (0, 32, 0));
    assert_eq!(decode_ci_type(0x007C), (0, 31, 0));
    assert_eq!(decode_ci_type(0x0F80), (0, 0, 31));
}

#[test]
fn css_type_fields() {
    assert_eq!(decode_css_type(0xFFFF), (7, 63, 31));
    assert_eq!(decode_css_type(0x1F80), (0, 63, 0));
    assert_eq!(decode_css_type(0x0080), (0, 1, 0));
    assert_eq!(decode_css_type(0x007C), (0, 0, 31));
}

#[test]
fn ciw_type_fields() {
    assert_eq!(decode_ciw_type(0xFFFF), (7, 255, 15));
    assert_eq!(decode_ciw_type(0x1FE0), (0, 255, 8));
    assert_eq!(decode_ciw_type(0x0020), (0, 1, 8));
    assert_eq!(decode_ciw_type(0x001C), (0, 0, 15));
    assert_eq!(decode_ciw_type(0x0004), (0, 0, 9));
}

#[test]
fn cl_and_cs_type_fields() {
    assert_eq!(decode_cl_type(0xFFFF), (7, 31, 15, 15));
    assert_eq!(decode_cl_type(0x1C00), (0, 0x1C, 8, 8));
    assert_eq!(decode_cl_type(0x0060), (0, 0x3, 8, 8));
    assert_eq!(decode_cl_type(0x0380), (0, 0, 15, 8));
    assert_eq!(decode_cl_type(0x001C), (0, 0, 8, 15));
    for &insn in &[0u32, 0xFFFF, 0x1C00, 0x0060, 0x0380, 0x001C, 0xA5A5, 0x5A5A] {
        assert_eq!(decode_cs_type(insn), decode_cl_type(insn));
    }
}

#[test]
fn cb_type_fields() {
    assert_eq!(decode_cb_type(0x0000), (0, 0, 8));
    assert_eq!(decode_cb_type(0xE000), (7, 0, 8));
    assert_eq!(decode_cb_type(0x0380), (0, 0, 15));
    assert_eq!(decode_cb_type(0x0004), (0, 2, 8));
    assert_eq!(decode_cb_type(0x007C), (0, 0x3E, 8));
    assert_eq!(decode_cb_type(0x0400), (0, 0x40, 8));
    assert_eq!(decode_cb_type(0x1000), (0, -256, 8));
    assert_eq!(decode_cb_type(0xFFFF), (7, -2, 15));
}

#[test]
fn cb_type_offset_round_trips() {
    for &off in &[0i16, 2, -2, 254, -256, 0x40, -0x40, 0xAA, -0xAC] {
        let insn = encode_cb(6, off, 11);
        assert_eq!(decode_cb_type(insn), (6, off, 11));
    }
}

#[test]
fn cj_type_fields() {
    assert_eq!(decode_cj_type(0x0000), (0, 0));
    assert_eq!(decode_cj_type(0xE000), (7, 0));
    assert_eq!(decode_cj_type(0x0004), (0, 2));
    assert_eq!(decode_cj_type(0x0FFC), (0, 0x7FE));
    assert_eq!(decode_cj_type(0x1000), (0, -2048));
    assert_eq!(decode_cj_type(0xFFFF), (7, -2));
}

#[test]
fn cj_type_target_round_trips() {
    for &target in &[0i16, 2, -2, 2046, -2048, 0x400, -0x400, 0x554, -0x556] {
        let insn = encode_cj(5, target);
        assert_eq!(decode_cj_type(insn), (5, target));
    }
}

#[test]
fn compact_decoders_read_the_low_half_only() {
    for &low in &[0u32, 0xFFFF, 0xA5A5, 0x5A5A, 0x1234] {
        let insn = 0xDEAD_0000 | low;
        assert_eq!(decode_cr_type(insn), decode_cr_type(low));
        assert_eq!(decode_ci_type(insn), decode_ci_type(low));
        assert_eq!(decode_css_type(insn), decode_css_type(low));
        assert_eq!(decode_ciw_type(insn), decode_ciw_type(low));
        assert_eq!(decode_cl_type(insn), decode_cl_type(low));
        assert_eq!(decode_cb_type(insn), decode_cb_type(low));
        assert_eq!(decode_cj_type(insn), decode_cj_type(low));
    }
}

#[test]
fn odd_offsets_lose_bit_zero() {
    // The branch and jump layouts have no place for offset bit 0.
    assert_eq!(decode_sb_type(encode_sb(1, 1, 2, 0, 0b110_0011)), (0, 1, 2, 0));
    assert_eq!(decode_sb_type(encode_sb(-1, 1, 2, 0, 0b110_0011)), (-2, 1, 2, 0));
    assert_eq!(decode_uj_type(encode_uj(1, 1, 0b110_1111)), (0, 1));
    assert_eq!(decode_uj_type(encode_uj(-1, 1, 0b110_1111)), (0xFFFF_FFFE, 1));
    assert_eq!(decode_cb_type(encode_cb(6, 1, 8)), (6, 0, 8));
    assert_eq!(decode_cb_type(encode_cb(6, -1, 8)), (6, -2, 8));
    assert_eq!(decode_cj_type(encode_cj(5, 1)), (5, 0));
    assert_eq!(decode_cj_type(encode_cj(5, -1)), (5, -2));
}
