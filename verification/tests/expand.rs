use riscv_sim::{decode_r_type, insn_decompress, insn_is_compressed, int_to_opcode, RiscvOpcode};

#[test]
fn quadrant_three_is_not_compressed() {
    assert!(!insn_is_compressed(0x0000_0003));
    assert!(!insn_is_compressed(0x0050_0093));
    assert!(!insn_is_compressed(0xFFFF_FFFF));
    assert!(insn_is_compressed(0x0000_0000));
    assert!(insn_is_compressed(0x0000_0001));
    assert!(insn_is_compressed(0x0000_0002));
    assert!(insn_is_compressed(0xFFFF_FFFE));
    assert!(insn_is_compressed(0x8C05));
}

#[test]
fn register_register_forms_expand() {
    // c.sub x8, x9 -> sub x8, x8, x9
    assert_eq!(insn_decompress(0x8C05), Ok(0x4094_0433));
    // c.xor x8, x9 -> xor x8, x8, x9
    assert_eq!(insn_decompress(0x8C25), Ok(0x0094_4433));
    // c.or x8, x9 -> or x8, x8, x9
    assert_eq!(insn_decompress(0x8C45), Ok(0x0094_6433));
    // c.and x8, x9 -> and x8, x8, x9
    assert_eq!(insn_decompress(0x8C65), Ok(0x0094_7433));
    // The same on x15 and x10.
    assert_eq!(insn_decompress(0x8F89), Ok(0x40A7_87B3));
    assert_eq!(insn_decompress(0x8FA9), Ok(0x00A7_C7B3));
    assert_eq!(insn_decompress(0x8FC9), Ok(0x00A7_E7B3));
    assert_eq!(insn_decompress(0x8FE9), Ok(0x00A7_F7B3));
}

#[test]
fn expansion_is_a_canonical_register_register_instruction() {
    for select in 0..4u32 {
        for rd in 0..8u32 {
            for rs2 in 0..8u32 {
                let compact = (0b100 << 13) | (0b11 << 10) | (rd << 7) | (select << 5) | (rs2 << 2) | 0b01;
                let insn = insn_decompress(compact).unwrap();
                assert!(!insn_is_compressed(insn));
                assert_eq!(int_to_opcode(insn), RiscvOpcode::Op);
                let (funct7, src2, src1, funct3, dst) = decode_r_type(insn);
                assert_eq!(dst, (rd + 8) as usize);
                assert_eq!(src1, (rd + 8) as usize);
                assert_eq!(src2, (rs2 + 8) as usize);
                let expected = match select {
                    0 => (0b010_0000, 0b000),
                    1 => (0b000_0000, 0b100),
                    2 => (0b000_0000, 0b110),
                    _ => (0b000_0000, 0b111),
                };
                assert_eq!((funct7, funct3), expected);
            }
        }
    }
}

#[test]
fn only_the_low_half_is_read() {
    assert_eq!(insn_decompress(0xFFFF_8C05), Ok(0x4094_0433));
    assert_eq!(insn_decompress(0x1234_8FE9), Ok(0x00A7_F7B3));
}

#[test]
fn other_quadrants_are_unsupported() {
    assert_eq!(insn_decompress(0x0000), Err(()));
    assert_eq!(insn_decompress(0x8C04), Err(()));
    assert_eq!(insn_decompress(0x8C06), Err(()));
    assert_eq!(insn_decompress(0x8C07), Err(()));
    assert_eq!(insn_decompress(0x0050_0093), Err(()));
}

#[test]
fn other_function_codes_are_unsupported() {
    // Bit 12 set selects the word-sized forms, which are not supported.
    assert_eq!(insn_decompress(0x9C05), Err(()));
    assert_eq!(insn_decompress(0x9C65), Err(()));
    // Bits 11..10 other than 11.
    assert_eq!(insn_decompress(0x8005), Err(()));
    assert_eq!(insn_decompress(0x8405), Err(()));
    assert_eq!(insn_decompress(0x8805), Err(()));
    // Bits 15..13 other than 100.
    for funct3 in [0u32, 1, 2, 3, 5, 6, 7] {
        assert_eq!(insn_decompress((funct3 << 13) | 0x0C05), Err(()));
    }
}

#[test]
fn supported_subset_is_exactly_the_four_forms() {
    let mut supported = 0;
    for compact in 0..0x1_0000u32 {
        let expected = compact & 0x3 == 0b01
            && (compact >> 13) & 0x7 == 0b100
            && (compact >> 10) & 0x3 == 0b11
            && (compact >> 12) & 0x1 == 0;
        assert_eq!(insn_decompress(compact).is_ok(), expected);
        if expected {
            supported += 1;
        }
    }
    assert_eq!(supported, 4 * 8 * 8);
}
