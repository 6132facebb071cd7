use riscv_sim::{data_load, data_store, instr_load, Memory, MemoryFault, SimpleRam};

fn truncated(value: u64, size: usize) -> u64 {
    if size == 8 {
        value
    } else {
        value & ((1u64 << (8 * size)) - 1)
    }
}

#[test]
fn new_memory_reads_zero_everywhere() {
    let mem = SimpleRam::new(4);
    for addr in 0..32u64 {
        assert_eq!(mem.read(addr, 1), Ok(0));
    }
    assert_eq!(mem.read(0, 8), Ok(0));
    assert_eq!(mem.read(24, 8), Ok(0));
}

#[test]
fn capacity_is_eight_bytes_per_word() {
    let mem = SimpleRam::new(4);
    assert_eq!(mem.read(31, 1), Ok(0));
    assert_eq!(mem.read(32, 1), Err(MemoryFault::OutOfRange));
}

#[test]
fn write_then_read_gives_the_value_truncated_to_the_size() {
    let value: u64 = 0x8877_6655_4433_2211;
    for &size in &[1usize, 2, 4, 8] {
        let mut offset = 0;
        while offset + size <= 8 {
            let mut mem = SimpleRam::new(3);
            let addr = 8 + offset as u64;
            assert_eq!(mem.write(addr, size, value), Ok(()));
            assert_eq!(mem.read(addr, size), Ok(truncated(value, size)));
            offset += 1;
        }
    }
}

#[test]
fn write_then_read_exact_values() {
    let mut mem = SimpleRam::new(2);
    assert_eq!(mem.write(3, 1, 0x1234), Ok(()));
    assert_eq!(mem.read(3, 1), Ok(0x34));
    assert_eq!(mem.write(4, 2, 0xABCD_EF01), Ok(()));
    assert_eq!(mem.read(4, 2), Ok(0xEF01));
    assert_eq!(mem.write(8, 4, 0x1_2345_6789), Ok(()));
    assert_eq!(mem.read(8, 4), Ok(0x2345_6789));
    assert_eq!(mem.write(8, 8, 0xFFFF_FFFF_FFFF_FFFF), Ok(()));
    assert_eq!(mem.read(8, 8), Ok(0xFFFF_FFFF_FFFF_FFFF));
}

#[test]
fn write_changes_no_byte_outside_its_range() {
    for &size in &[1usize, 2, 4, 8] {
        let mut offset = 0;
        while offset + size <= 8 {
            let mut mem = SimpleRam::new(3);
            for addr in 0..24u64 {
                assert_eq!(mem.write(addr, 1, 0xA0 + addr), Ok(()));
            }
            let start = 8 + offset as u64;
            assert_eq!(mem.write(start, size, 0x0807_0605_0403_0201), Ok(()));
            for addr in 0..24u64 {
                let expected = if addr >= start && addr < start + size as u64 {
                    addr - start + 1
                } else {
                    0xA0 + addr
                };
                assert_eq!(mem.read(addr, 1), Ok(expected));
            }
            offset += 1;
        }
    }
}

#[test]
fn values_are_little_endian() {
    let mut mem = SimpleRam::new(1);
    assert_eq!(mem.write(0, 8, 0x0807_0605_0403_0201), Ok(()));
    assert_eq!(mem.read(0, 1), Ok(0x01));
    assert_eq!(mem.read(7, 1), Ok(0x08));
    assert_eq!(mem.read(2, 2), Ok(0x0403));
    assert_eq!(mem.read(4, 4), Ok(0x0807_0605));
    assert_eq!(mem.read(1, 4), Ok(0x0504_0302));
}

#[test]
fn address_beyond_capacity_is_out_of_range() {
    let mut mem = SimpleRam::new(2);
    assert_eq!(mem.read(16, 1), Err(MemoryFault::OutOfRange));
    assert_eq!(mem.read(16, 8), Err(MemoryFault::OutOfRange));
    assert_eq!(mem.read(u64::MAX, 1), Err(MemoryFault::OutOfRange));
    assert_eq!(mem.write(16, 1, 1), Err(MemoryFault::OutOfRange));
    assert_eq!(mem.write(1 << 40, 4, 1), Err(MemoryFault::OutOfRange));
}

#[test]
fn empty_memory_refuses_every_access() {
    let mut mem = SimpleRam::new(0);
    assert_eq!(mem.read(0, 1), Err(MemoryFault::OutOfRange));
    assert_eq!(mem.write(0, 8, 0), Err(MemoryFault::OutOfRange));
}

#[test]
fn access_across_a_word_boundary_is_misaligned() {
    let mut mem = SimpleRam::new(2);
    assert_eq!(mem.read(7, 2), Err(MemoryFault::Misaligned));
    assert_eq!(mem.read(5, 4), Err(MemoryFault::Misaligned));
    assert_eq!(mem.read(1, 8), Err(MemoryFault::Misaligned));
    assert_eq!(mem.write(7, 2, 0xFFFF), Err(MemoryFault::Misaligned));
    assert_eq!(mem.write(6, 4, 0xFFFF_FFFF), Err(MemoryFault::Misaligned));
    assert_eq!(mem.write(4, 8, 1), Err(MemoryFault::Misaligned));
    // The last offset at which each size still fits.
    assert_eq!(mem.read(6, 2), Ok(0));
    assert_eq!(mem.read(4, 4), Ok(0));
    assert_eq!(mem.read(8, 8), Ok(0));
}

#[test]
fn size_other_than_1_2_4_8_is_invalid() {
    let mut mem = SimpleRam::new(2);
    for &size in &[0usize, 3, 5, 6, 7] {
        assert_eq!(mem.read(0, size), Err(MemoryFault::InvalidSize));
        assert_eq!(mem.write(0, size, 1), Err(MemoryFault::InvalidSize));
    }
}

#[test]
fn range_is_checked_before_crossing_and_crossing_before_size() {
    let mut mem = SimpleRam::new(2);
    // Out of range, crossing and of invalid size at once.
    assert_eq!(mem.read(23, 3), Err(MemoryFault::OutOfRange));
    // In range; three bytes from offset 6 cross the boundary.
    assert_eq!(mem.read(6, 3), Err(MemoryFault::Misaligned));
    // A size above eight crosses the boundary from any offset.
    assert_eq!(mem.read(0, 9), Err(MemoryFault::Misaligned));
    assert_eq!(mem.read(0, 16), Err(MemoryFault::Misaligned));
    assert_eq!(mem.write(0, usize::MAX, 1), Err(MemoryFault::Misaligned));
    assert_eq!(mem.read(7, usize::MAX), Err(MemoryFault::Misaligned));
}

#[test]
fn refused_write_changes_nothing() {
    let mut mem = SimpleRam::new(2);
    assert_eq!(mem.write(0, 8, 0x1111_1111_1111_1111), Ok(()));
    assert_eq!(mem.write(8, 8, 0x2222_2222_2222_2222), Ok(()));
    assert_eq!(mem.write(7, 2, 0xFFFF), Err(MemoryFault::Misaligned));
    assert_eq!(mem.write(0, 3, 0xFFFF_FFFF), Err(MemoryFault::InvalidSize));
    assert_eq!(mem.write(16, 1, 0xFF), Err(MemoryFault::OutOfRange));
    assert_eq!(mem.read(0, 8), Ok(0x1111_1111_1111_1111));
    assert_eq!(mem.read(8, 8), Ok(0x2222_2222_2222_2222));
}

#[test]
fn fault_messages() {
    assert_eq!(MemoryFault::OutOfRange.message(), "Address out of range");
    assert_eq!(
        MemoryFault::Misaligned.message(),
        "Byte address + size makes this access unaligned"
    );
    assert_eq!(MemoryFault::InvalidSize.message(), "Invalid size");
}

#[test]
fn instr_load_reads_four_bytes() {
    let mut mem = SimpleRam::new(2);
    assert_eq!(mem.write(0, 8, 0x8877_6655_4433_2211), Ok(()));
    assert_eq!(instr_load(&mem, 0), Ok(0x4433_2211));
    assert_eq!(instr_load(&mem, 4), Ok(0x8877_6655));
    assert_eq!(instr_load(&mem, 2), Ok(0x6655_4433));
    assert_eq!(instr_load(&mem, 6), Err(MemoryFault::Misaligned));
    assert_eq!(instr_load(&mem, 16), Err(MemoryFault::OutOfRange));
}

#[test]
fn data_load_checks_the_size_first() {
    let mut mem = SimpleRam::new(1);
    assert_eq!(mem.write(0, 8, 0x8877_6655_4433_2211), Ok(()));
    assert_eq!(data_load(&mem, 0, 1), Ok(0x11));
    assert_eq!(data_load(&mem, 2, 2), Ok(0x4433));
    assert_eq!(data_load(&mem, 4, 4), Ok(0x8877_6655));
    assert_eq!(data_load(&mem, 0, 8), Ok(0x8877_6655_4433_2211));
    assert_eq!(data_load(&mem, 0, 0), Err(MemoryFault::InvalidSize));
    // An invalid size wins even where the address is out of range.
    assert_eq!(data_load(&mem, 64, 3), Err(MemoryFault::InvalidSize));
    assert_eq!(data_load(&mem, 0, 16), Err(MemoryFault::InvalidSize));
    assert_eq!(data_load(&mem, 64, 4), Err(MemoryFault::OutOfRange));
    assert_eq!(data_load(&mem, 6, 4), Err(MemoryFault::Misaligned));
}

#[test]
fn data_store_checks_the_size_first() {
    let mut mem = SimpleRam::new(1);
    assert_eq!(data_store(&mut mem, 0, 0xAABB_CCDD, 2), Ok(()));
    assert_eq!(mem.read(0, 8), Ok(0xCCDD));
    assert_eq!(data_store(&mut mem, 4, 0x1_0000_0001, 4), Ok(()));
    assert_eq!(mem.read(0, 8), Ok(0x0000_0001_0000_CCDD));
    assert_eq!(data_store(&mut mem, 0, 1, 0), Err(MemoryFault::InvalidSize));
    assert_eq!(data_store(&mut mem, 64, 1, 5), Err(MemoryFault::InvalidSize));
    assert_eq!(data_store(&mut mem, 64, 1, 1), Err(MemoryFault::OutOfRange));
    assert_eq!(data_store(&mut mem, 7, 1, 2), Err(MemoryFault::Misaligned));
    assert_eq!(mem.read(0, 8), Ok(0x0000_0001_0000_CCDD));
}
