use jelly_mem_access::mem_buffer::MemBuffer;

#[test]
fn buffer_starts_zeroed() {
    let m = MemBuffer::new(16);
    assert_eq!(m.size(), 16);
    for i in 0..16 {
        assert_eq!(m.read_mem_u8(i), 0);
    }
}

#[test]
fn reg_round_trip_u8() {
    let mut m = MemBuffer::new(8);
    m.write_reg_u8(5, 0xAB);
    assert_eq!(m.read_reg_u8(5), 0xAB);
}

#[test]
fn reg_round_trip_u16() {
    let mut m = MemBuffer::new(16);
    m.write_reg_u16(3, 0xBEEF);
    assert_eq!(m.read_reg_u16(3), 0xBEEF);
}

#[test]
fn reg_round_trip_u32() {
    let mut m = MemBuffer::new(64);
    m.write_reg_u32(2, 0xDEAD_BEEF);
    assert_eq!(m.read_reg_u32(2), 0xDEAD_BEEF);
}

#[test]
fn reg_round_trip_u64() {
    let mut m = MemBuffer::new(64);
    m.write_reg_u64(1, 0x0123_4567_89AB_CDEF);
    assert_eq!(m.read_reg_u64(1), 0x0123_4567_89AB_CDEF);
}

#[test]
fn distinct_registers_do_not_interfere() {
    let mut m = MemBuffer::new(64);
    m.write_reg_u32(1, 0x1111_1111);
    m.write_reg_u32(3, 0x3333_3333);
    m.write_reg_u32(1, 0x4444_4444);
    assert_eq!(m.read_reg_u32(3), 0x3333_3333);
    assert_eq!(m.read_reg_u32(1), 0x4444_4444);
    assert_eq!(m.read_reg_u32(0), 0);
}

#[test]
fn words_are_little_endian() {
    let mut m = MemBuffer::new(8);
    m.write_mem_u32(0, 0x1122_3344);
    assert_eq!(m.read_mem_u8(0), 0x44);
    assert_eq!(m.read_mem_u8(1), 0x33);
    assert_eq!(m.read_mem_u8(2), 0x22);
    assert_eq!(m.read_mem_u8(3), 0x11);
    assert_eq!(m.read_mem_u16(0), 0x3344);
    assert_eq!(m.read_mem_u16(2), 0x1122);
}

#[test]
fn unaligned_mem_offsets_work() {
    let mut m = MemBuffer::new(16);
    m.write_mem_u32(3, 0xCAFE_F00D);
    assert_eq!(m.read_mem_u32(3), 0xCAFE_F00D);
    assert_eq!(m.read_mem_u8(3), 0x0D);
}

#[test]
fn reg_round_trip_signed_widths() {
    let mut m = MemBuffer::new(64);
    m.write_reg_i8(0, -1);
    assert_eq!(m.read_reg_i8(0), -1);
    m.write_reg_i16(1, -2);
    assert_eq!(m.read_reg_i16(1), -2);
    m.write_reg_i32(2, -123_456);
    assert_eq!(m.read_reg_i32(2), -123_456);
    m.write_reg_i64(3, i64::MIN);
    assert_eq!(m.read_reg_i64(3), i64::MIN);
}

#[test]
fn signed_writes_store_the_bit_pattern() {
    let mut m = MemBuffer::new(8);
    m.write_mem_i8(0, -1);
    assert_eq!(m.read_mem_u8(0), 0xFF);
    m.write_mem_i32(4, -2);
    assert_eq!(m.read_mem_u32(4), 0xFFFF_FFFE);
    assert_eq!(m.read_mem_i32(4), -2);
}

#[test]
fn native_width_round_trips() {
    let mut m = MemBuffer::new(64);
    m.write_mem_usize(0, usize::MAX);
    assert_eq!(m.read_mem_usize(0), usize::MAX);
    m.write_reg_usize(2, 0xDEAD_BEEF);
    assert_eq!(m.read_reg_usize(2), 0xDEAD_BEEF);
    m.write_reg_isize(3, -7);
    assert_eq!(m.read_reg_isize(3), -7);
    m.write_mem_isize(40, isize::MIN);
    assert_eq!(m.read_mem_isize(40), isize::MIN);
}

#[test]
fn native_width_matches_the_platform_word() {
    // the suite runs on a 64-bit machine: the native word is eight bytes
    assert_eq!(usize::BITS, 64);
    let mut m = MemBuffer::new(32);
    m.write_reg(1, 0x0102_0304);
    assert_eq!(m.read_mem_u64(8), 0x0102_0304);
    assert_eq!(m.read_reg(1), 0x0102_0304);
    assert_eq!(m.read_mem(8), 0x0102_0304);
    m.write_mem(16, 5);
    assert_eq!(m.read_mem_u8(16), 5);
    assert_eq!(m.read_mem_u8(17), 0);
}

#[test]
fn copy_round_trip_u16_and_u64() {
    let mut m = MemBuffer::new(64);
    let words16 = [0x0102u16, 0x0304, 0xFFFF];
    m.copy_from_u16(&words16, 2, 3);
    assert_eq!(m.copy_to_u16(2, 3), vec![0x0102, 0x0304, 0xFFFF]);
    let words64 = [0xDEAD_BEEF_CAFE_F00Du64, 1];
    m.copy_from_u64(&words64, 16, 2);
    assert_eq!(m.copy_to_u64(16, 2), vec![0xDEAD_BEEF_CAFE_F00D, 1]);
    assert_eq!(m.read_mem_u16(2), 0x0102);
}

#[test]
fn copy_to_u8_reads_back_bytes() {
    let mut m = MemBuffer::new(8);
    m.write_mem_u8(2, 7);
    m.write_mem_u8(3, 9);
    let v = m.copy_to_u8(2, 4);
    assert_eq!(v, vec![7, 9, 0, 0]);
}

#[test]
fn copy_from_u8_writes_bytes() {
    let mut m = MemBuffer::new(8);
    let src = [1u8, 2, 3, 4];
    m.copy_from_u8(&src, 3, 4);
    assert_eq!(m.read_mem_u8(2), 0);
    assert_eq!(m.read_mem_u8(3), 1);
    assert_eq!(m.read_mem_u8(6), 4);
    assert_eq!(m.read_mem_u8(7), 0);
}

#[test]
fn copy_from_then_copy_to_u32() {
    let mut m = MemBuffer::new(64);
    let src = [0x1010_1010u32, 0x2020_2020, 0x3030_3030];
    m.copy_from_u32(&src, 8, 3);
    let back = m.copy_to_u32(8, 3);
    assert_eq!(back, vec![0x1010_1010, 0x2020_2020, 0x3030_3030]);
    assert_eq!(m.read_mem_u32(4), 0);
    assert_eq!(m.read_mem_u32(20), 0);
}
