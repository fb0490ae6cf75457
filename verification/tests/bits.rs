//! Unit tests of the bit primitives.

use disco_emulator::bits::{
    align, add_with_carry, asr_c, bit_field_clear, bit_field_insert, bitset, lsl_c, lsr_c, ror_c,
    rrx_c, shifted_sign_extend, split_u64,
};

#[test]
fn test_bitset() {
    for i in 0..32u32 {
        assert!(bitset(0xFFFF_FFFF, i));
        assert!(!bitset(0x0000_0000, i));
        assert_eq!(bitset(0x5555_5555, i), i % 2 == 0);
        assert_eq!(bitset(0x0010_0000, i), i == 20);
    }
}

#[test]
fn test_matches() {
    assert!(disco_emulator::bits::matches(0b1100_1010, 4, 0b0110, 0b0100));
}

#[test]
fn test_align() {
    assert_eq!(align(0b1111, 1), 0b1111);
    assert_eq!(align(0b1111, 2), 0b1110);
    assert_eq!(align(0b1111, 4), 0b1100);
}

#[test]
fn test_shifted_sign_extend() {
    assert_eq!(shifted_sign_extend(0xFF, 7, 0), 0xFFFF_FFFF);
    assert_eq!(shifted_sign_extend(0xFF, 8, 0), 0x0000_00FF);
    assert_eq!(shifted_sign_extend(0xFF, 7, 4), 0xFFFF_FFF0);
    assert_eq!(shifted_sign_extend(0xAABB_77DD, 15, 4), 0x0007_7DD0);
    assert_eq!(shifted_sign_extend(0xAABB_87DD, 15, 4), 0xFFF8_7DD0);
    assert_eq!(shifted_sign_extend(0xAABB_87DD, 31, 0), 0xAABB_87DD);
}

#[test]
fn test_ror_c() {
    assert_eq!(ror_c(0x0000_00AF, 4), (0xF000_000A, true));
    assert_eq!(ror_c(0x0000_00F7, 4), (0x7000_000F, false));
}

#[test]
fn test_rrx_c() {
    assert_eq!(rrx_c(0x0000_0001, 1), (0x8000_0000, true));
    assert_eq!(rrx_c(0x0000_0001, 0), (0x0000_0000, true));
    assert_eq!(rrx_c(0xAAAA_AAAA, 1), (0xD555_5555, false));
}

#[test]
fn test_lsl_c() {
    assert_eq!(lsl_c(0xFFFF_FFFF, 255), (0x0000_0000, false));
    assert_eq!(lsl_c(0xFFFF_FFFF, 32), (0x0000_0000, true));
    assert_eq!(lsl_c(0xFFFF_FFFF, 1), (0xFFFF_FFFE, true));
    assert_eq!(lsl_c(0x0001_ABCD, 16), (0xABCD_0000, true));
    assert_eq!(lsl_c(0x0000_ABCD, 16), (0xABCD_0000, false));
}

#[test]
fn test_lsr_c() {
    assert_eq!(lsr_c(0xFFFF_FFFF, 255), (0x0000_0000, false));
    assert_eq!(lsr_c(0xFFFF_FFFF, 32), (0x0000_0000, true));
    assert_eq!(lsr_c(0xFFFF_FFFF, 1), (0x7FFF_FFFF, true));
    assert_eq!(lsr_c(0xAABB_CC80, 8), (0x00AA_BBCC, true));
    assert_eq!(lsr_c(0xAABB_CC00, 8), (0x00AA_BBCC, false));
}

#[test]
fn test_asr_c() {
    assert_eq!(asr_c(0x8000_0000, 255), (0xFFFF_FFFF, true));
    assert_eq!(asr_c(0x7000_0000, 255), (0x0000_0000, false));
    assert_eq!(asr_c(0x8000_0000, 32), (0xFFFF_FFFF, true));
    assert_eq!(asr_c(0x7000_0000, 32), (0x0000_0000, false));
    assert_eq!(asr_c(0xFFFF_FFFF, 1), (0xFFFF_FFFF, true));
    assert_eq!(asr_c(0xAABB_CC80, 8), (0xFFAA_BBCC, true));
    assert_eq!(asr_c(0xAABB_CC00, 8), (0xFFAA_BBCC, false));
    assert_eq!(asr_c(0xFFFF_FFD4, 0x27), (0xFFFF_FFFF, true));
}

#[test]
fn test_add_with_carry() {
    assert_eq!(add_with_carry(0xFFFF_FFFF, 0xFFFF_FFFF, 0), (0xFFFF_FFFE, true, false));
    assert_eq!(add_with_carry(0xFFFF_FFFF, 0xFFFF_FFFF, 1), (0xFFFF_FFFF, true, false));
    assert_eq!(add_with_carry(0x0000_FFFF, 0xFFFF_0000, 1), (0x0000_0000, true, false));
    assert_eq!(add_with_carry(0x7FFF_FFFF, 0x0000_0001, 0), (0x8000_0000, false, true));
    assert_eq!(add_with_carry(0x7FFF_FFFF, 0x7FFF_FFFF, 0), (0xFFFF_FFFE, false, true));
}

#[test]
fn test_bit_field_clear() {
    assert_eq!(bit_field_clear(0xFFFF_FFFF, 0, 0), 0xFFFF_FFFE);
    assert_eq!(bit_field_clear(0xFFFF_FFFF, 31, 31), 0x7FFF_FFFF);
    assert_eq!(bit_field_clear(0xFFFF_FFFF, 31, 0), 0x0000_0000);
    assert_eq!(bit_field_clear(0xFFFF_FFFF, 10, 8), 0xFFFF_F8FF);
}

#[test]
fn test_bit_field_insert() {
    assert_eq!(bit_field_insert(0x0000_0000, 0xFFFF_FFFF, 0, 0), 0x0000_0001);
    assert_eq!(bit_field_insert(0x0000_0000, 0xFFFF_FFFF, 31, 31), 0x8000_0000);
    assert_eq!(bit_field_insert(0x0000_0000, 0xFFFF_FFFF, 31, 0), 0xFFFF_FFFF);
    assert_eq!(bit_field_insert(0x0000_0000, 0x0000_0007, 10, 8), 0x0000_0700);
    assert_eq!(bit_field_insert(0xAAAA_AAAA, 0x0000_0005, 19, 16), 0xAAA5_AAAA);
}

#[test]
fn test_split_u64() {
    assert_eq!(split_u64(0xFFFF_FFFF_FFFF_FFFF), (0xFFFF_FFFF, 0xFFFF_FFFF));
    assert_eq!(split_u64(0xAAAA_AAAA_BBBB_BBBB), (0xAAAA_AAAA, 0xBBBB_BBBB));
}

#[test]
fn complement_sum_wraps_to_zero() {
    for &x in &[0u32, 1, 0x7FFF_FFFF, 0x8000_0000, 0xFFFF_FFFF, 0x1234_5678] {
        assert_eq!(add_with_carry(x, !x, 1), (0, true, false));
    }
}

#[test]
fn subtraction_is_complement_add() {
    for &(x, y) in &[(5u32, 3u32), (3, 5), (0, 0), (0xFFFF_FFFF, 1), (1, 0xFFFF_FFFF)] {
        let (r, c, _) = add_with_carry(x, !y, 1);
        assert_eq!(r, x.wrapping_sub(y));
        assert_eq!(c, x >= y);
    }
}
