use space_invaders::bits::{assign_bit, overlay_bits, test_bit};

#[test]
fn test_bit_reads_each_bit() {
    let byte: u8 = 0b1010_0101;
    let expected = [true, false, true, false, false, true, false, true];
    for index in 0..8u8 {
        assert_eq!(test_bit(byte, index), expected[index as usize]);
    }
}

#[test]
fn assign_bit_sets_and_clears_one_bit() {
    assert_eq!(assign_bit(0b0000_0000, 3, true), 0b0000_1000);
    assert_eq!(assign_bit(0b1111_1111, 3, false), 0b1111_0111);
    assert_eq!(assign_bit(0b0101_0101, 7, true), 0b1101_0101);
    assert_eq!(assign_bit(0b0101_0101, 0, false), 0b0101_0100);
}

#[test]
fn assign_bit_of_the_same_value_changes_nothing() {
    for byte in 0..=255u8 {
        for index in 0..8u8 {
            let value = test_bit(byte, index);
            assert_eq!(assign_bit(byte, index, value), byte);
        }
    }
}

#[test]
fn overlay_bits_takes_masked_bits_from_the_fixed_byte() {
    assert_eq!(overlay_bits(0b0000_0000, 0b1000_1000, 0b0000_1000), 0b0000_1000);
    assert_eq!(overlay_bits(0b1111_1111, 0b1000_1000, 0b0000_1000), 0b0111_1111);
    assert_eq!(overlay_bits(0b1010_1010, 0b0000_1111, 0b1111_0101), 0b1010_0101);
    assert_eq!(overlay_bits(0x5A, 0x00, 0xFF), 0x5A);
    assert_eq!(overlay_bits(0x5A, 0xFF, 0xC3), 0xC3);
}
