use space_invaders::shift_register::ShiftRegister;

#[test]
fn test_shift_register() {
    let mut sr = ShiftRegister::new();
    assert_eq!(sr.amount(), 0);
    assert_eq!(sr.register(), 0);

    sr.input_data(0xAA);
    assert_eq!(sr.register(), 0xAA00);

    sr.input_data(0xFF); // 0b11111111
    assert_eq!(sr.register(), 0xFFAA);

    sr.input_data(0x12); // 0b00010010
    assert_eq!(sr.register(), 0x12FF);

    sr.input_amount(0);
    assert_eq!(sr.output(), 0x12);

    sr.input_amount(2);
    assert_eq!(sr.output(), 0b01001011);

    sr.input_amount(7);
    assert_eq!(sr.output(), 0b01111111);
}

#[test]
fn shift_amount_keeps_three_bits() {
    let mut sr = ShiftRegister::new();
    sr.input_amount(0xFF);
    assert_eq!(sr.amount(), 7);
    sr.input_amount(8);
    assert_eq!(sr.amount(), 0);
    sr.input_amount(0b1010_1101);
    assert_eq!(sr.amount(), 5);
}

#[test]
fn shift_amount_does_not_touch_the_register() {
    let mut sr = ShiftRegister::new();
    sr.input_data(0x34);
    sr.input_data(0x12);
    sr.input_amount(3);
    assert_eq!(sr.register(), 0x1234);
    sr.input_data(0x56);
    assert_eq!(sr.register(), 0x5612);
    assert_eq!(sr.amount(), 3);
}

#[test]
fn shift_output_for_every_amount() {
    let mut sr = ShiftRegister::new();
    sr.input_data(0xCD);
    sr.input_data(0xAB);
    assert_eq!(sr.register(), 0xABCD);
    let expected: [u8; 8] = [0xAB, 0x57, 0xAF, 0x5E, 0xBC, 0x79, 0xF3, 0xE6];
    for amount in 0..8u8 {
        sr.input_amount(amount);
        assert_eq!(sr.output(), expected[amount as usize]);
        assert_eq!(sr.output(), ((0xABCDu32 << amount) >> 8) as u8);
    }
}

#[test]
fn shift_output_of_a_fresh_chip_is_zero() {
    let sr = ShiftRegister::new();
    assert_eq!(sr.output(), 0);
}
