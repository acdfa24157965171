use space_invaders::inputs::{
    InputAction, InputLatches, SpaceInvadersInput0, SpaceInvadersInput1, SpaceInvadersInput2,
    INPUT0_FIXED_BITS, INPUT0_FIXED_MASK, INPUT1_FIXED_BITS, INPUT1_FIXED_MASK,
    INPUT2_FIXED_BITS, INPUT2_FIXED_MASK,
};

const ALL_ACTIONS: [InputAction; 10] = [
    InputAction::Credit,
    InputAction::Start2P,
    InputAction::Start1P,
    InputAction::P1Shot,
    InputAction::P1Left,
    InputAction::P1Right,
    InputAction::Tilt,
    InputAction::P2Shot,
    InputAction::P2Left,
    InputAction::P2Right,
];

fn bytes_of(latches: &InputLatches) -> (u8, u8, u8) {
    (
        latches.system.into_bytes()[0],
        latches.player1.into_bytes()[0],
        latches.player2.into_bytes()[0],
    )
}

#[test]
fn idle_latches_have_their_power_on_values() {
    let latches = InputLatches::new();
    assert_eq!(bytes_of(&latches), (0b1000_1111, 0b0000_1000, 0b0000_0000));
    assert_eq!(SpaceInvadersInput0::new().into_bytes(), [0b1000_1111]);
    assert_eq!(SpaceInvadersInput1::new().into_bytes(), [0b0000_1000]);
    assert_eq!(SpaceInvadersInput2::new().into_bytes(), [0b0000_0000]);
}

#[test]
fn each_action_sets_and_clears_its_own_bit() {
    let expected: [(u8, u8); 10] = [
        (1, 0b0000_0001),
        (1, 0b0000_0010),
        (1, 0b0000_0100),
        (1, 0b0001_0000),
        (1, 0b0010_0000),
        (1, 0b0100_0000),
        (2, 0b0000_0100),
        (2, 0b0001_0000),
        (2, 0b0010_0000),
        (2, 0b0100_0000),
    ];
    for (action, (port, mask)) in ALL_ACTIONS.iter().zip(expected.iter()) {
        assert_eq!(action.port(), *port);
        assert_eq!(1u8 << action.bit_index(), *mask);
        let mut latches = InputLatches::new();
        latches.apply(*action, true);
        let pressed = bytes_of(&latches);
        if *port == 1 {
            assert_eq!(pressed, (0b1000_1111, 0b0000_1000 | mask, 0));
        } else {
            assert_eq!(pressed, (0b1000_1111, 0b0000_1000, *mask));
        }
        latches.apply(*action, false);
        assert_eq!(bytes_of(&latches), (0b1000_1111, 0b0000_1000, 0));
    }
}

#[test]
fn player_one_actions_leave_the_other_latches_alone() {
    let mut latches = InputLatches::new();
    latches.apply(InputAction::P2Left, true);
    latches.apply(InputAction::Tilt, true);
    let before = bytes_of(&latches);
    for action in [
        InputAction::Credit,
        InputAction::Start1P,
        InputAction::Start2P,
        InputAction::P1Shot,
        InputAction::P1Left,
        InputAction::P1Right,
    ] {
        latches.apply(action, true);
        let after = bytes_of(&latches);
        assert_eq!(after.0, before.0);
        assert_eq!(after.2, before.2);
    }
    assert_eq!(bytes_of(&latches), (0b1000_1111, 0b0111_1111, 0b0010_0100));
}

#[test]
fn player_two_actions_leave_the_other_latches_alone() {
    let mut latches = InputLatches::new();
    latches.apply(InputAction::P1Shot, true);
    for action in [InputAction::Tilt, InputAction::P2Shot, InputAction::P2Left, InputAction::P2Right] {
        latches.apply(action, true);
        let after = bytes_of(&latches);
        assert_eq!(after.0, 0b1000_1111);
        assert_eq!(after.1, 0b0001_1000);
    }
    assert_eq!(bytes_of(&latches), (0b1000_1111, 0b0001_1000, 0b0111_0100));
}

#[test]
fn held_buttons_combine() {
    let mut latches = InputLatches::new();
    latches.apply(InputAction::P1Left, true);
    latches.apply(InputAction::P1Shot, true);
    assert!(latches.player1.p1_left());
    assert!(latches.player1.p1_shot());
    assert!(!latches.player1.p1_right());
    latches.apply(InputAction::P1Left, false);
    assert_eq!(latches.player1.into_bytes(), [0b0001_1000]);
    latches.apply(InputAction::P1Left, false);
    assert_eq!(latches.player1.into_bytes(), [0b0001_1000]);
}

#[test]
fn fixed_bits_cannot_be_written() {
    for byte in 0..=255u8 {
        let system = SpaceInvadersInput0::from_bytes([byte]);
        assert_eq!(system.into_bytes()[0], (byte & 0b0111_0000) | 0b1000_1111);
        assert!(system.dip_4());
        let player1 = SpaceInvadersInput1::from_bytes([byte]);
        assert_eq!(player1.into_bytes()[0], (byte & 0b0111_0111) | 0b0000_1000);
        assert!(player1.always_one());
        let player2 = SpaceInvadersInput2::from_bytes([byte]);
        assert_eq!(player2.into_bytes()[0], byte & 0b0111_0100);
        assert!(!player2.dip_3());
        assert!(!player2.dip_5());
        assert!(!player2.dip_6());
        assert!(!player2.dip_7());
    }
}

#[test]
fn fixed_masks_and_values() {
    assert_eq!((INPUT0_FIXED_MASK, INPUT0_FIXED_BITS), (0b1000_1111, 0b1000_1111));
    assert_eq!((INPUT1_FIXED_MASK, INPUT1_FIXED_BITS), (0b1000_1000, 0b0000_1000));
    assert_eq!((INPUT2_FIXED_MASK, INPUT2_FIXED_BITS), (0b1000_1011, 0b0000_0000));
}

#[test]
fn setters_of_the_system_latch() {
    let mut system = SpaceInvadersInput0::new();
    system.set_fire(true);
    assert_eq!(system.into_bytes(), [0b1001_1111]);
    system.set_left(true);
    assert_eq!(system.into_bytes(), [0b1011_1111]);
    system.set_right(true);
    assert_eq!(system.into_bytes(), [0b1111_1111]);
    assert!(system.fire() && system.left() && system.right());
    system.set_fire(false);
    system.set_left(false);
    system.set_right(false);
    assert_eq!(system.into_bytes(), [0b1000_1111]);
}

#[test]
fn setters_and_getters_of_the_player_latches() {
    let mut player1 = SpaceInvadersInput1::new();
    player1.set_credit(true);
    assert!(player1.credit());
    player1.set_start_2p(true);
    assert!(player1.start_2p());
    player1.set_start_1p(true);
    assert!(player1.start_1p());
    player1.set_p1_shot(true);
    player1.set_p1_left(true);
    player1.set_p1_right(true);
    assert_eq!(player1.into_bytes(), [0b0111_1111]);
    player1.set_credit(false);
    assert!(!player1.credit());
    assert_eq!(player1.into_bytes(), [0b0111_1110]);

    let mut player2 = SpaceInvadersInput2::new();
    player2.set_tilt(true);
    assert!(player2.tilt());
    player2.set_p2_shot(true);
    assert!(player2.p2_shot());
    player2.set_p2_left(true);
    assert!(player2.p2_left());
    player2.set_p2_right(true);
    assert!(player2.p2_right());
    assert_eq!(player2.into_bytes(), [0b0111_0100]);
}

#[test]
fn updated_is_one_latch_after_the_action() {
    assert_eq!(InputAction::P1Right.updated(0b0000_1000, true), 0b0100_1000);
    assert_eq!(InputAction::P1Right.updated(0b0100_1000, false), 0b0000_1000);
    assert_eq!(InputAction::Credit.updated(0b0000_0000, true), 0b0000_1001);
    assert_eq!(InputAction::Credit.updated(0b1111_1111, false), 0b0111_1110);
    assert_eq!(InputAction::P2Shot.updated(0b0000_0000, true), 0b0001_0000);
    assert_eq!(InputAction::Tilt.updated(0b1111_1111, true), 0b0111_0100);
    for action in ALL_ACTIONS {
        for held in [false, true] {
            let mut latches = InputLatches::new();
            latches.apply(InputAction::P1Shot, true);
            latches.apply(InputAction::P2Left, true);
            let before = bytes_of(&latches);
            latches.apply(action, held);
            let after = bytes_of(&latches);
            if action.port() == 1 {
                assert_eq!(after.1, action.updated(before.1, held));
            } else {
                assert_eq!(after.2, action.updated(before.2, held));
            }
        }
    }
}

#[test]
fn latches_are_read_at_ports_zero_to_two() {
    let mut latches = InputLatches::from_bytes(0x00, 0x00, 0xFF);
    assert_eq!(bytes_of(&latches), (0b1000_1111, 0b0000_1000, 0b0111_0100));
    latches.apply(InputAction::Start1P, true);
    assert_eq!(latches.read(0), Some(0b1000_1111));
    assert_eq!(latches.read(1), Some(0b0000_1100));
    assert_eq!(latches.read(2), Some(0b0111_0100));
    assert_eq!(latches.read(3), None);
    assert_eq!(latches.read(255), None);
}
