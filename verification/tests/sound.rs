use space_invaders::sound::{
    decode_bank_a, decode_bank_b, SoundEvent, SpaceInvadersAudioOutput1,
    SpaceInvadersAudioOutput2,
};

fn bank_a(previous: u8, current: u8) -> Vec<SoundEvent> {
    decode_bank_a(
        &SpaceInvadersAudioOutput1::from_bytes([previous]),
        &SpaceInvadersAudioOutput1::from_bytes([current]),
    )
}

fn bank_b(previous: u8, current: u8) -> Vec<SoundEvent> {
    decode_bank_b(
        &SpaceInvadersAudioOutput2::from_bytes([previous]),
        &SpaceInvadersAudioOutput2::from_bytes([current]),
    )
}

#[test]
fn a_rising_flag_of_bank_a_starts_its_effect_once() {
    assert_eq!(bank_a(0, 0b0000_0001), vec![SoundEvent::UfoLoopStart]);
    assert_eq!(bank_a(0, 0b0000_0010), vec![SoundEvent::Shot]);
    assert_eq!(bank_a(0, 0b0000_0100), vec![SoundEvent::Flash]);
    assert_eq!(bank_a(0, 0b0000_1000), vec![SoundEvent::InvaderDie]);
}

#[test]
fn a_rising_flag_of_bank_b_starts_its_effect_once() {
    assert_eq!(bank_b(0, 0b0000_0001), vec![SoundEvent::FleetMovement1]);
    assert_eq!(bank_b(0, 0b0000_0010), vec![SoundEvent::FleetMovement2]);
    assert_eq!(bank_b(0, 0b0000_0100), vec![SoundEvent::FleetMovement3]);
    assert_eq!(bank_b(0, 0b0000_1000), vec![SoundEvent::FleetMovement4]);
    assert_eq!(bank_b(0, 0b0001_0000), vec![SoundEvent::UfoHit]);
}

#[test]
fn the_same_byte_twice_is_silent() {
    for byte in 0..=255u8 {
        assert_eq!(bank_a(byte, byte), vec![]);
        assert_eq!(bank_b(byte, byte), vec![]);
    }
}

#[test]
fn only_the_loop_is_stopped_by_a_falling_flag() {
    assert_eq!(bank_a(0b0000_0001, 0), vec![SoundEvent::UfoLoopStop]);
    assert_eq!(bank_a(0b0000_1110, 0), vec![]);
    assert_eq!(bank_a(0b0000_1111, 0), vec![SoundEvent::UfoLoopStop]);
    assert_eq!(bank_b(0b0001_1111, 0), vec![]);
}

#[test]
fn several_flags_give_their_events_in_order() {
    assert_eq!(
        bank_a(0, 0b0000_1111),
        vec![
            SoundEvent::UfoLoopStart,
            SoundEvent::Shot,
            SoundEvent::Flash,
            SoundEvent::InvaderDie
        ]
    );
    assert_eq!(
        bank_a(0b0000_0101, 0b0000_1010),
        vec![SoundEvent::UfoLoopStop, SoundEvent::Shot, SoundEvent::InvaderDie]
    );
    assert_eq!(
        bank_b(0, 0b0001_1111),
        vec![
            SoundEvent::FleetMovement1,
            SoundEvent::FleetMovement2,
            SoundEvent::FleetMovement3,
            SoundEvent::FleetMovement4,
            SoundEvent::UfoHit
        ]
    );
    assert_eq!(bank_b(0b0000_0011, 0b0001_0110), vec![SoundEvent::FleetMovement3, SoundEvent::UfoHit]);
}

#[test]
fn a_held_flag_does_not_start_again() {
    assert_eq!(bank_a(0b0000_0010, 0b0000_0110), vec![SoundEvent::Flash]);
    assert_eq!(bank_a(0b0000_0001, 0b0000_0011), vec![SoundEvent::Shot]);
    assert_eq!(bank_b(0b0000_0001, 0b0000_0011), vec![SoundEvent::FleetMovement2]);
}

#[test]
fn flags_without_a_sound_start_nothing() {
    assert_eq!(bank_a(0, 0b0001_0000), vec![]);
    assert_eq!(bank_a(0, 0b0010_0000), vec![]);
    assert_eq!(bank_a(0, 0b1100_0000), vec![]);
    assert_eq!(bank_b(0, 0b1110_0000), vec![]);
}

#[test]
fn sound_latches_show_their_flags() {
    let bank = SpaceInvadersAudioOutput1::from_bytes([0b0010_1010]);
    assert!(!bank.ufo());
    assert!(bank.shot());
    assert!(!bank.flash());
    assert!(bank.invader_die());
    assert!(!bank.extended_play());
    assert!(bank.amp_enable());
    assert_eq!(bank.into_bytes(), [0b0010_1010]);
    let bank = SpaceInvadersAudioOutput1::from_bytes([0b0001_0101]);
    assert!(bank.ufo() && bank.flash() && bank.extended_play());
    let bank = SpaceInvadersAudioOutput2::from_bytes([0b0001_0101]);
    assert!(bank.fleet_movement_1());
    assert!(!bank.fleet_movement_2());
    assert!(bank.fleet_movement_3());
    assert!(!bank.fleet_movement_4());
    assert!(bank.ufo_hit());
    assert_eq!(bank.into_bytes(), [0b0001_0101]);
    let bank = SpaceInvadersAudioOutput2::from_bytes([0b0000_1010]);
    assert!(bank.fleet_movement_2() && bank.fleet_movement_4() && !bank.ufo_hit());
    assert_eq!(SpaceInvadersAudioOutput1::new().into_bytes(), [0]);
    assert_eq!(SpaceInvadersAudioOutput2::new().into_bytes(), [0]);
}
