use space_invaders::clock::{emulated_nanos, pace, Clock, Interrupt, Pace};
use space_invaders::layout::{DISPLAY_TIME_NANO_SEC, MID_FRAME_NANO_SEC};

#[test]
fn the_clock_starts_with_the_mid_frame_interrupt_due_first() {
    let clock = Clock::new();
    assert_eq!(clock.emu_clock, 0);
    assert_eq!(clock.next_screen_int_time, 7_142_857);
    assert_eq!(clock.next_display_time, 16_666_667);
    assert_eq!(MID_FRAME_NANO_SEC, 7_142_857);
    assert_eq!(DISPLAY_TIME_NANO_SEC, 16_666_667);
}

#[test]
fn an_interrupt_is_raised_when_its_mark_is_reached() {
    let mut clock = Clock::new();
    assert_eq!(clock.advance(7_142_856), None);
    assert_eq!(clock.advance(1), Some(Interrupt::MidFrame));
    assert_eq!(clock.next_screen_int_time, 7_142_857 + 16_666_667);
    assert_eq!(clock.next_display_time, 16_666_667);
    assert_eq!(clock.advance(0), None);
    assert_eq!(clock.advance(9_523_809), None);
    assert_eq!(clock.advance(1), Some(Interrupt::EndOfFrame));
    assert_eq!(clock.emu_clock, 16_666_667);
    assert_eq!(clock.next_display_time, 2 * 16_666_667);
    assert_eq!(clock.next_screen_int_time, 7_142_857 + 16_666_667);
}

#[test]
fn a_step_raises_one_interrupt_and_the_end_of_frame_first() {
    let mut clock = Clock::new();
    assert_eq!(clock.advance(20_000_000), Some(Interrupt::EndOfFrame));
    assert_eq!(clock.next_display_time, 2 * 16_666_667);
    assert_eq!(clock.next_screen_int_time, 7_142_857);
    assert_eq!(clock.advance(0), Some(Interrupt::MidFrame));
    assert_eq!(clock.next_screen_int_time, 7_142_857 + 16_666_667);
    assert_eq!(clock.advance(0), None);
}

#[test]
fn sixty_frames_raise_each_interrupt_sixty_times_in_turn() {
    let mut clock = Clock::new();
    let step: u64 = 2_000;
    let mut raised: Vec<Interrupt> = Vec::new();
    while clock.emu_clock < 60 * DISPLAY_TIME_NANO_SEC {
        let left = 60 * DISPLAY_TIME_NANO_SEC - clock.emu_clock;
        if let Some(interrupt) = clock.advance(step.min(left)) {
            raised.push(interrupt);
        }
    }
    assert_eq!(clock.emu_clock, 1_000_000_020);
    assert_eq!(raised.len(), 120);
    for (i, interrupt) in raised.iter().enumerate() {
        let expected = if i % 2 == 0 { Interrupt::MidFrame } else { Interrupt::EndOfFrame };
        assert_eq!(*interrupt, expected);
    }
    assert_eq!(raised.iter().filter(|i| **i == Interrupt::MidFrame).count(), 60);
    assert_eq!(raised.iter().filter(|i| **i == Interrupt::EndOfFrame).count(), 60);
    assert_eq!(clock.next_display_time, 61 * 16_666_667);
    assert_eq!(clock.next_screen_int_time, 60 * 16_666_667 + 7_142_857);
}

#[test]
fn the_count_of_interrupts_follows_the_elapsed_time() {
    let mut clock = Clock::new();
    let mut mid = 0u64;
    let mut end = 0u64;
    let steps: [u64; 5] = [7_142_857, 1, 3_000_000, 6_999_999, 4_500];
    for round in 0..400usize {
        match clock.advance(steps[round % steps.len()]) {
            Some(Interrupt::MidFrame) => mid += 1,
            Some(Interrupt::EndOfFrame) => end += 1,
            None => {}
        }
        assert_eq!(end, clock.emu_clock / 16_666_667);
        assert_eq!(mid, (clock.emu_clock + 9_523_810) / 16_666_667);
        assert!(end <= mid && mid <= end + 1);
    }
}

#[test]
fn the_clock_wraps_round() {
    let mut clock = Clock {
        emu_clock: u64::MAX - 5,
        next_display_time: u64::MAX - 1,
        next_screen_int_time: u64::MAX,
    };
    assert_eq!(clock.advance(4), Some(Interrupt::EndOfFrame));
    assert_eq!(clock.emu_clock, u64::MAX - 1);
    assert_eq!(clock.next_display_time, 16_666_665);
    assert_eq!(clock.advance(3), None);
    assert_eq!(clock.emu_clock, 1);
    assert_eq!(clock.next_screen_int_time, u64::MAX);
}

#[test]
fn cycles_become_nanoseconds() {
    assert_eq!(emulated_nanos(0, 500), 0);
    assert_eq!(emulated_nanos(4, 500), 2_000);
    assert_eq!(emulated_nanos(17, 500), 8_500);
    assert_eq!(emulated_nanos(u64::MAX, 2), u64::MAX - 1);
    assert_eq!(emulated_nanos(1 << 63, 4), 0);
}

#[test]
fn pace_sleeps_the_remainder_or_reports_an_overrun() {
    assert_eq!(pace(10_000, 4_000), Pace::Sleep { nanos: 6_000 });
    assert_eq!(pace(10_000, 9_999), Pace::Sleep { nanos: 1 });
    assert_eq!(pace(10_000, 10_000), Pace::Overrun);
    assert_eq!(pace(10_000, 10_001), Pace::Overrun);
    assert_eq!(pace(0, 0), Pace::Overrun);
    assert_eq!(pace(u64::MAX, 0), Pace::Sleep { nanos: u64::MAX });
    assert_eq!(pace(u64::MAX, u128::MAX), Pace::Overrun);
}
