//! The two sound latches and the events that a write to them starts.
//!
//! The game drives its sound board through two output ports. Each bit of
//! a latch is the level of one effect. What makes a sound is a change of
//! level: a flag that rises between two writes to a port starts its
//! effect once. The saucer's hum is a loop and is also stopped, when its
//! flag falls.

use crate::bits::{bit, test_bit};
use vstd::prelude::*;

verus! {

/// What the audio player is asked to do.
#[derive(Clone, Copy, PartialEq, Eq, Debug, Structural)]
pub enum SoundEvent {
    /// Let the saucer's hum loop.
    UfoLoopStart,
    /// Silence the saucer's hum.
    UfoLoopStop,
    /// Play the player's shot.
    Shot,
    /// Play the player's explosion.
    Flash,
    /// Play an invader's explosion.
    InvaderDie,
    /// Play the first fleet step.
    FleetMovement1,
    /// Play the second fleet step.
    FleetMovement2,
    /// Play the third fleet step.
    FleetMovement3,
    /// Play the fourth fleet step.
    FleetMovement4,
    /// Play the saucer's explosion.
    UfoHit,
}

/// Flag `index` is set in `current` and was clear in `previous`.
pub open spec fn rose(previous: u8, current: u8, index: nat) -> bool {
    bit(current, index) && !bit(previous, index)
}

/// Flag `index` is clear in `current` and was set in `previous`.
pub open spec fn fell(previous: u8, current: u8, index: nat) -> bool {
    !bit(current, index) && bit(previous, index)
}

/// `event` once where flag `index` rose, nothing where it did not.
pub open spec fn one_shot(previous: u8, current: u8, index: nat, event: SoundEvent) -> Seq<
    SoundEvent,
> {
    if rose(previous, current, index) {
        seq![event]
    } else {
        Seq::empty()
    }
}

/// The start of the loop where flag `index` rose, its stop where the flag
/// fell, nothing where it kept its level.
pub open spec fn looped(previous: u8, current: u8, index: nat) -> Seq<SoundEvent> {
    if rose(previous, current, index) {
        seq![SoundEvent::UfoLoopStart]
    } else if fell(previous, current, index) {
        seq![SoundEvent::UfoLoopStop]
    } else {
        Seq::empty()
    }
}

/// The events of a write of `current` to sound bank A after `previous`,
/// in the order in which they are handed out.
pub open spec fn bank_a_events(previous: u8, current: u8) -> Seq<SoundEvent> {
    looped(previous, current, 0) + one_shot(previous, current, 1, SoundEvent::Shot) + one_shot(
        previous,
        current,
        2,
        SoundEvent::Flash,
    ) + one_shot(previous, current, 3, SoundEvent::InvaderDie)
}

/// The events of a write of `current` to sound bank B after `previous`,
/// in the order in which they are handed out.
pub open spec fn bank_b_events(previous: u8, current: u8) -> Seq<SoundEvent> {
    one_shot(previous, current, 0, SoundEvent::FleetMovement1) + one_shot(
        previous,
        current,
        1,
        SoundEvent::FleetMovement2,
    ) + one_shot(previous, current, 2, SoundEvent::FleetMovement3) + one_shot(
        previous,
        current,
        3,
        SoundEvent::FleetMovement4,
    ) + one_shot(previous, current, 4, SoundEvent::UfoHit)
}

/// Writing to a sound port the byte that was written to it last starts
/// and stops nothing.
pub proof fn lemma_same_byte_is_silent(byte: u8)
    ensures
        bank_a_events(byte, byte) == Seq::<SoundEvent>::empty(),
        bank_b_events(byte, byte) == Seq::<SoundEvent>::empty(),
{
    assert(bank_a_events(byte, byte) =~= Seq::<SoundEvent>::empty());
    assert(bank_b_events(byte, byte) =~= Seq::<SoundEvent>::empty());
}

/// A write starts an effect exactly where its flag rose, and then once;
/// it stops the loop exactly where the loop's flag fell.
pub proof fn lemma_events_follow_edges(previous: u8, current: u8)
    ensures
        bank_a_events(previous, current).no_duplicates(),
        bank_b_events(previous, current).no_duplicates(),
        bank_a_events(previous, current).contains(SoundEvent::UfoLoopStart) <==> rose(
            previous,
            current,
            0,
        ),
        bank_a_events(previous, current).contains(SoundEvent::UfoLoopStop) <==> fell(
            previous,
            current,
            0,
        ),
        bank_a_events(previous, current).contains(SoundEvent::Shot) <==> rose(previous, current, 1),
        bank_a_events(previous, current).contains(SoundEvent::Flash) <==> rose(
            previous,
            current,
            2,
        ),
        bank_a_events(previous, current).contains(SoundEvent::InvaderDie) <==> rose(
            previous,
            current,
            3,
        ),
        bank_b_events(previous, current).contains(SoundEvent::FleetMovement1) <==> rose(
            previous,
            current,
            0,
        ),
        bank_b_events(previous, current).contains(SoundEvent::FleetMovement2) <==> rose(
            previous,
            current,
            1,
        ),
        bank_b_events(previous, current).contains(SoundEvent::FleetMovement3) <==> rose(
            previous,
            current,
            2,
        ),
        bank_b_events(previous, current).contains(SoundEvent::FleetMovement4) <==> rose(
            previous,
            current,
            3,
        ),
        bank_b_events(previous, current).contains(SoundEvent::UfoHit) <==> rose(
            previous,
            current,
            4,
        ),
{
    lemma_part_holds(previous, current);
    let a = bank_a_events(previous, current);
    let a0 = looped(previous, current, 0);
    let a1 = one_shot(previous, current, 1, SoundEvent::Shot);
    let a2 = one_shot(previous, current, 2, SoundEvent::Flash);
    let a3 = one_shot(previous, current, 3, SoundEvent::InvaderDie);
    let none = Seq::<SoundEvent>::empty();
    lemma_parts(a0, a1, a2, a3, none);
    assert(a =~= a0 + a1 + a2 + a3 + none);
    assert(forall|e: SoundEvent| !none.contains(e));
    assert(a.contains(SoundEvent::UfoLoopStart) <==> a0.contains(SoundEvent::UfoLoopStart));
    assert(a.contains(SoundEvent::UfoLoopStop) <==> a0.contains(SoundEvent::UfoLoopStop));
    assert(a.contains(SoundEvent::Shot) <==> a1.contains(SoundEvent::Shot));
    assert(a.contains(SoundEvent::Flash) <==> a2.contains(SoundEvent::Flash));
    assert(a.contains(SoundEvent::InvaderDie) <==> a3.contains(SoundEvent::InvaderDie));
    let b = bank_b_events(previous, current);
    let b0 = one_shot(previous, current, 0, SoundEvent::FleetMovement1);
    let b1 = one_shot(previous, current, 1, SoundEvent::FleetMovement2);
    let b2 = one_shot(previous, current, 2, SoundEvent::FleetMovement3);
    let b3 = one_shot(previous, current, 3, SoundEvent::FleetMovement4);
    let b4 = one_shot(previous, current, 4, SoundEvent::UfoHit);
    lemma_parts(b0, b1, b2, b3, b4);
    assert(b == b0 + b1 + b2 + b3 + b4);
    assert(b.contains(SoundEvent::FleetMovement1) <==> b0.contains(SoundEvent::FleetMovement1));
    assert(b.contains(SoundEvent::FleetMovement2) <==> b1.contains(SoundEvent::FleetMovement2));
    assert(b.contains(SoundEvent::FleetMovement3) <==> b2.contains(SoundEvent::FleetMovement3));
    assert(b.contains(SoundEvent::FleetMovement4) <==> b3.contains(SoundEvent::FleetMovement4));
    assert(b.contains(SoundEvent::UfoHit) <==> b4.contains(SoundEvent::UfoHit));
}

/// What one part holds.
proof fn lemma_part_holds(previous: u8, current: u8)
    ensures
        forall|index: nat, event: SoundEvent, e: SoundEvent| #[trigger]
            one_shot(previous, current, index, event).contains(e) <==> rose(
                previous,
                current,
                index,
            ) && e == event,
        forall|index: nat, e: SoundEvent| #[trigger]
            looped(previous, current, index).contains(e) <==> (rose(previous, current, index) && e
                == SoundEvent::UfoLoopStart) || (fell(previous, current, index) && e
                == SoundEvent::UfoLoopStop),
{
    assert forall|index: nat, event: SoundEvent, e: SoundEvent| #[trigger]
        one_shot(previous, current, index, event).contains(e) <==> rose(previous, current, index)
            && e == event by {
        let part = one_shot(previous, current, index, event);
        if rose(previous, current, index) {
            assert(part[0] == event);
        }
    }
    assert forall|index: nat, e: SoundEvent| #[trigger]
        looped(previous, current, index).contains(e) <==> (rose(previous, current, index) && e
            == SoundEvent::UfoLoopStart) || (fell(previous, current, index) && e
            == SoundEvent::UfoLoopStop) by {
        let part = looped(previous, current, index);
        if rose(previous, current, index) {
            assert(part[0] == SoundEvent::UfoLoopStart);
        } else if fell(previous, current, index) {
            assert(part[0] == SoundEvent::UfoLoopStop);
        }
    }
}

/// What five parts of at most one event each hold together.
proof fn lemma_parts(
    part0: Seq<SoundEvent>,
    part1: Seq<SoundEvent>,
    part2: Seq<SoundEvent>,
    part3: Seq<SoundEvent>,
    part4: Seq<SoundEvent>,
)
    requires
        part0.len() <= 1,
        part1.len() <= 1,
        part2.len() <= 1,
        part3.len() <= 1,
        part4.len() <= 1,
        forall|i: int, j: int| 0 <= i < part0.len() && 0 <= j < part1.len() ==> part0[i] != part1[j],
        forall|i: int, j: int| 0 <= i < part0.len() && 0 <= j < part2.len() ==> part0[i] != part2[j],
        forall|i: int, j: int| 0 <= i < part0.len() && 0 <= j < part3.len() ==> part0[i] != part3[j],
        forall|i: int, j: int| 0 <= i < part0.len() && 0 <= j < part4.len() ==> part0[i] != part4[j],
        forall|i: int, j: int| 0 <= i < part1.len() && 0 <= j < part2.len() ==> part1[i] != part2[j],
        forall|i: int, j: int| 0 <= i < part1.len() && 0 <= j < part3.len() ==> part1[i] != part3[j],
        forall|i: int, j: int| 0 <= i < part1.len() && 0 <= j < part4.len() ==> part1[i] != part4[j],
        forall|i: int, j: int| 0 <= i < part2.len() && 0 <= j < part3.len() ==> part2[i] != part3[j],
        forall|i: int, j: int| 0 <= i < part2.len() && 0 <= j < part4.len() ==> part2[i] != part4[j],
        forall|i: int, j: int| 0 <= i < part3.len() && 0 <= j < part4.len() ==> part3[i] != part4[j],
    ensures
        (part0 + part1 + part2 + part3 + part4).no_duplicates(),
        forall|e: SoundEvent| #[trigger]
            (part0 + part1 + part2 + part3 + part4).contains(e) <==> part0.contains(e) || part1.contains(e)
                || part2.contains(e) || part3.contains(e) || part4.contains(e),
{
    let all = part0 + part1 + part2 + part3 + part4;
    assert forall|e: SoundEvent| #[trigger]
        all.contains(e) <==> part0.contains(e) || part1.contains(e) || part2.contains(e) || part3.contains(e)
            || part4.contains(e) by {
        if all.contains(e) {
            let i = choose|i: int| 0 <= i < all.len() && all[i] == e;
            let n0 = part0.len();
            let n1 = part0.len() + part1.len();
            let n2 = n1 + part2.len();
            let n3 = n2 + part3.len();
            if i < n0 {
                assert(part0[i] == e);
            } else if i < n1 {
                assert(part1[i - n0] == e);
            } else if i < n2 {
                assert(part2[i - n1] == e);
            } else if i < n3 {
                assert(part3[i - n2] == e);
            } else {
                assert(part4[i - n3] == e);
            }
        }
        if part0.contains(e) {
            let i = choose|i: int| 0 <= i < part0.len() && part0[i] == e;
            assert(all[i] == e);
        }
        if part1.contains(e) {
            let i = choose|i: int| 0 <= i < part1.len() && part1[i] == e;
            assert(all[part0.len() + i] == e);
        }
        if part2.contains(e) {
            let i = choose|i: int| 0 <= i < part2.len() && part2[i] == e;
            assert(all[part0.len() + part1.len() + i] == e);
        }
        if part3.contains(e) {
            let i = choose|i: int| 0 <= i < part3.len() && part3[i] == e;
            assert(all[part0.len() + part1.len() + part2.len() + i] == e);
        }
        if part4.contains(e) {
            let i = choose|i: int| 0 <= i < part4.len() && part4[i] == e;
            assert(all[part0.len() + part1.len() + part2.len() + part3.len() + i] == e);
        }
    }
}

/// The latch of sound bank A, written at output port 3.
pub struct SpaceInvadersAudioOutput1 {
    byte: u8,
}

impl View for SpaceInvadersAudioOutput1 {
    type V = u8;

    closed spec fn view(&self) -> u8 {
        self.byte
    }
}

impl SpaceInvadersAudioOutput1 {
    /// The latch before the first write: every flag clear.
    pub fn new() -> (latch: SpaceInvadersAudioOutput1)
        ensures
            latch@ == 0,
    {
        SpaceInvadersAudioOutput1 { byte: 0 }
    }

    /// The latch after `bytes[0]` was written to the port.
    pub fn from_bytes(bytes: [u8; 1]) -> (latch: SpaceInvadersAudioOutput1)
        ensures
            latch@ == bytes@[0],
    {
        SpaceInvadersAudioOutput1 { byte: bytes[0] }
    }

    /// The byte that was written to the port.
    pub fn into_bytes(&self) -> (bytes: [u8; 1])
        ensures
            bytes@[0] == self@,
    {
        [self.byte]
    }

    /// Whether the saucer's hum plays.
    pub fn ufo(&self) -> (level: bool)
        ensures
            level == bit(self@, 0),
    {
        test_bit(self.byte, 0)
    }

    /// Whether the player's shot sounds.
    pub fn shot(&self) -> (level: bool)
        ensures
            level == bit(self@, 1),
    {
        test_bit(self.byte, 1)
    }

    /// Whether the player's explosion sounds.
    pub fn flash(&self) -> (level: bool)
        ensures
            level == bit(self@, 2),
    {
        test_bit(self.byte, 2)
    }

    /// Whether an invader's explosion sounds.
    pub fn invader_die(&self) -> (level: bool)
        ensures
            level == bit(self@, 3),
    {
        test_bit(self.byte, 3)
    }

    /// Whether the extra-life jingle sounds.
    pub fn extended_play(&self) -> (level: bool)
        ensures
            level == bit(self@, 4),
    {
        test_bit(self.byte, 4)
    }

    /// Whether the amplifier is on.
    pub fn amp_enable(&self) -> (level: bool)
        ensures
            level == bit(self@, 5),
    {
        test_bit(self.byte, 5)
    }
}

/// The latch of sound bank B, written at output port 5.
pub struct SpaceInvadersAudioOutput2 {
    byte: u8,
}

impl View for SpaceInvadersAudioOutput2 {
    type V = u8;

    closed spec fn view(&self) -> u8 {
        self.byte
    }
}

impl SpaceInvadersAudioOutput2 {
    /// The latch before the first write: every flag clear.
    pub fn new() -> (latch: SpaceInvadersAudioOutput2)
        ensures
            latch@ == 0,
    {
        SpaceInvadersAudioOutput2 { byte: 0 }
    }

    /// The latch after `bytes[0]` was written to the port.
    pub fn from_bytes(bytes: [u8; 1]) -> (latch: SpaceInvadersAudioOutput2)
        ensures
            latch@ == bytes@[0],
    {
        SpaceInvadersAudioOutput2 { byte: bytes[0] }
    }

    /// The byte that was written to the port.
    pub fn into_bytes(&self) -> (bytes: [u8; 1])
        ensures
            bytes@[0] == self@,
    {
        [self.byte]
    }

    /// Whether the first fleet step sounds.
    pub fn fleet_movement_1(&self) -> (level: bool)
        ensures
            level == bit(self@, 0),
    {
        test_bit(self.byte, 0)
    }

    /// Whether the second fleet step sounds.
    pub fn fleet_movement_2(&self) -> (level: bool)
        ensures
            level == bit(self@, 1),
    {
        test_bit(self.byte, 1)
    }

    /// Whether the third fleet step sounds.
    pub fn fleet_movement_3(&self) -> (level: bool)
        ensures
            level == bit(self@, 2),
    {
        test_bit(self.byte, 2)
    }

    /// Whether the fourth fleet step sounds.
    pub fn fleet_movement_4(&self) -> (level: bool)
        ensures
            level == bit(self@, 3),
    {
        test_bit(self.byte, 3)
    }

    /// Whether the saucer's explosion sounds.
    pub fn ufo_hit(&self) -> (level: bool)
        ensures
            level == bit(self@, 4),
    {
        test_bit(self.byte, 4)
    }
}

/// The events of a write to sound bank A: `current` is the latch after the
/// write, `previous` the latch before it.
pub fn decode_bank_a(
    previous: &SpaceInvadersAudioOutput1,
    current: &SpaceInvadersAudioOutput1,
) -> (events: Vec<SoundEvent>)
    ensures
        events@ == bank_a_events(previous@, current@),
{
    let mut events: Vec<SoundEvent> = Vec::new();
    if current.ufo() && !previous.ufo() {
        events.push(SoundEvent::UfoLoopStart);
    } else if !current.ufo() && previous.ufo() {
        events.push(SoundEvent::UfoLoopStop);
    }
    assert(events@ =~= looped(previous@, current@, 0));
    if current.shot() && !previous.shot() {
        events.push(SoundEvent::Shot);
    }
    let ghost upto1 = events@;
    assert(upto1 =~= looped(previous@, current@, 0) + one_shot(
        previous@,
        current@,
        1,
        SoundEvent::Shot,
    ));
    if current.flash() && !previous.flash() {
        events.push(SoundEvent::Flash);
    }
    let ghost upto2 = events@;
    assert(upto2 =~= upto1 + one_shot(previous@, current@, 2, SoundEvent::Flash));
    if current.invader_die() && !previous.invader_die() {
        events.push(SoundEvent::InvaderDie);
    }
    assert(events@ =~= upto2 + one_shot(previous@, current@, 3, SoundEvent::InvaderDie));
    events
}

/// The events of a write to sound bank B: `current` is the latch after the
/// write, `previous` the latch before it.
pub fn decode_bank_b(
    previous: &SpaceInvadersAudioOutput2,
    current: &SpaceInvadersAudioOutput2,
) -> (events: Vec<SoundEvent>)
    ensures
        events@ == bank_b_events(previous@, current@),
{
    let mut events: Vec<SoundEvent> = Vec::new();
    if current.fleet_movement_1() && !previous.fleet_movement_1() {
        events.push(SoundEvent::FleetMovement1);
    }
    let ghost upto0 = events@;
    assert(upto0 =~= one_shot(previous@, current@, 0, SoundEvent::FleetMovement1));
    if current.fleet_movement_2() && !previous.fleet_movement_2() {
        events.push(SoundEvent::FleetMovement2);
    }
    let ghost upto1 = events@;
    assert(upto1 =~= upto0 + one_shot(previous@, current@, 1, SoundEvent::FleetMovement2));
    if current.fleet_movement_3() && !previous.fleet_movement_3() {
        events.push(SoundEvent::FleetMovement3);
    }
    let ghost upto2 = events@;
    assert(upto2 =~= upto1 + one_shot(previous@, current@, 2, SoundEvent::FleetMovement3));
    if current.fleet_movement_4() && !previous.fleet_movement_4() {
        events.push(SoundEvent::FleetMovement4);
    }
    let ghost upto3 = events@;
    assert(upto3 =~= upto2 + one_shot(previous@, current@, 3, SoundEvent::FleetMovement4));
    if current.ufo_hit() && !previous.ufo_hit() {
        events.push(SoundEvent::UfoHit);
    }
    assert(events@ =~= upto3 + one_shot(previous@, current@, 4, SoundEvent::UfoHit));
    events
}

} // verus!
