//! The three input latches.
//!
//! Each latch is one byte that the CPU reads at an input port. Some of its
//! bits are flags that follow a button or a switch; the others are fixed:
//! DIP switches and lines wired to one level. A fixed bit has the same
//! value in every latch value there is: no constructor and no setter
//! changes it.
//!
//! The latches belong to whoever receives the input events. The emulation
//! only reads them.

use crate::bits::{
    assign_bit, bit, lemma_bit_values, lemma_bits_determine_byte, lemma_overlay, lemma_with_bit,
    overlay, overlay_bits, test_bit, with_bit,
};
use vstd::prelude::*;

verus! {

/// The fixed bits of the system latch.
pub const INPUT0_FIXED_MASK: u8 = 0b1000_1111;

/// The values of the fixed bits of the system latch: all high.
pub const INPUT0_FIXED_BITS: u8 = 0b1000_1111;

/// The fixed bits of the first player's latch.
pub const INPUT1_FIXED_MASK: u8 = 0b1000_1000;

/// The values of the fixed bits of the first player's latch: bit 3 high.
pub const INPUT1_FIXED_BITS: u8 = 0b0000_1000;

/// The fixed bits of the second player's latch.
pub const INPUT2_FIXED_MASK: u8 = 0b1000_1011;

/// The values of the fixed bits of the second player's latch: all low.
pub const INPUT2_FIXED_BITS: u8 = 0b0000_0000;

/// Whether the bits of `byte` that `mask` selects are those of `fixed`.
pub open spec fn settled(byte: u8, mask: u8, fixed: u8) -> bool {
    overlay(byte, mask, fixed) == byte
}

/// Forcing the fixed bits settles a byte, and a settled byte is left as it
/// is.
pub proof fn lemma_overlay_settles(byte: u8, mask: u8, fixed: u8)
    ensures
        settled(overlay(byte, mask, fixed), mask, fixed),
        settled(byte, mask, fixed) <==> (forall|j: nat|
            j < 8 && bit(mask, j) ==> bit(byte, j) == bit(fixed, j)),
{
    let once = overlay(byte, mask, fixed);
    lemma_overlay(byte, mask, fixed);
    lemma_overlay(once, mask, fixed);
    lemma_bits_determine_byte(overlay(once, mask, fixed), once);
    if forall|j: nat| j < 8 && bit(mask, j) ==> bit(byte, j) == bit(fixed, j) {
        lemma_bits_determine_byte(once, byte);
    }
}

/// Replacing a bit that is not fixed keeps a settled byte settled.
pub proof fn lemma_flag_keeps_settled(byte: u8, mask: u8, fixed: u8, index: nat, value: bool)
    requires
        settled(byte, mask, fixed),
        index < 8,
        !bit(mask, index),
    ensures
        settled(with_bit(byte, index, value), mask, fixed),
{
    let next = with_bit(byte, index, value);
    lemma_with_bit(byte, index, value);
    lemma_overlay_settles(byte, mask, fixed);
    lemma_overlay_settles(next, mask, fixed);
}

/// Which bits of the three masks are set.
proof fn lemma_masks()
    ensures
        forall|j: nat| j < 8 ==> (#[trigger] bit(INPUT0_FIXED_MASK, j) <==> j != 4 && j != 5 && j != 6),
        forall|j: nat| j < 8 ==> (#[trigger] bit(INPUT1_FIXED_MASK, j) <==> j == 3 || j == 7),
        forall|j: nat|
            j < 8 ==> (#[trigger] bit(INPUT2_FIXED_MASK, j) <==> j == 0 || j == 1 || j == 3 || j
                == 7),
        forall|j: nat| j < 8 ==> (#[trigger] bit(INPUT0_FIXED_BITS, j) <==> j != 4 && j != 5 && j != 6),
        forall|j: nat| j < 8 ==> (#[trigger] bit(INPUT1_FIXED_BITS, j) <==> j == 3),
        forall|j: nat| j < 8 ==> !#[trigger] bit(INPUT2_FIXED_BITS, j),
{
    lemma_bit_values(INPUT0_FIXED_MASK);
    lemma_bit_values(INPUT1_FIXED_MASK);
    lemma_bit_values(INPUT2_FIXED_MASK);
    lemma_bit_values(INPUT1_FIXED_BITS);
    lemma_bit_values(INPUT2_FIXED_BITS);
}

/// The system latch, read at input port 0: the fire and direction lines of
/// the cabinet, and a switch and unused lines that are wired high.
pub struct SpaceInvadersInput0 {
    byte: u8,
}

impl View for SpaceInvadersInput0 {
    type V = u8;

    closed spec fn view(&self) -> u8 {
        self.byte
    }
}

impl SpaceInvadersInput0 {
    #[verifier::type_invariant]
    spec fn fixed_bits_hold(self) -> bool {
        settled(self.byte, INPUT0_FIXED_MASK, INPUT0_FIXED_BITS)
    }

    /// The latch with no flag set.
    pub fn new() -> (latch: SpaceInvadersInput0)
        ensures
            latch@ == INPUT0_FIXED_BITS,
            settled(latch@, INPUT0_FIXED_MASK, INPUT0_FIXED_BITS),
    {
        proof {
            lemma_masks();
            lemma_overlay_settles(INPUT0_FIXED_BITS, INPUT0_FIXED_MASK, INPUT0_FIXED_BITS);
        }
        SpaceInvadersInput0 { byte: INPUT0_FIXED_BITS }
    }

    /// The latch with the flags of `bytes[0]`. The fixed bits of the byte
    /// are not taken: they get their fixed values.
    pub fn from_bytes(bytes: [u8; 1]) -> (latch: SpaceInvadersInput0)
        ensures
            latch@ == overlay(bytes@[0], INPUT0_FIXED_MASK, INPUT0_FIXED_BITS),
            settled(latch@, INPUT0_FIXED_MASK, INPUT0_FIXED_BITS),
    {
        proof {
            lemma_overlay_settles(bytes@[0], INPUT0_FIXED_MASK, INPUT0_FIXED_BITS);
        }
        SpaceInvadersInput0 { byte: overlay_bits(bytes[0], INPUT0_FIXED_MASK, INPUT0_FIXED_BITS) }
    }

    /// The byte that the CPU reads.
    pub fn into_bytes(&self) -> (bytes: [u8; 1])
        ensures
            bytes@[0] == self@,
            settled(self@, INPUT0_FIXED_MASK, INPUT0_FIXED_BITS),
    {
        proof {
            use_type_invariant(self);
        }
        [self.byte]
    }

    /// Reads DIP switch 4, wired high: always true.
    pub fn dip_4(&self) -> (level: bool)
        ensures
            level == bit(self@, 0),
            level == true,
    {
        proof {
            use_type_invariant(self);
            lemma_masks();
            lemma_overlay_settles(self.byte, INPUT0_FIXED_MASK, INPUT0_FIXED_BITS);
        }
        test_bit(self.byte, 0)
    }

    /// Whether the fire button is held.
    pub fn fire(&self) -> (held: bool)
        ensures
            held == bit(self@, 4),
    {
        test_bit(self.byte, 4)
    }

    /// Sets or clears the flag of the fire button, and nothing else.
    pub fn set_fire(&mut self, held: bool)
        ensures
            final(self)@ == with_bit(old(self)@, 4, held),
            settled(final(self)@, INPUT0_FIXED_MASK, INPUT0_FIXED_BITS),
    {
        proof {
            use_type_invariant(&*self);
            lemma_masks();
            lemma_flag_keeps_settled(self.byte, INPUT0_FIXED_MASK, INPUT0_FIXED_BITS, 4, held);
        }
        self.byte = assign_bit(self.byte, 4, held);
    }

    /// Whether the left button is held.
    pub fn left(&self) -> (held: bool)
        ensures
            held == bit(self@, 5),
    {
        test_bit(self.byte, 5)
    }

    /// Sets or clears the flag of the left button, and nothing else.
    pub fn set_left(&mut self, held: bool)
        ensures
            final(self)@ == with_bit(old(self)@, 5, held),
            settled(final(self)@, INPUT0_FIXED_MASK, INPUT0_FIXED_BITS),
    {
        proof {
            use_type_invariant(&*self);
            lemma_masks();
            lemma_flag_keeps_settled(self.byte, INPUT0_FIXED_MASK, INPUT0_FIXED_BITS, 5, held);
        }
        self.byte = assign_bit(self.byte, 5, held);
    }

    /// Whether the right button is held.
    pub fn right(&self) -> (held: bool)
        ensures
            held == bit(self@, 6),
    {
        test_bit(self.byte, 6)
    }

    /// Sets or clears the flag of the right button, and nothing else.
    pub fn set_right(&mut self, held: bool)
        ensures
            final(self)@ == with_bit(old(self)@, 6, held),
            settled(final(self)@, INPUT0_FIXED_MASK, INPUT0_FIXED_BITS),
    {
        proof {
            use_type_invariant(&*self);
            lemma_masks();
            lemma_flag_keeps_settled(self.byte, INPUT0_FIXED_MASK, INPUT0_FIXED_BITS, 6, held);
        }
        self.byte = assign_bit(self.byte, 6, held);
    }
}

/// The first player's latch, read at input port 1: coin, start buttons and
/// the first player's controls, and one line that is wired high.
pub struct SpaceInvadersInput1 {
    byte: u8,
}

impl View for SpaceInvadersInput1 {
    type V = u8;

    closed spec fn view(&self) -> u8 {
        self.byte
    }
}

impl SpaceInvadersInput1 {
    #[verifier::type_invariant]
    spec fn fixed_bits_hold(self) -> bool {
        settled(self.byte, INPUT1_FIXED_MASK, INPUT1_FIXED_BITS)
    }

    /// The latch with no flag set.
    pub fn new() -> (latch: SpaceInvadersInput1)
        ensures
            latch@ == INPUT1_FIXED_BITS,
            settled(latch@, INPUT1_FIXED_MASK, INPUT1_FIXED_BITS),
    {
        proof {
            lemma_masks();
            lemma_overlay_settles(INPUT1_FIXED_BITS, INPUT1_FIXED_MASK, INPUT1_FIXED_BITS);
        }
        SpaceInvadersInput1 { byte: INPUT1_FIXED_BITS }
    }

    /// The latch with the flags of `bytes[0]`. The fixed bits of the byte
    /// are not taken: they get their fixed values.
    pub fn from_bytes(bytes: [u8; 1]) -> (latch: SpaceInvadersInput1)
        ensures
            latch@ == overlay(bytes@[0], INPUT1_FIXED_MASK, INPUT1_FIXED_BITS),
            settled(latch@, INPUT1_FIXED_MASK, INPUT1_FIXED_BITS),
    {
        proof {
            lemma_overlay_settles(bytes@[0], INPUT1_FIXED_MASK, INPUT1_FIXED_BITS);
        }
        SpaceInvadersInput1 { byte: overlay_bits(bytes[0], INPUT1_FIXED_MASK, INPUT1_FIXED_BITS) }
    }

    /// The byte that the CPU reads.
    pub fn into_bytes(&self) -> (bytes: [u8; 1])
        ensures
            bytes@[0] == self@,
            settled(self@, INPUT1_FIXED_MASK, INPUT1_FIXED_BITS),
    {
        proof {
            use_type_invariant(self);
        }
        [self.byte]
    }

    /// Whether the coin switch is held.
    pub fn credit(&self) -> (held: bool)
        ensures
            held == bit(self@, 0),
    {
        test_bit(self.byte, 0)
    }

    /// Sets or clears the flag of the coin switch, and nothing else.
    pub fn set_credit(&mut self, held: bool)
        ensures
            final(self)@ == with_bit(old(self)@, 0, held),
            settled(final(self)@, INPUT1_FIXED_MASK, INPUT1_FIXED_BITS),
    {
        proof {
            use_type_invariant(&*self);
            lemma_masks();
            lemma_flag_keeps_settled(self.byte, INPUT1_FIXED_MASK, INPUT1_FIXED_BITS, 0, held);
        }
        self.byte = assign_bit(self.byte, 0, held);
    }

    /// Whether the two-player start button is held.
    pub fn start_2p(&self) -> (held: bool)
        ensures
            held == bit(self@, 1),
    {
        test_bit(self.byte, 1)
    }

    /// Sets or clears the flag of the two-player start button, and nothing else.
    pub fn set_start_2p(&mut self, held: bool)
        ensures
            final(self)@ == with_bit(old(self)@, 1, held),
            settled(final(self)@, INPUT1_FIXED_MASK, INPUT1_FIXED_BITS),
    {
        proof {
            use_type_invariant(&*self);
            lemma_masks();
            lemma_flag_keeps_settled(self.byte, INPUT1_FIXED_MASK, INPUT1_FIXED_BITS, 1, held);
        }
        self.byte = assign_bit(self.byte, 1, held);
    }

    /// Whether the one-player start button is held.
    pub fn start_1p(&self) -> (held: bool)
        ensures
            held == bit(self@, 2),
    {
        test_bit(self.byte, 2)
    }

    /// Sets or clears the flag of the one-player start button, and nothing else.
    pub fn set_start_1p(&mut self, held: bool)
        ensures
            final(self)@ == with_bit(old(self)@, 2, held),
            settled(final(self)@, INPUT1_FIXED_MASK, INPUT1_FIXED_BITS),
    {
        proof {
            use_type_invariant(&*self);
            lemma_masks();
            lemma_flag_keeps_settled(self.byte, INPUT1_FIXED_MASK, INPUT1_FIXED_BITS, 2, held);
        }
        self.byte = assign_bit(self.byte, 2, held);
    }

    /// Reads the line that is wired high: always true.
    pub fn always_one(&self) -> (level: bool)
        ensures
            level == bit(self@, 3),
            level == true,
    {
        proof {
            use_type_invariant(self);
            lemma_masks();
            lemma_overlay_settles(self.byte, INPUT1_FIXED_MASK, INPUT1_FIXED_BITS);
        }
        test_bit(self.byte, 3)
    }

    /// Whether the first player's fire button is held.
    pub fn p1_shot(&self) -> (held: bool)
        ensures
            held == bit(self@, 4),
    {
        test_bit(self.byte, 4)
    }

    /// Sets or clears the flag of the first player's fire button, and nothing else.
    pub fn set_p1_shot(&mut self, held: bool)
        ensures
            final(self)@ == with_bit(old(self)@, 4, held),
            settled(final(self)@, INPUT1_FIXED_MASK, INPUT1_FIXED_BITS),
    {
        proof {
            use_type_invariant(&*self);
            lemma_masks();
            lemma_flag_keeps_settled(self.byte, INPUT1_FIXED_MASK, INPUT1_FIXED_BITS, 4, held);
        }
        self.byte = assign_bit(self.byte, 4, held);
    }

    /// Whether the first player's left button is held.
    pub fn p1_left(&self) -> (held: bool)
        ensures
            held == bit(self@, 5),
    {
        test_bit(self.byte, 5)
    }

    /// Sets or clears the flag of the first player's left button, and nothing else.
    pub fn set_p1_left(&mut self, held: bool)
        ensures
            final(self)@ == with_bit(old(self)@, 5, held),
            settled(final(self)@, INPUT1_FIXED_MASK, INPUT1_FIXED_BITS),
    {
        proof {
            use_type_invariant(&*self);
            lemma_masks();
            lemma_flag_keeps_settled(self.byte, INPUT1_FIXED_MASK, INPUT1_FIXED_BITS, 5, held);
        }
        self.byte = assign_bit(self.byte, 5, held);
    }

    /// Whether the first player's right button is held.
    pub fn p1_right(&self) -> (held: bool)
        ensures
            held == bit(self@, 6),
    {
        test_bit(self.byte, 6)
    }

    /// Sets or clears the flag of the first player's right button, and nothing else.
    pub fn set_p1_right(&mut self, held: bool)
        ensures
            final(self)@ == with_bit(old(self)@, 6, held),
            settled(final(self)@, INPUT1_FIXED_MASK, INPUT1_FIXED_BITS),
    {
        proof {
            use_type_invariant(&*self);
            lemma_masks();
            lemma_flag_keeps_settled(self.byte, INPUT1_FIXED_MASK, INPUT1_FIXED_BITS, 6, held);
        }
        self.byte = assign_bit(self.byte, 6, held);
    }
}

/// The second player's latch, read at input port 2: the tilt switch and the
/// second player's controls, and four DIP switches, all off.
pub struct SpaceInvadersInput2 {
    byte: u8,
}

impl View for SpaceInvadersInput2 {
    type V = u8;

    closed spec fn view(&self) -> u8 {
        self.byte
    }
}

impl SpaceInvadersInput2 {
    #[verifier::type_invariant]
    spec fn fixed_bits_hold(self) -> bool {
        settled(self.byte, INPUT2_FIXED_MASK, INPUT2_FIXED_BITS)
    }

    /// The latch with no flag set.
    pub fn new() -> (latch: SpaceInvadersInput2)
        ensures
            latch@ == INPUT2_FIXED_BITS,
            settled(latch@, INPUT2_FIXED_MASK, INPUT2_FIXED_BITS),
    {
        proof {
            lemma_masks();
            lemma_overlay_settles(INPUT2_FIXED_BITS, INPUT2_FIXED_MASK, INPUT2_FIXED_BITS);
        }
        SpaceInvadersInput2 { byte: INPUT2_FIXED_BITS }
    }

    /// The latch with the flags of `bytes[0]`. The fixed bits of the byte
    /// are not taken: they get their fixed values.
    pub fn from_bytes(bytes: [u8; 1]) -> (latch: SpaceInvadersInput2)
        ensures
            latch@ == overlay(bytes@[0], INPUT2_FIXED_MASK, INPUT2_FIXED_BITS),
            settled(latch@, INPUT2_FIXED_MASK, INPUT2_FIXED_BITS),
    {
        proof {
            lemma_overlay_settles(bytes@[0], INPUT2_FIXED_MASK, INPUT2_FIXED_BITS);
        }
        SpaceInvadersInput2 { byte: overlay_bits(bytes[0], INPUT2_FIXED_MASK, INPUT2_FIXED_BITS) }
    }

    /// The byte that the CPU reads.
    pub fn into_bytes(&self) -> (bytes: [u8; 1])
        ensures
            bytes@[0] == self@,
            settled(self@, INPUT2_FIXED_MASK, INPUT2_FIXED_BITS),
    {
        proof {
            use_type_invariant(self);
        }
        [self.byte]
    }

    /// Reads DIP switch 3, off: always false.
    pub fn dip_3(&self) -> (level: bool)
        ensures
            level == bit(self@, 0),
            level == false,
    {
        proof {
            use_type_invariant(self);
            lemma_masks();
            lemma_overlay_settles(self.byte, INPUT2_FIXED_MASK, INPUT2_FIXED_BITS);
        }
        test_bit(self.byte, 0)
    }

    /// Reads DIP switch 5, off: always false.
    pub fn dip_5(&self) -> (level: bool)
        ensures
            level == bit(self@, 1),
            level == false,
    {
        proof {
            use_type_invariant(self);
            lemma_masks();
            lemma_overlay_settles(self.byte, INPUT2_FIXED_MASK, INPUT2_FIXED_BITS);
        }
        test_bit(self.byte, 1)
    }

    /// Whether the tilt switch is held.
    pub fn tilt(&self) -> (held: bool)
        ensures
            held == bit(self@, 2),
    {
        test_bit(self.byte, 2)
    }

    /// Sets or clears the flag of the tilt switch, and nothing else.
    pub fn set_tilt(&mut self, held: bool)
        ensures
            final(self)@ == with_bit(old(self)@, 2, held),
            settled(final(self)@, INPUT2_FIXED_MASK, INPUT2_FIXED_BITS),
    {
        proof {
            use_type_invariant(&*self);
            lemma_masks();
            lemma_flag_keeps_settled(self.byte, INPUT2_FIXED_MASK, INPUT2_FIXED_BITS, 2, held);
        }
        self.byte = assign_bit(self.byte, 2, held);
    }

    /// Reads DIP switch 6, off: always false.
    pub fn dip_6(&self) -> (level: bool)
        ensures
            level == bit(self@, 3),
            level == false,
    {
        proof {
            use_type_invariant(self);
            lemma_masks();
            lemma_overlay_settles(self.byte, INPUT2_FIXED_MASK, INPUT2_FIXED_BITS);
        }
        test_bit(self.byte, 3)
    }

    /// Whether the second player's fire button is held.
    pub fn p2_shot(&self) -> (held: bool)
        ensures
            held == bit(self@, 4),
    {
        test_bit(self.byte, 4)
    }

    /// Sets or clears the flag of the second player's fire button, and nothing else.
    pub fn set_p2_shot(&mut self, held: bool)
        ensures
            final(self)@ == with_bit(old(self)@, 4, held),
            settled(final(self)@, INPUT2_FIXED_MASK, INPUT2_FIXED_BITS),
    {
        proof {
            use_type_invariant(&*self);
            lemma_masks();
            lemma_flag_keeps_settled(self.byte, INPUT2_FIXED_MASK, INPUT2_FIXED_BITS, 4, held);
        }
        self.byte = assign_bit(self.byte, 4, held);
    }

    /// Whether the second player's left button is held.
    pub fn p2_left(&self) -> (held: bool)
        ensures
            held == bit(self@, 5),
    {
        test_bit(self.byte, 5)
    }

    /// Sets or clears the flag of the second player's left button, and nothing else.
    pub fn set_p2_left(&mut self, held: bool)
        ensures
            final(self)@ == with_bit(old(self)@, 5, held),
            settled(final(self)@, INPUT2_FIXED_MASK, INPUT2_FIXED_BITS),
    {
        proof {
            use_type_invariant(&*self);
            lemma_masks();
            lemma_flag_keeps_settled(self.byte, INPUT2_FIXED_MASK, INPUT2_FIXED_BITS, 5, held);
        }
        self.byte = assign_bit(self.byte, 5, held);
    }

    /// Whether the second player's right button is held.
    pub fn p2_right(&self) -> (held: bool)
        ensures
            held == bit(self@, 6),
    {
        test_bit(self.byte, 6)
    }

    /// Sets or clears the flag of the second player's right button, and nothing else.
    pub fn set_p2_right(&mut self, held: bool)
        ensures
            final(self)@ == with_bit(old(self)@, 6, held),
            settled(final(self)@, INPUT2_FIXED_MASK, INPUT2_FIXED_BITS),
    {
        proof {
            use_type_invariant(&*self);
            lemma_masks();
            lemma_flag_keeps_settled(self.byte, INPUT2_FIXED_MASK, INPUT2_FIXED_BITS, 6, held);
        }
        self.byte = assign_bit(self.byte, 6, held);
    }

    /// Reads DIP switch 7, off: always false.
    pub fn dip_7(&self) -> (level: bool)
        ensures
            level == bit(self@, 7),
            level == false,
    {
        proof {
            use_type_invariant(self);
            lemma_masks();
            lemma_overlay_settles(self.byte, INPUT2_FIXED_MASK, INPUT2_FIXED_BITS);
        }
        test_bit(self.byte, 7)
    }
}

/// A button or switch that an input event names.
#[derive(Clone, Copy, PartialEq, Eq, Debug)]
pub enum InputAction {
    /// The coin switch.
    Credit,
    /// The two-player start button.
    Start2P,
    /// The one-player start button.
    Start1P,
    /// The first player's fire button.
    P1Shot,
    /// The first player's left button.
    P1Left,
    /// The first player's right button.
    P1Right,
    /// The tilt switch.
    Tilt,
    /// The second player's fire button.
    P2Shot,
    /// The second player's left button.
    P2Left,
    /// The second player's right button.
    P2Right,
}

impl InputAction {
    /// The input port whose latch holds the flag of this action: 1 or 2.
    pub open spec fn latch(self) -> u8 {
        match self {
            InputAction::Credit => 1,
            InputAction::Start2P => 1,
            InputAction::Start1P => 1,
            InputAction::P1Shot => 1,
            InputAction::P1Left => 1,
            InputAction::P1Right => 1,
            InputAction::Tilt => 2,
            InputAction::P2Shot => 2,
            InputAction::P2Left => 2,
            InputAction::P2Right => 2,
        }
    }

    /// The bit of that latch which is the flag of this action.
    pub open spec fn flag(self) -> nat {
        match self {
            InputAction::Credit => 0,
            InputAction::Start2P => 1,
            InputAction::Start1P => 2,
            InputAction::P1Shot => 4,
            InputAction::P1Left => 5,
            InputAction::P1Right => 6,
            InputAction::Tilt => 2,
            InputAction::P2Shot => 4,
            InputAction::P2Left => 5,
            InputAction::P2Right => 6,
        }
    }

    /// The input port whose latch holds the flag of this action.
    pub fn port(self) -> (port: u8)
        ensures
            port == self.latch(),
            port == 1 || port == 2,
    {
        match self {
            InputAction::Credit => 1,
            InputAction::Start2P => 1,
            InputAction::Start1P => 1,
            InputAction::P1Shot => 1,
            InputAction::P1Left => 1,
            InputAction::P1Right => 1,
            InputAction::Tilt => 2,
            InputAction::P2Shot => 2,
            InputAction::P2Left => 2,
            InputAction::P2Right => 2,
        }
    }

    /// The bit of that latch which is the flag of this action.
    pub fn bit_index(self) -> (index: u8)
        ensures
            index == self.flag(),
            index < 8,
            self.latch() == 1 ==> !bit(INPUT1_FIXED_MASK, index as nat),
            self.latch() == 2 ==> !bit(INPUT2_FIXED_MASK, index as nat),
    {
        proof {
            lemma_masks();
        }
        match self {
            InputAction::Credit => 0,
            InputAction::Start2P => 1,
            InputAction::Start1P => 2,
            InputAction::P1Shot => 4,
            InputAction::P1Left => 5,
            InputAction::P1Right => 6,
            InputAction::Tilt => 2,
            InputAction::P2Shot => 4,
            InputAction::P2Left => 5,
            InputAction::P2Right => 6,
        }
    }

    /// The byte of this action's latch after the action: `latch` with its
    /// fixed bits in place and the flag of the action set where the button
    /// is held, cleared where it is released.
    pub fn updated(self, latch: u8, held: bool) -> (next: u8)
        ensures
            self.latch() == 1 ==> next == with_bit(
                overlay(latch, INPUT1_FIXED_MASK, INPUT1_FIXED_BITS),
                self.flag(),
                held,
            ),
            self.latch() == 2 ==> next == with_bit(
                overlay(latch, INPUT2_FIXED_MASK, INPUT2_FIXED_BITS),
                self.flag(),
                held,
            ),
    {
        let index: u8 = self.bit_index();
        if self.port() == 1 {
            assign_bit(overlay_bits(latch, INPUT1_FIXED_MASK, INPUT1_FIXED_BITS), index, held)
        } else {
            assign_bit(overlay_bits(latch, INPUT2_FIXED_MASK, INPUT2_FIXED_BITS), index, held)
        }
    }
}

/// The bytes of the three latches.
pub struct LatchBytes {
    pub system: u8,
    pub player1: u8,
    pub player2: u8,
}

impl LatchBytes {
    /// The fixed bits of each latch have their values.
    pub open spec fn wf(self) -> bool {
        &&& settled(self.system, INPUT0_FIXED_MASK, INPUT0_FIXED_BITS)
        &&& settled(self.player1, INPUT1_FIXED_MASK, INPUT1_FIXED_BITS)
        &&& settled(self.player2, INPUT2_FIXED_MASK, INPUT2_FIXED_BITS)
    }

    /// The latches after `action`: its flag is set where the button is
    /// held, cleared where it is released.
    pub open spec fn applied(self, action: InputAction, held: bool) -> LatchBytes {
        if action.latch() == 1 {
            LatchBytes { player1: with_bit(self.player1, action.flag(), held), ..self }
        } else {
            LatchBytes { player2: with_bit(self.player2, action.flag(), held), ..self }
        }
    }

    /// The byte that the CPU reads at input port `port`. Ports 0, 1 and 2
    /// show the latches; no other port does.
    pub open spec fn port_byte(self, port: u8) -> Option<u8> {
        if port == 0 {
            Some(self.system)
        } else if port == 1 {
            Some(self.player1)
        } else if port == 2 {
            Some(self.player2)
        } else {
            None
        }
    }
}

/// An action on one latch leaves the two others as they are; in its own
/// latch it changes no bit but its flag, and so no fixed bit.
pub proof fn lemma_latches_are_isolated(latches: LatchBytes, action: InputAction, held: bool)
    requires
        latches.wf(),
    ensures
        latches.applied(action, held).system == latches.system,
        action.latch() != 1 ==> latches.applied(action, held).player1 == latches.player1,
        action.latch() != 2 ==> latches.applied(action, held).player2 == latches.player2,
        forall|j: nat|
            j < 8 && j != action.flag() ==> bit(latches.applied(action, held).player1, j) == bit(
                latches.player1,
                j,
            ) && bit(latches.applied(action, held).player2, j) == bit(latches.player2, j),
        action.latch() == 1 ==> bit(latches.applied(action, held).player1, action.flag()) == held,
        action.latch() == 2 ==> bit(latches.applied(action, held).player2, action.flag()) == held,
        latches.applied(action, held).wf(),
{
    lemma_masks();
    lemma_with_bit(latches.player1, action.flag(), held);
    lemma_with_bit(latches.player2, action.flag(), held);
    if action.latch() == 1 {
        lemma_flag_keeps_settled(
            latches.player1,
            INPUT1_FIXED_MASK,
            INPUT1_FIXED_BITS,
            action.flag(),
            held,
        );
    } else {
        lemma_flag_keeps_settled(
            latches.player2,
            INPUT2_FIXED_MASK,
            INPUT2_FIXED_BITS,
            action.flag(),
            held,
        );
    }
}

/// The three input latches.
pub struct InputLatches {
    pub system: SpaceInvadersInput0,
    pub player1: SpaceInvadersInput1,
    pub player2: SpaceInvadersInput2,
}

impl View for InputLatches {
    type V = LatchBytes;

    open spec fn view(&self) -> LatchBytes {
        LatchBytes { system: self.system@, player1: self.player1@, player2: self.player2@ }
    }
}

impl InputLatches {
    /// The latches with no button held and no switch closed.
    pub fn new() -> (latches: InputLatches)
        ensures
            latches@ == (LatchBytes {
                system: INPUT0_FIXED_BITS,
                player1: INPUT1_FIXED_BITS,
                player2: INPUT2_FIXED_BITS,
            }),
            latches@.wf(),
    {
        InputLatches {
            system: SpaceInvadersInput0::new(),
            player1: SpaceInvadersInput1::new(),
            player2: SpaceInvadersInput2::new(),
        }
    }

    /// The latches with the flags of the three bytes; the fixed bits of
    /// each get their fixed values.
    pub fn from_bytes(system: u8, player1: u8, player2: u8) -> (latches: InputLatches)
        ensures
            latches@ == (LatchBytes {
                system: overlay(system, INPUT0_FIXED_MASK, INPUT0_FIXED_BITS),
                player1: overlay(player1, INPUT1_FIXED_MASK, INPUT1_FIXED_BITS),
                player2: overlay(player2, INPUT2_FIXED_MASK, INPUT2_FIXED_BITS),
            }),
            latches@.wf(),
    {
        InputLatches {
            system: SpaceInvadersInput0::from_bytes([system]),
            player1: SpaceInvadersInput1::from_bytes([player1]),
            player2: SpaceInvadersInput2::from_bytes([player2]),
        }
    }

    /// Follows an input event: sets the flag of `action` where its button
    /// is held, clears it where it is released. The two other latches and
    /// every other bit of the action's own latch stay as they are.
    pub fn apply(&mut self, action: InputAction, held: bool)
        ensures
            final(self)@ == old(self)@.applied(action, held),
            final(self)@.system == old(self)@.system,
            action.latch() != 1 ==> final(self)@.player1 == old(self)@.player1,
            action.latch() != 2 ==> final(self)@.player2 == old(self)@.player2,
            final(self)@.wf(),
    {
        proof {
            use_type_invariant(&self.system);
            use_type_invariant(&self.player1);
            use_type_invariant(&self.player2);
        }
        match action {
            InputAction::Credit => self.player1.set_credit(held),
            InputAction::Start2P => self.player1.set_start_2p(held),
            InputAction::Start1P => self.player1.set_start_1p(held),
            InputAction::P1Shot => self.player1.set_p1_shot(held),
            InputAction::P1Left => self.player1.set_p1_left(held),
            InputAction::P1Right => self.player1.set_p1_right(held),
            InputAction::Tilt => self.player2.set_tilt(held),
            InputAction::P2Shot => self.player2.set_p2_shot(held),
            InputAction::P2Left => self.player2.set_p2_left(held),
            InputAction::P2Right => self.player2.set_p2_right(held),
        }
    }

    /// The byte that the CPU reads at input port `port`, where that port
    /// shows a latch.
    pub fn read(&self, port: u8) -> (byte: Option<u8>)
        ensures
            byte == self@.port_byte(port),
    {
        if port == 0 {
            Some(self.system.into_bytes()[0])
        } else if port == 1 {
            Some(self.player1.into_bytes()[0])
        } else if port == 2 {
            Some(self.player2.into_bytes()[0])
        } else {
            None
        }
    }
}

} // verus!
