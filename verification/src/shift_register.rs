//! The board's shift-register chip.
//!
//! The game has no barrel shifter of its own and uses this chip for it:
//! bytes are fed into a 16-bit register from the top, and a read returns
//! the eight bits that start `amount` places below the top byte.

use vstd::arithmetic::power2::{lemma2_to64, pow2};
use vstd::bits::lemma_u16_shr_is_div;
use vstd::prelude::*;

verus! {

/// What a [`ShiftRegister`] holds: the 16-bit register and the selected
/// shift amount.
pub struct ShiftState {
    pub register: u16,
    pub amount: u8,
}

impl ShiftState {
    /// The state after `input` was fed: it becomes the high byte, and the
    /// previous high byte becomes the low byte.
    pub open spec fn fed(self, input: u8) -> ShiftState {
        ShiftState { register: (input * 256 + self.register / 256) as u16, amount: self.amount }
    }

    /// The state after `amount` was written to the amount port: only its
    /// low three bits count.
    pub open spec fn with_amount(self, amount: u8) -> ShiftState {
        ShiftState { register: self.register, amount: amount % 8 }
    }

    /// The byte the chip shows: bits `8 - amount` to `15 - amount` of the
    /// register.
    pub open spec fn window(self) -> u8 {
        ((self.register as nat / pow2((8 - self.amount) as nat)) % 256) as u8
    }
}

/// The shift-register chip.
pub struct ShiftRegister {
    register: u16,
    amount: u8,
}

impl View for ShiftRegister {
    type V = ShiftState;

    closed spec fn view(&self) -> ShiftState {
        ShiftState { register: self.register, amount: self.amount }
    }
}

proof fn lemma_feed(input: u8, register: u16)
    by (bit_vector)
    ensures
        ((input as u16) << 8) | (register >> 8) == input * 256 + register / 256,
{
}

proof fn lemma_low_three(amount: u8)
    by (bit_vector)
    ensures
        amount & 0b0000_0111 == amount % 8,
{
}

proof fn lemma_low_byte(x: u16)
    by (bit_vector)
    ensures
        x as u8 == x % 256,
{
}

impl ShiftRegister {
    #[verifier::type_invariant]
    spec fn amount_is_three_bits(self) -> bool {
        self.amount < 8
    }

    /// The chip after reset: register and amount are zero.
    pub fn new() -> (chip: ShiftRegister)
        ensures
            chip@ == (ShiftState { register: 0, amount: 0 }),
    {
        ShiftRegister { register: 0, amount: 0 }
    }

    /// The 16-bit register.
    pub fn register(&self) -> (register: u16)
        ensures
            register == self@.register,
    {
        self.register
    }

    /// The selected shift amount, always below 8.
    pub fn amount(&self) -> (amount: u8)
        ensures
            amount == self@.amount,
            amount < 8,
    {
        proof {
            use_type_invariant(self);
        }
        self.amount
    }

    /// Feeds a byte: `register = (input << 8) | (register >> 8)`.
    pub fn input_data(&mut self, input: u8)
        ensures
            final(self)@ == old(self)@.fed(input),
    {
        proof {
            use_type_invariant(&*self);
            lemma_feed(input, self.register);
        }
        self.register = ((input as u16) << 8) | (self.register >> 8);
    }

    /// Selects the shift amount, keeping the low three bits of `amount`.
    pub fn input_amount(&mut self, amount: u8)
        ensures
            final(self)@ == old(self)@.with_amount(amount),
    {
        proof {
            use_type_invariant(&*self);
            lemma_low_three(amount);
        }
        self.amount = amount & 0b0000_0111;
    }

    /// Reads the chip: the register shifted right by `8 - amount`, cut to a
    /// byte.
    pub fn output(&self) -> (byte: u8)
        ensures
            byte == self@.window(),
    {
        proof {
            use_type_invariant(self);
        }
        let shift: u16 = 8 - self.amount as u16;
        let shifted: u16 = self.register >> shift;
        proof {
            lemma_u16_shr_is_div(self.register, shift);
            lemma_low_byte(shifted);
        }
        #[verifier::truncate]
        (shifted as u8)
    }
}

/// With amount 0 the chip shows the register's high byte, that is the byte
/// fed last.
pub proof fn lemma_window_unshifted(state: ShiftState)
    requires
        state.amount == 0,
    ensures
        state.window() == state.register / 256,
{
    lemma2_to64();
}

/// With amount 7 the chip shows the lowest bit of the high byte above the
/// top seven bits of the low byte.
pub proof fn lemma_window_fully_shifted(state: ShiftState)
    requires
        state.amount == 7,
    ensures
        state.window() == (state.register / 2) % 256,
{
    lemma2_to64();
}

} // verus!
