//! Single bits of a hardware register byte.
//!
//! Every latch of the board is one byte whose bits have names. The
//! functions here read and replace bits, and their contracts speak of
//! [`bit`], the arithmetic meaning of "bit `index` of `byte` is set".

use vstd::arithmetic::power2::{lemma2_to64, lemma_pow2_pos, pow2};
use vstd::bits::lemma_u8_shr_is_div;
use vstd::prelude::*;

verus! {

/// Whether bit `index` of `byte` is set, bit 0 being the least significant.
pub open spec fn bit(byte: u8, index: nat) -> bool {
    (byte as nat / pow2(index)) % 2 == 1
}

/// The byte whose bit `j` is set where `bits(j)` holds.
pub open spec fn pack(bits: spec_fn(nat) -> bool) -> u8 {
    ((if bits(0) {
        1int
    } else {
        0
    }) + (if bits(1) {
        2int
    } else {
        0
    }) + (if bits(2) {
        4int
    } else {
        0
    }) + (if bits(3) {
        8int
    } else {
        0
    }) + (if bits(4) {
        16int
    } else {
        0
    }) + (if bits(5) {
        32int
    } else {
        0
    }) + (if bits(6) {
        64int
    } else {
        0
    }) + (if bits(7) {
        128int
    } else {
        0
    })) as u8
}

/// The bits of `byte`, but for bit `index`, which is `value`.
pub open spec fn bits_with(byte: u8, index: nat, value: bool) -> spec_fn(nat) -> bool {
    |j: nat|
        if j == index {
            value
        } else {
            bit(byte, j)
        }
}

/// `byte` with bit `index` replaced by `value` and every other bit kept.
pub open spec fn with_bit(byte: u8, index: nat, value: bool) -> u8 {
    pack(bits_with(byte, index, value))
}

/// The bits of `fixed` where `mask` is set, those of `byte` elsewhere.
pub open spec fn bits_over(byte: u8, mask: u8, fixed: u8) -> spec_fn(nat) -> bool {
    |j: nat|
        if bit(mask, j) {
            bit(fixed, j)
        } else {
            bit(byte, j)
        }
}

/// `byte` with the bits that `mask` selects taken from `fixed`.
pub open spec fn overlay(byte: u8, mask: u8, fixed: u8) -> u8 {
    pack(bits_over(byte, mask, fixed))
}

proof fn lemma_low_bit(x: u8)
    by (bit_vector)
    ensures
        x & 1 == x % 2,
{
}

proof fn lemma_shifted_bit(byte: u8, index: u8, j: u8)
    by (bit_vector)
    requires
        index < 8,
        j < 8,
    ensures
        ((byte | (1u8 << index)) >> j) & 1 == (if j == index {
            1u8
        } else {
            (byte >> j) & 1
        }),
        ((byte & !(1u8 << index)) >> j) & 1 == (if j == index {
            0u8
        } else {
            (byte >> j) & 1
        }),
{
}

proof fn lemma_shifted_overlay(byte: u8, mask: u8, fixed: u8, j: u8)
    by (bit_vector)
    requires
        j < 8,
    ensures
        (((byte & !mask) | (fixed & mask)) >> j) & 1 == (if (mask >> j) & 1 == 1 {
            (fixed >> j) & 1
        } else {
            (byte >> j) & 1
        }),
{
}

proof fn lemma_bits_rebuild(x: u8)
    by (bit_vector)
    ensures
        x == ((x >> 0) & 1) + 2 * ((x >> 1) & 1) + 4 * ((x >> 2) & 1) + 8 * ((x >> 3) & 1) + 16 * ((x
            >> 4) & 1) + 32 * ((x >> 5) & 1) + 64 * ((x >> 6) & 1) + 128 * ((x >> 7) & 1),
{
}

proof fn lemma_pack_shifts(
    b0: bool,
    b1: bool,
    b2: bool,
    b3: bool,
    b4: bool,
    b5: bool,
    b6: bool,
    b7: bool,
    x: u8,
)
    by (bit_vector)
    requires
        x == (if b0 {
            1u8
        } else {
            0
        }) + (if b1 {
            2u8
        } else {
            0
        }) + (if b2 {
            4u8
        } else {
            0
        }) + (if b3 {
            8u8
        } else {
            0
        }) + (if b4 {
            16u8
        } else {
            0
        }) + (if b5 {
            32u8
        } else {
            0
        }) + (if b6 {
            64u8
        } else {
            0
        }) + (if b7 {
            128u8
        } else {
            0
        }),
    ensures
        ((x >> 0) & 1 == 1) == b0,
        ((x >> 1) & 1 == 1) == b1,
        ((x >> 2) & 1 == 1) == b2,
        ((x >> 3) & 1 == 1) == b3,
        ((x >> 4) & 1 == 1) == b4,
        ((x >> 5) & 1 == 1) == b5,
        ((x >> 6) & 1 == 1) == b6,
        ((x >> 7) & 1 == 1) == b7,
{
}

/// `bit` read off the shifted byte, as the executable code computes it.
pub proof fn lemma_bit_is_shift(byte: u8, index: u8)
    requires
        index < 8,
    ensures
        bit(byte, index as nat) == ((byte >> index) & 1 == 1),
        (byte >> index) & 1 == 0 || (byte >> index) & 1 == 1,
{
    lemma_u8_shr_is_div(byte, index);
    lemma_low_bit(byte >> index);
}

/// A byte is determined by its eight bits.
pub proof fn lemma_bits_determine_byte(a: u8, b: u8)
    requires
        forall|j: nat| j < 8 ==> bit(a, j) == bit(b, j),
    ensures
        a == b,
{
    assert forall|j: u8| j < 8 implies (#[trigger] (a >> j)) & 1 == (b >> j) & 1 by {
        lemma_bit_is_shift(a, j);
        lemma_bit_is_shift(b, j);
        assert(bit(a, j as nat) == bit(b, j as nat));
    }
    assert((a >> 0u8) & 1 == (b >> 0u8) & 1);
    assert((a >> 1u8) & 1 == (b >> 1u8) & 1);
    assert((a >> 2u8) & 1 == (b >> 2u8) & 1);
    assert((a >> 3u8) & 1 == (b >> 3u8) & 1);
    assert((a >> 4u8) & 1 == (b >> 4u8) & 1);
    assert((a >> 5u8) & 1 == (b >> 5u8) & 1);
    assert((a >> 6u8) & 1 == (b >> 6u8) & 1);
    assert((a >> 7u8) & 1 == (b >> 7u8) & 1);
    lemma_bits_rebuild(a);
    lemma_bits_rebuild(b);
}

/// Each bit of a byte, written out.
pub proof fn lemma_bit_values(byte: u8)
    ensures
        bit(byte, 0) == (byte % 2 == 1),
        bit(byte, 1) == ((byte / 2) % 2 == 1),
        bit(byte, 2) == ((byte / 4) % 2 == 1),
        bit(byte, 3) == ((byte / 8) % 2 == 1),
        bit(byte, 4) == ((byte / 16) % 2 == 1),
        bit(byte, 5) == ((byte / 32) % 2 == 1),
        bit(byte, 6) == ((byte / 64) % 2 == 1),
        bit(byte, 7) == ((byte / 128) % 2 == 1),
{
    lemma2_to64();
}

/// No bit of zero is set.
pub proof fn lemma_zero_has_no_bit(index: nat)
    ensures
        !bit(0, index),
{
    lemma_pow2_pos(index);
    assert(0nat / pow2(index) == 0) by (nonlinear_arith)
        requires
            pow2(index) > 0,
    ;
}

/// The bits of `pack(bits)` are `bits`.
pub proof fn lemma_pack(bits: spec_fn(nat) -> bool)
    ensures
        forall|j: nat| j < 8 ==> #[trigger] bit(pack(bits), j) == bits(j),
{
    let x = pack(bits);
    lemma_pack_shifts(bits(0), bits(1), bits(2), bits(3), bits(4), bits(5), bits(6), bits(7), x);
    assert forall|j: nat| j < 8 implies bit(x, j) == bits(j) by {
        lemma_bit_is_shift(x, j as u8);
    }
}

/// The bits of `with_bit(byte, index, value)`: `value` at `index`, those of
/// `byte` elsewhere. Below index 8 nothing else changes the byte.
pub proof fn lemma_with_bit(byte: u8, index: nat, value: bool)
    ensures
        forall|j: nat|
            j < 8 ==> #[trigger] bit(with_bit(byte, index, value), j) == (if j == index {
                value
            } else {
                bit(byte, j)
            }),
        index < 8 && bit(byte, index) == value ==> with_bit(byte, index, value) == byte,
{
    lemma_pack(bits_with(byte, index, value));
    if index < 8 && bit(byte, index) == value {
        lemma_bits_determine_byte(with_bit(byte, index, value), byte);
    }
}

/// The bits of `overlay(byte, mask, fixed)`: those of `fixed` where `mask`
/// is set, those of `byte` elsewhere.
pub proof fn lemma_overlay(byte: u8, mask: u8, fixed: u8)
    ensures
        forall|j: nat|
            j < 8 ==> #[trigger] bit(overlay(byte, mask, fixed), j) == (if bit(mask, j) {
                bit(fixed, j)
            } else {
                bit(byte, j)
            }),
{
    lemma_pack(bits_over(byte, mask, fixed));
}

/// Reads bit `index` of `byte`.
pub fn test_bit(byte: u8, index: u8) -> (set: bool)
    requires
        index < 8,
    ensures
        set == bit(byte, index as nat),
    no_unwind
{
    proof {
        lemma_bit_is_shift(byte, index);
    }
    (byte >> index) & 1 == 1
}

/// Returns `byte` with bit `index` replaced by `value` and every other bit
/// kept.
pub fn assign_bit(byte: u8, index: u8, value: bool) -> (out: u8)
    requires
        index < 8,
    ensures
        out == with_bit(byte, index as nat, value),
{
    let mask: u8 = 1u8 << index;
    let out: u8 = if value {
        byte | mask
    } else {
        byte & !mask
    };
    proof {
        lemma_with_bit(byte, index as nat, value);
        assert forall|j: nat| j < 8 implies bit(out, j) == bit(
            with_bit(byte, index as nat, value),
            j,
        ) by {
            lemma_shifted_bit(byte, index, j as u8);
            lemma_bit_is_shift(out, j as u8);
            lemma_bit_is_shift(byte, j as u8);
        }
        lemma_bits_determine_byte(out, with_bit(byte, index as nat, value));
    }
    out
}

/// Returns `byte` with the bits that `mask` selects taken from `fixed`.
pub fn overlay_bits(byte: u8, mask: u8, fixed: u8) -> (out: u8)
    ensures
        out == overlay(byte, mask, fixed),
{
    let out: u8 = (byte & !mask) | (fixed & mask);
    proof {
        lemma_overlay(byte, mask, fixed);
        assert forall|j: nat| j < 8 implies bit(out, j) == bit(overlay(byte, mask, fixed), j) by {
            lemma_shifted_overlay(byte, mask, fixed, j as u8);
            lemma_bit_is_shift(out, j as u8);
            lemma_bit_is_shift(byte, j as u8);
            lemma_bit_is_shift(mask, j as u8);
            lemma_bit_is_shift(fixed, j as u8);
        }
        lemma_bits_determine_byte(out, overlay(byte, mask, fixed));
    }
    out
}

} // verus!
