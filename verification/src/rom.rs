//! The program image.
//!
//! The program store is filled once, from a binary image of exactly its
//! size. An image of any other size is refused: a short one is not padded
//! and a long one is not cut.

use crate::layout::ROM_SIZE;
use vstd::prelude::*;

verus! {

broadcast use vstd::array::group_array_axioms;

/// Why a program image was refused.
#[derive(Clone, Copy, PartialEq, Eq, Debug, Structural)]
pub enum RomError {
    /// The image has `len` bytes, fewer than the program store.
    TooShort { len: usize },
    /// The image has `len` bytes, more than the program store.
    TooLong { len: usize },
}

impl RomError {
    /// The number of bytes of the refused image.
    pub fn len(&self) -> (len: usize)
        ensures
            len == match *self {
                RomError::TooShort { len } => len,
                RomError::TooLong { len } => len,
            },
    {
        match *self {
            RomError::TooShort { len } => len,
            RomError::TooLong { len } => len,
        }
    }

    /// What went wrong, in words.
    pub fn describe(&self) -> (text: &'static str)
        ensures
            self is TooShort ==> text@ == "program image is shorter than the program store"@,
            self is TooLong ==> text@ == "program image is longer than the program store"@,
    {
        match *self {
            RomError::TooShort { .. } => "program image is shorter than the program store",
            RomError::TooLong { .. } => "program image is longer than the program store",
        }
    }
}

/// Takes a program image as the contents of the program store.
pub fn rom_from_bytes(bytes: &[u8]) -> (result: Result<[u8; ROM_SIZE], RomError>)
    ensures
        bytes@.len() == ROM_SIZE ==> result is Ok && result->Ok_0@ == bytes@,
        bytes@.len() < ROM_SIZE ==> result == Err::<[u8; ROM_SIZE], RomError>(
            RomError::TooShort { len: bytes@.len() as usize },
        ),
        bytes@.len() > ROM_SIZE ==> result == Err::<[u8; ROM_SIZE], RomError>(
            RomError::TooLong { len: bytes@.len() as usize },
        ),
{
    let len: usize = bytes.len();
    if len < ROM_SIZE {
        return Err(RomError::TooShort { len });
    }
    if len > ROM_SIZE {
        return Err(RomError::TooLong { len });
    }
    let mut rom: [u8; ROM_SIZE] = [0u8; ROM_SIZE];
    let mut i: usize = 0;
    while i < ROM_SIZE
        invariant
            i <= ROM_SIZE,
            bytes@.len() == ROM_SIZE,
            forall|j: int| 0 <= j < i ==> rom@[j] == bytes@[j],
        decreases ROM_SIZE - i,
    {
        rom[i] = bytes[i];
        i = i + 1;
    }
    assert(rom@ =~= bytes@);
    Ok(rom)
}

} // verus!
