//! The frame that the presentation side shows.
//!
//! The emulation never hands out its live video store. At the end of a
//! frame it copies the picture into a mirror, and the presentation side
//! reads the mirror when it draws. Who holds the mirror decides how the
//! two sides take turns; a mirror that is busy is simply not written, and
//! the frame is dropped.

use crate::display::render;
use crate::layout::DISPLAY_BUFFER_SIZE;
use crate::memory::SpaceInvadersMemory;
use vstd::prelude::*;

verus! {

/// A display frame of fixed size.
pub struct FrameMirror {
    pixels: Vec<u8>,
}

impl View for FrameMirror {
    type V = Seq<u8>;

    closed spec fn view(&self) -> Seq<u8> {
        self.pixels@
    }
}

impl FrameMirror {
    #[verifier::type_invariant]
    spec fn is_one_frame(self) -> bool {
        self.pixels@.len() == DISPLAY_BUFFER_SIZE
    }

    /// A mirror that shows nothing yet: every byte zero.
    pub fn new() -> (mirror: FrameMirror)
        ensures
            mirror@ == Seq::new(DISPLAY_BUFFER_SIZE as nat, |k: int| 0u8),
    {
        let pixels: Vec<u8> = vec![0u8; DISPLAY_BUFFER_SIZE];
        assert(pixels@ =~= Seq::new(DISPLAY_BUFFER_SIZE as nat, |k: int| 0u8));
        FrameMirror { pixels }
    }

    /// Copies the picture of the video store of `memory` into the mirror.
    pub fn publish(&mut self, memory: &SpaceInvadersMemory)
        ensures
            final(self)@ == render(memory@.video),
    {
        proof {
            use_type_invariant(&*self);
        }
        let frame = memory.frame();
        let mut k: usize = 0;
        while k < DISPLAY_BUFFER_SIZE
            invariant
                k <= DISPLAY_BUFFER_SIZE,
                frame@.len() == DISPLAY_BUFFER_SIZE,
                self.pixels@.len() == DISPLAY_BUFFER_SIZE,
                forall|j: int| 0 <= j < k ==> self.pixels@[j] == frame@[j],
            decreases DISPLAY_BUFFER_SIZE - k,
        {
            self.pixels[k] = frame[k];
            k = k + 1;
        }
        assert(self.pixels@ =~= frame@);
    }

    /// Shows the frame that is due, if the mirror can be had: `mirror` is
    /// the mirror where the caller got hold of it, and nothing where the
    /// presentation side is reading it just now. A mirror that was got is
    /// written and the answer is that a redraw is wanted; without one the
    /// frame is dropped, nothing is written and nothing is asked for.
    pub fn publish_if_free(
        mirror: Option<&mut FrameMirror>,
        memory: &SpaceInvadersMemory,
    ) -> (redraw: bool)
        ensures
            redraw == mirror is Some,
            mirror matches Some(got) ==> final(got)@ == render(memory@.video),
    {
        match mirror {
            Some(got) => {
                got.publish(memory);
                true
            },
            None => false,
        }
    }

    /// The bytes of the frame, four for each pixel, row by row.
    pub fn pixels(&self) -> (pixels: &Vec<u8>)
        ensures
            pixels@ == self@,
            pixels@.len() == DISPLAY_BUFFER_SIZE,
    {
        proof {
            use_type_invariant(self);
        }
        &self.pixels
    }
}

} // verus!
