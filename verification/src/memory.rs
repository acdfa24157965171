//! The board's memory: a program store, a working store and a video store
//! behind one mirrored 16 KB window.
//!
//! The board decodes 14 of the CPU's 16 address lines, so every address
//! is folded into the window `0..0x4000` before a region is chosen. The
//! program store is given once, when the memory is made, and no write
//! reaches it afterwards.
//!
//! The video store is kept as the picture it shows: a write into it
//! paints eight pixels of a display frame, and a read takes the byte back
//! from those pixels. The frame is therefore ready at any time.

use crate::display::{
    black_frame, blank, display_pixel_address, lemma_painted_render, lemma_shown_render,
    paint_byte, render, rotated, sample_byte, shown,
};
use crate::layout::{
    DISPLAY_BUFFER_SIZE, RAM_END, RAM_MASK, RAM_SIZE, RAM_START, ROM_END, ROM_SIZE,
    SCREEN_SIZE_PIXELS, VRAM_END, VRAM_SIZE, VRAM_START,
};
use vstd::prelude::*;

verus! {

broadcast use vstd::array::group_array_axioms;

/// What a [`SpaceInvadersMemory`] holds: the bytes of its three regions.
pub struct MemoryState {
    pub rom: Seq<u8>,
    pub ram: Seq<u8>,
    pub video: Seq<u8>,
}

impl MemoryState {
    /// Each region has its fixed size.
    pub open spec fn wf(self) -> bool {
        &&& self.rom.len() == ROM_SIZE
        &&& self.ram.len() == RAM_SIZE
        &&& self.video.len() == VRAM_SIZE
    }

    /// The byte at `place` of the window; zero outside of it.
    pub open spec fn window_byte(self, place: int) -> u8 {
        if 0 <= place < ROM_END {
            self.rom[place]
        } else if RAM_START <= place < RAM_END {
            self.ram[place - RAM_START]
        } else if VRAM_START <= place < VRAM_END {
            self.video[place - VRAM_START]
        } else {
            0
        }
    }

    /// The state after `val` was written at `place` of the window: the
    /// working store and the video store take it, the program store does
    /// not.
    pub open spec fn window_written(self, place: int, val: u8) -> MemoryState {
        if RAM_START <= place < RAM_END {
            MemoryState { ram: self.ram.update(place - RAM_START, val), ..self }
        } else if VRAM_START <= place < VRAM_END {
            MemoryState { video: self.video.update(place - VRAM_START, val), ..self }
        } else {
            self
        }
    }

    /// The byte that the CPU reads at `addr`.
    pub open spec fn byte_at(self, addr: u16) -> u8 {
        self.window_byte(folded(addr, 0))
    }

    /// The state after the CPU wrote `val` at `addr`.
    pub open spec fn written(self, addr: u16, val: u8) -> MemoryState {
        self.window_written(folded(addr, 0), val)
    }

    /// The `count` bytes that the CPU reads from `addr` on: byte `i` is the
    /// one `i` places after `addr` in the window.
    pub open spec fn bytes_from(self, addr: u16, count: nat) -> Seq<u8> {
        Seq::new(count, |i: int| self.window_byte(folded(addr, i)))
    }

    /// The state after the CPU wrote `bytes` from `addr` on, first byte
    /// first: byte `i` goes `i` places after `addr` in the window.
    pub open spec fn written_all(self, addr: u16, bytes: Seq<u8>) -> MemoryState
        decreases bytes.len(),
    {
        if bytes.len() == 0 {
            self
        } else {
            self.written_all(addr, bytes.drop_last()).window_written(
                folded(addr, bytes.len() - 1),
                bytes.last(),
            )
        }
    }
}

/// The place in the window that lies `offset` bytes after address `addr`:
/// the address is folded into the window, and the window is walked round.
pub open spec fn folded(addr: u16, offset: int) -> int {
    (addr as int % 0x4000 + offset) % 0x4000
}

/// One step further round the window.
proof fn lemma_folded_next(addr: u16, offset: int)
    requires
        0 <= offset,
    ensures
        0 <= folded(addr, offset) < 0x4000,
        folded(addr, offset + 1) == (if folded(addr, offset) + 1 == 0x4000 {
            0
        } else {
            folded(addr, offset) + 1
        }),
{
}

/// Two addresses that differ by a multiple of the window's size reach the
/// same storage: they read the same and a write through either changes the
/// same byte, one byte at a time or many.
pub proof fn lemma_mirrored(state: MemoryState, a: u16, b: u16, val: u8, bytes: Seq<u8>)
    requires
        a % 0x4000 == b % 0x4000,
    ensures
        state.byte_at(a) == state.byte_at(b),
        state.written(a, val) == state.written(b, val),
        state.bytes_from(a, bytes.len()) == state.bytes_from(b, bytes.len()),
        state.written_all(a, bytes) == state.written_all(b, bytes),
    decreases bytes.len(),
{
    assert(state.bytes_from(a, bytes.len()) =~= state.bytes_from(b, bytes.len()));
    if bytes.len() > 0 {
        lemma_mirrored(state, a, b, val, bytes.drop_last());
    }
}

/// No write changes the program store, and every write keeps the regions'
/// sizes.
pub proof fn lemma_program_store_is_read_only(state: MemoryState, addr: u16, bytes: Seq<u8>)
    requires
        state.wf(),
    ensures
        state.written_all(addr, bytes).rom == state.rom,
        state.written_all(addr, bytes).wf(),
    decreases bytes.len(),
{
    if bytes.len() > 0 {
        lemma_program_store_is_read_only(state, addr, bytes.drop_last());
    }
}

/// A byte written into the working store or the video store is read back
/// from the same address; the other bytes of the window stay.
pub proof fn lemma_read_after_write(state: MemoryState, addr: u16, val: u8, other: u16)
    requires
        state.wf(),
    ensures
        addr % 0x4000 >= RAM_START ==> state.written(addr, val).byte_at(addr) == val,
        addr % 0x4000 < RAM_START ==> state.written(addr, val) == state,
        other % 0x4000 != addr % 0x4000 ==> state.written(addr, val).byte_at(other)
            == state.byte_at(other),
{
}

proof fn lemma_mask(addr: usize)
    by (bit_vector)
    ensures
        addr & 0x3FFF == addr % 0x4000,
{
}

proof fn lemma_little_endian(low: u8, high: u8)
    by (bit_vector)
    ensures
        (low as u16) | ((high as u16) << 8) == low + 256 * high,
{
}

/// The board's memory.
pub struct SpaceInvadersMemory {
    rom: [u8; ROM_SIZE],
    ram: [u8; RAM_SIZE],
    vram: Vec<u8>,
}

impl View for SpaceInvadersMemory {
    type V = MemoryState;

    closed spec fn view(&self) -> MemoryState {
        MemoryState { rom: self.rom@, ram: self.ram@, video: shown(self.vram@) }
    }
}

impl SpaceInvadersMemory {
    /// The frame is complete and every pixel of it is opaque white or
    /// opaque black.
    #[verifier::type_invariant]
    spec fn frame_is_a_picture(self) -> bool {
        &&& self.vram@.len() == DISPLAY_BUFFER_SIZE
        &&& self.vram@ == render(shown(self.vram@))
    }

    /// The regions of any memory have their fixed sizes.
    pub proof fn lemma_view_wf(self)
        ensures
            self@.wf(),
    {
    }

    /// A memory with the given program store, and with the working store
    /// and the video store zeroed.
    pub fn new(rom: [u8; ROM_SIZE]) -> (memory: SpaceInvadersMemory)
        ensures
            memory@ == (MemoryState {
                rom: rom@,
                ram: Seq::new(RAM_SIZE as nat, |i: int| 0u8),
                video: blank(),
            }),
    {
        let ram: [u8; RAM_SIZE] = [0u8; RAM_SIZE];
        let vram: Vec<u8> = black_frame();
        proof {
            lemma_shown_render(blank());
            assert(ram@ =~= Seq::new(RAM_SIZE as nat, |i: int| 0u8));
        }
        SpaceInvadersMemory { rom, ram, vram }
    }

    /// Reads the byte at `place` of the window.
    fn read_window(&self, place: usize) -> (byte: u8)
        requires
            place < VRAM_END,
        ensures
            byte == self@.window_byte(place as int),
    {
        if place < ROM_END {
            self.rom[place]
        } else if place < RAM_END {
            self.ram[place - RAM_START]
        } else {
            self.read_vram(place - VRAM_START)
        }
    }

    /// Writes `val` at `place` of the window.
    fn write_window(&mut self, place: usize, val: u8)
        requires
            place < VRAM_END,
        ensures
            final(self)@ == old(self)@.window_written(place as int, val),
    {
        proof {
            use_type_invariant(&*self);
        }
        if RAM_START <= place && place < RAM_END {
            self.ram[place - RAM_START] = val;
            assert(self@.ram =~= old(self)@.ram.update(place - RAM_START, val));
        } else if VRAM_START <= place && place < VRAM_END {
            self.write_vram(place - VRAM_START, val);
        }
    }

    /// Reads the byte at `addr`.
    pub fn read_byte(&self, addr: u16) -> (byte: u8)
        ensures
            byte == self@.byte_at(addr),
    {
        proof {
            lemma_mask(addr as usize);
        }
        let place: usize = addr as usize & RAM_MASK;
        self.read_window(place)
    }

    /// Writes `val` at `addr`. A write into the program store is ignored.
    pub fn write_byte(&mut self, addr: u16, val: u8)
        ensures
            final(self)@ == old(self)@.written(addr, val),
    {
        proof {
            lemma_mask(addr as usize);
        }
        let place: usize = addr as usize & RAM_MASK;
        self.write_window(place, val);
    }

    /// Reads `C` bytes from `addr` on.
    pub fn read_bytes<const C: usize>(&self, addr: u16) -> (bytes: [u8; C])
        ensures
            bytes@ == self@.bytes_from(addr, C as nat),
    {
        proof {
            lemma_mask(addr as usize);
        }
        let mut ret: [u8; C] = [0x00u8; C];
        let mut place: usize = addr as usize & RAM_MASK;
        let mut i: usize = 0;
        while i < C
            invariant
                i <= C,
                place == folded(addr, i as int),
                forall|j: int| 0 <= j < i ==> ret@[j] == self@.window_byte(folded(addr, j)),
            decreases C - i,
        {
            proof {
                lemma_folded_next(addr, i as int);
            }
            ret[i] = self.read_window(place);
            place = if place + 1 == VRAM_END {
                0
            } else {
                place + 1
            };
            i = i + 1;
        }
        assert(ret@ =~= self@.bytes_from(addr, C as nat));
        ret
    }

    /// Writes `val` from `addr` on. Bytes that fall into the program store
    /// are ignored.
    pub fn write_bytes(&mut self, addr: u16, val: &[u8])
        ensures
            final(self)@ == old(self)@.written_all(addr, val@),
    {
        proof {
            lemma_mask(addr as usize);
        }
        let mut place: usize = addr as usize & RAM_MASK;
        let mut i: usize = 0;
        assert(val@.take(0) =~= Seq::<u8>::empty());
        while i < val.len()
            invariant
                i <= val.len(),
                place == folded(addr, i as int),
                self@ == old(self)@.written_all(addr, val@.take(i as int)),
            decreases val.len() - i,
        {
            proof {
                lemma_folded_next(addr, i as int);
                assert(val@.take(i + 1).drop_last() =~= val@.take(i as int));
            }
            self.write_window(place, val[i]);
            place = if place + 1 == VRAM_END {
                0
            } else {
                place + 1
            };
            i = i + 1;
        }
        assert(val@.take(i as int) =~= val@);
    }

    /// Where bit `pixel` of video byte `address` stands in the display
    /// frame, counted in pixels.
    pub fn get_display_pixel_address(&self, address: usize, pixel: u8) -> (place: usize)
        requires
            8 * address + pixel <= usize::MAX,
        ensures
            place == rotated(8 * address + pixel),
            address < VRAM_SIZE && pixel < 8 ==> place < SCREEN_SIZE_PIXELS,
    {
        display_pixel_address(address, pixel)
    }

    /// Writes byte `address` of the video store.
    pub fn write_vram(&mut self, address: usize, val: u8)
        requires
            address < VRAM_SIZE,
        ensures
            final(self)@ == (MemoryState {
                video: old(self)@.video.update(address as int, val),
                ..old(self)@
            }),
    {
        proof {
            use_type_invariant(&*self);
            lemma_painted_render(shown(self.vram@), address as int, val);
            lemma_shown_render(shown(self.vram@).update(address as int, val));
        }
        paint_byte(&mut self.vram, address, val);
    }

    /// Reads byte `address` of the video store.
    pub fn read_vram(&self, address: usize) -> (byte: u8)
        requires
            address < VRAM_SIZE,
        ensures
            byte == self@.video[address as int],
    {
        proof {
            use_type_invariant(self);
        }
        sample_byte(&self.vram, address)
    }

    /// The display frame: the picture of the video store as it is now.
    pub fn frame(&self) -> (frame: &Vec<u8>)
        ensures
            frame@ == render(self@.video),
            frame@.len() == DISPLAY_BUFFER_SIZE,
    {
        proof {
            use_type_invariant(self);
        }
        &self.vram
    }

    /// The first player's score as the game keeps it in the working store,
    /// low byte first.
    pub fn get_p1_score(&self) -> (score: u16)
        ensures
            score == self@.ram[0xF8] + 256 * self@.ram[0xF9],
    {
        let bytes: [u8; 2] = self.read_bytes::<2>(0x20F8);
        proof {
            lemma_little_endian(bytes[0], bytes[1]);
        }
        (bytes[0] as u16) | ((bytes[1] as u16) << 8)
    }

    /// The second player's score as the game keeps it in the working
    /// store, low byte first.
    pub fn get_p2_score(&self) -> (score: u16)
        ensures
            score == self@.ram[0xFC] + 256 * self@.ram[0xFD],
    {
        let bytes: [u8; 2] = self.read_bytes::<2>(0x20FC);
        proof {
            lemma_little_endian(bytes[0], bytes[1]);
        }
        (bytes[0] as u16) | ((bytes[1] as u16) << 8)
    }
}

} // verus!
