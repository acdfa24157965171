//! From the video store to the picture on the monitor.
//!
//! The video store holds one bit for each pixel, eight pixels to a byte,
//! least significant bit first, 256 pixels to a line and 224 lines. The
//! monitor is mounted turned a quarter counter-clockwise: line `l` of the
//! store is column `l` of the picture, and the pixel at place `x` of that
//! line stands in row `255 - x`. A display frame has four bytes for each
//! pixel of the picture, row by row: opaque white where the bit is set,
//! opaque black where it is clear.

use crate::bits::{
    assign_bit, bit, lemma_bits_determine_byte, lemma_pack, lemma_with_bit,
    lemma_zero_has_no_bit, pack, test_bit,
};
use crate::layout::{
    DISPLAY_BUFFER_SIZE, DISPLAY_PIXEL_SIZE, DISPLAY_WIDTH_PIXELS, SCREEN_SIZE_PIXELS,
    SCREEN_WIDTH_PIXELS, VRAM_SIZE,
};
use vstd::prelude::*;

verus! {

/// Where pixel `p` of the video store stands in the picture, both counted
/// from 0 in their own scan order.
pub open spec fn rotated(p: int) -> int {
    (255 - p % 256) * 224 + p / 256
}

/// The pixel of the video store that stands at place `q` of the picture.
pub open spec fn unrotated(q: int) -> int {
    (q % 224) * 256 + (255 - q / 224)
}

/// `rotated` maps the pixels of the store onto the pixels of the picture,
/// and `unrotated` leads back.
pub proof fn lemma_rotated(p: int)
    requires
        0 <= p < SCREEN_SIZE_PIXELS,
    ensures
        0 <= rotated(p) < SCREEN_SIZE_PIXELS,
        unrotated(rotated(p)) == p,
{
}

/// `unrotated` maps the pixels of the picture onto the pixels of the
/// store, and `rotated` leads back.
pub proof fn lemma_unrotated(q: int)
    requires
        0 <= q < SCREEN_SIZE_PIXELS,
    ensures
        0 <= unrotated(q) < SCREEN_SIZE_PIXELS,
        rotated(unrotated(q)) == q,
{
}

/// Byte `c` of a pixel of a display frame: a lit pixel is opaque white, an
/// unlit one opaque black.
pub open spec fn channel(lit: bool, c: int) -> u8 {
    if lit || c == 3 {
        0xFF
    } else {
        0x00
    }
}

/// Whether pixel `p` of the video store is lit.
pub open spec fn lit(video: Seq<u8>, p: int) -> bool {
    bit(video[p / 8], (p % 8) as nat)
}

/// The display frame that shows `video`.
pub open spec fn render(video: Seq<u8>) -> Seq<u8> {
    Seq::new(DISPLAY_BUFFER_SIZE as nat, |k: int| channel(lit(video, unrotated(k / 4)), k % 4))
}

/// Whether the pixel of `frame` that shows bit `j` of video byte `address`
/// is lit. A pixel counts as lit where its first byte is not zero.
pub open spec fn shows_bit(frame: Seq<u8>, address: int, j: nat) -> bool {
    frame[4 * rotated(8 * address + j)] != 0
}

/// The video store that `frame` shows.
pub open spec fn shown(frame: Seq<u8>) -> Seq<u8> {
    Seq::new(VRAM_SIZE as nat, |a: int| pack(|j: nat| shows_bit(frame, a, j)))
}

/// `frame` with the eight pixels of video byte `address` painted after the
/// bits of `val`, and every other pixel kept.
pub open spec fn painted(frame: Seq<u8>, address: int, val: u8) -> Seq<u8> {
    Seq::new(
        frame.len(),
        |k: int|
            if unrotated(k / 4) / 8 == address {
                channel(bit(val, (unrotated(k / 4) % 8) as nat), k % 4)
            } else {
                frame[k]
            },
    )
}

/// The eight pixels of a video byte lie on one line of the store, one
/// after the other.
pub proof fn lemma_pixels_of_byte(address: int, j: int)
    requires
        0 <= address < VRAM_SIZE,
        0 <= j < 8,
    ensures
        0 <= 8 * address + j < SCREEN_SIZE_PIXELS,
        (8 * address + j) / 8 == address,
        (8 * address + j) % 8 == j,
        (8 * address + j) / 256 == (8 * address) / 256,
        (8 * address + j) % 256 == (8 * address) % 256 + j,
{
}

/// A frame rendered from a video store shows that store.
pub proof fn lemma_shown_render(video: Seq<u8>)
    requires
        video.len() == VRAM_SIZE,
    ensures
        shown(render(video)) == video,
{
    let frame = render(video);
    assert forall|a: int| 0 <= a < VRAM_SIZE implies shown(frame)[a] == video[a] by {
        let bits = |j: nat| shows_bit(frame, a, j);
        lemma_pack(bits);
        assert forall|j: nat| j < 8 implies bit(pack(bits), j) == bit(video[a], j) by {
            lemma_pixels_of_byte(a, j as int);
            lemma_rotated(8 * a + j);
            assert(bits(j) == shows_bit(frame, a, j));
        }
        lemma_bits_determine_byte(pack(bits), video[a]);
    }
    assert(shown(frame) =~= video);
}

/// Painting the pixels of one byte turns the picture of a video store into
/// the picture of the store with that byte replaced.
pub proof fn lemma_painted_render(video: Seq<u8>, address: int, val: u8)
    requires
        video.len() == VRAM_SIZE,
        0 <= address < VRAM_SIZE,
    ensures
        painted(render(video), address, val) == render(video.update(address, val)),
{
    let left = painted(render(video), address, val);
    let right = render(video.update(address, val));
    assert forall|k: int| 0 <= k < DISPLAY_BUFFER_SIZE implies left[k] == right[k] by {
        lemma_unrotated(k / 4);
    }
    assert(left =~= right);
}

/// The video store after reset: every byte zero.
pub open spec fn blank() -> Seq<u8> {
    Seq::new(VRAM_SIZE as nat, |a: int| 0u8)
}

/// A video store with a single lit pixel gives a picture with a single
/// white pixel, at the rotated place; every other pixel is black.
pub proof fn lemma_single_lit_pixel(video: Seq<u8>, p: int)
    requires
        video.len() == VRAM_SIZE,
        0 <= p < SCREEN_SIZE_PIXELS,
        forall|o: int| 0 <= o < SCREEN_SIZE_PIXELS ==> (#[trigger] lit(video, o) <==> o == p),
    ensures
        forall|k: int|
            0 <= k < DISPLAY_BUFFER_SIZE ==> #[trigger] render(video)[k] == channel(
                k / 4 == rotated(p),
                k % 4,
            ),
{
    assert forall|k: int| 0 <= k < DISPLAY_BUFFER_SIZE implies #[trigger] render(video)[k]
        == channel(k / 4 == rotated(p), k % 4) by {
        lemma_unrotated(k / 4);
        lemma_rotated(p);
        assert(lit(video, unrotated(k / 4)) <==> unrotated(k / 4) == p);
    }
}

/// Where bit `pixel` of video byte `address` stands in the picture,
/// counted in pixels from the top left, row by row.
pub fn display_pixel_address(address: usize, pixel: u8) -> (place: usize)
    requires
        8 * address + pixel <= usize::MAX,
    ensures
        place == rotated(8 * address + pixel),
        address < VRAM_SIZE && pixel < 8 ==> place < SCREEN_SIZE_PIXELS,
{
    proof {
        if address < VRAM_SIZE && pixel < 8 {
            lemma_pixels_of_byte(address as int, pixel as int);
            lemma_rotated(8 * address + pixel);
        }
    }
    let pixel_address: usize = (address * 8) + pixel as usize;
    let display_col: usize = pixel_address / SCREEN_WIDTH_PIXELS;
    let display_row: usize = SCREEN_WIDTH_PIXELS - 1 - (pixel_address % SCREEN_WIDTH_PIXELS);
    (display_row * DISPLAY_WIDTH_PIXELS) + display_col
}

/// Paints the eight pixels of video byte `address` into `frame`: white for
/// each set bit of `val`, black for each clear one.
pub fn paint_byte(frame: &mut Vec<u8>, address: usize, val: u8)
    requires
        old(frame).len() == DISPLAY_BUFFER_SIZE,
        address < VRAM_SIZE,
    ensures
        final(frame)@ == painted(old(frame)@, address as int, val),
    no_unwind
{
    // The picture is turned a quarter counter-clockwise: the eight pixels
    // of a byte stand in one column, the first of them lowest.
    let starting_pixel_address: usize = 8 * address;
    let starting_pixel_display_col: usize = starting_pixel_address / SCREEN_WIDTH_PIXELS;
    let starting_pixel_display_row: usize = SCREEN_WIDTH_PIXELS - 1 - (starting_pixel_address
        % SCREEN_WIDTH_PIXELS);
    let ghost before = frame@;
    let mut i: u8 = 0;
    while i < 8
        invariant
            i <= 8,
            address < VRAM_SIZE,
            starting_pixel_address == 8 * address,
            starting_pixel_display_col == starting_pixel_address / 256,
            starting_pixel_display_row == 255 - starting_pixel_address % 256,
            before.len() == DISPLAY_BUFFER_SIZE,
            frame@.len() == DISPLAY_BUFFER_SIZE,
            forall|k: int|
                0 <= k < DISPLAY_BUFFER_SIZE ==> #[trigger] frame@[k] == (if unrotated(k / 4) / 8
                    == address && unrotated(k / 4) % 8 < i {
                    channel(bit(val, (unrotated(k / 4) % 8) as nat), k % 4)
                } else {
                    before[k]
                }),
        decreases 8 - i,
    {
        proof {
            lemma_pixels_of_byte(address as int, i as int);
            lemma_rotated(8 * address + i);
        }
        let pixel_display_row: usize = starting_pixel_display_row - i as usize;
        let pixel_display_address: usize = pixel_display_row * DISPLAY_WIDTH_PIXELS
            + starting_pixel_display_col;
        let byte_address: usize = pixel_display_address * DISPLAY_PIXEL_SIZE;
        assert(pixel_display_address == rotated(8 * address + i));
        let ghost earlier = frame@;
        if test_bit(val, i) {
            frame[byte_address] = 0xFF;
            frame[byte_address + 1] = 0xFF;
            frame[byte_address + 2] = 0xFF;
            frame[byte_address + 3] = 0xFF;
        } else {
            frame[byte_address] = 0x00;
            frame[byte_address + 1] = 0x00;
            frame[byte_address + 2] = 0x00;
            frame[byte_address + 3] = 0xFF;
        }
        proof {
            assert forall|k: int| 0 <= k < DISPLAY_BUFFER_SIZE implies #[trigger] frame@[k] == (
            if unrotated(k / 4) / 8 == address && unrotated(k / 4) % 8 < i + 1 {
                channel(bit(val, (unrotated(k / 4) % 8) as nat), k % 4)
            } else {
                before[k]
            }) by {
                lemma_unrotated(k / 4);
                if k / 4 == pixel_display_address {
                    assert(unrotated(k / 4) == 8 * address + i);
                } else {
                    assert(frame@[k] == earlier[k]);
                    assert(unrotated(k / 4) != 8 * address + i);
                }
            }
        }
        i = i + 1;
    }
    assert(frame@ =~= painted(before, address as int, val));
}

/// Reads video byte `address` back from the pixels of `frame`.
pub fn sample_byte(frame: &Vec<u8>, address: usize) -> (byte: u8)
    requires
        frame.len() == DISPLAY_BUFFER_SIZE,
        address < VRAM_SIZE,
    ensures
        byte == shown(frame@)[address as int],
{
    let mut byte: u8 = 0;
    let mut i: u8 = 0;
    proof {
        assert forall|j: nat| j < 8 implies !bit(0u8, j) by {
            lemma_zero_has_no_bit(j);
        }
    }
    while i < 8
        invariant
            i <= 8,
            address < VRAM_SIZE,
            frame.len() == DISPLAY_BUFFER_SIZE,
            forall|j: nat|
                j < 8 ==> #[trigger] bit(byte, j) == (j < i && shows_bit(
                    frame@,
                    address as int,
                    j,
                )),
        decreases 8 - i,
    {
        let byte_address: usize = display_pixel_address(address, i) * DISPLAY_PIXEL_SIZE;
        let pixel: u8 = frame[byte_address];
        proof {
            lemma_with_bit(byte, i as nat, pixel != 0);
        }
        byte = assign_bit(byte, i, pixel != 0);
        i = i + 1;
    }
    proof {
        let bits = |j: nat| shows_bit(frame@, address as int, j);
        lemma_pack(bits);
        assert forall|j: nat| j < 8 implies bit(byte, j) == bit(pack(bits), j) by {
            assert(bits(j) == shows_bit(frame@, address as int, j));
        }
        lemma_bits_determine_byte(byte, pack(bits));
    }
    byte
}

/// A frame with every pixel opaque black: the picture of a blank video
/// store.
pub fn black_frame() -> (frame: Vec<u8>)
    ensures
        frame@ == render(blank()),
{
    let mut frame: Vec<u8> = vec![0u8; DISPLAY_BUFFER_SIZE];
    let mut q: usize = 0;
    while q < SCREEN_SIZE_PIXELS
        invariant
            q <= SCREEN_SIZE_PIXELS,
            frame@.len() == DISPLAY_BUFFER_SIZE,
            forall|k: int|
                0 <= k < DISPLAY_BUFFER_SIZE ==> #[trigger] frame@[k] == channel(false, k % 4) || (
                k / 4 >= q && frame@[k] == 0),
        decreases SCREEN_SIZE_PIXELS - q,
    {
        frame[q * DISPLAY_PIXEL_SIZE + 3] = 0xFF;
        q = q + 1;
    }
    proof {
        assert forall|k: int| 0 <= k < DISPLAY_BUFFER_SIZE implies frame@[k] == render(blank())[k] by {
            lemma_unrotated(k / 4);
            lemma_zero_has_no_bit((unrotated(k / 4) % 8) as nat);
        }
        assert(frame@ =~= render(blank()));
    }
    frame
}

/// `video` with its bytes from `address` on blanked.
pub open spec fn blank_from(video: Seq<u8>, address: int) -> Seq<u8> {
    Seq::new(
        VRAM_SIZE as nat,
        |a: int|
            if a < address {
                video[a]
            } else {
                0u8
            },
    )
}

/// Converts the video store into a display frame.
///
/// The frame is made anew from the store alone: equal stores give equal
/// frames, byte for byte.
pub fn convert(video: &[u8; VRAM_SIZE]) -> (frame: Vec<u8>)
    ensures
        frame@ == render(video@),
{
    let mut frame: Vec<u8> = black_frame();
    let mut address: usize = 0;
    assert(blank_from(video@, 0) =~= blank());
    while address < VRAM_SIZE
        invariant
            address <= VRAM_SIZE,
            video@.len() == VRAM_SIZE,
            frame@ == render(blank_from(video@, address as int)),
        decreases VRAM_SIZE - address,
    {
        paint_byte(&mut frame, address, video[address]);
        proof {
            let done = blank_from(video@, address as int);
            lemma_painted_render(done, address as int, video@[address as int]);
            assert(done.update(address as int, video@[address as int]) =~= blank_from(
                video@,
                address + 1,
            ));
        }
        address = address + 1;
    }
    assert(blank_from(video@, VRAM_SIZE as int) =~= video@);
    frame
}

} // verus!
