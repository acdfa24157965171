//! The fixed sizes of the board: its screen, its three memory regions and
//! its frame period.

use vstd::prelude::*;

verus! {

/// Pixels along one line of the video store, in the order the hardware
/// scans them.
pub const SCREEN_WIDTH_PIXELS: usize = 256;

/// Lines of the video store.
pub const SCREEN_HEIGHT_PIXELS: usize = 224;

/// Width of the picture as the player sees it: the monitor is mounted
/// turned by a quarter, so width and height change places.
pub const DISPLAY_WIDTH_PIXELS: usize = SCREEN_HEIGHT_PIXELS;

/// Height of the picture as the player sees it.
pub const DISPLAY_HEIGHT_PIXELS: usize = SCREEN_WIDTH_PIXELS;

/// Pixels of one picture: 256 x 224.
pub const SCREEN_SIZE_PIXELS: usize = 57344;

/// Bytes of each pixel of a display frame: red, green, blue, alpha.
pub const DISPLAY_PIXEL_SIZE: usize = 4;

/// Bytes of one display frame: four for each pixel.
pub const DISPLAY_BUFFER_SIZE: usize = 229376;

/// One frame period in nanoseconds, a sixtieth of a second rounded up.
pub const DISPLAY_TIME_NANO_SEC: u64 = 16_666_667;

/// Frames in a second, at the nominal rate.
pub const FRAMES_PER_SECOND: u64 = 60;

/// Emulated time from the start of a frame to its mid-frame interrupt.
pub const MID_FRAME_NANO_SEC: u64 = 7_142_857;

/// Bytes of the program store.
pub const ROM_SIZE: usize = 0x2000;

/// Bytes of the working store.
pub const RAM_SIZE: usize = 0x400;

/// Bytes of the video store, eight pixels in each.
pub const VRAM_SIZE: usize = 0x1C00;

/// First address of the program store.
pub const ROM_START: usize = 0;

/// First address of the working store.
pub const RAM_START: usize = 0x2000;

/// First address of the video store.
pub const VRAM_START: usize = 0x2400;

/// The address after the program store.
pub const ROM_END: usize = 0x2000;

/// The address after the working store.
pub const RAM_END: usize = 0x2400;

/// The address after the video store, which is also the size of the
/// window that every address is folded into.
pub const VRAM_END: usize = 0x4000;

/// The 14 address lines that the board decodes.
pub const RAM_MASK: usize = 0x3FFF;

} // verus!
