use space_invaders::display::{black_frame, convert, display_pixel_address, paint_byte, sample_byte};
use space_invaders::layout::{
    DISPLAY_BUFFER_SIZE, DISPLAY_HEIGHT_PIXELS, DISPLAY_WIDTH_PIXELS, ROM_SIZE,
    SCREEN_SIZE_PIXELS, VRAM_SIZE,
};
use space_invaders::memory::SpaceInvadersMemory;

const WHITE: [u8; 4] = [0xFF, 0xFF, 0xFF, 0xFF];
const BLACK: [u8; 4] = [0x00, 0x00, 0x00, 0xFF];

fn expect_single_white_pixel(frame: &[u8], place: usize) {
    assert_eq!(frame.len(), DISPLAY_BUFFER_SIZE);
    let mut white = 0;
    for (at, pixel) in frame.chunks(4).enumerate() {
        if at == place {
            assert_eq!(pixel, WHITE);
            white += 1;
        } else {
            assert_eq!(pixel, BLACK);
        }
    }
    assert_eq!(white, 1);
}

#[test]
fn the_display_is_the_screen_turned_by_a_quarter() {
    assert_eq!(DISPLAY_WIDTH_PIXELS, 224);
    assert_eq!(DISPLAY_HEIGHT_PIXELS, 256);
    assert_eq!(SCREEN_SIZE_PIXELS, 256 * 224);
    assert_eq!(DISPLAY_BUFFER_SIZE, 256 * 224 * 4);
    assert_eq!(VRAM_SIZE * 8, SCREEN_SIZE_PIXELS);
}

#[test]
fn the_first_video_bit_is_the_bottom_left_pixel() {
    let mut video = [0u8; VRAM_SIZE];
    video[0] = 0b0000_0001;
    let frame = convert(&video);
    expect_single_white_pixel(&frame, 255 * DISPLAY_WIDTH_PIXELS);
}

#[test]
fn the_last_video_bit_is_the_top_right_pixel() {
    let mut video = [0u8; VRAM_SIZE];
    video[VRAM_SIZE - 1] = 0b1000_0000;
    let frame = convert(&video);
    expect_single_white_pixel(&frame, DISPLAY_WIDTH_PIXELS - 1);
}

#[test]
fn a_single_bit_in_the_middle_gives_a_single_white_pixel() {
    // Video byte 0x0A45, bit 3: pixel 8 * 0x0A45 + 3 = 21035 of the store,
    // that is place 43 of line 82, which the monitor shows in column 82 of
    // row 255 - 43.
    let mut video = [0u8; VRAM_SIZE];
    video[0x0A45] = 0b0000_1000;
    let frame = convert(&video);
    expect_single_white_pixel(&frame, (255 - 43) * 224 + 82);
    assert_eq!(display_pixel_address(0x0A45, 3), (255 - 43) * 224 + 82);
}

#[test]
fn conversion_is_repeatable() {
    let mut video = [0u8; VRAM_SIZE];
    for (i, byte) in video.iter_mut().enumerate() {
        *byte = ((i * 7) ^ (i >> 3)) as u8;
    }
    let first = convert(&video);
    let second = convert(&video);
    assert_eq!(first, second);
    assert_eq!(first.len(), DISPLAY_BUFFER_SIZE);
}

#[test]
fn every_pixel_of_a_frame_is_white_or_black_after_its_bit() {
    let mut video = [0u8; VRAM_SIZE];
    for (i, byte) in video.iter_mut().enumerate() {
        *byte = (i as u8).wrapping_mul(31).wrapping_add(7);
    }
    let frame = convert(&video);
    for p in 0..SCREEN_SIZE_PIXELS {
        let lit = (video[p / 8] >> (p % 8)) & 1 == 1;
        let place = (255 - p % 256) * 224 + p / 256;
        let pixel = &frame[4 * place..4 * place + 4];
        assert_eq!(pixel, if lit { WHITE } else { BLACK });
    }
}

#[test]
fn the_frame_of_the_memory_is_the_conversion_of_its_video_store() {
    let mut memory = SpaceInvadersMemory::new([0u8; ROM_SIZE]);
    let mut video = [0u8; VRAM_SIZE];
    for address in (0..VRAM_SIZE).step_by(5) {
        let value = (address as u8) ^ 0xC3;
        video[address] = value;
        memory.write_vram(address, value);
    }
    assert_eq!(memory.frame(), &convert(&video));
}

#[test]
fn a_blank_store_converts_to_the_black_frame() {
    let frame = black_frame();
    assert_eq!(frame.len(), DISPLAY_BUFFER_SIZE);
    assert!(frame.chunks(4).all(|pixel| pixel == BLACK));
    assert_eq!(convert(&[0u8; VRAM_SIZE]), frame);
}

#[test]
fn paint_byte_changes_the_pixels_of_its_byte_only() {
    let mut frame = black_frame();
    paint_byte(&mut frame, 100, 0xFF);
    paint_byte(&mut frame, 101, 0b0101_0101);
    let mut expected = black_frame();
    for bit in 0..8u8 {
        let place = display_pixel_address(100, bit);
        expected[4 * place..4 * place + 4].copy_from_slice(&WHITE);
    }
    for bit in [0u8, 2, 4, 6] {
        let place = display_pixel_address(101, bit);
        expected[4 * place..4 * place + 4].copy_from_slice(&WHITE);
    }
    assert_eq!(frame, expected);
    paint_byte(&mut frame, 100, 0x00);
    paint_byte(&mut frame, 101, 0x00);
    assert_eq!(frame, black_frame());
}

#[test]
fn sample_byte_reads_back_what_was_painted() {
    let mut frame = black_frame();
    for address in [0usize, 1, 31, 32, 4000, VRAM_SIZE - 1] {
        let value = (address as u8) | 0x81;
        paint_byte(&mut frame, address, value);
        assert_eq!(sample_byte(&frame, address), value);
    }
    assert_eq!(sample_byte(&frame, 2), 0);
}

#[test]
fn sample_byte_takes_any_nonzero_first_byte_as_lit() {
    let mut frame = black_frame();
    let place = display_pixel_address(7, 5);
    frame[4 * place] = 0x01;
    assert_eq!(sample_byte(&frame, 7), 0b0010_0000);
}

#[test]
fn the_eight_bits_of_a_byte_stand_in_one_column() {
    for address in [0usize, 31, 32, 1000, VRAM_SIZE - 1] {
        let first = display_pixel_address(address, 0);
        for bit in 1..8u8 {
            assert_eq!(display_pixel_address(address, bit), first - bit as usize * 224);
        }
    }
}
