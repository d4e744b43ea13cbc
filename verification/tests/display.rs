use nes_avsync::display::{
    display_order, height, width, PixelBuffer, DISPLAY_BYTES, FRAME_PIXELS, HEIGHT, WIDTH,
};

fn frame_of(pixel: u32) -> Vec<u32> {
    vec![pixel; FRAME_PIXELS]
}

#[test]
fn geometry_is_that_of_the_console() {
    assert_eq!(width(), 256);
    assert_eq!(height(), 240);
    assert_eq!(width() as usize, ludus::NES_WIDTH);
    assert_eq!(height() as usize, ludus::NES_HEIGHT);
}

#[test]
fn constants_agree_with_the_geometry() {
    assert_eq!(WIDTH, 256);
    assert_eq!(HEIGHT, 240);
    assert_eq!(FRAME_PIXELS, WIDTH * HEIGHT);
    assert_eq!(DISPLAY_BYTES, 4 * FRAME_PIXELS);
}

#[test]
fn display_order_is_blue_red_green_alpha() {
    assert_eq!(display_order(0x1122_3344), (0x44, 0x22, 0x33, 0x11));
    assert_eq!(display_order(0xFF00_0000), (0x00, 0x00, 0x00, 0xFF));
    assert_eq!(display_order(0x00FF_0000), (0x00, 0xFF, 0x00, 0x00));
    assert_eq!(display_order(0x0000_FF00), (0x00, 0x00, 0xFF, 0x00));
    assert_eq!(display_order(0x0000_00FF), (0xFF, 0x00, 0x00, 0x00));
    assert_eq!(display_order(0), (0, 0, 0, 0));
    assert_eq!(display_order(u32::MAX), (0xFF, 0xFF, 0xFF, 0xFF));
}

#[test]
fn new_buffer_is_blank() {
    let buffer = PixelBuffer::new();
    assert_eq!(buffer.frame_count(), 0);
    assert_eq!(buffer.as_bytes().len(), 4 * 256 * 240);
    assert!(buffer.as_bytes().iter().all(|byte| *byte == 0));
}

#[test]
fn blit_writes_four_bytes_for_each_pixel() {
    let mut buffer = PixelBuffer::new();
    buffer.blit_pixels(&frame_of(0xAABB_CCDD));
    let bytes = buffer.as_bytes();
    assert_eq!(bytes.len(), 4 * FRAME_PIXELS);
    for pixel in bytes.chunks(4) {
        assert_eq!(pixel, &[0xDD, 0xBB, 0xCC, 0xAA]);
    }
}

#[test]
fn blit_keeps_the_pixels_in_their_places() {
    let mut frame = frame_of(0);
    frame[0] = 0x0102_0304;
    frame[1] = 0x0506_0708;
    frame[256] = 0x1112_1314;
    frame[FRAME_PIXELS - 1] = 0xF1F2_F3F4;
    let mut buffer = PixelBuffer::new();
    buffer.blit_pixels(&frame);
    let bytes = buffer.as_bytes();
    assert_eq!(&bytes[0..4], &[0x04, 0x02, 0x03, 0x01]);
    assert_eq!(&bytes[4..8], &[0x08, 0x06, 0x07, 0x05]);
    assert_eq!(&bytes[8..12], &[0, 0, 0, 0]);
    assert_eq!(&bytes[1024..1028], &[0x14, 0x12, 0x13, 0x11]);
    assert_eq!(&bytes[DISPLAY_BYTES - 4..], &[0xF4, 0xF2, 0xF3, 0xF1]);
}

#[test]
fn blit_agrees_with_display_order_on_every_pixel() {
    let frame: Vec<u32> = (0..FRAME_PIXELS as u32)
        .map(|i| i.wrapping_mul(0x9E37_79B9) ^ 0x5A5A_A5A5)
        .collect();
    let mut buffer = PixelBuffer::new();
    buffer.blit_pixels(&frame);
    let bytes = buffer.as_bytes();
    for (i, pixel) in frame.iter().enumerate() {
        let (b0, b1, b2, b3) = display_order(*pixel);
        assert_eq!(&bytes[4 * i..4 * i + 4], &[b0, b1, b2, b3]);
        assert_eq!(b0, *pixel as u8);
        assert_eq!(b1, (*pixel >> 16) as u8);
        assert_eq!(b2, (*pixel >> 8) as u8);
        assert_eq!(b3, (*pixel >> 24) as u8);
    }
}

#[test]
fn blit_overwrites_the_frame_before() {
    let mut buffer = PixelBuffer::new();
    buffer.blit_pixels(&frame_of(0xFFFF_FFFF));
    buffer.blit_pixels(&frame_of(0x0000_0001));
    for pixel in buffer.as_bytes().chunks(4) {
        assert_eq!(pixel, &[1, 0, 0, 0]);
    }
}

#[test]
fn blit_counts_frames() {
    let mut buffer = PixelBuffer::new();
    let frame = frame_of(7);
    for expected in 1..=5u32 {
        buffer.blit_pixels(&frame);
        assert_eq!(buffer.frame_count(), expected);
    }
}

#[test]
fn a_frame_from_the_console_has_the_size_that_blit_wants() {
    let pixels = ludus::PixelBuffer::default();
    let frame: &[u32] = pixels.as_ref();
    assert_eq!(frame.len(), FRAME_PIXELS);
    let mut buffer = PixelBuffer::new();
    buffer.blit_pixels(frame);
    assert_eq!(buffer.frame_count(), 1);
    assert!(buffer.as_bytes().iter().all(|byte| *byte == 0));
}
