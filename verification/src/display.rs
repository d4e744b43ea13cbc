//! Display geometry and the pixel converter.
//!
//! The console core hands over each finished frame as packed 32-bit pixels,
//! row by row. The display surface wants four bytes per pixel. The
//! [`PixelBuffer`] owns those bytes and rewrites all of them on every frame.

use vstd::prelude::*;
use crate::engine::{screen_height, screen_width};

verus! {

/// Pixels in one row of the picture.
pub const WIDTH: usize = 256;

/// Rows in the picture.
pub const HEIGHT: usize = 240;

/// Pixels in one frame.
pub const FRAME_PIXELS: usize = 61_440;

/// Bytes in the display buffer: four for each pixel.
pub const DISPLAY_BYTES: usize = 245_760;

/// The alpha channel of a packed pixel: bits 24 to 31.
pub open spec fn alpha(pixel: u32) -> u8 {
    ((pixel >> 24) & 0xff) as u8
}

/// The red channel of a packed pixel: bits 16 to 23.
pub open spec fn red(pixel: u32) -> u8 {
    ((pixel >> 16) & 0xff) as u8
}

/// The green channel of a packed pixel: bits 8 to 15.
pub open spec fn green(pixel: u32) -> u8 {
    ((pixel >> 8) & 0xff) as u8
}

/// The blue channel of a packed pixel: bits 0 to 7.
pub open spec fn blue(pixel: u32) -> u8 {
    (pixel & 0xff) as u8
}

/// The byte at position `k` of the display buffer made from `pixels`:
/// pixel `k / 4` contributes blue, red, green and alpha, in that order.
pub open spec fn display_byte(pixels: Seq<u32>, k: int) -> u8 {
    let pixel = pixels[k / 4];
    if k % 4 == 0 {
        blue(pixel)
    } else if k % 4 == 1 {
        red(pixel)
    } else if k % 4 == 2 {
        green(pixel)
    } else {
        alpha(pixel)
    }
}

/// The whole display buffer made from `pixels`.
pub open spec fn display_bytes(pixels: Seq<u32>) -> Seq<u8> {
    Seq::new(4 * pixels.len(), |k: int| display_byte(pixels, k))
}

/// The display buffer holds four bytes for each pixel, and pixel `i` fills
/// bytes `4 * i` to `4 * i + 3` with its blue, red, green and alpha channels.
pub proof fn lemma_display_layout(pixels: Seq<u32>, i: int)
    requires
        0 <= i < pixels.len(),
    ensures
        display_bytes(pixels).len() == 4 * pixels.len(),
        display_bytes(pixels)[4 * i] == blue(pixels[i]),
        display_bytes(pixels)[4 * i + 1] == red(pixels[i]),
        display_bytes(pixels)[4 * i + 2] == green(pixels[i]),
        display_bytes(pixels)[4 * i + 3] == alpha(pixels[i]),
{
}

/// The frame counter after one more frame; it wraps around at `u32::MAX`.
pub open spec fn next_frame_count(count: u32) -> u32 {
    if count == u32::MAX {
        0
    } else {
        (count + 1) as u32
    }
}

/// Height of the picture in pixels.
pub fn height() -> (h: u32)
    ensures
        h == HEIGHT,
{
    screen_height() as u32
}

/// Width of the picture in pixels.
pub fn width() -> (w: u32)
    ensures
        w == WIDTH,
{
    screen_width() as u32
}

/// Splits a packed pixel into its four bytes in display order.
pub fn display_order(pixel: u32) -> (bytes: (u8, u8, u8, u8))
    ensures
        bytes.0 == blue(pixel),
        bytes.1 == red(pixel),
        bytes.2 == green(pixel),
        bytes.3 == alpha(pixel),
{
    assert((pixel >> 24) & 0xff < 256) by (bit_vector);
    assert((pixel >> 16) & 0xff < 256) by (bit_vector);
    assert((pixel >> 8) & 0xff < 256) by (bit_vector);
    assert(pixel & 0xff < 256) by (bit_vector);
    (
        (pixel & 0xff) as u8,
        ((pixel >> 16) & 0xff) as u8,
        ((pixel >> 8) & 0xff) as u8,
        ((pixel >> 24) & 0xff) as u8,
    )
}

/// The display buffer together with a count of the frames written to it.
pub struct PixelBuffer {
    frame_count: u32,
    buf: Vec<u8>,
}

impl View for PixelBuffer {
    type V = Seq<u8>;

    /// The bytes of the display buffer.
    closed spec fn view(&self) -> Seq<u8> {
        self.buf@
    }
}

impl PixelBuffer {
    #[verifier::type_invariant]
    spec fn well_formed(self) -> bool {
        self.buf@.len() == DISPLAY_BYTES
    }

    /// How many frames have been written, modulo 2^32.
    pub closed spec fn frames(self) -> u32 {
        self.frame_count
    }

    /// A buffer of zero bytes that no frame has been written to.
    pub fn new() -> (buffer: Self)
        ensures
            buffer@ == Seq::new(DISPLAY_BYTES as nat, |k: int| 0u8),
            buffer.frames() == 0,
    {
        let rows: usize = screen_height();
        let columns: usize = screen_width();
        let buf = vec![0u8; 4 * rows * columns];
        assert(buf@ =~= Seq::new(DISPLAY_BYTES as nat, |k: int| 0u8));
        PixelBuffer { frame_count: 0, buf }
    }

    /// Number of frames written so far, modulo 2^32.
    pub fn frame_count(&self) -> (count: u32)
        ensures
            count == self.frames(),
    {
        self.frame_count
    }

    /// The display bytes, ready to hand to the display surface.
    pub fn as_bytes(&self) -> (bytes: &[u8])
        ensures
            bytes@ == self@,
            bytes@.len() == DISPLAY_BYTES,
    {
        proof {
            use_type_invariant(self);
        }
        self.buf.as_slice()
    }

    /// Converts one finished frame into the display buffer, overwriting every
    /// byte of it, and counts the frame.
    pub fn blit_pixels(&mut self, pixels: &[u32])
        requires
            pixels@.len() == FRAME_PIXELS,
        ensures
            final(self)@ == display_bytes(pixels@),
            final(self).frames() == next_frame_count(old(self).frames()),
    {
        proof {
            use_type_invariant(&*self);
        }
        self.frame_count = if self.frame_count == u32::MAX {
            0
        } else {
            self.frame_count + 1
        };
        let mut i: usize = 0;
        while i < pixels.len()
            invariant
                i <= pixels@.len(),
                pixels@.len() == FRAME_PIXELS,
                self.buf@.len() == DISPLAY_BYTES,
                self.frame_count == next_frame_count(old(self).frame_count),
                forall|k: int| 0 <= k < 4 * i ==> self.buf@[k] == display_byte(pixels@, k),
            decreases pixels@.len() - i,
        {
            let (b0, b1, b2, b3) = display_order(pixels[i]);
            let base: usize = 4 * i;
            self.buf[base] = b0;
            self.buf[base + 1] = b1;
            self.buf[base + 2] = b2;
            self.buf[base + 3] = b3;
            i += 1;
        }
        assert(self.buf@ =~= display_bytes(pixels@));
    }
}

} // verus!
