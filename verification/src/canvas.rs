use vstd::prelude::*;

use crate::pixel::{blend_argb, blend_value};

verus! {

/// Width and height of the tray icon, in pixels.
pub const ICON_SIZE: usize = 32;

/// Number of pixels of the tray icon.
pub const ICON_PIXELS: usize = 1024;

/// Whether `(x, y)` lies on the icon.
pub open spec fn on_icon(x: int, y: int) -> bool {
    0 <= x < ICON_SIZE && 0 <= y < ICON_SIZE
}

/// Row-major position of the pixel `(x, y)`.
pub open spec fn pixel_index(x: int, y: int) -> int {
    y * ICON_SIZE + x
}

/// `pixels` with the pixel at `(x, y)` made `color`; unchanged where
/// `(x, y)` lies off the icon.
pub open spec fn put_pixel(pixels: Seq<u32>, x: int, y: int, color: u32) -> Seq<u32> {
    if on_icon(x, y) {
        pixels.update(pixel_index(x, y), color)
    } else {
        pixels
    }
}

/// `pixels` with `src` drawn over the pixel at `(x, y)`; unchanged where
/// `(x, y)` lies off the icon.
pub open spec fn blend_at(pixels: Seq<u32>, x: int, y: int, src: u32) -> Seq<u32> {
    put_pixel(pixels, x, y, blend_value(pixels[pixel_index(x, y)], src))
}

/// The pixels of a blank icon: all fully transparent black.
pub open spec fn blank_pixels() -> Seq<u32> {
    Seq::new(ICON_PIXELS as nat, |i: int| 0u32)
}

/// Setting a pixel on the icon makes it that colour and leaves every other
/// pixel as it was; off the icon nothing changes.
pub proof fn lemma_put_pixel(pixels: Seq<u32>, x: int, y: int, color: u32)
    requires
        pixels.len() == ICON_PIXELS,
    ensures
        put_pixel(pixels, x, y, color).len() == ICON_PIXELS,
        on_icon(x, y) ==> put_pixel(pixels, x, y, color)[pixel_index(x, y)] == color,
        forall|i: int|
            0 <= i < ICON_PIXELS && (!on_icon(x, y) || i != pixel_index(x, y)) ==> #[trigger] put_pixel(
                pixels,
                x,
                y,
                color,
            )[i] == pixels[i],
{
}

/// A 32x32 ARGB image, stored row by row.
pub struct Canvas {
    pub pixels: [u32; ICON_PIXELS],
}

impl Canvas {
    /// A blank canvas.
    pub fn new() -> (canvas: Canvas)
        ensures
            canvas.pixels@ == blank_pixels(),
    {
        let canvas = Canvas { pixels: [0u32; 1024] };
        assert(canvas.pixels@ =~= blank_pixels());
        canvas
    }

    /// Draws `src` over the pixel at `(x, y)`; does nothing off the icon.
    pub fn blend_pixel(&mut self, x: i32, y: i32, src: u32)
        ensures
            final(self).pixels@ == blend_at(old(self).pixels@, x as int, y as int, src),
    {
        if x < 0 || y < 0 || x >= 32 || y >= 32 {
            return;
        }
        let index = y as usize * ICON_SIZE + x as usize;
        self.pixels[index] = blend_argb(self.pixels[index], src);
    }

    /// Makes the pixel at `(x, y)` the colour `color`; does nothing off the
    /// icon.
    pub fn set_pixel(&mut self, x: i32, y: i32, color: u32)
        ensures
            final(self).pixels@ == put_pixel(old(self).pixels@, x as int, y as int, color),
    {
        if x < 0 || y < 0 || x >= 32 || y >= 32 {
            return;
        }
        let index = y as usize * ICON_SIZE + x as usize;
        self.pixels[index] = color;
    }
}

} // verus!
