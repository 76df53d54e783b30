use vstd::prelude::*;

verus! {

pub const WIDTH: usize = 256;
pub const HEIGHT: usize = 240;
/// RGB, one byte per channel.
pub const FRAME_BYTES: usize = 184320;

/// Where the three bytes of pixel (x, y) start.
pub open spec fn pixel_base(x: int, y: int) -> int {
    (y * WIDTH + x) * 3
}

pub open spec fn on_screen(x: int, y: int) -> bool {
    0 <= x < WIDTH && 0 <= y < HEIGHT
}

/// The colour of pixel (x, y) in an RGB buffer.
pub open spec fn pixel_at(pixels: Seq<u8>, x: int, y: int) -> (u8, u8, u8) {
    let base = pixel_base(x, y);
    (pixels[base], pixels[base + 1], pixels[base + 2])
}

/// A 256x240 picture, row by row, three bytes per pixel.
pub struct Frame {
    pub pixel: Vec<u8>,
}

impl Frame {
    pub fn new() -> (frame: Self)
        ensures
            frame.pixel@ == Seq::new(FRAME_BYTES as nat, |i: int| 0u8),
    {
        let frame = Frame { pixel: vec![0u8; FRAME_BYTES] };
        assert(frame.pixel@ =~= Seq::new(FRAME_BYTES as nat, |i: int| 0u8));
        frame
    }

    /// Paints one pixel.  Pixels off the screen (the parts of sprites that
    /// cross its edge) are dropped.
    pub fn set_pixel(&mut self, x: usize, y: usize, rgb: (u8, u8, u8))
        requires
            old(self).pixel@.len() == FRAME_BYTES,
        ensures
            final(self).pixel@.len() == FRAME_BYTES,
            on_screen(x as int, y as int) ==> final(self).pixel@ == old(self).pixel@.update(
                pixel_base(x as int, y as int),
                rgb.0,
            ).update(pixel_base(x as int, y as int) + 1, rgb.1).update(
                pixel_base(x as int, y as int) + 2,
                rgb.2,
            ),
            !on_screen(x as int, y as int) ==> final(self).pixel@ == old(self).pixel@,
    {
        if x >= WIDTH || y >= HEIGHT {
            return;
        }
        let base = (y * WIDTH + x) * 3;
        self.pixel.set(base, rgb.0);
        self.pixel.set(base + 1, rgb.1);
        self.pixel.set(base + 2, rgb.2);
    }
}

/// Painting a pixel changes that pixel and no other.
pub proof fn law_set_pixel(pixels: Seq<u8>, x: int, y: int, rgb: (u8, u8, u8), px: int, py: int)
    requires
        pixels.len() == FRAME_BYTES,
        on_screen(x, y),
        on_screen(px, py),
    ensures
        pixel_at(
            pixels.update(pixel_base(x, y), rgb.0).update(pixel_base(x, y) + 1, rgb.1).update(
                pixel_base(x, y) + 2,
                rgb.2,
            ),
            px,
            py,
        ) == if px == x && py == y {
            rgb
        } else {
            pixel_at(pixels, px, py)
        },
{
}

} // verus!
