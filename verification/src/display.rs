//! Screen buffer types used by palette-based applications: an 8-bit indexed
//! frame and the quantization of its RGBA palette down to the display's
//! RGB565 colors.

use vstd::prelude::*;

verus! {

/// A 32-bit palette color, in the byte order palettes store it.
#[derive(Clone, Copy, Debug, PartialEq, Eq, Structural)]
pub struct RGBA {
    /// Blue channel.
    pub b: u8,
    /// Green channel.
    pub g: u8,
    /// Red channel.
    pub r: u8,
    /// Alpha channel.
    pub a: u8,
}

/// Quantize an 8-bit-per-channel palette color to the display's channel
/// widths: red and blue to five bits, green to six.
pub fn quantize_rgb565(c: &RGBA) -> (r: (u8, u8, u8))
    ensures
        r.0 == c.r * 31 / 255,
        r.1 == c.g * 63 / 255,
        r.2 == c.b * 31 / 255,
{
    (
        ((c.r as u16 * 31) / 255) as u8,
        ((c.g as u16 * 63) / 255) as u8,
        ((c.b as u16 * 31) / 255) as u8,
    )
}

/// One 8-bit indexed frame of fixed dimensions.
pub struct ScreenBuffer {
    /// Width in pixels.
    pub width: usize,
    /// Height in pixels.
    pub height: usize,
    /// The pixel bytes, row by row: `width * height` of them.
    pub pixels: Vec<u8>,
}

impl ScreenBuffer {
    /// A buffer holds one byte per pixel of its full extent.
    pub open spec fn wf(self) -> bool {
        self.pixels.len() == self.width * self.height
    }

    /// A zeroed frame of the given dimensions; refused when the pixel count
    /// does not fit in memory.
    pub fn new(width: usize, height: usize) -> (r: Option<ScreenBuffer>)
        ensures
            match r {
                Some(sb) => {
                    &&& sb.wf()
                    &&& sb.width == width
                    &&& sb.height == height
                    &&& sb.pixels@ == Seq::new((width * height) as nat, |i: int| 0u8)
                },
                None => width * height > usize::MAX,
            },
    {
        let size = match width.checked_mul(height) {
            Some(s) => s,
            None => {
                return None;
            },
        };
        let pixels = vec![0u8; size];
        proof {
            assert(pixels@ =~= Seq::new((width * height) as nat, |i: int| 0u8));
        }
        Some(ScreenBuffer { width, height, pixels })
    }

    /// Write one pixel.
    pub fn set_pixel(&mut self, x: usize, y: usize, v: u8)
        requires
            old(self).wf(),
            x < old(self).width,
            y < old(self).height,
        ensures
            final(self).wf(),
            final(self).width == old(self).width,
            final(self).height == old(self).height,
            final(self).pixels@ == old(self).pixels@.update(
                y * old(self).width + x,
                v,
            ),
    {
        proof {
            lemma_pixel_index_in_bounds(self.width as int, self.height as int, x as int, y as int);
        }
        let i = y * self.width + x;
        self.pixels[i] = v;
    }

    /// Read one pixel.
    pub fn get_pixel(&self, x: usize, y: usize) -> (r: u8)
        requires
            self.wf(),
            x < self.width,
            y < self.height,
        ensures
            r == self.pixels@[y * self.width + x],
    {
        proof {
            lemma_pixel_index_in_bounds(self.width as int, self.height as int, x as int, y as int);
        }
        self.pixels[y * self.width + x]
    }
}

/// A pixel's row-major index lies inside its frame.
proof fn lemma_pixel_index_in_bounds(width: int, height: int, x: int, y: int)
    by (nonlinear_arith)
    requires
        0 <= x < width,
        0 <= y < height,
    ensures
        0 <= y * width + x < width * height,
{
}

} // verus!
