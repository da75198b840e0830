//! Pixel buffers: a frame of four-channel pixels and an image of three-channel pixels.

use vstd::prelude::*;

verus! {

/// Largest width or height of a frame. The drawing routines carry pixel coordinates in
/// single precision, which is exact for every pixel of a frame up to this size.
pub const MAX_EXTENT: u32 = 0x0100_0000;

/// Channels of a frame pixel: red, green, blue, alpha.
pub const RGBA_CHANNELS: usize = 4;

/// One pixel with an alpha channel.
#[derive(Clone, Copy, Debug, PartialEq, Eq, Structural)]
pub struct Rgba {
    pub r: u8,
    pub g: u8,
    pub b: u8,
    pub a: u8,
}

impl Rgba {
    /// The channel of this pixel that is stored at offset `channel`.
    pub open spec fn channel(self, channel: int) -> u8 {
        if channel == 0 {
            self.r
        } else if channel == 1 {
            self.g
        } else if channel == 2 {
            self.b
        } else {
            self.a
        }
    }
}

/// Whether a buffer of `channels` bytes per pixel for `width` by `height` pixels can exist.
pub open spec fn extent_fits(width: u32, height: u32, channels: int) -> bool {
    &&& width <= MAX_EXTENT
    &&& height <= MAX_EXTENT
    &&& width * height * channels <= usize::MAX
}

/// The buffer of a `width` by `height` frame whose every pixel is `color`.
pub open spec fn uniform_pixels(width: u32, height: u32, color: Rgba) -> Seq<u8> {
    Seq::new((width * height * 4) as nat, |k: int| color.channel(k % 4))
}

/// Index of the first byte of pixel `(x, y)` in a row-major buffer.
pub open spec fn offset_of(width: u32, x: int, y: int, channels: int) -> int {
    (y * width + x) * channels
}

/// The pixel at column `x` of row `y` in the buffer of a frame `width` pixels wide.
pub open spec fn pixel_in(width: u32, pixels: Seq<u8>, x: int, y: int) -> Rgba {
    let at = offset_of(width, x, y, 4);
    Rgba { r: pixels[at], g: pixels[at + 1], b: pixels[at + 2], a: pixels[at + 3] }
}

/// A pixel inside the buffer starts, with all its channels, before the buffer's end.
pub proof fn lemma_offset_in_range(width: u32, height: u32, x: int, y: int, channels: int)
    requires
        0 <= x < width,
        0 <= y < height,
        channels > 0,
    ensures
        0 <= offset_of(width, x, y, channels),
        offset_of(width, x, y, channels) + channels <= width * height * channels,
        0 <= y * width + x < width * height,
{
    assert(0 <= y * width + x < width * height) by (nonlinear_arith)
        requires
            0 <= x < width,
            0 <= y < height,
    ;
    let p = y * width + x;
    let n = width * height;
    assert(p * channels + channels <= n * channels && 0 <= p * channels) by (nonlinear_arith)
        requires
            0 <= p < n,
            channels > 0,
    ;
}

/// Two different pixels start at least one pixel apart.
pub proof fn lemma_offsets_apart(width: u32, x1: int, y1: int, x2: int, y2: int, channels: int)
    requires
        0 <= x1 < width,
        0 <= x2 < width,
        0 <= y1,
        0 <= y2,
        channels > 0,
        x1 != x2 || y1 != y2,
    ensures
        offset_of(width, x1, y1, channels) + channels <= offset_of(width, x2, y2, channels)
            || offset_of(width, x2, y2, channels) + channels <= offset_of(width, x1, y1, channels),
{
    let first = y1 * width + x1;
    let second = y2 * width + x2;
    assert(first != second) by (nonlinear_arith)
        requires
            0 <= x1 < width,
            0 <= x2 < width,
            0 <= y1,
            0 <= y2,
            x1 != x2 || y1 != y2,
            first == y1 * width + x1,
            second == y2 * width + x2,
    ;
    assert(first * channels + channels <= second * channels || second * channels + channels <= first
        * channels) by (nonlinear_arith)
        requires
            first != second,
            channels > 0,
    ;
}

/// A frame: `width` by `height` pixels of four bytes each, row by row from the top.
#[derive(Debug)]
pub struct Frame {
    pub width: u32,
    pub height: u32,
    pub pixels: Vec<u8>,
}

impl View for Frame {
    type V = Seq<u8>;

    open spec fn view(&self) -> Seq<u8> {
        self.pixels@
    }
}

impl Frame {
    /// The buffer holds exactly the pixels of the frame.
    pub open spec fn wf(&self) -> bool {
        &&& extent_fits(self.width, self.height, 4)
        &&& self.pixels@.len() == self.width * self.height * 4
    }

    /// The pixel at column `x` of row `y`.
    pub open spec fn pixel_at(&self, x: int, y: int) -> Rgba {
        pixel_in(self.width, self@, x, y)
    }

    /// Channel `c` of the pixel at column `x` of row `y`.
    pub open spec fn channel_at(&self, x: int, y: int, c: int) -> u8 {
        self@[offset_of(self.width, x, y, 4) + c]
    }

    /// Every pixel of the frame is `color`.
    pub open spec fn is_uniform(&self, color: Rgba) -> bool {
        forall|k: int| 0 <= k < self@.len() ==> #[trigger] self@[k] == color.channel(k % 4)
    }

    /// A frame of transparent black pixels.
    pub fn new(width: u32, height: u32) -> (frame: Frame)
        requires
            extent_fits(width, height, 4),
        ensures
            frame.wf(),
            frame.width == width,
            frame.height == height,
            frame.is_uniform(Rgba { r: 0, g: 0, b: 0, a: 0 }),
            frame@ == uniform_pixels(width, height, Rgba { r: 0, g: 0, b: 0, a: 0 }),
    {
        let len: usize = byte_len(width, height, RGBA_CHANNELS);
        let pixels: Vec<u8> = vec![0u8; len];
        assert(pixels@ =~= uniform_pixels(width, height, Rgba { r: 0, g: 0, b: 0, a: 0 }));
        Frame { width, height, pixels }
    }

    /// A frame whose every pixel is `color`.
    pub fn filled(width: u32, height: u32, color: Rgba) -> (frame: Frame)
        requires
            extent_fits(width, height, 4),
        ensures
            frame.wf(),
            frame.width == width,
            frame.height == height,
            frame.is_uniform(color),
            frame@ == uniform_pixels(width, height, color),
    {
        let len: usize = byte_len(width, height, RGBA_CHANNELS);
        let mut pixels: Vec<u8> = Vec::with_capacity(len);
        let mut k: usize = 0;
        while k < len
            invariant
                k <= len,
                k % 4 == 0,
                len % 4 == 0,
                pixels@.len() == k,
                forall|j: int| 0 <= j < k ==> #[trigger] pixels@[j] == color.channel(j % 4),
            decreases len - k,
        {
            pixels.push(color.r);
            pixels.push(color.g);
            pixels.push(color.b);
            pixels.push(color.a);
            k = k + 4;
        }
        assert(pixels@ =~= uniform_pixels(width, height, color));
        Frame { width, height, pixels }
    }

    /// A second frame with the same pixels.
    pub fn duplicate(&self) -> (copy: Frame)
        ensures
            copy.width == self.width,
            copy.height == self.height,
            copy@ == self@,
    {
        let pixels: Vec<u8> = self.pixels.clone();
        assert(pixels@ =~= self.pixels@);
        Frame { width: self.width, height: self.height, pixels }
    }

    /// Takes a buffer as a frame, if it holds exactly `width` by `height` pixels.
    pub fn from_raw(width: u32, height: u32, pixels: Vec<u8>) -> (made: Option<Frame>)
        ensures
            made.is_some() <==> extent_fits(width, height, 4) && pixels@.len() == width * height
                * 4,
            made matches Some(frame) ==> frame.wf() && frame.width == width && frame.height
                == height && frame@ == pixels@,
    {
        if width > MAX_EXTENT || height > MAX_EXTENT {
            return None;
        }
        assert(width * height <= 0x0100_0000 * 0x0100_0000) by (nonlinear_arith)
            requires
                width <= 0x0100_0000,
                height <= 0x0100_0000,
        ;
        let area: u64 = width as u64 * height as u64;
        let want: u128 = area as u128 * 4;
        if want != pixels.len() as u128 {
            return None;
        }
        Some(Frame { width, height, pixels })
    }

    /// Gives the buffer back.
    pub fn into_raw(self) -> (pixels: Vec<u8>)
        ensures
            pixels@ == self@,
    {
        self.pixels
    }

    /// Reads the pixel at column `x` of row `y`.
    pub fn get_pixel(&self, x: u32, y: u32) -> (pixel: Rgba)
        requires
            self.wf(),
            x < self.width,
            y < self.height,
        ensures
            pixel == self.pixel_at(x as int, y as int),
    {
        proof {
            lemma_offset_in_range(self.width, self.height, x as int, y as int, 4);
        }
        let at: usize = (y as usize * self.width as usize + x as usize) * 4;
        Rgba {
            r: self.pixels[at],
            g: self.pixels[at + 1],
            b: self.pixels[at + 2],
            a: self.pixels[at + 3],
        }
    }

    /// Writes `color` at column `x` of row `y`; every other pixel stays.
    pub fn put_pixel(&mut self, x: u32, y: u32, color: Rgba)
        requires
            old(self).wf(),
            x < old(self).width,
            y < old(self).height,
        ensures
            final(self).wf(),
            final(self).width == old(self).width,
            final(self).height == old(self).height,
            final(self).pixel_at(x as int, y as int) == color,
            forall|x2: int, y2: int|
                0 <= x2 < old(self).width && 0 <= y2 < old(self).height && (x2 != x || y2 != y)
                    ==> #[trigger] final(self).pixel_at(x2, y2) == old(self).pixel_at(x2, y2),
    {
        proof {
            lemma_offset_in_range(self.width, self.height, x as int, y as int, 4);
        }
        let at: usize = (y as usize * self.width as usize + x as usize) * 4;
        self.pixels.set(at, color.r);
        self.pixels.set(at + 1, color.g);
        self.pixels.set(at + 2, color.b);
        self.pixels.set(at + 3, color.a);
        proof {
            let w = self.width;
            assert forall|x2: int, y2: int|
                0 <= x2 < old(self).width && 0 <= y2 < old(self).height && (x2 != x || y2
                    != y) implies #[trigger] self.pixel_at(x2, y2) == old(self).pixel_at(
                x2,
                y2,
            ) by {
                lemma_offset_in_range(w, old(self).height, x2, y2, 4);
                lemma_offsets_apart(w, x as int, y as int, x2, y2, 4);
            }
        }
    }
}

/// Number of bytes of a `width` by `height` buffer with `channels` bytes per pixel.
pub fn byte_len(width: u32, height: u32, channels: usize) -> (len: usize)
    requires
        0 < channels <= 4,
        extent_fits(width, height, channels as int),
    ensures
        len == width * height * channels,
{
    assert(width * height <= width * height * channels) by (nonlinear_arith)
        requires
            channels >= 1,
            width >= 0,
            height >= 0,
    ;
    width as usize * height as usize * channels
}

/// An image of three-byte pixels, as the encoder takes it.
#[derive(Debug)]
pub struct RgbImage {
    pub width: u32,
    pub height: u32,
    pub pixels: Vec<u8>,
}

impl View for RgbImage {
    type V = Seq<u8>;

    open spec fn view(&self) -> Seq<u8> {
        self.pixels@
    }
}

impl RgbImage {
    /// The buffer holds exactly the pixels of the image.
    pub open spec fn wf(&self) -> bool {
        &&& extent_fits(self.width, self.height, 3)
        &&& self.pixels@.len() == self.width * self.height * 3
    }

    /// Channel `c` of the pixel at column `x` of row `y`.
    pub open spec fn channel_at(&self, x: int, y: int, c: int) -> u8 {
        self@[offset_of(self.width, x, y, 3) + c]
    }

    /// The buffer of the image, row by row.
    pub fn as_raw(&self) -> (pixels: &Vec<u8>)
        ensures
            pixels@ == self@,
    {
        &self.pixels
    }
}

} // verus!
