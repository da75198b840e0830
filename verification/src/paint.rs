//! Shapes drawn onto a frame's buffer by the `imageproc` crate.

use crate::frame::{pixel_in, Rgba};
use vstd::prelude::*;

verus! {

/// Largest magnitude of a coordinate that is handed to the drawing routines.
pub const COORD_LIMIT: i32 = 0x4000_0000;

/// Largest radius of a disc that is handed to the drawing routines.
pub const RADIUS_LIMIT: i32 = 0x0010_0000;

/// The buffer of a `width` by `height` frame after `imageproc` has drawn onto `pixels` a
/// disc of `radius` pixels around `(cx, cy)` in the colour `(r, g, b, a)`.
pub uninterp spec fn disc_painted(
    width: u32,
    height: u32,
    pixels: Seq<u8>,
    cx: int,
    cy: int,
    radius: int,
    r: u8,
    g: u8,
    b: u8,
    a: u8,
) -> Seq<u8>;

/// What is plain of a disc drawn on a frame, whatever its exact outline. Of every pixel
/// of the frame: it is as it was or has the disc's colour; outside the square that
/// reaches `radius` from the centre each way it is as it was; and on the row through the
/// centre, within `radius` of the centre, it has the colour.
pub open spec fn disc_drawn(
    width: u32,
    height: u32,
    before: Seq<u8>,
    after: Seq<u8>,
    cx: int,
    cy: int,
    radius: int,
    color: Rgba,
) -> bool {
    forall|x: int, y: int|
        0 <= x < width && 0 <= y < height ==> {
            let was = pixel_in(width, before, x, y);
            let now = #[trigger] pixel_in(width, after, x, y);
            &&& now == was || now == color
            &&& (x < cx - radius || x > cx + radius || y < cy - radius || y > cy + radius)
                ==> now == was
            &&& (y == cy && cx - radius <= x <= cx + radius) ==> now == color
        }
}

/// Whether `(x, y)` lies on the border of the upright rectangle whose corner pixels are
/// `(left, top)` and `(right, bottom)`.
pub open spec fn on_outline(x: int, y: int, left: int, top: int, right: int, bottom: int) -> bool {
    &&& left <= x <= right
    &&& top <= y <= bottom
    &&& (x == left || x == right || y == top || y == bottom)
}

/// The buffer of a frame `width` pixels wide after the border of a rectangle has been drawn
/// onto `pixels` in `color`: the pixels of the border that lie inside the frame take the
/// colour, every other byte stays.
pub open spec fn outline_painted(
    width: u32,
    pixels: Seq<u8>,
    left: int,
    top: int,
    right: int,
    bottom: int,
    color: Rgba,
) -> Seq<u8> {
    Seq::new(
        pixels.len(),
        |k: int|
            if on_outline((k / 4) % (width as int), (k / 4) / (width as int), left, top, right, bottom) {
                color.channel(k % 4)
            } else {
                pixels[k]
            },
    )
}

/// Calls `imageproc::drawing::draw_filled_ellipse_mut` with both radii equal to `radius`,
/// on the buffer taken as an `image::RgbaImage` of `width` by `height` pixels.
///
/// Believed of it: the drawing depends on nothing but these arguments, and it leaves the
/// buffer at its length. The routine draws the disc as horizontal runs of pixels in the
/// one colour, each within `radius` of the centre across and down and the first of them
/// through the centre from end to end, and skips what lies outside the image. The bounds
/// keep its 32-bit coordinate arithmetic from overflowing and its conversion of
/// coordinates exact for every pixel of the image.
#[verifier::external_body]
pub(crate) fn paint_disc(
    width: u32,
    height: u32,
    pixels: &mut Vec<u8>,
    cx: i32,
    cy: i32,
    radius: i32,
    color: Rgba,
)
    requires
        old(pixels)@.len() == width * height * 4,
        width <= 0x0100_0000,
        height <= 0x0100_0000,
        0 <= radius <= RADIUS_LIMIT,
        -COORD_LIMIT <= cx <= COORD_LIMIT,
        -COORD_LIMIT <= cy <= COORD_LIMIT,
    ensures
        final(pixels)@ == disc_painted(
            width,
            height,
            old(pixels)@,
            cx as int,
            cy as int,
            radius as int,
            color.r,
            color.g,
            color.b,
            color.a,
        ),
        final(pixels)@.len() == old(pixels)@.len(),
        disc_drawn(
            width,
            height,
            old(pixels)@,
            final(pixels)@,
            cx as int,
            cy as int,
            radius as int,
            color,
        ),
{
    let mut canvas = image::RgbaImage::from_raw(width, height, std::mem::take(pixels)).unwrap();
    let ink = image::Rgba([color.r, color.g, color.b, color.a]);
    imageproc::drawing::draw_filled_ellipse_mut(&mut canvas, (cx, cy), radius, radius, ink);
    *pixels = canvas.into_raw();
}

/// Calls `imageproc::drawing::draw_hollow_rect_mut` for the rectangle of `wide` by `high`
/// pixels whose top left pixel is `(left, top)`, on the buffer taken as an
/// `image::RgbaImage` of `width` by `height` pixels.
///
/// Believed of it: it draws the four sides of the rectangle, each a horizontal or vertical
/// run of pixels from corner to corner, skips what lies outside the image and touches
/// nothing else. The bounds keep its 32-bit coordinate arithmetic from overflowing and its
/// conversion of coordinates exact for every pixel of the image.
#[verifier::external_body]
pub(crate) fn paint_outline(
    width: u32,
    height: u32,
    pixels: &mut Vec<u8>,
    left: i32,
    top: i32,
    wide: u32,
    high: u32,
    color: Rgba,
)
    requires
        old(pixels)@.len() == width * height * 4,
        width <= 0x0100_0000,
        height <= 0x0100_0000,
        1 <= wide <= COORD_LIMIT,
        1 <= high <= COORD_LIMIT,
        -COORD_LIMIT <= left,
        left + wide - 1 <= COORD_LIMIT,
        -COORD_LIMIT <= top,
        top + high - 1 <= COORD_LIMIT,
    ensures
        final(pixels)@ == outline_painted(
            width,
            old(pixels)@,
            left as int,
            top as int,
            left + wide - 1,
            top + high - 1,
            color,
        ),
{
    let mut canvas = image::RgbaImage::from_raw(width, height, std::mem::take(pixels)).unwrap();
    let ink = image::Rgba([color.r, color.g, color.b, color.a]);
    let border = imageproc::rect::Rect::at(left, top).of_size(wide, high);
    imageproc::drawing::draw_hollow_rect_mut(&mut canvas, border, ink);
    *pixels = canvas.into_raw();
}

} // verus!
