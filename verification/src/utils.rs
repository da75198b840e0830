//! From the world to pixels: the projection, the drawing of blocks and balls, and the
//! dropping of the alpha channel before a frame goes to the encoder.

use crate::file_loader::{LocationScale, UserLoc};
use crate::frame::{lemma_offset_in_range, Frame, RgbImage, Rgba, MAX_EXTENT};
use crate::motion::BALL_RADIUS;
use crate::paint::{disc_drawn, disc_painted, outline_painted, paint_disc, paint_outline};
use vstd::prelude::*;

verus! {

/// Pixels per world unit.
pub const SCALE: i64 = 20;

/// The colour of a block's outline: opaque red.
pub open spec fn block_ink() -> Rgba {
    Rgba { r: 255, g: 0, b: 0, a: 255 }
}

/// The colour of a frame before anything is drawn on it: opaque dark grey.
pub open spec fn background_ink() -> Rgba {
    Rgba { r: 15, g: 15, b: 15, a: 255 }
}

/// Division that rounds toward zero, by a positive divisor.
pub open spec fn trunc_div(a: int, b: int) -> int {
    if a >= 0 {
        a / b
    } else {
        -((-a) / b)
    }
}

/// A length of the world in whole pixels, rounded toward zero.
pub open spec fn scaled(length: int) -> int {
    trunc_div(length * SCALE, 1000)
}

/// The pixel coordinate of a ball's centre along one axis of a frame `extent` pixels long:
/// the middle of the frame, moved by the scaled world coordinate.
pub open spec fn pixel_of(coord: int, extent: u32) -> int {
    extent / 2 + scaled(coord)
}

/// The pixel coordinate of one side of a block along one axis. A block reaches `size`
/// from `center` each way, so the side lies at `center + size` where `far` holds and at
/// `center - size` where it does not. The pixel is the middle of the frame moved by the
/// exact scaled coordinate of the side, the sum then rounded toward zero.
pub open spec fn side_pixel(center: int, size: int, far: bool, extent: u32) -> int {
    let side = if far {
        center + size
    } else {
        center - size
    };
    trunc_div(100 * (extent / 2) + 2 * side, 100)
}

/// The origin of the world lies on the middle pixel of the frame, whatever the frame's size.
pub proof fn lemma_origin_at_center(extent: u32)
    ensures
        pixel_of(0, extent) == extent / 2,
        forall|far: bool| #[trigger] side_pixel(0, 0, far, extent) == extent / 2,
{
    let half = (extent / 2) as int;
    assert((100 * half) / 100 == half) by (nonlinear_arith)
        requires
            half >= 0,
    ;
}

/// Blocks and balls share one projection: a block without size lies within one pixel of
/// a ball at the same coordinate, and on the same pixel wherever the coordinate is not
/// negative or is a whole number of pixels from the origin.
pub proof fn lemma_projection_shared(coord: int, far: bool, extent: u32)
    ensures
        coord >= 0 || coord % 50 == 0 ==> side_pixel(coord, 0, far, extent) == pixel_of(
            coord,
            extent,
        ),
        pixel_of(coord, extent) - 1 <= side_pixel(coord, 0, far, extent) <= pixel_of(
            coord,
            extent,
        ),
{
    let half = (extent / 2) as int;
    let sum = 100 * half + 2 * coord;
    if coord >= 0 {
        assert(sum / 100 == half + (coord * 20) / 1000) by (nonlinear_arith)
            requires
                sum == 100 * half + 2 * coord,
                coord >= 0,
                half >= 0,
        ;
    } else {
        let back = -coord;
        assert((back * 20) / 1000 == back / 50) by (nonlinear_arith)
            requires
                back > 0,
        ;
        let q = back / 50;
        let r = back % 50;
        assert(back == 50 * q + r && 0 <= r < 50) by (nonlinear_arith)
            requires
                q == back / 50,
                r == back % 50,
                back > 0,
        ;
        assert(coord % 50 == 0 <==> r == 0) by (nonlinear_arith)
            requires
                coord == -back,
                back == 50 * q + r,
                0 <= r < 50,
        ;
        if sum >= 0 {
            assert(sum / 100 == if r == 0 {
                half - q
            } else {
                half - q - 1
            }) by (nonlinear_arith)
                requires
                    sum == 100 * half - 2 * (50 * q + r),
                    0 <= r < 50,
                    sum >= 0,
            ;
        } else {
            assert((-sum) / 100 == q - half) by (nonlinear_arith)
                requires
                    -sum == 2 * (50 * q + r) - 100 * half,
                    0 <= r < 50,
                    -sum > 0,
            ;
        }
    }
}

/// Quotient rounded toward zero.
pub fn div_toward_zero(a: i64, b: i64) -> (q: i64)
    requires
        b > 0,
        a > i64::MIN,
    ensures
        q == trunc_div(a as int, b as int),
{
    if a >= 0 {
        a / b
    } else {
        -((-a) / b)
    }
}

/// A buffer of four-byte pixels with every fourth byte, the alpha channel, left out.
pub open spec fn without_alpha(pixels: Seq<u8>) -> Seq<u8> {
    Seq::new((pixels.len() / 4 * 3) as nat, |k: int| pixels[(k / 3) * 4 + k % 3])
}

/// Drops the alpha channel: the image has the frame's size and, pixel for pixel, its red,
/// green and blue.
pub fn rgba8_to_rgb8(input: Frame) -> (output: RgbImage)
    requires
        input.wf(),
    ensures
        output.wf(),
        output.width == input.width,
        output.height == input.height,
        output@ == without_alpha(input@),
        forall|x: int, y: int, c: int|
            0 <= x < input.width && 0 <= y < input.height && 0 <= c < 3
                ==> #[trigger] output.channel_at(x, y, c) == input.channel_at(x, y, c),
{
    let width = input.width;
    let height = input.height;
    let count: usize = input.pixels.len() / 4;
    assert(width * height * 3 <= width * height * 4) by (nonlinear_arith)
        requires
            width >= 0,
            height >= 0,
    ;
    let mut pixels: Vec<u8> = Vec::with_capacity(count * 3);
    let mut p: usize = 0;
    while p < count
        invariant
            p <= count,
            count * 4 == input@.len(),
            input@.len() <= usize::MAX,
            pixels@.len() == p * 3,
            forall|k: int| 0 <= k < p * 3 ==> #[trigger] pixels@[k] == input@[(k / 3) * 4 + k % 3],
        decreases count - p,
    {
        pixels.push(input.pixels[p * 4]);
        pixels.push(input.pixels[p * 4 + 1]);
        pixels.push(input.pixels[p * 4 + 2]);
        p = p + 1;
    }
    assert(pixels@ =~= without_alpha(input@));
    let output = RgbImage { width, height, pixels };
    proof {
        assert forall|x: int, y: int, c: int|
            0 <= x < input.width && 0 <= y < input.height && 0 <= c
                < 3 implies #[trigger] output.channel_at(x, y, c) == input.channel_at(x, y, c) by {
            lemma_offset_in_range(input.width, input.height, x, y, 3);
            let q = y * input.width + x;
            assert((q * 3 + c) / 3 == q && (q * 3 + c) % 3 == c) by (nonlinear_arith)
                requires
                    0 <= c < 3,
                    0 <= q,
            ;
        }
    }
    output
}

/// The pixel coordinate of a ball's centre along one axis.
pub fn project(coord: i32, extent: u32) -> (pixel: i32)
    requires
        extent <= MAX_EXTENT,
    ensures
        pixel == pixel_of(coord as int, extent),
        -0x0400_0000 <= pixel <= 0x0400_0000 + 0x0080_0000,
{
    let offset: i64 = div_toward_zero(coord as i64 * SCALE, 1000);
    ((extent / 2) as i64 + offset) as i32
}

/// The pixel coordinate of one side of a block along one axis.
pub fn project_side(center: i32, size: i32, far: bool, extent: u32) -> (pixel: i32)
    requires
        extent <= MAX_EXTENT,
    ensures
        pixel == side_pixel(center as int, size as int, far, extent),
        -0x0800_0000 <= pixel <= 0x0800_0000 + 0x0080_0000,
{
    let side: i64 = if far {
        center as i64 + size as i64
    } else {
        center as i64 - size as i64
    };
    div_toward_zero(100 * ((extent / 2) as i64) + 2 * side, 100) as i32
}

/// The buffer of a `frame_width` by `frame_height` frame after a ball at `user` has been
/// drawn on `pixels`.
pub open spec fn user_painted(
    frame_width: u32,
    frame_height: u32,
    pixels: Seq<u8>,
    user: UserLoc,
    usercol: Rgba,
    width: u32,
    height: u32,
) -> Seq<u8> {
    disc_painted(
        frame_width,
        frame_height,
        pixels,
        pixel_of(user.x as int, width),
        pixel_of(user.y as int, height),
        scaled(BALL_RADIUS as int),
        usercol.r,
        usercol.g,
        usercol.b,
        usercol.a,
    )
}

/// Draws a ball as a filled disc around its projected position, in its own colour. `width`
/// and `height` are the extents that the projection centres on.
///
/// The pixels of the disc are those that the drawing routine gives it. Whatever they are,
/// no pixel further than the radius from the centre, across or down, is touched; a pixel
/// that changes takes the ball's colour; and the row through the centre is drawn from end
/// to end, as far as it lies on the frame.
pub fn draw_user(frame: &mut Frame, user: &UserLoc, usercol: Rgba, width: u32, height: u32)
    requires
        old(frame).wf(),
        width <= MAX_EXTENT,
        height <= MAX_EXTENT,
    ensures
        final(frame).wf(),
        final(frame).width == old(frame).width,
        final(frame).height == old(frame).height,
        final(frame)@ == user_painted(
            old(frame).width,
            old(frame).height,
            old(frame)@,
            *user,
            usercol,
            width,
            height,
        ),
        disc_drawn(
            old(frame).width,
            old(frame).height,
            old(frame)@,
            final(frame)@,
            pixel_of(user.x as int, width),
            pixel_of(user.y as int, height),
            scaled(BALL_RADIUS as int),
            usercol,
        ),
{
    let user_x: i32 = project(user.x, width);
    let user_y: i32 = project(user.y, height);
    let radius: i32 = div_toward_zero(BALL_RADIUS as i64 * SCALE, 1000) as i32;
    paint_disc(frame.width, frame.height, &mut frame.pixels, user_x, user_y, radius, usercol);
}

/// The least of two pixel coordinates.
pub open spec fn lesser(a: int, b: int) -> int {
    if a <= b {
        a
    } else {
        b
    }
}

/// The greatest of two pixel coordinates.
pub open spec fn greater(a: int, b: int) -> int {
    if a <= b {
        b
    } else {
        a
    }
}

/// The buffer of a frame `frame_width` pixels wide after the outline of one block has
/// been drawn on `pixels`. The block is the rectangle that the balls collide with: it is
/// centred on its location and reaches its scale from there each way, so it is twice its
/// scale wide and high.
pub open spec fn block_painted(
    frame_width: u32,
    pixels: Seq<u8>,
    block: LocationScale,
    width: u32,
    height: u32,
) -> Seq<u8> {
    let start_x = side_pixel(block.location.x as int, block.scale.x as int, false, width);
    let end_x = side_pixel(block.location.x as int, block.scale.x as int, true, width);
    let start_y = side_pixel(block.location.y as int, block.scale.y as int, false, height);
    let end_y = side_pixel(block.location.y as int, block.scale.y as int, true, height);
    outline_painted(
        frame_width,
        pixels,
        lesser(start_x, end_x),
        lesser(start_y, end_y),
        greater(start_x, end_x),
        greater(start_y, end_y),
        block_ink(),
    )
}

/// The buffer after the outlines of `blocks` have been drawn on `pixels`, first block first.
pub open spec fn blocks_painted(
    frame_width: u32,
    pixels: Seq<u8>,
    blocks: Seq<LocationScale>,
    width: u32,
    height: u32,
) -> Seq<u8>
    decreases blocks.len(),
{
    if blocks.len() == 0 {
        pixels
    } else {
        block_painted(
            frame_width,
            blocks_painted(frame_width, pixels, blocks.drop_last(), width, height),
            blocks.last(),
            width,
            height,
        )
    }
}

/// Draws the outline of every block, in order, each as the four sides of its rectangle.
/// `width` and `height` are the extents that the projection centres on.
pub fn draw_blocks(frame: &mut Frame, blocks: &Vec<LocationScale>, width: u32, height: u32)
    requires
        old(frame).wf(),
        width <= MAX_EXTENT,
        height <= MAX_EXTENT,
    ensures
        final(frame).wf(),
        final(frame).width == old(frame).width,
        final(frame).height == old(frame).height,
        final(frame)@ == blocks_painted(old(frame).width, old(frame)@, blocks@, width, height),
{
    let blockcol = Rgba { r: 255, g: 0, b: 0, a: 255 };
    let mut i: usize = 0;
    while i < blocks.len()
        invariant
            i <= blocks@.len(),
            frame.wf(),
            frame.width == old(frame).width,
            frame.height == old(frame).height,
            width <= MAX_EXTENT,
            height <= MAX_EXTENT,
            blockcol == block_ink(),
            frame@ == blocks_painted(
                old(frame).width,
                old(frame)@,
                blocks@.subrange(0, i as int),
                width,
                height,
            ),
        decreases blocks@.len() - i,
    {
        let block = &blocks[i];
        let start_x: i32 = project_side(block.location.x, block.scale.x, false, width);
        let end_x: i32 = project_side(block.location.x, block.scale.x, true, width);
        let start_y: i32 = project_side(block.location.y, block.scale.y, false, height);
        let end_y: i32 = project_side(block.location.y, block.scale.y, true, height);
        let left: i32 = if start_x <= end_x {
            start_x
        } else {
            end_x
        };
        let right: i32 = if start_x <= end_x {
            end_x
        } else {
            start_x
        };
        let top: i32 = if start_y <= end_y {
            start_y
        } else {
            end_y
        };
        let bottom: i32 = if start_y <= end_y {
            end_y
        } else {
            start_y
        };
        let wide: u32 = (right - left + 1) as u32;
        let high: u32 = (bottom - top + 1) as u32;
        paint_outline(frame.width, frame.height, &mut frame.pixels, left, top, wide, high, blockcol);
        proof {
            let done = blocks@.subrange(0, i as int + 1);
            assert(done.drop_last() =~= blocks@.subrange(0, i as int));
            assert(done.last() == blocks@[i as int]);
        }
        i = i + 1;
    }
    assert(blocks@.subrange(0, i as int) =~= blocks@);
}

} // verus!
