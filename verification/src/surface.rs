//! The pixel surface: its fixed dimensions, the per-frame draw hook and
//! the fixed-interval update hook.
//!
//! The surface is an off-screen RGBA byte buffer at a fixed logical
//! resolution, independent of the window's size. Its one invariant is
//! that the buffer holds exactly `width * height * 4` bytes.

use vstd::prelude::*;

verus! {

/// Logical width of the window at startup, before display scaling.
pub const WIN_WIDTH: u32 = 640;

/// Logical height of the window at startup, before display scaling.
pub const WIN_HEIGHT: u32 = 480;

/// Width of the pixel surface, in surface pixels. The window's minimum
/// size floor equals the surface's logical dimensions.
pub const PIX_WIDTH: u32 = 320;

/// Height of the pixel surface, in surface pixels.
pub const PIX_HEIGHT: u32 = 240;

/// Bytes of one RGBA pixel.
pub const BYTES_PER_PIXEL: u32 = 4;

/// Milliseconds between two ticks of the fixed-interval timer.
pub const TICK_MILLIS: u64 = 15;

/// The number of bytes a full frame holds: one RGBA quadruple for each
/// surface pixel.
pub open spec fn spec_frame_len() -> int {
    PIX_WIDTH * PIX_HEIGHT * BYTES_PER_PIXEL
}

/// The number of bytes a full frame holds, as a run-time value.
pub fn frame_len() -> (n: usize)
    ensures
        n == spec_frame_len(),
{
    (PIX_WIDTH * PIX_HEIGHT * BYTES_PER_PIXEL) as usize
}

/// Whether surface pixel `(x, y)` lies inside the painted rectangle:
/// both coordinates strictly between 50 and 100.
pub open spec fn in_rectangle(x: int, y: int) -> bool {
    50 < x && x < 100 && 50 < y && y < 100
}

/// Channel `c` of the color the rectangle is painted with, the RGBA
/// quadruple `(0xff, 0xff, 0x50, 0xff)`.
pub open spec fn rectangle_byte(c: int) -> u8 {
    if c == 2 {
        0x50
    } else {
        0xff
    }
}

/// Byte `j` of the frame after one draw over previous contents `prev`:
/// bytes of pixels inside the rectangle take the rectangle's color, and
/// every other byte keeps its previous value. Pixel indices run in row
/// order, so byte `j` belongs to pixel `j / 4`, which sits at column
/// `(j / 4) % width` of row `(j / 4) / width`.
pub open spec fn drawn_byte(prev: Seq<u8>, j: int) -> u8 {
    if in_rectangle((j / 4) % (PIX_WIDTH as int), (j / 4) / (PIX_WIDTH as int)) {
        rectangle_byte(j % 4)
    } else {
        prev[j]
    }
}

/// What one draw does, pixel by pixel: for every surface pixel `(x, y)`
/// with both coordinates strictly between 50 and 100, each channel `c`
/// of its four bytes takes the rectangle's color, and for every other
/// in-bounds pixel each byte keeps its previous value.
pub proof fn lemma_drawn_pixel(prev: Seq<u8>, x: int, y: int, c: int)
    requires
        prev.len() == spec_frame_len(),
        0 <= x < PIX_WIDTH,
        0 <= y < PIX_HEIGHT,
        0 <= c < 4,
    ensures
        in_rectangle(x, y) ==> drawn_byte(prev, (y * PIX_WIDTH + x) * 4 + c)
            == rectangle_byte(c),
        !in_rectangle(x, y) ==> drawn_byte(prev, (y * PIX_WIDTH + x) * 4 + c)
            == prev[(y * PIX_WIDTH + x) * 4 + c],
{
    let i = y * (PIX_WIDTH as int) + x;
    let j = i * 4 + c;
    assert(j / 4 == i && j % 4 == c) by (nonlinear_arith)
        requires
            0 <= c < 4,
            j == i * 4 + c,
            0 <= i,
    ;
    assert(i % (PIX_WIDTH as int) == x && i / (PIX_WIDTH as int) == y) by (nonlinear_arith)
        requires
            0 <= x < PIX_WIDTH as int,
            0 <= y,
            i == y * (PIX_WIDTH as int) + x,
    ;
}

/// Per-frame draw hook. Paints the fixed rectangle its solid color and
/// leaves every pixel outside it untouched: the buffer is not cleared
/// first, so previous-frame contents persist outside the rectangle.
pub fn draw(frame: &mut Vec<u8>)
    requires
        old(frame)@.len() == spec_frame_len(),
    ensures
        final(frame)@.len() == old(frame)@.len(),
        forall|j: int|
            0 <= j < final(frame)@.len() ==> final(frame)@[j] == drawn_byte(old(frame)@, j),
{
    let width = PIX_WIDTH as usize;
    let pixels = (PIX_WIDTH * PIX_HEIGHT) as usize;
    let mut i: usize = 0;
    while i < pixels
        invariant
            width == PIX_WIDTH,
            pixels == PIX_WIDTH * PIX_HEIGHT,
            i <= pixels,
            frame@.len() == spec_frame_len(),
            forall|j: int| 0 <= j < 4 * i ==> frame@[j] == drawn_byte(old(frame)@, j),
            forall|j: int| 4 * i <= j < frame@.len() ==> frame@[j] == old(frame)@[j],
        decreases pixels - i,
    {
        let x = i % width;
        let y = i / width;
        if 50 < x && x < 100 && 50 < y && y < 100 {
            frame.set(4 * i, 0xff);
            frame.set(4 * i + 1, 0xff);
            frame.set(4 * i + 2, 0x50);
            frame.set(4 * i + 3, 0xff);
        }
        proof {
            assert forall|j: int| 4 * i <= j < 4 * (i + 1) implies frame@[j] == drawn_byte(
                old(frame)@,
                j,
            ) by {
                assert(j / 4 == i && j % 4 == j - 4 * i) by (nonlinear_arith)
                    requires
                        4 * i <= j < 4 * (i + 1),
                ;
            }
        }
        i += 1;
    }
}

/// Fixed-interval update hook: runs once per timer tick, before a redraw
/// is requested. There is no simulation state yet, so it observes nothing
/// and changes nothing.
pub fn update() {
}

} // verus!
