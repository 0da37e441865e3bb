//! Reflective symmetry of a pixel buffer about its vertical and horizontal
//! midlines.
//!
//! A buffer is symmetric about an axis when every pixel in one half is
//! "equal enough" to its mirror pixel in the other half. For each mirrored
//! pair, a fast single-pixel tolerance test runs first; when it fails, the
//! mismatch is forgiven if it lies within a small margin of the edges of the
//! scanned half (decode artifacts along flag borders), and otherwise a 3x3
//! window around each of the two coordinates is averaged per channel and the
//! averages are held to the same relative tolerance. Only a window-level
//! failure makes the axis check fail.
//!
//! Comparing two window averages `sum_a / 9` and `sum_b / 9` under the
//! relative rule is exactly comparing the sums themselves, since the common
//! factor cancels; the code therefore works on channel sums and never
//! divides.

use vstd::prelude::*;

verus! {

use vstd::math::abs;

use crate::buffer::PixelBuffer;
use crate::color::{
    channels_within_tolerance,
    compare_pixel,
    pixels_within_tolerance,
    quantities_within_tolerance,
    Tolerance,
};

/// Side length of the square window used for the averaged fallback test.
pub const FUZZY_WINDOW_DIM: usize = 3;

/// Width of the border margin, in pixels, within which a single-pixel
/// mismatch is forgiven: half the fuzzy window, rounded down. The margin is
/// measured against the extent of the scanned half, so that the fallback
/// window always stays inside the buffer.
pub const EDGE_MARGIN: usize = FUZZY_WINDOW_DIM / 2;

/// The two reflection axes. `Vertical` mirrors column `x` onto column
/// `width - 1 - x` (an "A"-shaped flag); `Horizontal` mirrors row `y` onto
/// row `height - 1 - y` (a "D"-shaped flag).
#[derive(Clone, Copy, Debug, PartialEq, Eq, Structural)]
pub enum Axis {
    Vertical,
    Horizontal,
}

/// The outcome of checking both axes of one buffer.
#[derive(Clone, Copy, Debug, PartialEq, Eq, Structural)]
pub struct Symmetry {
    pub horizontal: bool,
    pub vertical: bool,
}

/// How many columns the scan of `axis` visits: half the width for the
/// vertical axis (the center column of an odd width is nobody's mirror and
/// is skipped), the full width for the horizontal axis.
pub open spec fn scan_width(buf: PixelBuffer, axis: Axis) -> int {
    match axis {
        Axis::Vertical => buf.width as int / 2,
        Axis::Horizontal => buf.width as int,
    }
}

/// How many rows the scan of `axis` visits: the full height for the vertical
/// axis, half the height for the horizontal axis.
pub open spec fn scan_height(buf: PixelBuffer, axis: Axis) -> int {
    match axis {
        Axis::Vertical => buf.height as int,
        Axis::Horizontal => buf.height as int / 2,
    }
}

/// The column that mirrors column `x` about `axis`.
pub open spec fn mirror_x(buf: PixelBuffer, axis: Axis, x: int) -> int {
    match axis {
        Axis::Vertical => buf.width - 1 - x,
        Axis::Horizontal => x,
    }
}

/// The row that mirrors row `y` about `axis`.
pub open spec fn mirror_y(buf: PixelBuffer, axis: Axis, y: int) -> int {
    match axis {
        Axis::Vertical => y,
        Axis::Horizontal => buf.height - 1 - y,
    }
}

/// Whether `(x, y)` lies within [`EDGE_MARGIN`] pixels of an edge of the
/// `w` by `h` region being scanned.
pub open spec fn near_edge(x: int, y: int, w: int, h: int) -> bool {
    ||| x < EDGE_MARGIN
    ||| x + EDGE_MARGIN >= w
    ||| y < EDGE_MARGIN
    ||| y + EDGE_MARGIN >= h
}

/// Per-channel sums of the three pixels of row `y` centered on column `cx`.
pub open spec fn window_row_sums(buf: PixelBuffer, cx: int, y: int) -> (int, int, int) {
    (
        buf.pix(cx - 1, y).r + buf.pix(cx, y).r + buf.pix(cx + 1, y).r,
        buf.pix(cx - 1, y).g + buf.pix(cx, y).g + buf.pix(cx + 1, y).g,
        buf.pix(cx - 1, y).b + buf.pix(cx, y).b + buf.pix(cx + 1, y).b,
    )
}

/// Per-channel sums over the 3x3 window centered on `(cx, cy)`.
pub open spec fn window_sums(buf: PixelBuffer, cx: int, cy: int) -> (int, int, int) {
    (
        window_row_sums(buf, cx, cy - 1).0 + window_row_sums(buf, cx, cy).0 + window_row_sums(
            buf,
            cx,
            cy + 1,
        ).0,
        window_row_sums(buf, cx, cy - 1).1 + window_row_sums(buf, cx, cy).1 + window_row_sums(
            buf,
            cx,
            cy + 1,
        ).1,
        window_row_sums(buf, cx, cy - 1).2 + window_row_sums(buf, cx, cy).2 + window_row_sums(
            buf,
            cx,
            cy + 1,
        ).2,
    )
}

/// Whether the two 3x3 windows centered on `(acx, acy)` and `(bcx, bcy)`
/// have per-channel averages within the relative tolerance of each other.
/// Stated over the channel sums, which compare exactly as the averages do.
pub open spec fn windows_within_tolerance(
    buf: PixelBuffer,
    acx: int,
    acy: int,
    bcx: int,
    bcy: int,
    tol: Tolerance,
) -> bool {
    let sa = window_sums(buf, acx, acy);
    let sb = window_sums(buf, bcx, bcy);
    &&& channels_within_tolerance(sa.0, sb.0, tol.num as int, tol.den as int)
    &&& channels_within_tolerance(sa.1, sb.1, tol.num as int, tol.den as int)
    &&& channels_within_tolerance(sa.2, sb.2, tol.num as int, tol.den as int)
}

/// Whether the mirrored pair at scan coordinate `(x, y)` is acceptable:
/// the pixels themselves are within tolerance, or the coordinate lies in the
/// edge margin of the scanned half, or the 3x3 windows around the two
/// coordinates average out to within tolerance.
pub open spec fn pair_within_tolerance(
    buf: PixelBuffer,
    axis: Axis,
    tol: Tolerance,
    x: int,
    y: int,
) -> bool {
    ||| pixels_within_tolerance(
        buf.pix(x, y),
        buf.pix(mirror_x(buf, axis, x), mirror_y(buf, axis, y)),
        tol,
    )
    ||| near_edge(x, y, scan_width(buf, axis), scan_height(buf, axis))
    ||| windows_within_tolerance(
        buf,
        x,
        y,
        mirror_x(buf, axis, x),
        mirror_y(buf, axis, y),
        tol,
    )
}

/// Whether the whole buffer is symmetric about `axis` under `tol`: every
/// mirrored pair of the scanned half is acceptable.
pub open spec fn axis_symmetric(buf: PixelBuffer, axis: Axis, tol: Tolerance) -> bool {
    forall|x: int, y: int|
        0 <= x < scan_width(buf, axis) && 0 <= y < scan_height(buf, axis)
            ==> #[trigger] pair_within_tolerance(buf, axis, tol, x, y)
}

/// Decides [`near_edge`] for coordinates within a `w` by `h` region.
fn near_edge_at(x: usize, y: usize, w: usize, h: usize) -> (r: bool)
    ensures
        r == near_edge(x as int, y as int, w as int, h as int),
{
    x < EDGE_MARGIN || x as u128 + EDGE_MARGIN as u128 >= w as u128 || y < EDGE_MARGIN || y
        as u128 + EDGE_MARGIN as u128 >= h as u128
}

/// Whether a mismatch at `(x, y)` of a `width` by `height` scan region is
/// forgiven as an edge artifact.
pub fn check_near_edge(x: u32, y: u32, width: u32, height: u32) -> (r: bool)
    ensures
        r == near_edge(x as int, y as int, width as int, height as int),
{
    near_edge_at(x as usize, y as usize, width as usize, height as usize)
}

/// Per-channel sums of the three pixels of row `y` centered on column `cx`.
fn row_sums(buf: &PixelBuffer, cx: usize, y: usize) -> (s: (u32, u32, u32))
    requires
        buf.wf(),
        1 <= cx,
        cx + 1 < buf.width,
        y < buf.height,
    ensures
        s.0 == window_row_sums(*buf, cx as int, y as int).0,
        s.1 == window_row_sums(*buf, cx as int, y as int).1,
        s.2 == window_row_sums(*buf, cx as int, y as int).2,
{
    let p0 = buf.get(cx - 1, y);
    let p1 = buf.get(cx, y);
    let p2 = buf.get(cx + 1, y);
    (
        p0.r as u32 + p1.r as u32 + p2.r as u32,
        p0.g as u32 + p1.g as u32 + p2.g as u32,
        p0.b as u32 + p1.b as u32 + p2.b as u32,
    )
}

/// Per-channel sums over the 3x3 window centered on `(cx, cy)`.
fn window_channel_sums(buf: &PixelBuffer, cx: usize, cy: usize) -> (s: (u32, u32, u32))
    requires
        buf.wf(),
        1 <= cx,
        cx + 1 < buf.width,
        1 <= cy,
        cy + 1 < buf.height,
    ensures
        s.0 == window_sums(*buf, cx as int, cy as int).0,
        s.1 == window_sums(*buf, cx as int, cy as int).1,
        s.2 == window_sums(*buf, cx as int, cy as int).2,
        s.0 <= 2295 && s.1 <= 2295 && s.2 <= 2295,
{
    let r0 = row_sums(buf, cx, cy - 1);
    let r1 = row_sums(buf, cx, cy);
    let r2 = row_sums(buf, cx, cy + 1);
    (r0.0 + r1.0 + r2.0, r0.1 + r1.1 + r2.1, r0.2 + r1.2 + r2.2)
}

/// The averaged-window fallback: whether the 3x3 windows centered on
/// `(acx, acy)` and `(bcx, bcy)` are within tolerance of each other.
fn fuzzy_compare(
    buf: &PixelBuffer,
    acx: usize,
    acy: usize,
    bcx: usize,
    bcy: usize,
    tol: &Tolerance,
) -> (r: bool)
    requires
        buf.wf(),
        tol.wf(),
        1 <= acx && acx + 1 < buf.width,
        1 <= acy && acy + 1 < buf.height,
        1 <= bcx && bcx + 1 < buf.width,
        1 <= bcy && bcy + 1 < buf.height,
    ensures
        r == windows_within_tolerance(*buf, acx as int, acy as int, bcx as int, bcy as int, *tol),
{
    let sa = window_channel_sums(buf, acx, acy);
    let sb = window_channel_sums(buf, bcx, bcy);
    quantities_within_tolerance(sa.0, sb.0, tol) && quantities_within_tolerance(sa.1, sb.1, tol)
        && quantities_within_tolerance(sa.2, sb.2, tol)
}

/// Decides whether the mirrored pair at scan coordinate `(x, y)` is
/// acceptable: pixel test first, then the edge margin, then the averaged
/// 3x3 windows.
fn pair_check(buf: &PixelBuffer, axis: Axis, tol: &Tolerance, x: usize, y: usize) -> (r: bool)
    requires
        buf.wf(),
        tol.wf(),
        x < scan_width(*buf, axis),
        y < scan_height(*buf, axis),
    ensures
        r == pair_within_tolerance(*buf, axis, *tol, x as int, y as int),
{
    let (mx, my): (usize, usize) = match axis {
        Axis::Vertical => (buf.width - 1 - x, y),
        Axis::Horizontal => (x, buf.height - 1 - y),
    };
    let a = buf.get(x, y);
    let b = buf.get(mx, my);
    if compare_pixel(a, b, tol) {
        return true;
    }
    let (sw, sh): (usize, usize) = match axis {
        Axis::Vertical => (buf.width / 2, buf.height),
        Axis::Horizontal => (buf.width, buf.height / 2),
    };
    if near_edge_at(x, y, sw, sh) {
        return true;
    }
    // Away from the margin, both 3x3 windows lie inside the buffer: the
    // scanned coordinate has room within its own half, and its mirror sits
    // at least as far from the opposite edge.
    fuzzy_compare(buf, x, y, mx, my, tol)
}

/// Checks the buffer for reflective symmetry about one axis.
///
/// Returns true iff every mirrored pixel pair of the scanned half passes the
/// single-pixel tolerance test, or lies within the edge margin, or passes the
/// averaged 3x3 window test ([`axis_symmetric`]). The scan short-circuits on
/// the first unrecoverable mismatch.
pub fn check_axis_symmetry(buf: &PixelBuffer, axis: Axis, tol: &Tolerance) -> (r: bool)
    requires
        buf.wf(),
        tol.wf(),
    ensures
        r == axis_symmetric(*buf, axis, *tol),
{
    let sw: usize = match axis {
        Axis::Vertical => buf.width / 2,
        Axis::Horizontal => buf.width,
    };
    let sh: usize = match axis {
        Axis::Vertical => buf.height,
        Axis::Horizontal => buf.height / 2,
    };
    let mut y: usize = 0;
    while y < sh
        invariant
            buf.wf(),
            tol.wf(),
            sw == scan_width(*buf, axis),
            sh == scan_height(*buf, axis),
            y <= sh,
            forall|i: int, j: int|
                0 <= i < sw && 0 <= j < y ==> #[trigger] pair_within_tolerance(
                    *buf,
                    axis,
                    *tol,
                    i,
                    j,
                ),
        decreases sh - y,
    {
        let mut x: usize = 0;
        while x < sw
            invariant
                buf.wf(),
                tol.wf(),
                sw == scan_width(*buf, axis),
                sh == scan_height(*buf, axis),
                y < sh,
                x <= sw,
                forall|i: int, j: int|
                    0 <= i < sw && 0 <= j < y ==> #[trigger] pair_within_tolerance(
                        *buf,
                        axis,
                        *tol,
                        i,
                        j,
                    ),
                forall|i: int|
                    0 <= i < x ==> #[trigger] pair_within_tolerance(*buf, axis, *tol, i, y as int),
            decreases sw - x,
        {
            if !pair_check(buf, axis, tol, x, y) {
                assert(!pair_within_tolerance(*buf, axis, *tol, x as int, y as int));
                return false;
            }
            x += 1;
        }
        y += 1;
    }
    true
}

/// Checks both axes of the buffer independently.
pub fn check_symmetry(buf: &PixelBuffer, tol: &Tolerance) -> (s: Symmetry)
    requires
        buf.wf(),
        tol.wf(),
    ensures
        s.vertical == axis_symmetric(*buf, Axis::Vertical, *tol),
        s.horizontal == axis_symmetric(*buf, Axis::Horizontal, *tol),
{
    let vertical = check_axis_symmetry(buf, Axis::Vertical, tol);
    let horizontal = check_axis_symmetry(buf, Axis::Horizontal, tol);
    Symmetry { horizontal, vertical }
}

/// A quantity is always within a positive tolerance of itself: with a zero
/// difference the strict relative test `0 < num * (a + a)` holds whenever
/// `num >= 1` and the sum is positive, and a zero sum needs only equality.
pub proof fn lemma_equal_channels_close(c: int, num: int, den: int)
    requires
        0 <= c,
        1 <= num,
        0 <= den,
    ensures
        channels_within_tolerance(c, c, num, den),
{
    if c + c != 0 {
        assert(2 * abs(c - c) * den == 0) by (nonlinear_arith);
        assert(0 < num * (c + c)) by (nonlinear_arith)
            requires
                1 <= num,
                1 <= c + c,
        ;
    }
}

/// A pixel is always within a positive tolerance of itself.
pub proof fn lemma_equal_pixels_close(p: crate::color::Pixel, tol: Tolerance)
    requires
        tol.wf(),
        1 <= tol.num,
    ensures
        pixels_within_tolerance(p, p, tol),
{
    lemma_equal_channels_close(p.r as int, tol.num as int, tol.den as int);
    lemma_equal_channels_close(p.g as int, tol.num as int, tol.den as int);
    lemma_equal_channels_close(p.b as int, tol.num as int, tol.den as int);
}

/// A buffer whose scanned half mirrors the other half exactly, pixel for
/// pixel, is symmetric about that axis under every positive tolerance.
pub proof fn lemma_exact_mirror_symmetry(buf: PixelBuffer, axis: Axis, tol: Tolerance)
    requires
        buf.wf(),
        tol.wf(),
        1 <= tol.num,
        forall|x: int, y: int|
            0 <= x < scan_width(buf, axis) && 0 <= y < scan_height(buf, axis)
                ==> #[trigger] buf.pix(x, y) == buf.pix(
                mirror_x(buf, axis, x),
                mirror_y(buf, axis, y),
            ),
    ensures
        axis_symmetric(buf, axis, tol),
{
    assert forall|x: int, y: int|
        0 <= x < scan_width(buf, axis) && 0 <= y < scan_height(
            buf,
            axis,
        ) implies #[trigger] pair_within_tolerance(buf, axis, tol, x, y) by {
        assert(buf.pix(x, y) == buf.pix(mirror_x(buf, axis, x), mirror_y(buf, axis, y)));
        lemma_equal_pixels_close(buf.pix(x, y), tol);
    }
}

/// One mirrored pair that fails the pixel test, lies outside the edge
/// margin, and whose averaged windows also fail, makes the whole axis check
/// fail.
pub proof fn lemma_unrecoverable_mismatch(
    buf: PixelBuffer,
    axis: Axis,
    tol: Tolerance,
    x: int,
    y: int,
)
    requires
        buf.wf(),
        tol.wf(),
        0 <= x < scan_width(buf, axis),
        0 <= y < scan_height(buf, axis),
        !pixels_within_tolerance(
            buf.pix(x, y),
            buf.pix(mirror_x(buf, axis, x), mirror_y(buf, axis, y)),
            tol,
        ),
        !near_edge(x, y, scan_width(buf, axis), scan_height(buf, axis)),
        !windows_within_tolerance(
            buf,
            x,
            y,
            mirror_x(buf, axis, x),
            mirror_y(buf, axis, y),
            tol,
        ),
    ensures
        !axis_symmetric(buf, axis, tol),
{
    assert(!pair_within_tolerance(buf, axis, tol, x, y));
}

/// A buffer whose only mismatches lie within the edge margin is still
/// symmetric about the axis: edge artifacts alone never fail the check.
pub proof fn lemma_edge_mismatches_tolerated(buf: PixelBuffer, axis: Axis, tol: Tolerance)
    requires
        buf.wf(),
        tol.wf(),
        forall|x: int, y: int|
            0 <= x < scan_width(buf, axis) && 0 <= y < scan_height(buf, axis)
                ==> pixels_within_tolerance(
                #[trigger] buf.pix(x, y),
                buf.pix(mirror_x(buf, axis, x), mirror_y(buf, axis, y)),
                tol,
            ) || near_edge(x, y, scan_width(buf, axis), scan_height(buf, axis)),
    ensures
        axis_symmetric(buf, axis, tol),
{
    assert forall|x: int, y: int|
        0 <= x < scan_width(buf, axis) && 0 <= y < scan_height(
            buf,
            axis,
        ) implies #[trigger] pair_within_tolerance(buf, axis, tol, x, y) by {
        assert(pixels_within_tolerance(
            buf.pix(x, y),
            buf.pix(mirror_x(buf, axis, x), mirror_y(buf, axis, y)),
            tol,
        ) || near_edge(x, y, scan_width(buf, axis), scan_height(buf, axis)));
    }
}

/// On an odd-width buffer the vertical scan never touches the exact center
/// column: neither a scanned column nor its mirror equals `width / 2`.
pub proof fn lemma_center_column_skipped(buf: PixelBuffer, x: int)
    requires
        buf.wf(),
        buf.width % 2 == 1,
        0 <= x < scan_width(buf, Axis::Vertical),
    ensures
        x != buf.width as int / 2,
        mirror_x(buf, Axis::Vertical, x) != buf.width as int / 2,
{
    vstd::arithmetic::div_mod::lemma_fundamental_div_mod(buf.width as int, 2);
}

} // verus!
