//! Tolerance-based comparison of color channels and whole pixels.
//!
//! Two quantities (single channel values, or summed window channels) are
//! "close" when their absolute difference, relative to their average, stays
//! strictly below a configured tolerance. The tolerance is a rational number
//! `num / den`, so the test `|a - b| / ((a + b) / 2) < num / den` is decided
//! exactly in integer arithmetic as `2 * |a - b| * den < num * (a + b)`.
//! When the average is exactly zero (both quantities zero), exact equality is
//! required instead, which avoids a division by zero.
//!
//! The comparison policy is per-channel: red, green and blue must each pass
//! the relative test on their own. (The looser alternative, comparing the
//! aggregate R+G+B sums, would let color shifts that preserve total luminance
//! pass; this library deliberately uses the stricter per-channel rule.)

use vstd::prelude::*;

verus! {

use vstd::math::abs;

/// A relative color tolerance, the fraction `num / den`.
///
/// Process-wide configuration: chosen once at startup and treated as
/// immutable afterwards. `den` must be positive for the fraction to mean
/// anything; see [`Tolerance::wf`].
#[derive(Clone, Copy, Debug, PartialEq, Eq, Structural)]
pub struct Tolerance {
    pub num: u32,
    pub den: u32,
}

impl Tolerance {
    /// A tolerance is well formed when its denominator is positive.
    pub open spec fn wf(self) -> bool {
        self.den >= 1
    }

    /// Builds a tolerance, rejecting a zero denominator.
    pub fn new(num: u32, den: u32) -> (t: Option<Tolerance>)
        ensures
            t is Some <==> den >= 1,
            t is Some ==> t->Some_0 == (Tolerance { num, den }) && t->Some_0.wf(),
    {
        if den >= 1 {
            Some(Tolerance { num, den })
        } else {
            None
        }
    }
}

impl Default for Tolerance {
    /// The standard tolerance for flag comparison: one tenth.
    fn default() -> (t: Tolerance)
        ensures
            t == (Tolerance { num: 1u32, den: 10u32 }),
            t.wf(),
    {
        Tolerance { num: 1, den: 10 }
    }
}

/// One RGB pixel. Alpha takes no part in any comparison, so it is not kept.
#[derive(Clone, Copy, Debug, PartialEq, Eq, Structural)]
pub struct Pixel {
    pub r: u8,
    pub g: u8,
    pub b: u8,
}

/// Whether the quantities `a` and `b` (channel values, or summed window
/// channels) are within the relative tolerance `num / den` of each other:
/// `|a - b| / ((a + b) / 2) < num / den`, with exact equality required when
/// the average is zero. The bound is strict: a difference exactly at the
/// tolerance is rejected.
pub open spec fn channels_within_tolerance(a: int, b: int, num: int, den: int) -> bool {
    if a + b == 0 {
        a == b
    } else {
        2 * abs(a - b) * den < num * (a + b)
    }
}

/// Whether pixels `a` and `b` count as symmetric counterparts: every one of
/// the three channels passes the relative tolerance test on its own.
pub open spec fn pixels_within_tolerance(a: Pixel, b: Pixel, tol: Tolerance) -> bool {
    &&& channels_within_tolerance(a.r as int, b.r as int, tol.num as int, tol.den as int)
    &&& channels_within_tolerance(a.g as int, b.g as int, tol.num as int, tol.den as int)
    &&& channels_within_tolerance(a.b as int, b.b as int, tol.num as int, tol.den as int)
}

/// Decides the relative tolerance test for two nonnegative quantities that
/// fit in 16 bits (single channels are at most 255; 3x3 window sums are at
/// most 9 * 255).
pub(crate) fn quantities_within_tolerance(a: u32, b: u32, tol: &Tolerance) -> (r: bool)
    requires
        a <= 0xFFFF,
        b <= 0xFFFF,
        tol.wf(),
    ensures
        r == channels_within_tolerance(a as int, b as int, tol.num as int, tol.den as int),
{
    let sum: u64 = a as u64 + b as u64;
    if sum == 0 {
        a == b
    } else {
        let diff: u64 = if a >= b {
            (a - b) as u64
        } else {
            (b - a) as u64
        };
        proof {
            assert(2 * (diff as int) * (tol.den as int) <= 2 * 0xFFFF * 0xFFFF_FFFF)
                by (nonlinear_arith)
                requires
                    0 <= diff as int <= 0xFFFF,
                    0 <= tol.den as int <= 0xFFFF_FFFF,
            ;
            assert((tol.num as int) * (sum as int) <= 0xFFFF_FFFF * 0x1_FFFE) by (nonlinear_arith)
                requires
                    0 <= tol.num as int <= 0xFFFF_FFFF,
                    0 <= sum as int <= 0x1_FFFE,
            ;
        }
        2 * diff * (tol.den as u64) < (tol.num as u64) * sum
    }
}

/// Compares one color channel of two pixels under the relative tolerance.
pub fn color_channel_compare(c1: i16, c2: i16, tol: &Tolerance) -> (r: bool)
    requires
        0 <= c1,
        0 <= c2,
        tol.wf(),
    ensures
        r == channels_within_tolerance(c1 as int, c2 as int, tol.num as int, tol.den as int),
{
    quantities_within_tolerance(c1 as u32, c2 as u32, tol)
}

/// Compares two pixels channel by channel, returning true iff all three
/// channels are within the relative tolerance of their mirror counterpart.
pub fn compare_pixel(a: Pixel, b: Pixel, tol: &Tolerance) -> (r: bool)
    requires
        tol.wf(),
    ensures
        r == pixels_within_tolerance(a, b, *tol),
{
    quantities_within_tolerance(a.r as u32, b.r as u32, tol)
        && quantities_within_tolerance(a.g as u32, b.g as u32, tol)
        && quantities_within_tolerance(a.b as u32, b.b as u32, tol)
}

} // verus!
