//! From the renderer's colours to the panel's grey levels.

use vstd::prelude::*;

verus! {

/// One pixel as the renderer draws it.
#[derive(Clone, Copy)]
pub struct Rgb8Pixel {
    pub r: u8,
    pub g: u8,
    pub b: u8,
}

/// Brightness of a colour: green counts most and blue least, and the weights add up to 256.
pub open spec fn luma(p: Rgb8Pixel) -> int {
    (77 * p.r + 150 * p.g + 29 * p.b) / 256
}

/// What the panel shows for a colour. In black-and-white mode everything below the middle of
/// the scale is black and everything else white.
pub open spec fn gray_level(p: Rgb8Pixel, black_and_white: bool) -> int {
    if !black_and_white {
        luma(p)
    } else if luma(p) < 128 {
        0
    } else {
        255
    }
}

pub fn to_gray(p: Rgb8Pixel, black_and_white: bool) -> (level: u8)
    ensures
        level == gray_level(p, black_and_white),
{
    let sum: u32 = 77 * p.r as u32 + 150 * p.g as u32 + 29 * p.b as u32;
    assert(sum >> 8 == sum / 256) by (bit_vector);
    let value: u8 = (sum >> 8) as u8;
    if black_and_white {
        if value < 128 {
            0x00
        } else {
            0xff
        }
    } else {
        value
    }
}

/// In black-and-white mode a pixel is pure black or pure white: there are no grey levels.
pub proof fn law_black_and_white_has_no_gray(p: Rgb8Pixel)
    ensures
        gray_level(p, true) == 0 || gray_level(p, true) == 255,
{
}

/// A colour that already is a grey keeps its level; black stays black and white stays white.
pub proof fn law_gray_keeps_its_level(v: u8)
    ensures
        gray_level(Rgb8Pixel { r: v, g: v, b: v }, false) == v,
{
}

/// A colour that is at least as strong in every channel is never shown darker.
pub proof fn law_brighter_is_not_darker(p: Rgb8Pixel, q: Rgb8Pixel, black_and_white: bool)
    requires
        p.r <= q.r,
        p.g <= q.g,
        p.b <= q.b,
    ensures
        gray_level(p, black_and_white) <= gray_level(q, black_and_white),
{
}

/// A grey level is the weighted mean of the three channels, rounded down: 77 parts of red, 150
/// of green and 29 of blue in 256.
pub proof fn law_level_is_the_weighted_mean(p: Rgb8Pixel)
    ensures
        0 <= gray_level(p, false) <= 255,
        256 * gray_level(p, false) <= 77 * p.r + 150 * p.g + 29 * p.b < 256 * gray_level(p, false)
            + 256,
{
}

/// Black-and-white mode shows white exactly where the grey level lies in the upper half.
pub proof fn law_black_and_white_splits_at_the_middle(p: Rgb8Pixel)
    ensures
        gray_level(p, true) == 255 <==> gray_level(p, false) >= 128,
        gray_level(p, true) == 0 <==> gray_level(p, false) < 128,
{
}

} // verus!
