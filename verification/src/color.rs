//! Plain RGBA colors, fixed-point relative luminance and alpha blending.
//!
//! All photometric quantities are held as integers: a channel's linear value
//! is scaled by 100_000 and a color's relative luminance by 1_000_000_000, so
//! that the text-color decision (luminance above or below 0.179) is exact
//! integer arithmetic.

use vstd::prelude::*;

verus! {

/// An RGBA color with 8-bit channels.
#[derive(Clone, Copy, Debug, PartialEq, Eq, Structural)]
pub struct Color {
    pub r: u8,
    pub g: u8,
    pub b: u8,
    pub a: u8,
}

impl Color {
    /// A fully opaque color built from its three channels.
    pub fn opaque(r: u8, g: u8, b: u8) -> (c: Color)
        ensures
            c == (Color { r, g, b, a: 255u8 }),
    {
        Color { r, g, b, a: 255 }
    }

    pub open spec fn is_opaque(self) -> bool {
        self.a == 255
    }
}

/// Linear-light value of each 8-bit sRGB channel value, scaled by 100_000.
/// Entry `v` is `round(100000 * f(v / 255))` where `f` is the sRGB decoding
/// curve: `c / 12.92` below the 0.04045 knee and `((c + 0.055) / 1.055)^2.4`
/// above it.
pub const SRGB_LINEAR_100K: [u32; 256] = [
    0, 30, 61, 91, 121, 152, 182, 212,
    243, 273, 304, 335, 368, 402, 439, 478,
    518, 561, 605, 651, 700, 750, 802, 857,
    913, 972, 1033, 1096, 1161, 1229, 1298, 1370,
    1444, 1521, 1600, 1681, 1764, 1850, 1938, 2029,
    2122, 2217, 2315, 2416, 2519, 2624, 2732, 2843,
    2956, 3071, 3190, 3310, 3434, 3560, 3689, 3820,
    3955, 4092, 4231, 4374, 4519, 4667, 4817, 4971,
    5127, 5286, 5448, 5613, 5781, 5951, 6125, 6301,
    6480, 6663, 6848, 7036, 7227, 7421, 7619, 7819,
    8022, 8228, 8438, 8650, 8866, 9084, 9306, 9531,
    9759, 9990, 10224, 10462, 10702, 10946, 11193, 11444,
    11697, 11954, 12214, 12477, 12744, 13014, 13287, 13563,
    13843, 14126, 14413, 14703, 14996, 15293, 15593, 15896,
    16203, 16513, 16827, 17144, 17465, 17789, 18116, 18447,
    18782, 19120, 19462, 19807, 20156, 20508, 20864, 21223,
    21586, 21953, 22323, 22697, 23074, 23455, 23840, 24228,
    24620, 25016, 25415, 25818, 26225, 26636, 27050, 27468,
    27889, 28315, 28744, 29177, 29614, 30054, 30499, 30947,
    31399, 31855, 32314, 32778, 33245, 33716, 34191, 34670,
    35153, 35640, 36131, 36625, 37124, 37626, 38133, 38643,
    39157, 39676, 40198, 40724, 41254, 41789, 42327, 42869,
    43415, 43966, 44520, 45079, 45641, 46208, 46778, 47353,
    47932, 48515, 49102, 49693, 50289, 50888, 51492, 52100,
    52712, 53328, 53948, 54572, 55201, 55834, 56471, 57112,
    57758, 58408, 59062, 59720, 60383, 61050, 61721, 62396,
    63076, 63760, 64448, 65141, 65837, 66539, 67244, 67954,
    68669, 69387, 70110, 70838, 71569, 72306, 73046, 73791,
    74540, 75294, 76052, 76815, 77582, 78354, 79130, 79910,
    80695, 81485, 82279, 83077, 83880, 84687, 85499, 86316,
    87137, 87962, 88792, 89627, 90466, 91310, 92158, 93011,
    93869, 94731, 95597, 96469, 97345, 98225, 99110, 100000,
];

/// Relative luminance of a color, scaled by 1_000_000_000: the standard
/// weights 0.2126, 0.7152 and 0.0722 (scaled by 10_000) over the linearized
/// channels (scaled by 100_000). The alpha channel plays no part.
pub open spec fn spec_luminance(c: Color) -> int {
    2126 * SRGB_LINEAR_100K@[c.r as int]
        + 7152 * SRGB_LINEAR_100K@[c.g as int]
        + 722 * SRGB_LINEAR_100K@[c.b as int]
}

/// The decision threshold for text colors: 0.179, scaled as `spec_luminance`.
pub const LUMINANCE_THRESHOLD: u64 = 179_000_000;

/// Relative luminance of a color, scaled by 1_000_000_000.
pub fn luminance(c: &Color) -> (l: u64)
    ensures
        l == spec_luminance(*c),
{
    2126u64 * (SRGB_LINEAR_100K[c.r as usize] as u64)
        + 7152u64 * (SRGB_LINEAR_100K[c.g as usize] as u64)
        + 722u64 * (SRGB_LINEAR_100K[c.b as usize] as u64)
}

/// One channel of an alpha-over blend of an opaque background channel `s`
/// and a foreground channel `e` carrying alpha `alpha`, rounded down.
pub open spec fn spec_blend_channel(s: u8, e: u8, alpha: u8) -> int {
    ((s as int) * (255 - alpha as int) + (e as int) * (alpha as int)) / 255
}

/// Blend one channel of an opaque background with a translucent foreground.
pub fn blend_channel(s: u8, e: u8, alpha: u8) -> (r: u8)
    ensures
        r == spec_blend_channel(s, e, alpha),
{
    proof {
        assert((s as int) * (255 - alpha as int) + (e as int) * (alpha as int) <= 255
            * 255) by (nonlinear_arith)
            requires
                s <= 255,
                e <= 255,
                alpha <= 255,
        ;
    }
    let num: u32 = (s as u32) * (255 - alpha as u32) + (e as u32) * (alpha as u32);
    (num / 255) as u8
}

/// Alpha-over blend of an opaque background color `s` and a foreground color
/// `e` drawn with alpha `alpha`; the result is opaque.
pub open spec fn spec_blend(s: Color, e: Color, alpha: u8) -> Color {
    Color {
        r: spec_blend_channel(s.r, e.r, alpha) as u8,
        g: spec_blend_channel(s.g, e.g, alpha) as u8,
        b: spec_blend_channel(s.b, e.b, alpha) as u8,
        a: 255,
    }
}

/// Alpha-over blend of an opaque background with a translucent foreground.
pub fn blend(s: &Color, e: &Color, alpha: u8) -> (r: Color)
    ensures
        r == spec_blend(*s, *e, alpha),
{
    Color {
        r: blend_channel(s.r, e.r, alpha),
        g: blend_channel(s.g, e.g, alpha),
        b: blend_channel(s.b, e.b, alpha),
        a: 255,
    }
}

} // verus!
