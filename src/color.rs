//! The color mapper: a gray level and an RGB tint give an RGB triple.
use vstd::prelude::*;

verus! {

/// An RGB tint. Each channel scales the gray level of a pixel.
#[derive(Clone, Copy, Debug, PartialEq, Eq, Structural)]
pub struct ColorScheme {
    pub r: u8,
    pub g: u8,
    pub b: u8,
}

/// The color of one pixel, without its alpha channel.
#[derive(Clone, Copy, Debug, PartialEq, Eq, Structural)]
pub struct Rgb {
    pub r: u8,
    pub g: u8,
    pub b: u8,
}

/// The neutral tint, which leaves every gray level unchanged.
pub open spec fn white() -> ColorScheme {
    ColorScheme { r: 255, g: 255, b: 255 }
}

/// One channel: `level * tint / 255`, rounded down.
pub open spec fn tinted(level: u8, tint: u8) -> u8 {
    (level as int * tint as int / 255) as u8
}

/// The color that a gray level takes under a tint.
pub open spec fn mapped_color(level: u8, tint: ColorScheme) -> Rgb {
    Rgb { r: tinted(level, tint.r), g: tinted(level, tint.g), b: tinted(level, tint.b) }
}

impl ColorScheme {
    pub fn new(r: u8, g: u8, b: u8) -> (c: ColorScheme)
        ensures
            c == (ColorScheme { r, g, b }),
    {
        ColorScheme { r, g, b }
    }
}

impl Default for ColorScheme {
    /// White, the tint used when no configuration gives one.
    fn default() -> (c: ColorScheme)
        ensures
            c == white(),
    {
        ColorScheme { r: 255, g: 255, b: 255 }
    }
}

/// Scales a gray level by one tint channel.
pub fn tint_channel(level: u8, tint: u8) -> (c: u8)
    ensures
        c == tinted(level, tint),
        c <= tint,
        c <= level,
        level == 255 ==> c == tint,
{
    assert(level as u32 * tint as u32 <= 255 * 255) by (nonlinear_arith)
        requires level <= 255, tint <= 255;
    let product: u32 = level as u32 * tint as u32;
    assert(product / 255 <= tint) by (nonlinear_arith)
        requires product == level as u32 * tint as u32, level <= 255;
    assert(product / 255 <= level) by (nonlinear_arith)
        requires product == level as u32 * tint as u32, tint <= 255;
    assert(level == 255 ==> product / 255 == tint) by (nonlinear_arith)
        requires product == level as u32 * tint as u32;
    (product / 255) as u8
}

/// Maps a gray level to a color under `tint`.
pub fn map_color(level: u8, tint: ColorScheme) -> (c: Rgb)
    ensures
        c == mapped_color(level, tint),
        level == 255 ==> c == (Rgb { r: tint.r, g: tint.g, b: tint.b }),
        level == 0 ==> c == (Rgb { r: 0, g: 0, b: 0 }),
{
    Rgb {
        r: tint_channel(level, tint.r),
        g: tint_channel(level, tint.g),
        b: tint_channel(level, tint.b),
    }
}

/// The color mapper is a pure function: two results obtained for the same
/// gray level and tint are the same color.
pub proof fn color_mapping_is_deterministic(level: u8, tint: ColorScheme, first: Rgb, second: Rgb)
    requires
        first == mapped_color(level, tint),
        second == mapped_color(level, tint),
    ensures
        first == second,
{
}

} // verus!
