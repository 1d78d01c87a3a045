//! The frame synthesizer's pixel loop: maps each column to a spectrum bin,
//! asks the caller's shading function for a gray level, tints it and writes
//! an opaque RGBA pixel.
use vstd::prelude::*;
use vstd::arithmetic::div_mod::lemma_fundamental_div_mod;
use crate::color::{ColorScheme, Rgb, map_color, mapped_color};

verus! {

/// The bin that column `x` of a frame `width` pixels wide reads:
/// `floor(x / width * bins)`.
pub open spec fn column_bin(x: int, width: int, bins: int) -> int {
    x * bins / width
}

/// The spectrum value that column `x` reads; a bin beyond the spectrum
/// contributes `zero`.
pub open spec fn column_value<T>(spectrum: Seq<T>, zero: T, x: int, width: int) -> T {
    let bin = column_bin(x, width, spectrum.len() as int);
    if 0 <= bin < spectrum.len() {
        spectrum[bin]
    } else {
        zero
    }
}

/// Pixel `p` of `frame` holds color `c` and is opaque.
pub open spec fn pixel_is(frame: Seq<u8>, p: int, c: Rgb) -> bool {
    &&& frame[4 * p] == c.r
    &&& frame[4 * p + 1] == c.g
    &&& frame[4 * p + 2] == c.b
    &&& frame[4 * p + 3] == 255
}

/// The arguments the shading function receives for pixel `p`: its column,
/// its row, and the spectrum value of its column.
pub open spec fn shade_args<T>(p: int, width: int, spectrum: Seq<T>, zero: T) -> (u32, u32, T) {
    ((p % width) as u32, (p / width) as u32, column_value(spectrum, zero, p % width, width))
}

/// Pixel `p` holds the tinted color of a gray level that `shade` may return
/// for that pixel.
pub open spec fn pixel_shaded<T, G: Fn(u32, u32, T) -> u8>(
    frame: Seq<u8>,
    p: int,
    width: int,
    spectrum: Seq<T>,
    zero: T,
    tint: ColorScheme,
    shade: G,
) -> bool {
    exists|level: u8|
        #![trigger mapped_color(level, tint)]
        call_ensures(shade, shade_args(p, width, spectrum, zero), level) && pixel_is(
            frame,
            p,
            mapped_color(level, tint),
        )
}

/// `frame` is a whole `width` x `height` picture drawn from `spectrum`:
/// every pixel, row by row, is shaded.
pub open spec fn frame_rendered<T, G: Fn(u32, u32, T) -> u8>(
    frame: Seq<u8>,
    width: int,
    height: int,
    spectrum: Seq<T>,
    zero: T,
    tint: ColorScheme,
    shade: G,
) -> bool {
    &&& frame.len() == 4 * width * height
    &&& forall|p: int|
        0 <= p < width * height ==> #[trigger] pixel_shaded(
            frame,
            p,
            width,
            spectrum,
            zero,
            tint,
            shade,
        )
}

/// The bin that column `x` reads, always inside a non-empty spectrum.
pub fn bin_for_column(x: u32, width: u32, bins: usize) -> (bin: usize)
    requires
        x < width,
    ensures
        bin == column_bin(x as int, width as int, bins as int),
        bins > 0 ==> bin < bins,
{
    assert((x as int) * (bins as int) <= 0xffff_ffff * 0xffff_ffff_ffff_ffff) by (nonlinear_arith)
        requires 0 <= x as int <= 0xffff_ffff, 0 <= bins as int <= 0xffff_ffff_ffff_ffff;
    let product: u128 = x as u128 * bins as u128;
    assert(product / (width as u128) <= bins) by (nonlinear_arith)
        requires product == x as u128 * bins as u128, x < width;
    assert(bins > 0 ==> product / (width as u128) < bins) by (nonlinear_arith)
        requires product == x as u128 * bins as u128, x < width;
    (product / width as u128) as usize
}

/// The spectrum value that column `x` reads.
pub fn value_for_column<T: Copy>(spectrum: &[T], zero: T, x: u32, width: u32) -> (v: T)
    requires
        x < width,
    ensures
        v == column_value(spectrum@, zero, x as int, width as int),
{
    let bin = bin_for_column(x, width, spectrum.len());
    if bin < spectrum.len() {
        spectrum[bin]
    } else {
        zero
    }
}

/// Paints a whole frame: every pixel `p` (column `p % width`, row
/// `p / width`) gets the tinted gray level that `shade` gives for its column,
/// row and column value, with alpha 255. The old contents are never read.
pub fn render_frame<T: Copy, G: Fn(u32, u32, T) -> u8>(
    frame: &mut [u8],
    width: u32,
    height: u32,
    spectrum: &[T],
    zero: T,
    tint: ColorScheme,
    shade: G,
)
    requires
        old(frame)@.len() == 4 * width * height,
        forall|x: u32, y: u32, m: T| shade.requires((x, y, m)),
    ensures
        frame_rendered(final(frame)@, width as int, height as int, spectrum@, zero, tint, shade),
        forall|p: int| 0 <= p < width * height ==> #[trigger] final(frame)@[4 * p + 3] == 255,
{
    let ghost w = width as int;
    let ghost h = height as int;
    assert(4 * w * h == 4 * (w * h)) by (nonlinear_arith);
    let pixels: usize = frame.len() / 4;
    let mut p: usize = 0;
    let ghost mut levels: Seq<u8> = Seq::empty();
    while p < pixels
        invariant
            w == width,
            h == height,
            pixels == w * h,
            frame@.len() == 4 * pixels,
            frame@.len() <= usize::MAX,
            frame@.len() == 4 * w * h,
            p <= pixels,
            levels.len() == p,
            forall|x: u32, y: u32, m: T| shade.requires((x, y, m)),
            forall|q: int|
                0 <= q < p ==> #[trigger] pixel_is(frame@, q, mapped_color(levels[q], tint)),
            forall|q: int|
                0 <= q < p ==> call_ensures(shade, shade_args(q, w, spectrum@, zero), #[trigger] levels[q]),
        decreases pixels - p,
    {
        assert(w > 0) by (nonlinear_arith)
            requires p < w * h, h >= 0, w >= 0;
        let column: usize = p % width as usize;
        let row: usize = p / width as usize;
        proof {
            lemma_fundamental_div_mod(p as int, w);
            assert(row < h) by (nonlinear_arith)
                requires p == w * (p as int / w) + p as int % w, p as int % w >= 0, p < w * h,
                    row == p as int / w, w > 0;
        }
        let x: u32 = column as u32;
        let y: u32 = row as u32;
        let m = value_for_column(spectrum, zero, x, width);
        let level: u8 = shade(x, y, m);
        let c = map_color(level, tint);
        let ghost before = frame@;
        let ghost old_levels = levels;
        let base: usize = 4 * p;
        frame[base] = c.r;
        frame[base + 1] = c.g;
        frame[base + 2] = c.b;
        frame[base + 3] = 255;
        proof {
            levels = levels.push(level);
            assert forall|q: int| 0 <= q < p implies #[trigger] pixel_is(
                frame@,
                q,
                mapped_color(levels[q], tint),
            ) by {
                assert(pixel_is(before, q, mapped_color(levels[q], tint)));
            }
            assert(shade_args(p as int, w, spectrum@, zero) == (x, y, m));
            assert forall|q: int| 0 <= q < p + 1 implies call_ensures(
                shade,
                shade_args(q, w, spectrum@, zero),
                #[trigger] levels[q],
            ) by {
                if q < p {
                    assert(levels[q] == old_levels[q]);
                }
            }
            assert(pixel_is(frame@, p as int, mapped_color(levels[p as int], tint)));
        }
        p = p + 1;
    }
    assert forall|q: int| 0 <= q < w * h implies #[trigger] pixel_shaded(
        frame@,
        q,
        w,
        spectrum@,
        zero,
        tint,
        shade,
    ) by {
        assert(pixel_is(frame@, q, mapped_color(levels[q], tint)));
    }
    assert forall|q: int| 0 <= q < w * h implies #[trigger] frame@[4 * q + 3] == 255 by {
        assert(pixel_is(frame@, q, mapped_color(levels[q], tint)));
    }
}

} // verus!
