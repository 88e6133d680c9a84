//! Page geometry of the native adapters.
//!
//! A platform document API reports each page's crop box and a rotation of
//! 0, 90, 180 or 270 degrees (or their negative-angle equivalents). The
//! rendered pixel size is the crop box extent — swapped when the rotation
//! turns the page on its side — scaled by the requested magnification and
//! rounded up. Lengths are carried in thousandths of a point, so that the
//! arithmetic stays exact.

use vstd::prelude::*;
use vstd::arithmetic::div_mod::lemma_fundamental_div_mod;
use vstd::arithmetic::div_mod::lemma_fundamental_div_mod_converse;
use vstd::arithmetic::div_mod::lemma_mod_division_less_than_divisor;
use vstd::arithmetic::div_mod::lemma_div_is_ordered;
use crate::error::RenderError;
use crate::options::RenderOptions;
use crate::options::MAX_SCALE_MILLI;

verus! {

/// The largest accepted crop box extent, in thousandths of a point: a page
/// side of a thousand million points, far beyond any real document, kept
/// finite so that pixel arithmetic cannot overflow.
pub const MAX_EXTENT_MPT: u64 = 1_000_000_000_000;

/// Whether a page rotation swaps the rendered width and height: a quarter
/// turn in either direction does, a half or full turn does not.
pub open spec fn spec_swaps_extent(rotation: int) -> bool {
    rotation == 90 || rotation == 270 || rotation == -90 || rotation == -270
}

/// The pixel length of an extent of `extent_mpt` thousandths of a point
/// under a magnification of `scale_milli` thousandths: the product scaled
/// down by one million, rounded up.
pub open spec fn spec_scaled_pixels(extent_mpt: int, scale_milli: int) -> int {
    (extent_mpt * scale_milli + 999_999) / 1_000_000
}

/// The crop box extent as it will be rendered: swapped when the rotation
/// turns the page on its side.
pub fn rotated_extent(width_mpt: u64, height_mpt: u64, rotation: i32) -> (r: (u64, u64))
    ensures
        r == if spec_swaps_extent(rotation as int) {
            (height_mpt, width_mpt)
        } else {
            (width_mpt, height_mpt)
        },
{
    if rotation == 90 || rotation == 270 || rotation == -90 || rotation == -270 {
        (height_mpt, width_mpt)
    } else {
        (width_mpt, height_mpt)
    }
}

/// Scale one extent to pixels, rounding up.
pub fn scaled_pixels(extent_mpt: u64, scale_milli: u64) -> (r: u64)
    requires
        extent_mpt <= MAX_EXTENT_MPT,
        scale_milli <= MAX_SCALE_MILLI,
    ensures
        r == spec_scaled_pixels(extent_mpt as int, scale_milli as int),
{
    proof {
        assert(extent_mpt as int * scale_milli as int <= 1_000_000_000_000int
            * 1_000_000_000int) by (nonlinear_arith)
            requires
                0 <= extent_mpt as int <= 1_000_000_000_000int,
                0 <= scale_milli as int <= 1_000_000_000int,
        ;
        assert(0 <= extent_mpt as int * scale_milli as int) by (nonlinear_arith)
            requires
                0 <= extent_mpt as int,
                0 <= scale_milli as int,
        ;
    }
    let prod: u128 = (extent_mpt as u128) * (scale_milli as u128);
    let px: u128 = (prod + 999_999) / 1_000_000;
    proof {
        lemma_div_is_ordered(
            prod as int + 999_999,
            1_000_000_000_000int * 1_000_000_000int + 999_999,
            1_000_000,
        );
    }
    px as u64
}

/// The rendered pixel size of one page: the rotated crop box extent scaled
/// by the options' magnification, each dimension rounded up. A page whose
/// computed width or height is zero is a hard error.
pub fn page_pixel_size(
    width_mpt: u64,
    height_mpt: u64,
    rotation: i32,
    options: &RenderOptions,
) -> (r: Result<(u64, u64), RenderError>)
    requires
        width_mpt <= MAX_EXTENT_MPT,
        height_mpt <= MAX_EXTENT_MPT,
        options.valid(),
    ensures
        ({
            let w = if spec_swaps_extent(rotation as int) {
                height_mpt
            } else {
                width_mpt
            };
            let h = if spec_swaps_extent(rotation as int) {
                width_mpt
            } else {
                height_mpt
            };
            let pw = spec_scaled_pixels(w as int, options.scale_milli as int);
            let ph = spec_scaled_pixels(h as int, options.scale_milli as int);
            match r {
                Ok(dims) => dims.0 == pw && dims.1 == ph && pw > 0 && ph > 0,
                Err(e) => e is NativeAdapter && (pw == 0 || ph == 0),
            }
        }),
{
    let (w, h) = rotated_extent(width_mpt, height_mpt, rotation);
    let pw = scaled_pixels(w, options.scale_milli);
    let ph = scaled_pixels(h, options.scale_milli);
    if pw == 0 || ph == 0 {
        return Err(RenderError::NativeAdapter("invalid page dimensions".to_owned()));
    }
    Ok((pw, ph))
}

/// Doubling the scale approximately doubles each pixel dimension: the size
/// rendered at twice the magnification is exactly twice the size at the
/// base magnification, or one pixel less, the difference being rounding.
pub proof fn lemma_scale_doubling(extent_mpt: int, scale_milli: int)
    requires
        extent_mpt >= 0,
        scale_milli >= 0,
    ensures
        2 * spec_scaled_pixels(extent_mpt, scale_milli) - 1 <= spec_scaled_pixels(
            extent_mpt,
            2 * scale_milli,
        ),
        spec_scaled_pixels(extent_mpt, 2 * scale_milli) <= 2 * spec_scaled_pixels(
            extent_mpt,
            scale_milli,
        ),
{
    let m = 1_000_000int;
    let x = extent_mpt * scale_milli;
    assert(x >= 0) by (nonlinear_arith)
        requires
            extent_mpt >= 0,
            scale_milli >= 0,
            x == extent_mpt * scale_milli,
    ;
    assert(extent_mpt * (2 * scale_milli) == 2 * x) by (nonlinear_arith)
        requires
            x == extent_mpt * scale_milli,
    ;
    let q = x / m;
    let r = x % m;
    lemma_fundamental_div_mod(x, m);
    lemma_mod_division_less_than_divisor(x, m);
    if r == 0 {
        lemma_fundamental_div_mod_converse(x + m - 1, m, q, m - 1);
        lemma_fundamental_div_mod_converse(2 * x + m - 1, m, 2 * q, m - 1);
    } else {
        lemma_fundamental_div_mod_converse(x + m - 1, m, q + 1, r - 1);
        if 2 * r <= m {
            lemma_fundamental_div_mod_converse(2 * x + m - 1, m, 2 * q + 1, 2 * r - 1);
        } else {
            lemma_fundamental_div_mod_converse(2 * x + m - 1, m, 2 * q + 2, 2 * r - m - 1);
        }
    }
}

} // verus!
