//! Options applied to one render call.
//!
//! The scale factor is carried in thousandths of the linear magnification
//! relative to each page's native size, so that the core stays in integer
//! arithmetic: a `scale_milli` of 1000 means native size, 2000 doubles each
//! pixel dimension, 500 halves it. Vector rasterizers typically receive it
//! as DPI = 72 × scale.

use vstd::prelude::*;
use vstd::string::StringExecFns;
use crate::decimal::spec_decimal;
use crate::decimal::spec_digit_char;
use crate::decimal::decimal_string;

verus! {

/// The largest accepted scale, in thousandths: a magnification of one
/// million, far beyond any realistic raster size, kept finite so that pixel
/// arithmetic cannot overflow.
pub const MAX_SCALE_MILLI: u64 = 1_000_000_000;

/// The options that should be applied when rendering a PDF.
#[derive(Clone, Copy, PartialEq, Eq, Structural, Debug)]
pub struct RenderOptions {
    /// The linear magnification factor, in thousandths (1000 = native size).
    pub scale_milli: u64,
}

/// The digits written after the decimal point for a fractional part of
/// `frac` thousandths, with trailing zeros trimmed.
pub open spec fn spec_frac_digits(frac: nat) -> Seq<char>
    recommends
        0 < frac < 1000,
{
    if frac % 100 == 0 {
        seq![spec_digit_char((frac / 100) as int)]
    } else if frac % 10 == 0 {
        seq![spec_digit_char((frac / 100) as int), spec_digit_char(((frac / 10) % 10) as int)]
    } else {
        seq![
            spec_digit_char((frac / 100) as int),
            spec_digit_char(((frac / 10) % 10) as int),
            spec_digit_char((frac % 10) as int),
        ]
    }
}

/// The decimal text of a number of thousandths: the whole part, then a
/// point and the fractional digits when the fraction is not zero.
/// 1000 is written `1`, 1500 is written `1.5`, 25 is written `0.025`.
pub open spec fn spec_milli_text(milli: nat) -> Seq<char> {
    if milli % 1000 == 0 {
        spec_decimal(milli / 1000)
    } else {
        spec_decimal(milli / 1000) + "."@ + spec_frac_digits(milli % 1000)
    }
}

impl RenderOptions {
    /// Whether the options are well-formed: a positive scale no larger than
    /// the overflow guard.
    pub open spec fn valid(self) -> bool {
        0 < self.scale_milli <= MAX_SCALE_MILLI
    }

    /// Construct options with the given scale in thousandths.
    pub fn new(scale_milli: u64) -> (r: Self)
        requires
            0 < scale_milli <= MAX_SCALE_MILLI,
        ensures
            r.scale_milli == scale_milli,
            r.valid(),
    {
        RenderOptions { scale_milli }
    }

    /// The scale as positional command-line text, e.g. `1`, `1.5` or `0.25`.
    pub fn scale_text(&self) -> (r: String)
        ensures
            r@ == spec_milli_text(self.scale_milli as nat),
    {
        milli_text(self.scale_milli)
    }

    /// The scale as dots per inch, in thousandths: 72 × the magnification.
    pub fn dpi_milli(&self) -> (r: u64)
        requires
            self.valid(),
        ensures
            r == 72 * self.scale_milli,
    {
        72 * self.scale_milli
    }

    /// The DPI as positional command-line text, e.g. `72` or `108`.
    pub fn dpi_text(&self) -> (r: String)
        requires
            self.valid(),
        ensures
            r@ == spec_milli_text((72 * self.scale_milli) as nat),
    {
        milli_text(72 * self.scale_milli)
    }
}

impl Default for RenderOptions {
    /// The default options render at native size.
    fn default() -> (r: Self)
        ensures
            r.scale_milli == 1000,
            r.valid(),
    {
        RenderOptions { scale_milli: 1000 }
    }
}

/// Render a number of thousandths as decimal text.
pub fn milli_text(milli: u64) -> (r: String)
    ensures
        r@ == spec_milli_text(milli as nat),
{
    let whole = milli / 1000;
    let frac = milli % 1000;
    let mut s = decimal_string(whole);
    if frac == 0 {
        return s;
    }
    s.append(".");
    s.append(frac_digits(frac).as_str());
    s
}

/// Render the fractional digits of `frac` thousandths, trailing zeros
/// trimmed.
fn frac_digits(frac: u64) -> (r: String)
    requires
        0 < frac < 1000,
    ensures
        r@ == spec_frac_digits(frac as nat),
{
    let mut s = decimal_string(frac / 100);
    if frac % 100 == 0 {
        return s;
    }
    s.append(decimal_string((frac / 10) % 10).as_str());
    if frac % 10 == 0 {
        return s;
    }
    s.append(decimal_string(frac % 10).as_str());
    s
}

} // verus!
