//! Colours, and the pixel that a colour at a brightness level puts on the
//! wire: gamma-corrected first, then dimmed.
use vstd::prelude::*;

verus! {

/// A colour of three 8-bit channels.
#[derive(Clone, Copy, Debug, PartialEq, Eq, Structural)]
pub struct Rgb {
    pub r: u8,
    pub g: u8,
    pub b: u8,
}

/// The colour of a dark LED.
pub open spec fn black() -> Rgb {
    Rgb { r: 0, g: 0, b: 0 }
}

/// What `smart_leds::gamma` makes of one channel value: the entry of its
/// correction table for that value. The table is not restated here.
pub uninterp spec fn gamma_level(value: u8) -> u8;

/// One channel dimmed to `level`: the value times `level + 1`, in 256ths.
pub open spec fn scaled(value: u8, level: u8) -> u8 {
    ((value as int * (level as int + 1)) / 256) as u8
}

/// A colour with each channel gamma-corrected.
pub open spec fn corrected(colour: Rgb) -> Rgb {
    Rgb { r: gamma_level(colour.r), g: gamma_level(colour.g), b: gamma_level(colour.b) }
}

/// A colour with each channel dimmed to `level`.
pub open spec fn dimmed(colour: Rgb, level: u8) -> Rgb {
    Rgb { r: scaled(colour.r, level), g: scaled(colour.g, level), b: scaled(colour.b, level) }
}

/// The pixel shown for `colour` at brightness `level`.
pub open spec fn lit(colour: Rgb, level: u8) -> Rgb {
    dimmed(corrected(colour), level)
}

/// Calls `smart_leds::gamma` on a single pixel and takes the one pixel that
/// the adapter yields. Trusted: the result is `Some`, and each of its channels
/// is the table entry for the same channel of the input.
#[verifier::external_body]
fn gamma_one(colour: Rgb) -> (out: Option<Rgb>)
    ensures
        out == Some(
            Rgb {
                r: gamma_level(colour.r),
                g: gamma_level(colour.g),
                b: gamma_level(colour.b),
            },
        ),
{
    smart_leds::gamma([smart_leds::RGB8 { r: colour.r, g: colour.g, b: colour.b }].into_iter())
        .next()
        .map(|p| Rgb { r: p.r, g: p.g, b: p.b })
}

/// Calls `smart_leds::brightness` on a single pixel and takes the one pixel
/// that the adapter yields. Trusted: the result is `Some`, and each of its
/// channels is the input channel times `level + 1`, divided by 256.
#[verifier::external_body]
fn brightness_one(colour: Rgb, level: u8) -> (out: Option<Rgb>)
    ensures
        out == Some(dimmed(colour, level)),
{
    smart_leds::brightness(
        [smart_leds::RGB8 { r: colour.r, g: colour.g, b: colour.b }].into_iter(),
        level,
    )
        .next()
        .map(|p| Rgb { r: p.r, g: p.g, b: p.b })
}

/// Dims an already corrected pixel to `level`.
pub fn dim(pixel: Rgb, level: u8) -> (out: Rgb)
    ensures
        out == dimmed(pixel, level),
{
    match brightness_one(pixel, level) {
        Some(p) => p,
        // not taken: one pixel in, one pixel out
        None => pixel,
    }
}

/// Gamma-corrects a colour.
pub fn correct(colour: Rgb) -> (out: Rgb)
    ensures
        out == corrected(colour),
{
    match gamma_one(colour) {
        Some(c) => c,
        // not taken: one pixel in, one pixel out
        None => colour,
    }
}

/// At level zero every colour is dark, whatever the correction table holds.
pub proof fn lemma_level_zero_is_dark(colour: Rgb)
    ensures
        lit(colour, 0) == black(),
{
    assert(forall|v: u8| #[trigger] scaled(v, 0) == 0u8);
}

} // verus!
