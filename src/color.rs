//! Conversion of the document's color models to 8-bit RGB.
use vstd::prelude::*;
use crate::geometry::{lemma_round_div_negative, round_div, round_div_exec};

verus! {

/// A fill or stroke color; each component counts thousandths, so `1000` is full intensity.
#[derive(Clone, Copy, Debug, PartialEq, Eq)]
pub enum Color {
    Gray(i32),
    Rgb(i32, i32, i32),
    Cmyk(i32, i32, i32, i32),
    Other,
}

/// An 8-bit RGB triple as the surface's style setters take it.
#[derive(Clone, Copy, Debug, PartialEq, Eq, Structural)]
pub struct Rgb8 {
    pub r: u8,
    pub g: u8,
    pub b: u8,
}

/// `v` clamped into `[0, 255]`.
pub open spec fn clamp_byte(v: int) -> int {
    if v < 0 {
        0
    } else if v > 255 {
        255
    } else {
        v
    }
}

/// A component in thousandths scaled to `0..=255`: `round(v * 255)` clamped.
pub open spec fn channel(v: int) -> int {
    clamp_byte(round_div(v * 255, 1000))
}

/// Naive CMYK channel: `round((1 - c)(1 - k) * 255)` clamped.
pub open spec fn cmyk_channel(c: int, k: int) -> int {
    clamp_byte(round_div((1000 - c) * (1000 - k) * 255, 1000000))
}

pub open spec fn rgb_spec(r: int, g: int, b: int) -> Rgb8 {
    Rgb8 { r: r as u8, g: g as u8, b: b as u8 }
}

/// The RGB triple that a color converts to; other color models give black.
pub open spec fn color_rgb(c: Color) -> Rgb8 {
    match c {
        Color::Gray(v) => rgb_spec(channel(v as int), channel(v as int), channel(v as int)),
        Color::Rgb(r, g, b) => rgb_spec(channel(r as int), channel(g as int), channel(b as int)),
        Color::Cmyk(c, m, y, k) => rgb_spec(
            cmyk_channel(c as int, k as int),
            cmyk_channel(m as int, k as int),
            cmyk_channel(y as int, k as int),
        ),
        Color::Other => rgb_spec(0, 0, 0),
    }
}

/// `round(v / d)` clamped into a byte.
fn scaled_byte(v: i128, d: i128) -> (r: u8)
    requires
        0 < d <= 1000000,
        -0x1000_0000_0000_0000_0000_0000 <= v <= 0x1000_0000_0000_0000_0000_0000,
    ensures
        r as int == clamp_byte(round_div(v as int, d as int)),
{
    if v < 0 {
        proof {
            lemma_round_div_negative(v as int, d as int);
        }
        return 0;
    }
    let q = round_div_exec(v, d);
    if q > 255 {
        255
    } else {
        q as u8
    }
}

fn channel_of(v: i32) -> (r: u8)
    ensures
        r as int == channel(v as int),
{
    scaled_byte(v as i128 * 255, 1000)
}

fn cmyk_channel_of(c: i32, k: i32) -> (r: u8)
    ensures
        r as int == cmyk_channel(c as int, k as int),
{
    let a = 1000 - c as i128;
    let b = 1000 - k as i128;
    assert(-0x1_0000_0000 <= a <= 0x1_0000_0000);
    assert(-0x1_0000_0000 <= b <= 0x1_0000_0000);
    assert(-0x1_0000_0000_0000_0000 <= a * b <= 0x1_0000_0000_0000_0000) by (nonlinear_arith)
        requires
            -0x1_0000_0000 <= a <= 0x1_0000_0000,
            -0x1_0000_0000 <= b <= 0x1_0000_0000,
    ;
    scaled_byte(a * b * 255, 1000000)
}

/// Converts a color to the RGB triple given to the surface.
pub fn to_rgb(c: &Color) -> (r: Rgb8)
    ensures
        r == color_rgb(*c),
{
    match c {
        Color::Gray(v) => {
            let x = channel_of(*v);
            Rgb8 { r: x, g: x, b: x }
        },
        Color::Rgb(r, g, b) => Rgb8 { r: channel_of(*r), g: channel_of(*g), b: channel_of(*b) },
        Color::Cmyk(c, m, y, k) => Rgb8 {
            r: cmyk_channel_of(*c, *k),
            g: cmyk_channel_of(*m, *k),
            b: cmyk_channel_of(*y, *k),
        },
        Color::Other => Rgb8 { r: 0, g: 0, b: 0 },
    }
}

} // verus!
