//! Colours with an alpha and a white channel, in fixed point.

use crate::num::{clamp, clamp_spec, rem_floor, times, times_spec, UNIT};
use crate::wave::{lerp, lerp_spec, Range};
use vstd::prelude::*;
use vstd::std_specs::convert::FromSpecImpl;

verus! {

/// A colour: alpha, red, green, blue and white, each a fraction in fixed point.
#[derive(Clone, Copy, Debug, PartialEq, Eq, Structural)]
pub struct Color {
    pub a: i64,
    pub r: i64,
    pub g: i64,
    pub b: i64,
    pub w: i64,
}

/// How far the hue `h`, moved on by `shift`, is from its channel's dark band:
/// `|6 * frac(h + shift) - 3| - 1`, clamped to `[0, 1]`.
pub open spec fn hue_weight_spec(h: i64, shift: i64) -> i64 {
    let f = (h + shift) % (UNIT as int);
    let d = 6 * f - 3 * UNIT;
    let k = if d < 0 {
        -d - UNIT
    } else {
        d - UNIT
    };
    clamp_spec(k as i64, 0, UNIT)
}

#[verifier::when_used_as_spec(hue_weight_spec)]
pub fn hue_weight(h: i64, shift: i64) -> (r: i64)
    ensures
        r == hue_weight_spec(h, shift),
        0 <= r <= UNIT,
{
    let f = rem_floor(h as i128 + shift as i128, UNIT as i128) as i64;
    let d = 6 * f - 3 * UNIT;
    let k = if d < 0 {
        -d - UNIT
    } else {
        d - UNIT
    };
    clamp(k, 0, UNIT)
}

/// One channel of `hsv`: `v * (1 + s * (k - 1))` with `k` the hue's weight.
pub open spec fn hsv_channel_spec(h: i64, shift: i64, s: i64, v: i64) -> i64 {
    times_spec(v, lerp_spec(s, Range { lo: UNIT, hi: hue_weight_spec(h, shift) }))
}

#[verifier::when_used_as_spec(hsv_channel_spec)]
pub fn hsv_channel(h: i64, shift: i64, s: i64, v: i64) -> (r: i64)
    ensures
        r == hsv_channel_spec(h, shift, s, v),
{
    times(v, lerp(s, Range { lo: UNIT, hi: hue_weight(h, shift) }))
}

/// A value times 0 is 0, and times 1 it is itself.
pub proof fn lemma_times_ends(x: i64)
    ensures
        times_spec(x, 0) == 0,
        times_spec(x, UNIT) == x,
{
}

impl Color {
    pub fn argbw(a: i64, r: i64, g: i64, b: i64, w: i64) -> (c: Self)
        ensures
            c == (Color { a, r, g, b, w }),
    {
        Color { a, r, g, b, w }
    }

    pub fn argb(a: i64, r: i64, g: i64, b: i64) -> (c: Self)
        ensures
            c == (Color { a, r, g, b, w: 0 }),
    {
        Self::argbw(a, r, g, b, 0)
    }

    pub fn aw(a: i64, w: i64) -> (c: Self)
        ensures
            c == (Color { a, r: 0, g: 0, b: 0, w }),
    {
        Self::argbw(a, 0, 0, 0, w)
    }

    pub fn rgbw(r: i64, g: i64, b: i64, w: i64) -> (c: Self)
        ensures
            c == (Color { a: UNIT, r, g, b, w }),
    {
        Self::argbw(UNIT, r, g, b, w)
    }

    pub fn rgb(r: i64, g: i64, b: i64) -> (c: Self)
        ensures
            c == (Color { a: UNIT, r, g, b, w: 0 }),
    {
        Self::argb(UNIT, r, g, b)
    }

    pub fn w(w: i64) -> (c: Self)
        ensures
            c == (Color { a: UNIT, r: 0, g: 0, b: 0, w }),
    {
        Self::aw(UNIT, w)
    }

    /// The opaque colour of hue `h` (one turn of the colour wheel per 1.0),
    /// saturation `s` and value `v`.
    pub open spec fn hsv_spec(h: i64, s: i64, v: i64) -> Color {
        Color {
            a: UNIT,
            r: hsv_channel_spec(h, UNIT, s, v),
            g: hsv_channel_spec(h, 666_666, s, v),
            b: hsv_channel_spec(h, 333_333, s, v),
            w: 0,
        }
    }

    #[verifier::when_used_as_spec(hsv_spec)]
    pub fn hsv(h: i64, s: i64, v: i64) -> (c: Self)
        ensures
            c == Self::hsv_spec(h, s, v),
    {
        let r = hsv_channel(h, UNIT, s, v);
        let g = hsv_channel(h, 666_666, s, v);
        let b = hsv_channel(h, 333_333, s, v);
        Self::rgb(r, g, b)
    }

    pub open spec fn a_spec(self, a: i64) -> Color {
        Color { a, r: self.r, g: self.g, b: self.b, w: self.w }
    }

    /// The colour with its alpha set to `a`.
    #[verifier::when_used_as_spec(a_spec)]
    pub fn a(self, a: i64) -> (c: Self)
        ensures
            c == self.a_spec(a),
    {
        Color { a, r: self.r, g: self.g, b: self.b, w: self.w }
    }

    /// The light that the colour gives on the four channels of a fixture:
    /// red, green, blue and white, each multiplied by the alpha.
    pub open spec fn channels_spec(self) -> (i64, i64, i64, i64) {
        (
            times_spec(self.r, self.a),
            times_spec(self.g, self.a),
            times_spec(self.b, self.a),
            times_spec(self.w, self.a),
        )
    }

    /// The light on the four channels. At an alpha of 0 every channel is
    /// dark, and at an alpha of 1 every channel is as the colour has it.
    #[verifier::when_used_as_spec(channels_spec)]
    pub fn channels(self) -> (c: (i64, i64, i64, i64))
        ensures
            c == self.channels_spec(),
            self.a == 0 ==> c == (0i64, 0i64, 0i64, 0i64),
            self.a == UNIT ==> c == (self.r, self.g, self.b, self.w),
    {
        proof {
            lemma_times_ends(self.r);
            lemma_times_ends(self.g);
            lemma_times_ends(self.b);
            lemma_times_ends(self.w);
        }
        (times(self.r, self.a), times(self.g, self.a), times(self.b, self.a), times(self.w, self.a))
    }

    pub open spec fn a_mul_spec(self, a: i64) -> Color {
        Color { a: times_spec(self.a, a), r: self.r, g: self.g, b: self.b, w: self.w }
    }

    /// The colour with its alpha multiplied by `a`.
    #[verifier::when_used_as_spec(a_mul_spec)]
    pub fn a_mul(self, a: i64) -> (c: Self)
        ensures
            c == self.a_mul_spec(a),
    {
        Color { a: times(self.a, a), r: self.r, g: self.g, b: self.b, w: self.w }
    }
}

/// A colour of the pad's built-in palette.
#[derive(Clone, Copy, Debug, PartialEq, Eq, Structural)]
pub enum PaletteColor {
    Index(u8),
    Off,
    White,
    Red,
    Orange,
    Yellow,
    Pea,
    Lime,
    Mint,
    Cyan,
    Blue,
    Violet,
    Magenta,
    Pink,
}

/// What a pad button is lit with: a palette colour, or red, green and blue.
#[derive(Clone, Copy, Debug, PartialEq, Eq, Structural)]
pub enum PadColor {
    Palette(PaletteColor),
    Rgb(i64, i64, i64),
}

impl PaletteColor {
    /// Each named palette colour as the colour of that name; an indexed one as white.
    pub open spec fn color_spec(self) -> Color {
        match self {
            PaletteColor::Index(_) => Color { a: UNIT, r: 0, g: 0, b: 0, w: UNIT },
            PaletteColor::Off => Color { a: 0, r: 0, g: 0, b: 0, w: 0 },
            PaletteColor::White => Color { a: UNIT, r: 0, g: 0, b: 0, w: UNIT },
            PaletteColor::Red => Color { a: UNIT, r: UNIT, g: 0, b: 0, w: 0 },
            PaletteColor::Orange => Color { a: UNIT, r: UNIT, g: 251_000, b: 0, w: 0 },
            PaletteColor::Yellow => Color { a: UNIT, r: UNIT, g: UNIT, b: 0, w: 0 },
            PaletteColor::Pea => Color { a: UNIT, r: 533_000, g: UNIT, b: 0, w: 0 },
            PaletteColor::Lime => Color { a: UNIT, r: 0, g: UNIT, b: 0, w: 0 },
            PaletteColor::Mint => Color { a: UNIT, r: 0, g: UNIT, b: 267_000, w: 0 },
            PaletteColor::Cyan => Color { a: UNIT, r: 0, g: 800_000, b: UNIT, w: 0 },
            PaletteColor::Blue => Color { a: UNIT, r: 0, g: 0, b: UNIT, w: 0 },
            PaletteColor::Violet => Color { a: UNIT, r: 533_000, g: 0, b: UNIT, w: 0 },
            PaletteColor::Magenta => Color { a: UNIT, r: UNIT, g: 0, b: UNIT, w: 0 },
            PaletteColor::Pink => Color { a: UNIT, r: UNIT, g: 380_000, b: 800_000, w: 0 },
        }
    }

    #[verifier::when_used_as_spec(color_spec)]
    pub fn color(self) -> (c: Color)
        ensures
            c == self.color_spec(),
    {
        match self {
            PaletteColor::Index(_) => Color::w(UNIT),
            PaletteColor::Off => Color::argbw(0, 0, 0, 0, 0),
            PaletteColor::White => Color::w(UNIT),
            PaletteColor::Red => Color::rgb(UNIT, 0, 0),
            PaletteColor::Orange => Color::rgb(UNIT, 251_000, 0),
            PaletteColor::Yellow => Color::rgb(UNIT, UNIT, 0),
            PaletteColor::Pea => Color::rgb(533_000, UNIT, 0),
            PaletteColor::Lime => Color::rgb(0, UNIT, 0),
            PaletteColor::Mint => Color::rgb(0, UNIT, 267_000),
            PaletteColor::Cyan => Color::rgb(0, 800_000, UNIT),
            PaletteColor::Blue => Color::rgb(0, 0, UNIT),
            PaletteColor::Violet => Color::rgb(533_000, 0, UNIT),
            PaletteColor::Magenta => Color::rgb(UNIT, 0, UNIT),
            PaletteColor::Pink => Color::rgb(UNIT, 380_000, 800_000),
        }
    }
}

impl From<PaletteColor> for Color {
    fn from(p: PaletteColor) -> (c: Color) {
        p.color()
    }
}

impl FromSpecImpl<PaletteColor> for Color {
    open spec fn obeys_from_spec() -> bool {
        true
    }

    open spec fn from_spec(p: PaletteColor) -> Color {
        p.color_spec()
    }
}

/// Whether `color` is pure white, on the white channel or as red, green and blue.
pub open spec fn is_white_spec(color: Color) -> bool {
    ||| color == (Color { a: UNIT, r: 0, g: 0, b: 0, w: UNIT })
    ||| color == (Color { a: UNIT, r: UNIT, g: UNIT, b: UNIT, w: 0 })
}

#[verifier::when_used_as_spec(is_white_spec)]
pub fn is_white(color: Color) -> (r: bool)
    ensures
        r == is_white_spec(color),
{
    color.a == UNIT && ((color.r == 0 && color.g == 0 && color.b == 0 && color.w == UNIT) || (
    color.r == UNIT && color.g == UNIT && color.b == UNIT && color.w == 0))
}

impl From<Color> for PadColor {
    fn from(color: Color) -> (p: PadColor) {
        if is_white(color) {
            PadColor::Palette(PaletteColor::White)
        } else {
            PadColor::Rgb(
                times(color.r, color.a),
                times(color.g, color.a),
                times(color.b, color.a),
            )
        }
    }
}

impl FromSpecImpl<Color> for PadColor {
    open spec fn obeys_from_spec() -> bool {
        true
    }

    /// Pure white as the palette's white; any other colour as its red, green
    /// and blue, each multiplied by the alpha.
    open spec fn from_spec(color: Color) -> PadColor {
        if is_white_spec(color) {
            PadColor::Palette(PaletteColor::White)
        } else {
            PadColor::Rgb(
                times_spec(color.r, color.a),
                times_spec(color.g, color.a),
                times_spec(color.b, color.a),
            )
        }
    }
}

} // verus!
