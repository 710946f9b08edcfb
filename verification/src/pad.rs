//! What the pad shows: a grid of nine by nine cells, eight by eight buttons
//! with a column of edge buttons on the right and a row of them on top. And
//! what the control surface shows: a row of eight lights.

use crate::color::{Color, PaletteColor};
use crate::logic::{manual_level, manual_level_spec, strobe_duty, strobe_duty_spec};
use crate::num::{minus, minus_spec, UNIT};
use crate::pattern::BeamPattern;
use crate::state::{phase, phase_spec, Mode, Palette, State};
use crate::utils::Pd;
use crate::wave::{
    boolean_square, boolean_square_spec, ease_in_out_exp, ease_in_out_exp_spec, ease_in_quad,
    ease_in_quad_spec, ease_in_sine, ease_in_sine_spec, ease_out_exp, ease_out_exp_spec, invert,
    invert_spec, phase_shift, phase_shift_spec, square, square_spec, triangle, triangle_spec,
    unit_sine, unit_sine_spec,
};
use vstd::prelude::*;

verus! {

/// How bright a light of the control surface is.
#[derive(Clone, Copy, Debug, PartialEq, Eq, Structural)]
pub enum Brightness {
    Off,
    Low,
    Medium,
    High,
}

/// The light of column `i` of the control surface: a triangle wave of two
/// beats, each column an eighth of a beat behind the one before, eased in
/// with a sine and cut into four levels of equal height.
pub open spec fn ctrl_light_spec(s: &State, i: usize) -> Brightness {
    let level = ease_in_sine_spec(
        triangle_spec(minus_spec(s.phi, (i * 125_000) as i64), (2 * UNIT) as i64),
    );
    if level < 250_000 {
        Brightness::Off
    } else if level < 500_000 {
        Brightness::Low
    } else if level < 750_000 {
        Brightness::Medium
    } else {
        Brightness::High
    }
}

#[verifier::when_used_as_spec(ctrl_light_spec)]
pub fn ctrl_light(s: &State, i: usize) -> (r: Brightness)
    requires
        i < 8,
    ensures
        r == ctrl_light_spec(s, i),
{
    let level = ease_in_sine(triangle(minus(s.phi, (i * 125_000) as i64), 2 * UNIT));
    if level < 250_000 {
        Brightness::Off
    } else if level < 500_000 {
        Brightness::Low
    } else if level < 750_000 {
        Brightness::Medium
    } else {
        Brightness::High
    }
}

/// The eight lights of the control surface for this frame, column by column.
pub fn render_ctrl(s: &State) -> (lights: Vec<Brightness>)
    ensures
        lights@.len() == 8,
        forall|i: int| 0 <= i < 8 ==> #[trigger] lights@[i] == ctrl_light_spec(s, i as usize),
{
    let mut lights: Vec<Brightness> = Vec::new();
    let mut i: usize = 0;
    while i < 8
        invariant
            0 <= i <= 8,
            lights@.len() == i,
            forall|k: int| 0 <= k < i ==> #[trigger] lights@[k] == ctrl_light_spec(s, k as usize),
        decreases 8 - i,
    {
        lights.push(ctrl_light(s, i));
        i = i + 1;
    }
    lights
}

/// Cells along each side of the pad's grid.
pub const PAD_SIDE: usize = 9;

/// The speed of the spiral that the pad shows in the state's mode, in
/// radians per second; none where the pad shows no spiral.
pub open spec fn spiral_speed_spec(s: &State) -> Option<i64> {
    if s.debug {
        None
    } else {
        match s.mode {
            Mode::Whirl { .. } => Some(8_000_000),
            Mode::Chase { .. } => Some(12_000_000),
            _ => None,
        }
    }
}

#[verifier::when_used_as_spec(spiral_speed_spec)]
pub fn spiral_speed(s: &State) -> (r: Option<i64>)
    ensures
        r == spiral_speed_spec(s),
{
    if s.debug {
        None
    } else {
        match s.mode {
            Mode::Whirl { .. } => Some(8_000_000),
            Mode::Chase { .. } => Some(12_000_000),
            _ => None,
        }
    }
}

/// The brightness of the spiral at the button `(x, y)`: the entry of `swirl`
/// at `8 * y + x`, and none where `swirl` has no such entry.
pub open spec fn swirl_at_spec(swirl: Seq<i64>, x: usize, y: usize) -> i64 {
    if 8 * y + x < swirl.len() {
        swirl[8 * y + x]
    } else {
        0
    }
}

pub fn swirl_at(swirl: &Vec<i64>, x: usize, y: usize) -> (r: i64)
    requires
        x < 8,
        y < 8,
    ensures
        r == swirl_at_spec(swirl@, x, y),
{
    if 8 * y + x < swirl.len() {
        swirl[8 * y + x]
    } else {
        0
    }
}

/// White as the pad shows it: red, green and blue in full.
pub open spec fn pad_white_spec() -> Color {
    Color { a: UNIT, r: UNIT, g: UNIT, b: UNIT, w: 0 }
}

#[verifier::when_used_as_spec(pad_white_spec)]
pub fn pad_white() -> (c: Color)
    ensures
        c == pad_white_spec(),
{
    Color::rgb(UNIT, UNIT, UNIT)
}

/// A beat indicator for the period `pd`: full at the start of every fourth
/// `pd`, fading out over it with a quadratic ease.
pub open spec fn beat_spec(s: &State, pd: Pd) -> i64 {
    ease_in_quad_spec(invert_spec(phase_spec(s.phi, pd.mul_spec(4))))
}

#[verifier::when_used_as_spec(beat_spec)]
pub fn beat(s: &State, pd: Pd) -> (r: i64)
    requires
        s.wf(),
        pd.wf(),
    ensures
        r == beat_spec(s, pd),
{
    ease_in_quad(invert(phase(s.phi, pd.mul(4))))
}

/// The cell `(x, y)` of the button guide.
///
/// Rows 0 to 5 of the grid show the modes: dark for the breaks, the
/// palette's colours for the solid modes, the same beating at one, a half
/// and a quarter of a beat for the flashing modes, and at a sixteenth and
/// less for the strobes. Rows 6 and 7 show the palettes. The outer columns
/// of rows 0 to 4, the manual beats, carry a wave that climbs at the tempo.
/// The top edge is white and the right edge violet, and their corner blinks
/// on every beat, in violet on the first beat of four.
pub open spec fn guide_cell_spec(s: &State, x: usize, y: usize) -> Color {
    let c0 = s.palette.color0_spec(s);
    let c1 = s.palette.color1_spec(s);
    let white = pad_white_spec();
    let violet = PaletteColor::Violet.color_spec();
    let black = PaletteColor::Off.color_spec();
    if x == 8 && y == 8 {
        if boolean_square_spec(phase_spec(s.phi, Pd(1, 1)), UNIT, 100_000) {
            if boolean_square_spec(phase_spec(s.phi, Pd(4, 1)), UNIT, 200_000) {
                violet
            } else {
                white
            }
        } else {
            black
        }
    } else if y == 8 {
        white
    } else if x == 8 {
        violet
    } else if y == 7 {
        if x == 0 || x == 7 {
            violet
        } else if x == 1 || x == 2 {
            PaletteColor::Red.color_spec()
        } else if x == 3 {
            PaletteColor::Magenta.color_spec()
        } else if x == 4 {
            PaletteColor::Pink.color_spec()
        } else if x == 5 {
            violet
        } else {
            Palette::Rainbow.color0_spec(s)
        }
    } else if y == 6 {
        if x == 0 || x == 7 {
            white
        } else if x == 1 || x == 2 {
            PaletteColor::Blue.color_spec()
        } else if x == 3 || x == 4 {
            PaletteColor::Cyan.color_spec()
        } else if x == 5 {
            PaletteColor::Mint.color_spec()
        } else {
            Palette::Oscillate.color0_spec(s)
        }
    } else if y == 5 {
        if x <= 3 {
            c0.a_mul_spec(beat_spec(s, Pd(1, 16)))
        } else if x <= 5 {
            c1.a_mul_spec(beat_spec(s, Pd(1, 16)))
        } else {
            white.a_mul_spec(beat_spec(s, Pd(1, 32)))
        }
    } else if x == 0 || x == 7 {
        white.a_mul_spec(
            unit_sine_spec(minus_spec(s.phi, (y * 200_000) as i64), (2 * UNIT) as i64),
        )
    } else {
        let c = if x <= 3 {
            c0
        } else {
            c1
        };
        if y == 0 {
            black
        } else if y == 1 {
            c
        } else if y == 2 {
            c.a_mul_spec(beat_spec(s, Pd(1, 1)))
        } else if y == 3 {
            c.a_mul_spec(beat_spec(s, Pd(1, 2)))
        } else {
            c.a_mul_spec(beat_spec(s, Pd(1, 4)))
        }
    }
}

pub fn guide_cell(s: &State, x: usize, y: usize) -> (c: Color)
    requires
        s.wf(),
        x < 9,
        y < 9,
    ensures
        c == guide_cell_spec(s, x, y),
{
    let c0 = s.palette.color0(s);
    let c1 = s.palette.color1(s);
    let white = pad_white();
    let violet = PaletteColor::Violet.color();
    let black = PaletteColor::Off.color();
    if x == 8 && y == 8 {
        if boolean_square(phase(s.phi, Pd(1, 1)), UNIT, 100_000) {
            if boolean_square(phase(s.phi, Pd(4, 1)), UNIT, 200_000) {
                violet
            } else {
                white
            }
        } else {
            black
        }
    } else if y == 8 {
        white
    } else if x == 8 {
        violet
    } else if y == 7 {
        if x == 0 || x == 7 {
            violet
        } else if x == 1 || x == 2 {
            PaletteColor::Red.color()
        } else if x == 3 {
            PaletteColor::Magenta.color()
        } else if x == 4 {
            PaletteColor::Pink.color()
        } else if x == 5 {
            violet
        } else {
            Palette::Rainbow.color0(s)
        }
    } else if y == 6 {
        if x == 0 || x == 7 {
            white
        } else if x == 1 || x == 2 {
            PaletteColor::Blue.color()
        } else if x == 3 || x == 4 {
            PaletteColor::Cyan.color()
        } else if x == 5 {
            PaletteColor::Mint.color()
        } else {
            Palette::Oscillate.color0(s)
        }
    } else if y == 5 {
        if x <= 3 {
            c0.a_mul(beat(s, Pd(1, 16)))
        } else if x <= 5 {
            c1.a_mul(beat(s, Pd(1, 16)))
        } else {
            white.a_mul(beat(s, Pd(1, 32)))
        }
    } else if x == 0 || x == 7 {
        white.a_mul(unit_sine(minus(s.phi, (y * 200_000) as i64), 2 * UNIT))
    } else {
        let c = if x <= 3 {
            c0
        } else {
            c1
        };
        if y == 0 {
            black
        } else if y == 1 {
            c
        } else if y == 2 {
            c.a_mul(beat(s, Pd(1, 1)))
        } else if y == 3 {
            c.a_mul(beat(s, Pd(1, 2)))
        } else {
            c.a_mul(beat(s, Pd(1, 4)))
        }
    }
}

/// The button `(x, y)` of the grid while the mode's animation shows.
///
/// A solid colour while all is on; a wave climbing at the tempo while the
/// rig flashes to the beat; a spiral, of the brightness that `swirl` gives,
/// for a whirl and, in white, for a chase; a wave rolling up and down while
/// beams rise or wave; the strobe itself in the strobe modes; the brighter
/// of the two flashes after manual beats; and dark in every other mode.
pub open spec fn show_cell_spec(s: &State, swirl: Seq<i64>, x: usize, y: usize) -> Color {
    let c0 = s.palette.color0_spec(s);
    let rolling = c0.a_mul_spec(
        invert_spec(
            ease_out_exp_spec(
                phase_shift_spec(
                    triangle_spec(phase_spec(s.phi, Pd(4, 1)), UNIT),
                    UNIT,
                    (y * 125_000) as i64,
                ),
            ),
        ),
    );
    match s.mode {
        Mode::On => c0,
        Mode::AutoBeat { .. } => c0.a_mul_spec(
            ease_in_out_exp_spec(
                unit_sine_spec(minus_spec(s.phi, (y * 125_000) as i64), (2 * UNIT) as i64),
            ),
        ),
        Mode::Whirl { .. } => c0.a_mul_spec(swirl_at_spec(swirl, x, y)),
        Mode::RaisingBeams { .. } => rolling,
        Mode::Break { beams: Some(BeamPattern::WaveY) } => rolling,
        Mode::Strobe { pd, duty } => c0.a_mul_spec(
            square_spec(phase_spec(s.phi, pd), UNIT, strobe_duty_spec(duty)),
        ),
        Mode::Strobe0 { pd, duty } => c0.a_mul_spec(
            square_spec(phase_spec(s.phi, pd), UNIT, strobe_duty_spec(duty)),
        ),
        Mode::Strobe1 { pd, duty } => c0.a_mul_spec(
            square_spec(phase_spec(s.phi, pd), UNIT, strobe_duty_spec(duty)),
        ),
        Mode::ManualBeat { t0, t1, pd0, pd1, r } => {
            let fr0 = manual_level_spec(s, t0, pd0, r);
            let fr1 = manual_level_spec(s, t1, pd1, r);
            c0.a_mul_spec(
                if fr0 >= fr1 {
                    fr0
                } else {
                    fr1
                },
            )
        },
        Mode::Chase { .. } => pad_white_spec().a_mul_spec(swirl_at_spec(swirl, x, y)),
        _ => PaletteColor::Off.color_spec(),
    }
}

pub fn show_cell(s: &State, swirl: &Vec<i64>, x: usize, y: usize) -> (c: Color)
    requires
        s.wf(),
        x < 8,
        y < 8,
    ensures
        c == show_cell_spec(s, swirl@, x, y),
{
    let c0 = s.palette.color0(s);
    match s.mode {
        Mode::On => c0,
        Mode::AutoBeat { .. } => c0.a_mul(
            ease_in_out_exp(unit_sine(minus(s.phi, (y * 125_000) as i64), 2 * UNIT)),
        ),
        Mode::Whirl { .. } => c0.a_mul(swirl_at(swirl, x, y)),
        Mode::RaisingBeams { .. } | Mode::Break { beams: Some(BeamPattern::WaveY) } => c0.a_mul(
            invert(
                ease_out_exp(
                    phase_shift(
                        triangle(phase(s.phi, Pd(4, 1)), UNIT),
                        UNIT,
                        (y * 125_000) as i64,
                    ),
                ),
            ),
        ),
        Mode::Strobe { pd, duty } | Mode::Strobe0 { pd, duty } | Mode::Strobe1 { pd, duty } => {
            c0.a_mul(square(phase(s.phi, pd), UNIT, strobe_duty(duty)))
        },
        Mode::ManualBeat { t0, t1, pd0, pd1, r } => {
            let fr0 = manual_level(s, t0, pd0, r);
            let fr1 = manual_level(s, t1, pd1, r);
            c0.a_mul(
                if fr0 >= fr1 {
                    fr0
                } else {
                    fr1
                },
            )
        },
        Mode::Chase { .. } => pad_white().a_mul(swirl_at(swirl, x, y)),
        _ => PaletteColor::Off.color(),
    }
}

/// What the cell `(x, y)` of the pad is lit with, if it is set at all: the
/// button guide on every cell, or the mode's animation on the buttons of the
/// grid and nothing on the edges.
pub open spec fn pad_cell_spec(s: &State, swirl: Seq<i64>, x: usize, y: usize) -> Option<Color> {
    if s.debug {
        Some(guide_cell_spec(s, x, y))
    } else if x < 8 && y < 8 {
        Some(show_cell_spec(s, swirl, x, y))
    } else {
        None
    }
}

pub fn pad_cell(s: &State, swirl: &Vec<i64>, x: usize, y: usize) -> (c: Option<Color>)
    requires
        s.wf(),
        x < 9,
        y < 9,
    ensures
        c == pad_cell_spec(s, swirl@, x, y),
{
    if s.debug {
        Some(guide_cell(s, x, y))
    } else if x < 8 && y < 8 {
        Some(show_cell(s, swirl, x, y))
    } else {
        None
    }
}

/// The pad for this frame, row by row from the bottom: the cell `(x, y)`
/// stands at `9 * y + x`. `swirl` holds the brightness of the spiral at each
/// button of the grid, the button `(x, y)` at `8 * y + x`; it is read only
/// where `spiral_speed` gives a speed.
pub fn render_pad(s: &State, swirl: &Vec<i64>) -> (grid: Vec<Option<Color>>)
    requires
        s.wf(),
    ensures
        grid@.len() == 81,
        forall|x: int, y: int|
            0 <= x < 9 && 0 <= y < 9 ==> #[trigger] grid@[9 * y + x] == pad_cell_spec(
                s,
                swirl@,
                x as usize,
                y as usize,
            ),
{
    let mut grid: Vec<Option<Color>> = Vec::new();
    let mut y: usize = 0;
    while y < 9
        invariant
            0 <= y <= 9,
            s.wf(),
            grid@.len() == 9 * y,
            forall|a: int, b: int|
                0 <= a < 9 && 0 <= b < y ==> #[trigger] grid@[9 * b + a] == pad_cell_spec(
                    s,
                    swirl@,
                    a as usize,
                    b as usize,
                ),
        decreases 9 - y,
    {
        let mut x: usize = 0;
        while x < 9
            invariant
                0 <= x <= 9,
                0 <= y < 9,
                s.wf(),
                grid@.len() == 9 * y + x,
                forall|a: int, b: int|
                    0 <= a < 9 && 0 <= b < y ==> #[trigger] grid@[9 * b + a] == pad_cell_spec(
                        s,
                        swirl@,
                        a as usize,
                        b as usize,
                    ),
                forall|a: int|
                    0 <= a < x ==> #[trigger] grid@[9 * y + a] == pad_cell_spec(
                        s,
                        swirl@,
                        a as usize,
                        y,
                    ),
            decreases 9 - x,
        {
            let cell = pad_cell(s, swirl, x, y);
            grid.push(cell);
            x = x + 1;
        }
        y = y + 1;
    }
    grid
}

} // verus!
