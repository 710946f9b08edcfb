//! What the operator's pad and control surface do to the state.

use crate::color::{Color, PaletteColor};
use crate::lights::{Laser, LaserColor, LaserPattern, Lights};
use crate::num::{HALF, UNIT};
use crate::pattern::BeamPattern;
use crate::state::{tempo_spec, Mode, Palette, State};
use crate::utils::Pd;
use crate::wave::{byte, byte_spec, Range};
use vstd::prelude::*;

verus! {

/// An event of the pad: one of the buttons round its edge, pressed (`true`)
/// or released, or a button of the grid by its column `x` and row `y`.
#[derive(Clone, Copy, Debug, PartialEq, Eq, Structural)]
pub enum PadInput {
    Capture(bool),
    Custom(bool),
    Record(bool),
    Solo(bool),
    Mute(bool),
    Stop(bool),
    B(bool),
    A(bool),
    Pan(bool),
    Volume(bool),
    Up(bool),
    Down(bool),
    Left(bool),
    Right(bool),
    Press(i8, i8),
    Release(i8, i8),
}

/// An event of the control surface: a slider moved to a fraction of its
/// travel, a focus button pressed or released, or anything else.
#[derive(Clone, Copy, Debug, PartialEq, Eq, Structural)]
pub enum CtrlInput {
    Slider(u8, i64),
    Focus(u8, bool),
    Other,
}

/// Flashing to the beat once per `pd`, between a fifth of full brightness and all of it.
pub open spec fn auto_beat_spec(pd: Pd, beam: BeamPattern) -> Mode {
    Mode::AutoBeat { pd, r: Range { lo: 200_000, hi: UNIT }, beam }
}

#[verifier::when_used_as_spec(auto_beat_spec)]
pub fn auto_beat(pd: Pd, beam: BeamPattern) -> (m: Mode)
    ensures
        m == auto_beat_spec(pd, beam),
{
    Mode::AutoBeat { pd, r: Range { lo: 200_000, hi: UNIT }, beam }
}

/// The mode that the grid button at `(x, y)` selects, if it selects one.
pub open spec fn pad_mode_spec(x: i8, y: i8) -> Option<Mode> {
    if y == 0 {
        if x == 1 {
            Some(Mode::Off)
        } else if x == 2 {
            Some(Mode::Break { beams: Some(BeamPattern::Out) })
        } else if x == 3 {
            Some(Mode::RaisingBeams { pd: Pd(4, 1) })
        } else if x == 4 {
            Some(Mode::Break { beams: Some(BeamPattern::WaveY) })
        } else if x == 5 {
            Some(Mode::Whirl { pd: Pd(16, 1) })
        } else if x == 6 {
            Some(Mode::Break { beams: Some(BeamPattern::UpDownWave) })
        } else {
            None
        }
    } else if y == 1 {
        if 1 <= x <= 6 {
            Some(Mode::On)
        } else {
            None
        }
    } else if y == 2 {
        if x == 2 {
            Some(auto_beat_spec(Pd(4, 1), BeamPattern::RaisingBeams))
        } else if x == 3 {
            Some(auto_beat_spec(Pd(4, 1), BeamPattern::Twisting))
        } else if 1 <= x <= 6 {
            Some(auto_beat_spec(Pd(4, 1), BeamPattern::Square))
        } else {
            None
        }
    } else if y == 3 {
        if x == 2 {
            Some(auto_beat_spec(Pd(2, 1), BeamPattern::Whirl))
        } else if 1 <= x <= 6 {
            Some(auto_beat_spec(Pd(2, 1), BeamPattern::Square))
        } else {
            None
        }
    } else if y == 4 {
        if x == 2 {
            Some(auto_beat_spec(Pd(1, 1), BeamPattern::Twisting))
        } else if 1 <= x <= 6 {
            Some(auto_beat_spec(Pd(1, 1), BeamPattern::Square))
        } else {
            None
        }
    } else if y == 5 {
        if x == 0 {
            Some(Mode::Strobe0 { pd: Pd(1, 8), duty: UNIT })
        } else if x == 1 {
            Some(Mode::Strobe1 { pd: Pd(1, 8), duty: UNIT })
        } else if x == 2 {
            Some(Mode::Strobe { pd: Pd(1, 4), duty: UNIT })
        } else if x == 3 || x == 4 {
            Some(Mode::Strobe { pd: Pd(1, 8), duty: UNIT })
        } else if x == 5 {
            Some(Mode::ChaseNotColorful { pd: Pd(1, 4) })
        } else if x == 6 {
            Some(Mode::Chase { pd: Pd(1, 2), beam: BeamPattern::Twisting })
        } else if x == 7 {
            Some(Mode::Chase { pd: Pd(1, 4), beam: BeamPattern::Twisting })
        } else {
            None
        }
    } else {
        None
    }
}

#[verifier::when_used_as_spec(pad_mode_spec)]
pub fn pad_mode(x: i8, y: i8) -> (r: Option<Mode>)
    ensures
        r == pad_mode_spec(x, y),
        r matches Some(m) ==> m.wf(),
{
    if y == 0 {
        if x == 1 {
            Some(Mode::Off)
        } else if x == 2 {
            Some(Mode::Break { beams: Some(BeamPattern::Out) })
        } else if x == 3 {
            Some(Mode::RaisingBeams { pd: Pd(4, 1) })
        } else if x == 4 {
            Some(Mode::Break { beams: Some(BeamPattern::WaveY) })
        } else if x == 5 {
            Some(Mode::Whirl { pd: Pd(16, 1) })
        } else if x == 6 {
            Some(Mode::Break { beams: Some(BeamPattern::UpDownWave) })
        } else {
            None
        }
    } else if y == 1 {
        if 1 <= x && x <= 6 {
            Some(Mode::On)
        } else {
            None
        }
    } else if y == 2 {
        if x == 2 {
            Some(auto_beat(Pd(4, 1), BeamPattern::RaisingBeams))
        } else if x == 3 {
            Some(auto_beat(Pd(4, 1), BeamPattern::Twisting))
        } else if 1 <= x && x <= 6 {
            Some(auto_beat(Pd(4, 1), BeamPattern::Square))
        } else {
            None
        }
    } else if y == 3 {
        if x == 2 {
            Some(auto_beat(Pd(2, 1), BeamPattern::Whirl))
        } else if 1 <= x && x <= 6 {
            Some(auto_beat(Pd(2, 1), BeamPattern::Square))
        } else {
            None
        }
    } else if y == 4 {
        if x == 2 {
            Some(auto_beat(Pd(1, 1), BeamPattern::Twisting))
        } else if 1 <= x && x <= 6 {
            Some(auto_beat(Pd(1, 1), BeamPattern::Square))
        } else {
            None
        }
    } else if y == 5 {
        if x == 0 {
            Some(Mode::Strobe0 { pd: Pd(1, 8), duty: UNIT })
        } else if x == 1 {
            Some(Mode::Strobe1 { pd: Pd(1, 8), duty: UNIT })
        } else if x == 2 {
            Some(Mode::Strobe { pd: Pd(1, 4), duty: UNIT })
        } else if x == 3 || x == 4 {
            Some(Mode::Strobe { pd: Pd(1, 8), duty: UNIT })
        } else if x == 5 {
            Some(Mode::ChaseNotColorful { pd: Pd(1, 4) })
        } else if x == 6 {
            Some(Mode::Chase { pd: Pd(1, 2), beam: BeamPattern::Twisting })
        } else if x == 7 {
            Some(Mode::Chase { pd: Pd(1, 4), beam: BeamPattern::Twisting })
        } else {
            None
        }
    } else {
        None
    }
}

/// White on all four channels.
pub open spec fn full_white() -> Color {
    Color { a: UNIT, r: UNIT, g: UNIT, b: UNIT, w: UNIT }
}

/// The palette that the grid button at `(x, y)` selects, if it selects one.
pub open spec fn pad_palette_spec(x: i8, y: i8) -> Option<Palette> {
    if y == 7 {
        if x == 1 {
            Some(Palette::Solid(PaletteColor::Red.color_spec()))
        } else if x == 2 {
            Some(Palette::Split(PaletteColor::Red.color_spec(), PaletteColor::Magenta.color_spec()))
        } else if x == 3 {
            Some(Palette::Split(PaletteColor::Red.color_spec(), PaletteColor::Blue.color_spec()))
        } else if x == 4 {
            Some(Palette::Split(PaletteColor::Red.color_spec(), PaletteColor::Violet.color_spec()))
        } else if x == 5 {
            Some(Palette::Split(PaletteColor::Violet.color_spec(), PaletteColor::Red.color_spec()))
        } else if x == 6 {
            Some(Palette::Rainbow)
        } else {
            None
        }
    } else if y == 6 {
        if x == 0 {
            Some(Palette::Solid(PaletteColor::White.color_spec()))
        } else if x == 1 {
            Some(Palette::Solid(PaletteColor::Blue.color_spec()))
        } else if x == 2 {
            Some(Palette::Split(PaletteColor::Blue.color_spec(), PaletteColor::Cyan.color_spec()))
        } else if x == 3 {
            Some(Palette::Split(PaletteColor::Cyan.color_spec(), PaletteColor::Lime.color_spec()))
        } else if x == 4 {
            Some(Palette::Split(PaletteColor::Mint.color_spec(), PaletteColor::Mint.color_spec()))
        } else if x == 5 {
            Some(Palette::Split(PaletteColor::Lime.color_spec(), PaletteColor::Lime.color_spec()))
        } else if x == 6 {
            Some(Palette::Oscillate)
        } else if x == 7 {
            Some(Palette::Solid(full_white()))
        } else {
            None
        }
    } else {
        None
    }
}

#[verifier::when_used_as_spec(pad_palette_spec)]
pub fn pad_palette(x: i8, y: i8) -> (r: Option<Palette>)
    ensures
        r == pad_palette_spec(x, y),
{
    if y == 7 {
        if x == 1 {
            Some(Palette::Solid(PaletteColor::Red.color()))
        } else if x == 2 {
            Some(Palette::Split(PaletteColor::Red.color(), PaletteColor::Magenta.color()))
        } else if x == 3 {
            Some(Palette::Split(PaletteColor::Red.color(), PaletteColor::Blue.color()))
        } else if x == 4 {
            Some(Palette::Split(PaletteColor::Red.color(), PaletteColor::Violet.color()))
        } else if x == 5 {
            Some(Palette::Split(PaletteColor::Violet.color(), PaletteColor::Red.color()))
        } else if x == 6 {
            Some(Palette::Rainbow)
        } else {
            None
        }
    } else if y == 6 {
        if x == 0 {
            Some(Palette::Solid(PaletteColor::White.color()))
        } else if x == 1 {
            Some(Palette::Solid(PaletteColor::Blue.color()))
        } else if x == 2 {
            Some(Palette::Split(PaletteColor::Blue.color(), PaletteColor::Cyan.color()))
        } else if x == 3 {
            Some(Palette::Split(PaletteColor::Cyan.color(), PaletteColor::Lime.color()))
        } else if x == 4 {
            Some(Palette::Split(PaletteColor::Mint.color(), PaletteColor::Mint.color()))
        } else if x == 5 {
            Some(Palette::Split(PaletteColor::Lime.color(), PaletteColor::Lime.color()))
        } else if x == 6 {
            Some(Palette::Oscillate)
        } else if x == 7 {
            Some(Palette::Solid(Color::rgbw(UNIT, UNIT, UNIT, UNIT)))
        } else {
            None
        }
    } else {
        None
    }
}

/// The length of the flash that the manual-beat button in row `y` of the
/// left or right column fires: four beats in the lowest row, halving up to
/// a quarter of a beat in the fifth.
pub open spec fn pad_beat_spec(x: i8, y: i8) -> Option<Pd> {
    if x == 0 || x == 7 {
        if y == 0 {
            Some(Pd(4, 1))
        } else if y == 1 {
            Some(Pd(2, 1))
        } else if y == 2 {
            Some(Pd(1, 1))
        } else if y == 3 {
            Some(Pd(1, 2))
        } else if y == 4 {
            Some(Pd(1, 4))
        } else {
            None
        }
    } else {
        None
    }
}

#[verifier::when_used_as_spec(pad_beat_spec)]
pub fn pad_beat(x: i8, y: i8) -> (r: Option<Pd>)
    ensures
        r == pad_beat_spec(x, y),
        r matches Some(pd) ==> pd.wf(),
{
    if x == 0 || x == 7 {
        if y == 0 {
            Some(Pd(4, 1))
        } else if y == 1 {
            Some(Pd(2, 1))
        } else if y == 2 {
            Some(Pd(1, 1))
        } else if y == 3 {
            Some(Pd(1, 2))
        } else if y == 4 {
            Some(Pd(1, 4))
        } else {
            None
        }
    } else {
        None
    }
}

/// The mode after a manual beat of length `pd` is fired at time `t` on the
/// left (`left`) or right side. A manual-beat mode keeps its other side and
/// its range; any other mode gives way to a manual-beat mode whose other
/// side fired at time 0, fading from full brightness to none.
pub open spec fn fire_beat_spec(mode: Mode, left: bool, t: i64, pd: Pd) -> Mode {
    match mode {
        Mode::ManualBeat { t0, t1, pd0, pd1, r } => {
            if left {
                Mode::ManualBeat { t0: t, t1, pd0: pd, pd1, r }
            } else {
                Mode::ManualBeat { t0, t1: t, pd0, pd1: pd, r }
            }
        },
        _ => {
            if left {
                Mode::ManualBeat { t0: t, t1: 0, pd0: pd, pd1: pd, r: Range { lo: UNIT, hi: 0 } }
            } else {
                Mode::ManualBeat { t0: 0, t1: t, pd0: pd, pd1: pd, r: Range { lo: UNIT, hi: 0 } }
            }
        },
    }
}

#[verifier::when_used_as_spec(fire_beat_spec)]
pub fn fire_beat(mode: Mode, left: bool, t: i64, pd: Pd) -> (m: Mode)
    ensures
        m == fire_beat_spec(mode, left, t, pd),
{
    match mode {
        Mode::ManualBeat { t0, t1, pd0, pd1, r } => {
            if left {
                Mode::ManualBeat { t0: t, t1, pd0: pd, pd1, r }
            } else {
                Mode::ManualBeat { t0, t1: t, pd0, pd1: pd, r }
            }
        },
        _ => {
            if left {
                Mode::ManualBeat { t0: t, t1: 0, pd0: pd, pd1: pd, r: Range { lo: UNIT, hi: 0 } }
            } else {
                Mode::ManualBeat { t0: 0, t1: t, pd0: pd, pd1: pd, r: Range { lo: UNIT, hi: 0 } }
            }
        },
    }
}

/// The brightness that a button of the pad's right edge sets, if `input` is
/// the press of one.
pub open spec fn pad_brightness_spec(input: PadInput) -> Option<i64> {
    match input {
        PadInput::Record(true) => Some(70_000),
        PadInput::Solo(true) => Some(100_000),
        PadInput::Mute(true) => Some(125_000),
        PadInput::Stop(true) => Some(300_000),
        PadInput::B(true) => Some(400_000),
        PadInput::A(true) => Some(600_000),
        PadInput::Pan(true) => Some(800_000),
        PadInput::Volume(true) => Some(UNIT),
        _ => None,
    }
}

#[verifier::when_used_as_spec(pad_brightness_spec)]
pub fn pad_brightness(input: PadInput) -> (r: Option<i64>)
    ensures
        r == pad_brightness_spec(input),
{
    match input {
        PadInput::Record(true) => Some(70_000),
        PadInput::Solo(true) => Some(100_000),
        PadInput::Mute(true) => Some(125_000),
        PadInput::Stop(true) => Some(300_000),
        PadInput::B(true) => Some(400_000),
        PadInput::A(true) => Some(600_000),
        PadInput::Pan(true) => Some(800_000),
        PadInput::Volume(true) => Some(UNIT),
        _ => None,
    }
}

/// The mode after `input`: a press on the grid fires a manual beat or
/// selects a mode, by the button pressed; nothing else touches the mode.
pub open spec fn mode_after(s: &State, input: PadInput) -> Mode {
    match input {
        PadInput::Press(x, y) => match pad_beat_spec(x, y) {
            Some(pd) => fire_beat_spec(s.mode, x == 0, s.t, pd),
            None => match pad_mode_spec(x, y) {
                Some(m) => m,
                None => s.mode,
            },
        },
        _ => s.mode,
    }
}

/// The palette after `input`.
pub open spec fn palette_after(s: &State, input: PadInput) -> Palette {
    match input {
        PadInput::Press(x, y) => match pad_palette_spec(x, y) {
            Some(p) => p,
            None => s.palette,
        },
        _ => s.palette,
    }
}

/// The tempo multiplier after `input`: the up and down buttons set
/// double-time and half-time, and any press on the grid goes back to plain time.
pub open spec fn phi_mul_after(s: &State, input: PadInput) -> i64 {
    match input {
        PadInput::Up(true) => (2 * UNIT) as i64,
        PadInput::Down(true) => HALF,
        PadInput::Press(_, _) => UNIT,
        _ => s.phi_mul,
    }
}

/// The taps noted after `input`: the top left button of the grid notes one
/// more, the top right one uses them all up.
pub open spec fn taps_after(s: &State, input: PadInput) -> Seq<i64> {
    match input {
        PadInput::Press(0, 7) => s.bpm_taps@.push(s.t),
        PadInput::Press(7, 7) => Seq::empty(),
        _ => s.bpm_taps@,
    }
}

/// The tempo after `input`: the top right button of the grid sets the one
/// that the taps give, if they give one.
pub open spec fn bpm_after(s: &State, input: PadInput) -> i64 {
    match input {
        PadInput::Press(7, 7) => match tempo_spec(s.bpm_taps@) {
            Some(bpm) => bpm,
            None => s.bpm,
        },
        _ => s.bpm,
    }
}

/// The phase after `input`: the top right button of the grid starts the
/// measure anew when it sets a tempo, and when no tap was noted.
pub open spec fn phi_after(s: &State, input: PadInput) -> i64 {
    match input {
        PadInput::Press(7, 7) => if tempo_spec(s.bpm_taps@) is Some || s.bpm_taps@.len() == 0 {
            0
        } else {
            s.phi
        },
        _ => s.phi,
    }
}

/// Takes an event of the pad. The result says whether the pad is to be cleared.
///
/// Of the edge buttons, a press of Capture switches the button guide on or
/// off and has the pad cleared; one of Custom switches the laser; eight set
/// the brightness; Up and Down set double-time and half-time; Left has the
/// mode follow standard input. A press on the grid ends both of the latter
/// and then does what its button stands for: note a tap, resolve the tempo,
/// fire a manual beat, select a mode or select a palette.
pub fn on_pad(s: &mut State, l: &mut Lights, input: PadInput) -> (clear: bool)
    requires
        old(s).wf(),
    ensures
        final(s).wf(),
        clear == (input == PadInput::Capture(true)),
        final(s).debug == (if input == PadInput::Capture(true) {
            !old(s).debug
        } else {
            old(s).debug
        }),
        final(l).laser.on == (if input == PadInput::Custom(true) {
            !old(l).laser.on
        } else {
            old(l).laser.on
        }),
        *final(l) == (Lights {
            laser: Laser { on: final(l).laser.on, ..old(l).laser },
            ..*old(l)
        }),
        final(s).brightness == (match pad_brightness_spec(input) {
            Some(b) => b,
            None => old(s).brightness,
        }),
        final(s).phi_mul == phi_mul_after(old(s), input),
        final(s).follow_stdin == (match input {
            PadInput::Left(true) => true,
            PadInput::Press(_, _) => false,
            _ => old(s).follow_stdin,
        }),
        final(s).mode == mode_after(old(s), input),
        final(s).palette == palette_after(old(s), input),
        final(s).bpm_taps@ == taps_after(old(s), input),
        final(s).bpm == bpm_after(old(s), input),
        final(s).phi == phi_after(old(s), input),
        final(s).t == old(s).t,
        final(s).dt == old(s).dt,
        final(s).hold == old(s).hold,
{
    let mut clear = false;
    match input {
        PadInput::Capture(true) => {
            s.debug = !s.debug;
            clear = true;
        },
        PadInput::Custom(true) => {
            l.laser.on = !l.laser.on;
        },
        PadInput::Up(true) => {
            s.phi_mul = 2 * UNIT;
        },
        PadInput::Down(true) => {
            s.phi_mul = HALF;
        },
        PadInput::Left(true) => {
            s.follow_stdin = true;
        },
        _ => {},
    }
    match pad_brightness(input) {
        Some(b) => {
            s.brightness = b;
        },
        None => {},
    }
    match input {
        PadInput::Press(x, y) => {
            s.phi_mul = UNIT;
            s.follow_stdin = false;
            if x == 0 && y == 7 {
                s.record_tap();
            } else if x == 7 && y == 7 {
                let _ = s.resolve_tempo();
            } else {
                match pad_beat(x, y) {
                    Some(pd) => {
                        s.mode = fire_beat(s.mode, x == 0, s.t, pd);
                    },
                    None => match pad_mode(x, y) {
                        Some(m) => {
                            s.mode = m;
                        },
                        None => match pad_palette(x, y) {
                            Some(p) => {
                                s.palette = p;
                            },
                            None => {},
                        },
                    },
                }
            }
        },
        _ => {},
    }
    clear
}

/// The laser after an event of the control surface: the first focus button
/// switches it, and sliders two to seven set its figure, turn, horizontal
/// flip, height, size and colour.
pub open spec fn ctrl_laser_spec(l: Laser, input: CtrlInput) -> Laser {
    match input {
        CtrlInput::Focus(0, true) => Laser { on: !l.on, ..l },
        CtrlInput::Slider(1, fr) => Laser { pattern: LaserPattern::Raw(byte_spec(fr)), ..l },
        CtrlInput::Slider(2, fr) => Laser { rotate: fr, ..l },
        CtrlInput::Slider(3, fr) => Laser { xflip: fr, ..l },
        CtrlInput::Slider(4, fr) => Laser { y: fr, ..l },
        CtrlInput::Slider(5, fr) => Laser { size: fr, ..l },
        CtrlInput::Slider(6, fr) => Laser { color: LaserColor::Raw(byte_spec(fr)), ..l },
        _ => l,
    }
}

/// Takes an event of the control surface: the first slider sets the
/// brightness, the others and the first focus button set the laser.
pub fn on_ctrl(s: &mut State, l: &mut Lights, input: CtrlInput)
    ensures
        final(s).brightness == (match input {
            CtrlInput::Slider(0, fr) => fr,
            _ => old(s).brightness,
        }),
        *final(s) == (State { brightness: final(s).brightness, ..*old(s) }),
        final(l).laser == ctrl_laser_spec(old(l).laser, input),
        *final(l) == (Lights { laser: final(l).laser, ..*old(l) }),
{
    match input {
        CtrlInput::Slider(0, fr) => {
            s.brightness = fr;
        },
        CtrlInput::Focus(0, true) => {
            l.laser.on = !l.laser.on;
        },
        CtrlInput::Slider(1, fr) => {
            l.laser.pattern = LaserPattern::Raw(byte(fr));
        },
        CtrlInput::Slider(2, fr) => {
            l.laser.rotate = fr;
        },
        CtrlInput::Slider(3, fr) => {
            l.laser.xflip = fr;
        },
        CtrlInput::Slider(4, fr) => {
            l.laser.y = fr;
        },
        CtrlInput::Slider(5, fr) => {
            l.laser.size = fr;
        },
        CtrlInput::Slider(6, fr) => {
            l.laser.color = LaserColor::Raw(byte(fr));
        },
        _ => {},
    }
}

} // verus!
