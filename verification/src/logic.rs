//! One frame: the clock moves on, and the state is turned into what every
//! fixture shows.

use crate::color::{Color, PaletteColor};
use crate::lights::{
    fr_cyclic, fr_cyclic_spec, Bar, Beam, Laser, LaserColor, LaserPattern, Lights, Par, Spider,
    Strobe,
};
use crate::num::{
    clamp, clamp_spec, div_floor, minus, minus_spec, plus, plus_spec, rem_floor, times,
    times_spec, HALF, UNIT,
};
use crate::pattern::{turn, turn_spec, whirl, whirl_spec, BeamPattern, SpiderPattern};
use crate::state::{
    advance_spec, phase, phase_spec, Mode, State, BPM_MAX, MEASURE, MINUTE, MUL_MAX,
};
use crate::utils::Pd;
use crate::wave::{
    ease_in_exp, ease_in_exp_spec, ease_in_quad, ease_in_quad_spec, invert, invert_spec, lerp,
    lerp_spec, phase_shift, phase_shift_spec, square, square_spec, trapezoid, trapezoid_spec,
    triangle, triangle_spec, unit_sine, unit_sine_spec, Range,
};
use vstd::prelude::*;

verus! {

/// Moves the clock on by `dt` microseconds: the time grows by `dt`, and the
/// phase by the beats that pass in `dt` at the current tempo and multiplier,
/// folded into the measure. A negative `dt` counts as none.
pub fn tick(dt: i64, s: &mut State, l: &mut Lights)
    requires
        old(s).wf(),
    ensures
        final(s).wf(),
        0 <= final(s).phi < MEASURE,
        final(s).dt == clamp_spec(dt, 0, i64::MAX),
        final(s).t == plus_spec(old(s).t, final(s).dt),
        final(s).phi == advance_spec(old(s).phi, dt, old(s).bpm, old(s).phi_mul),
        *final(s) == (State { dt: final(s).dt, t: final(s).t, phi: final(s).phi, ..*old(s) }),
        *final(l) == *old(l),
{
    let span = clamp(dt, 0, i64::MAX);
    s.dt = span;
    s.t = plus(s.t, span);
    proof {
        assert(0 < s.bpm * s.phi_mul <= BPM_MAX * MUL_MAX) by (nonlinear_arith)
            requires
                0 < s.bpm <= BPM_MAX,
                0 < s.phi_mul <= MUL_MAX,
        ;
        let k = s.bpm * s.phi_mul;
        assert(0 <= span * k <= 0x8000_0000_0000_0000 * (BPM_MAX * MUL_MAX)) by (nonlinear_arith)
            requires
                0 <= span <= 0x8000_0000_0000_0000,
                0 < k <= BPM_MAX * MUL_MAX,
        ;
        assert(span * k == span * s.bpm * s.phi_mul) by (nonlinear_arith)
            requires
                k == s.bpm * s.phi_mul,
        ;
        assert(span == 0 ==> span * k == 0) by (nonlinear_arith);
    }
    let k: i128 = (s.bpm as i128) * (s.phi_mul as i128);
    let step: i128 = div_floor(span as i128 * k, MINUTE);
    s.phi = rem_floor(s.phi as i128 + step, MEASURE as i128) as i64;
}

/// The duty of a strobe whose setting is `duty`: from 1, for a setting of 0,
/// down along the exponential ease to one half, for a setting of 1.
pub open spec fn strobe_duty_spec(duty: i64) -> i64 {
    lerp_spec(ease_in_exp_spec(duty), Range { lo: UNIT, hi: HALF })
}

#[verifier::when_used_as_spec(strobe_duty_spec)]
pub fn strobe_duty(duty: i64) -> (r: i64)
    ensures
        r == strobe_duty_spec(duty),
{
    lerp(ease_in_exp(duty), Range { lo: UNIT, hi: HALF })
}

/// How bright a flash tapped at time `t` is by now: along the range `r`,
/// eased in, while the flash of length `pd` runs, and at the range's end after it.
pub open spec fn manual_level_spec(s: &State, t: i64, pd: Pd, r: Range) -> i64 {
    match s.since_spec(t, pd) {
        None => r.hi,
        Some(f) => ease_in_quad_spec(lerp_spec(f, r)),
    }
}

#[verifier::when_used_as_spec(manual_level_spec)]
pub fn manual_level(s: &State, t: i64, pd: Pd, r: Range) -> (e: i64)
    requires
        s.wf(),
        pd.wf(),
    ensures
        e == manual_level_spec(s, t, pd, r),
{
    match s.since(t, pd) {
        None => r.hi,
        Some(f) => ease_in_quad(lerp(f, r)),
    }
}

/// The brightness that the mode gives the rig as a whole at this instant.
pub open spec fn envelope_spec(s: &State) -> i64 {
    match s.mode {
        Mode::AutoBeat { pd, r, .. } => ease_in_quad_spec(
            lerp_spec(invert_spec(phase_spec(s.phi, pd)), r),
        ),
        Mode::Strobe { pd, duty } => square_spec(
            phase_spec(s.phi, pd),
            UNIT,
            strobe_duty_spec(duty),
        ),
        Mode::Strobe0 { pd, duty } => square_spec(
            phase_spec(s.phi, pd),
            UNIT,
            strobe_duty_spec(duty),
        ),
        Mode::Strobe1 { pd, duty } => square_spec(
            phase_spec(s.phi, pd),
            UNIT,
            strobe_duty_spec(duty),
        ),
        _ => UNIT,
    }
}

#[verifier::when_used_as_spec(envelope_spec)]
pub fn envelope(s: &State) -> (e: i64)
    requires
        s.wf(),
    ensures
        e == envelope_spec(s),
{
    match s.mode {
        Mode::AutoBeat { pd, r, .. } => ease_in_quad(lerp(invert(phase(s.phi, pd)), r)),
        Mode::Strobe { pd, duty } => square(phase(s.phi, pd), UNIT, strobe_duty(duty)),
        Mode::Strobe0 { pd, duty } => square(phase(s.phi, pd), UNIT, strobe_duty(duty)),
        Mode::Strobe1 { pd, duty } => square(phase(s.phi, pd), UNIT, strobe_duty(duty)),
        _ => UNIT,
    }
}

/// The colour that the mode gives the washes and the strobe, before the
/// rig's brightness: the palette's first colour at the mode's brightness.
pub open spec fn wash_color_spec(s: &State) -> Color {
    let c0 = s.palette.color0_spec(s);
    match s.mode {
        Mode::On => c0,
        Mode::Hover => c0,
        Mode::AutoBeat { .. } => c0.a_mul_spec(envelope_spec(s)),
        Mode::Strobe { .. } => c0.a_mul_spec(envelope_spec(s)),
        Mode::Strobe0 { .. } => c0.a_mul_spec(envelope_spec(s)),
        Mode::ManualBeat { t0, pd0, r, .. } => c0.a_mul_spec(manual_level_spec(s, t0, pd0, r)),
        _ => PaletteColor::Off.color_spec(),
    }
}

#[verifier::when_used_as_spec(wash_color_spec)]
pub fn wash_color(s: &State) -> (c: Color)
    requires
        s.wf(),
    ensures
        c == wash_color_spec(s),
{
    let c0 = s.palette.color0(s);
    match s.mode {
        Mode::On => c0,
        Mode::Hover => c0,
        Mode::AutoBeat { .. } => c0.a_mul(envelope(s)),
        Mode::Strobe { .. } => c0.a_mul(envelope(s)),
        Mode::Strobe0 { .. } => c0.a_mul(envelope(s)),
        Mode::ManualBeat { t0, pd0, r, .. } => c0.a_mul(manual_level(s, t0, pd0, r)),
        _ => PaletteColor::Off.color(),
    }
}

/// The colour that the mode gives beams, bars and spiders, before the rig's
/// brightness and before what a mode does to the beams alone: the palette's
/// second colour at the mode's brightness.
pub open spec fn mover_color_spec(s: &State) -> Color {
    let c0 = s.palette.color0_spec(s);
    let c1 = s.palette.color1_spec(s);
    match s.mode {
        Mode::On => c1,
        Mode::Hover => c1,
        Mode::AutoBeat { .. } => c1.a_mul_spec(envelope_spec(s)),
        Mode::Strobe { .. } => c1.a_mul_spec(envelope_spec(s)),
        Mode::Strobe1 { .. } => c0.a_mul_spec(envelope_spec(s)),
        Mode::ManualBeat { t1, pd1, r, .. } => c1.a_mul_spec(manual_level_spec(s, t1, pd1, r)),
        _ => PaletteColor::Off.color_spec(),
    }
}

#[verifier::when_used_as_spec(mover_color_spec)]
pub fn mover_color(s: &State) -> (c: Color)
    requires
        s.wf(),
    ensures
        c == mover_color_spec(s),
{
    let c0 = s.palette.color0(s);
    let c1 = s.palette.color1(s);
    match s.mode {
        Mode::On => c1,
        Mode::Hover => c1,
        Mode::AutoBeat { .. } => c1.a_mul(envelope(s)),
        Mode::Strobe { .. } => c1.a_mul(envelope(s)),
        Mode::Strobe1 { .. } => c0.a_mul(envelope(s)),
        Mode::ManualBeat { t1, pd1, r, .. } => c1.a_mul(manual_level(s, t1, pd1, r)),
        _ => PaletteColor::Off.color(),
    }
}

/// The white flash of a chase on the fixture at the fraction `fr` of its
/// group: on for a tenth of four times the period `pd`, each fixture at its
/// own time, the phase being shifted by `fr`.
pub open spec fn chase_flash_spec(s: &State, pd: Pd, fr: i64) -> Color {
    PaletteColor::White.color_spec().a_mul_spec(
        square_spec(phase_shift_spec(phase_spec(s.phi, pd.mul_spec(4)), UNIT, fr), UNIT, 100_000),
    )
}

#[verifier::when_used_as_spec(chase_flash_spec)]
pub fn chase_flash(s: &State, pd: Pd, fr: i64) -> (c: Color)
    requires
        s.wf(),
        pd.wf(),
    ensures
        c == chase_flash_spec(s, pd, fr),
{
    PaletteColor::White.color().a_mul(
        square(phase_shift(phase(s.phi, pd.mul(4)), UNIT, fr), UNIT, 100_000),
    )
}

/// Wash `i` of ten, before the rig's brightness.
pub open spec fn par_spec(s: &State, i: usize) -> Par {
    match s.mode {
        Mode::Chase { pd, .. } => Par { color: chase_flash_spec(s, pd, fr_cyclic_spec(i, 10)) },
        _ => Par { color: wash_color_spec(s) },
    }
}

#[verifier::when_used_as_spec(par_spec)]
pub fn par(s: &State, i: usize) -> (p: Par)
    requires
        s.wf(),
        i < 10,
    ensures
        p == par_spec(s, i),
{
    match s.mode {
        Mode::Chase { pd, .. } => Par { color: chase_flash(s, pd, fr_cyclic(i, 10)) },
        _ => Par { color: wash_color(s) },
    }
}

/// How bright a rising beam is at `angle` of its turn: over the first four
/// and a half tenths a trapezoid of period one half with edges of a tenth,
/// taken a tenth earlier; dark after that.
pub open spec fn raising_env_spec(angle: i64) -> i64 {
    if angle < 450_000 {
        trapezoid_spec(minus_spec(angle, 100_000), HALF, 100_000)
    } else {
        0
    }
}

#[verifier::when_used_as_spec(raising_env_spec)]
pub fn raising_env(angle: i64) -> (r: i64)
    ensures
        r == raising_env_spec(angle),
{
    if angle < 450_000 {
        trapezoid(minus(angle, 100_000), HALF, 100_000)
    } else {
        0
    }
}

/// The crossing of the beams in a chase of beam pairs: the beams nod and the
/// crossing opens and closes with a sine of eight times the period `pd`, the
/// inner beams fanned out by one half.
pub open spec fn chase_cross_spec(s: &State, pd: Pd) -> BeamPattern {
    let wave = unit_sine_spec(phase_spec(s.phi, pd.mul_spec(8)), UNIT);
    BeamPattern::Cross {
        pitch: plus_spec(times_spec(invert_spec(wave), 300_000), 100_000),
        angle: Some(minus_spec(times_spec(wave, 200_000), 100_000)),
        fanning: Some(1_500_000),
    }
}

#[verifier::when_used_as_spec(chase_cross_spec)]
pub fn chase_cross(s: &State, pd: Pd) -> (r: BeamPattern)
    requires
        s.wf(),
        pd.wf(),
    ensures
        r == chase_cross_spec(s, pd),
{
    let wave = unit_sine(phase(s.phi, pd.mul(8)), UNIT);
    BeamPattern::Cross {
        pitch: plus(times(invert(wave), 300_000), 100_000),
        angle: Some(minus(times(wave, 200_000), 100_000)),
        fanning: Some(1_500_000),
    }
}

/// The colour of beam `i` of four, before the rig's brightness.
pub open spec fn beam_color_spec(s: &State, i: usize) -> Color {
    let fr = fr_cyclic_spec(i, 4);
    let c0 = s.palette.color0_spec(s);
    match s.mode {
        Mode::AutoBeat { pd, beam, .. } => c0.a_mul_spec(
            if beam == BeamPattern::Whirl {
                whirl_spec(s.phi, pd, fr).to_env_spec()
            } else {
                envelope_spec(s)
            },
        ),
        Mode::Whirl { pd } => c0.a_mul_spec(whirl_spec(s.phi, pd, fr).to_env_spec()),
        Mode::Chase { pd, .. } => chase_flash_spec(s, pd, fr),
        Mode::ChaseNotColorful { pd } => c0.a_mul_spec(
            square_spec(
                phase_shift_spec(
                    phase_spec(s.phi, pd),
                    UNIT,
                    if i < 2 {
                        0
                    } else {
                        HALF
                    },
                ),
                UNIT,
                330_000,
            ),
        ),
        Mode::RaisingBeams { pd } => c0.a_mul_spec(
            raising_env_spec(turn_spec(phase_spec(s.phi, pd), fr, 2_000_000)),
        ),
        Mode::Break { beams: Some(_) } => c0,
        _ => mover_color_spec(s),
    }
}

#[verifier::when_used_as_spec(beam_color_spec)]
pub fn beam_color(s: &State, i: usize) -> (c: Color)
    requires
        s.wf(),
        i < 4,
    ensures
        c == beam_color_spec(s, i),
{
    let fr = fr_cyclic(i, 4);
    let c0 = s.palette.color0(s);
    match s.mode {
        Mode::AutoBeat { pd, beam, .. } => c0.a_mul(
            if beam == BeamPattern::Whirl {
                whirl(s.phi, pd, fr).to_env()
            } else {
                envelope(s)
            },
        ),
        Mode::Whirl { pd } => c0.a_mul(whirl(s.phi, pd, fr).to_env()),
        Mode::Chase { pd, .. } => chase_flash(s, pd, fr),
        Mode::ChaseNotColorful { pd } => c0.a_mul(
            square(
                phase_shift(
                    phase(s.phi, pd),
                    UNIT,
                    if i < 2 {
                        0
                    } else {
                        HALF
                    },
                ),
                UNIT,
                330_000,
            ),
        ),
        Mode::RaisingBeams { pd } => c0.a_mul(
            raising_env(turn(phase(s.phi, pd), fr, 2_000_000)),
        ),
        Mode::Break { beams: Some(_) } => c0,
        _ => mover_color(s),
    }
}

/// The pattern that aims the beams in the state's mode, with the period it
/// runs at; none where the mode leaves the beams at rest.
pub open spec fn beam_aim_spec(s: &State) -> Option<(BeamPattern, Pd)> {
    match s.mode {
        Mode::AutoBeat { pd, beam, .. } => Some((beam, pd)),
        Mode::Strobe { .. } => Some((BeamPattern::Square, Pd(2, 1))),
        Mode::Strobe0 { .. } => Some((BeamPattern::Square, Pd(2, 1))),
        Mode::Strobe1 { .. } => Some((BeamPattern::Square, Pd(2, 1))),
        Mode::Whirl { pd } => Some((BeamPattern::Whirl, pd)),
        Mode::Chase { beam, .. } => Some((beam, Pd(1, 2))),
        Mode::ChaseNotColorful { pd } => Some((chase_cross_spec(s, pd), pd)),
        Mode::RaisingBeams { pd } => Some((BeamPattern::RaisingBeams, pd)),
        Mode::Break { beams: Some(beams) } => Some((beams, Pd(4, 1))),
        Mode::ManualBeat { .. } => Some((BeamPattern::Square, Pd(2, 1))),
        _ => None,
    }
}

#[verifier::when_used_as_spec(beam_aim_spec)]
pub fn beam_aim(s: &State) -> (r: Option<(BeamPattern, Pd)>)
    requires
        s.wf(),
    ensures
        r == beam_aim_spec(s),
        r matches Some(aim) ==> aim.1.wf(),
{
    match s.mode {
        Mode::AutoBeat { pd, beam, .. } => Some((beam, pd)),
        Mode::Strobe { .. } => Some((BeamPattern::Square, Pd(2, 1))),
        Mode::Strobe0 { .. } => Some((BeamPattern::Square, Pd(2, 1))),
        Mode::Strobe1 { .. } => Some((BeamPattern::Square, Pd(2, 1))),
        Mode::Whirl { pd } => Some((BeamPattern::Whirl, pd)),
        Mode::Chase { beam, .. } => Some((beam, Pd(1, 2))),
        Mode::ChaseNotColorful { pd } => Some((chase_cross(s, pd), pd)),
        Mode::RaisingBeams { pd } => Some((BeamPattern::RaisingBeams, pd)),
        Mode::Break { beams: Some(beams) } => Some((beams, Pd(4, 1))),
        Mode::ManualBeat { .. } => Some((BeamPattern::Square, Pd(2, 1))),
        _ => None,
    }
}

/// Beam `i` of four, before the rig's brightness.
pub open spec fn beam_spec(s: &State, i: usize) -> Beam {
    let angles = match beam_aim_spec(s) {
        Some(aim) => aim.0.angles_spec(s.phi, aim.1, i, fr_cyclic_spec(i, 4)),
        None => (0i64, 0i64),
    };
    Beam { color: beam_color_spec(s, i), pitch: angles.0, yaw: angles.1 }
}

pub fn beam(s: &State, i: usize) -> (b: Beam)
    requires
        s.wf(),
        i < 4,
    ensures
        b == beam_spec(s, i),
{
    let angles = match beam_aim(s) {
        Some(aim) => aim.0.angles(s, aim.1, i, fr_cyclic(i, 4)),
        None => (0i64, 0i64),
    };
    Beam { color: beam_color(s, i), pitch: angles.0, yaw: angles.1 }
}

/// The pattern that sets the spiders' arms in the state's mode; none where
/// the mode leaves them at rest.
pub open spec fn spider_aim_spec(s: &State) -> Option<SpiderPattern> {
    match s.mode {
        Mode::AutoBeat { pd, .. } => Some(SpiderPattern::Alternate { pd: pd.mul_spec(2) }),
        Mode::Strobe { .. } => Some(SpiderPattern::Alternate { pd: Pd(2, 1) }),
        Mode::Strobe0 { .. } => Some(SpiderPattern::Alternate { pd: Pd(2, 1) }),
        Mode::Strobe1 { .. } => Some(SpiderPattern::Alternate { pd: Pd(2, 1) }),
        Mode::ManualBeat { .. } => Some(SpiderPattern::Alternate { pd: Pd(2, 1) }),
        _ => None,
    }
}

#[verifier::when_used_as_spec(spider_aim_spec)]
pub fn spider_aim(s: &State) -> (r: Option<SpiderPattern>)
    requires
        s.wf(),
    ensures
        r == spider_aim_spec(s),
        r matches Some(p) ==> p.wf(),
{
    match s.mode {
        Mode::AutoBeat { pd, .. } => Some(SpiderPattern::Alternate { pd: pd.mul(2) }),
        Mode::Strobe { .. } => Some(SpiderPattern::Alternate { pd: Pd(2, 1) }),
        Mode::Strobe0 { .. } => Some(SpiderPattern::Alternate { pd: Pd(2, 1) }),
        Mode::Strobe1 { .. } => Some(SpiderPattern::Alternate { pd: Pd(2, 1) }),
        Mode::ManualBeat { .. } => Some(SpiderPattern::Alternate { pd: Pd(2, 1) }),
        _ => None,
    }
}

/// Spider `i` of two, before the rig's brightness.
pub open spec fn spider_spec(s: &State, i: usize) -> Spider {
    let pos = match spider_aim_spec(s) {
        Some(p) => p.pos_spec(s.phi, i, fr_cyclic_spec(i, 2)),
        None => (0i64, 0i64),
    };
    Spider { color0: mover_color_spec(s), color1: mover_color_spec(s), pos0: pos.0, pos1: pos.1 }
}

pub fn spider(s: &State, i: usize) -> (r: Spider)
    requires
        s.wf(),
        i < 2,
    ensures
        r == spider_spec(s, i),
{
    let pos = match spider_aim(s) {
        Some(p) => p.pos(s, i, fr_cyclic(i, 2)),
        None => (0i64, 0i64),
    };
    let c = mover_color(s);
    Spider { color0: c, color1: c, pos0: pos.0, pos1: pos.1 }
}

/// The colour of the strobe, before the rig's brightness: the palette's
/// first colour at the mode's brightness in each of the strobe modes, else
/// the colour of the washes.
pub open spec fn strobe_color_spec(s: &State) -> Color {
    match s.mode {
        Mode::Strobe1 { .. } => s.palette.color0_spec(s).a_mul_spec(envelope_spec(s)),
        _ => wash_color_spec(s),
    }
}

#[verifier::when_used_as_spec(strobe_color_spec)]
pub fn strobe_color(s: &State) -> (c: Color)
    requires
        s.wf(),
    ensures
        c == strobe_color_spec(s),
{
    match s.mode {
        Mode::Strobe1 { .. } => s.palette.color0(s).a_mul(envelope(s)),
        _ => wash_color(s),
    }
}

/// The laser after a frame: a line three quarters of full size, at a fixed
/// height, sweeping from side to side once every four beats, in all colours.
/// Whether it is on, and its turn and flips, stay as they were.
pub open spec fn laser_spec(s: &State, l: Laser) -> Laser {
    Laser {
        size: 750_000,
        pattern: LaserPattern::LineX,
        y: 375_000,
        x: plus_spec(triangle_spec(phase_spec(s.phi, Pd(4, 1)), UNIT), 62_500),
        color: LaserColor::RGB,
        ..l
    }
}

/// What the rig shows for the state `s`, the laser having been `laser`:
/// every fixture as its mode sets it, every colour dimmed to the rig's brightness.
pub open spec fn rendered(s: &State, laser: Laser, l: &Lights) -> bool {
    let dim = s.brightness;
    &&& forall|i: int|
        0 <= i < 10 ==> #[trigger] l.pars@[i] == (Par {
            color: par_spec(s, i as usize).color.a_mul_spec(dim),
        })
    &&& forall|i: int|
        0 <= i < 4 ==> #[trigger] l.beams@[i] == (Beam {
            color: beam_spec(s, i as usize).color.a_mul_spec(dim),
            ..beam_spec(s, i as usize)
        })
    &&& forall|i: int|
        0 <= i < 2 ==> #[trigger] l.bars@[i] == (Bar { color: mover_color_spec(s).a_mul_spec(dim) })
    &&& forall|i: int|
        0 <= i < 2 ==> #[trigger] l.spiders@[i] == (Spider {
            color0: spider_spec(s, i as usize).color0.a_mul_spec(dim),
            color1: spider_spec(s, i as usize).color1.a_mul_spec(dim),
            ..spider_spec(s, i as usize)
        })
    &&& l.strobe == (Strobe { color: strobe_color_spec(s).a_mul_spec(dim) })
    &&& l.laser == laser_spec(s, laser)
}

/// Sets every fixture of the rig for this frame.
pub fn render_lights(s: &State, l: &mut Lights)
    requires
        s.wf(),
    ensures
        rendered(s, old(l).laser, final(l)),
{
    let dim = s.brightness;
    let mut i: usize = 0;
    while i < 10
        invariant
            0 <= i <= 10,
            s.wf(),
            dim == s.brightness,
            l.laser == old(l).laser,
            forall|k: int|
                0 <= k < i ==> #[trigger] l.pars@[k] == (Par {
                    color: par_spec(s, k as usize).color.a_mul_spec(dim),
                }),
        decreases 10 - i,
    {
        l.pars[i] = Par { color: par(s, i).color.a_mul(dim) };
        i = i + 1;
    }
    let mut i: usize = 0;
    while i < 4
        invariant
            0 <= i <= 4,
            s.wf(),
            dim == s.brightness,
            l.laser == old(l).laser,
            forall|k: int|
                0 <= k < 10 ==> #[trigger] l.pars@[k] == (Par {
                    color: par_spec(s, k as usize).color.a_mul_spec(dim),
                }),
            forall|k: int|
                0 <= k < i ==> #[trigger] l.beams@[k] == (Beam {
                    color: beam_spec(s, k as usize).color.a_mul_spec(dim),
                    ..beam_spec(s, k as usize)
                }),
        decreases 4 - i,
    {
        let b = beam(s, i);
        l.beams[i] = Beam { color: b.color.a_mul(dim), pitch: b.pitch, yaw: b.yaw };
        i = i + 1;
    }
    let mut i: usize = 0;
    while i < 2
        invariant
            0 <= i <= 2,
            s.wf(),
            dim == s.brightness,
            l.laser == old(l).laser,
            forall|k: int|
                0 <= k < 10 ==> #[trigger] l.pars@[k] == (Par {
                    color: par_spec(s, k as usize).color.a_mul_spec(dim),
                }),
            forall|k: int|
                0 <= k < 4 ==> #[trigger] l.beams@[k] == (Beam {
                    color: beam_spec(s, k as usize).color.a_mul_spec(dim),
                    ..beam_spec(s, k as usize)
                }),
            forall|k: int|
                0 <= k < i ==> #[trigger] l.bars@[k] == (Bar {
                    color: mover_color_spec(s).a_mul_spec(dim),
                }),
            forall|k: int|
                0 <= k < i ==> #[trigger] l.spiders@[k] == (Spider {
                    color0: spider_spec(s, k as usize).color0.a_mul_spec(dim),
                    color1: spider_spec(s, k as usize).color1.a_mul_spec(dim),
                    ..spider_spec(s, k as usize)
                }),
        decreases 2 - i,
    {
        l.bars[i] = Bar { color: mover_color(s).a_mul(dim) };
        let sp = spider(s, i);
        l.spiders[i] = Spider {
            color0: sp.color0.a_mul(dim),
            color1: sp.color1.a_mul(dim),
            pos0: sp.pos0,
            pos1: sp.pos1,
        };
        i = i + 1;
    }
    l.strobe = Strobe { color: strobe_color(s).a_mul(dim) };
    l.laser.size = 750_000;
    l.laser.pattern = LaserPattern::LineX;
    l.laser.y = 375_000;
    l.laser.x = plus(triangle(phase(s.phi, Pd(4, 1)), UNIT), 62_500);
    l.laser.color = LaserColor::RGB;
}

} // verus!
