//! The control state: the musical clock, the tap tempo, and the palette and
//! mode that the operator has chosen.

use crate::color::{Color, PaletteColor};
use crate::num::{clamp, clamp_spec, div_floor, narrow, sat, UNIT};
use crate::outside::neighbours;
use crate::pattern::BeamPattern;
use crate::utils::{Holdable, Pd};
use crate::wave::{ramp_wide, ramp_wide_spec, Range};
use vstd::prelude::*;

verus! {

/// Length of the measure that the phase runs through: sixteen beats.
pub const MEASURE: i64 = 16_000_000;

/// Slowest tempo the clock keeps: one beat per minute.
pub const BPM_MIN: i64 = 1_000_000;

/// Fastest tempo the clock keeps: a million beats per minute.
pub const BPM_MAX: i64 = 1_000_000_000_000;

/// Largest tempo multiplier the clock keeps: sixteen.
pub const MUL_MAX: i64 = 16_000_000;

/// Microseconds in a minute, times `UNIT`: what a tap interval divides to give a tempo.
pub const MINUTE: i128 = 60_000_000_000_000;

/// The colours in use.
#[derive(Clone, Copy, Debug, PartialEq, Eq, Structural)]
pub enum Palette {
    /// The colour wheel, once round per measure.
    Rainbow,
    /// Red, lime and blue in turn, twice per beat.
    Oscillate,
    /// One colour.
    Solid(Color),
    /// One colour for the washes and another for the moving lights.
    Split(Color, Color),
}

/// What the rig is doing.
#[derive(Clone, Copy, Debug, PartialEq, Eq, Structural)]
pub enum Mode {
    /// All off.
    Off,
    /// All on, solid colour.
    On,
    /// All on, as `On`.
    Hover,
    /// Flashing to the beat, once per `pd`, with brightness over the range `r`.
    AutoBeat { pd: Pd, r: Range, beam: BeamPattern },
    /// Single flashes to beats tapped by hand: `t0` and `t1` are the times of
    /// the left and right press, `pd0` and `pd1` how long each flash lasts.
    ManualBeat { t0: i64, t1: i64, pd0: Pd, pd1: Pd, r: Range },
    /// Strobe on the washes only.
    Strobe0 { pd: Pd, duty: i64 },
    /// Strobe on the moving lights only.
    Strobe1 { pd: Pd, duty: i64 },
    /// Strobe on everything.
    Strobe { pd: Pd, duty: i64 },
    /// A white flash running along the washes and beams.
    Chase { pd: Pd, beam: BeamPattern },
    /// Beam pairs flashing in turn in the palette's colour.
    ChaseNotColorful { pd: Pd },
    /// Beams sweeping round one after another.
    Whirl { pd: Pd },
    /// Beams rising one after another.
    RaisingBeams { pd: Pd },
    /// Everything dark but, if given, the beams, held in a pattern.
    Break { beams: Option<BeamPattern> },
    Twisting { pd: Pd },
    /// The mode is set by commands read from standard input.
    Stdin,
}

impl Mode {
    /// Every period the mode holds is well-formed.
    pub open spec fn wf(&self) -> bool {
        match *self {
            Mode::AutoBeat { pd, .. } => pd.wf(),
            Mode::ManualBeat { pd0, pd1, .. } => pd0.wf() && pd1.wf(),
            Mode::Strobe0 { pd, .. } => pd.wf(),
            Mode::Strobe1 { pd, .. } => pd.wf(),
            Mode::Strobe { pd, .. } => pd.wf(),
            Mode::Chase { pd, .. } => pd.wf(),
            Mode::ChaseNotColorful { pd } => pd.wf(),
            Mode::Whirl { pd } => pd.wf(),
            Mode::RaisingBeams { pd } => pd.wf(),
            Mode::Twisting { pd } => pd.wf(),
            _ => true,
        }
    }
}

impl Palette {
    /// The first colour of the palette when the clock stands at `s.phi`.
    pub open spec fn color0_spec(self, s: &State) -> Color {
        match self {
            Palette::Rainbow => Color::hsv_spec(phase_spec(s.phi, Pd(16, 1)), UNIT, UNIT),
            Palette::Oscillate => {
                let p = phase_spec(s.phi, Pd(1, 2));
                if p < 330_000 {
                    PaletteColor::Red.color_spec()
                } else if p < 660_000 {
                    PaletteColor::Lime.color_spec()
                } else {
                    PaletteColor::Blue.color_spec()
                }
            },
            Palette::Solid(col) => col,
            Palette::Split(col0, _) => col0,
        }
    }

    #[verifier::when_used_as_spec(color0_spec)]
    pub fn color0(self, s: &State) -> (c: Color)
        requires
            0 <= s.phi < MEASURE,
        ensures
            c == self.color0_spec(s),
    {
        match self {
            Palette::Rainbow => Color::hsv(phase(s.phi, Pd(16, 1)), UNIT, UNIT),
            Palette::Oscillate => {
                let p = phase(s.phi, Pd(1, 2));
                if p < 330_000 {
                    PaletteColor::Red.color()
                } else if p < 660_000 {
                    PaletteColor::Lime.color()
                } else {
                    PaletteColor::Blue.color()
                }
            },
            Palette::Solid(col) => col,
            Palette::Split(col0, _) => col0,
        }
    }

    /// The second colour of the palette: that of a split palette, else the first.
    pub open spec fn color1_spec(self, s: &State) -> Color {
        match self {
            Palette::Split(_, col1) => col1,
            _ => self.color0_spec(s),
        }
    }

    #[verifier::when_used_as_spec(color1_spec)]
    pub fn color1(self, s: &State) -> (c: Color)
        requires
            0 <= s.phi < MEASURE,
        ensures
            c == self.color1_spec(s),
    {
        match self {
            Palette::Split(_, col1) => col1,
            _ => self.color0(s),
        }
    }
}

impl Default for Mode {
    fn default() -> (r: Self)
        ensures
            r == Mode::On,
    {
        Mode::On
    }
}

impl Default for Palette {
    fn default() -> (r: Self)
        ensures
            r == Palette::Rainbow,
    {
        Palette::Rainbow
    }
}

/// Everything that one frame is computed from.
pub struct State {
    /// Time since the last `tick`, in microseconds.
    pub dt: i64,
    /// Time since startup, in microseconds.
    pub t: i64,
    /// Tempo in beats per minute, in fixed point.
    pub bpm: i64,
    /// The times at which the beat-match button was tapped.
    pub bpm_taps: Vec<i64>,
    /// Beat number within a measure of sixteen beats, in fixed point: in `[0, MEASURE)`.
    pub phi: i64,
    /// Tempo multiplier, in fixed point: one half for half-time, two for double-time.
    pub phi_mul: i64,
    /// Colour palette.
    pub palette: Palette,
    /// Lighting mode.
    pub mode: Mode,
    /// Lighting mode while a button is held.
    pub hold: Holdable<Mode>,
    /// Brightness of the whole rig, in fixed point.
    pub brightness: i64,
    /// Whether the pad shows its button guide in place of the mode's animation.
    pub debug: bool,
    /// Whether commands from standard input set the mode.
    pub follow_stdin: bool,
}

/// The phase a clock standing at `phi` reaches after `dt` microseconds at
/// `bpm` beats per minute, sped up `mul` times:
/// `(phi + dt * (bpm / 60) * mul) mod 16`. A negative `dt` counts as none.
pub open spec fn advance_spec(phi: i64, dt: i64, bpm: i64, mul: i64) -> i64 {
    let step = if dt < 0 {
        0
    } else {
        (dt * bpm * mul) / (MINUTE as int)
    };
    ((phi + step) % (MEASURE as int)) as i64
}

/// The phase after a run of steps, each of so many microseconds, at one
/// tempo and multiplier.
pub open spec fn advance_all(phi: i64, steps: Seq<i64>, bpm: i64, mul: i64) -> i64
    decreases steps.len(),
{
    if steps.len() == 0 {
        phi
    } else {
        advance_spec(advance_all(phi, steps.drop_last(), bpm, mul), steps.last(), bpm, mul)
    }
}

/// Whatever the steps, a phase that starts within the measure stays within it.
pub proof fn lemma_advance_in_measure(phi: i64, steps: Seq<i64>, bpm: i64, mul: i64)
    requires
        0 <= phi < MEASURE,
    ensures
        0 <= advance_all(phi, steps, bpm, mul) < MEASURE,
    decreases steps.len(),
{
    if steps.len() > 0 {
        lemma_advance_in_measure(phi, steps.drop_last(), bpm, mul);
    }
}

/// Where the phase `phi` stands within the period `pd`, as a fraction in
/// `[0, 1)`: `(phi mod pd) / pd`, with `pd` taken exactly.
pub open spec fn phase_spec(phi: i64, pd: Pd) -> i64 {
    ramp_wide_spec(phi * pd.1, pd.0 * UNIT) as i64
}

#[verifier::when_used_as_spec(phase_spec)]
pub fn phase(phi: i64, pd: Pd) -> (r: i64)
    requires
        0 <= phi < MEASURE,
        pd.nonzero(),
    ensures
        r == phase_spec(phi, pd),
        0 <= r < UNIT,
{
    proof {
        assert(0 <= phi * pd.1 <= MEASURE * usize::MAX) by (nonlinear_arith)
            requires
                0 <= phi < MEASURE,
                0 < pd.1 <= usize::MAX,
        ;
        assert(0 < pd.0 * UNIT <= usize::MAX * UNIT) by (nonlinear_arith)
            requires
                0 < pd.0 <= usize::MAX,
        ;
    }
    ramp_wide((phi as i128) * (pd.1 as i128), (pd.0 as i128) * (UNIT as i128))
}

/// The tempo that a run of taps gives: sixty seconds over the mean interval
/// between neighbouring taps, kept within `[BPM_MIN, BPM_MAX]`. Fewer than
/// two taps, or taps that span no time, give none.
pub open spec fn tempo_spec(taps: Seq<i64>) -> Option<i64> {
    if taps.len() >= 2 && taps.last() > taps.first() {
        let raw = (MINUTE * (taps.len() - 1)) / (taps.last() - taps.first());
        Some(
            if raw < BPM_MIN {
                BPM_MIN
            } else if raw > BPM_MAX {
                BPM_MAX
            } else {
                raw as i64
            },
        )
    } else {
        None
    }
}

impl State {
    /// The phase lies within the measure, tempo and multiplier within their
    /// limits, and the periods of the modes are well-formed.
    pub open spec fn wf(&self) -> bool {
        &&& 0 <= self.phi < MEASURE
        &&& BPM_MIN <= self.bpm <= BPM_MAX
        &&& 0 < self.phi_mul <= MUL_MAX
        &&& self.mode.wf()
        &&& (self.hold matches Holdable::Held { val, .. } ==> val.wf())
    }

    /// Whether the state is well-formed, for callers that fill the fields themselves.
    pub fn is_wf(&self) -> (r: bool)
        ensures
            r == self.wf(),
    {
        let mode_ok = mode_is_wf(&self.mode);
        let hold_ok = match &self.hold {
            Holdable::Off => true,
            Holdable::Held { val, .. } => mode_is_wf(val),
        };
        0 <= self.phi && self.phi < MEASURE && BPM_MIN <= self.bpm && self.bpm <= BPM_MAX && 0
            < self.phi_mul && self.phi_mul <= MUL_MAX && mode_ok && hold_ok
    }

    /// The state at startup: 120 beats per minute, at the start of a measure,
    /// everything on in the rainbow palette at a quarter of full brightness.
    pub fn new() -> (s: Self)
        ensures
            s.wf(),
            s.dt == 0,
            s.t == 0,
            s.bpm == 120 * UNIT,
            s.bpm_taps@ == Seq::<i64>::empty(),
            s.phi == 0,
            s.phi_mul == UNIT,
            s.palette == Palette::Rainbow,
            s.mode == Mode::On,
            s.hold == Holdable::<Mode>::Off,
            s.brightness == 250_000,
            s.debug,
            !s.follow_stdin,
    {
        State {
            dt: 0,
            t: 0,
            bpm: 120 * UNIT,
            bpm_taps: Vec::new(),
            phi: 0,
            phi_mul: UNIT,
            palette: Palette::Rainbow,
            mode: Mode::On,
            hold: Holdable::Off,
            brightness: 250_000,
            debug: true,
            follow_stdin: false,
        }
    }

    /// Where the clock stands within the period of `n / d` beats.
    pub fn phi(&self, n: usize, d: usize) -> (r: i64)
        requires
            0 <= self.phi < MEASURE,
            n > 0,
            d > 0,
        ensures
            r == phase_spec(self.phi, Pd(n, d)),
            0 <= r < UNIT,
    {
        self.pd(Pd(n, d))
    }

    /// Where the clock stands within the period `pd`, as a fraction in `[0, 1)`.
    pub fn pd(&self, pd: Pd) -> (r: i64)
        requires
            0 <= self.phi < MEASURE,
            pd.nonzero(),
        ensures
            r == phase_spec(self.phi, pd),
            0 <= r < UNIT,
    {
        phase(self.phi, pd)
    }

    /// The last frame's length in units of the period `n / d` at the current
    /// tempo: `dt / ((bpm / 60) * (n / d))`, saturating.
    pub fn dt(&self, n: usize, d: usize) -> (r: i64)
        requires
            self.wf(),
            Pd(n, d).wf(),
        ensures
            r == sat((self.dt * 60 * UNIT * d) / (self.bpm * n)),
    {
        proof {
            assert(-0x8000_0000_0000_0000 * 60_000_000 * 0x10_0000 <= self.dt * 60 * UNIT * d
                <= 0x8000_0000_0000_0000 * 60_000_000 * 0x10_0000) by (nonlinear_arith)
                requires
                    -0x8000_0000_0000_0000 <= self.dt < 0x8000_0000_0000_0000,
                    0 < d <= 0x10_0000,
            ;
            assert(0 < self.bpm * n <= BPM_MAX * 0x10_0000) by (nonlinear_arith)
                requires
                    0 < self.bpm <= BPM_MAX,
                    0 < n <= 0x10_0000,
            ;
        }
        let num: i128 = (self.dt as i128) * 60 * (UNIT as i128) * (d as i128);
        let den: i128 = (self.bpm as i128) * (n as i128);
        narrow(div_floor(num, den))
    }

    /// How far the flash of a beat tapped at time `t` has run, as a fraction
    /// of the flash's length `pd` at the current tempo, folded into `[0, 1)`;
    /// none once the flash is over.
    pub open spec fn since_spec(&self, t: i64, pd: Pd) -> Option<i64> {
        let run = (self.t - t) * self.bpm * pd.1;
        let whole = MINUTE * pd.0;
        if run >= whole {
            None
        } else {
            Some(ramp_wide_spec(run, whole) as i64)
        }
    }

    #[verifier::when_used_as_spec(since_spec)]
    pub fn since(&self, t: i64, pd: Pd) -> (r: Option<i64>)
        requires
            BPM_MIN <= self.bpm <= BPM_MAX,
            pd.wf(),
        ensures
            r == self.since_spec(t, pd),
            r matches Some(f) ==> 0 <= f < UNIT,
    {
        let dt: i128 = self.t as i128 - t as i128;
        proof {
            assert(0 < self.bpm * pd.1 <= BPM_MAX * 0x10_0000) by (nonlinear_arith)
                requires
                    0 < self.bpm <= BPM_MAX,
                    0 < pd.1 <= 0x10_0000,
            ;
            let k = self.bpm * pd.1;
            assert(-0x1_0000_0000_0000_0000 * (BPM_MAX * 0x10_0000) <= dt * k
                <= 0x1_0000_0000_0000_0000 * (BPM_MAX * 0x10_0000)) by (nonlinear_arith)
                requires
                    -0x1_0000_0000_0000_0000 <= dt <= 0x1_0000_0000_0000_0000,
                    0 < k <= BPM_MAX * 0x10_0000,
            ;
            assert(dt * k == dt * self.bpm * pd.1) by (nonlinear_arith)
                requires
                    k == self.bpm * pd.1,
            ;
            assert(0 < MINUTE * pd.0 <= MINUTE * 0x10_0000) by (nonlinear_arith)
                requires
                    0 < pd.0 <= 0x10_0000,
            ;
        }
        let k: i128 = (self.bpm as i128) * (pd.1 as i128);
        let run: i128 = dt * k;
        let whole: i128 = MINUTE * (pd.0 as i128);
        if run >= whole {
            None
        } else {
            Some(ramp_wide(run, whole))
        }
    }

    /// Sets the tempo, kept within `[BPM_MIN, BPM_MAX]`.
    pub fn set_bpm(&mut self, bpm: i64)
        ensures
            final(self).bpm == clamp_spec(bpm, BPM_MIN, BPM_MAX),
            *final(self) == (State { bpm: final(self).bpm, ..*old(self) }),
            old(self).wf() ==> final(self).wf(),
    {
        self.bpm = clamp(bpm, BPM_MIN, BPM_MAX);
    }

    /// Notes a tap of the beat-match button at the current time.
    pub fn record_tap(&mut self)
        ensures
            final(self).bpm_taps@ == old(self).bpm_taps@.push(old(self).t),
            *final(self) == (State { bpm_taps: final(self).bpm_taps, ..*old(self) }),
            old(self).wf() ==> final(self).wf(),
    {
        self.bpm_taps.push(self.t);
    }

    /// Turns the taps noted so far into a tempo.
    ///
    /// With no tap noted, the phase goes back to the start of the measure and
    /// nothing else changes. With one, it is dropped. With more, all are
    /// dropped, and if they give a tempo (see `tempo_spec`), it becomes the
    /// clock's and the measure starts anew. The result is the new tempo, if
    /// one was set.
    pub fn resolve_tempo(&mut self) -> (r: Option<i64>)
        requires
            old(self).wf(),
        ensures
            final(self).wf(),
            r == tempo_spec(old(self).bpm_taps@),
            final(self).bpm_taps@ == Seq::<i64>::empty(),
            final(self).bpm == (match r {
                Some(bpm) => bpm,
                None => old(self).bpm,
            }),
            final(self).phi == (if r is Some || old(self).bpm_taps@.len() == 0 {
                0
            } else {
                old(self).phi
            }),
            *final(self) == (State {
                bpm_taps: final(self).bpm_taps,
                bpm: final(self).bpm,
                phi: final(self).phi,
                ..*old(self)
            }),
    {
        let n = self.bpm_taps.len();
        if n == 0 {
            self.phi = 0;
            return None;
        }
        let pairs = neighbours(&self.bpm_taps);
        let ghost taps = self.bpm_taps@;
        let mut span: i128 = 0;
        let mut i: usize = 0;
        while i < pairs.len()
            invariant
                0 <= i <= pairs.len(),
                pairs@.len() == taps.len() - 1,
                forall|k: int| 0 <= k < pairs@.len() ==> pairs@[k] == (taps[k], taps[k + 1]),
                span == taps[i as int] - taps[0],
            decreases pairs.len() - i,
        {
            let (t0, t1) = pairs[i];
            span = span + (t1 as i128 - t0 as i128);
            i = i + 1;
        }
        self.bpm_taps.clear();
        if n >= 2 && span > 0 {
            proof {
                assert(0 <= MINUTE * (n - 1) <= MINUTE * usize::MAX) by (nonlinear_arith)
                    requires
                        1 <= n <= usize::MAX,
                ;
            }
            let raw = div_floor(MINUTE * (n as i128 - 1), span);
            let bpm: i64 = if raw < BPM_MIN as i128 {
                BPM_MIN
            } else if raw > BPM_MAX as i128 {
                BPM_MAX
            } else {
                raw as i64
            };
            self.bpm = bpm;
            self.phi = 0;
            Some(bpm)
        } else {
            None
        }
    }
}

/// Whether every period the mode holds is well-formed.
pub fn mode_is_wf(mode: &Mode) -> (r: bool)
    ensures
        r == mode.wf(),
{
    match mode {
        Mode::AutoBeat { pd, .. } => pd_is_wf(pd),
        Mode::ManualBeat { pd0, pd1, .. } => pd_is_wf(pd0) && pd_is_wf(pd1),
        Mode::Strobe0 { pd, .. } => pd_is_wf(pd),
        Mode::Strobe1 { pd, .. } => pd_is_wf(pd),
        Mode::Strobe { pd, .. } => pd_is_wf(pd),
        Mode::Chase { pd, .. } => pd_is_wf(pd),
        Mode::ChaseNotColorful { pd } => pd_is_wf(pd),
        Mode::Whirl { pd } => pd_is_wf(pd),
        Mode::RaisingBeams { pd } => pd_is_wf(pd),
        Mode::Twisting { pd } => pd_is_wf(pd),
        _ => true,
    }
}

/// Whether neither part of the period is zero or beyond `PD_LIMIT`.
pub fn pd_is_wf(pd: &Pd) -> (r: bool)
    ensures
        r == pd.wf(),
{
    0 < pd.0 && pd.0 <= crate::utils::PD_LIMIT && 0 < pd.1 && pd.1 <= crate::utils::PD_LIMIT
}

} // verus!
