//! Colour operators: values that turn the clock into a colour, or the clock
//! and a colour into another colour, and that compose.
//!
//! An operator is plain data and is owned by whoever applies it. The one
//! operator with a memory, `once`, keeps it in its own fields; to apply an
//! operator is to get a colour and to leave the operator in its next state.

use crate::color::{Color, PaletteColor};
use crate::num::{clamp, clamp_spec, minus, minus_spec, plus, plus_spec, times, times_spec, UNIT};
use crate::state::{phase, phase_spec, State, MEASURE};
use crate::utils::Pd;
use crate::wave::{
    ease_out_cubic, ease_out_cubic_spec, ease_out_quad, ease_out_quad_spec, invert, invert_spec,
    lerp, lerp_spec, signed_sine, signed_sine_spec, square, square_spec, triangle, triangle_spec,
    Range,
};
use vstd::prelude::*;
use vstd::std_specs::convert::FromSpecImpl;

verus! {

/// An operator from the clock to a colour.
#[derive(Clone, Copy, Debug, PartialEq, Eq, Structural)]
pub enum ColorOp {
    /// The same colour at all times.
    Value(Color),
    /// The colour wheel, once round per period.
    Rainbow(Pd),
}

impl ColorOp {
    /// The period the operator holds has a length.
    pub open spec fn wf(&self) -> bool {
        match *self {
            ColorOp::Value(_) => true,
            ColorOp::Rainbow(pd) => pd.nonzero(),
        }
    }

    /// The operator that gives `value` at all times.
    pub fn value(value: Color) -> (op: Self)
        ensures
            op == ColorOp::Value(value),
    {
        ColorOp::Value(value)
    }

    /// The colour at the phase `phi`.
    pub open spec fn eval(&self, phi: i64) -> Color {
        match *self {
            ColorOp::Value(c) => c,
            ColorOp::Rainbow(pd) => Color::hsv_spec(phase_spec(phi, pd), UNIT, UNIT),
        }
    }

    /// The colour at the clock's phase.
    pub fn apply(&self, state: &State) -> (c: Color)
        requires
            0 <= state.phi < MEASURE,
            self.wf(),
        ensures
            c == self.eval(state.phi),
    {
        match self {
            ColorOp::Value(c) => *c,
            ColorOp::Rainbow(pd) => Color::hsv(phase(state.phi, *pd), UNIT, UNIT),
        }
    }
}

impl From<Color> for ColorOp {
    fn from(color: Color) -> (op: ColorOp) {
        ColorOp::value(color)
    }
}

impl FromSpecImpl<Color> for ColorOp {
    open spec fn obeys_from_spec() -> bool {
        true
    }

    /// The operator that gives `color` at all times.
    open spec fn from_spec(color: Color) -> ColorOp {
        ColorOp::Value(color)
    }
}

/// An operator from the clock and a colour to a colour.
#[derive(Debug)]
pub enum ColorMapOp {
    /// The same colour at all times, whatever comes in.
    Value(Color),
    /// The colour that comes in.
    Id,
    /// The colour that comes in, at a fixed alpha.
    Alpha(i64),
    /// The colour that comes in, its alpha swinging by `depth` round `a` with a sine.
    Sin { pd: Pd, a: i64, depth: i64 },
    /// The colour that comes in, its alpha running over `range` with a quadratic ease-out.
    Pulse { pd: Pd, range: Range },
    /// The colour that comes in, its alpha running over `range` with a cubic ease-out.
    PulseShort { pd: Pd, range: Range },
    /// The colour that comes in, its alpha falling from 1 to 0 over each period.
    Ramp { pd: Pd },
    /// The colour that comes in, its alpha running over `range` and back with a triangle.
    Tri { pd: Pd, range: Range },
    /// The colour that comes in, its alpha at the far end of `range` for the
    /// first `duty` part of each period and at the near end for the rest.
    Strobe { pd: Pd, duty: i64, range: Range },
    /// `op` run once: from the phase at which this operator is first applied
    /// it sees a clock that starts at 0 and stops just short of `pd`.
    Once { pd: Pd, op: Box<ColorMapOp>, start: Option<i64>, done: bool },
    /// The first operator, then the second on what the first gives.
    Compose(Box<ColorMapOp>, Box<ColorMapOp>),
}

/// Where the clock of a `once` stops: the smallest step short of the
/// period's length, kept within the measure.
pub open spec fn once_stop_spec(pd: Pd) -> i64 {
    clamp_spec(minus_spec(pd.fr_spec(), 1), 0, (MEASURE - 1) as i64)
}

#[verifier::when_used_as_spec(once_stop_spec)]
pub fn once_stop(pd: Pd) -> (r: i64)
    requires
        pd.wf(),
    ensures
        r == once_stop_spec(pd),
        0 <= r < MEASURE,
{
    clamp(minus(pd.fr(), 1), 0, MEASURE - 1)
}

/// How far the phase `phi` has run since `start`, the measure's wrap counted in.
pub open spec fn elapsed_spec(start: i64, phi: i64) -> i64 {
    if phi < start {
        (phi + MEASURE - start) as i64
    } else {
        (phi - start) as i64
    }
}

#[verifier::when_used_as_spec(elapsed_spec)]
pub fn elapsed(start: i64, phi: i64) -> (r: i64)
    requires
        0 <= start < MEASURE,
        0 <= phi < MEASURE,
    ensures
        r == elapsed_spec(start, phi),
        0 <= r < MEASURE,
{
    if phi < start {
        phi + MEASURE - start
    } else {
        phi - start
    }
}

/// What a `once` of period `pd` that started at `start` and is or is not
/// `done` makes of the phase `phi`: the phase its operator sees, and whether
/// it is done from now on. At its first application it sees 0; from then on
/// the phase run since the start, until that passes the stop, and the stop
/// ever after.
pub open spec fn once_clock_spec(pd: Pd, start: Option<i64>, done: bool, phi: i64) -> (i64, bool) {
    match start {
        None => (0, done),
        Some(p) => {
            if done || elapsed_spec(p, phi) > once_stop_spec(pd) {
                (once_stop_spec(pd), true)
            } else {
                (elapsed_spec(p, phi), false)
            }
        },
    }
}

impl ColorMapOp {
    /// Every period the operator holds is well-formed, and a `once` that has
    /// started has started within the measure; none is done that has not started.
    pub open spec fn wf(&self) -> bool
        decreases self,
    {
        match self {
            ColorMapOp::Value(_) => true,
            ColorMapOp::Id => true,
            ColorMapOp::Alpha(_) => true,
            ColorMapOp::Sin { pd, .. } => pd.wf(),
            ColorMapOp::Pulse { pd, .. } => pd.wf(),
            ColorMapOp::PulseShort { pd, .. } => pd.wf(),
            ColorMapOp::Ramp { pd } => pd.wf(),
            ColorMapOp::Tri { pd, .. } => pd.wf(),
            ColorMapOp::Strobe { pd, .. } => pd.wf(),
            ColorMapOp::Once { pd, op, start, done } => {
                &&& pd.wf()
                &&& op.wf()
                &&& (start matches Some(p) ==> 0 <= *p < MEASURE)
                &&& (*done ==> start is Some)
            },
            ColorMapOp::Compose(f, g) => f.wf() && g.wf(),
        }
    }

    /// The colour that the operator makes of `color` at the phase `phi`.
    pub open spec fn eval(&self, phi: i64, color: Color) -> Color
        decreases self,
    {
        match self {
            ColorMapOp::Value(c) => *c,
            ColorMapOp::Id => color,
            ColorMapOp::Alpha(fr) => color.a_spec(*fr),
            ColorMapOp::Sin { pd, a, depth } => color.a_spec(
                plus_spec(*a, times_spec(signed_sine_spec(phase_spec(phi, *pd), UNIT), *depth)),
            ),
            ColorMapOp::Pulse { pd, range } => color.a_spec(
                lerp_spec(ease_out_quad_spec(phase_spec(phi, *pd)), *range),
            ),
            ColorMapOp::PulseShort { pd, range } => color.a_spec(
                lerp_spec(ease_out_cubic_spec(phase_spec(phi, *pd)), *range),
            ),
            ColorMapOp::Ramp { pd } => color.a_spec(invert_spec(phase_spec(phi, *pd))),
            ColorMapOp::Tri { pd, range } => color.a_spec(
                lerp_spec(triangle_spec(phase_spec(phi, *pd), UNIT), *range),
            ),
            ColorMapOp::Strobe { pd, duty, range } => color.a_spec(
                lerp_spec(square_spec(phase_spec(phi, *pd), UNIT, *duty), *range),
            ),
            ColorMapOp::Once { pd, op, start, done } => op.eval(
                once_clock_spec(*pd, *start, *done, phi).0,
                color,
            ),
            ColorMapOp::Compose(f, g) => g.eval(phi, f.eval(phi, color)),
        }
    }

    /// The operator after it has been applied at the phase `phi`: a `once`
    /// has started, if it had not, and is done, if its time is up; every
    /// other operator is as before.
    pub open spec fn next(&self, phi: i64) -> ColorMapOp
        decreases self,
    {
        match self {
            ColorMapOp::Once { pd, op, start, done } => ColorMapOp::Once {
                pd: *pd,
                op: Box::new(op.next(once_clock_spec(*pd, *start, *done, phi).0)),
                start: match start {
                    None => Some(phi),
                    Some(p) => Some(*p),
                },
                done: once_clock_spec(*pd, *start, *done, phi).1,
            },
            ColorMapOp::Compose(f, g) => ColorMapOp::Compose(
                Box::new(f.next(phi)),
                Box::new(g.next(phi)),
            ),
            _ => *self,
        }
    }

    /// The operator that gives `value` at all times.
    pub fn value(value: Color) -> (op: Self)
        ensures
            op == ColorMapOp::Value(value),
            op.wf(),
    {
        ColorMapOp::Value(value)
    }

    /// The operator that applies `self` and then `other` to what `self` gives.
    pub fn compose(self, other: ColorMapOp) -> (op: ColorMapOp)
        ensures
            op == ColorMapOp::Compose(Box::new(self), Box::new(other)),
            self.wf() && other.wf() ==> op.wf(),
            forall|phi: i64, color: Color|
                #[trigger] op.eval(phi, color) == other.eval(phi, self.eval(phi, color)),
            forall|phi: i64|
                #[trigger] op.next(phi) == ColorMapOp::Compose(
                    Box::new(self.next(phi)),
                    Box::new(other.next(phi)),
                ),
    {
        ColorMapOp::Compose(Box::new(self), Box::new(other))
    }

    /// Applies the operator to `color` at the phase `phi`.
    pub fn apply_at(&mut self, phi: i64, color: Color) -> (c: Color)
        requires
            old(self).wf(),
            0 <= phi < MEASURE,
        ensures
            c == old(self).eval(phi, color),
            *final(self) == old(self).next(phi),
            final(self).wf(),
        decreases *old(self),
    {
        match self {
            ColorMapOp::Value(v) => *v,
            ColorMapOp::Id => color,
            ColorMapOp::Alpha(fr) => color.a(*fr),
            ColorMapOp::Sin { pd, a, depth } => color.a(
                plus(*a, times(signed_sine(phase(phi, *pd), UNIT), *depth)),
            ),
            ColorMapOp::Pulse { pd, range } => color.a(
                lerp(ease_out_quad(phase(phi, *pd)), *range),
            ),
            ColorMapOp::PulseShort { pd, range } => color.a(
                lerp(ease_out_cubic(phase(phi, *pd)), *range),
            ),
            ColorMapOp::Ramp { pd } => color.a(invert(phase(phi, *pd))),
            ColorMapOp::Tri { pd, range } => color.a(
                lerp(triangle(phase(phi, *pd), UNIT), *range),
            ),
            ColorMapOp::Strobe { pd, duty, range } => color.a(
                lerp(square(phase(phi, *pd), UNIT, *duty), *range),
            ),
            ColorMapOp::Once { pd, op, start, done } => {
                let stop = once_stop(*pd);
                let t = match *start {
                    None => {
                        *start = Some(phi);
                        0
                    },
                    Some(p) => {
                        let run = elapsed(p, phi);
                        if *done || run > stop {
                            *done = true;
                            stop
                        } else {
                            run
                        }
                    },
                };
                op.apply_at(t, color)
            },
            ColorMapOp::Compose(f, g) => {
                let mid = f.apply_at(phi, color);
                g.apply_at(phi, mid)
            },
        }
    }

    /// Applies the operator to `color` at the clock's phase.
    pub fn apply(&mut self, state: &State, color: Color) -> (c: Color)
        requires
            old(self).wf(),
            0 <= state.phi < MEASURE,
        ensures
            c == old(self).eval(state.phi, color),
            *final(self) == old(self).next(state.phi),
            final(self).wf(),
    {
        self.apply_at(state.phi, color)
    }
}

impl From<Color> for ColorMapOp {
    fn from(color: Color) -> (op: ColorMapOp) {
        ColorMapOp::value(color)
    }
}

impl FromSpecImpl<Color> for ColorMapOp {
    open spec fn obeys_from_spec() -> bool {
        true
    }

    /// The operator that gives `color` at all times, whatever comes in.
    open spec fn from_spec(color: Color) -> ColorMapOp {
        ColorMapOp::Value(color)
    }
}

/// The colour wheel, once round per `pd`.
pub fn rainbow(pd: Pd) -> (op: ColorOp)
    ensures
        op == ColorOp::Rainbow(pd),
{
    ColorOp::Rainbow(pd)
}

/// The colour that comes in, its alpha swinging by `range` round `a` with a sine of period `pd`.
pub fn sin(pd: Pd, a: i64, range: i64) -> (op: ColorMapOp)
    ensures
        op == (ColorMapOp::Sin { pd, a, depth: range }),
{
    ColorMapOp::Sin { pd, a, depth: range }
}

/// The colour that comes in, its alpha running over `range` with a quadratic ease-out, once per `pd`.
pub fn pulse(pd: Pd, range: Range) -> (op: ColorMapOp)
    ensures
        op == (ColorMapOp::Pulse { pd, range }),
{
    ColorMapOp::Pulse { pd, range }
}

/// The colour that comes in, its alpha running over `range` with a cubic ease-out, once per `pd`.
pub fn pulse_short(pd: Pd, range: Range) -> (op: ColorMapOp)
    ensures
        op == (ColorMapOp::PulseShort { pd, range }),
{
    ColorMapOp::PulseShort { pd, range }
}

/// The colour that comes in, its alpha falling from 1 to 0 over each `pd`.
pub fn ramp(pd: Pd) -> (op: ColorMapOp)
    ensures
        op == (ColorMapOp::Ramp { pd }),
{
    ColorMapOp::Ramp { pd }
}

/// The colour that comes in, its alpha running over `range` and back with a triangle, once per `pd`.
pub fn tri(pd: Pd, range: Range) -> (op: ColorMapOp)
    ensures
        op == (ColorMapOp::Tri { pd, range }),
{
    ColorMapOp::Tri { pd, range }
}

/// The colour that comes in, its alpha at the far end of `range` for the
/// first `duty` part of each `pd` and at the near end for the rest.
pub fn strobe(pd: Pd, duty: i64, range: Range) -> (op: ColorMapOp)
    ensures
        op == (ColorMapOp::Strobe { pd, duty, range }),
{
    ColorMapOp::Strobe { pd, duty, range }
}

/// `op`, run once over the period `pd` from the phase at which the result is first applied.
pub fn once(pd: Pd, op: ColorMapOp) -> (r: ColorMapOp)
    ensures
        r == (ColorMapOp::Once { pd, op: Box::new(op), start: None, done: false }),
        pd.wf() && op.wf() ==> r.wf(),
{
    ColorMapOp::Once { pd, op: Box::new(op), start: None, done: false }
}

/// The operator that turns every colour off.
pub fn off() -> (op: ColorMapOp)
    ensures
        op == ColorMapOp::Value(PaletteColor::Off.color_spec()),
        op.wf(),
        forall|phi: i64, color: Color|
            #[trigger] op.eval(phi, color) == (Color { a: 0, r: 0, g: 0, b: 0, w: 0 }),
{
    ColorMapOp::Value(PaletteColor::Off.color())
}

/// The operator that leaves every colour as it is.
pub fn id() -> (op: ColorMapOp)
    ensures
        op == ColorMapOp::Id,
        op.wf(),
        forall|phi: i64, color: Color| #[trigger] op.eval(phi, color) == color,
{
    ColorMapOp::Id
}

/// The operator that sets the alpha of every colour to `fr`.
pub fn alpha(fr: i64) -> (op: ColorMapOp)
    ensures
        op == ColorMapOp::Alpha(fr),
        op.wf(),
{
    ColorMapOp::Alpha(fr)
}

/// To apply a composition is to apply its second operator to what its first
/// gives, at the same phase; and each of the two moves on as if applied alone.
pub proof fn lemma_compose(f: ColorMapOp, g: ColorMapOp, phi: i64, color: Color)
    ensures
        ColorMapOp::Compose(Box::new(f), Box::new(g)).eval(phi, color) == g.eval(
            phi,
            f.eval(phi, color),
        ),
        ColorMapOp::Compose(Box::new(f), Box::new(g)).next(phi) == ColorMapOp::Compose(
            Box::new(f.next(phi)),
            Box::new(g.next(phi)),
        ),
{
}

/// To apply an operator a second time at the same phase changes nothing:
/// it gives the same colour again and stays as the first application left it.
pub proof fn lemma_settled(op: ColorMapOp, phi: i64, color: Color)
    requires
        op.wf(),
    ensures
        op.next(phi).eval(phi, color) == op.eval(phi, color),
        op.next(phi).next(phi) == op.next(phi),
    decreases op,
{
    match op {
        ColorMapOp::Once { pd, op: inner, start, done } => {
            let seen = once_clock_spec(pd, start, done, phi).0;
            lemma_settled(*inner, seen, color);
        },
        ColorMapOp::Compose(f, g) => {
            lemma_settled(*f, phi, color);
            lemma_settled(*g, phi, f.eval(phi, color));
        },
        _ => {},
    }
}

/// A `once` freezes when it completes. If it started at `start` and at the
/// phase `phi` its time is up, then from that application on it gives, at
/// every phase, the colour that it gave at `phi`, and it changes no more.
pub proof fn lemma_once_frozen(
    pd: Pd,
    inner: ColorMapOp,
    start: i64,
    phi: i64,
    later: i64,
    color: Color,
)
    requires
        pd.wf(),
        inner.wf(),
        elapsed_spec(start, phi) > once_stop_spec(pd),
    ensures
        ({
            let fresh = ColorMapOp::Once { pd, op: Box::new(inner), start: Some(start), done: false };
            let frozen = fresh.next(phi);
            &&& frozen.eval(later, color) == fresh.eval(phi, color)
            &&& frozen.next(later) == frozen
        }),
{
    lemma_settled(inner, once_stop_spec(pd), color);
}

/// A `once` that is done gives the same colour at every phase, and stays as it is
/// once it has been applied.
pub proof fn lemma_once_done(op: ColorMapOp, phi1: i64, phi2: i64, color: Color)
    requires
        op.wf(),
        op matches ColorMapOp::Once { done, .. } && done,
    ensures
        op.eval(phi1, color) == op.eval(phi2, color),
        op.next(phi1).eval(phi2, color) == op.eval(phi1, color),
        op.next(phi1).next(phi2) == op.next(phi1),
{
    match op {
        ColorMapOp::Once { pd, op: inner, .. } => {
            lemma_settled(*inner, once_stop_spec(pd), color);
        },
        _ => {},
    }
}

} // verus!
