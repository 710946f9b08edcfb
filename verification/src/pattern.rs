//! Where beams, spiders and the laser point: each pattern is a pure function
//! of the clock and of a fixture's place in its group.

use crate::color::Color;
use crate::lights::{Beam, Laser, LaserPattern, Spider};
use crate::num::{
    fmod, fmod_spec, minus, minus_spec, over, over_spec, plus, plus_spec, times, times_spec,
    HALF, UNIT,
};
use crate::outside::{seeded_pair, seeded_pair_of};
use crate::state::{phase, phase_spec, State, MEASURE};
use crate::utils::Pd;
use crate::wave::{
    invert, invert_spec, lerp, lerp_spec, negsquare, negsquare_spec, phase_shift,
    phase_shift_spec, square, square_spec, trapezoid, trapezoid_spec, triangle, triangle_spec,
    Range,
};
use vstd::prelude::*;

verus! {

/// A quarter over one and a half, rounded: the yaw that the layouts and the
/// square take off to face the room.
pub const SIDE: i64 = 166_667;

/// The part of a whirl's turn, at its end, in which the beams go back to rest.
pub const TOP_RESET_SECTOR: i64 = 125_000;

/// The part of each sweep of a whirl in which the beams move to its start.
pub const READY_SECTOR: i64 = 250_000;

/// The part of a sweep, at its start, in which a whirling beam stays dark.
pub const WARMUP: i64 = 100_000;

/// How the group of moving beams is aimed.
#[derive(Clone, Copy, Debug, PartialEq, Eq, Structural)]
pub enum BeamPattern {
    Down,
    Out,
    Center,
    SpreadOut,
    SpreadIn,
    Cross { pitch: i64, angle: Option<i64>, fanning: Option<i64> },
    CrissCross { pitch: i64 },
    WaveY,
    SnapX,
    SnapY,
    Square,
    Whirl,
    RaisingBeams,
    Twisting,
    DarthMaul,
    UpDownWave,
}

/// How the two arms of each spider are set.
#[derive(Clone, Copy, Debug, PartialEq, Eq, Structural)]
pub enum SpiderPattern {
    Up,
    Down,
    Wave { pd: Pd },
    Alternate { pd: Pd },
    Snap { pd: Pd },
}

/// How the laser moves.
#[derive(Clone, Copy, Debug, PartialEq, Eq, Structural)]
pub enum LaserPos {
    Rotate { pd: Pd },
    WaveY { pd: Pd },
}

/// Which of two colours each of the ten washes takes.
#[derive(Clone, Copy, Debug, PartialEq, Eq, Structural)]
pub enum ParPattern {
    /// Six washes in the second colour and four in the first, mirrored about
    /// the middle of the row.
    UpDown,
    /// Two washes picked out in the second colour.
    Spotlight,
}

impl ParPattern {
    /// Whether wash `i` takes the second colour.
    pub open spec fn second_spec(self, i: usize) -> bool {
        match self {
            ParPattern::UpDown => i == 0 || i == 2 || i == 3 || i == 6 || i == 7 || i == 9,
            ParPattern::Spotlight => i == 3 || i == 6,
        }
    }

    #[verifier::when_used_as_spec(second_spec)]
    pub fn second(self, i: usize) -> (r: bool)
        requires
            i < 10,
        ensures
            r == self.second_spec(i),
    {
        match self {
            ParPattern::UpDown => i == 0 || i == 2 || i == 3 || i == 6 || i == 7 || i == 9,
            ParPattern::Spotlight => i == 3 || i == 6,
        }
    }

    /// The colour of wash `i`: `c1` where the pattern picks the second colour, else `c0`.
    pub fn color(self, i: usize, c0: Color, c1: Color) -> (c: Color)
        requires
            i < 10,
        ensures
            c == (if self.second_spec(i) {
                c1
            } else {
                c0
            }),
    {
        if self.second(i) {
            c1
        } else {
            c0
        }
    }
}

/// What a whirling beam is doing at one point of its turn.
#[derive(Clone, Copy, Debug, PartialEq, Eq, Structural)]
pub enum WhirlState {
    /// Going back to rest.
    FullyResetting { pitch: i64, yaw: i64 },
    /// Moving, dark, to where the next sweep starts.
    ReadyingSubrotation { pitch: i64, yaw: i64 },
    /// Sweeping; `percentage` is the part of the sweep that is done.
    DoingSubrotation { pitch: i64, yaw: i64, percentage: i64 },
}

/// The point of its turn at which a fixture stands: the clock's `phase` moved
/// on by `k` times the fixture's fraction `fr`, folded into `[0, 1)`.
pub open spec fn turn_spec(phase: i64, fr: i64, k: i64) -> i64 {
    fmod_spec(plus_spec(phase, times_spec(fr, k)), UNIT)
}

#[verifier::when_used_as_spec(turn_spec)]
pub fn turn(phase: i64, fr: i64, k: i64) -> (r: i64)
    ensures
        r == turn_spec(phase, fr, k),
        0 <= r < UNIT,
{
    fmod(plus(phase, times(fr, k)), UNIT)
}

impl WhirlState {
    /// How bright a whirling beam is: dark while it resets or gets ready and
    /// during the warm-up of a sweep; over the rest of the sweep the square
    /// of a trapezoid that takes a sixteenth to rise and to fall.
    pub open spec fn to_env_spec(&self) -> i64 {
        match *self {
            WhirlState::FullyResetting { .. } => 0,
            WhirlState::ReadyingSubrotation { .. } => 0,
            WhirlState::DoingSubrotation { percentage, .. } => {
                if percentage < WARMUP {
                    0
                } else {
                    let t = trapezoid_spec(
                        over_spec(minus_spec(percentage, WARMUP), (UNIT - WARMUP) as i64),
                        UNIT,
                        62_500,
                    );
                    times_spec(t, t)
                }
            },
        }
    }

    #[verifier::when_used_as_spec(to_env_spec)]
    pub fn to_env(&self) -> (r: i64)
        ensures
            r == self.to_env_spec(),
    {
        match self {
            WhirlState::FullyResetting { .. } => 0,
            WhirlState::ReadyingSubrotation { .. } => 0,
            WhirlState::DoingSubrotation { percentage, .. } => {
                if *percentage < WARMUP {
                    0
                } else {
                    let t = trapezoid(over(minus(*percentage, WARMUP), UNIT - WARMUP), UNIT, 62_500);
                    times(t, t)
                }
            },
        }
    }

    /// The state of a whirl at `angle` of its turn.
    ///
    /// The last eighth of the turn is the reset. The rest holds two sweeps,
    /// one after the other; the first quarter of each is spent getting ready,
    /// and over the whole of it the yaw runs a third of the way round, the
    /// second sweep starting where the first ended. A sweep at an even place
    /// is made low, one at an odd place high.
    pub open spec fn from_angle_top_only_spec(angle: i64) -> WhirlState {
        if angle > UNIT - TOP_RESET_SECTOR {
            WhirlState::FullyResetting { pitch: 0, yaw: (UNIT - SIDE) as i64 }
        } else {
            let active = over_spec(angle, (UNIT - TOP_RESET_SECTOR) as i64);
            let doubled = times_spec(active, (2 * UNIT) as i64);
            let idx = (doubled as int) / (UNIT as int);
            let sub = fmod_spec(doubled, UNIT);
            let start = minus_spec((UNIT - SIDE) as i64, (idx * 333_333) as i64);
            let pitch: i64 = if idx % 2 == 0 {
                250_000
            } else {
                750_000
            };
            if sub < READY_SECTOR {
                WhirlState::ReadyingSubrotation { pitch, yaw: start }
            } else {
                WhirlState::DoingSubrotation {
                    pitch,
                    yaw: minus_spec(start, times_spec(sub, 333_333)),
                    percentage: over_spec(
                        minus_spec(sub, READY_SECTOR),
                        (UNIT - READY_SECTOR) as i64,
                    ),
                }
            }
        }
    }

    #[verifier::when_used_as_spec(from_angle_top_only_spec)]
    pub fn from_angle_top_only(angle: i64) -> (r: WhirlState)
        ensures
            r == Self::from_angle_top_only_spec(angle),
    {
        if angle > UNIT - TOP_RESET_SECTOR {
            WhirlState::FullyResetting { pitch: 0, yaw: UNIT - SIDE }
        } else {
            let active = over(angle, UNIT - TOP_RESET_SECTOR);
            let doubled = times(active, 2 * UNIT);
            proof {
                lemma_whirl_doubled(angle);
            }
            let idx = crate::num::div_floor(doubled as i128, UNIT as i128) as i64;
            let sub = fmod(doubled, UNIT);
            let start = minus(UNIT - SIDE, idx * 333_333);
            let pitch: i64 = if crate::num::rem_floor(idx as i128, 2) == 0 {
                250_000
            } else {
                750_000
            };
            if sub < READY_SECTOR {
                WhirlState::ReadyingSubrotation { pitch, yaw: start }
            } else {
                WhirlState::DoingSubrotation {
                    pitch,
                    yaw: minus(start, times(sub, 333_333)),
                    percentage: over(minus(sub, READY_SECTOR), UNIT - READY_SECTOR),
                }
            }
        }
    }
}

/// What the beam at the fraction `fr` of its group does in a whirl of period
/// `pd` when the clock stands at `phi`: the state at its place in the turn,
/// which is the clock's place moved on by one and a half turns times `fr`.
pub open spec fn whirl_spec(phi: i64, pd: Pd, fr: i64) -> WhirlState {
    WhirlState::from_angle_top_only_spec(turn_spec(phase_spec(phi, pd), fr, 1_500_000))
}

#[verifier::when_used_as_spec(whirl_spec)]
pub fn whirl(phi: i64, pd: Pd, fr: i64) -> (r: WhirlState)
    requires
        0 <= phi < MEASURE,
        pd.nonzero(),
    ensures
        r == whirl_spec(phi, pd, fr),
{
    WhirlState::from_angle_top_only(turn(phase(phi, pd), fr, 1_500_000))
}

/// One of four values by a beam's place in its group.
pub open spec fn by_place_spec(i: usize, a: i64, b: i64, c: i64, d: i64) -> i64 {
    if i == 0 {
        a
    } else if i == 1 {
        b
    } else if i == 2 {
        c
    } else {
        d
    }
}

#[verifier::when_used_as_spec(by_place_spec)]
pub fn by_place(i: usize, a: i64, b: i64, c: i64, d: i64) -> (r: i64)
    requires
        i < 4,
    ensures
        r == by_place_spec(i, a, b, c, d),
{
    if i == 0 {
        a
    } else if i == 1 {
        b
    } else if i == 2 {
        c
    } else {
        d
    }
}

/// The seed of a twisting beam: the beam's place in the first byte, and in
/// the 31 others the bucket, out of 255, that the slow phase stands in.
pub open spec fn twist_seed_spec(phase: i64, i: usize) -> Seq<u8> {
    Seq::new(
        32,
        |k: int|
            if k == 0 {
                (i % 256) as u8
            } else {
                ((phase * 255) / (UNIT as int)) as u8
            },
    )
}

pub fn twist_seed(phase: i64, i: usize) -> (r: [u8; 32])
    requires
        0 <= phase < UNIT,
    ensures
        r@ == twist_seed_spec(phase, i),
{
    let bucket = ((phase * 255) / UNIT) as u8;
    let mut seed = [bucket;32];
    seed[0] = (i % 256) as u8;
    seed
}

/// Pitch and yaw of a twisting beam from the two fractions drawn for it: the
/// first is the yaw, and the second picks the pitch between two and eight tenths.
pub open spec fn twist_angles_spec(drawn: (i64, i64)) -> (i64, i64) {
    (lerp_spec(drawn.1, Range { lo: 200_000, hi: 800_000 }), drawn.0)
}

#[verifier::when_used_as_spec(twist_angles_spec)]
pub fn twist_angles(drawn: (i64, i64)) -> (r: (i64, i64))
    ensures
        r == twist_angles_spec(drawn),
        0 <= drawn.1 < UNIT ==> 200_000 <= r.0 < 800_000,
{
    proof {
        lemma_twist_pitch(drawn.1);
    }
    (lerp(drawn.1, Range { lo: 200_000, hi: 800_000 }), drawn.0)
}

/// A fraction below 1 picks a pitch of at least two and less than eight tenths.
pub proof fn lemma_twist_pitch(u: i64)
    ensures
        0 <= u < UNIT ==> 200_000 <= lerp_spec(u, Range { lo: 200_000, hi: 800_000 }) < 800_000,
{
    if 0 <= u < UNIT {
        assert(times_spec(u, 600_000) == (u * 600_000) / 1_000_000);
    }
}

/// The pitch of a rising beam at `angle` of its turn: down from one half to
/// 0 over the first seven tenths, up at six tenths for two more, then back
/// down from one half.
pub open spec fn raising_pitch_spec(angle: i64) -> i64 {
    if angle < 700_000 {
        minus_spec(HALF, times_spec(over_spec(angle, 700_000), HALF))
    } else if angle < 900_000 {
        600_000
    } else {
        minus_spec(HALF, minus_spec(angle, 900_000))
    }
}

#[verifier::when_used_as_spec(raising_pitch_spec)]
pub fn raising_pitch(angle: i64) -> (r: i64)
    ensures
        r == raising_pitch_spec(angle),
{
    if angle < 700_000 {
        minus(HALF, times(over(angle, 700_000), HALF))
    } else if angle < 900_000 {
        600_000
    } else {
        minus(HALF, minus(angle, 900_000))
    }
}

impl BeamPattern {
    /// Pitch and yaw of beam `i`, which stands at the fraction `fr` of its
    /// group, when the clock stands at `phi` and the pattern runs at the period `pd`.
    pub open spec fn angles_spec(self, phi: i64, pd: Pd, i: usize, fr: i64) -> (i64, i64) {
        match self {
            BeamPattern::Down => (0, 0),
            BeamPattern::Out => (HALF, 330_000),
            BeamPattern::Center => (850_000, by_place_spec(i, 50_000, 700_000, 630_000, 600_000)),
            BeamPattern::SpreadOut => (
                0,
                minus_spec(by_place_spec(i, 450_000, 480_000, 520_000, 550_000), SIDE),
            ),
            BeamPattern::SpreadIn => (
                0,
                minus_spec(by_place_spec(i, 590_000, 570_000, 430_000, 410_000), SIDE),
            ),
            BeamPattern::Cross { pitch, angle, fanning } => {
                let a = match angle {
                    Some(a) => a,
                    None => 130_000,
                };
                let f = if i == 1 || i == 2 {
                    match fanning {
                        Some(f) => f,
                        None => UNIT,
                    }
                } else {
                    UNIT
                };
                let out = plus_spec(HALF, a);
                let inn = minus_spec(HALF, a);
                (times_spec(pitch, f), minus_spec(by_place_spec(i, out, out, inn, inn), SIDE))
            },
            BeamPattern::CrissCross { pitch } => (
                pitch,
                minus_spec(by_place_spec(i, 580_000, 450_000, 550_000, 420_000), SIDE),
            ),
            BeamPattern::SnapY => {
                let t = square_spec(phase_spec(phi, pd.mul_spec(4)), UNIT, HALF);
                (
                    times_spec(
                        300_000,
                        if i % 2 == 0 {
                            t
                        } else {
                            invert_spec(t)
                        },
                    ),
                    HALF,
                )
            },
            BeamPattern::SnapX => {
                let t = negsquare_spec(phase_spec(phi, pd.mul_spec(4)), UNIT, HALF);
                let side = if i > 1 {
                    t
                } else {
                    minus_spec(0, t)
                };
                (
                    times_spec(300_000, square_spec(phase_spec(phi, pd.mul_spec(2)), UNIT, HALF)),
                    plus_spec(HALF, times_spec(130_000, side)),
                )
            },
            BeamPattern::WaveY => (
                times_spec(400_000, triangle_spec(phase_spec(phi, pd.mul_spec(4)), UNIT)),
                UNIT,
            ),
            BeamPattern::Square => {
                let p = phase_spec(phi, pd.mul_spec(4));
                let t_pitch = square_spec(phase_shift_spec(p, UNIT, 250_000), UNIT, HALF);
                let t_yaw = if i % 2 == 0 {
                    negsquare_spec(p, UNIT, HALF)
                } else {
                    negsquare_spec(phase_shift_spec(p, UNIT, HALF), UNIT, HALF)
                };
                let lift = if i % 2 == 0 {
                    t_pitch
                } else {
                    invert_spec(t_pitch)
                };
                (
                    plus_spec(100_000, times_spec(250_000, lift)),
                    minus_spec(plus_spec(HALF, times_spec(80_000, t_yaw)), SIDE),
                )
            },
            BeamPattern::Whirl => {
                match whirl_spec(phi, pd, fr) {
                    WhirlState::FullyResetting { pitch, yaw } => (pitch, yaw),
                    WhirlState::ReadyingSubrotation { pitch, yaw } => (pitch, yaw),
                    WhirlState::DoingSubrotation { pitch, yaw, .. } => (pitch, yaw),
                }
            },
            BeamPattern::RaisingBeams => (
                times_spec(
                    raising_pitch_spec(turn_spec(phase_spec(phi, pd), fr, 2_000_000)),
                    900_000,
                ),
                0,
            ),
            BeamPattern::Twisting => {
                let drawn = seeded_pair_of(
                    twist_seed_spec(phase_spec(phi, pd.mul_spec(512)), i),
                    0,
                    UNIT as int,
                );
                twist_angles_spec((drawn.0 as i64, drawn.1 as i64))
            },
            BeamPattern::DarthMaul => {
                let sweep = lerp_spec(
                    triangle_spec(phase_spec(phi, pd.mul_spec(8)), UNIT),
                    Range { lo: 200_000, hi: 800_000 },
                );
                (
                    200_000,
                    if i % 2 == 0 {
                        sweep
                    } else {
                        plus_spec(sweep, 660_000)
                    },
                )
            },
            BeamPattern::UpDownWave => (
                200_000,
                square_spec(
                    phase_shift_spec(phase_spec(phi, Pd(8, 1)), UNIT, times_spec(fr, 100_000)),
                    UNIT,
                    HALF,
                ),
            ),
        }
    }

    /// Pitch and yaw of beam `i` of the four, which stands at the fraction
    /// `fr` of its group. A twisting beam is drawn a pitch of at least two and
    /// less than eight tenths and a yaw of at least 0 and less than 1.
    pub fn angles(self, s: &State, pd: Pd, i: usize, fr: i64) -> (r: (i64, i64))
        requires
            0 <= s.phi < MEASURE,
            pd.wf(),
            i < 4,
        ensures
            r == self.angles_spec(s.phi, pd, i, fr),
            self is Twisting ==> 200_000 <= r.0 < 800_000 && 0 <= r.1 < UNIT,
    {
        let phi = s.phi;
        match self {
            BeamPattern::Down => (0, 0),
            BeamPattern::Out => (HALF, 330_000),
            BeamPattern::Center => (850_000, by_place(i, 50_000, 700_000, 630_000, 600_000)),
            BeamPattern::SpreadOut => (
                0,
                minus(by_place(i, 450_000, 480_000, 520_000, 550_000), SIDE),
            ),
            BeamPattern::SpreadIn => (
                0,
                minus(by_place(i, 590_000, 570_000, 430_000, 410_000), SIDE),
            ),
            BeamPattern::Cross { pitch, angle, fanning } => {
                let a = match angle {
                    Some(a) => a,
                    None => 130_000,
                };
                let f = if i == 1 || i == 2 {
                    match fanning {
                        Some(f) => f,
                        None => UNIT,
                    }
                } else {
                    UNIT
                };
                let out = plus(HALF, a);
                let inn = minus(HALF, a);
                (times(pitch, f), minus(by_place(i, out, out, inn, inn), SIDE))
            },
            BeamPattern::CrissCross { pitch } => (
                pitch,
                minus(by_place(i, 580_000, 450_000, 550_000, 420_000), SIDE),
            ),
            BeamPattern::SnapY => {
                let t = square(phase(phi, pd.mul(4)), UNIT, HALF);
                (
                    times(
                        300_000,
                        if i % 2 == 0 {
                            t
                        } else {
                            invert(t)
                        },
                    ),
                    HALF,
                )
            },
            BeamPattern::SnapX => {
                let t = negsquare(phase(phi, pd.mul(4)), UNIT, HALF);
                let side = if i > 1 {
                    t
                } else {
                    minus(0, t)
                };
                (
                    times(300_000, square(phase(phi, pd.mul(2)), UNIT, HALF)),
                    plus(HALF, times(130_000, side)),
                )
            },
            BeamPattern::WaveY => (times(400_000, triangle(phase(phi, pd.mul(4)), UNIT)), UNIT),
            BeamPattern::Square => {
                let p = phase(phi, pd.mul(4));
                let t_pitch = square(phase_shift(p, UNIT, 250_000), UNIT, HALF);
                let t_yaw = if i % 2 == 0 {
                    negsquare(p, UNIT, HALF)
                } else {
                    negsquare(phase_shift(p, UNIT, HALF), UNIT, HALF)
                };
                let lift = if i % 2 == 0 {
                    t_pitch
                } else {
                    invert(t_pitch)
                };
                (
                    plus(100_000, times(250_000, lift)),
                    minus(plus(HALF, times(80_000, t_yaw)), SIDE),
                )
            },
            BeamPattern::Whirl => {
                match whirl(phi, pd, fr) {
                    WhirlState::FullyResetting { pitch, yaw } => (pitch, yaw),
                    WhirlState::ReadyingSubrotation { pitch, yaw } => (pitch, yaw),
                    WhirlState::DoingSubrotation { pitch, yaw, .. } => (pitch, yaw),
                }
            },
            BeamPattern::RaisingBeams => (
                times(raising_pitch(turn(phase(phi, pd), fr, 2_000_000)), 900_000),
                0,
            ),
            BeamPattern::Twisting => {
                twist_angles(seeded_pair(twist_seed(phase(phi, pd.mul(512)), i), 0, UNIT))
            },
            BeamPattern::DarthMaul => {
                let sweep = lerp(
                    triangle(phase(phi, pd.mul(8)), UNIT),
                    Range { lo: 200_000, hi: 800_000 },
                );
                (
                    200_000,
                    if i % 2 == 0 {
                        sweep
                    } else {
                        plus(sweep, 660_000)
                    },
                )
            },
            BeamPattern::UpDownWave => (
                200_000,
                square(
                    phase_shift(phase(phi, Pd(8, 1)), UNIT, times(fr, 100_000)),
                    UNIT,
                    HALF,
                ),
            ),
        }
    }

    /// Aims `beam`, the beam at place `i` of the four and fraction `fr` of its
    /// group; its colour stays.
    pub fn apply(self, s: &State, pd: Pd, beam: &mut Beam, i: usize, fr: i64)
        requires
            0 <= s.phi < MEASURE,
            pd.wf(),
            i < 4,
        ensures
            final(beam).pitch == self.angles_spec(s.phi, pd, i, fr).0,
            final(beam).yaw == self.angles_spec(s.phi, pd, i, fr).1,
            self is Twisting ==> 200_000 <= final(beam).pitch < 800_000 && 0 <= final(beam).yaw
                < UNIT,
            final(beam).color == old(beam).color,
    {
        let (pitch, yaw) = self.angles(s, pd, i, fr);
        beam.pitch = pitch;
        beam.yaw = yaw;
    }
}

impl SpiderPattern {
    /// Every period the pattern holds has a length, and twice `PD_LIMIT` bounds its parts.
    pub open spec fn wf(&self) -> bool {
        match *self {
            SpiderPattern::Wave { pd } => pd.within(0x20_0000),
            SpiderPattern::Alternate { pd } => pd.within(0x20_0000),
            SpiderPattern::Snap { pd } => pd.within(0x20_0000),
            _ => true,
        }
    }

    /// The positions of the two arms of spider `i` when the clock stands at `phi`.
    pub open spec fn pos_spec(self, phi: i64, i: usize, fr: i64) -> (i64, i64) {
        match self {
            SpiderPattern::Up => (0, 520_000),
            SpiderPattern::Down => (670_000, 520_000),
            SpiderPattern::Wave { pd } => {
                let t = triangle_spec(phase_spec(phi, pd.mul_spec(2)), UNIT);
                (t, invert_spec(t))
            },
            SpiderPattern::Alternate { pd } => {
                let p = phase_spec(phi, pd.mul_spec(2));
                let t = triangle_spec(
                    if i == 0 {
                        p
                    } else {
                        phase_shift_spec(p, UNIT, HALF)
                    },
                    UNIT,
                );
                (t, t)
            },
            SpiderPattern::Snap { pd } => {
                let p = phase_spec(phi, pd.mul_spec(2));
                let t = square_spec(
                    if i == 0 {
                        p
                    } else {
                        phase_shift_spec(p, UNIT, HALF)
                    },
                    UNIT,
                    HALF,
                );
                (t, t)
            },
        }
    }

    /// The positions of the two arms of spider `i` of the two.
    pub fn pos(self, s: &State, i: usize, fr: i64) -> (r: (i64, i64))
        requires
            0 <= s.phi < MEASURE,
            self.wf(),
            i < 2,
        ensures
            r == self.pos_spec(s.phi, i, fr),
    {
        let phi = s.phi;
        match self {
            SpiderPattern::Up => (0, 520_000),
            SpiderPattern::Down => (670_000, 520_000),
            SpiderPattern::Wave { pd } => {
                let t = triangle(phase(phi, pd.mul(2)), UNIT);
                (t, invert(t))
            },
            SpiderPattern::Alternate { pd } => {
                let p = phase(phi, pd.mul(2));
                let t = triangle(
                    if i == 0 {
                        p
                    } else {
                        phase_shift(p, UNIT, HALF)
                    },
                    UNIT,
                );
                (t, t)
            },
            SpiderPattern::Snap { pd } => {
                let p = phase(phi, pd.mul(2));
                let t = square(
                    if i == 0 {
                        p
                    } else {
                        phase_shift(p, UNIT, HALF)
                    },
                    UNIT,
                    HALF,
                );
                (t, t)
            },
        }
    }

    /// Sets the arms of `spider`, the spider at place `i` of the two; its colours stay.
    pub fn apply(self, s: &State, spider: &mut Spider, i: usize, fr: i64)
        requires
            0 <= s.phi < MEASURE,
            self.wf(),
            i < 2,
        ensures
            final(spider).pos0 == self.pos_spec(s.phi, i, fr).0,
            final(spider).pos1 == self.pos_spec(s.phi, i, fr).1,
            final(spider).color0 == old(spider).color0,
            final(spider).color1 == old(spider).color1,
    {
        let (pos0, pos1) = self.pos(s, i, fr);
        spider.pos0 = pos0;
        spider.pos1 = pos1;
    }
}

impl LaserPos {
    /// The period the motion holds is well-formed.
    pub open spec fn wf(&self) -> bool {
        match *self {
            LaserPos::Rotate { pd } => pd.wf(),
            LaserPos::WaveY { pd } => pd.wf(),
        }
    }

    /// The laser `l` after the motion has set it, with the clock at `phi`:
    /// a line turning to and fro four times per period, or whatever the laser
    /// draws, moved up once per period.
    pub open spec fn apply_spec(self, phi: i64, l: Laser) -> Laser {
        match self {
            LaserPos::Rotate { pd } => Laser {
                on: true,
                pattern: LaserPattern::LineX,
                size: 660_000,
                x: HALF,
                y: 100_000,
                rotate: triangle_spec(phase_spec(phi, pd.mul_spec(4)), UNIT),
                ..l
            },
            LaserPos::WaveY { pd } => Laser { y: phase_spec(phi, pd), ..l },
        }
    }

    pub fn apply(self, s: &State, l: &mut Laser)
        requires
            0 <= s.phi < MEASURE,
            self.wf(),
        ensures
            *final(l) == self.apply_spec(s.phi, *old(l)),
    {
        match self {
            LaserPos::Rotate { pd } => {
                l.on = true;
                l.pattern = LaserPattern::LineX;
                l.size = 660_000;
                l.x = HALF;
                l.y = 100_000;
                l.rotate = triangle(phase(s.phi, pd.mul(4)), UNIT);
            },
            LaserPos::WaveY { pd } => {
                l.y = phase(s.phi, pd);
            },
        }
    }
}

/// Twice the part of the active turn that is done stays small enough to count sweeps.
pub proof fn lemma_whirl_doubled(angle: i64)
    requires
        angle <= UNIT - TOP_RESET_SECTOR,
    ensures
        -0x8000_0000_0000 <= (times_spec(
            over_spec(angle, (UNIT - TOP_RESET_SECTOR) as i64),
            (2 * UNIT) as i64,
        ) as int) / (UNIT as int) <= 2,
{
    let active = over_spec(angle, (UNIT - TOP_RESET_SECTOR) as i64);
    assert(active == crate::num::sat((angle * 1_000_000) / 875_000));
}

/// A fixture at the head of its group turns with the clock alone.
pub proof fn lemma_turn_head(phase: i64, k: i64)
    requires
        0 <= phase < UNIT,
    ensures
        turn_spec(phase, 0, k) == phase,
{
    assert(0 * k == 0) by (nonlinear_arith);
}

/// Which state a whirl is in depends on the place in its turn alone,
/// and the states come in the same order in every turn: ready and sweep,
/// ready and sweep again, ready for an instant, then the reset, after which
/// the next turn starts by getting ready.
pub proof fn lemma_whirl_order(angle: i64)
    requires
        0 <= angle < UNIT,
    ensures
        WhirlState::from_angle_top_only_spec(angle) is ReadyingSubrotation <==> (angle < 109_375
            || 437_500 <= angle < 546_875 || angle == 875_000),
        WhirlState::from_angle_top_only_spec(angle) is DoingSubrotation <==> (109_375 <= angle
            < 437_500 || 546_875 <= angle < 875_000),
        WhirlState::from_angle_top_only_spec(angle) is FullyResetting <==> angle > 875_000,
{
    if angle <= 875_000 {
        let active = over_spec(angle, (UNIT - TOP_RESET_SECTOR) as i64);
        assert(active == (angle * 1_000_000) / 875_000);
        let doubled = times_spec(active, (2 * UNIT) as i64);
        let sub = fmod_spec(doubled, UNIT);
        assert(sub == doubled % 1_000_000);
    }
}

/// At the head of its group a whirling beam goes through the three states in
/// the same order in every turn of the clock: it gets ready and sweeps, gets
/// ready and sweeps again, is ready for an instant and resets; after the
/// reset the next turn starts by getting ready. Which state it is in depends
/// on the clock's place in the turn alone.
pub proof fn lemma_whirl_turn(phi: i64, pd: Pd)
    requires
        0 <= phi < MEASURE,
        pd.nonzero(),
    ensures
        0 <= phase_spec(phi, pd) < UNIT,
        whirl_spec(phi, pd, 0) == WhirlState::from_angle_top_only_spec(phase_spec(phi, pd)),
        whirl_spec(phi, pd, 0) is ReadyingSubrotation <==> (phase_spec(phi, pd) < 109_375
            || 437_500 <= phase_spec(phi, pd) < 546_875 || phase_spec(phi, pd) == 875_000),
        whirl_spec(phi, pd, 0) is DoingSubrotation <==> (109_375 <= phase_spec(phi, pd) < 437_500
            || 546_875 <= phase_spec(phi, pd) < 875_000),
        whirl_spec(phi, pd, 0) is FullyResetting <==> phase_spec(phi, pd) > 875_000,
{
    assert(0 < pd.0 * UNIT) by (nonlinear_arith)
        requires
            0 < pd.0,
    ;
    crate::wave::lemma_ramp_range(phi * pd.1, pd.0 * UNIT);
    lemma_turn_head(phase_spec(phi, pd), 1_500_000);
    lemma_whirl_order(phase_spec(phi, pd));
}

/// A twisting beam points the same way whenever its place and the bucket
/// of the slow phase are the same, whatever else the clock shows.
pub proof fn lemma_twisting_repeats(phi1: i64, phi2: i64, pd: Pd, i: usize, fr1: i64, fr2: i64)
    requires
        (phase_spec(phi1, pd.mul_spec(512)) * 255) / (UNIT as int) == (phase_spec(
            phi2,
            pd.mul_spec(512),
        ) * 255) / (UNIT as int),
    ensures
        BeamPattern::Twisting.angles_spec(phi1, pd, i, fr1) == BeamPattern::Twisting.angles_spec(
            phi2,
            pd,
            i,
            fr2,
        ),
{
    assert(twist_seed_spec(phase_spec(phi1, pd.mul_spec(512)), i) =~= twist_seed_spec(
        phase_spec(phi2, pd.mul_spec(512)),
        i,
    ));
}

} // verus!
