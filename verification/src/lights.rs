//! The rig: its fixtures, and where each fixture's channels stand in the
//! frame that goes out to it.

use crate::color::Color;
use crate::num::UNIT;
use vstd::prelude::*;

verus! {

/// A wash light.
#[derive(Clone, Copy, Debug, PartialEq, Eq, Structural)]
pub struct Par {
    pub color: Color,
}

/// A moving beam: `pitch` and `yaw` are fractions of its travel.
#[derive(Clone, Copy, Debug, PartialEq, Eq, Structural)]
pub struct Beam {
    pub color: Color,
    pub pitch: i64,
    pub yaw: i64,
}

/// A light bar.
#[derive(Clone, Copy, Debug, PartialEq, Eq, Structural)]
pub struct Bar {
    pub color: Color,
}

/// A spider: two arms, each with its colour and its position.
#[derive(Clone, Copy, Debug, PartialEq, Eq, Structural)]
pub struct Spider {
    pub color0: Color,
    pub color1: Color,
    pub pos0: i64,
    pub pos1: i64,
}

/// The strobe.
#[derive(Clone, Copy, Debug, PartialEq, Eq, Structural)]
pub struct Strobe {
    pub color: Color,
}

/// The figure the laser draws.
#[derive(Clone, Copy, Debug, PartialEq, Eq, Structural)]
pub enum LaserPattern {
    LineX,
    Raw(u8),
}

/// The colour of the laser.
#[derive(Clone, Copy, Debug, PartialEq, Eq, Structural)]
pub enum LaserColor {
    RGB,
    Raw(u8),
}

/// The laser.
#[derive(Clone, Copy, Debug, PartialEq, Eq, Structural)]
pub struct Laser {
    pub on: bool,
    pub pattern: LaserPattern,
    pub color: LaserColor,
    pub size: i64,
    pub x: i64,
    pub y: i64,
    pub rotate: i64,
    pub xflip: i64,
    pub yflip: i64,
}

/// No light.
pub open spec fn dark() -> Color {
    Color { a: 0, r: 0, g: 0, b: 0, w: 0 }
}

pub open spec fn par_off() -> Par {
    Par { color: dark() }
}

pub open spec fn beam_off() -> Beam {
    Beam { color: dark(), pitch: 0, yaw: 0 }
}

pub open spec fn bar_off() -> Bar {
    Bar { color: dark() }
}

pub open spec fn spider_off() -> Spider {
    Spider { color0: dark(), color1: dark(), pos0: 0, pos1: 0 }
}

pub open spec fn strobe_off() -> Strobe {
    Strobe { color: dark() }
}

pub open spec fn laser_off() -> Laser {
    Laser {
        on: false,
        pattern: LaserPattern::Raw(0),
        color: LaserColor::Raw(0),
        size: 0,
        x: 0,
        y: 0,
        rotate: 0,
        xflip: 0,
        yflip: 0,
    }
}

/// How far fixture `i` of `n` stands along its group when the group closes
/// into a ring: `i / n`, which never reaches 1.
pub open spec fn fr_cyclic_spec(i: usize, n: usize) -> i64 {
    ((i * UNIT) / (n as int)) as i64
}

#[verifier::when_used_as_spec(fr_cyclic_spec)]
pub fn fr_cyclic(i: usize, n: usize) -> (r: i64)
    requires
        i < n,
    ensures
        r == fr_cyclic_spec(i, n),
        0 <= r < UNIT,
{
    proof {
        assert(0 <= i * UNIT && i * UNIT < n * UNIT) by (nonlinear_arith)
            requires
                0 <= i < n,
        ;
        crate::wave::lemma_fraction_below(i * UNIT, n as int, UNIT as int);
    }
    ((i as i128) * (UNIT as i128) / (n as i128)) as i64
}

/// How far fixture `i` of `n` stands along its group when the group spreads
/// from end to end: `i / (n - 1)`, which is 0 for the first and 1 for the last.
pub open spec fn fr_spread_spec(i: usize, n: usize) -> i64 {
    ((i * UNIT) / (n - 1)) as i64
}

#[verifier::when_used_as_spec(fr_spread_spec)]
pub fn fr_spread(i: usize, n: usize) -> (r: i64)
    requires
        i < n,
        n > 1,
    ensures
        r == fr_spread_spec(i, n),
        0 <= r <= UNIT,
        i == 0 ==> r == 0,
        i == n - 1 ==> r == UNIT,
{
    proof {
        assert(0 <= i * UNIT && i * UNIT < (n - 1) * (UNIT + 1)) by (nonlinear_arith)
            requires
                0 <= i <= n - 1,
                n > 1,
        ;
        crate::wave::lemma_fraction_below(i * UNIT, n - 1, UNIT + 1);
        if i == n - 1 {
            vstd::arithmetic::div_mod::lemma_div_multiples_vanish(UNIT as int, n - 1);
        }
    }
    ((i as i128) * (UNIT as i128) / (n as i128 - 1)) as i64
}

/// Every fixture of the rig.
pub struct Lights {
    pub pars: [Par; 10],
    pub beams: [Beam; 4],
    pub bars: [Bar; 2],
    pub spiders: [Spider; 2],
    pub strobe: Strobe,
    pub laser: Laser,
}

/// Gives each item of `arr`, with its index and its cyclic fraction, to `f`,
/// and puts what `f` returns in its place.
fn for_each<T: Copy, const N: usize, F: Fn(T, usize, i64) -> T>(arr: &mut [T; N], f: F)
    requires
        forall|i: int|
            0 <= i < N ==> call_requires(
                f,
                (#[trigger] old(arr)@[i], i as usize, fr_cyclic_spec(i as usize, N)),
            ),
    ensures
        forall|i: int|
            0 <= i < N ==> call_ensures(
                f,
                (old(arr)@[i], i as usize, fr_cyclic_spec(i as usize, N)),
                #[trigger] final(arr)@[i],
            ),
{
    let mut i: usize = 0;
    while i < N
        invariant
            0 <= i <= N,
            forall|k: int|
                0 <= k < N ==> call_requires(
                    f,
                    (#[trigger] old(arr)@[k], k as usize, fr_cyclic_spec(k as usize, N)),
                ),
            forall|k: int| i <= k < N ==> #[trigger] arr@[k] == old(arr)@[k],
            forall|k: int|
                0 <= k < i ==> call_ensures(
                    f,
                    (old(arr)@[k], k as usize, fr_cyclic_spec(k as usize, N)),
                    #[trigger] arr@[k],
                ),
        decreases N - i,
    {
        let item = arr[i];
        let next = f(item, i, fr_cyclic(i, N));
        arr[i] = next;
        i = i + 1;
    }
}

impl Lights {
    /// A rig with every light dark and the laser off.
    pub fn new() -> (l: Self)
        ensures
            l.pars@ == Seq::new(10, |i: int| par_off()),
            l.beams@ == Seq::new(4, |i: int| beam_off()),
            l.bars@ == Seq::new(2, |i: int| bar_off()),
            l.spiders@ == Seq::new(2, |i: int| spider_off()),
            l.strobe == strobe_off(),
            l.laser == laser_off(),
    {
        let dark = Color { a: 0, r: 0, g: 0, b: 0, w: 0 };
        let l = Lights {
            pars: [Par { color: dark };10],
            beams: [Beam { color: dark, pitch: 0, yaw: 0 };4],
            bars: [Bar { color: dark };2],
            spiders: [Spider { color0: dark, color1: dark, pos0: 0, pos1: 0 };2],
            strobe: Strobe { color: dark },
            laser: Laser {
                on: false,
                pattern: LaserPattern::Raw(0),
                color: LaserColor::Raw(0),
                size: 0,
                x: 0,
                y: 0,
                rotate: 0,
                xflip: 0,
                yflip: 0,
            },
        };
        l
    }

    /// Darkens every light; the laser stays as it is.
    pub fn reset(&mut self)
        ensures
            final(self).pars@ == Seq::new(10, |i: int| par_off()),
            final(self).beams@ == Seq::new(4, |i: int| beam_off()),
            final(self).bars@ == Seq::new(2, |i: int| bar_off()),
            final(self).spiders@ == Seq::new(2, |i: int| spider_off()),
            final(self).strobe == strobe_off(),
            final(self).laser == old(self).laser,
    {
        let fresh = Lights::new();
        self.pars = fresh.pars;
        self.beams = fresh.beams;
        self.bars = fresh.bars;
        self.spiders = fresh.spiders;
        self.strobe = fresh.strobe;
    }

    /// Washes and strobe in `col0`; beams, spiders and bars in `col1`.
    /// Positions stay as they are.
    pub fn split(&mut self, col0: Color, col1: Color)
        ensures
            final(self).pars@ == Seq::new(10, |i: int| Par { color: col0 }),
            final(self).beams@ == Seq::new(
                4,
                |i: int| Beam { color: col1, ..old(self).beams@[i] },
            ),
            final(self).bars@ == Seq::new(2, |i: int| Bar { color: col1 }),
            final(self).spiders@ == Seq::new(
                2,
                |i: int| Spider { color0: col1, color1: col1, ..old(self).spiders@[i] },
            ),
            final(self).strobe == (Strobe { color: col0 }),
            final(self).laser == old(self).laser,
    {
        self.for_each_par(|par: Par, i: usize, fr: i64| -> (r: Par)
            ensures r == (Par { color: col0 })
            { Par { color: col0 } });
        self.for_each_beam(|beam: Beam, i: usize, fr: i64| -> (r: Beam)
            ensures r == (Beam { color: col1, ..beam })
            { Beam { color: col1, pitch: beam.pitch, yaw: beam.yaw } });
        self.for_each_spider(|spider: Spider, i: usize, fr: i64| -> (r: Spider)
            ensures r == (Spider { color0: col1, color1: col1, ..spider })
            { Spider { color0: col1, color1: col1, pos0: spider.pos0, pos1: spider.pos1 } });
        self.for_each_bar(|bar: Bar, i: usize, fr: i64| -> (r: Bar)
            ensures r == (Bar { color: col1 })
            { Bar { color: col1 } });
        self.strobe.color = col0;
    }

    /// Puts every colour of the rig through `f`; the laser stays as it is.
    pub fn map_colors<F: Fn(Color) -> Color>(&mut self, f: F)
        requires
            forall|c: Color| call_requires(f, (c,)),
        ensures
            forall|i: int|
                0 <= i < 10 ==> call_ensures(
                    f,
                    (old(self).pars@[i].color,),
                    (#[trigger] final(self).pars@[i]).color,
                ),
            forall|i: int|
                0 <= i < 4 ==> {
                    &&& call_ensures(
                        f,
                        (old(self).beams@[i].color,),
                        (#[trigger] final(self).beams@[i]).color,
                    )
                    &&& final(self).beams@[i].pitch == old(self).beams@[i].pitch
                    &&& final(self).beams@[i].yaw == old(self).beams@[i].yaw
                },
            forall|i: int|
                0 <= i < 2 ==> call_ensures(
                    f,
                    (old(self).bars@[i].color,),
                    (#[trigger] final(self).bars@[i]).color,
                ),
            forall|i: int|
                0 <= i < 2 ==> {
                    &&& call_ensures(
                        f,
                        (old(self).spiders@[i].color0,),
                        (#[trigger] final(self).spiders@[i]).color0,
                    )
                    &&& call_ensures(
                        f,
                        (old(self).spiders@[i].color1,),
                        final(self).spiders@[i].color1,
                    )
                    &&& final(self).spiders@[i].pos0 == old(self).spiders@[i].pos0
                    &&& final(self).spiders@[i].pos1 == old(self).spiders@[i].pos1
                },
            call_ensures(f, (old(self).strobe.color,), final(self).strobe.color),
            final(self).laser == old(self).laser,
    {
        let g = &f;
        self.for_each_par(|par: Par, i: usize, fr: i64| -> (r: Par)
            ensures call_ensures(*g, (par.color,), r.color)
            { Par { color: g(par.color) } });
        self.for_each_beam(|beam: Beam, i: usize, fr: i64| -> (r: Beam)
            ensures
                call_ensures(*g, (beam.color,), r.color),
                r.pitch == beam.pitch,
                r.yaw == beam.yaw,
            { Beam { color: g(beam.color), pitch: beam.pitch, yaw: beam.yaw } });
        self.for_each_spider(|spider: Spider, i: usize, fr: i64| -> (r: Spider)
            ensures
                call_ensures(*g, (spider.color0,), r.color0),
                call_ensures(*g, (spider.color1,), r.color1),
                r.pos0 == spider.pos0,
                r.pos1 == spider.pos1,
            {
                Spider {
                    color0: g(spider.color0),
                    color1: g(spider.color1),
                    pos0: spider.pos0,
                    pos1: spider.pos1,
                }
            });
        self.for_each_bar(|bar: Bar, i: usize, fr: i64| -> (r: Bar)
            ensures call_ensures(*g, (bar.color,), r.color)
            { Bar { color: g(bar.color) } });
        self.strobe.color = g(self.strobe.color);
    }

    /// Gives each wash, with its index and its fraction `i / 10`, to `f`, and
    /// puts what `f` returns in its place.
    pub fn for_each_par<F: Fn(Par, usize, i64) -> Par>(&mut self, f: F)
        requires
            forall|i: int|
                0 <= i < 10 ==> call_requires(
                    f,
                    (#[trigger] old(self).pars@[i], i as usize, fr_cyclic_spec(i as usize, 10)),
                ),
        ensures
            forall|i: int|
                0 <= i < 10 ==> call_ensures(
                    f,
                    (old(self).pars@[i], i as usize, fr_cyclic_spec(i as usize, 10)),
                    #[trigger] final(self).pars@[i],
                ),
            final(self).beams == old(self).beams,
            final(self).bars == old(self).bars,
            final(self).spiders == old(self).spiders,
            final(self).strobe == old(self).strobe,
            final(self).laser == old(self).laser,
    {
        for_each(&mut self.pars, f);
    }

    /// Gives each beam, with its index and its fraction `i / 4`, to `f`, and
    /// puts what `f` returns in its place.
    pub fn for_each_beam<F: Fn(Beam, usize, i64) -> Beam>(&mut self, f: F)
        requires
            forall|i: int|
                0 <= i < 4 ==> call_requires(
                    f,
                    (#[trigger] old(self).beams@[i], i as usize, fr_cyclic_spec(i as usize, 4)),
                ),
        ensures
            forall|i: int|
                0 <= i < 4 ==> call_ensures(
                    f,
                    (old(self).beams@[i], i as usize, fr_cyclic_spec(i as usize, 4)),
                    #[trigger] final(self).beams@[i],
                ),
            final(self).pars == old(self).pars,
            final(self).bars == old(self).bars,
            final(self).spiders == old(self).spiders,
            final(self).strobe == old(self).strobe,
            final(self).laser == old(self).laser,
    {
        for_each(&mut self.beams, f);
    }

    /// Gives each bar, with its index and its fraction `i / 2`, to `f`, and
    /// puts what `f` returns in its place.
    pub fn for_each_bar<F: Fn(Bar, usize, i64) -> Bar>(&mut self, f: F)
        requires
            forall|i: int|
                0 <= i < 2 ==> call_requires(
                    f,
                    (#[trigger] old(self).bars@[i], i as usize, fr_cyclic_spec(i as usize, 2)),
                ),
        ensures
            forall|i: int|
                0 <= i < 2 ==> call_ensures(
                    f,
                    (old(self).bars@[i], i as usize, fr_cyclic_spec(i as usize, 2)),
                    #[trigger] final(self).bars@[i],
                ),
            final(self).pars == old(self).pars,
            final(self).beams == old(self).beams,
            final(self).spiders == old(self).spiders,
            final(self).strobe == old(self).strobe,
            final(self).laser == old(self).laser,
    {
        for_each(&mut self.bars, f);
    }

    /// Gives each spider, with its index and its fraction `i / 2`, to `f`, and
    /// puts what `f` returns in its place.
    pub fn for_each_spider<F: Fn(Spider, usize, i64) -> Spider>(&mut self, f: F)
        requires
            forall|i: int|
                0 <= i < 2 ==> call_requires(
                    f,
                    (
                        #[trigger] old(self).spiders@[i],
                        i as usize,
                        fr_cyclic_spec(i as usize, 2),
                    ),
                ),
        ensures
            forall|i: int|
                0 <= i < 2 ==> call_ensures(
                    f,
                    (old(self).spiders@[i], i as usize, fr_cyclic_spec(i as usize, 2)),
                    #[trigger] final(self).spiders@[i],
                ),
            final(self).pars == old(self).pars,
            final(self).beams == old(self).beams,
            final(self).bars == old(self).bars,
            final(self).strobe == old(self).strobe,
            final(self).laser == old(self).laser,
    {
        for_each(&mut self.spiders, f);
    }
}

/// Bytes in the frame that goes out to the rig.
pub const FRAME_LEN: usize = 205;

/// The kinds of fixture in the rig, in the order of their places in the frame.
#[derive(Clone, Copy, Debug, PartialEq, Eq, Structural)]
pub enum Fixture {
    Par,
    Beam,
    Strobe,
    Bar,
    Laser,
    Spider,
}

impl Fixture {
    /// Where the channels of the first fixture of the kind start in the frame.
    pub open spec fn base_spec(self) -> usize {
        match self {
            Fixture::Par => 1,
            Fixture::Beam => 81,
            Fixture::Strobe => 142,
            Fixture::Bar => 149,
            Fixture::Laser => 164,
            Fixture::Spider => 175,
        }
    }

    #[verifier::when_used_as_spec(base_spec)]
    pub fn base(self) -> (r: usize)
        ensures
            r == self.base_spec(),
    {
        match self {
            Fixture::Par => 1,
            Fixture::Beam => 81,
            Fixture::Strobe => 142,
            Fixture::Bar => 149,
            Fixture::Laser => 164,
            Fixture::Spider => 175,
        }
    }

    /// How many bytes of the frame each fixture of the kind has.
    pub open spec fn width_spec(self) -> usize {
        match self {
            Fixture::Par => 8,
            Fixture::Beam => 15,
            Fixture::Strobe => 7,
            Fixture::Bar => 7,
            Fixture::Laser => 11,
            Fixture::Spider => 15,
        }
    }

    #[verifier::when_used_as_spec(width_spec)]
    pub fn width(self) -> (r: usize)
        ensures
            r == self.width_spec(),
    {
        match self {
            Fixture::Par => 8,
            Fixture::Beam => 15,
            Fixture::Strobe => 7,
            Fixture::Bar => 7,
            Fixture::Laser => 11,
            Fixture::Spider => 15,
        }
    }

    /// How many fixtures of the kind the rig has.
    pub open spec fn count_spec(self) -> usize {
        match self {
            Fixture::Par => 10,
            Fixture::Beam => 4,
            Fixture::Strobe => 1,
            Fixture::Bar => 2,
            Fixture::Laser => 1,
            Fixture::Spider => 2,
        }
    }

    #[verifier::when_used_as_spec(count_spec)]
    pub fn count(self) -> (r: usize)
        ensures
            r == self.count_spec(),
    {
        match self {
            Fixture::Par => 10,
            Fixture::Beam => 4,
            Fixture::Strobe => 1,
            Fixture::Bar => 2,
            Fixture::Laser => 1,
            Fixture::Spider => 2,
        }
    }

    /// Where the channels of fixture `i` of the kind start in the frame.
    pub open spec fn offset_spec(self, i: usize) -> usize {
        (self.base_spec() + self.width_spec() * i) as usize
    }

    #[verifier::when_used_as_spec(offset_spec)]
    pub fn offset(self, i: usize) -> (r: usize)
        requires
            i < self.count(),
        ensures
            r == self.offset_spec(i),
            1 <= r,
            r + self.width() <= FRAME_LEN,
    {
        self.base() + self.width() * i
    }
}

/// The fixture, by kind and place, that owns byte `j` of the frame; none for
/// a byte that belongs to no fixture.
pub open spec fn owner_spec(j: usize) -> Option<(Fixture, usize)> {
    if 1 <= j < 81 {
        Some((Fixture::Par, ((j - 1) / 8) as usize))
    } else if 81 <= j < 141 {
        Some((Fixture::Beam, ((j - 81) / 15) as usize))
    } else if 142 <= j < 149 {
        Some((Fixture::Strobe, 0))
    } else if 149 <= j < 163 {
        Some((Fixture::Bar, ((j - 149) / 7) as usize))
    } else if 164 <= j < 175 {
        Some((Fixture::Laser, 0))
    } else if 175 <= j < 205 {
        Some((Fixture::Spider, ((j - 175) / 15) as usize))
    } else {
        None
    }
}

#[verifier::when_used_as_spec(owner_spec)]
pub fn owner(j: usize) -> (r: Option<(Fixture, usize)>)
    ensures
        r == owner_spec(j),
        r matches Some(slot) ==> slot.1 < slot.0.count() && slot.0.offset_spec(slot.1) <= j
            < slot.0.offset_spec(slot.1) + slot.0.width(),
{
    if 1 <= j && j < 81 {
        Some((Fixture::Par, (j - 1) / 8))
    } else if 81 <= j && j < 141 {
        Some((Fixture::Beam, (j - 81) / 15))
    } else if 142 <= j && j < 149 {
        Some((Fixture::Strobe, 0))
    } else if 149 <= j && j < 163 {
        Some((Fixture::Bar, (j - 149) / 7))
    } else if 164 <= j && j < 175 {
        Some((Fixture::Laser, 0))
    } else if 175 <= j && j < 205 {
        Some((Fixture::Spider, (j - 175) / 15))
    } else {
        None
    }
}

/// A byte of the frame belongs to a fixture exactly if it lies in the
/// fixture's range of channels: so the ranges of two fixtures share no
/// byte, and all of them lie within the frame.
pub proof fn lemma_owner(kind: Fixture, i: usize, j: usize)
    requires
        i < kind.count(),
    ensures
        owner_spec(j) == Some((kind, i)) <==> kind.offset_spec(i) <= j < kind.offset_spec(i)
            + kind.width(),
        kind.offset_spec(i) + kind.width() <= FRAME_LEN,
{
    lemma_offset(kind, i);
}

/// Where the channels of each fixture start, kind by kind.
pub proof fn lemma_offset(kind: Fixture, i: usize)
    requires
        i < kind.count(),
    ensures
        kind.offset_spec(i) == (match kind {
            Fixture::Par => 1 + 8 * i,
            Fixture::Beam => 81 + 15 * i,
            Fixture::Strobe => 142,
            Fixture::Bar => 149 + 7 * i,
            Fixture::Laser => 164,
            Fixture::Spider => 175 + 15 * i,
        }),
{
    // One product per kind, each with the width written out.
    match kind {
        Fixture::Par => assert(kind.width_spec() * i == 8 * i),
        Fixture::Beam => assert(kind.width_spec() * i == 15 * i),
        Fixture::Strobe => assert(kind.width_spec() * i == 0),
        Fixture::Bar => assert(kind.width_spec() * i == 7 * i),
        Fixture::Laser => assert(kind.width_spec() * i == 0),
        Fixture::Spider => assert(kind.width_spec() * i == 15 * i),
    }
}

/// The ranges of two fixtures of the rig never overlap.
pub proof fn lemma_slots_apart(a: Fixture, i: usize, b: Fixture, j: usize)
    requires
        i < a.count(),
        j < b.count(),
        a != b || i != j,
    ensures
        a.offset_spec(i) + a.width() <= b.offset_spec(j) || b.offset_spec(j) + b.width()
            <= a.offset_spec(i),
{
    lemma_offset(a, i);
    lemma_offset(b, j);
}

/// In any group of fixtures laid out one after another, each `width` bytes
/// wide, from `base` on, the ranges of two fixtures never overlap.
pub proof fn lemma_group_apart(base: int, width: int, i: int, j: int)
    requires
        width >= 0,
        0 <= i < j,
    ensures
        base + width * i + width <= base + width * j,
{
    assert(width * i + width <= width * j) by (nonlinear_arith)
        requires
            width >= 0,
            i + 1 <= j,
    ;
}

/// The channel bytes of every fixture, as its encoder gives them.
pub struct Channels {
    pub pars: Vec<Vec<u8>>,
    pub beams: Vec<Vec<u8>>,
    pub bars: Vec<Vec<u8>>,
    pub spiders: Vec<Vec<u8>>,
    pub strobe: Vec<u8>,
    pub laser: Vec<u8>,
}

impl Channels {
    /// How many fixtures of the kind have channel bytes here.
    pub open spec fn len_spec(&self, kind: Fixture) -> usize {
        match kind {
            Fixture::Par => self.pars@.len() as usize,
            Fixture::Beam => self.beams@.len() as usize,
            Fixture::Strobe => 1,
            Fixture::Bar => self.bars@.len() as usize,
            Fixture::Laser => 1,
            Fixture::Spider => self.spiders@.len() as usize,
        }
    }

    /// The channel bytes of fixture `i` of the kind.
    pub open spec fn of_spec(&self, kind: Fixture, i: usize) -> Seq<u8> {
        match kind {
            Fixture::Par => self.pars@[i as int]@,
            Fixture::Beam => self.beams@[i as int]@,
            Fixture::Strobe => self.strobe@,
            Fixture::Bar => self.bars@[i as int]@,
            Fixture::Laser => self.laser@,
            Fixture::Spider => self.spiders@[i as int]@,
        }
    }

    /// The channel bytes of fixture `i` of the kind.
    pub fn of(&self, kind: Fixture, i: usize) -> (r: &Vec<u8>)
        requires
            i < self.len_spec(kind),
        ensures
            r@ == self.of_spec(kind, i),
    {
        match kind {
            Fixture::Par => &self.pars[i],
            Fixture::Beam => &self.beams[i],
            Fixture::Strobe => &self.strobe,
            Fixture::Bar => &self.bars[i],
            Fixture::Laser => &self.laser,
            Fixture::Spider => &self.spiders[i],
        }
    }

    /// Whether the fixtures of the kind are as many as the rig has, and the
    /// channels of each fit the fixture's range in the frame.
    pub open spec fn fits_spec(&self, kind: Fixture) -> bool {
        &&& self.len_spec(kind) == kind.count()
        &&& forall|i: int|
            0 <= i < kind.count() ==> (#[trigger] self.of_spec(kind, i as usize)).len()
                <= kind.width()
    }

    pub fn fits(&self, kind: Fixture) -> (r: bool)
        ensures
            r == self.fits_spec(kind),
    {
        let n = match kind {
            Fixture::Par => self.pars.len(),
            Fixture::Beam => self.beams.len(),
            Fixture::Strobe => 1,
            Fixture::Bar => self.bars.len(),
            Fixture::Laser => 1,
            Fixture::Spider => self.spiders.len(),
        };
        if n != kind.count() {
            return false;
        }
        let mut i: usize = 0;
        while i < n
            invariant
                0 <= i <= n,
                n == kind.count(),
                n == self.len_spec(kind),
                forall|k: int|
                    0 <= k < i ==> (#[trigger] self.of_spec(kind, k as usize)).len()
                        <= kind.width(),
            decreases n - i,
        {
            if self.of(kind, i).len() > kind.width() {
                assert(self.of_spec(kind, (i as int) as usize).len() > kind.width());
                return false;
            }
            i = i + 1;
        }
        true
    }

    /// Every kind of fixture fits: the frame can be made.
    pub open spec fn wf(&self) -> bool {
        &&& self.fits_spec(Fixture::Par)
        &&& self.fits_spec(Fixture::Beam)
        &&& self.fits_spec(Fixture::Strobe)
        &&& self.fits_spec(Fixture::Bar)
        &&& self.fits_spec(Fixture::Laser)
        &&& self.fits_spec(Fixture::Spider)
    }

    /// Byte `j` of the frame: the channel byte of the fixture that owns it,
    /// and 0 where no fixture owns it or the fixture has fewer channels.
    pub open spec fn frame_byte_spec(&self, j: usize) -> u8 {
        match owner_spec(j) {
            Some(slot) => {
                let channels = self.of_spec(slot.0, slot.1);
                let at = j - slot.0.offset_spec(slot.1);
                if at < channels.len() {
                    channels[at]
                } else {
                    0
                }
            },
            None => 0,
        }
    }

    pub fn frame_byte(&self, j: usize) -> (r: u8)
        requires
            self.wf(),
        ensures
            r == self.frame_byte_spec(j),
    {
        match owner(j) {
            Some(slot) => {
                let channels = self.of(slot.0, slot.1);
                let at = j - slot.0.offset(slot.1);
                if at < channels.len() {
                    channels[at]
                } else {
                    0
                }
            },
            None => 0,
        }
    }
}

/// Each byte of the frame that lies within a fixture's channel bytes is that
/// channel byte, and each byte that lies within no fixture's channel bytes is 0.
pub proof fn lemma_frame_bytes(channels: &Channels, j: usize)
    requires
        channels.wf(),
        j < FRAME_LEN,
    ensures
        forall|kind: Fixture, i: usize|
            i < kind.count() && kind.offset_spec(i) <= j < kind.offset_spec(i) + (
            #[trigger] channels.of_spec(kind, i)).len() ==> channels.frame_byte_spec(j)
                == channels.of_spec(kind, i)[j - kind.offset_spec(i)],
        (forall|kind: Fixture, i: usize|
            i < kind.count() ==> !(kind.offset_spec(i) <= j < kind.offset_spec(i) + (
            #[trigger] channels.of_spec(kind, i)).len())) ==> channels.frame_byte_spec(j) == 0,
{
    assert forall|kind: Fixture, i: usize|
        i < kind.count() && kind.offset_spec(i) <= j < kind.offset_spec(i) + (
        #[trigger] channels.of_spec(kind, i)).len() implies channels.frame_byte_spec(j)
        == channels.of_spec(kind, i)[j - kind.offset_spec(i)] by {
        assert(channels.of_spec(kind, (i as int) as usize).len() <= kind.width());
        lemma_owner(kind, i, j);
    }
    match owner_spec(j) {
        Some(slot) => {
            lemma_owner(slot.0, slot.1, j);
        },
        None => {},
    }
}

/// The frame that goes out to the rig: every fixture's channel bytes at the
/// fixture's place, and 0 everywhere else. There is a frame exactly if the
/// channels are those of the rig's fixtures and fit their places.
pub fn assemble(channels: &Channels) -> (r: Option<[u8; 205]>)
    ensures
        r is Some <==> channels.wf(),
        r matches Some(frame) ==> forall|j: int|
            0 <= j < 205 ==> #[trigger] frame@[j] == channels.frame_byte_spec(j as usize),
{
    if !(channels.fits(Fixture::Par) && channels.fits(Fixture::Beam) && channels.fits(
        Fixture::Strobe,
    ) && channels.fits(Fixture::Bar) && channels.fits(Fixture::Laser) && channels.fits(
        Fixture::Spider,
    )) {
        return None;
    }
    let mut frame = [0u8;205];
    let mut j: usize = 0;
    while j < 205
        invariant
            0 <= j <= 205,
            channels.wf(),
            forall|k: int|
                0 <= k < j ==> #[trigger] frame@[k] == channels.frame_byte_spec(k as usize),
        decreases 205 - j,
    {
        frame[j] = channels.frame_byte(j);
        j = j + 1;
    }
    Some(frame)
}

} // verus!
