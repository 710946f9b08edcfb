//! Musical periods and held values.

use crate::num::UNIT;
use crate::state::{State, BPM_MAX, BPM_MIN};
use crate::wave::{invert, invert_spec, lerp, lerp_spec, Range};
use vstd::prelude::*;

verus! {

/// Largest numerator or denominator of a period that the clock takes: 2^20.
pub const PD_LIMIT: usize = 0x10_0000;

/// A musical duration as a fraction of one beat: `Pd(n, d)` lasts `n / d` beats.
#[derive(Clone, Copy, Debug, PartialEq, Eq, Structural)]
pub struct Pd(pub usize, pub usize);

impl Pd {
    /// Neither part is zero: the period has a length.
    pub open spec fn nonzero(&self) -> bool {
        self.0 > 0 && self.1 > 0
    }

    /// Neither part is zero, and both stay within `limit`.
    pub open spec fn within(&self, limit: usize) -> bool {
        &&& 0 < self.0 <= limit
        &&& 0 < self.1 <= limit
    }

    /// Neither part is zero, and both stay within `PD_LIMIT`.
    pub open spec fn wf(&self) -> bool {
        self.within(PD_LIMIT)
    }

    /// The duration in beats, in fixed point, rounded down.
    pub open spec fn fr_spec(&self) -> i64 {
        ((self.0 * UNIT) / (self.1 as int)) as i64
    }

    /// The duration in beats, in fixed point, rounded down.
    #[verifier::when_used_as_spec(fr_spec)]
    pub fn fr(&self) -> (r: i64)
        requires
            self.wf(),
        ensures
            r == self.fr_spec(),
            0 <= r <= PD_LIMIT * UNIT,
    {
        let n: i128 = self.0 as i128;
        let d: i128 = self.1 as i128;
        proof {
            crate::wave::lemma_fraction_below(n as int * UNIT, d as int, PD_LIMIT * UNIT + 1);
            assert(n as int * UNIT < d as int * (PD_LIMIT * UNIT + 1)) by (nonlinear_arith)
                requires
                    0 < n <= PD_LIMIT,
                    0 < d,
            ;
        }
        (n * (UNIT as i128) / d) as i64
    }

    pub open spec fn mul_spec(&self, mul: usize) -> Pd {
        Pd((self.0 * mul) as usize, self.1)
    }

    /// The period `mul` times as long.
    #[verifier::when_used_as_spec(mul_spec)]
    pub fn mul(&self, mul: usize) -> (r: Self)
        requires
            self.0 * mul <= usize::MAX,
        ensures
            r == self.mul_spec(mul),
    {
        Pd(self.0 * mul, self.1)
    }

    pub open spec fn div_spec(&self, div: usize) -> Pd {
        Pd(self.0, (self.1 * div) as usize)
    }

    /// The period divided into `div` parts.
    #[verifier::when_used_as_spec(div_spec)]
    pub fn div(&self, div: usize) -> (r: Self)
        requires
            self.1 * div <= usize::MAX,
        ensures
            r == self.div_spec(div),
    {
        Pd(self.0, self.1 * div)
    }
}

impl Default for Pd {
    /// One beat.
    fn default() -> (r: Self)
        ensures
            r == Pd(1, 1),
    {
        Pd(1, 1)
    }
}

/// A value that lasts while a pad button is held down.
#[derive(Debug)]
pub enum Holdable<T> {
    /// Nothing is held.
    Off,
    /// The button at `(x, y)` holds `val`.
    Held { x: i8, y: i8, val: T },
}

impl<T> Holdable<T> {
    /// What `hold` leaves behind: a press takes over, whatever was held; a
    /// release lets go only if it is of the button that holds; and with
    /// nothing held, press and release alike take hold.
    pub open spec fn hold_spec(self, x: i8, y: i8, b: bool, val: T) -> Self {
        match self {
            Holdable::Off => Holdable::Held { x, y, val },
            Holdable::Held { x: x0, y: y0, val: v0 } => {
                if b {
                    Holdable::Held { x, y, val }
                } else if x == x0 && y == y0 {
                    Holdable::Off
                } else {
                    Holdable::Held { x: x0, y: y0, val: v0 }
                }
            },
        }
    }

    /// Takes the press (`b`) or release (`!b`) of the button at `(x, y)`.
    pub fn hold(&mut self, x: i8, y: i8, b: bool, val: T)
        ensures
            *final(self) == old(self).hold_spec(x, y, b, val),
    {
        let release = match self {
            Holdable::Off => false,
            Holdable::Held { x: x0, y: y0, .. } => !b && x == *x0 && y == *y0,
        };
        let keep = match self {
            Holdable::Off => false,
            Holdable::Held { .. } => !b && !release,
        };
        if release {
            *self = Holdable::Off;
        } else if !keep {
            *self = Holdable::Held { x, y, val };
        }
    }

    /// The held value, or `fallback` where nothing is held.
    pub fn or(&self, fallback: &T) -> (r: T) where T: Clone
        ensures
            match *self {
                Holdable::Off => cloned(*fallback, r),
                Holdable::Held { val, .. } => cloned(val, r),
            },
    {
        match self {
            Holdable::Off => fallback.clone(),
            Holdable::Held { val, .. } => val.clone(),
        }
    }
}

impl<T> Default for Holdable<T> {
    fn default() -> (r: Self)
        ensures
            r == Holdable::<T>::Off,
    {
        Holdable::Off
    }
}

/// The brightness of a flash that is fired by hand.
#[derive(Clone, Copy, Debug, PartialEq, Eq, Structural)]
pub enum Beat {
    /// No flash: the brightness is whatever it would be without.
    Off,
    /// A flash fired at time `t` that lasts `pd` and runs over the range `r`.
    On { t: i64, pd: Pd, r: Range },
    /// A fixed brightness.
    Fr(i64),
}

impl Beat {
    /// A flash fired now.
    pub fn at(s: &State, pd: Pd, r: Range) -> (b: Self)
        ensures
            b == (Beat::On { t: s.t, pd, r }),
    {
        Beat::On { t: s.t, pd, r }
    }

    /// The brightness at the state's time: `fallback` without a flash; for a
    /// flash, the point of its range that is as far from the far end as the
    /// flash has run, and the near end once it is over.
    pub open spec fn or_spec(&self, s: &State, fallback: i64) -> i64 {
        match *self {
            Beat::Off => fallback,
            Beat::On { t, pd, r } => match s.since_spec(t, pd) {
                None => r.lo,
                Some(f) => lerp_spec(invert_spec(f), r),
            },
            Beat::Fr(fr) => fr,
        }
    }

    #[verifier::when_used_as_spec(or_spec)]
    pub fn or(&self, s: &State, fallback: i64) -> (r: i64)
        requires
            BPM_MIN <= s.bpm <= BPM_MAX,
            self matches Beat::On { pd, .. } ==> pd.wf(),
        ensures
            r == self.or_spec(s, fallback),
    {
        match *self {
            Beat::Off => fallback,
            Beat::On { t, pd, r } => match s.since(t, pd) {
                None => r.lo,
                Some(f) => lerp(invert(f), r),
            },
            Beat::Fr(fr) => fr,
        }
    }
}

impl Default for Beat {
    fn default() -> (r: Self)
        ensures
            r == Beat::Off,
    {
        Beat::Off
    }
}

} // verus!
