//! The calls this crate makes into other crates, each behind a contract that
//! is taken on trust from that crate's source.

use crate::state::Mode;
use itertools::Itertools;
use rand::distributions::Uniform;
use rand::rngs::StdRng;
use rand::seq::SliceRandom;
use rand::{Rng, SeedableRng};
use vstd::prelude::*;

verus! {

/// The two numbers that `seeded_pair` draws for a seed and the two ends of a range.
pub uninterp spec fn seeded_pair_of(seed: Seq<u8>, from: int, below: int) -> (int, int);

/// `Itertools::tuple_windows` at width two over a copy of `v`: every pair of
/// neighbours `(v[i], v[i + 1])`, in the order of `v`. A sequence of fewer
/// than two items has no such pair.
#[verifier::external_body]
pub(crate) fn neighbours(v: &Vec<i64>) -> (r: Vec<(i64, i64)>)
    ensures
        r@.len() == (if v@.len() == 0 {
            0
        } else {
            v@.len() - 1
        }),
        forall|i: int| 0 <= i < r@.len() ==> r@[i] == (v@[i], v@[i + 1]),
{
    v.iter().copied().tuple_windows().collect()
}

/// Two draws, one after the other, by `Rng::sample` from
/// `Uniform::new(from, below)` with a generator made by `StdRng::from_seed`.
/// The generator is made anew from `seed` at each call, so the pair depends
/// on the seed and the range alone, for the version of the crate that this
/// one is locked to; each draw is at least `from` and less than `below`.
/// `Uniform::new` panics on an empty range.
#[verifier::external_body]
pub(crate) fn seeded_pair(seed: [u8; 32], from: i64, below: i64) -> (r: (i64, i64))
    requires
        from < below,
    ensures
        (r.0 as int, r.1 as int) == seeded_pair_of(seed@, from as int, below as int),
        from <= r.0 < below,
        from <= r.1 < below,
{
    let mut rng = StdRng::from_seed(seed);
    let first: i64 = rng.sample(Uniform::new(from, below));
    let second: i64 = rng.sample(Uniform::new(from, below));
    (first, second)
}

/// `SliceRandom::choose` with the thread's generator: one of the modes in
/// `modes`, whichever the generator picks, and none where `modes` is empty.
#[verifier::external_body]
pub(crate) fn pick_mode(modes: &Vec<Mode>) -> (r: Option<Mode>)
    ensures
        modes@.len() == 0 <==> r is None,
        r matches Some(mode) ==> modes@.contains(mode),
{
    modes.choose(&mut rand::thread_rng()).copied()
}

} // verus!
