//! A seeded source of uniform integers.
//!
//! The generator is `rand`'s standard generator, seeded from a `u64`. It is
//! a deterministic machine: what it hands out is fixed by the seed and by
//! the requests served so far. The contracts speak of a value as a function
//! of exactly those, which makes every run that draws from a generator
//! reproducible from its seed.
//!
//! Nothing here says how the values are distributed; that they are uniform
//! is `rand`'s promise, not a proved one.

use rand::rngs::StdRng;
use rand::Rng;
use rand::SeedableRng;
use vstd::prelude::*;

verus! {

/// `rand`'s standard generator, carried as an opaque value.
#[verifier::external_type_specification]
#[verifier::external_body]
pub struct ExStdRng(rand::rngs::StdRng);

/// The value that `Rng::gen_range` returns for the inclusive range
/// `low..=high` on a `StdRng` that was made by `seed_from_u64(seed)` and has
/// since served the inclusive ranges in `served`, in that order, and nothing
/// else.
///
/// This is a function of its arguments for the versions of `rand` that this
/// crate is built with. `rand` calls the algorithm of `StdRng` deterministic
/// but does not promise the same values under another configuration or in a
/// later version, so nothing here carries over to another build.
pub uninterp spec fn seeded_value(seed: u64, served: Seq<(i64, i64)>, low: i64, high: i64) -> i64;

/// The mathematical state of a [`Generator`]: its seed and the inclusive
/// ranges it has served, oldest first.
pub struct Stream {
    pub seed: u64,
    pub served: Seq<(i64, i64)>,
}

impl Stream {
    /// The stream of a generator that has served nothing yet.
    pub open spec fn start(seed: u64) -> Stream {
        Stream { seed, served: Seq::empty() }
    }

    /// The value the next request for `low..=high` returns.
    pub open spec fn value(self, low: i64, high: i64) -> i64 {
        seeded_value(self.seed, self.served, low, high)
    }

    /// The stream after a request for `low..=high` was served.
    pub open spec fn after(self, low: i64, high: i64) -> Stream {
        Stream { served: self.served.push((low, high)), ..self }
    }

    /// The value the next request for the half-open range `-reach..reach`
    /// returns.
    pub open spec fn value_around(self, reach: int) -> i64 {
        self.value((-reach) as i64, (reach - 1) as i64)
    }

    /// The stream after a request for `-reach..reach` was served.
    pub open spec fn after_around(self, reach: int) -> Stream {
        self.after((-reach) as i64, (reach - 1) as i64)
    }
}

/// A seeded generator of uniform integers.
///
/// Beside the standard generator it holds, as a ghost, the stream it is in:
/// the seed it was made from and the ranges it has served. Only the two
/// functions that call `rand` set that ghost, so it always tells what the
/// standard generator has been through. It is not told by the standard
/// generator's own state, which forgets where each served range began.
pub struct Generator {
    stream: Ghost<Stream>,
    rng: StdRng,
}

impl View for Generator {
    type V = Stream;

    closed spec fn view(&self) -> Stream {
        self.stream@
    }
}

/// Calls `StdRng::seed_from_u64`.
///
/// Claimed, not proved: the generator starts the stream of `seed`, having
/// served nothing yet.
#[verifier::external_body]
fn seeded(seed: u64) -> (generator: Generator)
    ensures
        generator@ == Stream::start(seed),
{
    Generator { stream: Ghost(Stream::start(seed)), rng: StdRng::seed_from_u64(seed) }
}

impl Generator {
    /// A generator that starts the stream of `seed`.
    pub fn from_seed(seed: u64) -> (generator: Generator)
        ensures
            generator@ == Stream::start(seed),
    {
        seeded(seed)
    }

    /// Calls `Rng::gen_range` with the inclusive range `low..=high`.
    ///
    /// Claimed, not proved: the value lies in the range; it is the one that
    /// the seed and the ranges served before determine; and the request
    /// joins the served ranges. `gen_range` panics on an empty range, which
    /// `requires` rules out.
    #[verifier::external_body]
    pub(crate) fn draw_in_range(&mut self, low: i64, high: i64) -> (value: i64)
        requires
            low <= high,
        ensures
            low <= value <= high,
            value == seeded_value(old(self)@.seed, old(self)@.served, low, high),
            final(self)@ == old(self)@.after(low, high),
    {
        self.rng.gen_range(low..=high)
    }

    /// A uniform integer in `low..=high`, or `None` when `low > high`, in
    /// which case the stream does not move.
    pub fn sample(&mut self, low: i64, high: i64) -> (value: Option<i64>)
        ensures
            low > high ==> value.is_none() && final(self)@ == old(self)@,
            low <= high ==> value == Some(old(self)@.value(low, high)) && final(self)@ == old(
                self,
            )@.after(low, high),
            value matches Some(v) ==> low <= v <= high,
    {
        if low > high {
            None
        } else {
            Some(self.draw_in_range(low, high))
        }
    }
}

} // verus!
