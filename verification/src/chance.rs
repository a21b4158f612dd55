//! Where the direction of the `?` opcode comes from.
//!
//! The machine asks a `DirectionSource` for it, so that a run can be made
//! repeatable by handing it a source that is no matter of chance.

use vstd::prelude::*;
use rand::Rng;
use crate::address::Delta;

verus! {

/// A supply of directions.
pub trait DirectionSource {
    /// The next direction.
    fn next_direction(&mut self) -> Delta;
}

/// Draws a number with `rand::Rng::gen_range` on the generator that
/// `rand::thread_rng` returns.
///
/// Not proved: that the number lies in `low .. high`, the upper bound left
/// out, which is what `gen_range` documents for integers. `gen_range` panics
/// where `low >= high`, so callers have to show `low < high`. The generator
/// itself panics where the system offers no entropy at all.
#[verifier::external_body]
fn random_between(low: u32, high: u32) -> (n: u32)
    requires
        low < high,
    ensures
        low <= n < high,
{
    rand::thread_rng().gen_range(low, high)
}

/// The source that draws each direction at random, each of the four being
/// as likely as the others.
pub struct Entropy;

impl DirectionSource for Entropy {
    fn next_direction(&mut self) -> Delta {
        Delta::from_index(random_between(0, 4))
    }
}

/// A source that hands out a given list of directions in order, again and
/// again; with an empty list it hands out east.
pub struct Script {
    directions: Vec<Delta>,
    at: usize,
}

impl Script {
    /// The directions that the source goes through.
    pub closed spec fn directions(&self) -> Seq<Delta> {
        self.directions@
    }

    /// Place in the list of the direction that comes next.
    pub closed spec fn position(&self) -> int {
        self.at as int
    }

    /// The direction that comes next.
    pub open spec fn upcoming(&self) -> Delta {
        if self.directions().len() == 0 {
            Delta::E
        } else {
            self.directions()[self.position() % (self.directions().len() as int)]
        }
    }

    /// A source that goes through `directions`, starting with the first.
    pub fn new(directions: Vec<Delta>) -> (s: Script)
        ensures
            s.directions() == directions@,
            s.position() == 0,
    {
        Script { directions, at: 0 }
    }
}

impl DirectionSource for Script {
    /// Hands out the next direction of the list.
    fn next_direction(&mut self) -> (d: Delta)
        ensures
            d == old(self).upcoming(),
            final(self).directions() == old(self).directions(),
            final(self).position() == (if old(self).directions().len() == 0 {
                old(self).position()
            } else {
                old(self).position() % (old(self).directions().len() as int) + 1
            }),
    {
        let n: usize = self.directions.len();
        if n == 0 {
            return Delta::E;
        }
        let i: usize = self.at % n;
        let d: Delta = self.directions[i];
        self.at = i + 1;
        d
    }
}

} // verus!
