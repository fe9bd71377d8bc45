//! The candidate status texts and the choice among them.

use crate::presence::PresenceValue;
use rand::Rng;
use vstd::prelude::*;

verus! {

/// `rand::thread_rng` followed by `Rng::gen_range` over `0..bound`: a number
/// drawn by the thread's generator. The contract claims only what holds of
/// every draw, that it lies below `bound`. `gen_range` panics on an empty
/// range, so `bound` must be positive.
#[verifier::external_body]
fn random_below(bound: usize) -> (index: usize)
    requires
        bound > 0,
    ensures
        index < bound,
{
    rand::thread_rng().gen_range(0..bound)
}

/// The texts of `values`, in order.
pub open spec fn texts_of(values: Seq<PresenceValue>) -> Seq<Seq<char>> {
    values.map_values(|value: PresenceValue| value@)
}

/// An ordered, non-empty list of candidate status texts together with the
/// pause between two rotations.
#[derive(Debug)]
pub struct Rotation {
    candidates: Vec<PresenceValue>,
    interval_secs: u64,
}

impl Rotation {
    #[verifier::type_invariant]
    spec fn well_formed(self) -> bool {
        self.candidates@.len() > 0
    }

    /// The candidate texts, in the order in which they were given.
    pub closed spec fn candidates(&self) -> Seq<Seq<char>> {
        texts_of(self.candidates@)
    }

    /// The pause between two rotations, in seconds.
    pub closed spec fn interval(&self) -> u64 {
        self.interval_secs
    }

    /// Builds a rotation. There must be something to rotate through: an empty
    /// list gives `None`, every other list gives a rotation over exactly that
    /// list.
    pub fn new(candidates: Vec<PresenceValue>, interval_secs: u64) -> (rotation: Option<Self>)
        ensures
            rotation is Some <==> candidates@.len() > 0,
            rotation matches Some(r) ==> r.candidates() == texts_of(candidates@) && r.interval()
                == interval_secs,
    {
        if candidates.len() == 0 {
            None
        } else {
            Some(Rotation { candidates, interval_secs })
        }
    }

    /// How many candidates there are; never zero.
    pub fn len(&self) -> (count: usize)
        ensures
            count == self.candidates().len(),
            count > 0,
    {
        proof {
            use_type_invariant(self);
        }
        self.candidates.len()
    }

    /// The pause between two rotations, in seconds.
    pub fn interval_secs(&self) -> (secs: u64)
        ensures
            secs == self.interval(),
    {
        self.interval_secs
    }

    /// The candidate at `index`. Every position has its own answer, so an
    /// index drawn evenly from `0..len()` selects each candidate position
    /// equally often.
    pub fn select(&self, index: usize) -> (value: PresenceValue)
        requires
            index < self.candidates().len(),
        ensures
            value@ == self.candidates()[index as int],
    {
        self.candidates[index].clone()
    }

    /// A position drawn at random, each draw independent of the ones before.
    /// Whatever the draw, it is the position of a candidate.
    pub fn draw(&self) -> (index: usize)
        ensures
            index < self.candidates().len(),
    {
        random_below(self.len())
    }

    /// A candidate chosen at random, each draw independent of the ones
    /// before. Whatever the draw, the result is one of the candidates.
    pub fn pick(&self) -> (value: PresenceValue)
        ensures
            exists|index: int|
                0 <= index < self.candidates().len() && value@ == #[trigger] self.candidates()[index],
    {
        let index: usize = self.draw();
        self.select(index)
    }
}

} // verus!
