//! Distributions: how many samples were observed, and what they add up to.

use crate::counter::{lemma_wrapped_sum, total, wrapped, Counter, Tally};
use vstd::prelude::*;

verus! {

/// The mathematical value of a distribution.
pub struct Spread {
    /// How many samples were observed.
    pub samples: Tally,
    /// The sum of the observed sizes.
    pub sum: Tally,
}

impl Spread {
    /// A distribution in which nothing was observed.
    pub open spec fn zero() -> Spread {
        Spread { samples: Tally::zero(), sum: Tally::zero() }
    }

    /// The distribution after one more sample of `size`.
    pub open spec fn observed(self, size: u64) -> Spread {
        Spread { samples: self.samples.plus(1), sum: self.sum.plus(size) }
    }

    /// The distribution after the samples `sizes`, in that order.
    pub open spec fn observed_all(self, sizes: Seq<u64>) -> Spread
        decreases sizes.len(),
    {
        if sizes.len() == 0 {
            self
        } else {
            self.observed_all(sizes.drop_last()).observed(sizes.last())
        }
    }

    /// The distribution after a reset.
    pub open spec fn cleared(self) -> Spread {
        Spread { samples: self.samples.cleared(), sum: self.sum.cleared() }
    }
}

/// A distribution of observed sizes.
#[derive(Debug)]
pub struct Distribution {
    samples: Counter,
    sum: Counter,
}

impl View for Distribution {
    type V = Spread;

    closed spec fn view(&self) -> Spread {
        Spread { samples: self.samples@, sum: self.sum@ }
    }
}

impl Distribution {
    /// A distribution in which nothing was observed.
    pub fn new() -> (distribution: Distribution)
        ensures
            distribution@ == Spread::zero(),
    {
        Distribution { samples: Counter::new(), sum: Counter::new() }
    }

    /// Takes in one sample of `size`.
    pub fn observe(&mut self, size: u64)
        ensures
            final(self)@ == old(self)@.observed(size),
    {
        self.samples.increment();
        self.sum.increment_by(size);
    }

    /// The number of samples since the last reset.
    pub fn count(&self) -> (value: u64)
        ensures
            value == self@.samples.current,
    {
        self.samples.read()
    }

    /// The sum of the sizes observed since the last reset.
    pub fn sum(&self) -> (value: u64)
        ensures
            value == self@.sum.current,
    {
        self.sum.read()
    }

    /// The number of samples since the distribution was made.
    pub fn lifetime_count(&self) -> (value: u64)
        ensures
            value == self@.samples.lifetime,
    {
        self.samples.read_lifetime()
    }

    /// The sum of the sizes observed since the distribution was made.
    pub fn lifetime_sum(&self) -> (value: u64)
        ensures
            value == self@.sum.lifetime,
    {
        self.sum.read_lifetime()
    }

    /// Starts a new period: count and sum since the last reset go back to
    /// zero.
    pub fn reset(&mut self)
        ensures
            final(self)@ == old(self)@.cleared(),
    {
        self.samples.reset();
        self.sum.reset();
    }
}

impl Default for Distribution {
    fn default() -> (distribution: Distribution)
        ensures
            distribution@ == Spread::zero(),
    {
        Distribution::new()
    }
}

/// A distribution counts its samples and adds up their sizes: after the
/// samples `sizes` its count has grown by their number and its sum by their
/// total, both modulo 2^64. A distribution that was just reset therefore
/// shows exactly the number of samples and their total, as long as the total
/// fits in 64 bits.
pub proof fn lemma_samples_are_totalled(start: Spread, sizes: Seq<u64>)
    ensures
        start.observed_all(sizes).samples.current == wrapped(
            start.samples.current + sizes.len(),
        ),
        start.observed_all(sizes).sum.current == wrapped(start.sum.current + total(sizes)),
        start.observed_all(sizes).samples.lifetime == wrapped(
            start.samples.lifetime + sizes.len(),
        ),
        start.observed_all(sizes).sum.lifetime == wrapped(start.sum.lifetime + total(sizes)),
        0 <= total(sizes),
        start.samples.current == 0 && start.sum.current == 0 && sizes.len() <= u64::MAX && total(
            sizes,
        ) <= u64::MAX ==> start.observed_all(sizes).samples.current == sizes.len()
            && start.observed_all(sizes).sum.current == total(sizes),
    decreases sizes.len(),
{
    if sizes.len() > 0 {
        let front = sizes.drop_last();
        lemma_samples_are_totalled(start, front);
        lemma_wrapped_sum(start.samples.current + front.len(), 1);
        lemma_wrapped_sum(start.sum.current + total(front), sizes.last() as int);
        lemma_wrapped_sum(start.samples.lifetime + front.len(), 1);
        lemma_wrapped_sum(start.sum.lifetime + total(front), sizes.last() as int);
    }
}

} // verus!
