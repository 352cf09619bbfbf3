//! A counter partitioned by a fixed set of labels.
//!
//! The labels are the variants of `Action`, so that an undefined label cannot
//! be written down. Each label has a counter of its own; the aggregate of the
//! counter is the sum over its labels.

use crate::counter::{lemma_wrapped_sum, wrapped, Counter, Tally};
use vstd::prelude::*;

verus! {

/// What happened to a file: the labels of a `LabeledCounter`.
#[derive(Clone, Copy, Debug, PartialEq, Eq, Structural)]
pub enum Action {
    Create,
    Write,
    Delete,
}

impl Action {
    /// The label as text.
    pub open spec fn label(self) -> Seq<char> {
        match self {
            Action::Create => "create"@,
            Action::Write => "write"@,
            Action::Delete => "delete"@,
        }
    }

    /// The label as text, as a scrape shows it.
    pub fn name(self) -> (name: &'static str)
        ensures
            name@ == self.label(),
    {
        match self {
            Action::Create => "create",
            Action::Write => "write",
            Action::Delete => "delete",
        }
    }
}

/// The mathematical value of a labeled counter: one tally per label.
pub struct Labeled {
    pub create: Tally,
    pub write: Tally,
    pub delete: Tally,
}

impl Labeled {
    /// A labeled counter to which nothing has been added.
    pub open spec fn zero() -> Labeled {
        Labeled { create: Tally::zero(), write: Tally::zero(), delete: Tally::zero() }
    }

    /// The tally of `label`.
    pub open spec fn of(self, label: Action) -> Tally {
        match label {
            Action::Create => self.create,
            Action::Write => self.write,
            Action::Delete => self.delete,
        }
    }

    /// The same counter with `tally` for `label`.
    pub open spec fn with(self, label: Action, tally: Tally) -> Labeled {
        match label {
            Action::Create => Labeled { create: tally, ..self },
            Action::Write => Labeled { write: tally, ..self },
            Action::Delete => Labeled { delete: tally, ..self },
        }
    }

    /// The counter after `amount` more events under `label`.
    pub open spec fn plus(self, label: Action, amount: u64) -> Labeled {
        self.with(label, self.of(label).plus(amount))
    }

    /// The counter after `times` single increments of `label`.
    pub open spec fn incremented(self, label: Action, times: nat) -> Labeled
        decreases times,
    {
        if times == 0 {
            self
        } else {
            self.incremented(label, (times - 1) as nat).plus(label, 1)
        }
    }

    /// The counter after a reset.
    pub open spec fn cleared(self) -> Labeled {
        Labeled {
            create: self.create.cleared(),
            write: self.write.cleared(),
            delete: self.delete.cleared(),
        }
    }

    /// The sum over all labels of the events since the last reset, as an
    /// unbounded integer.
    pub open spec fn sum(self) -> int {
        self.create.current + self.write.current + self.delete.current
    }

    /// What an aggregate read returns: the sum over all labels, modulo 2^64.
    pub open spec fn aggregate(self) -> u64 {
        wrapped(self.sum())
    }

    /// The sum over all labels of the events since the counter was made,
    /// modulo 2^64.
    pub open spec fn lifetime_aggregate(self) -> u64 {
        wrapped(self.create.lifetime + self.write.lifetime + self.delete.lifetime)
    }
}

/// A counter with one cell per `Action`.
#[derive(Debug)]
pub struct LabeledCounter {
    create: Counter,
    write: Counter,
    delete: Counter,
}

impl View for LabeledCounter {
    type V = Labeled;

    closed spec fn view(&self) -> Labeled {
        Labeled { create: self.create@, write: self.write@, delete: self.delete@ }
    }
}

impl LabeledCounter {
    /// A labeled counter at zero for every label.
    pub fn new() -> (counter: LabeledCounter)
        ensures
            counter@ == Labeled::zero(),
    {
        LabeledCounter { create: Counter::new(), write: Counter::new(), delete: Counter::new() }
    }

    /// Counts one event under `label`. The other labels keep their counts.
    pub fn increment(&mut self, label: Action)
        ensures
            final(self)@ == old(self)@.plus(label, 1),
    {
        self.increment_by(label, 1);
    }

    /// Counts `amount` events under `label`. The other labels keep their
    /// counts.
    pub fn increment_by(&mut self, label: Action, amount: u64)
        ensures
            final(self)@ == old(self)@.plus(label, amount),
    {
        match label {
            Action::Create => self.create.increment_by(amount),
            Action::Write => self.write.increment_by(amount),
            Action::Delete => self.delete.increment_by(amount),
        }
    }

    /// The number of events under `label` since the last reset.
    pub fn read(&self, label: Action) -> (value: u64)
        ensures
            value == self@.of(label).current,
    {
        match label {
            Action::Create => self.create.read(),
            Action::Write => self.write.read(),
            Action::Delete => self.delete.read(),
        }
    }

    /// The number of events under `label` since the counter was made.
    pub fn read_lifetime(&self, label: Action) -> (value: u64)
        ensures
            value == self@.of(label).lifetime,
    {
        match label {
            Action::Create => self.create.read_lifetime(),
            Action::Write => self.write.read_lifetime(),
            Action::Delete => self.delete.read_lifetime(),
        }
    }

    /// The aggregate: the sum over all labels of the events since the last
    /// reset, modulo 2^64. Each label is read on its own, one after the
    /// other.
    pub fn read_all(&self) -> (value: u64)
        ensures
            value == self@.aggregate(),
    {
        let create: u64 = self.create.read();
        let write: u64 = self.write.read();
        let delete: u64 = self.delete.read();
        proof {
            lemma_wrapped_sum(create + write, delete as int);
        }
        create.wrapping_add(write).wrapping_add(delete)
    }

    /// The sum over all labels of the events since the counter was made,
    /// modulo 2^64.
    pub fn read_all_lifetime(&self) -> (value: u64)
        ensures
            value == self@.lifetime_aggregate(),
    {
        let create: u64 = self.create.read_lifetime();
        let write: u64 = self.write.read_lifetime();
        let delete: u64 = self.delete.read_lifetime();
        proof {
            lemma_wrapped_sum(create + write, delete as int);
        }
        create.wrapping_add(write).wrapping_add(delete)
    }

    /// Starts a new period: every label's count since the last reset goes
    /// back to zero.
    pub fn reset(&mut self)
        ensures
            final(self)@ == old(self)@.cleared(),
    {
        self.create.reset();
        self.write.reset();
        self.delete.reset();
    }
}

impl Default for LabeledCounter {
    fn default() -> (counter: LabeledCounter)
        ensures
            counter@ == Labeled::zero(),
    {
        LabeledCounter::new()
    }
}

/// Labels are independent: `times` increments of one label raise that
/// label's count by `times`, modulo 2^64, and leave every other label as it
/// was. After a reset the label therefore shows exactly the number of its
/// increments, as long as that fits in 64 bits.
pub proof fn lemma_labels_are_independent(
    start: Labeled,
    bumped: Action,
    other: Action,
    times: nat,
)
    ensures
        start.incremented(bumped, times).of(bumped).current == wrapped(
            start.of(bumped).current + times,
        ),
        start.of(bumped).current == 0 && times <= u64::MAX ==> start.incremented(
            bumped,
            times,
        ).of(bumped).current == times,
        other != bumped ==> start.incremented(bumped, times).of(other) == start.of(other),
    decreases times,
{
    if times > 0 {
        lemma_labels_are_independent(start, bumped, other, (times - 1) as nat);
        lemma_wrapped_sum(start.of(bumped).current + times - 1, 1);
    }
}

/// The aggregate sums the labels: where the sum of the per-label counts fits
/// in 64 bits, an aggregate read returns exactly that sum.
pub proof fn lemma_aggregate_is_sum(counts: Labeled)
    ensures
        counts.sum() <= u64::MAX ==> counts.aggregate() == counts.of(Action::Create).current
            + counts.of(Action::Write).current + counts.of(Action::Delete).current,
{
}

} // verus!
