//! The counters of the journal reader.

use crate::counter::{Counter, Tally};
use crate::distribution::{Distribution, Spread};
use crate::record::JournaldSnapshot;
use vstd::prelude::*;

verus! {

/// The mathematical value of the journal counters.
pub struct JournaldView {
    /// Lines handed on.
    pub lines: Tally,
    /// The sizes of the records read, in bytes.
    pub bytes: Spread,
}

impl JournaldView {
    /// The counters as they are made.
    pub open spec fn zero() -> JournaldView {
        JournaldView { lines: Tally::zero(), bytes: Spread::zero() }
    }

    /// The counters after a reset.
    pub open spec fn cleared(self) -> JournaldView {
        JournaldView { lines: self.lines.cleared(), bytes: self.bytes.cleared() }
    }

    /// What a flush reports of these counters.
    pub open spec fn snapshot(self) -> JournaldSnapshot {
        JournaldSnapshot { lines: self.lines.current, bytes: self.bytes.sum.current }
    }

    /// What the counters have counted since they were made, laid out as a
    /// flush reports them.
    pub open spec fn lifetime(self) -> JournaldSnapshot {
        JournaldSnapshot {
            lines: self.lines.lifetime,
            bytes: self.bytes.sum.lifetime,
        }
    }
}

/// The counters of the journal reader.
#[derive(Debug)]
pub struct Journald {
    lines: Counter,
    bytes: Distribution,
}

impl View for Journald {
    type V = JournaldView;

    closed spec fn view(&self) -> JournaldView {
        JournaldView { lines: self.lines@, bytes: self.bytes@ }
    }
}

impl Journald {
    /// Counters at zero.
    pub fn new() -> (journald: Journald)
        ensures
            journald@ == JournaldView::zero(),
    {
        Journald { lines: Counter::new(), bytes: Distribution::new() }
    }

    /// Starts a new period: every count since the last reset goes back to
    /// zero.
    pub fn reset(&mut self)
        ensures
            final(self)@ == old(self)@.cleared(),
    {
        self.lines.reset();
        self.bytes.reset();
    }

    /// Counts one line.
    pub fn increment_lines(&mut self)
        ensures
            final(self)@ == (JournaldView { lines: old(self)@.lines.plus(1), ..old(self)@ }),
    {
        self.lines.increment();
    }

    /// The number of lines since the last reset.
    pub fn read_lines(&self) -> (value: u64)
        ensures
            value == self@.lines.current,
    {
        self.lines.read()
    }

    /// Takes in one record of `num` bytes: the record is counted and its size
    /// added to the sum.
    pub fn add_bytes(&mut self, num: u64)
        ensures
            final(self)@ == (JournaldView { bytes: old(self)@.bytes.observed(num), ..old(self)@ }),
    {
        self.bytes.observe(num);
    }

    /// The sum of the record sizes taken in since the last reset.
    pub fn read_bytes(&self) -> (value: u64)
        ensures
            value == self@.bytes.sum.current,
    {
        self.bytes.sum()
    }

    /// The number of records taken in since the last reset.
    pub fn read_records(&self) -> (value: u64)
        ensures
            value == self@.bytes.samples.current,
    {
        self.bytes.count()
    }

    /// What a flush reports of these counters.
    pub fn snapshot(&self) -> (snapshot: JournaldSnapshot)
        ensures
            snapshot == self@.snapshot(),
    {
        JournaldSnapshot { lines: self.read_lines(), bytes: self.read_bytes() }
    }

    /// What the counters have counted since they were made: a reset does
    /// not touch these numbers.
    pub fn lifetime(&self) -> (totals: JournaldSnapshot)
        ensures
            totals == self@.lifetime(),
    {
        JournaldSnapshot {
            lines: self.lines.read_lifetime(),
            bytes: self.bytes.lifetime_sum(),
        }
    }

    /// The number of records taken in since the counters were made.
    pub fn lifetime_records(&self) -> (value: u64)
        ensures
            value == self@.bytes.samples.lifetime,
    {
        self.bytes.lifetime_count()
    }
}

impl Default for Journald {
    fn default() -> (journald: Journald)
        ensures
            journald@ == JournaldView::zero(),
    {
        Journald::new()
    }
}

} // verus!
