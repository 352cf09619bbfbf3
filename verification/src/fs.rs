//! The counters of the file system watcher.

use crate::counter::{Counter, Tally};
use crate::labeled::{Action, Labeled, LabeledCounter};
use crate::record::FsSnapshot;
use vstd::prelude::*;

verus! {

/// The mathematical value of the file system counters.
pub struct FsView {
    /// File events, by what happened to the file.
    pub events: Labeled,
    /// Lines parsed.
    pub lines: Tally,
    /// Bytes read.
    pub bytes: Tally,
    /// Reads that ended inside a line.
    pub partial_reads: Tally,
}

impl FsView {
    /// The counters as they are made.
    pub open spec fn zero() -> FsView {
        FsView {
            events: Labeled::zero(),
            lines: Tally::zero(),
            bytes: Tally::zero(),
            partial_reads: Tally::zero(),
        }
    }

    /// The counters after a reset.
    pub open spec fn cleared(self) -> FsView {
        FsView {
            events: self.events.cleared(),
            lines: self.lines.cleared(),
            bytes: self.bytes.cleared(),
            partial_reads: self.partial_reads.cleared(),
        }
    }

    /// What a flush reports of these counters.
    pub open spec fn snapshot(self) -> FsSnapshot {
        FsSnapshot {
            events: self.events.aggregate(),
            creates: self.events.create.current,
            deletes: self.events.delete.current,
            writes: self.events.write.current,
            lines: self.lines.current,
            bytes: self.bytes.current,
            partial_reads: self.partial_reads.current,
        }
    }

    /// What the counters have counted since they were made, laid out as a
    /// flush reports them.
    pub open spec fn lifetime(self) -> FsSnapshot {
        FsSnapshot {
            events: self.events.lifetime_aggregate(),
            creates: self.events.create.lifetime,
            deletes: self.events.delete.lifetime,
            writes: self.events.write.lifetime,
            lines: self.lines.lifetime,
            bytes: self.bytes.lifetime,
            partial_reads: self.partial_reads.lifetime,
        }
    }
}

/// The counters of the file system watcher.
#[derive(Debug)]
pub struct Fs {
    events: LabeledCounter,
    lines: Counter,
    bytes: Counter,
    partial_reads: Counter,
}

impl View for Fs {
    type V = FsView;

    closed spec fn view(&self) -> FsView {
        FsView {
            events: self.events@,
            lines: self.lines@,
            bytes: self.bytes@,
            partial_reads: self.partial_reads@,
        }
    }
}

impl Fs {
    /// Counters at zero.
    pub fn new() -> (fs: Fs)
        ensures
            fs@ == FsView::zero(),
    {
        Fs {
            events: LabeledCounter::new(),
            lines: Counter::new(),
            bytes: Counter::new(),
            partial_reads: Counter::new(),
        }
    }

    /// Starts a new period: every count since the last reset goes back to
    /// zero.
    pub fn reset(&mut self)
        ensures
            final(self)@ == old(self)@.cleared(),
    {
        self.events.reset();
        self.lines.reset();
        self.bytes.reset();
        self.partial_reads.reset();
    }

    /// Counts one file creation.
    pub fn increment_creates(&mut self)
        ensures
            final(self)@ == (FsView {
                events: old(self)@.events.plus(Action::Create, 1),
                ..old(self)@
            }),
    {
        self.events.increment(Action::Create);
    }

    /// The number of file creations since the last reset.
    pub fn read_creates(&self) -> (value: u64)
        ensures
            value == self@.events.of(Action::Create).current,
    {
        self.events.read(Action::Create)
    }

    /// Counts one file deletion.
    pub fn increment_deletes(&mut self)
        ensures
            final(self)@ == (FsView {
                events: old(self)@.events.plus(Action::Delete, 1),
                ..old(self)@
            }),
    {
        self.events.increment(Action::Delete);
    }

    /// The number of file deletions since the last reset.
    pub fn read_deletes(&self) -> (value: u64)
        ensures
            value == self@.events.of(Action::Delete).current,
    {
        self.events.read(Action::Delete)
    }

    /// Counts one file write.
    pub fn increment_writes(&mut self)
        ensures
            final(self)@ == (FsView {
                events: old(self)@.events.plus(Action::Write, 1),
                ..old(self)@
            }),
    {
        self.events.increment(Action::Write);
    }

    /// The number of file writes since the last reset.
    pub fn read_writes(&self) -> (value: u64)
        ensures
            value == self@.events.of(Action::Write).current,
    {
        self.events.read(Action::Write)
    }

    /// The number of file events of any kind since the last reset: the sum
    /// over the three kinds, modulo 2^64.
    pub fn read_events(&self) -> (value: u64)
        ensures
            value == self@.events.aggregate(),
    {
        self.events.read_all()
    }

    /// Counts one line.
    pub fn increment_lines(&mut self)
        ensures
            final(self)@ == (FsView { lines: old(self)@.lines.plus(1), ..old(self)@ }),
    {
        self.lines.increment();
    }

    /// The number of lines since the last reset.
    pub fn read_lines(&self) -> (value: u64)
        ensures
            value == self@.lines.current,
    {
        self.lines.read()
    }

    /// Counts `num` bytes read.
    pub fn add_bytes(&mut self, num: u64)
        ensures
            final(self)@ == (FsView { bytes: old(self)@.bytes.plus(num), ..old(self)@ }),
    {
        self.bytes.increment_by(num);
    }

    /// The number of bytes read since the last reset.
    pub fn read_bytes(&self) -> (value: u64)
        ensures
            value == self@.bytes.current,
    {
        self.bytes.read()
    }

    /// Counts one partial read.
    pub fn increment_partial_reads(&mut self)
        ensures
            final(self)@ == (FsView { partial_reads: old(self)@.partial_reads.plus(1), ..old(self)@ }),
    {
        self.partial_reads.increment();
    }

    /// The number of partial reads since the last reset.
    pub fn read_partial_reads(&self) -> (value: u64)
        ensures
            value == self@.partial_reads.current,
    {
        self.partial_reads.read()
    }

    /// What a flush reports of these counters.
    pub fn snapshot(&self) -> (snapshot: FsSnapshot)
        ensures
            snapshot == self@.snapshot(),
    {
        FsSnapshot {
            events: self.read_events(),
            creates: self.read_creates(),
            deletes: self.read_deletes(),
            writes: self.read_writes(),
            lines: self.read_lines(),
            bytes: self.read_bytes(),
            partial_reads: self.read_partial_reads(),
        }
    }

    /// What the counters have counted since they were made: a reset does
    /// not touch these numbers.
    pub fn lifetime(&self) -> (totals: FsSnapshot)
        ensures
            totals == self@.lifetime(),
    {
        FsSnapshot {
            events: self.events.read_all_lifetime(),
            creates: self.events.read_lifetime(Action::Create),
            deletes: self.events.read_lifetime(Action::Delete),
            writes: self.events.read_lifetime(Action::Write),
            lines: self.lines.read_lifetime(),
            bytes: self.bytes.read_lifetime(),
            partial_reads: self.partial_reads.read_lifetime(),
        }
    }
}

impl Default for Fs {
    fn default() -> (fs: Fs)
        ensures
            fs@ == FsView::zero(),
    {
        Fs::new()
    }
}

} // verus!
