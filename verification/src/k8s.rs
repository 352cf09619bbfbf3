//! The counters of the Kubernetes watcher.

use crate::counter::{Counter, Tally};
use crate::record::K8sSnapshot;
use vstd::prelude::*;

verus! {

/// The mathematical value of the Kubernetes counters.
pub struct K8sView {
    pub lines: Tally,
    pub polls: Tally,
    pub creates: Tally,
    pub deletes: Tally,
    pub events: Tally,
    pub notifies: Tally,
}

impl K8sView {
    /// The counters as they are made.
    pub open spec fn zero() -> K8sView {
        K8sView {
            lines: Tally::zero(),
            polls: Tally::zero(),
            creates: Tally::zero(),
            deletes: Tally::zero(),
            events: Tally::zero(),
            notifies: Tally::zero(),
        }
    }

    /// The counters after a reset.
    pub open spec fn cleared(self) -> K8sView {
        K8sView {
            lines: self.lines.cleared(),
            polls: self.polls.cleared(),
            creates: self.creates.cleared(),
            deletes: self.deletes.cleared(),
            events: self.events.cleared(),
            notifies: self.notifies.cleared(),
        }
    }

    /// What a flush reports of these counters.
    pub open spec fn snapshot(self) -> K8sSnapshot {
        K8sSnapshot {
            lines: self.lines.current,
            polls: self.polls.current,
            creates: self.creates.current,
            deletes: self.deletes.current,
            events: self.events.current,
            notifies: self.notifies.current,
        }
    }

    /// What the counters have counted since they were made, laid out as a
    /// flush reports them.
    pub open spec fn lifetime(self) -> K8sSnapshot {
        K8sSnapshot {
            lines: self.lines.lifetime,
            polls: self.polls.lifetime,
            creates: self.creates.lifetime,
            deletes: self.deletes.lifetime,
            events: self.events.lifetime,
            notifies: self.notifies.lifetime,
        }
    }
}

/// The counters of the Kubernetes watcher.
#[derive(Debug)]
pub struct K8s {
    lines: Counter,
    polls: Counter,
    creates: Counter,
    deletes: Counter,
    events: Counter,
    notifies: Counter,
}

impl View for K8s {
    type V = K8sView;

    closed spec fn view(&self) -> K8sView {
        K8sView {
            lines: self.lines@,
            polls: self.polls@,
            creates: self.creates@,
            deletes: self.deletes@,
            events: self.events@,
            notifies: self.notifies@,
        }
    }
}

impl K8s {
    /// Counters at zero.
    pub fn new() -> (k8s: K8s)
        ensures
            k8s@ == K8sView::zero(),
    {
        K8s {
            lines: Counter::new(),
            polls: Counter::new(),
            creates: Counter::new(),
            deletes: Counter::new(),
            events: Counter::new(),
            notifies: Counter::new(),
        }
    }

    /// Starts a new period: every count since the last reset goes back to
    /// zero.
    pub fn reset(&mut self)
        ensures
            final(self)@ == old(self)@.cleared(),
    {
        self.lines.reset();
        self.polls.reset();
        self.creates.reset();
        self.deletes.reset();
        self.events.reset();
        self.notifies.reset();
    }

    /// Counts one line read from a pod.
    pub fn increment_lines(&mut self)
        ensures
            final(self)@ == (K8sView { lines: old(self)@.lines.plus(1), ..old(self)@ }),
    {
        self.lines.increment();
    }

    /// The number of lines read from pods since the last reset.
    pub fn read_lines(&self) -> (value: u64)
        ensures
            value == self@.lines.current,
    {
        self.lines.read()
    }

    /// Counts one poll of the event stream.
    pub fn increment_polls(&mut self)
        ensures
            final(self)@ == (K8sView { polls: old(self)@.polls.plus(1), ..old(self)@ }),
    {
        self.polls.increment();
    }

    /// The number of polls of the event stream since the last reset.
    pub fn read_polls(&self) -> (value: u64)
        ensures
            value == self@.polls.current,
    {
        self.polls.read()
    }

    /// Counts one pod creation.
    pub fn increment_creates(&mut self)
        ensures
            final(self)@ == (K8sView { creates: old(self)@.creates.plus(1), ..old(self)@ }),
    {
        self.creates.increment();
    }

    /// The number of pod creations since the last reset.
    pub fn read_creates(&self) -> (value: u64)
        ensures
            value == self@.creates.current,
    {
        self.creates.read()
    }

    /// Counts one pod deletion.
    pub fn increment_deletes(&mut self)
        ensures
            final(self)@ == (K8sView { deletes: old(self)@.deletes.plus(1), ..old(self)@ }),
    {
        self.deletes.increment();
    }

    /// The number of pod deletions since the last reset.
    pub fn read_deletes(&self) -> (value: u64)
        ensures
            value == self@.deletes.current,
    {
        self.deletes.read()
    }

    /// Counts one Kubernetes event.
    pub fn increment_events(&mut self)
        ensures
            final(self)@ == (K8sView { events: old(self)@.events.plus(1), ..old(self)@ }),
    {
        self.events.increment();
    }

    /// The number of Kubernetes events since the last reset.
    pub fn read_events(&self) -> (value: u64)
        ensures
            value == self@.events.current,
    {
        self.events.read()
    }

    /// Counts one notification.
    pub fn increment_notifies(&mut self)
        ensures
            final(self)@ == (K8sView { notifies: old(self)@.notifies.plus(1), ..old(self)@ }),
    {
        self.notifies.increment();
    }

    /// The number of notifications since the last reset.
    pub fn read_notifies(&self) -> (value: u64)
        ensures
            value == self@.notifies.current,
    {
        self.notifies.read()
    }

    /// What a flush reports of these counters.
    pub fn snapshot(&self) -> (snapshot: K8sSnapshot)
        ensures
            snapshot == self@.snapshot(),
    {
        K8sSnapshot {
            lines: self.read_lines(),
            polls: self.read_polls(),
            creates: self.read_creates(),
            deletes: self.read_deletes(),
            events: self.read_events(),
            notifies: self.read_notifies(),
        }
    }

    /// What the counters have counted since they were made: a reset does
    /// not touch these numbers.
    pub fn lifetime(&self) -> (totals: K8sSnapshot)
        ensures
            totals == self@.lifetime(),
    {
        K8sSnapshot {
            lines: self.lines.read_lifetime(),
            polls: self.polls.read_lifetime(),
            creates: self.creates.read_lifetime(),
            deletes: self.deletes.read_lifetime(),
            events: self.events.read_lifetime(),
            notifies: self.notifies.read_lifetime(),
        }
    }
}

impl Default for K8s {
    fn default() -> (k8s: K8s)
        ensures
            k8s@ == K8sView::zero(),
    {
        K8s::new()
    }
}

} // verus!
