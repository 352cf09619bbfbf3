//! The registry: one group of counters per domain, the memory sampler, and
//! the time of the last flush.
//!
//! A registry is made once by whoever composes the process and is handed to
//! the producers and to the flush loop. Producers reach the counters of
//! their domain through it; the flush loop calls `snapshot_and_reset` on
//! every tick.
//!
//! The registry is a plain value: counting and flushing take it by `&mut`,
//! so that every contract can say what the counters hold afterwards. Whoever
//! shares one registry between threads sees to it that one of them has it at
//! a time. Counting is an addition modulo 2^64 and commutes, so the order in
//! which producers get their turn does not change what a flush reports.
//!
//! Every function that reads the clock or the allocator comes with a twin
//! that takes the reading as an argument (`reset` and `reset_at`, `print`
//! and `print_with`). The twin's contract is exact; the function itself
//! promises what holds whatever the reading was.

use crate::clock::{elapsed_between, seconds_between, unix_now};
use crate::fs::{Fs, FsView};
use crate::http::{Http, HttpView};
use crate::journald::{Journald, JournaldView};
use crate::k8s::{K8s, K8sView};
use crate::memory::Memory;
use crate::record::{record_text, MemorySample, Snapshot};
use vstd::prelude::*;

verus! {

/// The mathematical value of the registry: its counters and the time of the
/// last flush. The memory gauges have no value of their own: they are read
/// from the allocator each time.
pub struct MetricsView {
    /// Unix time, in seconds, of the last flush, or of the start where there
    /// was no flush yet.
    pub last_flush: i64,
    pub fs: FsView,
    pub http: HttpView,
    pub k8s: K8sView,
    pub journald: JournaldView,
}

impl MetricsView {
    /// The registry as it is made at the time `now`.
    pub open spec fn started(now: i64) -> MetricsView {
        MetricsView {
            last_flush: now,
            fs: FsView::zero(),
            http: HttpView::zero(),
            k8s: K8sView::zero(),
            journald: JournaldView::zero(),
        }
    }

    /// The registry after a flush at the time `now`.
    pub open spec fn flushed(self, now: i64) -> MetricsView {
        MetricsView {
            last_flush: now,
            fs: self.fs.cleared(),
            http: self.http.cleared(),
            k8s: self.k8s.cleared(),
            journald: self.journald.cleared(),
        }
    }

    /// What a flush reports, given the sample of the memory gauges.
    pub open spec fn snapshot(self, memory: Option<MemorySample>) -> Snapshot {
        Snapshot {
            fs: self.fs.snapshot(),
            memory,
            ingest: self.http.snapshot(),
            k8s: self.k8s.snapshot(),
            journald: self.journald.snapshot(),
        }
    }

    /// The seconds since the last flush at the time `now`.
    pub open spec fn elapsed(self, now: i64) -> u64 {
        seconds_between(self.last_flush, now)
    }
}

/// The registry.
pub struct Metrics {
    last_flush: i64,
    fs: Fs,
    memory: Memory,
    http: Http,
    k8s: K8s,
    journald: Journald,
}

impl View for Metrics {
    type V = MetricsView;

    closed spec fn view(&self) -> MetricsView {
        MetricsView {
            last_flush: self.last_flush,
            fs: self.fs@,
            http: self.http@,
            k8s: self.k8s@,
            journald: self.journald@,
        }
    }
}

/// The sample that goes into a record: the gauges where they could be read,
/// and nothing where they could not.
pub fn sampled<E>(sample: Result<MemorySample, E>) -> (memory: Option<MemorySample>)
    ensures
        memory == match sample {
            Ok(memory) => Some(memory),
            Err(_) => None,
        },
{
    match sample {
        Ok(memory) => Some(memory),
        Err(_) => None,
    }
}

impl Metrics {
    /// The memory sampler of the registry.
    pub closed spec fn sampler(&self) -> Memory {
        self.memory
    }

    /// A registry with all counters at zero, a sampler made now, and the
    /// system clock's time as the time of the last flush.
    pub fn new() -> (metrics: Metrics)
        ensures
            exists|now: i64| metrics@ == MetricsView::started(now),
    {
        let now: i64 = unix_now();
        let metrics = Metrics::started_at(now, Memory::new());
        assert(metrics@ == MetricsView::started(now));
        metrics
    }

    /// A registry with all counters at zero, the sampler `memory`, and `now`
    /// as the time of the last flush.
    pub fn started_at(now: i64, memory: Memory) -> (metrics: Metrics)
        ensures
            metrics@ == MetricsView::started(now),
            metrics.sampler() == memory,
    {
        Metrics {
            last_flush: now,
            fs: Fs::new(),
            memory,
            http: Http::new(),
            k8s: K8s::new(),
            journald: Journald::new(),
        }
    }

    /// The counters of the file system watcher.
    pub fn fs(&self) -> (fs: &Fs)
        ensures
            fs@ == self@.fs,
    {
        &self.fs
    }

    /// The counters of the file system watcher, to count with.
    pub fn fs_mut(&mut self) -> (fs: &mut Fs)
        ensures
            fs@ == old(self)@.fs,
            final(self)@ == (MetricsView { fs: final(fs)@, ..old(self)@ }),
            final(self).sampler() == old(self).sampler(),
    {
        &mut self.fs
    }

    /// The memory sampler.
    pub fn memory(&self) -> (memory: &Memory)
        ensures
            *memory == self.sampler(),
    {
        &self.memory
    }

    /// The counters of HTTP ingestion.
    pub fn http(&self) -> (http: &Http)
        ensures
            http@ == self@.http,
    {
        &self.http
    }

    /// The counters of HTTP ingestion, to count with.
    pub fn http_mut(&mut self) -> (http: &mut Http)
        ensures
            http@ == old(self)@.http,
            final(self)@ == (MetricsView { http: final(http)@, ..old(self)@ }),
            final(self).sampler() == old(self).sampler(),
    {
        &mut self.http
    }

    /// The counters of the Kubernetes watcher.
    pub fn k8s(&self) -> (k8s: &K8s)
        ensures
            k8s@ == self@.k8s,
    {
        &self.k8s
    }

    /// The counters of the Kubernetes watcher, to count with.
    pub fn k8s_mut(&mut self) -> (k8s: &mut K8s)
        ensures
            k8s@ == old(self)@.k8s,
            final(self)@ == (MetricsView { k8s: final(k8s)@, ..old(self)@ }),
            final(self).sampler() == old(self).sampler(),
    {
        &mut self.k8s
    }

    /// The counters of the journal reader.
    pub fn journald(&self) -> (journald: &Journald)
        ensures
            journald@ == self@.journald,
    {
        &self.journald
    }

    /// The counters of the journal reader, to count with.
    pub fn journald_mut(&mut self) -> (journald: &mut Journald)
        ensures
            journald@ == old(self)@.journald,
            final(self)@ == (MetricsView { journald: final(journald)@, ..old(self)@ }),
            final(self).sampler() == old(self).sampler(),
    {
        &mut self.journald
    }

    /// The seconds from the last flush to `now`.
    pub fn elapsed_at(&self, now: i64) -> (seconds: u64)
        ensures
            seconds == self@.elapsed(now),
    {
        elapsed_between(self.last_flush, now)
    }

    /// The seconds from the last flush to the system clock's time.
    pub fn elapsed(&self) -> (seconds: u64)
        ensures
            exists|now: i64| seconds == self@.elapsed(now),
    {
        let now: i64 = unix_now();
        let seconds: u64 = self.elapsed_at(now);
        assert(seconds == self@.elapsed(now));
        seconds
    }

    /// Starts a new period at the time `now`: every count since the last
    /// reset goes back to zero, and `now` becomes the time of the last
    /// flush. What the counters have counted since they were made stays, and
    /// so does the sampler.
    pub fn reset_at(&mut self, now: i64)
        ensures
            final(self)@ == old(self)@.flushed(now),
            final(self).sampler() == old(self).sampler(),
    {
        self.last_flush = now;
        self.fs.reset();
        self.memory.reset();
        self.http.reset();
        self.k8s.reset();
        self.journald.reset();
    }

    /// Starts a new period at the system clock's time.
    pub fn reset(&mut self)
        ensures
            exists|now: i64| final(self)@ == old(self)@.flushed(now),
            final(self).sampler() == old(self).sampler(),
    {
        let now: i64 = unix_now();
        self.reset_at(now);
        assert(self@ == old(self)@.flushed(now));
    }

    /// The counters as a flush reports them, with `memory` for the gauges.
    pub fn snapshot(&self, memory: Option<MemorySample>) -> (snapshot: Snapshot)
        ensures
            snapshot == self@.snapshot(memory),
    {
        Snapshot {
            fs: self.fs.snapshot(),
            memory,
            ingest: self.http.snapshot(),
            k8s: self.k8s.snapshot(),
            journald: self.journald.snapshot(),
        }
    }

    /// The record of the counters as they stand, with `memory` for the
    /// gauges.
    pub fn print_with(&self, memory: Option<MemorySample>) -> (text: String)
        ensures
            text@ == record_text(self@.snapshot(memory)),
    {
        self.snapshot(memory).render()
    }

    /// Samples the memory gauges and renders the record of the counters as
    /// they stand. A sampler that is not available leaves the memory domain
    /// out of the record.
    pub fn print(&self) -> (text: String)
        ensures
            exists|memory: Option<MemorySample>| text@ == record_text(self@.snapshot(memory)),
            !self.sampler().available() ==> text@ == record_text(self@.snapshot(None)),
    {
        let memory = sampled(self.memory.sample());
        let text = self.print_with(memory);
        assert(text@ == record_text(self@.snapshot(memory)));
        text
    }

    /// One flush at the time `now`, with `memory` for the gauges: the record
    /// of the counters as they stood, and a new period from `now` on.
    pub fn snapshot_and_reset_at(
        &mut self,
        now: i64,
        memory: Option<MemorySample>,
    ) -> (text: String)
        ensures
            text@ == record_text(old(self)@.snapshot(memory)),
            final(self)@ == old(self)@.flushed(now),
            final(self).sampler() == old(self).sampler(),
    {
        let text = self.print_with(memory);
        self.reset_at(now);
        text
    }

    /// One flush: samples the memory gauges, renders the record of the
    /// counters as they stand, and starts a new period at the system clock's
    /// time.
    pub fn snapshot_and_reset(&mut self) -> (text: String)
        ensures
            exists|memory: Option<MemorySample>|
                text@ == record_text(old(self)@.snapshot(memory)),
            !old(self).sampler().available() ==> text@ == record_text(
                old(self)@.snapshot(None),
            ),
            exists|now: i64| final(self)@ == old(self)@.flushed(now),
            final(self).sampler() == old(self).sampler(),
    {
        let memory = sampled(self.memory.sample());
        let now: i64 = unix_now();
        let text = self.snapshot_and_reset_at(now, memory);
        assert(text@ == record_text(old(self)@.snapshot(memory)));
        assert(self@ == old(self)@.flushed(now));
        text
    }
}

/// After a flush every counter reads zero, whatever it held before: a record
/// taken right after the flush is the record of a registry that was just
/// made. The gauges in it are whatever the sampler gives, and the time since
/// the last flush starts at zero.
pub proof fn lemma_flush_clears_every_counter(
    before: MetricsView,
    now: i64,
    memory: Option<MemorySample>,
)
    ensures
        before.flushed(now).snapshot(memory) == MetricsView::started(now).snapshot(memory),
        before.flushed(now).elapsed(now) == 0,
{
}

} // verus!
