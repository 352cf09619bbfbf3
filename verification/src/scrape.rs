//! What a scrape of the process reads.
//!
//! Every counter is exposed under a stable name. A scrape reads what the
//! counter has counted since it was made: these numbers only grow, and a
//! flush does not touch them. The file events share one name and are told
//! apart by the label `action`.

use crate::labeled::Action;
use crate::registry::{Metrics, MetricsView};
use vstd::prelude::*;

verus! {

/// The name of the label that tells the file events apart.
pub const ACTION_LABEL: &'static str = "action";

/// The metrics that a scrape can read.
#[derive(Clone, Copy, Debug, PartialEq, Eq, Structural)]
pub enum Metric {
    /// File events of one kind.
    FsEvents(Action),
    /// Lines parsed from files.
    FsLines,
    /// Bytes read from files.
    FsBytes,
    /// Reads of a file that ended inside a line.
    FsPartialReads,
    /// Ingestion requests sent.
    IngestRequests,
    /// Ingestion calls that the rate limiter deferred.
    IngestRateLimits,
    /// Request bodies whose size was taken in.
    IngestRequestSizeCount,
    /// Bytes in the request bodies whose size was taken in.
    IngestRequestSizeSum,
    /// Ingestion requests sent again.
    IngestRetries,
    /// Lines read from pods.
    K8sLines,
    /// Polls of the Kubernetes event stream.
    K8sPolls,
    /// Pods created.
    K8sCreates,
    /// Pods deleted.
    K8sDeletes,
    /// Kubernetes events seen.
    K8sEvents,
    /// Notifications from the Kubernetes watcher.
    K8sNotifies,
    /// Lines handed on from the journal.
    JournaldLines,
    /// Journal records whose size was taken in.
    JournaldRecordsCount,
    /// Bytes in the journal records whose size was taken in.
    JournaldBytesSum,
}

impl Metric {
    /// The name of the metric as text.
    pub open spec fn name_text(self) -> Seq<char> {
        match self {
            Metric::FsEvents(_) => "fs_events"@,
            Metric::FsLines => "fs_lines"@,
            Metric::FsBytes => "fs_bytes"@,
            Metric::FsPartialReads => "fs_partial_reads"@,
            Metric::IngestRequests => "ingest_requests"@,
            Metric::IngestRateLimits => "ingest_rate_limits"@,
            Metric::IngestRequestSizeCount => "ingest_request_size_count"@,
            Metric::IngestRequestSizeSum => "ingest_request_size_sum"@,
            Metric::IngestRetries => "ingest_retries"@,
            Metric::K8sLines => "k8s_lines"@,
            Metric::K8sPolls => "k8s_polls"@,
            Metric::K8sCreates => "k8s_creates"@,
            Metric::K8sDeletes => "k8s_deletes"@,
            Metric::K8sEvents => "k8s_events"@,
            Metric::K8sNotifies => "k8s_notifies"@,
            Metric::JournaldLines => "journald_lines"@,
            Metric::JournaldRecordsCount => "journald_bytes_count"@,
            Metric::JournaldBytesSum => "journald_bytes_sum"@,
        }
    }

    /// The name under which a scrape shows the metric.
    pub fn name(self) -> (name: &'static str)
        ensures
            name@ == self.name_text(),
    {
        match self {
            Metric::FsEvents(_) => "fs_events",
            Metric::FsLines => "fs_lines",
            Metric::FsBytes => "fs_bytes",
            Metric::FsPartialReads => "fs_partial_reads",
            Metric::IngestRequests => "ingest_requests",
            Metric::IngestRateLimits => "ingest_rate_limits",
            Metric::IngestRequestSizeCount => "ingest_request_size_count",
            Metric::IngestRequestSizeSum => "ingest_request_size_sum",
            Metric::IngestRetries => "ingest_retries",
            Metric::K8sLines => "k8s_lines",
            Metric::K8sPolls => "k8s_polls",
            Metric::K8sCreates => "k8s_creates",
            Metric::K8sDeletes => "k8s_deletes",
            Metric::K8sEvents => "k8s_events",
            Metric::K8sNotifies => "k8s_notifies",
            Metric::JournaldLines => "journald_lines",
            Metric::JournaldRecordsCount => "journald_bytes_count",
            Metric::JournaldBytesSum => "journald_bytes_sum",
        }
    }

    /// What the metric counts, as text.
    pub open spec fn help_text(self) -> Seq<char> {
        match self {
            Metric::FsEvents(_) => "Filesystem events received"@,
            Metric::FsLines => "Filesystem lines parsed"@,
            Metric::FsBytes => "Filesystem bytes read"@,
            Metric::FsPartialReads => "Filesystem partial reads"@,
            Metric::IngestRequests => "Ingestion requests sent"@,
            Metric::IngestRateLimits => "Ingestion calls deferred by the rate limiter"@,
            Metric::IngestRequestSizeCount => "Ingestion request bodies measured"@,
            Metric::IngestRequestSizeSum => "Ingestion request bytes sent"@,
            Metric::IngestRetries => "Ingestion requests sent again"@,
            Metric::K8sLines => "Kubernetes lines read"@,
            Metric::K8sPolls => "Kubernetes event stream polls"@,
            Metric::K8sCreates => "Kubernetes pods created"@,
            Metric::K8sDeletes => "Kubernetes pods deleted"@,
            Metric::K8sEvents => "Kubernetes events seen"@,
            Metric::K8sNotifies => "Kubernetes notifications received"@,
            Metric::JournaldLines => "Journal lines read"@,
            Metric::JournaldRecordsCount => "Journal records measured"@,
            Metric::JournaldBytesSum => "Journal bytes read"@,
        }
    }

    /// What the metric counts, in words that a scrape shows beside its name.
    pub fn help(self) -> (help: &'static str)
        ensures
            help@ == self.help_text(),
    {
        match self {
            Metric::FsEvents(_) => "Filesystem events received",
            Metric::FsLines => "Filesystem lines parsed",
            Metric::FsBytes => "Filesystem bytes read",
            Metric::FsPartialReads => "Filesystem partial reads",
            Metric::IngestRequests => "Ingestion requests sent",
            Metric::IngestRateLimits => "Ingestion calls deferred by the rate limiter",
            Metric::IngestRequestSizeCount => "Ingestion request bodies measured",
            Metric::IngestRequestSizeSum => "Ingestion request bytes sent",
            Metric::IngestRetries => "Ingestion requests sent again",
            Metric::K8sLines => "Kubernetes lines read",
            Metric::K8sPolls => "Kubernetes event stream polls",
            Metric::K8sCreates => "Kubernetes pods created",
            Metric::K8sDeletes => "Kubernetes pods deleted",
            Metric::K8sEvents => "Kubernetes events seen",
            Metric::K8sNotifies => "Kubernetes notifications received",
            Metric::JournaldLines => "Journal lines read",
            Metric::JournaldRecordsCount => "Journal records measured",
            Metric::JournaldBytesSum => "Journal bytes read",
        }
    }

    /// The value of the label `action`, for the metrics that have it.
    pub fn action(self) -> (action: Option<Action>)
        ensures
            action == match self {
                Metric::FsEvents(action) => Some(action),
                _ => None,
            },
    {
        match self {
            Metric::FsEvents(action) => Some(action),
            _ => None,
        }
    }

    /// Every metric, in the order in which a scrape lists them.
    pub open spec fn every() -> Seq<Metric> {
        seq![
            Metric::FsEvents(Action::Create),
            Metric::FsEvents(Action::Write),
            Metric::FsEvents(Action::Delete),
            Metric::FsLines,
            Metric::FsBytes,
            Metric::FsPartialReads,
            Metric::IngestRequests,
            Metric::IngestRateLimits,
            Metric::IngestRequestSizeCount,
            Metric::IngestRequestSizeSum,
            Metric::IngestRetries,
            Metric::K8sLines,
            Metric::K8sPolls,
            Metric::K8sCreates,
            Metric::K8sDeletes,
            Metric::K8sEvents,
            Metric::K8sNotifies,
            Metric::JournaldLines,
            Metric::JournaldRecordsCount,
            Metric::JournaldBytesSum,
        ]
    }

    /// Every metric, in the order in which a scrape lists them.
    pub fn all() -> (all: Vec<Metric>)
        ensures
            all@ == Metric::every(),
    {
        let all = vec![
            Metric::FsEvents(Action::Create),
            Metric::FsEvents(Action::Write),
            Metric::FsEvents(Action::Delete),
            Metric::FsLines,
            Metric::FsBytes,
            Metric::FsPartialReads,
            Metric::IngestRequests,
            Metric::IngestRateLimits,
            Metric::IngestRequestSizeCount,
            Metric::IngestRequestSizeSum,
            Metric::IngestRetries,
            Metric::K8sLines,
            Metric::K8sPolls,
            Metric::K8sCreates,
            Metric::K8sDeletes,
            Metric::K8sEvents,
            Metric::K8sNotifies,
            Metric::JournaldLines,
            Metric::JournaldRecordsCount,
            Metric::JournaldBytesSum,
        ];
        assert(all@ =~= Metric::every());
        all
    }
}

impl MetricsView {
    /// What a scrape reads for `metric`: what its counter has counted since
    /// it was made.
    pub open spec fn total(self, metric: Metric) -> u64 {
        match metric {
            Metric::FsEvents(action) => self.fs.events.of(action).lifetime,
            Metric::FsLines => self.fs.lines.lifetime,
            Metric::FsBytes => self.fs.bytes.lifetime,
            Metric::FsPartialReads => self.fs.partial_reads.lifetime,
            Metric::IngestRequests => self.http.requests.lifetime,
            Metric::IngestRateLimits => self.http.limit_hits.lifetime,
            Metric::IngestRequestSizeCount => self.http.request_size.samples.lifetime,
            Metric::IngestRequestSizeSum => self.http.request_size.sum.lifetime,
            Metric::IngestRetries => self.http.retries.lifetime,
            Metric::K8sLines => self.k8s.lines.lifetime,
            Metric::K8sPolls => self.k8s.polls.lifetime,
            Metric::K8sCreates => self.k8s.creates.lifetime,
            Metric::K8sDeletes => self.k8s.deletes.lifetime,
            Metric::K8sEvents => self.k8s.events.lifetime,
            Metric::K8sNotifies => self.k8s.notifies.lifetime,
            Metric::JournaldLines => self.journald.lines.lifetime,
            Metric::JournaldRecordsCount => self.journald.bytes.samples.lifetime,
            Metric::JournaldBytesSum => self.journald.bytes.sum.lifetime,
        }
    }
}

impl Metrics {
    /// What a scrape reads for `metric`.
    pub fn scrape(&self, metric: Metric) -> (value: u64)
        ensures
            value == self@.total(metric),
    {
        match metric {
            Metric::FsEvents(Action::Create) => self.fs().lifetime().creates,
            Metric::FsEvents(Action::Write) => self.fs().lifetime().writes,
            Metric::FsEvents(Action::Delete) => self.fs().lifetime().deletes,
            Metric::FsLines => self.fs().lifetime().lines,
            Metric::FsBytes => self.fs().lifetime().bytes,
            Metric::FsPartialReads => self.fs().lifetime().partial_reads,
            Metric::IngestRequests => self.http().lifetime().requests,
            Metric::IngestRateLimits => self.http().lifetime().rate_limits,
            Metric::IngestRequestSizeCount => self.http().lifetime_request_size_samples(),
            Metric::IngestRequestSizeSum => self.http().lifetime().throughput,
            Metric::IngestRetries => self.http().lifetime().retries,
            Metric::K8sLines => self.k8s().lifetime().lines,
            Metric::K8sPolls => self.k8s().lifetime().polls,
            Metric::K8sCreates => self.k8s().lifetime().creates,
            Metric::K8sDeletes => self.k8s().lifetime().deletes,
            Metric::K8sEvents => self.k8s().lifetime().events,
            Metric::K8sNotifies => self.k8s().lifetime().notifies,
            Metric::JournaldLines => self.journald().lifetime().lines,
            Metric::JournaldRecordsCount => self.journald().lifetime_records(),
            Metric::JournaldBytesSum => self.journald().lifetime().bytes,
        }
    }
}

/// The list of metrics is complete and names each metric once.
pub proof fn lemma_every_metric_is_listed(metric: Metric)
    ensures
        Metric::every().contains(metric),
        Metric::every().no_duplicates(),
{
    let every = Metric::every();
    let at: int = match metric {
        Metric::FsEvents(Action::Create) => 0,
        Metric::FsEvents(Action::Write) => 1,
        Metric::FsEvents(Action::Delete) => 2,
        Metric::FsLines => 3,
        Metric::FsBytes => 4,
        Metric::FsPartialReads => 5,
        Metric::IngestRequests => 6,
        Metric::IngestRateLimits => 7,
        Metric::IngestRequestSizeCount => 8,
        Metric::IngestRequestSizeSum => 9,
        Metric::IngestRetries => 10,
        Metric::K8sLines => 11,
        Metric::K8sPolls => 12,
        Metric::K8sCreates => 13,
        Metric::K8sDeletes => 14,
        Metric::K8sEvents => 15,
        Metric::K8sNotifies => 16,
        Metric::JournaldLines => 17,
        Metric::JournaldRecordsCount => 18,
        Metric::JournaldBytesSum => 19,
    };
    assert(every[at] == metric);
}

/// A flush does not touch what a scrape reads: the value of every metric is
/// the same after the flush as before it.
pub proof fn lemma_flush_keeps_totals(before: MetricsView, now: i64, metric: Metric)
    ensures
        before.flushed(now).total(metric) == before.total(metric),
{
}

} // verus!
