//! In-process metrics: counters that many producers bump, a periodic flush
//! that renders them as one structured record and clears them, and gauges of
//! the allocator's memory statistics.

pub mod clock;
pub mod counter;
pub mod distribution;
pub mod flush;
pub mod fs;
pub mod http;
pub mod journald;
pub mod k8s;
pub mod labeled;
pub mod memory;
pub mod record;
pub mod registry;
pub mod scrape;

pub use counter::{Counter, Tally};
pub use distribution::{Distribution, Spread};
pub use flush::{FlushAction, FlushEvent, FlushLoop, FlushState, FLUSH_INTERVAL_SECS};
pub use fs::{Fs, FsView};
pub use http::{Http, HttpView};
pub use journald::{Journald, JournaldView};
pub use k8s::{K8s, K8sView};
pub use labeled::{Action, Labeled, LabeledCounter};
pub use memory::{Memory, SamplingFailure};
pub use record::{
    FsSnapshot, IngestSnapshot, JournaldSnapshot, K8sSnapshot, MemorySample, Snapshot,
};
pub use registry::{Metrics, MetricsView};
pub use scrape::{Metric, ACTION_LABEL};
