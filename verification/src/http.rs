//! The counters of HTTP ingestion.

use crate::counter::{Counter, Tally};
use crate::distribution::{Distribution, Spread};
use crate::record::IngestSnapshot;
use vstd::prelude::*;

verus! {

/// The mathematical value of the ingestion counters.
pub struct HttpView {
    /// Requests sent.
    pub requests: Tally,
    /// Calls that the rate limiter deferred.
    pub limit_hits: Tally,
    /// The sizes of the request bodies, in bytes.
    pub request_size: Spread,
    /// Requests sent again.
    pub retries: Tally,
}

impl HttpView {
    /// The counters as they are made.
    pub open spec fn zero() -> HttpView {
        HttpView {
            requests: Tally::zero(),
            limit_hits: Tally::zero(),
            request_size: Spread::zero(),
            retries: Tally::zero(),
        }
    }

    /// The counters after a reset.
    pub open spec fn cleared(self) -> HttpView {
        HttpView {
            requests: self.requests.cleared(),
            limit_hits: self.limit_hits.cleared(),
            request_size: self.request_size.cleared(),
            retries: self.retries.cleared(),
        }
    }

    /// What a flush reports of these counters.
    pub open spec fn snapshot(self) -> IngestSnapshot {
        IngestSnapshot {
            requests: self.requests.current,
            throughput: self.request_size.sum.current,
            rate_limits: self.limit_hits.current,
            retries: self.retries.current,
        }
    }

    /// What the counters have counted since they were made, laid out as a
    /// flush reports them.
    pub open spec fn lifetime(self) -> IngestSnapshot {
        IngestSnapshot {
            requests: self.requests.lifetime,
            throughput: self.request_size.sum.lifetime,
            rate_limits: self.limit_hits.lifetime,
            retries: self.retries.lifetime,
        }
    }
}

/// The counters of HTTP ingestion.
#[derive(Debug)]
pub struct Http {
    requests: Counter,
    limit_hits: Counter,
    request_size: Distribution,
    retries: Counter,
}

impl View for Http {
    type V = HttpView;

    closed spec fn view(&self) -> HttpView {
        HttpView {
            requests: self.requests@,
            limit_hits: self.limit_hits@,
            request_size: self.request_size@,
            retries: self.retries@,
        }
    }
}

impl Http {
    /// Counters at zero.
    pub fn new() -> (http: Http)
        ensures
            http@ == HttpView::zero(),
    {
        Http {
            requests: Counter::new(),
            limit_hits: Counter::new(),
            request_size: Distribution::new(),
            retries: Counter::new(),
        }
    }

    /// Starts a new period: every count since the last reset goes back to
    /// zero.
    pub fn reset(&mut self)
        ensures
            final(self)@ == old(self)@.cleared(),
    {
        self.requests.reset();
        self.limit_hits.reset();
        self.request_size.reset();
        self.retries.reset();
    }

    /// Counts one request.
    pub fn increment_requests(&mut self)
        ensures
            final(self)@ == (HttpView { requests: old(self)@.requests.plus(1), ..old(self)@ }),
    {
        self.requests.increment();
    }

    /// The number of requests since the last reset.
    pub fn read_requests(&self) -> (value: u64)
        ensures
            value == self@.requests.current,
    {
        self.requests.read()
    }

    /// Counts one rate limit hit.
    pub fn increment_limit_hits(&mut self)
        ensures
            final(self)@ == (HttpView { limit_hits: old(self)@.limit_hits.plus(1), ..old(self)@ }),
    {
        self.limit_hits.increment();
    }

    /// The number of rate limit hits since the last reset.
    pub fn read_limit_hits(&self) -> (value: u64)
        ensures
            value == self@.limit_hits.current,
    {
        self.limit_hits.read()
    }

    /// Takes in the size of one request body.
    pub fn add_request_size(&mut self, num: u64)
        ensures
            final(self)@ == (HttpView {
                request_size: old(self)@.request_size.observed(num),
                ..old(self)@
            }),
    {
        self.request_size.observe(num);
    }

    /// The sum of the request sizes taken in since the last reset.
    pub fn read_request_size(&self) -> (value: u64)
        ensures
            value == self@.request_size.sum.current,
    {
        self.request_size.sum()
    }

    /// The number of request sizes taken in since the last reset.
    pub fn read_request_size_samples(&self) -> (value: u64)
        ensures
            value == self@.request_size.samples.current,
    {
        self.request_size.count()
    }

    /// Counts one retry.
    pub fn increment_retries(&mut self)
        ensures
            final(self)@ == (HttpView { retries: old(self)@.retries.plus(1), ..old(self)@ }),
    {
        self.retries.increment();
    }

    /// The number of retries since the last reset.
    pub fn read_retries(&self) -> (value: u64)
        ensures
            value == self@.retries.current,
    {
        self.retries.read()
    }

    /// What a flush reports of these counters.
    pub fn snapshot(&self) -> (snapshot: IngestSnapshot)
        ensures
            snapshot == self@.snapshot(),
    {
        IngestSnapshot {
            requests: self.read_requests(),
            throughput: self.read_request_size(),
            rate_limits: self.read_limit_hits(),
            retries: self.read_retries(),
        }
    }

    /// What the counters have counted since they were made: a reset does
    /// not touch these numbers.
    pub fn lifetime(&self) -> (totals: IngestSnapshot)
        ensures
            totals == self@.lifetime(),
    {
        IngestSnapshot {
            requests: self.requests.read_lifetime(),
            throughput: self.request_size.lifetime_sum(),
            rate_limits: self.limit_hits.read_lifetime(),
            retries: self.retries.read_lifetime(),
        }
    }

    /// The number of request sizes taken in since the counters were made.
    pub fn lifetime_request_size_samples(&self) -> (value: u64)
        ensures
            value == self@.request_size.samples.lifetime,
    {
        self.request_size.lifetime_count()
    }
}

impl Default for Http {
    fn default() -> (http: Http)
        ensures
            http@ == HttpView::zero(),
    {
        Http::new()
    }
}

} // verus!
