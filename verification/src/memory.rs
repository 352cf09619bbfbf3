//! Gauges of the allocator's memory statistics.
//!
//! jemalloc caches its statistics and refreshes them when its epoch is
//! advanced, so every read advances the epoch first. The keys of the epoch
//! and of the three statistics are looked up once, when the sampler is made.
//! A sampler whose keys could not be looked up is kept, and every read of it
//! fails: no read ever returns a made-up number.

use crate::record::MemorySample;
use vstd::prelude::*;

verus! {

/// `jemalloc_ctl::epoch_mib`: the key of the epoch, carried as it is.
#[verifier::external_type_specification]
#[verifier::external_body]
pub struct ExEpochKey(jemalloc_ctl::epoch_mib);

/// `jemalloc_ctl::stats::active_mib`: the key of the bytes in active pages, carried as it is.
#[verifier::external_type_specification]
#[verifier::external_body]
pub struct ExActiveKey(jemalloc_ctl::stats::active_mib);

/// `jemalloc_ctl::stats::allocated_mib`: the key of the bytes allocated by the application, carried as it is.
#[verifier::external_type_specification]
#[verifier::external_body]
pub struct ExAllocatedKey(jemalloc_ctl::stats::allocated_mib);

/// `jemalloc_ctl::stats::resident_mib`: the key of the bytes in resident pages, carried as it is.
#[verifier::external_type_specification]
#[verifier::external_body]
pub struct ExResidentKey(jemalloc_ctl::stats::resident_mib);

/// `jemalloc_ctl::Error`: why the allocator refused a lookup, an advance or a read, carried as it is.
#[verifier::external_type_specification]
#[verifier::external_body]
pub struct ExControlError(jemalloc_ctl::Error);

/// `jemalloc_ctl::epoch::mib`: the key of the epoch. Whether the lookup
/// succeeds is up to the allocator.
#[verifier::external_body]
fn epoch_key() -> (key: Result<jemalloc_ctl::epoch_mib, jemalloc_ctl::Error>) {
    jemalloc_ctl::epoch::mib()
}

/// `jemalloc_ctl::stats::active::mib`: the key of the bytes in active pages.
/// Whether the lookup succeeds is up to the allocator.
#[verifier::external_body]
fn active_key() -> (key: Result<jemalloc_ctl::stats::active_mib, jemalloc_ctl::Error>) {
    jemalloc_ctl::stats::active::mib()
}

/// `jemalloc_ctl::stats::allocated::mib`: the key of the bytes allocated by
/// the application. Whether the lookup succeeds is up to the allocator.
#[verifier::external_body]
fn allocated_key() -> (key: Result<jemalloc_ctl::stats::allocated_mib, jemalloc_ctl::Error>) {
    jemalloc_ctl::stats::allocated::mib()
}

/// `jemalloc_ctl::stats::resident::mib`: the key of the bytes in resident
/// pages. Whether the lookup succeeds is up to the allocator.
#[verifier::external_body]
fn resident_key() -> (key: Result<jemalloc_ctl::stats::resident_mib, jemalloc_ctl::Error>) {
    jemalloc_ctl::stats::resident::mib()
}

/// `jemalloc_ctl::epoch_mib::advance`: refreshes the cached statistics and
/// hands back the epoch as it was. Nothing is claimed of the result.
#[verifier::external_body]
fn advance_epoch(key: &jemalloc_ctl::epoch_mib) -> (epoch: Result<u64, jemalloc_ctl::Error>) {
    key.advance()
}

/// `jemalloc_ctl::stats::active_mib::read`: the cached number of bytes in
/// active pages. Nothing is claimed of the result.
#[verifier::external_body]
fn active_bytes(key: &jemalloc_ctl::stats::active_mib) -> (bytes: Result<
    usize,
    jemalloc_ctl::Error,
>) {
    key.read()
}

/// `jemalloc_ctl::stats::allocated_mib::read`: the cached number of bytes
/// allocated by the application. Nothing is claimed of the result.
#[verifier::external_body]
fn allocated_bytes(key: &jemalloc_ctl::stats::allocated_mib) -> (bytes: Result<
    usize,
    jemalloc_ctl::Error,
>) {
    key.read()
}

/// `jemalloc_ctl::stats::resident_mib::read`: the cached number of bytes in
/// resident pages. Nothing is claimed of the result.
#[verifier::external_body]
fn resident_bytes(key: &jemalloc_ctl::stats::resident_mib) -> (bytes: Result<
    usize,
    jemalloc_ctl::Error,
>) {
    key.read()
}

/// Why a gauge could not be read.
#[derive(Clone, Copy, Debug, PartialEq, Eq, Structural)]
pub enum SamplingFailure {
    /// The keys of the statistics could not be looked up when the sampler
    /// was made.
    Unavailable,
    /// The epoch could not be advanced, so the statistics are stale.
    Refresh,
    /// The statistic could not be read.
    Read,
}

/// The keys under which the allocator keeps what the sampler reads.
struct Keys {
    epoch: jemalloc_ctl::epoch_mib,
    active: jemalloc_ctl::stats::active_mib,
    allocated: jemalloc_ctl::stats::allocated_mib,
    resident: jemalloc_ctl::stats::resident_mib,
}

/// The memory sampler.
pub struct Memory {
    keys: Option<Keys>,
}

/// What a gauge reports for the outcome `read` of reading its statistic
/// after the epoch was advanced: the bytes, or that the read failed.
pub fn gauge<E>(read: Result<usize, E>) -> (reading: Result<u64, SamplingFailure>)
    ensures
        match read {
            Ok(bytes) => reading == Ok::<u64, SamplingFailure>(bytes as u64),
            Err(_) => reading == Err::<u64, SamplingFailure>(SamplingFailure::Read),
        },
{
    match read {
        Ok(bytes) => Ok(bytes as u64),
        Err(_) => Err(SamplingFailure::Read),
    }
}

/// The sample that three readings make, or the first failure among them, in
/// the order active, allocated, resident.
pub fn sample_of(
    active: Result<u64, SamplingFailure>,
    allocated: Result<u64, SamplingFailure>,
    resident: Result<u64, SamplingFailure>,
) -> (sample: Result<MemorySample, SamplingFailure>)
    ensures
        sample == match (active, allocated, resident) {
            (Ok(active), Ok(allocated), Ok(resident)) => Ok::<MemorySample, SamplingFailure>(
                MemorySample { active, allocated, resident },
            ),
            (Err(failure), _, _) => Err(failure),
            (Ok(_), Err(failure), _) => Err(failure),
            (Ok(_), Ok(_), Err(failure)) => Err(failure),
        },
{
    match active {
        Err(failure) => Err(failure),
        Ok(active) => match allocated {
            Err(failure) => Err(failure),
            Ok(allocated) => match resident {
                Err(failure) => Err(failure),
                Ok(resident) => Ok(MemorySample { active, allocated, resident }),
            },
        },
    }
}

impl Memory {
    /// Whether the keys of the statistics were found when the sampler was
    /// made.
    pub closed spec fn available(&self) -> bool {
        self.keys is Some
    }

    /// Looks up the keys of the epoch and of the three statistics. Whether
    /// the sampler is available afterwards is up to the allocator.
    pub fn new() -> (memory: Memory) {
        Memory::from_keys(epoch_key(), active_key(), allocated_key(), resident_key())
    }

    /// The sampler for the outcomes of the four lookups: available where all
    /// four keys were found.
    pub fn from_keys(
        epoch: Result<jemalloc_ctl::epoch_mib, jemalloc_ctl::Error>,
        active: Result<jemalloc_ctl::stats::active_mib, jemalloc_ctl::Error>,
        allocated: Result<jemalloc_ctl::stats::allocated_mib, jemalloc_ctl::Error>,
        resident: Result<jemalloc_ctl::stats::resident_mib, jemalloc_ctl::Error>,
    ) -> (memory: Memory)
        ensures
            memory.available() <==> epoch is Ok && active is Ok && allocated is Ok
                && resident is Ok,
    {
        match (epoch, active, allocated, resident) {
            (Ok(epoch), Ok(active), Ok(allocated), Ok(resident)) => Memory {
                keys: Some(Keys { epoch, active, allocated, resident }),
            },
            _ => Memory { keys: None },
        }
    }

    /// A sampler without keys: every read of it fails.
    pub fn unavailable() -> (memory: Memory)
        ensures
            !memory.available(),
    {
        Memory { keys: None }
    }

    /// Whether the keys of the statistics were found when the sampler was
    /// made.
    pub fn is_available(&self) -> (available: bool)
        ensures
            available == self.available(),
    {
        self.keys.is_some()
    }

    /// Gauges are samples of the moment, not counts: there is nothing to
    /// reset, and the sampler stays as it is.
    pub fn reset(&self) {
    }

    /// Advances the epoch, then reads the number of bytes in active pages.
    pub fn read_active(&self) -> (reading: Result<u64, SamplingFailure>)
        ensures
            reading == Err::<u64, SamplingFailure>(SamplingFailure::Unavailable)
                <==> !self.available(),
    {
        match &self.keys {
            None => Err(SamplingFailure::Unavailable),
            Some(keys) => match advance_epoch(&keys.epoch) {
                Err(_) => Err(SamplingFailure::Refresh),
                Ok(_) => gauge(active_bytes(&keys.active)),
            },
        }
    }

    /// Advances the epoch, then reads the number of bytes allocated by the
    /// application.
    pub fn read_allocated(&self) -> (reading: Result<u64, SamplingFailure>)
        ensures
            reading == Err::<u64, SamplingFailure>(SamplingFailure::Unavailable)
                <==> !self.available(),
    {
        match &self.keys {
            None => Err(SamplingFailure::Unavailable),
            Some(keys) => match advance_epoch(&keys.epoch) {
                Err(_) => Err(SamplingFailure::Refresh),
                Ok(_) => gauge(allocated_bytes(&keys.allocated)),
            },
        }
    }

    /// Advances the epoch, then reads the number of bytes in resident pages.
    pub fn read_resident(&self) -> (reading: Result<u64, SamplingFailure>)
        ensures
            reading == Err::<u64, SamplingFailure>(SamplingFailure::Unavailable)
                <==> !self.available(),
    {
        match &self.keys {
            None => Err(SamplingFailure::Unavailable),
            Some(keys) => match advance_epoch(&keys.epoch) {
                Err(_) => Err(SamplingFailure::Refresh),
                Ok(_) => gauge(resident_bytes(&keys.resident)),
            },
        }
    }

    /// Reads the three gauges, in the order active, allocated, resident.
    pub fn sample(&self) -> (sample: Result<MemorySample, SamplingFailure>)
        ensures
            sample == Err::<MemorySample, SamplingFailure>(SamplingFailure::Unavailable)
                <==> !self.available(),
    {
        let active = self.read_active();
        let allocated = self.read_allocated();
        let resident = self.read_resident();
        sample_of(active, allocated, resident)
    }
}

impl Default for Memory {
    fn default() -> (memory: Memory) {
        Memory::new()
    }
}

} // verus!
