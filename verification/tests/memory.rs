use metrics::memory::{gauge, sample_of};
use metrics::{Memory, MemorySample, Metrics, SamplingFailure};

#[test]
fn allocated_can_be_read_twice_in_a_row() {
    let memory = Memory::new();
    assert!(memory.is_available());
    let first = memory.read_allocated();
    let second = memory.read_allocated();
    assert!(matches!(first, Ok(bytes) if bytes > 0));
    assert!(matches!(second, Ok(bytes) if bytes > 0));
}

#[test]
fn every_gauge_can_be_read() {
    let memory = Memory::default();
    assert!(matches!(memory.read_active(), Ok(bytes) if bytes > 0));
    assert!(matches!(memory.read_allocated(), Ok(bytes) if bytes > 0));
    assert!(matches!(memory.read_resident(), Ok(bytes) if bytes > 0));
    let sample = memory.sample();
    assert!(matches!(
        sample,
        Ok(MemorySample { active, allocated, resident })
            if active > 0 && allocated > 0 && resident > 0
    ));
}

#[test]
fn resetting_counters_leaves_the_gauges_alone() {
    let mut metrics = Metrics::new();
    assert!(matches!(metrics.memory().read_allocated(), Ok(bytes) if bytes > 0));
    metrics.fs_mut().add_bytes(100);
    metrics.reset();
    metrics.memory().reset();
    assert!(matches!(metrics.memory().read_allocated(), Ok(bytes) if bytes > 0));
    metrics.snapshot_and_reset();
    assert!(matches!(metrics.memory().read_allocated(), Ok(bytes) if bytes > 0));
}

#[test]
fn sampler_without_keys_fails_every_read() {
    let memory = Memory::unavailable();
    assert!(!memory.is_available());
    assert_eq!(memory.read_active(), Err(SamplingFailure::Unavailable));
    assert_eq!(memory.read_allocated(), Err(SamplingFailure::Unavailable));
    assert_eq!(memory.read_resident(), Err(SamplingFailure::Unavailable));
    assert_eq!(memory.sample(), Err(SamplingFailure::Unavailable));
}

#[test]
fn sampler_from_keys_that_were_found_is_available() {
    let memory = Memory::from_keys(
        jemalloc_ctl::epoch::mib(),
        jemalloc_ctl::stats::active::mib(),
        jemalloc_ctl::stats::allocated::mib(),
        jemalloc_ctl::stats::resident::mib(),
    );
    assert!(memory.is_available());
    assert!(memory.sample().is_ok());
}

#[test]
fn gauge_hands_on_the_bytes_that_were_read() {
    assert_eq!(gauge::<()>(Ok(0)), Ok(0));
    assert_eq!(gauge::<()>(Ok(57480)), Ok(57480));
    assert_eq!(gauge::<()>(Ok(usize::MAX)), Ok(usize::MAX as u64));
}

#[test]
fn gauge_reports_a_read_that_failed() {
    assert_eq!(gauge(Err(())), Err(SamplingFailure::Read));
    assert_eq!(gauge(Err("unknown key")), Err(SamplingFailure::Read));
}

#[test]
fn sample_of_three_readings() {
    assert_eq!(
        sample_of(Ok(3), Ok(2), Ok(1)),
        Ok(MemorySample { active: 3, allocated: 2, resident: 1 })
    );
}

#[test]
fn sample_of_reports_the_first_failure() {
    let refresh = Err(SamplingFailure::Refresh);
    let read = Err(SamplingFailure::Read);
    let unavailable = Err(SamplingFailure::Unavailable);
    assert_eq!(sample_of(refresh, read, Ok(1)), Err(SamplingFailure::Refresh));
    assert_eq!(sample_of(Ok(3), read, refresh), Err(SamplingFailure::Read));
    assert_eq!(sample_of(Ok(3), Ok(2), refresh), Err(SamplingFailure::Refresh));
    assert_eq!(sample_of(unavailable, Ok(2), Ok(1)), Err(SamplingFailure::Unavailable));
}
