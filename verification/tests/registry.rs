use metrics::clock::elapsed_between;
use metrics::registry::sampled;
use metrics::{Memory, MemorySample, Metrics, SamplingFailure};

const EMPTY_RECORD: &str = "{\"fs\":{\"events\":0,\"creates\":0,\"deletes\":0,\"writes\":0,\
    \"lines\":0,\"bytes\":0,\"partial_reads\":0},\
    \"ingest\":{\"requests\":0,\"throughput\":0,\"rate_limits\":0,\"retries\":0},\
    \"k8s\":{\"lines\":0,\"polls\":0,\"creates\":0,\"deletes\":0,\"events\":0,\"notifies\":0},\
    \"journald\":{\"lines\":0,\"bytes\":0}}";

fn fresh(now: i64) -> Metrics {
    Metrics::started_at(now, Memory::unavailable())
}

#[test]
fn fresh_registry_reads_zero_everywhere() {
    let metrics = fresh(1_700_000_000);
    assert_eq!(metrics.print_with(None), EMPTY_RECORD);
    assert_eq!(metrics.elapsed_at(1_700_000_000), 0);
}

#[test]
fn filesystem_counts_show_up_and_are_cleared_by_a_flush() {
    let mut metrics = fresh(0);
    metrics.fs_mut().increment_creates();
    metrics.fs_mut().increment_creates();
    metrics.fs_mut().add_bytes(100);
    assert_eq!(metrics.fs().read_creates(), 2);
    assert_eq!(metrics.fs().read_bytes(), 100);
    let record = metrics.snapshot_and_reset();
    assert!(record.starts_with(
        "{\"fs\":{\"events\":2,\"creates\":2,\"deletes\":0,\"writes\":0,\"lines\":0,\
         \"bytes\":100,\"partial_reads\":0}"
    ));
    assert_eq!(metrics.fs().read_creates(), 0);
    assert_eq!(metrics.fs().read_bytes(), 0);
}

#[test]
fn flush_clears_every_counter_of_every_domain() {
    let mut metrics = fresh(10);
    metrics.fs_mut().increment_creates();
    metrics.fs_mut().increment_deletes();
    metrics.fs_mut().increment_writes();
    metrics.fs_mut().increment_lines();
    metrics.fs_mut().add_bytes(1);
    metrics.fs_mut().increment_partial_reads();
    metrics.http_mut().increment_requests();
    metrics.http_mut().increment_limit_hits();
    metrics.http_mut().add_request_size(1);
    metrics.http_mut().increment_retries();
    metrics.k8s_mut().increment_lines();
    metrics.k8s_mut().increment_polls();
    metrics.k8s_mut().increment_creates();
    metrics.k8s_mut().increment_deletes();
    metrics.k8s_mut().increment_events();
    metrics.k8s_mut().increment_notifies();
    metrics.journald_mut().increment_lines();
    metrics.journald_mut().add_bytes(1);
    let record = metrics.snapshot_and_reset_at(70, None);
    assert_eq!(
        record,
        "{\"fs\":{\"events\":3,\"creates\":1,\"deletes\":1,\"writes\":1,\"lines\":1,\
         \"bytes\":1,\"partial_reads\":1},\
         \"ingest\":{\"requests\":1,\"throughput\":1,\"rate_limits\":1,\"retries\":1},\
         \"k8s\":{\"lines\":1,\"polls\":1,\"creates\":1,\"deletes\":1,\"events\":1,\
         \"notifies\":1},\
         \"journald\":{\"lines\":1,\"bytes\":1}}"
    );
    assert_eq!(metrics.print_with(None), EMPTY_RECORD);
    assert_eq!(metrics.http().read_request_size_samples(), 0);
    assert_eq!(metrics.journald().read_records(), 0);
    assert_eq!(metrics.elapsed_at(70), 0);
}

#[test]
fn record_carries_the_sample_it_is_given() {
    let metrics = fresh(0);
    let sample = MemorySample { active: 73728, allocated: 57480, resident: 1253376 };
    let record = metrics.print_with(Some(sample));
    assert!(record.contains(
        "},\"memory\":{\"active\":73728,\"allocated\":57480,\"resident\":1253376},\"ingest\":{"
    ));
    assert_eq!(metrics.snapshot(Some(sample)).memory, Some(sample));
    assert_eq!(metrics.snapshot(None).memory, None);
}

#[test]
fn record_of_a_registry_without_sampler_has_no_memory_domain() {
    let metrics = fresh(0);
    assert_eq!(metrics.print(), EMPTY_RECORD);
}

#[test]
fn record_of_a_registry_with_sampler_has_a_memory_domain() {
    let mut metrics = Metrics::new();
    assert!(metrics.memory().is_available());
    metrics.k8s_mut().increment_polls();
    let record = metrics.print();
    assert!(record.contains("},\"memory\":{\"active\":"));
    assert!(record.contains("\"k8s\":{\"lines\":0,\"polls\":1,"));
    let flushed = metrics.snapshot_and_reset();
    assert!(flushed.contains("\"k8s\":{\"lines\":0,\"polls\":1,"));
    assert_eq!(metrics.k8s().read_polls(), 0);
}

#[test]
fn sampled_keeps_a_sample_and_drops_a_failure() {
    let sample = MemorySample { active: 3, allocated: 2, resident: 1 };
    assert_eq!(sampled::<SamplingFailure>(Ok(sample)), Some(sample));
    assert_eq!(sampled(Err(SamplingFailure::Refresh)), None);
}

#[test]
fn elapsed_is_the_time_since_the_last_flush() {
    let mut metrics = fresh(1000);
    assert_eq!(metrics.elapsed_at(1000), 0);
    assert_eq!(metrics.elapsed_at(1001), 1);
    assert_eq!(metrics.elapsed_at(1060), 60);
    metrics.reset_at(1060);
    assert_eq!(metrics.elapsed_at(1060), 0);
    assert_eq!(metrics.elapsed_at(1075), 15);
}

#[test]
fn elapsed_grows_with_the_clock() {
    let metrics = fresh(500);
    let mut last = 0;
    for now in 500..700 {
        let seconds = metrics.elapsed_at(now);
        assert!(seconds >= last);
        last = seconds;
    }
    assert_eq!(last, 199);
}

#[test]
fn elapsed_on_the_system_clock_starts_near_zero() {
    let mut metrics = Metrics::new();
    assert!(metrics.elapsed() < 5);
    metrics.reset();
    assert!(metrics.elapsed() < 5);
}

#[test]
fn elapsed_between_exact_values() {
    assert_eq!(elapsed_between(0, 0), 0);
    assert_eq!(elapsed_between(-5, 5), 10);
    assert_eq!(elapsed_between(i64::MIN, i64::MAX), u64::MAX);
    assert_eq!(elapsed_between(10, 5), u64::MAX - 4);
    assert_eq!(elapsed_between(i64::MAX, i64::MIN), 1);
}

#[test]
fn reset_keeps_the_sampler() {
    let mut metrics = Metrics::new();
    assert!(metrics.memory().is_available());
    metrics.reset();
    assert!(metrics.memory().is_available());
    let mut without = fresh(0);
    without.reset_at(5);
    assert!(!without.memory().is_available());
}
