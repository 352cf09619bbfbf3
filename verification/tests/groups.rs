use metrics::{Fs, FsSnapshot, Http, IngestSnapshot, Journald, JournaldSnapshot, K8s, K8sSnapshot};

#[test]
fn fs_counts_each_kind_of_event() {
    let mut fs = Fs::new();
    fs.increment_creates();
    fs.increment_creates();
    fs.increment_deletes();
    fs.increment_writes();
    fs.increment_writes();
    fs.increment_writes();
    assert_eq!(fs.read_creates(), 2);
    assert_eq!(fs.read_deletes(), 1);
    assert_eq!(fs.read_writes(), 3);
    assert_eq!(fs.read_events(), 6);
}

#[test]
fn fs_counts_lines_bytes_and_partial_reads() {
    let mut fs = Fs::default();
    fs.increment_lines();
    fs.add_bytes(100);
    fs.add_bytes(28);
    fs.increment_partial_reads();
    fs.increment_partial_reads();
    assert_eq!(fs.read_lines(), 1);
    assert_eq!(fs.read_bytes(), 128);
    assert_eq!(fs.read_partial_reads(), 2);
    assert_eq!(fs.read_events(), 0);
}

#[test]
fn fs_snapshot_and_reset() {
    let mut fs = Fs::new();
    fs.increment_creates();
    fs.increment_writes();
    fs.increment_lines();
    fs.add_bytes(9);
    fs.increment_partial_reads();
    let taken = FsSnapshot {
        events: 2,
        creates: 1,
        deletes: 0,
        writes: 1,
        lines: 1,
        bytes: 9,
        partial_reads: 1,
    };
    assert_eq!(fs.snapshot(), taken);
    fs.reset();
    let nothing = FsSnapshot {
        events: 0,
        creates: 0,
        deletes: 0,
        writes: 0,
        lines: 0,
        bytes: 0,
        partial_reads: 0,
    };
    assert_eq!(fs.snapshot(), nothing);
    assert_eq!(fs.lifetime(), taken);
}

#[test]
fn http_counters_are_independent() {
    let mut http = Http::new();
    http.increment_requests();
    http.increment_requests();
    http.increment_limit_hits();
    http.increment_retries();
    http.increment_retries();
    http.increment_retries();
    assert_eq!(http.read_requests(), 2);
    assert_eq!(http.read_limit_hits(), 1);
    assert_eq!(http.read_retries(), 3);
    assert_eq!(http.read_request_size(), 0);
    assert_eq!(http.read_request_size_samples(), 0);
}

#[test]
fn http_request_sizes_are_counted_and_summed() {
    let mut http = Http::default();
    http.add_request_size(10);
    http.add_request_size(20);
    http.add_request_size(30);
    assert_eq!(http.read_request_size_samples(), 3);
    assert_eq!(http.read_request_size(), 60);
    assert_eq!(http.read_requests(), 0);
}

#[test]
fn http_snapshot_and_reset() {
    let mut http = Http::new();
    http.increment_requests();
    http.add_request_size(2048);
    http.increment_limit_hits();
    http.increment_retries();
    let taken = IngestSnapshot { requests: 1, throughput: 2048, rate_limits: 1, retries: 1 };
    assert_eq!(http.snapshot(), taken);
    http.reset();
    assert_eq!(
        http.snapshot(),
        IngestSnapshot { requests: 0, throughput: 0, rate_limits: 0, retries: 0 }
    );
    assert_eq!(http.read_request_size_samples(), 0);
    assert_eq!(http.lifetime(), taken);
    assert_eq!(http.lifetime_request_size_samples(), 1);
}

#[test]
fn k8s_counters_are_independent() {
    let mut k8s = K8s::new();
    k8s.increment_lines();
    k8s.increment_polls();
    k8s.increment_polls();
    k8s.increment_creates();
    k8s.increment_creates();
    k8s.increment_creates();
    k8s.increment_deletes();
    k8s.increment_events();
    k8s.increment_events();
    k8s.increment_notifies();
    assert_eq!(k8s.read_lines(), 1);
    assert_eq!(k8s.read_polls(), 2);
    assert_eq!(k8s.read_creates(), 3);
    assert_eq!(k8s.read_deletes(), 1);
    assert_eq!(k8s.read_events(), 2);
    assert_eq!(k8s.read_notifies(), 1);
}

#[test]
fn k8s_snapshot_and_reset() {
    let mut k8s = K8s::default();
    k8s.increment_polls();
    k8s.increment_events();
    let taken =
        K8sSnapshot { lines: 0, polls: 1, creates: 0, deletes: 0, events: 1, notifies: 0 };
    assert_eq!(k8s.snapshot(), taken);
    k8s.reset();
    assert_eq!(
        k8s.snapshot(),
        K8sSnapshot { lines: 0, polls: 0, creates: 0, deletes: 0, events: 0, notifies: 0 }
    );
    assert_eq!(k8s.lifetime(), taken);
}

#[test]
fn journald_counts_records_with_their_bytes() {
    let mut journald = Journald::new();
    journald.add_bytes(300);
    journald.add_bytes(0);
    journald.add_bytes(45);
    journald.increment_lines();
    assert_eq!(journald.read_bytes(), 345);
    assert_eq!(journald.read_records(), 3);
    assert_eq!(journald.read_lines(), 1);
}

#[test]
fn journald_snapshot_and_reset() {
    let mut journald = Journald::default();
    journald.increment_lines();
    journald.increment_lines();
    journald.add_bytes(77);
    let taken = JournaldSnapshot { lines: 2, bytes: 77 };
    assert_eq!(journald.snapshot(), taken);
    journald.reset();
    assert_eq!(journald.snapshot(), JournaldSnapshot { lines: 0, bytes: 0 });
    assert_eq!(journald.read_records(), 0);
    assert_eq!(journald.lifetime(), taken);
    assert_eq!(journald.lifetime_records(), 1);
}
