use metrics::{Action, Counter, Distribution, LabeledCounter};

#[test]
fn counter_starts_at_zero() {
    let counter = Counter::new();
    assert_eq!(counter.read(), 0);
    assert_eq!(counter.read_lifetime(), 0);
    assert_eq!(Counter::default().read(), 0);
}

#[test]
fn counter_counts_every_increment() {
    let mut counter = Counter::new();
    for _ in 0..1000 {
        counter.increment();
    }
    assert_eq!(counter.read(), 1000);
    assert_eq!(counter.read_lifetime(), 1000);
}

#[test]
fn counter_adds_amounts() {
    let mut counter = Counter::new();
    counter.increment_by(100);
    counter.increment_by(0);
    counter.increment_by(23);
    assert_eq!(counter.read(), 123);
}

#[test]
fn counter_reset_clears_the_period_and_keeps_the_lifetime() {
    let mut counter = Counter::new();
    counter.increment_by(7);
    counter.reset();
    assert_eq!(counter.read(), 0);
    assert_eq!(counter.read_lifetime(), 7);
    counter.increment();
    assert_eq!(counter.read(), 1);
    assert_eq!(counter.read_lifetime(), 8);
}

#[test]
fn counter_wraps_around_instead_of_failing() {
    let mut counter = Counter::new();
    counter.increment_by(u64::MAX);
    assert_eq!(counter.read(), u64::MAX);
    counter.increment();
    assert_eq!(counter.read(), 0);
    counter.increment_by(u64::MAX);
    counter.increment_by(5);
    assert_eq!(counter.read(), 4);
    assert_eq!(counter.read_lifetime(), 4);
}

#[test]
fn counter_additions_commute() {
    let mut first = Counter::new();
    first.increment_by(3);
    first.increment_by(u64::MAX);
    let mut second = Counter::new();
    second.increment_by(u64::MAX);
    second.increment_by(3);
    assert_eq!(first.read(), second.read());
    assert_eq!(first.read(), 2);
}

#[test]
fn interleaved_additions_end_at_the_same_count() {
    let first = [1u64, 1, 1, 1];
    let second = [10u64, 20, 30];
    let mut in_turn = Counter::new();
    for amount in first.iter().chain(second.iter()) {
        in_turn.increment_by(*amount);
    }
    let mut mixed = Counter::new();
    for amount in [10u64, 1, 1, 20, 1, 30, 1] {
        mixed.increment_by(amount);
    }
    assert_eq!(in_turn.read(), 64);
    assert_eq!(mixed.read(), 64);
    assert_eq!(mixed.read_lifetime(), 64);
}

#[test]
fn distribution_counts_samples_and_sums_sizes() {
    let mut sizes = Distribution::new();
    sizes.observe(10);
    sizes.observe(20);
    sizes.observe(30);
    assert_eq!(sizes.count(), 3);
    assert_eq!(sizes.sum(), 60);
}

#[test]
fn distribution_takes_in_empty_samples() {
    let mut sizes = Distribution::default();
    sizes.observe(0);
    sizes.observe(0);
    assert_eq!(sizes.count(), 2);
    assert_eq!(sizes.sum(), 0);
}

#[test]
fn distribution_reset_clears_the_period_and_keeps_the_lifetime() {
    let mut sizes = Distribution::new();
    sizes.observe(512);
    sizes.observe(1024);
    sizes.reset();
    assert_eq!(sizes.count(), 0);
    assert_eq!(sizes.sum(), 0);
    assert_eq!(sizes.lifetime_count(), 2);
    assert_eq!(sizes.lifetime_sum(), 1536);
    sizes.observe(1);
    assert_eq!(sizes.count(), 1);
    assert_eq!(sizes.sum(), 1);
    assert_eq!(sizes.lifetime_count(), 3);
    assert_eq!(sizes.lifetime_sum(), 1537);
}

#[test]
fn distribution_sum_wraps_around() {
    let mut sizes = Distribution::new();
    sizes.observe(u64::MAX);
    sizes.observe(2);
    assert_eq!(sizes.count(), 2);
    assert_eq!(sizes.sum(), 1);
}

#[test]
fn labeled_counter_keeps_labels_apart() {
    let mut events = LabeledCounter::new();
    events.increment(Action::Create);
    events.increment(Action::Create);
    events.increment(Action::Delete);
    assert_eq!(events.read(Action::Create), 2);
    assert_eq!(events.read(Action::Write), 0);
    assert_eq!(events.read(Action::Delete), 1);
}

#[test]
fn labeled_counter_aggregate_is_the_sum_of_its_labels() {
    let mut events = LabeledCounter::default();
    assert_eq!(events.read_all(), 0);
    events.increment_by(Action::Create, 5);
    events.increment_by(Action::Write, 11);
    events.increment_by(Action::Delete, 17);
    let sum = events.read(Action::Create) + events.read(Action::Write) + events.read(Action::Delete);
    assert_eq!(events.read_all(), sum);
    assert_eq!(events.read_all(), 33);
}

#[test]
fn labeled_counter_aggregate_wraps_around() {
    let mut events = LabeledCounter::new();
    events.increment_by(Action::Create, u64::MAX);
    events.increment_by(Action::Write, 3);
    assert_eq!(events.read_all(), 2);
}

#[test]
fn labeled_counter_reset_clears_every_label() {
    let mut events = LabeledCounter::new();
    events.increment(Action::Create);
    events.increment(Action::Write);
    events.increment(Action::Delete);
    events.reset();
    assert_eq!(events.read(Action::Create), 0);
    assert_eq!(events.read(Action::Write), 0);
    assert_eq!(events.read(Action::Delete), 0);
    assert_eq!(events.read_all(), 0);
    assert_eq!(events.read_lifetime(Action::Create), 1);
    assert_eq!(events.read_lifetime(Action::Write), 1);
    assert_eq!(events.read_lifetime(Action::Delete), 1);
    assert_eq!(events.read_all_lifetime(), 3);
}

#[test]
fn action_names() {
    assert_eq!(Action::Create.name(), "create");
    assert_eq!(Action::Write.name(), "write");
    assert_eq!(Action::Delete.name(), "delete");
}
