//! Tests of the debouncers, driven by an explicit clock in milliseconds.

use q_manager::debounce::BatchDebouncer;
use q_manager::debounce::Debouncer;
use q_manager::debounce::StringDebouncer;

fn batch_get<'a, V>(items: &'a [(i64, V)], key: i64) -> Option<&'a V> {
    items.iter().find(|(k, _)| *k == key).map(|(_, v)| v)
}

#[test]
fn test_debouncer_basic() {
    let mut debouncer = Debouncer::new(50);

    // First call should execute
    assert!(debouncer.should_execute(1, 0));

    // Immediate second call should be debounced
    assert!(!debouncer.should_execute(1, 0));

    // Different key should execute
    assert!(debouncer.should_execute(2, 0));

    // After the debounce period it should execute again
    assert!(debouncer.should_execute(1, 60));
}

#[test]
fn debounce_test_debouncer_reset() {
    let mut debouncer = Debouncer::new(100);

    assert!(debouncer.should_execute(1, 0));
    assert!(!debouncer.should_execute(1, 0));

    debouncer.reset(1);

    // Should execute immediately after reset
    assert!(debouncer.should_execute(1, 0));
}

#[test]
fn debounce_test_debouncer_check_only() {
    let mut debouncer = Debouncer::new(50);

    // check_only should return true initially (no state change)
    assert!(debouncer.check_only(1, 0));
    assert!(debouncer.check_only(1, 0)); // Still true, no state change

    // After marking executed, check_only should return false
    debouncer.mark_executed(1, 0);
    assert!(!debouncer.check_only(1, 0));

    // After the debounce period it is due again
    assert!(debouncer.check_only(1, 60));
}

#[test]
fn debounce_test_debouncer_clear() {
    let mut debouncer = Debouncer::new(100);

    debouncer.should_execute(1, 0);
    debouncer.should_execute(2, 0);
    debouncer.should_execute(3, 0);

    assert_eq!(debouncer.len(), 3);
    assert!(!debouncer.is_empty());

    debouncer.clear();

    assert_eq!(debouncer.len(), 0);
    assert!(debouncer.is_empty());

    // All keys should execute again
    assert!(debouncer.should_execute(1, 0));
    assert!(debouncer.should_execute(2, 0));
}

#[test]
fn test_batch_debouncer_basic() {
    let mut debouncer: BatchDebouncer<String> = BatchDebouncer::new(50, 0);

    debouncer.add(1, "value1".to_string());
    debouncer.add(2, "value2".to_string());

    assert_eq!(debouncer.pending_count(), 2);

    // Not enough time passed
    assert!(debouncer.try_flush(0).is_none());

    // After the flush interval
    let flushed = debouncer.try_flush(60);
    assert!(flushed.is_some());

    let items = flushed.unwrap();
    assert_eq!(items.len(), 2);
    assert_eq!(batch_get(&items, 1), Some(&"value1".to_string()));

    // After flush, pending should be empty
    assert_eq!(debouncer.pending_count(), 0);
}

#[test]
fn test_batch_debouncer_overwrites() {
    let mut debouncer: BatchDebouncer<String> = BatchDebouncer::new(100, 0);

    debouncer.add(1, "first".to_string());
    debouncer.add(1, "second".to_string());
    debouncer.add(1, "third".to_string());

    // Only one item because same key
    assert_eq!(debouncer.pending_count(), 1);

    let items = debouncer.flush(0);
    assert_eq!(batch_get(&items, 1), Some(&"third".to_string())); // Last value wins
}

#[test]
fn test_batch_debouncer_force_flush() {
    let mut debouncer: BatchDebouncer<i32> = BatchDebouncer::new(100_000, 0);

    debouncer.add(1, 100);
    debouncer.add(2, 200);

    // Force flush even though the interval has not passed
    let items = debouncer.flush(0);
    assert_eq!(items.len(), 2);
    assert_eq!(debouncer.pending_count(), 0);
}

#[test]
fn test_batch_debouncer_empty_flush() {
    let mut debouncer: BatchDebouncer<i32> = BatchDebouncer::new(10, 0);

    // Should return None for an empty batch even when due
    assert!(debouncer.try_flush(20).is_none());

    // Force flush returns an empty list
    let items = debouncer.flush(20);
    assert!(items.is_empty());
}

#[test]
fn test_debouncer_first_execution() {
    let mut debouncer = Debouncer::new(100);
    assert!(debouncer.should_execute(1, 0));
}

#[test]
fn test_debouncer_prevents_immediate_reexecution() {
    let mut debouncer = Debouncer::new(100);

    assert!(debouncer.should_execute(1, 0));
    assert!(!debouncer.should_execute(1, 0));
}

#[test]
fn test_debouncer_different_keys() {
    let mut debouncer = Debouncer::new(100);

    assert!(debouncer.should_execute(1, 0));
    assert!(debouncer.should_execute(2, 0));
    assert!(debouncer.should_execute(3, 0));
}

#[test]
fn test_debouncer_allows_after_duration() {
    let mut debouncer = Debouncer::new(50);

    assert!(debouncer.should_execute(1, 0));
    assert!(debouncer.should_execute(1, 60));
}

#[test]
fn debounce_tests_test_debouncer_check_only() {
    let mut debouncer = Debouncer::new(100);

    // First check should return true
    assert!(debouncer.check_only(1, 0));

    // Mark as executed
    debouncer.mark_executed(1, 0);

    // Immediate check should return false
    assert!(!debouncer.check_only(1, 0));
}

#[test]
fn debounce_tests_test_debouncer_reset() {
    let mut debouncer = Debouncer::new(100);

    debouncer.should_execute(1, 0);
    assert!(!debouncer.should_execute(1, 0));

    // Reset should allow immediate execution
    debouncer.reset(1);
    assert!(debouncer.should_execute(1, 0));
}

#[test]
fn debounce_tests_test_debouncer_clear() {
    let mut debouncer = Debouncer::new(100);

    debouncer.should_execute(1, 0);
    debouncer.should_execute(2, 0);
    debouncer.should_execute(3, 0);

    assert_eq!(debouncer.len(), 3);

    debouncer.clear();

    assert_eq!(debouncer.len(), 0);
    assert!(debouncer.is_empty());
}

#[test]
fn test_debouncer_is_empty() {
    let mut debouncer = Debouncer::new(100);

    assert!(debouncer.is_empty());

    debouncer.should_execute(1, 0);
    assert!(!debouncer.is_empty());
}

#[test]
fn test_batch_debouncer_add_and_flush() {
    let mut debouncer = BatchDebouncer::new(50, 0);

    debouncer.add(1, "value1");
    debouncer.add(2, "value2");

    assert_eq!(debouncer.pending_count(), 2);

    let items = debouncer.flush(0);
    assert_eq!(items.len(), 2);
    assert_eq!(debouncer.pending_count(), 0);
}

#[test]
fn test_batch_debouncer_try_flush_too_soon() {
    let mut debouncer = BatchDebouncer::new(100, 0);

    debouncer.add(1, "value1");

    let result = debouncer.try_flush(0);
    assert!(result.is_none());
}

#[test]
fn test_batch_debouncer_try_flush_after_interval() {
    let mut debouncer = BatchDebouncer::new(50, 0);

    debouncer.add(1, "value1");

    let result = debouncer.try_flush(60);
    assert!(result.is_some());
    assert_eq!(result.unwrap().len(), 1);
}

#[test]
fn test_batch_debouncer_replaces_values() {
    let mut debouncer = BatchDebouncer::new(50, 0);

    debouncer.add(1, "value1");
    debouncer.add(1, "value2"); // Should replace

    assert_eq!(debouncer.pending_count(), 1);

    let items = debouncer.flush(0);
    assert_eq!(batch_get(&items, 1), Some(&"value2"));
}

#[test]
fn test_mutex_poisoning_recovery() {
    // Ordinary operation keeps the tracked keys consistent
    let mut debouncer = Debouncer::new(100);

    assert!(debouncer.should_execute(1, 0));
    assert_eq!(debouncer.len(), 1);
    assert!(!debouncer.is_empty());
}

#[test]
fn test_concurrent_access() {
    let mut debouncer = Debouncer::new(10);

    for i in 0..5 {
        debouncer.should_execute(i, 0);
    }

    // Should have 5 different keys
    assert_eq!(debouncer.len(), 5);
}

#[test]
fn test_debouncer_with_string_keys() {
    let mut debouncer = StringDebouncer::new(50);

    assert!(debouncer.should_execute("account_1", 0));
    assert!(!debouncer.should_execute("account_1", 0));
    assert!(debouncer.should_execute("account_2", 0));
    assert!(debouncer.should_execute("account_1", 60));

    debouncer.reset("account_2");
    assert!(debouncer.should_execute("account_2", 0));
    assert_eq!(debouncer.len(), 2);
    assert!(!debouncer.is_empty());
}
