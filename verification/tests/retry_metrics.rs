use zel_core::RetryMetrics;

#[test]
fn test_new_metrics() {
    let metrics = RetryMetrics::new();
    assert_eq!(metrics.get_total_retries(), 0);
    assert_eq!(metrics.get_successful_after_retry(), 0);
    assert_eq!(metrics.get_failed_after_max_retries(), 0);
}

#[test]
fn test_increment_total_retries() {
    let mut metrics = RetryMetrics::new();
    metrics.increment_total_retries();
    metrics.increment_total_retries();
    assert_eq!(metrics.get_total_retries(), 2);
}

#[test]
fn test_record_success() {
    let mut metrics = RetryMetrics::new();
    metrics.record_success_after_retry();
    assert_eq!(metrics.get_successful_after_retry(), 1);
}

#[test]
fn test_record_max_retries_exceeded() {
    let mut metrics = RetryMetrics::new();
    metrics.record_max_retries_exceeded();
    assert_eq!(metrics.get_failed_after_max_retries(), 1);
}

#[test]
fn test_reset() {
    let mut metrics = RetryMetrics::new();
    metrics.increment_total_retries();
    metrics.record_success_after_retry();
    metrics.record_max_retries_exceeded();

    metrics.reset();

    assert_eq!(metrics.get_total_retries(), 0);
    assert_eq!(metrics.get_successful_after_retry(), 0);
    assert_eq!(metrics.get_failed_after_max_retries(), 0);
}

#[test]
fn counters_are_independent() {
    let mut metrics = RetryMetrics::default();
    metrics.increment_total_retries();
    metrics.increment_total_retries();
    metrics.increment_total_retries();
    metrics.record_success_after_retry();
    assert_eq!(metrics.get_total_retries(), 3);
    assert_eq!(metrics.get_successful_after_retry(), 1);
    assert_eq!(metrics.get_failed_after_max_retries(), 0);
}
