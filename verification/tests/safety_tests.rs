use almarjaa::bytecode::safety::{
    BailoutReason, CallScopeGuard, ExecutionGuard, ExecutionLimits, MemoryTracker,
};

#[test]
fn test_execution_guard_creation() {
    let guard = ExecutionGuard::new();
    assert!(!guard.is_bailed_out());
    assert_eq!(guard.stats().operation_count, 0);
}

#[test]
fn test_operation_counting() {
    let mut guard = ExecutionGuard::new();
    for _ in 0..100 {
        guard.record_operation().unwrap();
    }
    assert_eq!(guard.stats().operation_count, 100);
}

#[test]
fn test_call_depth_tracking() {
    let mut guard = ExecutionGuard::new();
    let scope1 = CallScopeGuard::new(&mut guard).unwrap();
    assert_eq!(guard.stats().call_depth, 1);
    let scope2 = CallScopeGuard::new(&mut guard).unwrap();
    assert_eq!(guard.stats().call_depth, 2);
    scope2.close(&mut guard);
    assert_eq!(guard.stats().call_depth, 1);
    scope1.close(&mut guard);
    assert_eq!(guard.stats().call_depth, 0);
}

#[test]
fn test_stack_overflow_detection() {
    let limits = ExecutionLimits { max_call_depth: 10, ..ExecutionLimits::default() };
    let mut guard = ExecutionGuard::with_limits(limits);
    for _ in 0..10 {
        guard.enter_call().unwrap();
    }
    let result = guard.enter_call();
    assert!(result.is_err());
    match result {
        Err(BailoutReason::StackOverflow { depth, limit }) => {
            assert_eq!(limit, 10);
            assert!(depth > 10);
        }
        _ => panic!("Expected StackOverflow error"),
    }
}

#[test]
fn test_operation_limit() {
    let limits = ExecutionLimits { max_operations: 100, ..ExecutionLimits::default() };
    let mut guard = ExecutionGuard::with_limits(limits);
    for _ in 0..100 {
        guard.record_operation().unwrap();
    }
    let result = guard.record_operation();
    assert!(result.is_err());
}

#[test]
fn test_external_interrupt() {
    let mut guard = ExecutionGuard::new();
    guard.interrupt();
    let result = guard.check();
    assert!(result.is_err());
    match result {
        Err(BailoutReason::Interrupted) => (),
        _ => panic!("Expected Interrupted error"),
    }
}

#[test]
fn test_memory_tracker() {
    let mut tracker = MemoryTracker::new(1000);
    assert!(tracker.allocate(500));
    assert_eq!(tracker.current(), 500);
    assert!(tracker.allocate(400));
    assert_eq!(tracker.current(), 900);
    assert!(!tracker.allocate(200));
    tracker.deallocate(300);
    assert_eq!(tracker.current(), 600);
}

#[test]
fn test_execution_limits_presets() {
    let dev = ExecutionLimits::development();
    assert!(dev.max_memory > ExecutionLimits::default().max_memory);
    let prod = ExecutionLimits::production();
    assert!(prod.max_memory < ExecutionLimits::default().max_memory);
    let test = ExecutionLimits::testing();
    assert!(test.max_time_ms < prod.max_time_ms);
}

#[test]
fn test_guard_reset() {
    let mut guard = ExecutionGuard::new();
    for _ in 0..50 {
        guard.record_operation().unwrap();
        guard.enter_call().unwrap();
    }
    guard.reset();
    assert_eq!(guard.stats().operation_count, 0);
    assert_eq!(guard.stats().call_depth, 0);
    assert!(!guard.is_bailed_out());
}

#[test]
fn test_stats_display() {
    let mut guard = ExecutionGuard::new();
    for _ in 0..100 {
        guard.record_operation().unwrap();
    }
    let stats = guard.stats();
    let display = stats.to_display_string();
    assert!(display.contains("إحصائيات التنفيذ"));
    assert!(display.contains("عدد العمليات"));
}

#[test]
fn timeout_reported_from_elapsed_time() {
    let limits = ExecutionLimits { max_time_ms: 50, ..ExecutionLimits::default() };
    let mut guard = ExecutionGuard::with_limits(limits);
    assert!(guard.check_with_elapsed(10_000_000).is_ok());
    assert!(!guard.is_bailed_out());
    assert!(guard.check_with_elapsed(100_000_000).is_ok());
    assert!(guard.is_bailed_out());
    assert_eq!(guard.check_with_elapsed(0), Err(BailoutReason::Timeout { elapsed_ms: 100, limit_ms: 50 }));
}

#[test]
fn disabled_bailout_never_refuses() {
    let limits = ExecutionLimits { max_operations: 1, enable_bailout: false, ..ExecutionLimits::default() };
    let mut guard = ExecutionGuard::with_limits(limits);
    for _ in 0..10 {
        assert!(guard.record_operation().is_ok());
    }
    assert_eq!(guard.stats().operation_count, 10);
}

#[test]
fn memory_limit_bails_out_and_release_lowers_usage() {
    let limits = ExecutionLimits { max_memory: 100, ..ExecutionLimits::default() };
    let mut guard = ExecutionGuard::with_limits(limits);
    assert!(guard.record_memory(60).is_ok());
    assert!(!guard.is_bailed_out());
    assert!(guard.record_memory(50).is_ok());
    assert!(guard.is_bailed_out());
    assert_eq!(
        guard.get_bailout_reason(),
        Some(BailoutReason::MemoryExceeded { used_bytes: 110, limit_bytes: 100 })
    );
    guard.release_memory(30);
    assert_eq!(guard.stats().memory_used, 80);
}

#[test]
fn stack_size_limit_bails_out() {
    let limits = ExecutionLimits { max_stack_size: 5, ..ExecutionLimits::default() };
    let mut guard = ExecutionGuard::with_limits(limits);
    assert!(guard.update_stack_size(5).is_ok());
    assert!(!guard.is_bailed_out());
    assert!(guard.update_stack_size(6).is_ok());
    assert_eq!(guard.check(), Err(BailoutReason::StackSizeExceeded { size: 6, limit: 5 }));
}

#[test]
fn bailout_reason_messages() {
    assert_eq!(
        BailoutReason::StackOverflow { depth: 11, limit: 10 }.to_display_string(),
        "تجاوز عمق الاستدعاء: 11 (الحد: 10)"
    );
    assert_eq!(BailoutReason::Interrupted.to_display_string(), "تم إيقاف التنفيذ خارجياً");
}

#[test]
fn megabytes_formatted_like_two_decimals() {
    let mut guard = ExecutionGuard::new();
    guard.record_memory(1_572_864).unwrap();
    let text = guard.stats().display_with_elapsed("1s");
    let expected = format!("{:.2} MB", 1_572_864f64 / 1024.0 / 1024.0);
    assert!(text.contains(&expected));
    assert!(text.contains("1572864 بايت"));
    assert!(text.contains("  الوقت المنقضي:      1s\n"));
}

#[test]
fn memory_tracker_peak_kept() {
    let mut tracker = MemoryTracker::new(1000);
    assert!(tracker.allocate(700));
    tracker.deallocate(500);
    assert!(tracker.allocate(100));
    assert_eq!(tracker.peak(), 700);
    assert_eq!(tracker.current(), 300);
}
