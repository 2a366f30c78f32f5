use almarjaa::bytecode::jit_optimizer::{
    AllocationStrategy, EscapeAnalyzer, InlineCache, LoopOptimizer, PGOOptimization, ProfileGuidedOptimizer,
};

#[test]
fn test_loop_optimizer() {
    let mut optimizer = LoopOptimizer::new();
    let body = vec![1u8, 2u8];
    let unrolled = optimizer.unroll_loop(4, &body);
    assert!(unrolled.len() >= body.len() * 4);
}

#[test]
fn test_escape_analyzer() {
    let mut analyzer = EscapeAnalyzer::new();
    analyzer.analyze_variable("x", false);
    assert!(analyzer.can_stack_allocate("x"));
    analyzer.analyze_variable("y", true);
    assert!(!analyzer.can_stack_allocate("y"));
}

#[test]
fn test_inline_cache() {
    let mut cache = InlineCache::new();
    cache.insert("test", 2, vec![1u8]);
    assert!(cache.lookup("test", 2).is_some());
    assert!(cache.lookup("nonexistent", 0).is_none());
}

#[test]
fn unroll_repeats_the_body() {
    let mut optimizer = LoopOptimizer::new();
    let unrolled = optimizer.unroll_loop(3, &[7, 8]);
    assert_eq!(unrolled, vec![7, 8, 7, 8, 7, 8]);
}

#[test]
fn escape_decision_follows_last_analysis() {
    let mut analyzer = EscapeAnalyzer::new();
    analyzer.analyze_variable("x", true);
    analyzer.analyze_variable("x", false);
    assert!(analyzer.can_stack_allocate("x"));
    assert_eq!(analyzer.optimize_allocation("x"), AllocationStrategy::Stack);
    assert!(!analyzer.can_stack_allocate("unknown"));
}

#[test]
fn inline_cache_keeps_code() {
    let mut cache = InlineCache::new();
    cache.insert("f", 1, vec![3, 4]);
    assert_eq!(cache.get_inlined_code("f", 1), Some(&[3, 4][..]));
    assert_eq!(cache.get_inlined_code("f", 2), None);
}

#[test]
fn test_pgo() {
    let mut pgo = ProfileGuidedOptimizer::new();
    for _ in 0..1001 {
        pgo.record_execution(0, 10);
    }
    let hot_spots = pgo.identify_hot_spots();
    assert!(!hot_spots.is_empty());
}

#[test]
fn hot_spots_most_frequent_first() {
    let mut pgo = ProfileGuidedOptimizer::new();
    for _ in 0..1000 {
        pgo.record_execution(3, 1);
    }
    for _ in 0..1500 {
        pgo.record_execution(7, 1);
    }
    for _ in 0..999 {
        pgo.record_execution(9, 1);
    }
    assert_eq!(pgo.identify_hot_spots(), vec![7, 3]);
    assert_eq!(pgo.stats().hot_spots_identified, 2);
    assert_eq!(pgo.profile().execution_times.get(&7), Some(&1500));
}

#[test]
fn branches_predicted_from_counts() {
    let mut pgo = ProfileGuidedOptimizer::new();
    assert!(pgo.predict_branch(4));
    pgo.record_branch(4, false);
    pgo.record_branch(4, false);
    pgo.record_branch(4, true);
    assert!(!pgo.predict_branch(4));
    assert_eq!(pgo.stats().branches_predicted, 1);
    let suggestions = pgo.suggest_optimizations();
    assert_eq!(suggestions, vec![PGOOptimization::ReorderBranch(4)]);
    assert_eq!(pgo.stats().estimated_speedup_tenths, 11);
}
