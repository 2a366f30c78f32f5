use almarjaa::bytecode::jit_simd::{SimdJitOp, SimdPattern, SimdPatternDetector};

#[test]
fn test_simd_pattern_detector() {
    let mut detector = SimdPatternDetector::new();
    let code = "مجموع = 0؛ لكل س في قائمة: مجموع += س";
    let pattern = detector.detect_sum_pattern(code);
    assert!(pattern.is_some());
}

#[test]
fn test_simd_pattern_generate_code() {
    let detector = SimdPatternDetector::new();
    let pattern = SimdPattern::SumLoop { loop_var: "س".to_string(), list_expr: "أرقام".to_string() };
    let code = detector.generate_simd_code(&pattern);
    assert!(code.contains("simd.مجموع"));
}

#[test]
fn sum_pattern_needs_both_markers() {
    let mut detector = SimdPatternDetector::new();
    match detector.detect_sum_pattern("مجموع += س") {
        Some(SimdPattern::SumLoop { loop_var, list_expr }) => {
            assert_eq!(loop_var, "س");
            assert_eq!(list_expr, "قائمة");
        },
        other => panic!("unexpected {:?}", other),
    }
    assert!(detector.detect_sum_pattern("مجموع = س").is_none());
    assert!(detector.detect_sum_pattern("عدد += 1").is_none());
    assert!(detector.detected_patterns().is_empty());
}

#[test]
fn element_wise_operator_order() {
    let mut detector = SimdPatternDetector::new();
    let op_of = |p: Option<SimdPattern>| match p {
        Some(SimdPattern::ElementWise { op, list1, list2 }) => {
            assert_eq!(list1, "قائمة1");
            assert_eq!(list2, "قائمة2");
            Some(op)
        },
        None => None,
        other => panic!("unexpected {:?}", other),
    };
    assert_eq!(op_of(detector.detect_elementwise_pattern("لكل أ في ل: أ + ب - ج")), Some("Add".to_string()));
    assert_eq!(op_of(detector.detect_elementwise_pattern("لكل أ في ل: أ - ب * ج")), Some("Sub".to_string()));
    assert_eq!(op_of(detector.detect_elementwise_pattern("لكل أ في ل: أ * ب")), Some("Mul".to_string()));
    assert_eq!(op_of(detector.detect_elementwise_pattern("لكل أ في ل: أ * ب */")), None);
    assert_eq!(op_of(detector.detect_elementwise_pattern("لكل أ في ل: أ / ب")), None);
    assert_eq!(op_of(detector.detect_elementwise_pattern("أ + ب")), None);
}

#[test]
fn generated_code_for_each_pattern() {
    let detector = SimdPatternDetector::default();
    let code = |p: SimdPattern| detector.generate_simd_code(&p);
    assert_eq!(code(SimdPattern::SumLoop { loop_var: "س".into(), list_expr: "ل".into() }), "simd.مجموع(ل)");
    assert_eq!(code(SimdPattern::ProductLoop { loop_var: "س".into(), list_expr: "ل".into() }), "simd.ناتج(ل)");
    assert_eq!(
        code(SimdPattern::SumOfSquares { loop_var: "س".into(), list_expr: "ل".into() }),
        "simd.مجموع_مربعات(ل)"
    );
    assert_eq!(
        code(SimdPattern::ElementWise { op: "Add".into(), list1: "أ".into(), list2: "ب".into() }),
        "simd.جمع(أ, ب)"
    );
    assert_eq!(
        code(SimdPattern::ElementWise { op: "Sub".into(), list1: "أ".into(), list2: "ب".into() }),
        "simd.طرح(أ, ب)"
    );
    assert_eq!(
        code(SimdPattern::ElementWise { op: "Mul".into(), list1: "أ".into(), list2: "ب".into() }),
        "simd.ضرب(أ, ب)"
    );
    assert_eq!(
        code(SimdPattern::ElementWise { op: "Div".into(), list1: "أ".into(), list2: "ب".into() }),
        "// لا يمكن تحسينه"
    );
    assert_eq!(
        code(SimdPattern::ScalarOp { op: "Mul".into(), list: "ل".into(), scalar: "2.5".into() }),
        "simd.ضرب_عدد(ل, 2.5)"
    );
}

#[test]
fn simd_ops_compare() {
    assert_eq!(SimdJitOp::AddVec, SimdJitOp::AddVec);
    assert_ne!(SimdJitOp::Sum, SimdJitOp::DotProduct);
}
