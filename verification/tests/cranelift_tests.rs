use almarjaa::cranelift::compiler::{CompilationResult, CompilerOptions, OptimizationLevel};
use almarjaa::cranelift::compile_report;
use almarjaa::cranelift::types::{MachineType, MarjaaType, TypeSystem};

#[test]
fn test_options_default() {
    let options = CompilerOptions::default();
    assert_eq!(options.output_file, "a.out");
}

#[test]
fn test_type_system_creation() {
    let type_system = TypeSystem::new();
    assert_eq!(type_system.type_to_string(&MarjaaType::Number), "رقم");
}

#[test]
fn test_type_parsing() {
    let type_system = TypeSystem::new();
    assert_eq!(type_system.parse_type("رقم"), MarjaaType::Number);
    assert_eq!(type_system.parse_type("نص"), MarjaaType::String);
    assert_eq!(type_system.parse_type("منطقي"), MarjaaType::Boolean);
}

#[test]
fn test_type_compatibility() {
    let type_system = TypeSystem::new();
    assert!(type_system.are_types_compatible(&MarjaaType::Number, &MarjaaType::Number));
    assert!(type_system.are_types_compatible(&MarjaaType::Any, &MarjaaType::Number));
    assert!(!type_system.are_types_compatible(&MarjaaType::Number, &MarjaaType::String));
}

#[test]
fn machine_types_and_sizes() {
    let ts = TypeSystem::new();
    assert_eq!(ts.get_cranelift_type(&MarjaaType::Number), MachineType::F64);
    assert_eq!(ts.get_cranelift_type(&MarjaaType::Boolean), MachineType::I8);
    assert_eq!(MarjaaType::Boolean.size(), 1);
    assert_eq!(MarjaaType::List(Box::new(MarjaaType::Number)).size(), 24);
}

#[test]
fn simple_type_text_round_trips() {
    let ts = TypeSystem::new();
    for t in [MarjaaType::Number, MarjaaType::String, MarjaaType::Boolean, MarjaaType::Null, MarjaaType::Any] {
        let text = ts.type_to_string(&t);
        assert_eq!(ts.parse_type(&text), t);
    }
    assert_eq!(ts.type_to_string(&MarjaaType::List(Box::new(MarjaaType::Number))), "قائمة[رقم]");
    assert_eq!(ts.parse_type("  شيء  "), MarjaaType::Custom("شيء".to_string()));
}

#[test]
fn optimisation_levels() {
    assert_eq!(OptimizationLevel::Speed.to_settings(), "speed");
}

#[test]
fn compile_report_merges_outcome() {
    let ok = CompilationResult { success: true, errors: vec![], warnings: vec!["w".to_string()] };
    let r = compile_report(Ok(ok), 7);
    assert!(r.success);
    assert_eq!(r.warnings, vec!["w".to_string()]);
    assert_eq!(r.compile_time_ms, 7);
    assert_eq!(r.output_size, None);
    let bad = CompilationResult { success: false, errors: vec!["e".to_string()], warnings: vec![] };
    assert!(!compile_report(Ok(bad), 1).success);
    let failed = compile_report(Err("لا مترجم".to_string()), 2);
    assert!(!failed.success);
    assert_eq!(failed.errors, vec!["لا مترجم".to_string()]);
    assert!(failed.warnings.is_empty());
}
