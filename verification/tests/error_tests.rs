use almarjaa::error::helpers;
use almarjaa::error::{AlMarjaaError, ErrorCode, ErrorManager, ErrorReporter, StackFrame, StackTrace, SourceLocation};

#[test]
fn mod_test_error_creation() {
    let error = AlMarjaaError::new(ErrorCode::E300, "المتغير 'س' غير معرف")
        .at(SourceLocation::new("test.mrj", 10, 5).with_content("متغير س = 10"))
        .suggest_simple("تحقق من كتابة الاسم")
        .with_help("يجب تعريف المتغير قبل استخدامه");
    assert!(error.location.is_some());
    assert_eq!(error.suggestions.len(), 1);
    assert!(error.help.is_some());
    println!("{}", error.format_colored());
}

#[test]
fn mod_test_stack_trace() {
    let mut trace = StackTrace::new();
    trace.push(StackFrame::new(
        "الدالة_الرئيسية",
        SourceLocation::new("program.mrj", 10, 5).with_content("نتيجة = حساب(5)"),
    ));
    trace.push(StackFrame::new(
        "حساب",
        SourceLocation::new("program.mrj", 25, 3).with_content("أرجع س / 0"),
    ));
    assert_eq!(trace.depth(), 2);
    println!("{}", trace.format_arabic());
}

#[test]
fn mod_test_error_reporter() {
    let mut reporter = ErrorReporter::new();
    reporter.error(AlMarjaaError::new(ErrorCode::E300, "المتغير 'س' غير معرف").at(SourceLocation::new("test.mrj", 5, 1)));
    reporter.warning(AlMarjaaError::new(ErrorCode::E999, "متغير غير مستخدم").at(SourceLocation::new("test.mrj", 3, 1)));
    assert_eq!(reporter.error_count(), 1);
    assert_eq!(reporter.warning_count(), 1);
    println!("{}", reporter.report());
}

#[test]
fn mod_test_helper_functions() {
    let error = helpers::undefined_variable("متغير_غير_موجود", SourceLocation::new("test.mrj", 10, 5));
    assert_eq!(error.code, ErrorCode::E300);
    let error = helpers::division_by_zero(SourceLocation::new("test.mrj", 15, 10));
    assert_eq!(error.code, ErrorCode::E302);
    let error = helpers::index_out_of_bounds(10, 5, SourceLocation::new("test.mrj", 20, 3));
    assert!(error.message.contains("10"));
}

#[test]
fn test_error_manager() {
    let mut manager = ErrorManager::new();
    manager.set_file("test.mrj");
    manager.set_source("متغير س = 10\nاطبع(ص)");
    let location = manager.create_location(2, 8);
    assert_eq!(location.line, 2);
    assert_eq!(location.line_content, "اطبع(ص)");
    manager.push_frame(StackFrame::simple("الدالة_الرئيسية", 2, 1));
    let error = helpers::undefined_variable("ص", location);
    manager.report_error(error);
    assert!(manager.has_errors());
    println!("{}", manager.get_report());
}

#[test]
fn test_error_codes() {
    assert_eq!(ErrorCode::E300.code(), "E300");
    assert_eq!(ErrorCode::E300.arabic_message(), "متغير غير معرف");
    assert_eq!(ErrorCode::E302.code(), "E302");
    assert_eq!(ErrorCode::E302.arabic_message(), "القسمة على صفر");
}

#[test]
fn stack_trace_keeps_most_recent_frames() {
    let mut trace = StackTrace::with_max_depth(2);
    trace.push(StackFrame::simple("a", 1, 1));
    trace.push(StackFrame::simple("b", 2, 1));
    trace.push(StackFrame::simple("c", 3, 1));
    assert_eq!(trace.depth(), 2);
    assert_eq!(trace.pop().map(|f| f.function_name), Some("c".to_string()));
    assert_eq!(trace.pop().map(|f| f.function_name), Some("b".to_string()));
    assert!(trace.is_empty());
}

#[test]
fn missing_line_gives_empty_content() {
    let mut manager = ErrorManager::new();
    manager.set_source("سطر واحد");
    assert_eq!(manager.get_line(1), Some("سطر واحد".to_string()));
    assert_eq!(manager.get_line(2), None);
    assert_eq!(manager.create_location(5, 1).line_content, "");
}

#[test]
fn reporter_limit_and_clear() {
    let mut reporter = ErrorReporter::new().with_max_errors(1);
    reporter.error(AlMarjaaError::new(ErrorCode::E300, "أ"));
    assert!(reporter.has_exceeded_limit());
    reporter.clear();
    assert!(!reporter.has_errors());
}

#[test]
fn location_text() {
    let loc = SourceLocation::new("f.mrj", 3, 7);
    assert_eq!(loc.format_location(), "f.mrj:3:7");
}

#[test]
fn colored_error_shows_its_parts() {
    let mut trace = StackTrace::new();
    trace.push(StackFrame::new("حساب", SourceLocation::new("program.mrj", 25, 3)));
    let error = AlMarjaaError::new(ErrorCode::E300, "المتغير 'س' غير معرف")
        .at(SourceLocation::new("test.mrj", 10, 5))
        .with_trace(trace)
        .suggest_simple("تحقق من كتابة الاسم")
        .with_help("يجب تعريف المتغير")
        .note("ملاحظة أولى");
    let out = error.format_colored();
    for part in ["E300", "المتغير 'س' غير معرف", "تحقق من كتابة الاسم", "يجب تعريف المتغير", "ملاحظة أولى", "📍 الموقع:", "test.mrj", "📚 تتبع المكالمة"] {
        assert!(out.contains(part), "missing {}", part);
    }
}

#[test]
fn arabic_trace_shows_frames() {
    assert!(StackTrace::new().format_arabic().contains("(لا توجد معلومات تتبع)"));
    let mut trace = StackTrace::new();
    trace.push(StackFrame::new("الدالة_الرئيسية", SourceLocation::new("program.mrj", 10, 5)));
    trace.push(StackFrame::new("طباعة", SourceLocation::new("builtin.mrj", 1, 1)).native());
    let out = trace.format_arabic();
    for part in ["الدالة_الرئيسية", "program.mrj", "طباعة", "(دالة أصلية)"] {
        assert!(out.contains(part), "missing {}", part);
    }
}
