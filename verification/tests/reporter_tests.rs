use almarjaa::error::reporter::{
    division_by_zero, index_out_of_bounds, undefined_variable, ErrorKind, ErrorReporter, MarjaaError,
    SourceLocation, StackFrame, StackTrace,
};

#[test]
fn reporter_test_error_creation() {
    let error = MarjaaError::new(ErrorKind::UndefinedVariable, "المتغير 'س' غير معرف")
        .at(SourceLocation::new("test.mrj", 10, 5).with_content("متغير س = 10"))
        .suggest_simple("تحقق من كتابة الاسم")
        .with_help("يجب تعريف المتغير قبل استخدامه");
    assert!(error.location.is_some());
    assert_eq!(error.suggestions.len(), 1);
    assert!(error.help.is_some());
    println!("{}", error.format_colored());
}

#[test]
fn reporter_test_stack_trace() {
    let mut trace = StackTrace::new();
    trace.push(StackFrame::new(
        "الدالة_الرئيسية",
        SourceLocation::new("program.mrj", 10, 5).with_content("نتيجة = حساب(5)"),
    ));
    trace.push(StackFrame::new(
        "حساب",
        SourceLocation::new("program.mrj", 25, 3).with_content("أرجع س / 0"),
    ));
    assert_eq!(trace.depth(), 2);
    println!("{}", trace.format_arabic());
}

#[test]
fn reporter_test_error_reporter() {
    let mut reporter = ErrorReporter::new();
    reporter.error(MarjaaError::new(ErrorKind::UndefinedVariable, "المتغير 'س' غير معرف").at(SourceLocation::new("test.mrj", 5, 1)));
    reporter.warning(MarjaaError::new(ErrorKind::Generic, "متغير غير مستخدم").at(SourceLocation::new("test.mrj", 3, 1)));
    assert_eq!(reporter.error_count(), 1);
    assert_eq!(reporter.warning_count(), 1);
    println!("{}", reporter.report());
}

#[test]
fn reporter_test_helper_functions() {
    let error = undefined_variable("متغير_غير_موجود", SourceLocation::new("test.mrj", 10, 5));
    assert_eq!(error.kind, ErrorKind::UndefinedVariable);
    let error = division_by_zero(SourceLocation::new("test.mrj", 15, 10));
    assert_eq!(error.kind, ErrorKind::DivisionByZero);
    let error = index_out_of_bounds(10, 5, SourceLocation::new("test.mrj", 20, 3));
    assert!(error.message.contains("10"));
}

#[test]
fn plain_format_mentions_code_and_message() {
    let error = MarjaaError::new(ErrorKind::DivisionByZero, "قسمة على صفر").at(SourceLocation::new("a.mrj", 2, 4));
    let text = error.format_plain();
    assert!(text.contains(ErrorKind::DivisionByZero.code()));
    assert!(text.contains("قسمة على صفر"));
}
