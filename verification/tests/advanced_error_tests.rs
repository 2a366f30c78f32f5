use almarjaa::error::advanced_error::{LexerError, ParseError, RuntimeError};
use almarjaa::error::{ErrorCode, SourceLocation};

#[test]
fn test_runtime_error() {
    let error = RuntimeError::new("خطأ في وقت التشغيل").at(SourceLocation::new("test.mrj", 10, 5));
    assert!(error.location.is_some());
    println!("{}", error.to_display_string());
}

#[test]
fn test_lexer_error() {
    let error = LexerError::new("رمز غير معروف", 5, 10);
    assert_eq!(error.location.line, 5);
    assert_eq!(error.location.column, 10);
}

#[test]
fn test_parse_error() {
    let error = ParseError::new("توقع '؛'", 10, 5).with_expected_found("؛", "نهاية السطر");
    assert!(error.expected.is_some());
    assert!(error.found.is_some());
}

#[test]
fn test_error_conversion() {
    let runtime = RuntimeError::new("خطأ").at(SourceLocation::simple(1, 1));
    let marjaa = runtime.into_marjaa_error(ErrorCode::E300);
    assert_eq!(marjaa.code, ErrorCode::E300);
}

#[test]
fn parse_error_converts_with_its_message() {
    let error = ParseError::new("توقع '؛'", 10, 5);
    let marjaa = error.into_marjaa_error();
    assert_eq!(marjaa.message, "توقع '؛'");
    assert_eq!(marjaa.location.map(|l| l.line), Some(10));
}
