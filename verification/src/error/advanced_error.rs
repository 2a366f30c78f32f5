//! Additional error kinds that convert into the complete error type.

use super::helpers::{
    define_variable_example, index_example, index_message, key_example, key_message,
    recursion_message, type_error_message, undefined_variable_message,
};
use super::{
    default_file, has_default_extras, suggestion_is, AlMarjaaError, ErrorCode, SourceLocation,
    StackTrace,
};
use crate::text::{decimal, i64_text, usize_text};
use vstd::prelude::*;

verus! {

/// خطأ وقت التشغيل
#[derive(Debug)]
pub struct RuntimeError {
    /// رسالة الخطأ
    pub message: String,
    /// موقع الخطأ
    pub location: Option<SourceLocation>,
    /// Stack Trace
    pub stack_trace: Option<StackTrace>,
}

impl RuntimeError {
    /// إنشاء خطأ وقت تشغيل جديد
    pub fn new(message: &str) -> (r: Self)
        ensures
            r.message@ == message@,
            r.location is None,
            r.stack_trace is None,
    {
        RuntimeError { message: String::from_str(message), location: None, stack_trace: None }
    }

    /// إضافة موقع
    pub fn at(self, location: SourceLocation) -> (r: Self)
        ensures
            r == (RuntimeError { location: Some(location), ..self }),
    {
        let mut e = self;
        e.location = Some(location);
        e
    }

    /// إضافة Stack Trace
    pub fn with_trace(self, trace: StackTrace) -> (r: Self)
        ensures
            r == (RuntimeError { stack_trace: Some(trace), ..self }),
    {
        let mut e = self;
        e.stack_trace = Some(trace);
        e
    }

    /// تحويل إلى AlMarjaaError
    pub fn into_marjaa_error(self, code: ErrorCode) -> (r: AlMarjaaError)
        ensures
            r.code == code,
            r.message == self.message,
            r.location == self.location,
            match self.stack_trace {
                Some(t) => r.stack_trace == t,
                None => r.stack_trace.frames@.len() == 0 && r.stack_trace.max_depth == 100,
            },
            r.suggestions@.len() == 0,
            r.help is None,
            r.notes@.len() == 0,
            r.code_context@.len() == 0,
    {
        let mut error = AlMarjaaError::from_message(code, self.message);
        match self.location {
            Some(loc) => {
                error = error.at(loc);
            },
            None => {},
        }
        match self.stack_trace {
            Some(trace) => {
                error = error.with_trace(trace);
            },
            None => {},
        }
        error
    }

    /// The display text: the message, then ` (file:line:column)` when the
    /// location is known.
    pub fn to_display_string(&self) -> (r: String)
        ensures
            r@ == self.message@ + match self.location {
                Some(l) => " ("@ + l.spec_location_text() + ")"@,
                None => Seq::<char>::empty(),
            },
    {
        let mut out = self.message.clone();
        match &self.location {
            Some(l) => {
                out.append(" (");
                out.append(l.format_location().as_str());
                out.append(")");
            },
            None => {},
        }
        out
    }
}

/// The display text of lexer and parser errors.
pub open spec fn line_column_text(message: Seq<char>, l: SourceLocation) -> Seq<char> {
    message + " (السطر "@ + decimal(l.line as nat) + "، العمود "@ + decimal(l.column as nat) + ")"@
}

fn line_column_string(message: &String, l: &SourceLocation) -> (r: String)
    ensures
        r@ == line_column_text(message@, *l),
{
    let mut out = message.clone();
    out.append(" (السطر ");
    out.append(usize_text(l.line).as_str());
    out.append("، العمود ");
    out.append(usize_text(l.column).as_str());
    out.append(")");
    out
}

/// خطأ في التحليل اللغوي
#[derive(Debug)]
pub struct LexerError {
    /// رسالة الخطأ
    pub message: String,
    /// موقع الخطأ
    pub location: SourceLocation,
}

impl LexerError {
    /// إنشاء خطأ تحليل لغوي
    pub fn new(message: &str, line: usize, column: usize) -> (r: Self)
        ensures
            r.message@ == message@,
            r.location.file@ == default_file(),
            r.location.line == line,
            r.location.column == column,
            r.location.line_content@.len() == 0,
    {
        LexerError { message: String::from_str(message), location: SourceLocation::simple(line, column) }
    }

    /// إنشاء مع ملف
    pub fn with_file(self, file: &str) -> (r: Self)
        ensures
            r.message == self.message,
            r.location.file@ == file@,
            r.location.line == self.location.line,
            r.location.column == self.location.column,
            r.location.line_content == self.location.line_content,
    {
        let mut e = self;
        e.location.file = String::from_str(file);
        e
    }

    /// تحويل إلى AlMarjaaError
    pub fn into_marjaa_error(self, code: ErrorCode) -> (r: AlMarjaaError)
        ensures
            r.code == code,
            r.message == self.message,
            r.location == Some(self.location),
            r.suggestions@.len() == 0,
            r.help is None,
            has_default_extras(r),
    {
        AlMarjaaError::from_message(code, self.message).at(self.location)
    }

    /// The display text: the message, then its line and column.
    pub fn to_display_string(&self) -> (r: String)
        ensures
            r@ == line_column_text(self.message@, self.location),
    {
        line_column_string(&self.message, &self.location)
    }
}

/// خطأ في التحليل النحوي
#[derive(Debug)]
pub struct ParseError {
    /// رسالة الخطأ
    pub message: String,
    /// موقع الخطأ
    pub location: SourceLocation,
    /// الرمز المتوقع
    pub expected: Option<String>,
    /// الرمز الموجود
    pub found: Option<String>,
}

impl ParseError {
    /// إنشاء خطأ تحليل نحوي
    pub fn new(message: &str, line: usize, column: usize) -> (r: Self)
        ensures
            r.message@ == message@,
            r.location.file@ == default_file(),
            r.location.line == line,
            r.location.column == column,
            r.location.line_content@.len() == 0,
            r.expected is None,
            r.found is None,
    {
        ParseError {
            message: String::from_str(message),
            location: SourceLocation::simple(line, column),
            expected: None,
            found: None,
        }
    }

    /// إضافة المتوقع والموجود
    pub fn with_expected_found(self, expected: &str, found: &str) -> (r: Self)
        ensures
            r.message == self.message,
            r.location == self.location,
            r.expected is Some && r.expected.unwrap()@ == expected@,
            r.found is Some && r.found.unwrap()@ == found@,
    {
        let mut e = self;
        e.expected = Some(String::from_str(expected));
        e.found = Some(String::from_str(found));
        e
    }

    /// تحويل إلى AlMarjaaError
    pub fn into_marjaa_error(self) -> (r: AlMarjaaError)
        ensures
            r.code == ErrorCode::E200,
            r.message == self.message,
            r.location == Some(self.location),
            (self.expected is Some && self.found is Some) ==> r.suggestions@.len() == 1
                && suggestion_is(
                r.suggestions@[0],
                "أضف '"@ + self.expected.unwrap()@ + "' في الموضع المناسب"@,
                Some(self.expected.unwrap()@),
            ),
            !(self.expected is Some && self.found is Some) ==> r.suggestions@.len() == 0,
            r.help is None,
            has_default_extras(r),
    {
        let error = AlMarjaaError::from_message(ErrorCode::E200, self.message).at(self.location);
        match (self.expected, self.found) {
            (Some(expected), Some(_found)) => {
                let mut hint = String::from_str("أضف '");
                hint.append(expected.as_str());
                hint.append("' في الموضع المناسب");
                error.suggest_with_code(hint.as_str(), expected.as_str())
            },
            _ => error,
        }
    }

    /// The display text: the message, then its line and column.
    pub fn to_display_string(&self) -> (r: String)
        ensures
            r@ == line_column_text(self.message@, self.location),
    {
        line_column_string(&self.message, &self.location)
    }
}

/// The location `(line, column)` in the default file, with no line text.
pub open spec fn at_simple_location(l: Option<SourceLocation>, line: usize, column: usize) -> bool {
    &&& l is Some
    &&& l.unwrap().file@ == default_file()
    &&& l.unwrap().line == line
    &&& l.unwrap().column == column
    &&& l.unwrap().line_content@.len() == 0
    &&& l.unwrap().start_offset == 0
    &&& l.unwrap().end_offset == 0
}

/// إنشاء خطأ متغير غير معرف
pub fn undefined_variable_error(name: &str, line: usize, column: usize) -> (r: AlMarjaaError)
    ensures
        r.code == ErrorCode::E300,
        r.message@ == undefined_variable_message(name@),
        at_simple_location(r.location, line, column),
        r.suggestions@.len() == 2,
        suggestion_is(r.suggestions@[0], "هل تقصد تعريف المتغير؟"@, Some(define_variable_example(name@))),
        suggestion_is(r.suggestions@[1], "تحقق من كتابة الاسم بشكل صحيح"@, None),
        r.help is Some && r.help.unwrap()@ == "يجب تعريف المتغير قبل استخدامه"@,
        has_default_extras(r),
{
    super::helpers::undefined_variable(name, SourceLocation::simple(line, column))
}

/// إنشاء خطأ نوع
pub fn type_error_error(expected: &str, got: &str, line: usize, column: usize) -> (r: AlMarjaaError)
    ensures
        r.code == ErrorCode::E301,
        r.message@ == type_error_message(expected@, got@),
        at_simple_location(r.location, line, column),
        r.suggestions@.len() == 0,
        r.help is Some && r.help.unwrap()@ == "تأكد من أن القيمة من النوع الصحيح قبل استخدامها"@,
        has_default_extras(r),
{
    super::helpers::type_error(expected, got, SourceLocation::simple(line, column))
}

/// إنشاء خطأ قسمة على صفر
pub fn division_by_zero_error(line: usize, column: usize) -> (r: AlMarjaaError)
    ensures
        r.code == ErrorCode::E302,
        r.message@ == "لا يمكن القسمة على صفر"@,
        at_simple_location(r.location, line, column),
        r.suggestions@.len() == 1,
        suggestion_is(
            r.suggestions@[0],
            "أضف شرطاً للتحقق"@,
            Some("إذا مقسوم_عليه != 0: نتيجة = مقسوم / مقسوم_عليه"@),
        ),
        r.help is Some && r.help.unwrap()@ == "تحقق من أن المقسوم عليه ليس صفراً قبل إجراء القسمة"@,
        has_default_extras(r),
{
    super::helpers::division_by_zero(SourceLocation::simple(line, column))
}

/// إنشاء خطأ فهرس خارج النطاق
pub fn index_error(index: i64, length: usize, line: usize, column: usize) -> (r: AlMarjaaError)
    ensures
        r.code == ErrorCode::E303,
        r.message@ == index_message(index, length),
        at_simple_location(r.location, line, column),
        r.suggestions@.len() == 1,
        suggestion_is(r.suggestions@[0], "استخدم فهرساً صالحاً"@, Some(index_example(length))),
        r.help is Some && r.help.unwrap()@ == "الفهارس تبدأ من 0 وتنتهي عند الطول - 1"@,
        has_default_extras(r),
{
    super::helpers::index_out_of_bounds(index, length, SourceLocation::simple(line, column))
}

/// إنشاء خطأ مفتاح غير موجود
pub fn key_error(key: &str, line: usize, column: usize) -> (r: AlMarjaaError)
    ensures
        r.code == ErrorCode::E306,
        r.message@ == key_message(key@),
        at_simple_location(r.location, line, column),
        r.suggestions@.len() == 1,
        suggestion_is(r.suggestions@[0], "تحقق من وجود المفتاح أولاً"@, Some(key_example(key@))),
        r.help is Some && r.help.unwrap()@ == "يمكنك استخدام دالة 'يحتوي' للتحقق من وجود المفتاح"@,
        has_default_extras(r),
{
    super::helpers::key_not_found(key, SourceLocation::simple(line, column))
}

/// إنشاء خطأ عودية عميقة
pub fn recursion_error(max_depth: usize, line: usize, column: usize) -> (r: AlMarjaaError)
    ensures
        r.code == ErrorCode::E308,
        r.message@ == recursion_message(max_depth),
        at_simple_location(r.location, line, column),
        r.suggestions@.len() == 1,
        suggestion_is(r.suggestions@[0], "حول العودية إلى حلقة تكرارية"@, None),
        r.help is Some && r.help.unwrap()@ == "العودية العميقة قد تسبب استنفاد الذاكرة"@,
        has_default_extras(r),
{
    super::helpers::recursion_limit_exceeded(max_depth, SourceLocation::simple(line, column))
}

/// إنشاء خطأ تأكيد
pub fn assertion_error(message: &str, line: usize, column: usize) -> (r: AlMarjaaError)
    ensures
        r.code == ErrorCode::E500,
        r.message@ == "فشل التأكيد: "@ + message@,
        at_simple_location(r.location, line, column),
        r.suggestions@.len() == 0,
        r.help is Some && r.help.unwrap()@ == "التأكيد يفشل عندما يكون الشرط خطأ"@,
        has_default_extras(r),
{
    super::helpers::assertion_failed(message, SourceLocation::simple(line, column))
}

} // verus!
