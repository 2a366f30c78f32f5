//! Constructors for the common errors, each with its code, message,
//! suggestions and help.

use super::{
    has_default_extras, suggestion_is, AlMarjaaError, ErrorCode, SourceLocation, Span,
};
use crate::text::{char_text, decimal, i64_text, int_text, usize_text};
use vstd::prelude::*;

verus! {

/// The message of an undefined variable.
pub open spec fn undefined_variable_message(name: Seq<char>) -> Seq<char> {
    "المتغير '"@ + name + "' غير معرف"@
}

/// The example of how to define a variable.
pub open spec fn define_variable_example(name: Seq<char>) -> Seq<char> {
    "متغير "@ + name + " = قيمة"@
}

/// خطأ متغير غير معرف
pub fn undefined_variable(name: &str, location: SourceLocation) -> (r: AlMarjaaError)
    ensures
        r.code == ErrorCode::E300,
        r.message@ == undefined_variable_message(name@),
        r.location == Some(location),
        r.suggestions@.len() == 2,
        suggestion_is(r.suggestions@[0], "هل تقصد تعريف المتغير؟"@, Some(define_variable_example(name@))),
        suggestion_is(r.suggestions@[1], "تحقق من كتابة الاسم بشكل صحيح"@, None),
        r.help is Some && r.help.unwrap()@ == "يجب تعريف المتغير قبل استخدامه"@,
        has_default_extras(r),
{
    let mut message = String::from_str("المتغير '");
    message.append(name);
    message.append("' غير معرف");
    let mut example = String::from_str("متغير ");
    example.append(name);
    example.append(" = قيمة");
    AlMarjaaError::from_message(ErrorCode::E300, message)
        .at(location)
        .suggest_with_code("هل تقصد تعريف المتغير؟", example.as_str())
        .suggest_simple("تحقق من كتابة الاسم بشكل صحيح")
        .with_help("يجب تعريف المتغير قبل استخدامه")
}

/// The message of a type mismatch.
pub open spec fn type_error_message(expected: Seq<char>, got: Seq<char>) -> Seq<char> {
    "متوقع نوع '"@ + expected + "'، لكن وجد '"@ + got + "'"@
}

/// خطأ نوع
pub fn type_error(expected: &str, got: &str, location: SourceLocation) -> (r: AlMarjaaError)
    ensures
        r.code == ErrorCode::E301,
        r.message@ == type_error_message(expected@, got@),
        r.location == Some(location),
        r.suggestions@.len() == 0,
        r.help is Some && r.help.unwrap()@ == "تأكد من أن القيمة من النوع الصحيح قبل استخدامها"@,
        has_default_extras(r),
{
    let mut message = String::from_str("متوقع نوع '");
    message.append(expected);
    message.append("'، لكن وجد '");
    message.append(got);
    message.append("'");
    AlMarjaaError::from_message(ErrorCode::E301, message)
        .at(location)
        .with_help("تأكد من أن القيمة من النوع الصحيح قبل استخدامها")
}

/// خطأ قسمة على صفر
pub fn division_by_zero(location: SourceLocation) -> (r: AlMarjaaError)
    ensures
        r.code == ErrorCode::E302,
        r.message@ == "لا يمكن القسمة على صفر"@,
        r.location == Some(location),
        r.suggestions@.len() == 1,
        suggestion_is(
            r.suggestions@[0],
            "أضف شرطاً للتحقق"@,
            Some("إذا مقسوم_عليه != 0: نتيجة = مقسوم / مقسوم_عليه"@),
        ),
        r.help is Some && r.help.unwrap()@ == "تحقق من أن المقسوم عليه ليس صفراً قبل إجراء القسمة"@,
        has_default_extras(r),
{
    AlMarjaaError::new(ErrorCode::E302, "لا يمكن القسمة على صفر")
        .at(location)
        .with_help("تحقق من أن المقسوم عليه ليس صفراً قبل إجراء القسمة")
        .suggest_with_code("أضف شرطاً للتحقق", "إذا مقسوم_عليه != 0: نتيجة = مقسوم / مقسوم_عليه")
}

/// The largest valid index of a sequence of the given length, or 0.
pub open spec fn last_index(length: usize) -> nat {
    if length > 0 { (length - 1) as nat } else { 0 }
}

/// The message of an index out of bounds.
pub open spec fn index_message(index: i64, length: usize) -> Seq<char> {
    "الفهرس "@ + int_text(index as int) + " خارج النطاق [0.."@ + decimal(last_index(length)) + "]"@
}

/// The example of a valid index range.
pub open spec fn index_example(length: usize) -> Seq<char> {
    "استخدم فهرساً بين 0 و "@ + decimal(last_index(length))
}

/// خطأ فهرس خارج النطاق
pub fn index_out_of_bounds(index: i64, length: usize, location: SourceLocation) -> (r: AlMarjaaError)
    ensures
        r.code == ErrorCode::E303,
        r.message@ == index_message(index, length),
        r.location == Some(location),
        r.suggestions@.len() == 1,
        suggestion_is(r.suggestions@[0], "استخدم فهرساً صالحاً"@, Some(index_example(length))),
        r.help is Some && r.help.unwrap()@ == "الفهارس تبدأ من 0 وتنتهي عند الطول - 1"@,
        has_default_extras(r),
{
    let last = if length > 0 { length - 1 } else { 0 };
    let mut message = String::from_str("الفهرس ");
    message.append(i64_text(index).as_str());
    message.append(" خارج النطاق [0..");
    message.append(usize_text(last).as_str());
    message.append("]");
    let mut example = String::from_str("استخدم فهرساً بين 0 و ");
    example.append(usize_text(last).as_str());
    AlMarjaaError::from_message(ErrorCode::E303, message)
        .at(location)
        .suggest_with_code("استخدم فهرساً صالحاً", example.as_str())
        .with_help("الفهارس تبدأ من 0 وتنتهي عند الطول - 1")
}

/// The message of a missing dictionary key.
pub open spec fn key_message(key: Seq<char>) -> Seq<char> {
    "المفتاح '"@ + key + "' غير موجود في القاموس"@
}

/// The example of guarding a dictionary lookup.
pub open spec fn key_example(key: Seq<char>) -> Seq<char> {
    "إذا \""@ + key + "\" في قاموس: قيمة = قاموس[\""@ + key + "\"]"@
}

/// خطأ مفتاح غير موجود
pub fn key_not_found(key: &str, location: SourceLocation) -> (r: AlMarjaaError)
    ensures
        r.code == ErrorCode::E306,
        r.message@ == key_message(key@),
        r.location == Some(location),
        r.suggestions@.len() == 1,
        suggestion_is(r.suggestions@[0], "تحقق من وجود المفتاح أولاً"@, Some(key_example(key@))),
        r.help is Some && r.help.unwrap()@ == "يمكنك استخدام دالة 'يحتوي' للتحقق من وجود المفتاح"@,
        has_default_extras(r),
{
    let mut message = String::from_str("المفتاح '");
    message.append(key);
    message.append("' غير موجود في القاموس");
    let mut example = String::from_str("إذا \"");
    example.append(key);
    example.append("\" في قاموس: قيمة = قاموس[\"");
    example.append(key);
    example.append("\"]");
    AlMarjaaError::from_message(ErrorCode::E306, message)
        .at(location)
        .suggest_with_code("تحقق من وجود المفتاح أولاً", example.as_str())
        .with_help("يمكنك استخدام دالة 'يحتوي' للتحقق من وجود المفتاح")
}

/// The message of a recursion that went too deep.
pub open spec fn recursion_message(limit: usize) -> Seq<char> {
    "تجاوز الحد الأقصى لعمق العودية ("@ + decimal(limit as nat) + ")"@
}

/// خطأ عودية عميقة
pub fn recursion_limit_exceeded(limit: usize, location: SourceLocation) -> (r: AlMarjaaError)
    ensures
        r.code == ErrorCode::E308,
        r.message@ == recursion_message(limit),
        r.location == Some(location),
        r.suggestions@.len() == 1,
        suggestion_is(r.suggestions@[0], "حول العودية إلى حلقة تكرارية"@, None),
        r.help is Some && r.help.unwrap()@ == "العودية العميقة قد تسبب استنفاد الذاكرة"@,
        has_default_extras(r),
{
    let mut message = String::from_str("تجاوز الحد الأقصى لعمق العودية (");
    message.append(usize_text(limit).as_str());
    message.append(")");
    AlMarjaaError::from_message(ErrorCode::E308, message)
        .at(location)
        .suggest_simple("حول العودية إلى حلقة تكرارية")
        .with_help("العودية العميقة قد تسبب استنفاد الذاكرة")
}

/// خطأ نحوي
pub fn syntax_error(message: &str, location: SourceLocation) -> (r: AlMarjaaError)
    ensures
        r.code == ErrorCode::E200,
        r.message@ == message@,
        r.location == Some(location),
        r.suggestions@.len() == 0,
        r.help is None,
        has_default_extras(r),
{
    AlMarjaaError::new(ErrorCode::E200, message).at(location)
}

/// The message of an unexpected token.
pub open spec fn unexpected_message(found: Seq<char>, expected: Seq<char>) -> Seq<char> {
    "وجد '"@ + found + "' بينما المتوقع '"@ + expected + "'"@
}

/// The suggestion to add the expected token.
pub open spec fn add_token_message(expected: Seq<char>) -> Seq<char> {
    "أضف '"@ + expected + "' في الموضع المناسب"@
}

/// خطأ رمز غير متوقع مع موقع
pub fn unexpected_token_at_location(found: &str, expected: &str, location: SourceLocation) -> (r:
    AlMarjaaError)
    ensures
        r.code == ErrorCode::E200,
        r.message@ == unexpected_message(found@, expected@),
        r.location == Some(location),
        r.suggestions@.len() == 1,
        suggestion_is(r.suggestions@[0], add_token_message(expected@), Some(expected@)),
        r.help is None,
        has_default_extras(r),
{
    let mut message = String::from_str("وجد '");
    message.append(found);
    message.append("' بينما المتوقع '");
    message.append(expected);
    message.append("'");
    let mut hint = String::from_str("أضف '");
    hint.append(expected);
    hint.append("' في الموضع المناسب");
    AlMarjaaError::from_message(ErrorCode::E200, message)
        .at(location)
        .suggest_with_code(hint.as_str(), expected)
}

/// خطأ رمز غير متوقع
pub fn unexpected_token(found: &str, expected: &str, span: Span) -> (r: AlMarjaaError)
    ensures
        r.code == ErrorCode::E200,
        r.message@ == unexpected_message(found@, expected@),
        r.location is Some,
        r.location.unwrap().file@ == super::default_file(),
        r.location.unwrap().line == span.start.line,
        r.location.unwrap().column == span.start.column,
        r.location.unwrap().line_content@.len() == 0,
        r.suggestions@.len() == 1,
        suggestion_is(r.suggestions@[0], add_token_message(expected@), Some(expected@)),
        r.help is None,
        has_default_extras(r),
{
    unexpected_token_at_location(found, expected, SourceLocation::simple(span.start.line, span.start.column))
}

/// خطأ توقع رمز (alias للتوافق)
pub fn expected_token(expected: &str, found: &str, span: Span) -> (r: AlMarjaaError)
    ensures
        r.code == ErrorCode::E200,
        r.message@ == unexpected_message(found@, expected@),
        r.location is Some,
        r.location.unwrap().file@ == super::default_file(),
        r.location.unwrap().line == span.start.line,
        r.location.unwrap().column == span.start.column,
        r.location.unwrap().line_content@.len() == 0,
        r.suggestions@.len() == 1,
        suggestion_is(r.suggestions@[0], add_token_message(expected@), Some(expected@)),
        r.help is None,
        has_default_extras(r),
{
    unexpected_token(found, expected, span)
}

/// خطأ توقع رمز (alias للتوافق)
pub fn expected_token_at_location(expected: &str, found: &str, location: SourceLocation) -> (r:
    AlMarjaaError)
    ensures
        r.code == ErrorCode::E200,
        r.message@ == unexpected_message(found@, expected@),
        r.location == Some(location),
        r.suggestions@.len() == 1,
        suggestion_is(r.suggestions@[0], add_token_message(expected@), Some(expected@)),
        r.help is None,
        has_default_extras(r),
{
    unexpected_token_at_location(found, expected, location)
}

/// The message of a missing file.
pub open spec fn file_message(path: Seq<char>) -> Seq<char> {
    "الملف '"@ + path + "' غير موجود"@
}

/// خطأ ملف غير موجود
pub fn file_not_found(path: &str, location: SourceLocation) -> (r: AlMarjaaError)
    ensures
        r.code == ErrorCode::E401,
        r.message@ == file_message(path@),
        r.location == Some(location),
        r.suggestions@.len() == 2,
        suggestion_is(r.suggestions@[0], "تحقق من مسار الملف"@, None),
        suggestion_is(r.suggestions@[1], "تأكد من أن الملف موجود في المجلد الصحيح"@, None),
        r.help is None,
        has_default_extras(r),
{
    let mut message = String::from_str("الملف '");
    message.append(path);
    message.append("' غير موجود");
    AlMarjaaError::from_message(ErrorCode::E401, message)
        .at(location)
        .suggest_simple("تحقق من مسار الملف")
        .suggest_simple("تأكد من أن الملف موجود في المجلد الصحيح")
}

/// خطأ تأكيد
pub fn assertion_failed(message: &str, location: SourceLocation) -> (r: AlMarjaaError)
    ensures
        r.code == ErrorCode::E500,
        r.message@ == "فشل التأكيد: "@ + message@,
        r.location == Some(location),
        r.suggestions@.len() == 0,
        r.help is Some && r.help.unwrap()@ == "التأكيد يفشل عندما يكون الشرط خطأ"@,
        has_default_extras(r),
{
    let mut text = String::from_str("فشل التأكيد: ");
    text.append(message);
    AlMarjaaError::from_message(ErrorCode::E500, text)
        .at(location)
        .with_help("التأكيد يفشل عندما يكون الشرط خطأ")
}

/// خطأ نص غير مغلق
pub fn unclosed_string(line: usize, location: SourceLocation) -> (r: AlMarjaaError)
    ensures
        r.code == ErrorCode::E101,
        r.message@ == "نص غير مغلق في السطر "@ + decimal(line as nat),
        r.location == Some(location),
        r.suggestions@.len() == 1,
        suggestion_is(r.suggestions@[0], "أضف علامة الاقتباس المغلقة '\"' أو '\\''"@, None),
        r.help is Some && r.help.unwrap()@ == "النصوص يجب أن تبدأ وتنتهي بنفس نوع علامة الاقتباس"@,
        has_default_extras(r),
{
    let mut message = String::from_str("نص غير مغلق في السطر ");
    message.append(usize_text(line).as_str());
    AlMarjaaError::from_message(ErrorCode::E101, message)
        .at(location)
        .suggest_simple("أضف علامة الاقتباس المغلقة '\"' أو '\\''")
        .with_help("النصوص يجب أن تبدأ وتنتهي بنفس نوع علامة الاقتباس")
}

/// خطأ تعليق غير مغلق
pub fn unclosed_comment(location: SourceLocation) -> (r: AlMarjaaError)
    ensures
        r.code == ErrorCode::E102,
        r.message@ == "تعليق متعدد الأسطر غير مغلق"@,
        r.location == Some(location),
        r.suggestions@.len() == 1,
        suggestion_is(r.suggestions@[0], "أضف '*/' لإغلاق التعليق"@, None),
        r.help is None,
        has_default_extras(r),
{
    AlMarjaaError::new(ErrorCode::E102, "تعليق متعدد الأسطر غير مغلق")
        .at(location)
        .suggest_simple("أضف '*/' لإغلاق التعليق")
}

/// خطأ رمز غير معروف
pub fn unknown_char(ch: char, location: SourceLocation) -> (r: AlMarjaaError)
    ensures
        r.code == ErrorCode::E100,
        r.message@ == "رمز غير معروف: '"@ + seq![ch] + "'"@,
        r.location == Some(location),
        r.suggestions@.len() == 0,
        r.help is Some && r.help.unwrap()@ == "تأكد من أن الرمز مدعوم في اللغة"@,
        has_default_extras(r),
{
    let mut message = String::from_str("رمز غير معروف: '");
    message.append(char_text(ch).as_str());
    message.append("'");
    AlMarjaaError::from_message(ErrorCode::E100, message)
        .at(location)
        .with_help("تأكد من أن الرمز مدعوم في اللغة")
}

} // verus!
