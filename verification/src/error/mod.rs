//! Diagnostics: error codes, source locations, call-stack traces, fix
//! suggestions, complete errors with their renderings, and the collectors
//! that gather them.

pub mod advanced_error;
pub mod helpers;
pub mod reporter;

use crate::style::{doc_view, no_escape, render, renders, seg, seg_owned, Styled, Tone};
use crate::text::{
    decimal, has_substring, join, lines_of, repeat, repeat_str, seq_join, split_lines, trim, trimmed, usize_text,
    views,
};
use std::collections::VecDeque;
use vstd::prelude::*;

verus! {

/// How serious a diagnostic is.
#[derive(Debug, Clone, Copy, PartialEq, Eq, Structural)]
pub enum Severity {
    /// Does not stop execution.
    Warning,
    /// Stops execution.
    Error,
    /// Requires an immediate stop.
    Critical,
}

impl Severity {
    /// The Arabic name of a severity.
    pub open spec fn spec_arabic_name(self) -> Seq<char> {
        match self {
            Severity::Warning => "تحذير"@,
            Severity::Error => "خطأ"@,
            Severity::Critical => "خطأ حرج"@,
        }
    }

    /// The icon of a severity.
    pub open spec fn spec_icon(self) -> Seq<char> {
        match self {
            Severity::Warning => "⚠️"@,
            Severity::Error => "❌"@,
            Severity::Critical => "🔥"@,
        }
    }

    /// الاسم بالعربية
    pub fn arabic_name(&self) -> (r: &'static str)
        ensures
            r@ == self.spec_arabic_name(),
    {
        match self {
            Severity::Warning => "تحذير",
            Severity::Error => "خطأ",
            Severity::Critical => "خطأ حرج",
        }
    }

    /// الأيقونة المناسبة
    pub fn icon(&self) -> (r: &'static str)
        ensures
            r@ == self.spec_icon(),
    {
        match self {
            Severity::Warning => "⚠️",
            Severity::Error => "❌",
            Severity::Critical => "🔥",
        }
    }
}

/// An error kind with a unique code and a default Arabic message.
#[derive(Debug, Clone, Copy, PartialEq, Eq, Structural)]
pub enum ErrorCode {
    E100,
    E101,
    E102,
    E103,
    E104,
    E200,
    E201,
    E202,
    E203,
    E204,
    E205,
    E300,
    E301,
    E302,
    E303,
    E304,
    E305,
    E306,
    E307,
    E308,
    E309,
    E400,
    E401,
    E402,
    E403,
    E404,
    E500,
    E501,
    E999,
}

impl ErrorCode {
    /// The code's text, such as `E300`.
    pub open spec fn spec_code(self) -> Seq<char> {
        match self {
            ErrorCode::E100 => "E100"@,
            ErrorCode::E101 => "E101"@,
            ErrorCode::E102 => "E102"@,
            ErrorCode::E103 => "E103"@,
            ErrorCode::E104 => "E104"@,
            ErrorCode::E200 => "E200"@,
            ErrorCode::E201 => "E201"@,
            ErrorCode::E202 => "E202"@,
            ErrorCode::E203 => "E203"@,
            ErrorCode::E204 => "E204"@,
            ErrorCode::E205 => "E205"@,
            ErrorCode::E300 => "E300"@,
            ErrorCode::E301 => "E301"@,
            ErrorCode::E302 => "E302"@,
            ErrorCode::E303 => "E303"@,
            ErrorCode::E304 => "E304"@,
            ErrorCode::E305 => "E305"@,
            ErrorCode::E306 => "E306"@,
            ErrorCode::E307 => "E307"@,
            ErrorCode::E308 => "E308"@,
            ErrorCode::E309 => "E309"@,
            ErrorCode::E400 => "E400"@,
            ErrorCode::E401 => "E401"@,
            ErrorCode::E402 => "E402"@,
            ErrorCode::E403 => "E403"@,
            ErrorCode::E404 => "E404"@,
            ErrorCode::E500 => "E500"@,
            ErrorCode::E501 => "E501"@,
            ErrorCode::E999 => "E999"@,
        }
    }

    /// The default Arabic message of a code.
    pub open spec fn spec_arabic_message(self) -> Seq<char> {
        match self {
            ErrorCode::E100 => "رمز غير معروف"@,
            ErrorCode::E101 => "نص غير مغلق"@,
            ErrorCode::E102 => "تعليق غير مغلق"@,
            ErrorCode::E103 => "رقم غير صالح"@,
            ErrorCode::E104 => "حرف غير صالح"@,
            ErrorCode::E200 => "رمز غير متوقع"@,
            ErrorCode::E201 => "توقع رمزاً معيناً"@,
            ErrorCode::E202 => "تعبير غير صالح"@,
            ErrorCode::E203 => "نقطة فاصلة مفقودة"@,
            ErrorCode::E204 => "تعليمة غير صالحة"@,
            ErrorCode::E205 => "خطأ في الإزاحة"@,
            ErrorCode::E300 => "متغير غير معرف"@,
            ErrorCode::E301 => "خطأ في النوع"@,
            ErrorCode::E302 => "القسمة على صفر"@,
            ErrorCode::E303 => "الفهرس خارج النطاق"@,
            ErrorCode::E304 => "النوع ليس دالة"@,
            ErrorCode::E305 => "معاملات خاطئة"@,
            ErrorCode::E306 => "مفتاح غير موجود"@,
            ErrorCode::E307 => "خاصية غير موجودة"@,
            ErrorCode::E308 => "عودية عميقة جداً"@,
            ErrorCode::E309 => "تجاوز السعة"@,
            ErrorCode::E400 => "خطأ داخلي"@,
            ErrorCode::E401 => "الملف غير موجود"@,
            ErrorCode::E402 => "لا توجد صلاحيات"@,
            ErrorCode::E403 => "خطأ في الشبكة"@,
            ErrorCode::E404 => "خطأ في الذاكرة"@,
            ErrorCode::E500 => "فشل التأكيد"@,
            ErrorCode::E501 => "غير مطبق"@,
            ErrorCode::E999 => "خطأ"@,
        }
    }

    /// The icon of a code's family: lexical and syntax errors warn, runtime
    /// errors fail, system errors burn, logic errors hint.
    pub open spec fn spec_icon(self) -> Seq<char> {
        match self {
            ErrorCode::E100 => "⚠️"@,
            ErrorCode::E101 => "⚠️"@,
            ErrorCode::E102 => "⚠️"@,
            ErrorCode::E103 => "⚠️"@,
            ErrorCode::E104 => "⚠️"@,
            ErrorCode::E200 => "⚠️"@,
            ErrorCode::E201 => "⚠️"@,
            ErrorCode::E202 => "⚠️"@,
            ErrorCode::E203 => "⚠️"@,
            ErrorCode::E204 => "⚠️"@,
            ErrorCode::E205 => "⚠️"@,
            ErrorCode::E300 => "❌"@,
            ErrorCode::E301 => "❌"@,
            ErrorCode::E302 => "❌"@,
            ErrorCode::E303 => "❌"@,
            ErrorCode::E304 => "❌"@,
            ErrorCode::E305 => "❌"@,
            ErrorCode::E306 => "❌"@,
            ErrorCode::E307 => "❌"@,
            ErrorCode::E308 => "❌"@,
            ErrorCode::E309 => "❌"@,
            ErrorCode::E400 => "🔥"@,
            ErrorCode::E401 => "🔥"@,
            ErrorCode::E402 => "🔥"@,
            ErrorCode::E403 => "🔥"@,
            ErrorCode::E404 => "🔥"@,
            ErrorCode::E500 => "💡"@,
            ErrorCode::E501 => "💡"@,
            ErrorCode::E999 => "❌"@,
        }
    }

    /// الحصول على رمز الخطأ كنص
    pub fn code(&self) -> (r: &'static str)
        ensures
            r@ == self.spec_code(),
    {
        match self {
            ErrorCode::E100 => "E100",
            ErrorCode::E101 => "E101",
            ErrorCode::E102 => "E102",
            ErrorCode::E103 => "E103",
            ErrorCode::E104 => "E104",
            ErrorCode::E200 => "E200",
            ErrorCode::E201 => "E201",
            ErrorCode::E202 => "E202",
            ErrorCode::E203 => "E203",
            ErrorCode::E204 => "E204",
            ErrorCode::E205 => "E205",
            ErrorCode::E300 => "E300",
            ErrorCode::E301 => "E301",
            ErrorCode::E302 => "E302",
            ErrorCode::E303 => "E303",
            ErrorCode::E304 => "E304",
            ErrorCode::E305 => "E305",
            ErrorCode::E306 => "E306",
            ErrorCode::E307 => "E307",
            ErrorCode::E308 => "E308",
            ErrorCode::E309 => "E309",
            ErrorCode::E400 => "E400",
            ErrorCode::E401 => "E401",
            ErrorCode::E402 => "E402",
            ErrorCode::E403 => "E403",
            ErrorCode::E404 => "E404",
            ErrorCode::E500 => "E500",
            ErrorCode::E501 => "E501",
            ErrorCode::E999 => "E999",
        }
    }

    /// الحصول على الرسالة العربية الافتراضية
    pub fn arabic_message(&self) -> (r: &'static str)
        ensures
            r@ == self.spec_arabic_message(),
    {
        match self {
            ErrorCode::E100 => "رمز غير معروف",
            ErrorCode::E101 => "نص غير مغلق",
            ErrorCode::E102 => "تعليق غير مغلق",
            ErrorCode::E103 => "رقم غير صالح",
            ErrorCode::E104 => "حرف غير صالح",
            ErrorCode::E200 => "رمز غير متوقع",
            ErrorCode::E201 => "توقع رمزاً معيناً",
            ErrorCode::E202 => "تعبير غير صالح",
            ErrorCode::E203 => "نقطة فاصلة مفقودة",
            ErrorCode::E204 => "تعليمة غير صالحة",
            ErrorCode::E205 => "خطأ في الإزاحة",
            ErrorCode::E300 => "متغير غير معرف",
            ErrorCode::E301 => "خطأ في النوع",
            ErrorCode::E302 => "القسمة على صفر",
            ErrorCode::E303 => "الفهرس خارج النطاق",
            ErrorCode::E304 => "النوع ليس دالة",
            ErrorCode::E305 => "معاملات خاطئة",
            ErrorCode::E306 => "مفتاح غير موجود",
            ErrorCode::E307 => "خاصية غير موجودة",
            ErrorCode::E308 => "عودية عميقة جداً",
            ErrorCode::E309 => "تجاوز السعة",
            ErrorCode::E400 => "خطأ داخلي",
            ErrorCode::E401 => "الملف غير موجود",
            ErrorCode::E402 => "لا توجد صلاحيات",
            ErrorCode::E403 => "خطأ في الشبكة",
            ErrorCode::E404 => "خطأ في الذاكرة",
            ErrorCode::E500 => "فشل التأكيد",
            ErrorCode::E501 => "غير مطبق",
            ErrorCode::E999 => "خطأ",
        }
    }

    /// الحصول على الأيقونة المناسبة
    pub fn icon(&self) -> (r: &'static str)
        ensures
            r@ == self.spec_icon(),
    {
        match self {
            ErrorCode::E100 => "⚠️",
            ErrorCode::E101 => "⚠️",
            ErrorCode::E102 => "⚠️",
            ErrorCode::E103 => "⚠️",
            ErrorCode::E104 => "⚠️",
            ErrorCode::E200 => "⚠️",
            ErrorCode::E201 => "⚠️",
            ErrorCode::E202 => "⚠️",
            ErrorCode::E203 => "⚠️",
            ErrorCode::E204 => "⚠️",
            ErrorCode::E205 => "⚠️",
            ErrorCode::E300 => "❌",
            ErrorCode::E301 => "❌",
            ErrorCode::E302 => "❌",
            ErrorCode::E303 => "❌",
            ErrorCode::E304 => "❌",
            ErrorCode::E305 => "❌",
            ErrorCode::E306 => "❌",
            ErrorCode::E307 => "❌",
            ErrorCode::E308 => "❌",
            ErrorCode::E309 => "❌",
            ErrorCode::E400 => "🔥",
            ErrorCode::E401 => "🔥",
            ErrorCode::E402 => "🔥",
            ErrorCode::E403 => "🔥",
            ErrorCode::E404 => "🔥",
            ErrorCode::E500 => "💡",
            ErrorCode::E501 => "💡",
            ErrorCode::E999 => "❌",
        }
    }
}

/// The file name used when none is known.
pub open spec fn default_file() -> Seq<char> {
    "البرنامج"@
}

/// A place in the source code.
#[derive(Debug)]
pub struct SourceLocation {
    /// اسم الملف
    pub file: String,
    /// رقم السطر (يبدأ من 1)
    pub line: usize,
    /// رقم العمود (يبدأ من 1)
    pub column: usize,
    /// محتوى السطر
    pub line_content: String,
    /// موضع البداية في البايت
    pub start_offset: usize,
    /// موضع النهاية في البايت
    pub end_offset: usize,
}

impl Clone for SourceLocation {
    fn clone(&self) -> (r: Self)
        ensures
            r == *self,
    {
        SourceLocation {
            file: self.file.clone(),
            line: self.line,
            column: self.column,
            line_content: self.line_content.clone(),
            start_offset: self.start_offset,
            end_offset: self.end_offset,
        }
    }
}

impl SourceLocation {
    /// إنشاء موقع جديد
    pub fn new(file: &str, line: usize, column: usize) -> (r: Self)
        ensures
            r.file@ == file@,
            r.line == line,
            r.column == column,
            r.line_content@ == Seq::<char>::empty(),
            r.start_offset == 0,
            r.end_offset == 0,
    {
        SourceLocation {
            file: String::from_str(file),
            line,
            column,
            line_content: String::new(),
            start_offset: 0,
            end_offset: 0,
        }
    }

    /// إنشاء موقع من معلومات أساسية
    pub fn simple(line: usize, column: usize) -> (r: Self)
        ensures
            r.file@ == default_file(),
            r.line == line,
            r.column == column,
            r.line_content@ == Seq::<char>::empty(),
            r.start_offset == 0,
            r.end_offset == 0,
    {
        Self::new("البرنامج", line, column)
    }

    /// The location at the start of the program, line 1 column 1.
    pub fn default() -> (r: Self)
        ensures
            r.file@ == default_file(),
            r.line == 1,
            r.column == 1,
            r.line_content@ == Seq::<char>::empty(),
            r.start_offset == 0,
            r.end_offset == 0,
    {
        Self::simple(1, 1)
    }

    /// إضافة محتوى السطر
    pub fn with_content(self, content: &str) -> (r: Self)
        ensures
            r.line_content@ == content@,
            r.file == self.file,
            r.line == self.line,
            r.column == self.column,
            r.start_offset == self.start_offset,
            r.end_offset == self.end_offset,
    {
        let mut s = self;
        s.line_content = String::from_str(content);
        s
    }

    /// إضافة المدى
    pub fn with_span(self, start: usize, end: usize) -> (r: Self)
        ensures
            r == (SourceLocation { start_offset: start, end_offset: end, ..self }),
    {
        let mut s = self;
        s.start_offset = start;
        s.end_offset = end;
        s
    }

    /// إضافة اسم الملف
    pub fn with_file(self, file: &str) -> (r: Self)
        ensures
            r.file@ == file@,
            r.line_content == self.line_content,
            r.line == self.line,
            r.column == self.column,
            r.start_offset == self.start_offset,
            r.end_offset == self.end_offset,
    {
        let mut s = self;
        s.file = String::from_str(file);
        s
    }

    /// The text `file:line:column`.
    pub open spec fn spec_location_text(self) -> Seq<char> {
        self.file@ + ":"@ + decimal(self.line as nat) + ":"@ + decimal(self.column as nat)
    }

    /// تنسيق الموقع للعرض
    pub fn format_location(&self) -> (r: String)
        ensures
            r@ == self.spec_location_text(),
    {
        let mut out = self.file.clone();
        out.append(":");
        out.append(usize_text(self.line).as_str());
        out.append(":");
        out.append(usize_text(self.column).as_str());
        out
    }
}

/// موقع مفرد في الكود
#[derive(Debug, Clone, Copy, PartialEq, Eq, Structural)]
pub struct Position {
    /// السطر
    pub line: usize,
    /// العمود
    pub column: usize,
    /// الإزاحة بالبايت
    pub offset: usize,
}

impl Position {
    /// إنشاء موقع جديد
    pub fn new(line: usize, column: usize, offset: usize) -> (r: Self)
        ensures
            r == (Position { line, column, offset }),
    {
        Position { line, column, offset }
    }

    /// موقع البداية
    pub fn zero() -> (r: Self)
        ensures
            r == (Position { line: 1, column: 1, offset: 0 }),
    {
        Position { line: 1, column: 1, offset: 0 }
    }
}

/// موقع في الكود (بداية ونهاية)
#[derive(Debug, Clone, Copy, PartialEq, Eq, Structural)]
pub struct Span {
    /// موضع البداية
    pub start: Position,
    /// موضع النهاية
    pub end: Position,
}

impl Span {
    /// إنشاء مدى جديد
    pub fn new(start: Position, end: Position) -> (r: Self)
        ensures
            r == (Span { start, end }),
    {
        Span { start, end }
    }

    /// دمج مدى مع آخر
    pub fn merge(self, other: Span) -> (r: Span)
        ensures
            r == (Span { start: self.start, end: other.end }),
    {
        Span { start: self.start, end: other.end }
    }

    /// مدى فارغ
    pub fn zero() -> (r: Self)
        ensures
            r.start == (Position { line: 1, column: 1, offset: 0 }),
            r.end == (Position { line: 1, column: 1, offset: 0 }),
    {
        Span { start: Position::zero(), end: Position::zero() }
    }
}

/// Merging spans is associative, and a span merged with itself is unchanged.
pub proof fn law_span_merge(a: Span, b: Span, c: Span)
    ensures
        (Span { start: (Span { start: a.start, end: b.end }).start, end: c.end })
            == (Span { start: a.start, end: (Span { start: b.start, end: c.end }).end }),
        (Span { start: a.start, end: a.end }) == a,
{
}

/// A frame of the call stack.
#[derive(Debug)]
pub struct StackFrame {
    /// اسم الدالة
    pub function_name: String,
    /// موقع الإطار
    pub location: SourceLocation,
    /// هل هو دالة أصلية (native)
    pub is_native: bool,
    /// معاملات الدالة (للعرض)
    pub arguments: Vec<String>,
    /// عمق الإطار
    pub depth: usize,
}

/// The abstract form of a frame: name, location, whether native, arguments
/// and depth.
pub type FrameView = (String, SourceLocation, bool, Seq<String>, usize);

impl View for StackFrame {
    type V = FrameView;

    open spec fn view(&self) -> FrameView {
        (self.function_name, self.location, self.is_native, self.arguments@, self.depth)
    }
}

impl Clone for StackFrame {
    fn clone(&self) -> (r: Self)
        ensures
            r@ == self@,
    {
        let args = self.arguments.clone();
        assert(args@ =~= self.arguments@);
        StackFrame {
            function_name: self.function_name.clone(),
            location: self.location.clone(),
            is_native: self.is_native,
            arguments: args,
            depth: self.depth,
        }
    }
}

impl StackFrame {
    /// إنشاء إطار جديد
    pub fn new(function_name: &str, location: SourceLocation) -> (r: Self)
        ensures
            r.function_name@ == function_name@,
            r.location == location,
            !r.is_native,
            r.arguments@.len() == 0,
            r.depth == 0,
    {
        StackFrame {
            function_name: String::from_str(function_name),
            location,
            is_native: false,
            arguments: Vec::new(),
            depth: 0,
        }
    }

    /// إنشاء إطار من معلومات بسيطة
    pub fn simple(function_name: &str, line: usize, column: usize) -> (r: Self)
        ensures
            r.function_name@ == function_name@,
            r.location.file@ == default_file(),
            r.location.line == line,
            r.location.column == column,
            r.location.line_content@ == Seq::<char>::empty(),
            r.location.start_offset == 0,
            r.location.end_offset == 0,
            !r.is_native,
            r.arguments@.len() == 0,
            r.depth == 0,
    {
        Self::new(function_name, SourceLocation::simple(line, column))
    }

    /// تعيين كدالة أصلية
    pub fn native(self) -> (r: Self)
        ensures
            r == (StackFrame { is_native: true, ..self }),
    {
        let mut f = self;
        f.is_native = true;
        f
    }

    /// إضافة معاملات
    pub fn with_arguments(self, args: Vec<String>) -> (r: Self)
        ensures
            r == (StackFrame { arguments: args, ..self }),
    {
        let mut f = self;
        f.arguments = args;
        f
    }

    /// تعيين العمق
    pub fn with_depth(self, depth: usize) -> (r: Self)
        ensures
            r == (StackFrame { depth: depth, ..self }),
    {
        let mut f = self;
        f.depth = depth;
        f
    }
}

/// A frame renumbered to the given depth.
pub open spec fn at_depth(f: FrameView, depth: int) -> FrameView {
    (f.0, f.1, f.2, f.3, depth as usize)
}

/// The frames that remain after pushing onto a trace holding `frames` with
/// the bound `max_depth`: the oldest frame is dropped when the trace is full,
/// and the new frame is numbered by its position from the bottom.
pub open spec fn pushed_frames(frames: Seq<FrameView>, max_depth: usize, frame: FrameView) -> Seq<FrameView> {
    let kept = if frames.len() >= max_depth && frames.len() > 0 { frames.drop_first() } else { frames };
    kept.push(at_depth(frame, kept.len() + 1int))
}

/// The complete call-stack trace.
#[derive(Debug)]
pub struct StackTrace {
    /// الإطارات
    pub frames: VecDeque<StackFrame>,
    /// العمق الأقصى
    pub max_depth: usize,
}

impl View for StackTrace {
    type V = (Seq<FrameView>, usize);

    open spec fn view(&self) -> (Seq<FrameView>, usize) {
        (self.frames@.map_values(|f: StackFrame| f@), self.max_depth)
    }
}

impl Clone for StackTrace {
    fn clone(&self) -> (r: Self)
        ensures
            r@ == self@,
    {
        let mut frames: VecDeque<StackFrame> = VecDeque::new();
        let n = self.frames.len();
        let mut i: usize = 0;
        while i < n
            invariant
                n == self.frames@.len(),
                i <= n,
                frames@.len() == i,
                forall|k: int| 0 <= k < i ==> #[trigger] frames@[k]@ == self.frames@[k]@,
            decreases n - i,
        {
            frames.push_back(self.frames[i].clone());
            i = i + 1;
        }
        let r = StackTrace { frames, max_depth: self.max_depth };
        assert(r@.0 =~= self@.0);
        r
    }
}

impl StackTrace {
    /// إنشاء Stack Trace جديد
    pub fn new() -> (r: Self)
        ensures
            r.frames@.len() == 0,
            r.max_depth == 100,
    {
        StackTrace { frames: VecDeque::new(), max_depth: 100 }
    }

    /// إنشاء بعمق محدد
    pub fn with_max_depth(max_depth: usize) -> (r: Self)
        ensures
            r.frames@.len() == 0,
            r.max_depth == max_depth,
    {
        StackTrace { frames: VecDeque::new(), max_depth }
    }

    /// إضافة إطار
    pub fn push(&mut self, frame: StackFrame)
        requires
            old(self).frames@.len() < usize::MAX,
        ensures
            final(self)@.0 == pushed_frames(old(self)@.0, old(self).max_depth, frame@),
            final(self).max_depth == old(self).max_depth,
    {
        let ghost old_view = self@.0;
        if self.frames.len() >= self.max_depth {
            let _ = self.frames.pop_front();
        }
        assert(self@.0 =~= (if old_view.len() >= self.max_depth && old_view.len() > 0 {
            old_view.drop_first()
        } else {
            old_view
        }));
        let depth = self.frames.len();
        let mut frame = frame;
        frame.depth = depth + 1;
        self.frames.push_back(frame);
        assert(self@.0 =~= pushed_frames(old_view, self.max_depth, frame@));
    }

    /// إزالة إطار
    pub fn pop(&mut self) -> (r: Option<StackFrame>)
        ensures
            old(self).frames@.len() == 0 ==> r.is_none() && final(self)@ == old(self)@,
            old(self).frames@.len() > 0 ==> r == Some(old(self).frames@.last())
                && final(self)@.0 == old(self)@.0.drop_last(),
            final(self).max_depth == old(self).max_depth,
    {
        let ghost old_view = self@.0;
        let r = self.frames.pop_back();
        assert(old_view.len() > 0 ==> self@.0 =~= old_view.drop_last());
        r
    }

    /// عدد الإطارات
    pub fn depth(&self) -> (r: usize)
        ensures
            r == self.frames@.len(),
    {
        self.frames.len()
    }

    /// هل فارغ
    pub fn is_empty(&self) -> (r: bool)
        ensures
            r == (self.frames@.len() == 0),
    {
        self.frames.len() == 0
    }
}

/// A trace never grows past its bound: pushing onto a trace with a positive
/// bound that holds at most that many frames leaves at most that many.
pub proof fn law_trace_bounded(frames: Seq<FrameView>, max_depth: usize, frame: FrameView)
    requires
        max_depth > 0,
        frames.len() <= max_depth,
    ensures
        pushed_frames(frames, max_depth, frame).len() <= max_depth,
        pushed_frames(frames, max_depth, frame).len() == if frames.len() < max_depth {
            frames.len() + 1int
        } else {
            frames.len() as int
        },
{
}

/// Popping right after a push gives back the pushed frame, numbered by its
/// place in the trace, and its depth field is the trace's depth.
pub proof fn law_trace_push_pop(frames: Seq<FrameView>, max_depth: usize, frame: FrameView)
    ensures
        pushed_frames(frames, max_depth, frame).last() == at_depth(
            frame,
            pushed_frames(frames, max_depth, frame).len() as int,
        ),
        pushed_frames(frames, max_depth, frame).drop_last() == (if frames.len() >= max_depth
            && frames.len() > 0 {
            frames.drop_first()
        } else {
            frames
        }),
{
    let kept = if frames.len() >= max_depth && frames.len() > 0 { frames.drop_first() } else { frames };
    assert(pushed_frames(frames, max_depth, frame).drop_last() =~= kept);
}


/// A horizontal rule of the trace and error renderings.
pub open spec fn rule() -> Seq<char> {
    "════════════════════════════════════════════════════════════════"@
}

/// The number of spaces that put a marker under the given column.
pub open spec fn indent_for(column: usize) -> nat {
    if column > 0 { (column - 1) as nat } else { 0 }
}

/// The banner that opens a plain trace rendering.
pub open spec fn plain_trace_banner() -> Seq<char> {
    "\n════════════════════════════════════════════════════════════════\n"@ + "                    تتبع المكالمة\n"@ + "════════════════════════════════════════════════════════════════\n\n"@
}

/// The source line of a frame and a marker under its column, when the frame
/// records the line's text.
pub open spec fn plain_line_marker(loc: SourceLocation) -> Seq<char> {
    if loc.line_content@.len() > 0 {
        "       │ "@ + trimmed(loc.line_content@) + "\n"@ + "       │ "@ + repeat(" "@,
            indent_for(loc.column)) + "⌃\n"@
    } else {
        Seq::empty()
    }
}

/// One frame of a plain trace rendering: `num` is its number, `top` says
/// whether it is the innermost frame, which carries the arrow.
pub open spec fn plain_trace_entry(f: FrameView, num: nat, top: bool) -> Seq<char> {
    let arrow = if top { "→"@ } else { " "@ };
    if f.2 {
        "  "@ + arrow + " ["@ + decimal(num) + "] "@ + f.0@ + " (دالة أصلية)\n"@
    } else {
        "  "@ + arrow + " ["@ + decimal(num) + "] "@ + f.0@ + " في "@ + f.1.file@ + ":"@
            + decimal(f.1.line as nat) + ":"@ + decimal(f.1.column as nat) + "\n"@
            + plain_line_marker(f.1)
    }
}

/// The first `k` entries of a plain trace rendering, innermost frame first.
pub open spec fn plain_trace_entries(fs: Seq<FrameView>, k: nat) -> Seq<char>
    decreases k,
{
    if k == 0 {
        Seq::empty()
    } else {
        let i = (k - 1) as nat;
        plain_trace_entries(fs, i) + plain_trace_entry(fs[fs.len() - 1 - i], (fs.len() - i) as nat, i == 0)
    }
}

/// The plain rendering of a trace.
pub open spec fn plain_trace(fs: Seq<FrameView>) -> Seq<char> {
    if fs.len() == 0 {
        plain_trace_banner() + "  (لا توجد معلومات تتبع)\n"@
    } else {
        plain_trace_banner() + plain_trace_entries(fs, fs.len())
    }
}

fn line_marker_plain(loc: &SourceLocation) -> (r: String)
    ensures
        r@ == plain_line_marker(*loc),
{
    let mut out = String::new();
    if loc.line_content.as_str().unicode_len() > 0 {
        out.append("       │ ");
        out.append(trim(loc.line_content.as_str()).as_str());
        out.append("\n");
        out.append("       │ ");
        let spaces = if loc.column > 0 { loc.column - 1 } else { 0 };
        out.append(repeat_str(" ", spaces).as_str());
        out.append("⌃\n");
    }
    out
}

fn trace_entry_plain(f: &StackFrame, num: usize, top: bool) -> (r: String)
    ensures
        r@ == plain_trace_entry(f@, num as nat, top),
{
    let mut out = String::from_str("  ");
    out.append(if top { "→" } else { " " });
    out.append(" [");
    out.append(usize_text(num).as_str());
    out.append("] ");
    out.append(f.function_name.as_str());
    if f.is_native {
        out.append(" (دالة أصلية)\n");
    } else {
        out.append(" في ");
        out.append(f.location.format_location().as_str());
        out.append("\n");
        out.append(line_marker_plain(&f.location).as_str());
    }
    out
}

impl StackTrace {
    /// تنسيق بدون ألوان
    pub fn format_plain(&self) -> (r: String)
        ensures
            r@ == plain_trace(self@.0),
    {
        let mut output = String::from_str("\n════════════════════════════════════════════════════════════════\n");
        output.append("                    تتبع المكالمة\n");
        output.append("════════════════════════════════════════════════════════════════\n\n");
        let n = self.frames.len();
        if n == 0 {
            output.append("  (لا توجد معلومات تتبع)\n");
            return output;
        }
        let ghost fs = self@.0;
        let mut i: usize = 0;
        while i < n
            invariant
                n == self.frames@.len(),
                fs == self@.0,
                i <= n,
                output@ == plain_trace_banner() + plain_trace_entries(fs, i as nat),
            decreases n - i,
        {
            let entry = trace_entry_plain(&self.frames[n - 1 - i], n - i, i == 0);
            assert(fs[n - 1 - i] == self.frames@[n - 1 - i]@);
            output.append(entry.as_str());
            i = i + 1;
        }
        output
    }
}


/// A plain segment.
pub open spec fn plain(s: Seq<char>) -> (Tone, Seq<char>) {
    (Tone::Plain, s)
}

/// The banner that opens a coloured trace rendering.
pub open spec fn arabic_trace_banner() -> Seq<(Tone, Seq<char>)> {
    seq![
        (Tone::BrightBlack, "\n"@),
        (Tone::BrightBlack, "════════════════════════════════════════════════════════════════"@),
        plain("\n"@),
        (Tone::BrightCyanBold, "                    📚 تتبع المكالمة                            "@),
        plain("\n"@),
        (Tone::BrightBlack, "════════════════════════════════════════════════════════════════"@),
        plain("\n\n"@),
    ]
}

/// The arrow of a coloured trace entry.
pub open spec fn arabic_arrow(top: bool) -> (Tone, Seq<char>) {
    if top { (Tone::BrightRedBold, "→"@) } else { plain(" "@) }
}

/// The source line and column marker of a frame in the coloured rendering.
pub open spec fn arabic_line_marker(loc: SourceLocation) -> Seq<(Tone, Seq<char>)> {
    if loc.line_content@.len() > 0 {
        seq![
            plain("       │ "@),
            (Tone::BrightWhite, trimmed(loc.line_content@)),
            plain("\n"@),
            plain("       │ "@ + repeat(" "@, indent_for(loc.column)) + "⌃\n"@),
        ]
    } else {
        Seq::empty()
    }
}

/// The arguments of a frame in the coloured rendering.
pub open spec fn arabic_arguments(args: Seq<String>) -> Seq<(Tone, Seq<char>)> {
    if args.len() > 0 {
        seq![
            plain("       📦 المعاملات: ("@),
            (Tone::Dimmed, seq_join(views(args), ", "@)),
            plain(")\n"@),
        ]
    } else {
        Seq::empty()
    }
}

/// One frame of the coloured trace rendering; `last` says whether it is the
/// outermost frame, which has no connector under it.
pub open spec fn arabic_trace_entry(f: FrameView, num: nat, top: bool, last: bool) -> Seq<
    (Tone, Seq<char>),
> {
    let head = seq![
        plain("  "@),
        arabic_arrow(top),
        plain(" ["@),
        (Tone::BrightYellow, decimal(num)),
        plain("] "@),
        (Tone::BrightWhiteBold, f.0@),
    ];
    let body = if f.2 {
        seq![plain(" "@), (Tone::Dimmed, "(دالة أصلية)"@), plain("\n"@)]
    } else {
        seq![
            plain(" \n"@),
            plain("       📍 "@),
            (Tone::BrightCyan, f.1.file@),
            plain(":"@),
            (Tone::BrightYellow, decimal(f.1.line as nat)),
            plain(":"@),
            (Tone::BrightYellow, decimal(f.1.column as nat)),
            plain("\n"@),
        ] + arabic_line_marker(f.1) + arabic_arguments(f.3)
    };
    let tail = if last { Seq::empty() } else { seq![(Tone::BrightBlack, "       │\n"@)] };
    head + body + tail
}

/// The first `k` entries of the coloured trace rendering, innermost first.
pub open spec fn arabic_trace_entries(fs: Seq<FrameView>, k: nat) -> Seq<(Tone, Seq<char>)>
    decreases k,
{
    if k == 0 {
        Seq::empty()
    } else {
        let i = (k - 1) as nat;
        arabic_trace_entries(fs, i) + arabic_trace_entry(
            fs[fs.len() - 1 - i],
            (fs.len() - i) as nat,
            i == 0,
            i == fs.len() - 1,
        )
    }
}

/// The coloured rendering of a trace, as a document.
pub open spec fn arabic_trace(fs: Seq<FrameView>) -> Seq<(Tone, Seq<char>)> {
    if fs.len() == 0 {
        arabic_trace_banner() + seq![(Tone::Dimmed, "  (لا توجد معلومات تتبع)"@), plain("\n"@)]
    } else {
        arabic_trace_banner() + arabic_trace_entries(fs, fs.len())
    }
}

/// The fixed texts of a trace hold no escape character.
proof fn lemma_trace_texts_plain()
    ensures
        no_escape("(دالة أصلية)"@),
        no_escape("  (لا توجد معلومات تتبع)"@),
{
    reveal_strlit("(دالة أصلية)");
    reveal_strlit("  (لا توجد معلومات تتبع)");
}

/// The first `k` entries of a trace hold, for each of their frames, its
/// name, and the native mark of a native frame or the file of any other.
proof fn lemma_trace_entries_hold(fs: Seq<FrameView>, k: nat, i: int)
    requires
        0 <= i < k <= fs.len(),
    ensures
        arabic_trace_entries(fs, k).contains((Tone::BrightWhiteBold, fs[fs.len() - 1 - i].0@)),
        fs[fs.len() - 1 - i].2 ==> arabic_trace_entries(fs, k).contains((Tone::Dimmed, "(دالة أصلية)"@)),
        !fs[fs.len() - 1 - i].2 ==> arabic_trace_entries(fs, k).contains(
            (Tone::BrightCyan, fs[fs.len() - 1 - i].1.file@),
        ),
    decreases k,
{
    let j = (k - 1) as nat;
    let before = arabic_trace_entries(fs, j);
    let f = fs[fs.len() - 1 - j];
    let entry = arabic_trace_entry(f, (fs.len() - j) as nat, j == 0, j == fs.len() - 1);
    assert(arabic_trace_entries(fs, k) == before + entry);
    let name = (Tone::BrightWhiteBold, fs[fs.len() - 1 - i].0@);
    let native = (Tone::Dimmed, "(دالة أصلية)"@);
    let file = (Tone::BrightCyan, fs[fs.len() - 1 - i].1.file@);
    if i == j {
        assert(entry[5] == name);
        assert(entry.contains(name));
        if f.2 {
            assert(entry[7] == native);
            assert(entry.contains(native));
        } else {
            assert(entry[8] == file);
            assert(entry.contains(file));
        }
    } else {
        lemma_trace_entries_hold(fs, j, i);
    }
    crate::style::lemma_contains_add(before, entry, name);
    crate::style::lemma_contains_add(before, entry, native);
    crate::style::lemma_contains_add(before, entry, file);
}

/// The entry of a coloured trace listed at place `i`: the frame pushed
/// `i`-th from the newest, numbered by its place from the oldest.
pub open spec fn listed_entry(fs: Seq<FrameView>, i: int) -> Seq<(Tone, Seq<char>)> {
    arabic_trace_entry(fs[fs.len() - 1 - i], (fs.len() - i) as nat, i == 0, i == fs.len() - 1)
}

/// Where the entry listed at place `i` begins in the coloured trace.
pub open spec fn listed_entry_start(fs: Seq<FrameView>, i: int) -> int {
    (arabic_trace_banner().len() + arabic_trace_entries(fs, i as nat).len()) as int
}

/// The first `m` entries of a trace begin with the first `i` of them, then
/// the entry listed at place `i`.
proof fn lemma_entries_prefix(fs: Seq<FrameView>, m: nat, i: int)
    requires
        0 <= i < m <= fs.len(),
    ensures
        arabic_trace_entries(fs, m).len() >= arabic_trace_entries(fs, i as nat).len() + listed_entry(fs, i).len(),
        forall|t: int|
            0 <= t < listed_entry(fs, i).len() ==> arabic_trace_entries(fs, m)[arabic_trace_entries(
                fs,
                i as nat,
            ).len() + t] == #[trigger] listed_entry(fs, i)[t],
    decreases m,
{
    let j = (m - 1) as nat;
    assert(arabic_trace_entries(fs, m) == arabic_trace_entries(fs, j) + listed_entry(fs, j as int));
    if i < j {
        lemma_entries_prefix(fs, j, i);
    }
}

/// The coloured trace lists the frames newest first. The entry at place
/// `i` belongs to the frame pushed `i`-th from the newest and begins after
/// the entries before it; it shows the arrow only at the first place, the
/// frame's number counted from the oldest, its function's name, and then
/// the native mark of a native frame, or the file, line and column of any
/// other.
pub proof fn law_trace_lists_newest_first(fs: Seq<FrameView>, i: int, j: int)
    requires
        0 <= i < fs.len(),
    ensures
        ({
            let doc = arabic_trace(fs);
            let a = listed_entry_start(fs, i);
            let f = fs[fs.len() - 1 - i];
            &&& a + 6 <= doc.len()
            &&& doc[a + 1] == arabic_arrow(i == 0)
            &&& doc[a + 3] == (Tone::BrightYellow, decimal((fs.len() - i) as nat))
            &&& doc[a + 5] == (Tone::BrightWhiteBold, f.0@)
            &&& f.2 ==> doc[a + 7] == (Tone::Dimmed, "(دالة أصلية)"@)
            &&& !f.2 ==> {
                &&& doc[a + 8] == (Tone::BrightCyan, f.1.file@)
                &&& doc[a + 10] == (Tone::BrightYellow, decimal(f.1.line as nat))
                &&& doc[a + 12] == (Tone::BrightYellow, decimal(f.1.column as nat))
            }
        }),
        i < j < fs.len() ==> listed_entry_start(fs, i) < listed_entry_start(fs, j),
{
    let n = fs.len();
    let doc = arabic_trace(fs);
    let b = arabic_trace_banner();
    let es = arabic_trace_entries(fs, n);
    let e = listed_entry(fs, i);
    let before = arabic_trace_entries(fs, i as nat);
    assert(doc == b + es);
    lemma_entries_prefix(fs, n, i);
    assert forall|t: int| 0 <= t < e.len() implies doc[listed_entry_start(fs, i) + t] == #[trigger] e[t] by {
        assert(es[before.len() + t] == e[t]);
    }
    assert(doc[listed_entry_start(fs, i) + 1] == e[1]);
    assert(doc[listed_entry_start(fs, i) + 3] == e[3]);
    assert(doc[listed_entry_start(fs, i) + 5] == e[5]);
    if fs[n - 1 - i].2 {
        assert(doc[listed_entry_start(fs, i) + 7] == e[7]);
    } else {
        assert(doc[listed_entry_start(fs, i) + 8] == e[8]);
        assert(doc[listed_entry_start(fs, i) + 10] == e[10]);
        assert(doc[listed_entry_start(fs, i) + 12] == e[12]);
    }
    if i < j < n {
        lemma_entries_prefix(fs, j as nat, i);
        assert(e.len() > 0);
    }
}

/// The texts that a coloured trace shows: the name of every frame, the
/// native mark of a native frame, the file of any other frame, and the
/// notice that there is no trace when it has no frame; a name or file
/// shows when it holds no escape character, which the terminal styling
/// reserves.
pub proof fn law_trace_shows_frames(fs: Seq<FrameView>, out: Seq<char>)
    requires
        renders(out, arabic_trace(fs)),
    ensures
        fs.len() == 0 ==> has_substring(out, "  (لا توجد معلومات تتبع)"@),
        forall|k: int|
            0 <= k < fs.len() && no_escape(#[trigger] fs[k].0@) ==> has_substring(out, fs[k].0@),
        forall|k: int|
            0 <= k < fs.len() && #[trigger] fs[k].2 ==> has_substring(
                out,
                "(دالة أصلية)"@,
            ),
        forall|k: int|
            0 <= k < fs.len() && !#[trigger] fs[k].2 && no_escape(fs[k].1.file@) ==> has_substring(
                out,
                fs[k].1.file@,
            ),
{
    let doc = arabic_trace(fs);
    lemma_trace_texts_plain();
    if fs.len() == 0 {
        let notice = (Tone::Dimmed, "  (لا توجد معلومات تتبع)"@);
        assert(doc[arabic_trace_banner().len() as int] == notice);
        crate::style::lemma_held_segment_shows(out, doc, notice);
    } else {
        let entries = arabic_trace_entries(fs, fs.len());
        assert forall|k: int|
            0 <= k < fs.len() && no_escape(#[trigger] fs[k].0@) implies has_substring(out, fs[k].0@) by {
            lemma_trace_entries_hold(fs, fs.len(), fs.len() - 1 - k);
            crate::style::lemma_contains_add(arabic_trace_banner(), entries, (Tone::BrightWhiteBold, fs[k].0@));
            crate::style::lemma_held_segment_shows(out, doc, (Tone::BrightWhiteBold, fs[k].0@));
        }
        assert forall|k: int|
            0 <= k < fs.len() && #[trigger] fs[k].2 implies has_substring(
                out,
                "(دالة أصلية)"@,
            ) by {
            lemma_trace_entries_hold(fs, fs.len(), fs.len() - 1 - k);
            crate::style::lemma_contains_add(arabic_trace_banner(), entries, (Tone::Dimmed, "(دالة أصلية)"@));
            crate::style::lemma_held_segment_shows(out, doc, (Tone::Dimmed, "(دالة أصلية)"@));
        }
        assert forall|k: int|
            0 <= k < fs.len() && !#[trigger] fs[k].2 && no_escape(fs[k].1.file@) implies has_substring(
                out,
                fs[k].1.file@,
            ) by {
            lemma_trace_entries_hold(fs, fs.len(), fs.len() - 1 - k);
            crate::style::lemma_contains_add(arabic_trace_banner(), entries, (Tone::BrightCyan, fs[k].1.file@));
            crate::style::lemma_held_segment_shows(out, doc, (Tone::BrightCyan, fs[k].1.file@));
        }
    }
}

pub(crate) fn push_seg(doc: &mut Vec<Styled>, tone: Tone, text: &str)
    ensures
        doc_view(final(doc)@) == doc_view(old(doc)@).push((tone, text@)),
{
    let ghost before = doc_view(doc@);
    doc.push(seg(tone, text));
    assert(doc_view(doc@) =~= before.push((tone, text@)));
}

pub(crate) fn push_seg_owned(doc: &mut Vec<Styled>, tone: Tone, text: String)
    ensures
        doc_view(final(doc)@) == doc_view(old(doc)@).push((tone, text@)),
{
    let ghost before = doc_view(doc@);
    let ghost t = text@;
    doc.push(seg_owned(tone, text));
    assert(doc_view(doc@) =~= before.push((tone, t)));
}

pub(crate) fn append_doc(doc: &mut Vec<Styled>, more: Vec<Styled>)
    ensures
        doc_view(final(doc)@) == doc_view(old(doc)@) + doc_view(more@),
{
    let ghost before = doc_view(doc@);
    let ghost extra = doc_view(more@);
    let mut more = more;
    doc.append(&mut more);
    assert(doc_view(doc@) =~= before + extra);
}

fn trace_entry_doc(f: &StackFrame, num: usize, top: bool, last: bool) -> (r: Vec<Styled>)
    ensures
        doc_view(r@) == arabic_trace_entry(f@, num as nat, top, last),
{
    let mut d: Vec<Styled> = Vec::new();
    push_seg(&mut d, Tone::Plain, "  ");
    if top {
        push_seg(&mut d, Tone::BrightRedBold, "→");
    } else {
        push_seg(&mut d, Tone::Plain, " ");
    }
    push_seg(&mut d, Tone::Plain, " [");
    push_seg_owned(&mut d, Tone::BrightYellow, usize_text(num));
    push_seg(&mut d, Tone::Plain, "] ");
    push_seg(&mut d, Tone::BrightWhiteBold, f.function_name.as_str());
    let ghost head = doc_view(d@);
    if f.is_native {
        push_seg(&mut d, Tone::Plain, " ");
        push_seg(&mut d, Tone::Dimmed, "(دالة أصلية)");
        push_seg(&mut d, Tone::Plain, "\n");
    } else {
        push_seg(&mut d, Tone::Plain, " \n");
        push_seg(&mut d, Tone::Plain, "       📍 ");
        push_seg(&mut d, Tone::BrightCyan, f.location.file.as_str());
        push_seg(&mut d, Tone::Plain, ":");
        push_seg_owned(&mut d, Tone::BrightYellow, usize_text(f.location.line));
        push_seg(&mut d, Tone::Plain, ":");
        push_seg_owned(&mut d, Tone::BrightYellow, usize_text(f.location.column));
        push_seg(&mut d, Tone::Plain, "\n");
        let ghost mid = doc_view(d@);
        if f.location.line_content.as_str().unicode_len() > 0 {
            push_seg(&mut d, Tone::Plain, "       │ ");
            push_seg_owned(&mut d, Tone::BrightWhite, trim(f.location.line_content.as_str()));
            push_seg(&mut d, Tone::Plain, "\n");
            let mut marker = String::from_str("       │ ");
            let spaces = if f.location.column > 0 { f.location.column - 1 } else { 0 };
            marker.append(repeat_str(" ", spaces).as_str());
            marker.append("⌃\n");
            push_seg_owned(&mut d, Tone::Plain, marker);
        }
        assert(doc_view(d@) =~= mid + arabic_line_marker(f.location));
        let ghost mid2 = doc_view(d@);
        if f.arguments.len() > 0 {
            push_seg(&mut d, Tone::Plain, "       📦 المعاملات: (");
            push_seg_owned(&mut d, Tone::Dimmed, join(&f.arguments, ", "));
            push_seg(&mut d, Tone::Plain, ")\n");
        }
        assert(doc_view(d@) =~= mid2 + arabic_arguments(f.arguments@));
    }
    if !last {
        push_seg(&mut d, Tone::BrightBlack, "       │\n");
    }
    assert(doc_view(d@) =~= arabic_trace_entry(f@, num as nat, top, last));
    d
}

impl StackTrace {
    /// The coloured rendering of the trace, as a document of styled segments.
    pub fn arabic_document(&self) -> (r: Vec<Styled>)
        ensures
            doc_view(r@) == arabic_trace(self@.0),
    {
        let mut d: Vec<Styled> = Vec::new();
        push_seg(&mut d, Tone::BrightBlack, "\n");
        push_seg(&mut d, Tone::BrightBlack, "════════════════════════════════════════════════════════════════");
        push_seg(&mut d, Tone::Plain, "\n");
        push_seg(&mut d, Tone::BrightCyanBold, "                    📚 تتبع المكالمة                            ");
        push_seg(&mut d, Tone::Plain, "\n");
        push_seg(&mut d, Tone::BrightBlack, "════════════════════════════════════════════════════════════════");
        push_seg(&mut d, Tone::Plain, "\n\n");
        assert(doc_view(d@) =~= arabic_trace_banner());
        let n = self.frames.len();
        if n == 0 {
            push_seg(&mut d, Tone::Dimmed, "  (لا توجد معلومات تتبع)");
            push_seg(&mut d, Tone::Plain, "\n");
            assert(doc_view(d@) =~= arabic_trace(self@.0));
            return d;
        }
        let ghost fs = self@.0;
        let mut i: usize = 0;
        while i < n
            invariant
                n == self.frames@.len(),
                fs == self@.0,
                i <= n,
                doc_view(d@) == arabic_trace_banner() + arabic_trace_entries(fs, i as nat),
            decreases n - i,
        {
            let entry = trace_entry_doc(&self.frames[n - 1 - i], n - i, i == 0, i == n - 1);
            assert(fs[n - 1 - i] == self.frames@[n - 1 - i]@);
            let ghost before = doc_view(d@);
            append_doc(&mut d, entry);
            assert(doc_view(d@) =~= arabic_trace_banner() + arabic_trace_entries(fs, (i + 1) as nat));
            i = i + 1;
        }
        d
    }

    /// تنسيق للعرض بالعربية مع الألوان
    pub fn format_arabic(&self) -> (r: String)
        ensures
            renders(r@, arabic_trace(self@.0)),
    {
        render(&self.arabic_document())
    }
}


/// A suggested fix.
#[derive(Debug)]
pub struct Suggestion {
    /// وصف الاقتراح
    pub message: String,
    /// مثال على الكود المقترح
    pub code: Option<String>,
    /// أولوية الاقتراح
    pub priority: u8,
}

impl Clone for Suggestion {
    fn clone(&self) -> (r: Self)
        ensures
            r == *self,
    {
        let code = match &self.code {
            Some(c) => Some(c.clone()),
            None => None,
        };
        Suggestion { message: self.message.clone(), code, priority: self.priority }
    }
}

impl Suggestion {
    /// إنشاء اقتراح جديد
    pub fn new(message: &str) -> (r: Self)
        ensures
            r.message@ == message@,
            r.code.is_none(),
            r.priority == 0,
    {
        Suggestion { message: String::from_str(message), code: None, priority: 0 }
    }

    /// إضافة مثال
    pub fn with_code(self, code: &str) -> (r: Self)
        ensures
            r.message == self.message,
            r.code is Some,
            r.code.unwrap()@ == code@,
            r.priority == self.priority,
    {
        let mut s = self;
        s.code = Some(String::from_str(code));
        s
    }

    /// تعيين الأولوية
    pub fn with_priority(self, priority: u8) -> (r: Self)
        ensures
            r == (Suggestion { priority, ..self }),
    {
        let mut s = self;
        s.priority = priority;
        s
    }
}

/// A complete error with everything known about it.
#[derive(Debug)]
pub struct AlMarjaaError {
    /// رمز الخطأ
    pub code: ErrorCode,
    /// الرسالة الرئيسية
    pub message: String,
    /// موقع الخطأ
    pub location: Option<SourceLocation>,
    /// Stack Trace
    pub stack_trace: StackTrace,
    /// اقتراحات الإصلاح
    pub suggestions: Vec<Suggestion>,
    /// نص المساعدة
    pub help: Option<String>,
    /// ملاحظات إضافية
    pub notes: Vec<String>,
    /// مستوى الخطورة
    pub severity: Severity,
    /// سياق الكود (عدة أسطر)
    pub code_context: Vec<(usize, String)>,
}

impl AlMarjaaError {
    /// إنشاء خطأ جديد
    pub fn new(code: ErrorCode, message: &str) -> (r: Self)
        ensures
            r.code == code,
            r.message@ == message@,
            r.location.is_none(),
            r.stack_trace.frames@.len() == 0,
            r.stack_trace.max_depth == 100,
            r.suggestions@.len() == 0,
            r.help.is_none(),
            r.notes@.len() == 0,
            r.severity == Severity::Error,
            r.code_context@.len() == 0,
    {
        Self::from_message(code, String::from_str(message))
    }

    /// An error whose message is the given string.
    pub fn from_message(code: ErrorCode, message: String) -> (r: Self)
        ensures
            r.code == code,
            r.message == message,
            r.location.is_none(),
            r.stack_trace.frames@.len() == 0,
            r.stack_trace.max_depth == 100,
            r.suggestions@.len() == 0,
            r.help.is_none(),
            r.notes@.len() == 0,
            r.severity == Severity::Error,
            r.code_context@.len() == 0,
    {
        AlMarjaaError {
            code,
            message,
            location: None,
            stack_trace: StackTrace::new(),
            suggestions: Vec::new(),
            help: None,
            notes: Vec::new(),
            severity: Severity::Error,
            code_context: Vec::new(),
        }
    }

    /// إضافة موقع
    pub fn at(self, location: SourceLocation) -> (r: Self)
        ensures
            r == (AlMarjaaError { location: Some(location), ..self }),
    {
        let mut e = self;
        e.location = Some(location);
        e
    }

    /// إضافة موقع بسيط
    pub fn at_simple(self, line: usize, column: usize) -> (r: Self)
        ensures
            r.location is Some,
            r.location.unwrap().file@ == default_file(),
            r.location.unwrap().line == line,
            r.location.unwrap().column == column,
            r.location.unwrap().line_content@ == Seq::<char>::empty(),
            r.location.unwrap().start_offset == 0,
            r.location.unwrap().end_offset == 0,
            r == (AlMarjaaError { location: r.location, ..self }),
    {
        self.at(SourceLocation::simple(line, column))
    }

    /// إضافة موقع مع ملف
    pub fn at_file(self, file: &str, line: usize, column: usize) -> (r: Self)
        ensures
            r.location is Some,
            r.location.unwrap().file@ == file@,
            r.location.unwrap().line == line,
            r.location.unwrap().column == column,
            r.location.unwrap().line_content@ == Seq::<char>::empty(),
            r.location.unwrap().start_offset == 0,
            r.location.unwrap().end_offset == 0,
            r == (AlMarjaaError { location: r.location, ..self }),
    {
        self.at(SourceLocation::new(file, line, column))
    }

    /// إضافة Stack Trace
    pub fn with_trace(self, trace: StackTrace) -> (r: Self)
        ensures
            r == (AlMarjaaError { stack_trace: trace, ..self }),
    {
        let mut e = self;
        e.stack_trace = trace;
        e
    }

    /// إضافة اقتراح
    pub fn suggest(self, suggestion: Suggestion) -> (r: Self)
        ensures
            r.suggestions@ == self.suggestions@.push(suggestion),
            r == (AlMarjaaError { suggestions: r.suggestions, ..self }),
    {
        let mut e = self;
        e.suggestions.push(suggestion);
        e
    }

    /// إضافة اقتراح بسيط
    pub fn suggest_simple(self, message: &str) -> (r: Self)
        ensures
            r.suggestions@.len() == self.suggestions@.len() + 1,
            r.suggestions@.drop_last() == self.suggestions@,
            r.suggestions@.last().message@ == message@,
            r.suggestions@.last().code.is_none(),
            r.suggestions@.last().priority == 0,
            r == (AlMarjaaError { suggestions: r.suggestions, ..self }),
    {
        let r = self.suggest(Suggestion::new(message));
        assert(r.suggestions@.drop_last() =~= self.suggestions@);
        r
    }

    /// إضافة اقتراح (alias للتوافق)
    pub fn with_suggestion(self, message: &str) -> (r: Self)
        ensures
            r.suggestions@.len() == self.suggestions@.len() + 1,
            r.suggestions@.drop_last() == self.suggestions@,
            r.suggestions@.last().message@ == message@,
            r.suggestions@.last().code.is_none(),
            r.suggestions@.last().priority == 0,
            r == (AlMarjaaError { suggestions: r.suggestions, ..self }),
    {
        self.suggest_simple(message)
    }

    /// إضافة اقتراح مع مثال
    pub fn suggest_with_code(self, message: &str, code: &str) -> (r: Self)
        ensures
            r.suggestions@.len() == self.suggestions@.len() + 1,
            r.suggestions@.drop_last() == self.suggestions@,
            r.suggestions@.last().message@ == message@,
            r.suggestions@.last().code is Some,
            r.suggestions@.last().code.unwrap()@ == code@,
            r.suggestions@.last().priority == 0,
            r == (AlMarjaaError { suggestions: r.suggestions, ..self }),
    {
        let r = self.suggest(Suggestion::new(message).with_code(code));
        assert(r.suggestions@.drop_last() =~= self.suggestions@);
        r
    }

    /// إضافة نص مساعدة
    pub fn with_help(self, help: &str) -> (r: Self)
        ensures
            r.help is Some,
            r.help.unwrap()@ == help@,
            r == (AlMarjaaError { help: r.help, ..self }),
    {
        let mut e = self;
        e.help = Some(String::from_str(help));
        e
    }

    /// إضافة ملاحظة
    pub fn note(self, note: &str) -> (r: Self)
        ensures
            r.notes@.len() == self.notes@.len() + 1,
            r.notes@.drop_last() == self.notes@,
            r.notes@.last()@ == note@,
            r == (AlMarjaaError { notes: r.notes, ..self }),
    {
        let mut e = self;
        e.notes.push(String::from_str(note));
        assert(e.notes@.drop_last() =~= self.notes@);
        e
    }

    /// تعيين مستوى الخطورة
    pub fn with_severity(self, severity: Severity) -> (r: Self)
        ensures
            r == (AlMarjaaError { severity, ..self }),
    {
        let mut e = self;
        e.severity = severity;
        e
    }

    /// إضافة سياق كود
    pub fn with_code_context(self, lines: Vec<(usize, String)>) -> (r: Self)
        ensures
            r == (AlMarjaaError { code_context: lines, ..self }),
    {
        let mut e = self;
        e.code_context = lines;
        e
    }

    /// إضافة سياق كود (للتوافق مع الكود القديم)
    pub fn with_source_context(self, context: &str) -> (r: Self)
        ensures
            r.location is Some,
            r.location.unwrap().line_content@ == context@,
            self.location is Some ==> {
                let (a, b) = (self.location.unwrap(), r.location.unwrap());
                &&& b.file == a.file
                &&& b.line == a.line
                &&& b.column == a.column
                &&& b.start_offset == a.start_offset
                &&& b.end_offset == a.end_offset
            },
            self.location is None ==> {
                let b = r.location.unwrap();
                &&& b.file@ == default_file()
                &&& b.line == 1
                &&& b.column == 1
                &&& b.start_offset == 0
                &&& b.end_offset == 0
            },
            r == (AlMarjaaError { location: r.location, ..self }),
    {
        let mut e = self;
        match e.location {
            Some(loc) => {
                e.location = Some(loc.with_content(context));
            },
            None => {
                e.location = Some(SourceLocation::simple(1, 1).with_content(context));
            },
        }
        e
    }

    /// إضافة سياق الكود من السطر الحالي
    pub fn with_span(self, span: Span) -> (r: Self)
        ensures
            self.location is None ==> r == self,
            self.location is Some ==> r == (AlMarjaaError {
                location: Some(
                    SourceLocation {
                        start_offset: span.start.offset,
                        end_offset: span.end.offset,
                        line: span.start.line,
                        column: span.start.column,
                        ..self.location.unwrap()
                    },
                ),
                ..self
            }),
    {
        let mut e = self;
        match e.location {
            Some(loc) => {
                let mut l = loc;
                l.start_offset = span.start.offset;
                l.end_offset = span.end.offset;
                l.line = span.start.line;
                l.column = span.start.column;
                e.location = Some(l);
            },
            None => {},
        }
        e
    }
}

/// The suggestions of a plain rendering, numbered from one.
pub open spec fn plain_suggestions(sugs: Seq<Suggestion>) -> Seq<char>
    decreases sugs.len(),
{
    if sugs.len() == 0 {
        Seq::empty()
    } else {
        let s = sugs.last();
        plain_suggestions(sugs.drop_last()) + decimal(sugs.len()) + ". "@ + s.message@ + "\n"@
            + match s.code {
            Some(c) => "   مثال: "@ + c@ + "\n"@,
            None => Seq::empty(),
        }
    }
}

/// The location lines of a plain rendering.
pub open spec fn plain_location(loc: Option<SourceLocation>) -> Seq<char> {
    match loc {
        Some(l) => "الموقع: "@ + l.file@ + ":"@ + decimal(l.line as nat) + ":"@ + decimal(
            l.column as nat,
        ) + "\n"@ + if l.line_content@.len() > 0 {
            "  "@ + decimal(l.line as nat) + " │ "@ + l.line_content@ + "\n"@ + "    │ "@ + repeat(
                " "@,
                indent_for(l.column),
            ) + "^\n"@
        } else {
            Seq::empty()
        },
        None => Seq::empty(),
    }
}

/// The plain rendering of an error: heading, message, location, trace,
/// numbered suggestions and help.
pub open spec fn plain_error(e: AlMarjaaError) -> Seq<char> {
    e.severity.spec_icon() + ": "@ + e.severity.spec_arabic_name() + " ["@ + e.code.spec_code()
        + "]\n"@ + "الرسالة: "@ + e.message@ + "\n"@ + plain_location(e.location) + (if e.stack_trace.frames@.len()
        > 0 {
        plain_trace(e.stack_trace@.0)
    } else {
        Seq::empty()
    }) + plain_suggestions(e.suggestions@) + match e.help {
        Some(h) => "مساعدة: "@ + h@ + "\n"@,
        None => Seq::empty(),
    }
}

pub(crate) fn suggestions_plain(sugs: &Vec<Suggestion>) -> (r: String)
    ensures
        r@ == plain_suggestions(sugs@),
{
    let mut out = String::new();
    let n = sugs.len();
    let mut i: usize = 0;
    while i < n
        invariant
            n == sugs@.len(),
            i <= n,
            out@ == plain_suggestions(sugs@.take(i as int)),
        decreases n - i,
    {
        let s = &sugs[i];
        assert(sugs@.take(i + 1).drop_last() =~= sugs@.take(i as int));
        assert(sugs@.take(i + 1).last() == sugs@[i as int]);
        out.append(usize_text(i + 1).as_str());
        out.append(". ");
        out.append(s.message.as_str());
        out.append("\n");
        match &s.code {
            Some(c) => {
                out.append("   مثال: ");
                out.append(c.as_str());
                out.append("\n");
            },
            None => {},
        }
        i = i + 1;
    }
    assert(sugs@.take(n as int) =~= sugs@);
    out
}

pub(crate) fn location_plain(loc: &Option<SourceLocation>) -> (r: String)
    ensures
        r@ == plain_location(*loc),
{
    let mut output = String::new();
    match loc {
        Some(loc) => {
            output.append("الموقع: ");
            output.append(loc.format_location().as_str());
            output.append("\n");
            if loc.line_content.as_str().unicode_len() > 0 {
                output.append("  ");
                output.append(usize_text(loc.line).as_str());
                output.append(" │ ");
                output.append(loc.line_content.as_str());
                output.append("\n");
                output.append("    │ ");
                let spaces = if loc.column > 0 { loc.column - 1 } else { 0 };
                output.append(repeat_str(" ", spaces).as_str());
                output.append("^\n");
            }
        },
        None => {},
    }
    output
}

pub(crate) fn help_plain(help: &Option<String>) -> (r: String)
    ensures
        r@ == match *help {
            Some(h) => "مساعدة: "@ + h@ + "\n"@,
            None => Seq::<char>::empty(),
        },
{
    let mut output = String::new();
    match help {
        Some(h) => {
            output.append("مساعدة: ");
            output.append(h.as_str());
            output.append("\n");
        },
        None => {},
    }
    output
}

impl AlMarjaaError {
    /// تنسيق بدون ألوان
    #[verifier::rlimit(20)]
    pub fn format_plain(&self) -> (r: String)
        ensures
            r@ == plain_error(*self),
    {
        let mut output = String::from_str(self.severity.icon());
        output.append(": ");
        output.append(self.severity.arabic_name());
        output.append(" [");
        output.append(self.code.code());
        output.append("]\n");
        output.append("الرسالة: ");
        output.append(self.message.as_str());
        output.append("\n");
        output.append(location_plain(&self.location).as_str());
        let trace = if !self.stack_trace.is_empty() {
            self.stack_trace.format_plain()
        } else {
            String::new()
        };
        output.append(trace.as_str());
        output.append(suggestions_plain(&self.suggestions).as_str());
        output.append(help_plain(&self.help).as_str());
        assert(output@ =~= plain_error(*self));
        output
    }
}

/// The width of the underline under an error: its span's length, at least one.
pub open spec fn underline_len(l: SourceLocation) -> nat {
    if l.end_offset > l.start_offset { (l.end_offset - l.start_offset) as nat } else { 1 }
}

/// The marker line under the error column: carets as wide as the span. The
/// carets are written unstyled, as the repetition takes the bare text.
pub open spec fn colored_marker(l: SourceLocation) -> Seq<(Tone, Seq<char>)> {
    seq![plain("    │ "@ + repeat(" "@, indent_for(l.column)) + repeat("^"@, underline_len(l)) + "\n"@)]
}

/// One line of code context; the error's own line is highlighted.
pub open spec fn colored_context_line(c: (usize, String), l: SourceLocation) -> Seq<(Tone, Seq<char>)> {
    if c.0 == l.line {
        seq![
            plain("  "@),
            (Tone::BrightRedBold, decimal(c.0 as nat)),
            plain(" │ "@),
            (Tone::BrightRed, "|"@),
            plain(" "@),
            (Tone::BrightWhiteOnRed, c.1@),
            plain("\n"@),
        ] + colored_marker(l)
    } else {
        seq![
            plain("  "@),
            (Tone::BrightBlue, decimal(c.0 as nat)),
            plain(" │ "@),
            (Tone::BrightBlue, "|"@),
            plain(" "@),
            (Tone::BrightWhite, c.1@),
            plain("\n"@),
        ]
    }
}

/// The code context lines, in order.
pub open spec fn colored_context(ctx: Seq<(usize, String)>, l: SourceLocation) -> Seq<(Tone, Seq<char>)>
    decreases ctx.len(),
{
    if ctx.len() == 0 {
        Seq::empty()
    } else {
        colored_context(ctx.drop_last(), l) + colored_context_line(ctx.last(), l)
    }
}

/// The location block of the coloured rendering.
pub open spec fn colored_location(loc: Option<SourceLocation>, ctx: Seq<(usize, String)>) -> Seq<
    (Tone, Seq<char>),
> {
    match loc {
        Some(l) => seq![
            (Tone::BrightCyanBold, "📍 الموقع:"@),
            plain(" "@),
            (Tone::BrightWhiteUnderline, l.file@),
            plain(":"@),
            (Tone::BrightYellow, decimal(l.line as nat)),
            plain(":"@),
            (Tone::BrightYellow, decimal(l.column as nat)),
            plain("\n"@),
        ] + (if l.line_content@.len() > 0 || ctx.len() > 0 {
            seq![plain("\n"@)] + if ctx.len() > 0 {
                colored_context(ctx, l)
            } else {
                seq![
                    plain("  "@),
                    (Tone::BrightBlue, decimal(l.line as nat)),
                    plain(" │ "@),
                    (Tone::BrightWhite, l.line_content@),
                    plain("\n"@),
                ] + colored_marker(l)
            }
        } else {
            Seq::empty()
        }) + seq![plain("\n"@)],
        None => Seq::empty(),
    }
}

/// The numbered suggestions of the coloured rendering.
pub open spec fn colored_suggestion_entries(sugs: Seq<Suggestion>) -> Seq<(Tone, Seq<char>)>
    decreases sugs.len(),
{
    if sugs.len() == 0 {
        Seq::empty()
    } else {
        let s = sugs.last();
        colored_suggestion_entries(sugs.drop_last()) + seq![
            plain("   "@),
            (Tone::BrightYellow, decimal(sugs.len())),
            plain(". "@),
            (Tone::BrightGreen, s.message@),
            plain("\n"@),
        ] + match s.code {
            Some(c) => seq![
                plain("      "@),
                (Tone::Dimmed, "مثال:"@),
                plain(" "@),
                (Tone::BrightWhiteItalic, c@),
                plain("\n"@),
            ],
            None => Seq::empty(),
        }
    }
}

/// The notes of the coloured rendering.
pub open spec fn colored_notes(notes: Seq<String>) -> Seq<(Tone, Seq<char>)>
    decreases notes.len(),
{
    if notes.len() == 0 {
        Seq::empty()
    } else {
        colored_notes(notes.drop_last()) + seq![
            (Tone::BrightMagenta, "📝 ملاحظة:"@),
            plain(" "@),
            (Tone::BrightWhite, notes.last()@),
            plain("\n"@),
        ]
    }
}

/// The heading and message of the coloured rendering.
pub open spec fn colored_heading(e: AlMarjaaError) -> Seq<(Tone, Seq<char>)> {
    seq![
        plain("\n"@),
        (Tone::BrightRed, "╔════════════════════════════════════════════════════════════════╗"@),
        plain("\n"@),
        plain("║  "@ + e.severity.spec_icon() + " "@),
        (Tone::BrightRedBold, e.severity.spec_arabic_name()),
        plain(" "@ + e.code.spec_icon() + " ["@),
        (Tone::BrightYellow, e.code.spec_code()),
        plain("]\n"@),
        (Tone::BrightRed, "╚════════════════════════════════════════════════════════════════╝"@),
        plain("\n\n"@),
        (Tone::BrightCyanBold, "📝 الرسالة:"@),
        plain(" "@),
        (Tone::BrightWhite, e.message@),
        plain("\n"@),
        plain("\n"@),
    ]
}

/// The coloured rendering of an error, as a document.
pub open spec fn colored_error(e: AlMarjaaError) -> Seq<(Tone, Seq<char>)> {
    colored_heading(e) + colored_location(e.location, e.code_context@) + (if e.stack_trace.frames@.len()
        > 0 {
        arabic_trace(e.stack_trace@.0)
    } else {
        Seq::empty()
    }) + (if e.suggestions@.len() > 0 {
        seq![plain("\n"@), (Tone::BrightYellow, "💡"@), plain(" اقتراحات الإصلاح:\n"@)]
            + colored_suggestion_entries(e.suggestions@)
    } else {
        Seq::empty()
    }) + match e.help {
        Some(h) => seq![
            plain("\n"@),
            (Tone::BrightCyan, "ℹ️ مساعدة:"@),
            plain(" "@),
            (Tone::BrightWhite, h@),
            plain("\n"@),
        ],
        None => Seq::empty(),
    } + colored_notes(e.notes@)
}

/// Error codes hold no escape character.
proof fn lemma_code_plain(c: ErrorCode)
    ensures
        no_escape(c.spec_code()),
{
    match c {
        ErrorCode::E100 => reveal_strlit("E100"),
        ErrorCode::E101 => reveal_strlit("E101"),
        ErrorCode::E102 => reveal_strlit("E102"),
        ErrorCode::E103 => reveal_strlit("E103"),
        ErrorCode::E104 => reveal_strlit("E104"),
        ErrorCode::E200 => reveal_strlit("E200"),
        ErrorCode::E201 => reveal_strlit("E201"),
        ErrorCode::E202 => reveal_strlit("E202"),
        ErrorCode::E203 => reveal_strlit("E203"),
        ErrorCode::E204 => reveal_strlit("E204"),
        ErrorCode::E205 => reveal_strlit("E205"),
        ErrorCode::E300 => reveal_strlit("E300"),
        ErrorCode::E301 => reveal_strlit("E301"),
        ErrorCode::E302 => reveal_strlit("E302"),
        ErrorCode::E303 => reveal_strlit("E303"),
        ErrorCode::E304 => reveal_strlit("E304"),
        ErrorCode::E305 => reveal_strlit("E305"),
        ErrorCode::E306 => reveal_strlit("E306"),
        ErrorCode::E307 => reveal_strlit("E307"),
        ErrorCode::E308 => reveal_strlit("E308"),
        ErrorCode::E309 => reveal_strlit("E309"),
        ErrorCode::E400 => reveal_strlit("E400"),
        ErrorCode::E401 => reveal_strlit("E401"),
        ErrorCode::E402 => reveal_strlit("E402"),
        ErrorCode::E403 => reveal_strlit("E403"),
        ErrorCode::E404 => reveal_strlit("E404"),
        ErrorCode::E500 => reveal_strlit("E500"),
        ErrorCode::E501 => reveal_strlit("E501"),
        ErrorCode::E999 => reveal_strlit("E999"),
    }
}

/// Severity names hold no escape character.
proof fn lemma_severity_plain(s: Severity)
    ensures
        no_escape(s.spec_arabic_name()),
{
    match s {
        Severity::Warning => reveal_strlit("تحذير"),
        Severity::Error => reveal_strlit("خطأ"),
        Severity::Critical => reveal_strlit("خطأ حرج"),
    }
}

/// The suggestion entries hold each suggestion's message.
proof fn lemma_suggestions_hold(sugs: Seq<Suggestion>, k: int)
    requires
        0 <= k < sugs.len(),
    ensures
        colored_suggestion_entries(sugs).contains((Tone::BrightGreen, sugs[k].message@)),
    decreases sugs.len(),
{
    let front = colored_suggestion_entries(sugs.drop_last());
    let s = sugs.last();
    let block = seq![
        plain("   "@),
        (Tone::BrightYellow, decimal(sugs.len())),
        plain(". "@),
        (Tone::BrightGreen, s.message@),
        plain("\n"@),
    ];
    let code = match s.code {
        Some(c) => seq![
            plain("      "@),
            (Tone::Dimmed, "مثال:"@),
            plain(" "@),
            (Tone::BrightWhiteItalic, c@),
            plain("\n"@),
        ],
        None => Seq::<(Tone, Seq<char>)>::empty(),
    };
    assert(colored_suggestion_entries(sugs) == front + block + code);
    let x = (Tone::BrightGreen, sugs[k].message@);
    if k == sugs.len() - 1 {
        assert(block[3] == x);
        assert(block.contains(x));
    } else {
        lemma_suggestions_hold(sugs.drop_last(), k);
        assert(sugs.drop_last()[k] == sugs[k]);
    }
    crate::style::lemma_contains_add(front, block, x);
    crate::style::lemma_contains_add(front + block, code, x);
}

/// The notes of the rendering hold each note.
proof fn lemma_notes_hold(notes: Seq<String>, k: int)
    requires
        0 <= k < notes.len(),
    ensures
        colored_notes(notes).contains((Tone::BrightWhite, notes[k]@)),
    decreases notes.len(),
{
    let front = colored_notes(notes.drop_last());
    let block = seq![
        (Tone::BrightMagenta, "📝 ملاحظة:"@),
        plain(" "@),
        (Tone::BrightWhite, notes.last()@),
        plain("\n"@),
    ];
    assert(colored_notes(notes) == front + block);
    let x = (Tone::BrightWhite, notes[k]@);
    if k == notes.len() - 1 {
        assert(block[2] == x);
        assert(block.contains(x));
    } else {
        lemma_notes_hold(notes.drop_last(), k);
        assert(notes.drop_last()[k] == notes[k]);
    }
    crate::style::lemma_contains_add(front, block, x);
}

/// What any section of an error's coloured rendering holds, the rendering
/// holds.
proof fn lemma_colored_sections(e: AlMarjaaError, x: (Tone, Seq<char>))
    ensures
        ({
            let h = colored_heading(e);
            let l = colored_location(e.location, e.code_context@);
            let t = if e.stack_trace.frames@.len() > 0 {
                arabic_trace(e.stack_trace@.0)
            } else {
                Seq::empty()
            };
            let s = if e.suggestions@.len() > 0 {
                seq![plain("\n"@), (Tone::BrightYellow, "💡"@), plain(" اقتراحات الإصلاح:\n"@)]
                    + colored_suggestion_entries(e.suggestions@)
            } else {
                Seq::empty()
            };
            let hp = match e.help {
                Some(hv) => seq![
                    plain("\n"@),
                    (Tone::BrightCyan, "ℹ️ مساعدة:"@),
                    plain(" "@),
                    (Tone::BrightWhite, hv@),
                    plain("\n"@),
                ],
                None => Seq::empty(),
            };
            let n = colored_notes(e.notes@);
            (h.contains(x) || l.contains(x) || t.contains(x) || s.contains(x) || hp.contains(x) || n.contains(x))
                ==> colored_error(e).contains(x)
        }),
{
    let h = colored_heading(e);
    let l = colored_location(e.location, e.code_context@);
    let t = if e.stack_trace.frames@.len() > 0 {
        arabic_trace(e.stack_trace@.0)
    } else {
        Seq::empty()
    };
    let s = if e.suggestions@.len() > 0 {
        seq![plain("\n"@), (Tone::BrightYellow, "💡"@), plain(" اقتراحات الإصلاح:\n"@)]
            + colored_suggestion_entries(e.suggestions@)
    } else {
        Seq::empty()
    };
    let hp = match e.help {
        Some(hv) => seq![
            plain("\n"@),
            (Tone::BrightCyan, "ℹ️ مساعدة:"@),
            plain(" "@),
            (Tone::BrightWhite, hv@),
            plain("\n"@),
        ],
        None => Seq::empty(),
    };
    let n = colored_notes(e.notes@);
    assert(colored_error(e) == h + l + t + s + hp + n);
    crate::style::lemma_contains_add(h, l, x);
    crate::style::lemma_contains_add(h + l, t, x);
    crate::style::lemma_contains_add(h + l + t, s, x);
    crate::style::lemma_contains_add(h + l + t + s, hp, x);
    crate::style::lemma_contains_add(h + l + t + s + hp, n, x);
}

/// Decimal numbers hold no escape character.
proof fn lemma_decimal_plain(n: nat)
    ensures
        no_escape(decimal(n)),
    decreases n,
{
    if n >= 10 {
        lemma_decimal_plain(n / 10);
    }
}

/// The trace section of an error's coloured rendering.
pub open spec fn colored_trace_part(e: AlMarjaaError) -> Seq<(Tone, Seq<char>)> {
    if e.stack_trace.frames@.len() > 0 {
        arabic_trace(e.stack_trace@.0)
    } else {
        Seq::empty()
    }
}

/// Where the entry of the `k`-th suggestion begins in an error's coloured
/// rendering.
pub open spec fn suggestion_start(e: AlMarjaaError, k: int) -> int {
    (colored_heading(e).len() + colored_location(e.location, e.code_context@).len() + colored_trace_part(e).len() + 3
        + colored_suggestion_entries(e.suggestions@.take(k)).len()) as int
}

/// The suggestion entries of a list begin with those of its first `k`
/// suggestions, then the entry of suggestion `k`.
proof fn lemma_suggestions_prefix(sugs: Seq<Suggestion>, k: int)
    requires
        0 <= k < sugs.len(),
    ensures
        ({
            let before = colored_suggestion_entries(sugs.take(k));
            let all = colored_suggestion_entries(sugs);
            &&& all.len() >= before.len() + 4
            &&& all[before.len() + 1int] == (Tone::BrightYellow, decimal((k + 1) as nat))
            &&& all[before.len() + 3int] == (Tone::BrightGreen, sugs[k].message@)
            &&& colored_suggestion_entries(sugs.take(k + 1)).len() > before.len()
            &&& forall|t: int| 0 <= t < colored_suggestion_entries(sugs.take(k + 1)).len() ==> all[t]
                == #[trigger] colored_suggestion_entries(sugs.take(k + 1))[t]
        }),
    decreases sugs.len(),
{
    let m = sugs.len() - 1;
    assert(sugs.take(k + 1).drop_last() =~= sugs.take(k));
    assert(sugs.take(k + 1).last() == sugs[k]);
    let front = colored_suggestion_entries(sugs.drop_last());
    let last = sugs.last();
    let block = seq![
        plain("   "@),
        (Tone::BrightYellow, decimal(sugs.len())),
        plain(". "@),
        (Tone::BrightGreen, last.message@),
        plain("\n"@),
    ];
    let code = match last.code {
        Some(c) => seq![
            plain("      "@),
            (Tone::Dimmed, "مثال:"@),
            plain(" "@),
            (Tone::BrightWhiteItalic, c@),
            plain("\n"@),
        ],
        None => Seq::<(Tone, Seq<char>)>::empty(),
    };
    let all = colored_suggestion_entries(sugs);
    assert(all == front + block + code);
    if k == m {
        assert(sugs.take(k + 1) =~= sugs);
        assert(sugs.drop_last() =~= sugs.take(k));
        assert(all[front.len() + 1int] == block[1]);
        assert(all[front.len() + 3int] == block[3]);
        assert(colored_suggestion_entries(sugs.take(k + 1)) == all);
    } else {
        lemma_suggestions_prefix(sugs.drop_last(), k);
        assert(sugs.drop_last().take(k) =~= sugs.take(k));
        assert(sugs.drop_last().take(k + 1) =~= sugs.take(k + 1));
        assert(sugs.drop_last()[k] == sugs[k]);
        assert forall|t: int| 0 <= t < front.len() implies all[t] == #[trigger] front[t] by {
            assert((front + block + code)[t] == front[t]);
        }
        let before = colored_suggestion_entries(sugs.take(k));
        assert(all[before.len() + 1int] == front[before.len() + 1int]);
        assert(all[before.len() + 3int] == front[before.len() + 3int]);
        let next = colored_suggestion_entries(sugs.take(k + 1));
        lemma_suggestions_len_grows(sugs.drop_last(), k + 1, m);
        assert(sugs.drop_last().take(m) =~= sugs.drop_last());
        assert forall|t: int| 0 <= t < next.len() implies all[t] == #[trigger] next[t] by {
            assert(front[t] == next[t]);
        }
    }
}

/// Where an error's coloured rendering puts its location and its
/// suggestions: after the heading, the location heading, file, line and
/// column; then, after the trace, the suggestions in order, each with its
/// number counted from one and its message.
pub proof fn law_colored_error_layout(e: AlMarjaaError, k: int, j: int)
    ensures
        ({
            let doc = colored_error(e);
            let h = colored_heading(e).len() as int;
            e.location matches Some(l) ==> {
                &&& doc[h] == (Tone::BrightCyanBold, "📍 الموقع:"@)
                &&& doc[h + 2] == (Tone::BrightWhiteUnderline, l.file@)
                &&& doc[h + 4] == (Tone::BrightYellow, decimal(l.line as nat))
                &&& doc[h + 6] == (Tone::BrightYellow, decimal(l.column as nat))
            }
        }),
        0 <= k < e.suggestions@.len() ==> {
            let doc = colored_error(e);
            let a = suggestion_start(e, k);
            &&& a + 4 <= doc.len()
            &&& doc[a + 1] == (Tone::BrightYellow, decimal((k + 1) as nat))
            &&& doc[a + 3] == (Tone::BrightGreen, e.suggestions@[k].message@)
        },
        0 <= k < j < e.suggestions@.len() ==> suggestion_start(e, k) < suggestion_start(e, j),
{
    let h = colored_heading(e);
    let l = colored_location(e.location, e.code_context@);
    let t = colored_trace_part(e);
    let sugs = e.suggestions@;
    let sh = seq![plain("\n"@), (Tone::BrightYellow, "💡"@), plain(" اقتراحات الإصلاح:\n"@)];
    let s = if sugs.len() > 0 {
        sh + colored_suggestion_entries(sugs)
    } else {
        Seq::empty()
    };
    let hp = match e.help {
        Some(hv) => seq![
            plain("\n"@),
            (Tone::BrightCyan, "ℹ️ مساعدة:"@),
            plain(" "@),
            (Tone::BrightWhite, hv@),
            plain("\n"@),
        ],
        None => Seq::empty(),
    };
    let n = colored_notes(e.notes@);
    let doc = colored_error(e);
    assert(doc == h + l + t + s + hp + n);
    match e.location {
        Some(lv) => {
            assert(doc[h.len() as int] == l[0]);
            assert(doc[h.len() + 2int] == l[2]);
            assert(doc[h.len() + 4int] == l[4]);
            assert(doc[h.len() + 6int] == l[6]);
        },
        None => {},
    }
    let base = h.len() + l.len() + t.len();
    if 0 <= k < sugs.len() {
        lemma_suggestions_prefix(sugs, k);
        let before = colored_suggestion_entries(sugs.take(k));
        let all = colored_suggestion_entries(sugs);
        assert(doc[base + 3 + before.len() + 1int] == all[before.len() + 1int]);
        assert(doc[base + 3 + before.len() + 3int] == all[before.len() + 3int]);
    }
    if 0 <= k < j < sugs.len() {
        lemma_suggestions_prefix(sugs, k);
        lemma_suggestions_prefix(sugs, j - 1);
        lemma_suggestions_len_grows(sugs, k + 1, j);
    }
}

/// The suggestion entries of a longer prefix are no shorter.
proof fn lemma_suggestions_len_grows(sugs: Seq<Suggestion>, a: int, b: int)
    requires
        0 <= a <= b <= sugs.len(),
    ensures
        colored_suggestion_entries(sugs.take(a)).len() <= colored_suggestion_entries(sugs.take(b)).len(),
    decreases b - a,
{
    if a < b {
        lemma_suggestions_len_grows(sugs, a, b - 1);
        assert(sugs.take(b).drop_last() =~= sugs.take(b - 1));
    }
}

proof fn lemma_heading_shows(e: AlMarjaaError, out: Seq<char>)
    requires
        renders(out, colored_error(e)),
    ensures
        has_substring(out, e.code.spec_code()),
        has_substring(out, e.severity.spec_arabic_name()),
        no_escape(e.message@) ==> has_substring(out, e.message@),
{
    let doc = colored_error(e);
    let h = colored_heading(e);
    lemma_code_plain(e.code);
    lemma_severity_plain(e.severity);
    assert(h.contains(h[4]));
    assert(h.contains(h[6]));
    assert(h.contains(h[12]));
    lemma_colored_sections(e, h[4]);
    lemma_colored_sections(e, h[6]);
    lemma_colored_sections(e, h[12]);
    crate::style::lemma_held_segment_shows(out, doc, h[4]);
    crate::style::lemma_held_segment_shows(out, doc, h[6]);
    if no_escape(e.message@) {
        crate::style::lemma_held_segment_shows(out, doc, h[12]);
    }
}

proof fn lemma_suggestion_shows(e: AlMarjaaError, out: Seq<char>, k: int)
    requires
        renders(out, colored_error(e)),
        0 <= k < e.suggestions@.len(),
        no_escape(e.suggestions@[k].message@),
    ensures
        has_substring(out, e.suggestions@[k].message@),
{
    let x = (Tone::BrightGreen, e.suggestions@[k].message@);
    let head = seq![plain("\n"@), (Tone::BrightYellow, "💡"@), plain(" اقتراحات الإصلاح:\n"@)];
    lemma_suggestions_hold(e.suggestions@, k);
    crate::style::lemma_contains_add(head, colored_suggestion_entries(e.suggestions@), x);
    lemma_colored_sections(e, x);
    crate::style::lemma_held_segment_shows(out, colored_error(e), x);
}

proof fn lemma_note_shows(e: AlMarjaaError, out: Seq<char>, k: int)
    requires
        renders(out, colored_error(e)),
        0 <= k < e.notes@.len(),
        no_escape(e.notes@[k]@),
    ensures
        has_substring(out, e.notes@[k]@),
{
    let x = (Tone::BrightWhite, e.notes@[k]@);
    lemma_notes_hold(e.notes@, k);
    lemma_colored_sections(e, x);
    crate::style::lemma_held_segment_shows(out, colored_error(e), x);
}

proof fn lemma_help_shows(e: AlMarjaaError, out: Seq<char>)
    requires
        renders(out, colored_error(e)),
    ensures
        e.help is Some && no_escape(e.help->0@) ==> has_substring(out, e.help->0@),
{
    match e.help {
        Some(hv) => {
            let hp = seq![
                plain("\n"@),
                (Tone::BrightCyan, "ℹ️ مساعدة:"@),
                plain(" "@),
                (Tone::BrightWhite, hv@),
                plain("\n"@),
            ];
            assert(hp.contains(hp[3]));
            lemma_colored_sections(e, hp[3]);
            if no_escape(hv@) {
                crate::style::lemma_held_segment_shows(out, colored_error(e), hp[3]);
            }
        },
        None => {},
    }
}

proof fn lemma_location_shows(e: AlMarjaaError, out: Seq<char>)
    requires
        renders(out, colored_error(e)),
    ensures
        e.location is Some ==> has_substring(out, "📍 الموقع:"@),
        e.location is Some && no_escape(e.location->0.file@) ==> has_substring(out, e.location->0.file@),
        e.location is Some ==> has_substring(out, decimal(e.location->0.line as nat)) && has_substring(
            out,
            decimal(e.location->0.column as nat),
        ),
{
    reveal_strlit("📍 الموقع:");
    match e.location {
        Some(l) => {
            let loc = colored_location(e.location, e.code_context@);
            assert(loc[0] == (Tone::BrightCyanBold, "📍 الموقع:"@));
            assert(loc[2] == (Tone::BrightWhiteUnderline, l.file@));
            assert(loc.contains(loc[0]));
            assert(loc.contains(loc[2]));
            lemma_colored_sections(e, loc[0]);
            lemma_colored_sections(e, loc[2]);
            crate::style::lemma_held_segment_shows(out, colored_error(e), loc[0]);
            assert(loc.contains(loc[4]));
            assert(loc.contains(loc[6]));
            lemma_colored_sections(e, loc[4]);
            lemma_colored_sections(e, loc[6]);
            lemma_decimal_plain(l.line as nat);
            lemma_decimal_plain(l.column as nat);
            crate::style::lemma_held_segment_shows(out, colored_error(e), loc[4]);
            crate::style::lemma_held_segment_shows(out, colored_error(e), loc[6]);
            if no_escape(l.file@) {
                crate::style::lemma_held_segment_shows(out, colored_error(e), loc[2]);
            }
        },
        None => {},
    }
}

proof fn lemma_trace_title_shows(e: AlMarjaaError, out: Seq<char>)
    requires
        renders(out, colored_error(e)),
    ensures
        e.stack_trace.frames@.len() > 0 ==> has_substring(out, "                    📚 تتبع المكالمة                            "@),
{
    reveal_strlit("                    📚 تتبع المكالمة                            ");
    if e.stack_trace.frames@.len() > 0 {
        let t = arabic_trace(e.stack_trace@.0);
        let title = (Tone::BrightCyanBold, "                    📚 تتبع المكالمة                            "@);
        assert(t[3] == title);
        assert(t.contains(title));
        lemma_colored_sections(e, title);
        crate::style::lemma_held_segment_shows(out, colored_error(e), title);
    }
}

/// What the coloured rendering of an error shows: its code and severity,
/// its message, each suggestion's message, its help, each note, where it
/// happened (the location heading, file, line and column), and the trace
/// heading when it has a trace. A message, suggestion, help, note or file shows when it
/// holds no escape character, which the terminal styling reserves.
pub proof fn law_colored_error_shows(e: AlMarjaaError, out: Seq<char>)
    requires
        renders(out, colored_error(e)),
    ensures
        has_substring(out, e.code.spec_code()),
        has_substring(out, e.severity.spec_arabic_name()),
        no_escape(e.message@) ==> has_substring(out, e.message@),
        forall|k: int|
            0 <= k < e.suggestions@.len() && no_escape(#[trigger] e.suggestions@[k].message@) ==> has_substring(
                out,
                e.suggestions@[k].message@,
            ),
        e.help is Some && no_escape(e.help->0@) ==> has_substring(out, e.help->0@),
        forall|k: int|
            0 <= k < e.notes@.len() && no_escape(#[trigger] e.notes@[k]@) ==> has_substring(out, e.notes@[k]@),
        e.location is Some ==> has_substring(out, "📍 الموقع:"@),
        e.location is Some && no_escape(e.location->0.file@) ==> has_substring(out, e.location->0.file@),
        e.location is Some ==> has_substring(out, decimal(e.location->0.line as nat)) && has_substring(
            out,
            decimal(e.location->0.column as nat),
        ),
        e.stack_trace.frames@.len() > 0 ==> has_substring(out, "                    📚 تتبع المكالمة                            "@),
{
    lemma_heading_shows(e, out);
    assert forall|k: int|
        0 <= k < e.suggestions@.len() && no_escape(#[trigger] e.suggestions@[k].message@) implies has_substring(
            out,
            e.suggestions@[k].message@,
        ) by {
        lemma_suggestion_shows(e, out, k);
    }
    lemma_help_shows(e, out);
    assert forall|k: int|
        0 <= k < e.notes@.len() && no_escape(#[trigger] e.notes@[k]@) implies has_substring(out, e.notes@[k]@) by {
        lemma_note_shows(e, out, k);
    }
    lemma_location_shows(e, out);
    lemma_trace_title_shows(e, out);
}

pub(crate) fn marker_doc(d: &mut Vec<Styled>, l: &SourceLocation)
    ensures
        doc_view(final(d)@) == doc_view(old(d)@) + colored_marker(*l),
{
    let ghost before = doc_view(d@);
    let mut line = String::from_str("    │ ");
    let spaces = if l.column > 0 { l.column - 1 } else { 0 };
    line.append(repeat_str(" ", spaces).as_str());
    let n: usize = if l.end_offset > l.start_offset { l.end_offset - l.start_offset } else { 1 };
    line.append(repeat_str("^", n).as_str());
    line.append("\n");
    push_seg_owned(d, Tone::Plain, line);
    assert(doc_view(d@) =~= before + colored_marker(*l));
}

fn context_doc(d: &mut Vec<Styled>, ctx: &Vec<(usize, String)>, l: &SourceLocation)
    ensures
        doc_view(final(d)@) == doc_view(old(d)@) + colored_context(ctx@, *l),
{
    let ghost before = doc_view(d@);
    let n = ctx.len();
    let mut i: usize = 0;
    while i < n
        invariant
            n == ctx@.len(),
            i <= n,
            doc_view(d@) == before + colored_context(ctx@.take(i as int), *l),
        decreases n - i,
    {
        assert(ctx@.take(i + 1).drop_last() =~= ctx@.take(i as int));
        assert(ctx@.take(i + 1).last() == ctx@[i as int]);
        let ghost start = doc_view(d@);
        let line_num = ctx[i].0;
        let content = ctx[i].1.as_str();
        if line_num == l.line {
            push_seg(d, Tone::Plain, "  ");
            push_seg_owned(d, Tone::BrightRedBold, usize_text(line_num));
            push_seg(d, Tone::Plain, " │ ");
            push_seg(d, Tone::BrightRed, "|");
            push_seg(d, Tone::Plain, " ");
            push_seg(d, Tone::BrightWhiteOnRed, content);
            push_seg(d, Tone::Plain, "\n");
            marker_doc(d, l);
        } else {
            push_seg(d, Tone::Plain, "  ");
            push_seg_owned(d, Tone::BrightBlue, usize_text(line_num));
            push_seg(d, Tone::Plain, " │ ");
            push_seg(d, Tone::BrightBlue, "|");
            push_seg(d, Tone::Plain, " ");
            push_seg(d, Tone::BrightWhite, content);
            push_seg(d, Tone::Plain, "\n");
        }
        assert(doc_view(d@) =~= start + colored_context_line(ctx@[i as int], *l));
        i = i + 1;
    }
    assert(ctx@.take(n as int) =~= ctx@);
}

fn location_doc(d: &mut Vec<Styled>, loc: &Option<SourceLocation>, ctx: &Vec<(usize, String)>)
    ensures
        doc_view(final(d)@) == doc_view(old(d)@) + colored_location(*loc, ctx@),
{
    let ghost before = doc_view(d@);
    match loc {
        Some(l) => {
            push_seg(d, Tone::BrightCyanBold, "📍 الموقع:");
            push_seg(d, Tone::Plain, " ");
            push_seg(d, Tone::BrightWhiteUnderline, l.file.as_str());
            push_seg(d, Tone::Plain, ":");
            push_seg_owned(d, Tone::BrightYellow, usize_text(l.line));
            push_seg(d, Tone::Plain, ":");
            push_seg_owned(d, Tone::BrightYellow, usize_text(l.column));
            push_seg(d, Tone::Plain, "\n");
            let ghost mid = doc_view(d@);
            let has_content = l.line_content.as_str().unicode_len() > 0;
            if has_content || ctx.len() > 0 {
                push_seg(d, Tone::Plain, "\n");
                if ctx.len() > 0 {
                    context_doc(d, ctx, l);
                } else {
                    push_seg(d, Tone::Plain, "  ");
                    push_seg_owned(d, Tone::BrightBlue, usize_text(l.line));
                    push_seg(d, Tone::Plain, " │ ");
                    push_seg(d, Tone::BrightWhite, l.line_content.as_str());
                    push_seg(d, Tone::Plain, "\n");
                    marker_doc(d, l);
                }
            }
            push_seg(d, Tone::Plain, "\n");
            assert(doc_view(d@) =~= before + colored_location(*loc, ctx@));
        },
        None => {
            assert(doc_view(d@) =~= before + colored_location(*loc, ctx@));
        },
    }
}

pub(crate) fn suggestions_doc(d: &mut Vec<Styled>, sugs: &Vec<Suggestion>)
    ensures
        doc_view(final(d)@) == doc_view(old(d)@) + colored_suggestion_entries(sugs@),
{
    let ghost before = doc_view(d@);
    let n = sugs.len();
    let mut i: usize = 0;
    while i < n
        invariant
            n == sugs@.len(),
            i <= n,
            doc_view(d@) == before + colored_suggestion_entries(sugs@.take(i as int)),
        decreases n - i,
    {
        assert(sugs@.take(i + 1).drop_last() =~= sugs@.take(i as int));
        assert(sugs@.take(i + 1).last() == sugs@[i as int]);
        let ghost start = doc_view(d@);
        let s = &sugs[i];
        push_seg(d, Tone::Plain, "   ");
        push_seg_owned(d, Tone::BrightYellow, usize_text(i + 1));
        push_seg(d, Tone::Plain, ". ");
        push_seg(d, Tone::BrightGreen, s.message.as_str());
        push_seg(d, Tone::Plain, "\n");
        match &s.code {
            Some(c) => {
                push_seg(d, Tone::Plain, "      ");
                push_seg(d, Tone::Dimmed, "مثال:");
                push_seg(d, Tone::Plain, " ");
                push_seg(d, Tone::BrightWhiteItalic, c.as_str());
                push_seg(d, Tone::Plain, "\n");
            },
            None => {},
        }
        assert(doc_view(d@) =~= before + colored_suggestion_entries(sugs@.take(i + 1)));
        i = i + 1;
    }
    assert(sugs@.take(n as int) =~= sugs@);
}

pub(crate) fn notes_doc(d: &mut Vec<Styled>, notes: &Vec<String>)
    ensures
        doc_view(final(d)@) == doc_view(old(d)@) + colored_notes(notes@),
{
    let ghost before = doc_view(d@);
    let n = notes.len();
    let mut i: usize = 0;
    while i < n
        invariant
            n == notes@.len(),
            i <= n,
            doc_view(d@) == before + colored_notes(notes@.take(i as int)),
        decreases n - i,
    {
        assert(notes@.take(i + 1).drop_last() =~= notes@.take(i as int));
        assert(notes@.take(i + 1).last() == notes@[i as int]);
        push_seg(d, Tone::BrightMagenta, "📝 ملاحظة:");
        push_seg(d, Tone::Plain, " ");
        push_seg(d, Tone::BrightWhite, notes[i].as_str());
        push_seg(d, Tone::Plain, "\n");
        assert(doc_view(d@) =~= before + colored_notes(notes@.take(i + 1)));
        i = i + 1;
    }
    assert(notes@.take(n as int) =~= notes@);
}

fn heading_doc(d: &mut Vec<Styled>, e: &AlMarjaaError)
    ensures
        doc_view(final(d)@) == doc_view(old(d)@) + colored_heading(*e),
{
    let ghost before = doc_view(d@);
        push_seg(d, Tone::Plain, "\n");
        push_seg(d, Tone::BrightRed, "╔════════════════════════════════════════════════════════════════╗");
        push_seg(d, Tone::Plain, "\n");
        let mut line = String::from_str("║  ");
        line.append(e.severity.icon());
        line.append(" ");
        push_seg_owned(d, Tone::Plain, line);
        push_seg(d, Tone::BrightRedBold, e.severity.arabic_name());
        let mut mid = String::from_str(" ");
        mid.append(e.code.icon());
        mid.append(" [");
        push_seg_owned(d, Tone::Plain, mid);
        push_seg(d, Tone::BrightYellow, e.code.code());
        push_seg(d, Tone::Plain, "]\n");
        push_seg(d, Tone::BrightRed, "╚════════════════════════════════════════════════════════════════╝");
        push_seg(d, Tone::Plain, "\n\n");
        push_seg(d, Tone::BrightCyanBold, "📝 الرسالة:");
        push_seg(d, Tone::Plain, " ");
        push_seg(d, Tone::BrightWhite, e.message.as_str());
        push_seg(d, Tone::Plain, "\n");
        push_seg(d, Tone::Plain, "\n");
    assert(doc_view(d@) =~= before + colored_heading(*e));
}

pub(crate) fn help_doc(d: &mut Vec<Styled>, help: &Option<String>)
    ensures
        doc_view(final(d)@) == doc_view(old(d)@) + match *help {
            Some(h) => seq![
                plain("\n"@),
                (Tone::BrightCyan, "ℹ️ مساعدة:"@),
                plain(" "@),
                (Tone::BrightWhite, h@),
                plain("\n"@),
            ],
            None => Seq::empty(),
        },
{
    let ghost before = doc_view(d@);
    match help {
        Some(h) => {
            push_seg(d, Tone::Plain, "\n");
            push_seg(d, Tone::BrightCyan, "ℹ️ مساعدة:");
            push_seg(d, Tone::Plain, " ");
            push_seg(d, Tone::BrightWhite, h.as_str());
            push_seg(d, Tone::Plain, "\n");
            assert(doc_view(d@) =~= before + seq![
                plain("\n"@),
                (Tone::BrightCyan, "ℹ️ مساعدة:"@),
                plain(" "@),
                (Tone::BrightWhite, h@),
                plain("\n"@),
            ]);
        },
        None => {
            assert(doc_view(d@) =~= before + Seq::empty());
        },
    }
}

pub(crate) fn suggestion_block_doc(d: &mut Vec<Styled>, sugs: &Vec<Suggestion>)
    ensures
        doc_view(final(d)@) == doc_view(old(d)@) + (if sugs@.len() > 0 {
            seq![plain("\n"@), (Tone::BrightYellow, "💡"@), plain(" اقتراحات الإصلاح:\n"@)]
                + colored_suggestion_entries(sugs@)
        } else {
            Seq::empty()
        }),
{
    let ghost before = doc_view(d@);
    if sugs.len() > 0 {
        push_seg(d, Tone::Plain, "\n");
        push_seg(d, Tone::BrightYellow, "💡");
        push_seg(d, Tone::Plain, " اقتراحات الإصلاح:\n");
        suggestions_doc(d, sugs);
    }
    assert(doc_view(d@) =~= before + (if sugs@.len() > 0 {
        seq![plain("\n"@), (Tone::BrightYellow, "💡"@), plain(" اقتراحات الإصلاح:\n"@)]
            + colored_suggestion_entries(sugs@)
    } else {
        Seq::empty()
    }));
}

fn trace_block_doc(d: &mut Vec<Styled>, t: &StackTrace)
    ensures
        doc_view(final(d)@) == doc_view(old(d)@) + (if t.frames@.len() > 0 {
            arabic_trace(t@.0)
        } else {
            Seq::empty()
        }),
{
    let ghost before = doc_view(d@);
    if !t.is_empty() {
        append_doc(d, t.arabic_document());
    }
    assert(doc_view(d@) =~= before + (if t.frames@.len() > 0 {
        arabic_trace(t@.0)
    } else {
        Seq::empty()
    }));
}

impl AlMarjaaError {
    /// The coloured rendering of the error, as a document of styled segments.
    pub fn colored_document(&self) -> (r: Vec<Styled>)
        ensures
            doc_view(r@) == colored_error(*self),
    {
        let mut d: Vec<Styled> = Vec::new();
        assert(doc_view(d@) =~= Seq::<(Tone, Seq<char>)>::empty());
        heading_doc(&mut d, self);
        location_doc(&mut d, &self.location, &self.code_context);
        trace_block_doc(&mut d, &self.stack_trace);
        suggestion_block_doc(&mut d, &self.suggestions);
        help_doc(&mut d, &self.help);
        notes_doc(&mut d, &self.notes);
        assert(doc_view(d@) =~= colored_error(*self));
        d
    }

    /// تنسيق مع الألوان
    pub fn format_colored(&self) -> (r: String)
        ensures
            renders(r@, colored_error(*self)),
    {
        render(&self.colored_document())
    }

    /// تنسيق الخطأ للعرض (يقبل معامل اختياري لاسم الملف للتوافق)
    pub fn format(&self, _filename: &str) -> (r: String)
        ensures
            renders(r@, colored_error(*self)),
    {
        self.format_colored()
    }

    /// تنسيق بدون معاملات
    pub fn format_simple(&self) -> (r: String)
        ensures
            renders(r@, colored_error(*self)),
    {
        self.format_colored()
    }

    /// تنسيق مع اسم ملف (للتوافق)
    pub fn format_with_filename(&self, _filename: &str) -> (r: String)
        ensures
            renders(r@, colored_error(*self)),
    {
        self.format_colored()
    }

    /// تنسيق مع اسم ملف (للتوافق مع Parser)
    pub fn format_with_file(&self, _filename: &str) -> (r: String)
        ensures
            renders(r@, colored_error(*self)),
    {
        self.format_colored()
    }
}


/// The closing lines of a report: a rule and a one-line summary of the
/// numbers of errors and warnings.
pub open spec fn report_summary(errors: nat, warnings: nat) -> Seq<(Tone, Seq<char>)> {
    let summary = "📊 الملخص: "@ + decimal(errors) + " خطأ، "@ + decimal(warnings) + " تحذير"@;
    seq![(Tone::BrightBlack, "\n"@), (Tone::BrightBlack, "════════════════════════════════════════════════════════════════"@), plain("\n"@)] + seq![
        if errors > 0 {
            (Tone::BrightRedBold, summary)
        } else if warnings > 0 {
            (Tone::BrightYellow, summary)
        } else {
            (Tone::BrightGreen, "✅ لا توجد أخطاء أو تحذيرات"@)
        },
    ] + seq![plain("\n"@)]
}

/// Each error rendered in colour and followed by a line feed.
pub open spec fn report_errors(es: Seq<AlMarjaaError>) -> Seq<(Tone, Seq<char>)>
    decreases es.len(),
{
    if es.len() == 0 {
        Seq::empty()
    } else {
        report_errors(es.drop_last()) + colored_error(es.last()) + seq![plain("\n"@)]
    }
}

/// The whole report: errors, then warnings, then the summary.
pub open spec fn report_document(errors: Seq<AlMarjaaError>, warnings: Seq<AlMarjaaError>) -> Seq<
    (Tone, Seq<char>),
> {
    report_errors(errors) + report_errors(warnings) + report_summary(errors.len(), warnings.len())
}

fn errors_doc(d: &mut Vec<Styled>, es: &Vec<AlMarjaaError>)
    ensures
        doc_view(final(d)@) == doc_view(old(d)@) + report_errors(es@),
{
    let ghost before = doc_view(d@);
    let n = es.len();
    let mut i: usize = 0;
    while i < n
        invariant
            n == es@.len(),
            i <= n,
            doc_view(d@) == before + report_errors(es@.take(i as int)),
        decreases n - i,
    {
        assert(es@.take(i + 1).drop_last() =~= es@.take(i as int));
        assert(es@.take(i + 1).last() == es@[i as int]);
        append_doc(d, es[i].colored_document());
        push_seg(d, Tone::Plain, "\n");
        assert(doc_view(d@) =~= before + report_errors(es@.take(i + 1)));
        i = i + 1;
    }
    assert(es@.take(n as int) =~= es@);
}

fn summary_doc(d: &mut Vec<Styled>, errors: usize, warnings: usize)
    ensures
        doc_view(final(d)@) == doc_view(old(d)@) + report_summary(errors as nat, warnings as nat),
{
    let ghost before = doc_view(d@);
    push_seg(d, Tone::BrightBlack, "\n");
    push_seg(d, Tone::BrightBlack, "════════════════════════════════════════════════════════════════");
    push_seg(d, Tone::Plain, "\n");
    let mut summary = String::from_str("📊 الملخص: ");
    summary.append(usize_text(errors).as_str());
    summary.append(" خطأ، ");
    summary.append(usize_text(warnings).as_str());
    summary.append(" تحذير");
    if errors > 0 {
        push_seg_owned(d, Tone::BrightRedBold, summary);
    } else if warnings > 0 {
        push_seg_owned(d, Tone::BrightYellow, summary);
    } else {
        push_seg(d, Tone::BrightGreen, "✅ لا توجد أخطاء أو تحذيرات");
    }
    push_seg(d, Tone::Plain, "\n");
    assert(doc_view(d@) =~= before + report_summary(errors as nat, warnings as nat));
}

/// Collects errors and warnings and reports them together.
#[derive(Debug)]
pub struct ErrorReporter {
    /// الأخطاء المجمعة
    errors: Vec<AlMarjaaError>,
    /// التحذيرات
    warnings: Vec<AlMarjaaError>,
    /// الحد الأقصى للأخطاء قبل التوقف
    max_errors: usize,
    /// الملف الحالي
    current_file: String,
}

impl ErrorReporter {
    /// The errors gathered so far, oldest first.
    pub closed spec fn spec_errors(&self) -> Seq<AlMarjaaError> {
        self.errors@
    }

    /// The warnings gathered so far, oldest first.
    pub closed spec fn spec_warnings(&self) -> Seq<AlMarjaaError> {
        self.warnings@
    }

    /// The number of errors after which the limit counts as reached.
    pub closed spec fn spec_max_errors(&self) -> usize {
        self.max_errors
    }

    /// The file that simple errors are placed in.
    pub closed spec fn spec_current_file(&self) -> Seq<char> {
        self.current_file@
    }

    /// إنشاء مُبلغ جديد
    pub fn new() -> (r: Self)
        ensures
            r.spec_errors().len() == 0,
            r.spec_warnings().len() == 0,
            r.spec_max_errors() == 100,
            r.spec_current_file() == default_file(),
    {
        ErrorReporter {
            errors: Vec::new(),
            warnings: Vec::new(),
            max_errors: 100,
            current_file: String::from_str("البرنامج"),
        }
    }

    /// تعيين الملف الحالي
    pub fn set_file(&mut self, file: &str)
        ensures
            final(self).spec_current_file() == file@,
            final(self).spec_errors() == old(self).spec_errors(),
            final(self).spec_warnings() == old(self).spec_warnings(),
            final(self).spec_max_errors() == old(self).spec_max_errors(),
    {
        self.current_file = String::from_str(file);
    }

    /// تعيين الحد الأقصى للأخطاء
    pub fn with_max_errors(self, max: usize) -> (r: Self)
        ensures
            r.spec_max_errors() == max,
            r.spec_errors() == self.spec_errors(),
            r.spec_warnings() == self.spec_warnings(),
            r.spec_current_file() == self.spec_current_file(),
    {
        let mut s = self;
        s.max_errors = max;
        s
    }

    /// إضافة خطأ
    pub fn error(&mut self, error: AlMarjaaError)
        ensures
            final(self).spec_errors() == old(self).spec_errors().push(error),
            final(self).spec_warnings() == old(self).spec_warnings(),
            final(self).spec_max_errors() == old(self).spec_max_errors(),
            final(self).spec_current_file() == old(self).spec_current_file(),
    {
        self.errors.push(error);
    }

    /// إضافة خطأ بسيط
    pub fn simple_error(&mut self, code: ErrorCode, message: &str, line: usize, column: usize)
        ensures
            final(self).spec_errors().len() == old(self).spec_errors().len() + 1,
            final(self).spec_errors().drop_last() == old(self).spec_errors(),
            final(self).spec_errors().last().code == code,
            final(self).spec_errors().last().message@ == message@,
            final(self).spec_errors().last().location is Some,
            final(self).spec_errors().last().location.unwrap().file@ == old(self).spec_current_file(),
            final(self).spec_errors().last().location.unwrap().line == line,
            final(self).spec_errors().last().location.unwrap().column == column,
            final(self).spec_warnings() == old(self).spec_warnings(),
            final(self).spec_max_errors() == old(self).spec_max_errors(),
            final(self).spec_current_file() == old(self).spec_current_file(),
    {
        let error = AlMarjaaError::new(code, message).at_file(self.current_file.as_str(), line, column);
        self.errors.push(error);
        assert(self.errors@.drop_last() =~= old(self).errors@);
    }

    /// إضافة تحذير
    pub fn warning(&mut self, warning: AlMarjaaError)
        ensures
            final(self).spec_warnings() == old(self).spec_warnings().push(warning),
            final(self).spec_errors() == old(self).spec_errors(),
            final(self).spec_max_errors() == old(self).spec_max_errors(),
            final(self).spec_current_file() == old(self).spec_current_file(),
    {
        self.warnings.push(warning);
    }

    /// هل وصل للحد الأقصى
    pub fn has_exceeded_limit(&self) -> (r: bool)
        ensures
            r == (self.spec_errors().len() >= self.spec_max_errors()),
    {
        self.errors.len() >= self.max_errors
    }

    /// عدد الأخطاء
    pub fn error_count(&self) -> (r: usize)
        ensures
            r == self.spec_errors().len(),
    {
        self.errors.len()
    }

    /// عدد التحذيرات
    pub fn warning_count(&self) -> (r: usize)
        ensures
            r == self.spec_warnings().len(),
    {
        self.warnings.len()
    }

    /// هل توجد أخطاء
    pub fn has_errors(&self) -> (r: bool)
        ensures
            r == (self.spec_errors().len() > 0),
    {
        self.errors.len() > 0
    }

    /// هل توجد تحذيرات
    pub fn has_warnings(&self) -> (r: bool)
        ensures
            r == (self.spec_warnings().len() > 0),
    {
        self.warnings.len() > 0
    }

    /// The report as a document of styled segments.
    pub fn report_document(&self) -> (r: Vec<Styled>)
        ensures
            doc_view(r@) == report_document(self.spec_errors(), self.spec_warnings()),
    {
        let mut d: Vec<Styled> = Vec::new();
        assert(doc_view(d@) =~= Seq::<(Tone, Seq<char>)>::empty());
        errors_doc(&mut d, &self.errors);
        errors_doc(&mut d, &self.warnings);
        summary_doc(&mut d, self.errors.len(), self.warnings.len());
        assert(doc_view(d@) =~= report_document(self.errors@, self.warnings@));
        d
    }

    /// تقرير كامل
    pub fn report(&self) -> (r: String)
        ensures
            renders(r@, report_document(self.spec_errors(), self.spec_warnings())),
    {
        render(&self.report_document())
    }

    /// مسح الأخطاء
    pub fn clear(&mut self)
        ensures
            final(self).spec_errors().len() == 0,
            final(self).spec_warnings().len() == 0,
            final(self).spec_max_errors() == old(self).spec_max_errors(),
            final(self).spec_current_file() == old(self).spec_current_file(),
    {
        self.errors.clear();
        self.warnings.clear();
    }

    /// أخذ الأخطاء
    pub fn take_errors(&mut self) -> (r: Vec<AlMarjaaError>)
        ensures
            r@ == old(self).spec_errors(),
            final(self).spec_errors().len() == 0,
            final(self).spec_warnings() == old(self).spec_warnings(),
            final(self).spec_max_errors() == old(self).spec_max_errors(),
            final(self).spec_current_file() == old(self).spec_current_file(),
    {
        let mut taken: Vec<AlMarjaaError> = Vec::new();
        std::mem::swap(&mut taken, &mut self.errors);
        taken
    }

    /// أخذ التحذيرات
    pub fn take_warnings(&mut self) -> (r: Vec<AlMarjaaError>)
        ensures
            r@ == old(self).spec_warnings(),
            final(self).spec_warnings().len() == 0,
            final(self).spec_errors() == old(self).spec_errors(),
            final(self).spec_max_errors() == old(self).spec_max_errors(),
            final(self).spec_current_file() == old(self).spec_current_file(),
    {
        let mut taken: Vec<AlMarjaaError> = Vec::new();
        std::mem::swap(&mut taken, &mut self.warnings);
        taken
    }
}

/// What a reporter gathers is reported back: after recording an error, the
/// reporter holds it as its newest error and counts one more, and a cleared
/// reporter holds nothing.
pub proof fn law_reporter_records(before: Seq<AlMarjaaError>, e: AlMarjaaError)
    ensures
        before.push(e).last() == e,
        before.push(e).len() == before.len() + 1,
        report_document(Seq::empty(), Seq::empty()) == report_summary(0, 0),
{
    assert(report_errors(Seq::empty()) =~= Seq::empty());
    assert(report_document(Seq::empty(), Seq::empty()) =~= report_summary(0, 0));
}

/// Keeps the diagnostics of one run: the reporter, the current call stack,
/// the file being run and its source lines.
pub struct ErrorManager {
    /// المُبلغ
    reporter: ErrorReporter,
    /// Stack Trace الحالي
    stack_trace: StackTrace,
    /// الملف الحالي
    current_file: String,
    /// الكود المصدري الحالي
    source_lines: Vec<String>,
}

impl ErrorManager {
    /// The reporter of the manager.
    pub closed spec fn spec_reporter(&self) -> ErrorReporter {
        self.reporter
    }

    /// The current call stack.
    pub closed spec fn spec_trace(&self) -> (Seq<FrameView>, usize) {
        self.stack_trace@
    }

    /// The file being run.
    pub closed spec fn spec_file(&self) -> Seq<char> {
        self.current_file@
    }

    /// The source lines of the file being run.
    pub closed spec fn spec_lines(&self) -> Seq<Seq<char>> {
        views(self.source_lines@)
    }

    /// إنشاء مدير جديد
    pub fn new() -> (r: Self)
        ensures
            r.spec_reporter().spec_errors().len() == 0,
            r.spec_reporter().spec_warnings().len() == 0,
            r.spec_reporter().spec_current_file() == default_file(),
            r.spec_trace().0.len() == 0,
            r.spec_trace().1 == 100,
            r.spec_file() == default_file(),
            r.spec_lines().len() == 0,
    {
        let r = ErrorManager {
            reporter: ErrorReporter::new(),
            stack_trace: StackTrace::new(),
            current_file: String::from_str("البرنامج"),
            source_lines: Vec::new(),
        };
        assert(r.spec_lines() =~= Seq::<Seq<char>>::empty());
        r
    }

    /// تعيين الملف الحالي
    pub fn set_file(&mut self, file: &str)
        ensures
            final(self).spec_file() == file@,
            final(self).spec_reporter().spec_current_file() == file@,
            final(self).spec_reporter().spec_errors() == old(self).spec_reporter().spec_errors(),
            final(self).spec_reporter().spec_warnings() == old(self).spec_reporter().spec_warnings(),
            final(self).spec_trace() == old(self).spec_trace(),
            final(self).spec_lines() == old(self).spec_lines(),
    {
        self.current_file = String::from_str(file);
        self.reporter.set_file(file);
    }

    /// تعيين الكود المصدري
    pub fn set_source(&mut self, source: &str)
        ensures
            final(self).spec_lines() == lines_of(source@),
            final(self).spec_file() == old(self).spec_file(),
            final(self).spec_reporter() == old(self).spec_reporter(),
            final(self).spec_trace() == old(self).spec_trace(),
    {
        self.source_lines = split_lines(source);
    }

    /// الحصول على سطر من الكود
    pub fn get_line(&self, line: usize) -> (r: Option<String>)
        ensures
            ({
                let k = if line > 0 { line - 1 } else { 0 };
                &&& k < self.spec_lines().len() ==> r is Some && r.unwrap()@ == self.spec_lines()[k as int]
                &&& k >= self.spec_lines().len() ==> r is None
            }),
    {
        let k = if line > 0 { line - 1 } else { 0 };
        if k < self.source_lines.len() {
            Some(self.source_lines[k].clone())
        } else {
            None
        }
    }

    /// إنشاء موقع مع محتوى السطر
    pub fn create_location(&self, line: usize, column: usize) -> (r: SourceLocation)
        ensures
            r.file@ == self.spec_file(),
            r.line == line,
            r.column == column,
            ({
                let k = if line > 0 { line - 1 } else { 0 };
                &&& k < self.spec_lines().len() ==> r.line_content@ == self.spec_lines()[k as int]
                &&& k >= self.spec_lines().len() ==> r.line_content@.len() == 0
            }),
            r.start_offset == 0,
            r.end_offset == 0,
    {
        let content = match self.get_line(line) {
            Some(s) => s,
            None => String::new(),
        };
        SourceLocation::new(self.current_file.as_str(), line, column).with_content(content.as_str())
    }

    /// إضافة إطار للـ Stack Trace
    pub fn push_frame(&mut self, frame: StackFrame)
        requires
            old(self).spec_trace().0.len() < usize::MAX,
        ensures
            final(self).spec_trace().0 == pushed_frames(old(self).spec_trace().0, old(self).spec_trace().1, frame@),
            final(self).spec_trace().1 == old(self).spec_trace().1,
            final(self).spec_reporter() == old(self).spec_reporter(),
            final(self).spec_file() == old(self).spec_file(),
            final(self).spec_lines() == old(self).spec_lines(),
    {
        self.stack_trace.push(frame);
    }

    /// إزالة إطار من الـ Stack Trace
    pub fn pop_frame(&mut self) -> (r: Option<StackFrame>)
        ensures
            old(self).spec_trace().0.len() == 0 ==> r is None && final(self).spec_trace() == old(self).spec_trace(),
            old(self).spec_trace().0.len() > 0 ==> r is Some && r.unwrap()@ == old(self).spec_trace().0.last()
                && final(self).spec_trace().0 == old(self).spec_trace().0.drop_last(),
            final(self).spec_trace().1 == old(self).spec_trace().1,
            final(self).spec_reporter() == old(self).spec_reporter(),
            final(self).spec_file() == old(self).spec_file(),
            final(self).spec_lines() == old(self).spec_lines(),
    {
        self.stack_trace.pop()
    }

    /// الحصول على نسخة من الـ Stack Trace
    pub fn get_stack_trace(&self) -> (r: StackTrace)
        ensures
            r@ == self.spec_trace(),
    {
        self.stack_trace.clone()
    }

    /// الإبلاغ عن خطأ
    pub fn report_error(&mut self, error: AlMarjaaError)
        ensures
            final(self).spec_reporter().spec_errors() == old(self).spec_reporter().spec_errors().push(error),
            final(self).spec_reporter().spec_warnings() == old(self).spec_reporter().spec_warnings(),
            final(self).spec_trace() == old(self).spec_trace(),
            final(self).spec_file() == old(self).spec_file(),
            final(self).spec_lines() == old(self).spec_lines(),
    {
        self.reporter.error(error);
    }

    /// الإبلاغ عن تحذير
    pub fn report_warning(&mut self, warning: AlMarjaaError)
        ensures
            final(self).spec_reporter().spec_warnings() == old(self).spec_reporter().spec_warnings().push(warning),
            final(self).spec_reporter().spec_errors() == old(self).spec_reporter().spec_errors(),
            final(self).spec_trace() == old(self).spec_trace(),
            final(self).spec_file() == old(self).spec_file(),
            final(self).spec_lines() == old(self).spec_lines(),
    {
        self.reporter.warning(warning);
    }

    /// هل توجد أخطاء
    pub fn has_errors(&self) -> (r: bool)
        ensures
            r == (self.spec_reporter().spec_errors().len() > 0),
    {
        self.reporter.has_errors()
    }

    /// عدد الأخطاء
    pub fn error_count(&self) -> (r: usize)
        ensures
            r == self.spec_reporter().spec_errors().len(),
    {
        self.reporter.error_count()
    }

    /// الحصول على التقرير
    pub fn get_report(&self) -> (r: String)
        ensures
            renders(
                r@,
                report_document(self.spec_reporter().spec_errors(), self.spec_reporter().spec_warnings()),
            ),
    {
        self.reporter.report()
    }

    /// مسح الأخطاء
    pub fn clear(&mut self)
        ensures
            final(self).spec_reporter().spec_errors().len() == 0,
            final(self).spec_reporter().spec_warnings().len() == 0,
            final(self).spec_trace().0.len() == 0,
            final(self).spec_trace().1 == old(self).spec_trace().1,
            final(self).spec_file() == old(self).spec_file(),
            final(self).spec_lines() == old(self).spec_lines(),
    {
        self.reporter.clear();
        self.stack_trace.frames.clear();
    }
}


/// The parts of an error that its constructor leaves at their defaults: an
/// empty trace of bound 100, no notes, the severity `Error` and no code
/// context.
pub open spec fn has_default_extras(e: AlMarjaaError) -> bool {
    &&& e.stack_trace.frames@.len() == 0
    &&& e.stack_trace.max_depth == 100
    &&& e.notes@.len() == 0
    &&& e.severity == Severity::Error
    &&& e.code_context@.len() == 0
}

/// A suggestion with the given message and optional example, of priority 0.
pub open spec fn suggestion_is(s: Suggestion, message: Seq<char>, code: Option<Seq<char>>) -> bool {
    &&& s.message@ == message
    &&& s.priority == 0
    &&& match code {
        Some(c) => s.code is Some && s.code.unwrap()@ == c,
        None => s.code is None,
    }
}

} // verus!
