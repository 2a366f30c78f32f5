//! The earlier diagnostics model: error kinds, traces without frame
//! numbering, errors with their renderings, and a reporter. Locations and
//! suggestions are shared with the main diagnostics.

pub use super::{SourceLocation, Suggestion};

use super::helpers::{
    define_variable_example, file_message, index_example, index_message, key_example,
    key_message, recursion_message, type_error_message, undefined_variable_message,
    unexpected_message, add_token_message,
};
use super::{
    append_doc, colored_marker, colored_notes, colored_suggestion_entries, help_doc, help_plain,
    indent_for, location_plain, marker_doc, notes_doc, plain, plain_location, plain_suggestions,
    push_seg, push_seg_owned, suggestion_block_doc, suggestion_is, suggestions_plain,
};
use crate::style::{doc_view, render, renders, Styled, Tone};
use crate::text::{decimal, i64_text, repeat, repeat_str, trim, trimmed, usize_text};
use std::collections::VecDeque;
use vstd::prelude::*;

verus! {

/// إطار في الـ Stack Trace
#[derive(Debug)]
pub struct StackFrame {
    /// اسم الدالة
    pub function_name: String,
    /// موقع الإطار
    pub location: SourceLocation,
    /// هل هو دالة أصلية (native)
    pub is_native: bool,
    /// معاملات الدالة (للعرض)
    pub arguments: Vec<String>,
}

/// The abstract form of a frame: name, location, whether native, arguments.
pub type FrameView = (String, SourceLocation, bool, Seq<String>);

impl View for StackFrame {
    type V = FrameView;

    open spec fn view(&self) -> FrameView {
        (self.function_name, self.location, self.is_native, self.arguments@)
    }
}

impl StackFrame {
    /// إنشاء إطار جديد
    pub fn new(function_name: &str, location: SourceLocation) -> (r: Self)
        ensures
            r.function_name@ == function_name@,
            r.location == location,
            !r.is_native,
            r.arguments@.len() == 0,
    {
        StackFrame {
            function_name: String::from_str(function_name),
            location,
            is_native: false,
            arguments: Vec::new(),
        }
    }

    /// تعيين كدالة أصلية
    pub fn native(self) -> (r: Self)
        ensures
            r == (StackFrame { is_native: true, ..self }),
    {
        let mut f = self;
        f.is_native = true;
        f
    }

    /// إضافة معاملات
    pub fn with_arguments(self, args: Vec<String>) -> (r: Self)
        ensures
            r == (StackFrame { arguments: args, ..self }),
    {
        let mut f = self;
        f.arguments = args;
        f
    }
}

/// The frames after a push onto a trace with the bound `max_depth`: the
/// oldest frame is dropped when the trace is full.
pub open spec fn pushed_frames(frames: Seq<FrameView>, max_depth: usize, frame: FrameView) -> Seq<FrameView> {
    let kept = if frames.len() >= max_depth && frames.len() > 0 { frames.drop_first() } else { frames };
    kept.push(frame)
}

/// الـ Stack Trace كاملاً
#[derive(Debug)]
pub struct StackTrace {
    /// الإطارات
    pub frames: VecDeque<StackFrame>,
    /// العمق الأقصى
    pub max_depth: usize,
}

impl View for StackTrace {
    type V = (Seq<FrameView>, usize);

    open spec fn view(&self) -> (Seq<FrameView>, usize) {
        (self.frames@.map_values(|f: StackFrame| f@), self.max_depth)
    }
}

impl StackTrace {
    /// إنشاء Stack Trace جديد
    pub fn new() -> (r: Self)
        ensures
            r.frames@.len() == 0,
            r.max_depth == 100,
    {
        StackTrace { frames: VecDeque::new(), max_depth: 100 }
    }

    /// إنشاء بعمق محدد
    pub fn with_max_depth(max_depth: usize) -> (r: Self)
        ensures
            r.frames@.len() == 0,
            r.max_depth == max_depth,
    {
        StackTrace { frames: VecDeque::new(), max_depth }
    }

    /// إضافة إطار
    pub fn push(&mut self, frame: StackFrame)
        ensures
            final(self)@.0 == pushed_frames(old(self)@.0, old(self).max_depth, frame@),
            final(self).max_depth == old(self).max_depth,
    {
        let ghost old_view = self@.0;
        if self.frames.len() >= self.max_depth {
            let _ = self.frames.pop_front();
        }
        assert(self@.0 =~= (if old_view.len() >= self.max_depth && old_view.len() > 0 {
            old_view.drop_first()
        } else {
            old_view
        }));
        self.frames.push_back(frame);
        assert(self@.0 =~= pushed_frames(old_view, self.max_depth, frame@));
    }

    /// إزالة إطار
    pub fn pop(&mut self) -> (r: Option<StackFrame>)
        ensures
            old(self).frames@.len() == 0 ==> r.is_none() && final(self)@ == old(self)@,
            old(self).frames@.len() > 0 ==> r == Some(old(self).frames@.last())
                && final(self)@.0 == old(self)@.0.drop_last(),
            final(self).max_depth == old(self).max_depth,
    {
        let ghost old_view = self@.0;
        let r = self.frames.pop_back();
        assert(old_view.len() > 0 ==> self@.0 =~= old_view.drop_last());
        r
    }

    /// عدد الإطارات
    pub fn depth(&self) -> (r: usize)
        ensures
            r == self.frames@.len(),
    {
        self.frames.len()
    }

    /// هل فارغ
    pub fn is_empty(&self) -> (r: bool)
        ensures
            r == (self.frames@.len() == 0),
    {
        self.frames.len() == 0
    }
}

/// A trace never grows past a positive bound, and popping after a push gives
/// back the pushed frame.
pub proof fn law_trace_push_pop(frames: Seq<FrameView>, max_depth: usize, frame: FrameView)
    requires
        max_depth > 0,
        frames.len() <= max_depth,
    ensures
        pushed_frames(frames, max_depth, frame).len() <= max_depth,
        pushed_frames(frames, max_depth, frame).last() == frame,
{
}

/// The banner of a trace rendering.
pub open spec fn trace_banner() -> Seq<(Tone, Seq<char>)> {
    seq![
        (Tone::BrightBlack, "\n"@),
        (Tone::BrightBlack, "════════════════════════════════════════════════════════════"@),
        plain("\n"@),
        (Tone::BrightCyanBold, "                    تتبع المكالمة                            "@),
        plain("\n"@),
        (Tone::BrightBlack, "════════════════════════════════════════════════════════════"@),
        plain("\n\n"@),
    ]
}

/// One frame of a trace rendering.
pub open spec fn trace_entry(f: FrameView, num: nat, top: bool) -> Seq<(Tone, Seq<char>)> {
    let head = seq![
        plain("  "@),
        if top { (Tone::BrightRedBold, "→"@) } else { plain(" "@) },
        plain(" ["@),
        (Tone::BrightYellow, decimal(num)),
        plain("] "@),
        (Tone::BrightWhiteBold, f.0@),
    ];
    if f.2 {
        head + seq![plain(" "@), (Tone::Dimmed, "(دالة أصلية)"@), plain("\n"@)]
    } else {
        head + seq![
            plain(" في السطر "@),
            (Tone::BrightCyan, decimal(f.1.line as nat)),
            plain("، العمود "@),
            (Tone::BrightCyan, decimal(f.1.column as nat)),
            plain("\n"@),
        ] + if f.1.line_content@.len() > 0 {
            seq![
                plain("       │ "@),
                (Tone::BrightWhite, trimmed(f.1.line_content@)),
                plain("\n"@),
                plain("       │ "@ + repeat(" "@, indent_for(f.1.column)) + "⌃\n"@),
            ]
        } else {
            Seq::empty()
        }
    }
}

/// The first `k` entries of a trace rendering, innermost first.
pub open spec fn trace_entries(fs: Seq<FrameView>, k: nat) -> Seq<(Tone, Seq<char>)>
    decreases k,
{
    if k == 0 {
        Seq::empty()
    } else {
        let i = (k - 1) as nat;
        trace_entries(fs, i) + trace_entry(fs[fs.len() - 1 - i], (fs.len() - i) as nat, i == 0)
    }
}

/// The rendering of a trace, as a document.
pub open spec fn trace_document(fs: Seq<FrameView>) -> Seq<(Tone, Seq<char>)> {
    if fs.len() == 0 {
        trace_banner() + seq![(Tone::Dimmed, "  (لا توجد معلومات تتبع)"@), plain("\n"@)]
    } else {
        trace_banner() + trace_entries(fs, fs.len())
    }
}

fn trace_entry_doc(f: &StackFrame, num: usize, top: bool) -> (r: Vec<Styled>)
    ensures
        doc_view(r@) == trace_entry(f@, num as nat, top),
{
    let mut d: Vec<Styled> = Vec::new();
    push_seg(&mut d, Tone::Plain, "  ");
    if top {
        push_seg(&mut d, Tone::BrightRedBold, "→");
    } else {
        push_seg(&mut d, Tone::Plain, " ");
    }
    push_seg(&mut d, Tone::Plain, " [");
    push_seg_owned(&mut d, Tone::BrightYellow, usize_text(num));
    push_seg(&mut d, Tone::Plain, "] ");
    push_seg(&mut d, Tone::BrightWhiteBold, f.function_name.as_str());
    if f.is_native {
        push_seg(&mut d, Tone::Plain, " ");
        push_seg(&mut d, Tone::Dimmed, "(دالة أصلية)");
        push_seg(&mut d, Tone::Plain, "\n");
    } else {
        push_seg(&mut d, Tone::Plain, " في السطر ");
        push_seg_owned(&mut d, Tone::BrightCyan, usize_text(f.location.line));
        push_seg(&mut d, Tone::Plain, "، العمود ");
        push_seg_owned(&mut d, Tone::BrightCyan, usize_text(f.location.column));
        push_seg(&mut d, Tone::Plain, "\n");
        if f.location.line_content.as_str().unicode_len() > 0 {
            push_seg(&mut d, Tone::Plain, "       │ ");
            push_seg_owned(&mut d, Tone::BrightWhite, trim(f.location.line_content.as_str()));
            push_seg(&mut d, Tone::Plain, "\n");
            let mut marker = String::from_str("       │ ");
            let spaces = if f.location.column > 0 { f.location.column - 1 } else { 0 };
            marker.append(repeat_str(" ", spaces).as_str());
            marker.append("⌃\n");
            push_seg_owned(&mut d, Tone::Plain, marker);
        }
    }
    assert(doc_view(d@) =~= trace_entry(f@, num as nat, top));
    d
}

impl StackTrace {
    /// The rendering of the trace, as a document of styled segments.
    pub fn document(&self) -> (r: Vec<Styled>)
        ensures
            doc_view(r@) == trace_document(self@.0),
    {
        let mut d: Vec<Styled> = Vec::new();
        push_seg(&mut d, Tone::BrightBlack, "\n");
        push_seg(&mut d, Tone::BrightBlack, "════════════════════════════════════════════════════════════");
        push_seg(&mut d, Tone::Plain, "\n");
        push_seg(&mut d, Tone::BrightCyanBold, "                    تتبع المكالمة                            ");
        push_seg(&mut d, Tone::Plain, "\n");
        push_seg(&mut d, Tone::BrightBlack, "════════════════════════════════════════════════════════════");
        push_seg(&mut d, Tone::Plain, "\n\n");
        assert(doc_view(d@) =~= trace_banner());
        let n = self.frames.len();
        if n == 0 {
            push_seg(&mut d, Tone::Dimmed, "  (لا توجد معلومات تتبع)");
            push_seg(&mut d, Tone::Plain, "\n");
            assert(doc_view(d@) =~= trace_document(self@.0));
            return d;
        }
        let ghost fs = self@.0;
        let mut i: usize = 0;
        while i < n
            invariant
                n == self.frames@.len(),
                fs == self@.0,
                i <= n,
                doc_view(d@) == trace_banner() + trace_entries(fs, i as nat),
            decreases n - i,
        {
            let entry = trace_entry_doc(&self.frames[n - 1 - i], n - i, i == 0);
            assert(fs[n - 1 - i] == self.frames@[n - 1 - i]@);
            append_doc(&mut d, entry);
            assert(doc_view(d@) =~= trace_banner() + trace_entries(fs, (i + 1) as nat));
            i = i + 1;
        }
        d
    }

    /// تنسيق بالعربية
    pub fn format_arabic(&self) -> (r: String)
        ensures
            renders(r@, trace_document(self@.0)),
    {
        render(&self.document())
    }

    /// تنسيق للعرض بالعربية
    pub fn format(&self) -> (r: String)
        ensures
            renders(r@, trace_document(self@.0)),
    {
        self.format_arabic()
    }
}

/// نوع الخطأ مع الرمز والرسالة العربية
#[derive(Debug, Clone, Copy, PartialEq, Eq, Structural)]
pub enum ErrorKind {
    LexerError,
    UnclosedString,
    UnclosedComment,
    InvalidNumber,
    InvalidChar,
    SyntaxError,
    UnexpectedToken,
    ExpectedToken,
    InvalidExpression,
    MissingSemicolon,
    InvalidStatement,
    RuntimeError,
    UndefinedVariable,
    TypeError,
    DivisionByZero,
    IndexError,
    KeyError,
    AttributeError,
    ArgumentError,
    RecursionError,
    OverflowError,
    IOError,
    FileNotFoundError,
    PermissionError,
    NetworkError,
    MemoryError,
    AssertionError,
    NotImplementedError,
    Generic,
}

impl ErrorKind {
    /// The code of a kind, such as `E300`.
    pub open spec fn spec_code(self) -> Seq<char> {
        match self {
            ErrorKind::LexerError => "E100"@,
            ErrorKind::UnclosedString => "E101"@,
            ErrorKind::UnclosedComment => "E102"@,
            ErrorKind::InvalidNumber => "E103"@,
            ErrorKind::InvalidChar => "E104"@,
            ErrorKind::SyntaxError => "E200"@,
            ErrorKind::UnexpectedToken => "E201"@,
            ErrorKind::ExpectedToken => "E202"@,
            ErrorKind::InvalidExpression => "E203"@,
            ErrorKind::MissingSemicolon => "E204"@,
            ErrorKind::InvalidStatement => "E205"@,
            ErrorKind::RuntimeError => "E300"@,
            ErrorKind::UndefinedVariable => "E301"@,
            ErrorKind::TypeError => "E302"@,
            ErrorKind::DivisionByZero => "E303"@,
            ErrorKind::IndexError => "E304"@,
            ErrorKind::KeyError => "E305"@,
            ErrorKind::AttributeError => "E306"@,
            ErrorKind::ArgumentError => "E307"@,
            ErrorKind::RecursionError => "E308"@,
            ErrorKind::OverflowError => "E309"@,
            ErrorKind::IOError => "E400"@,
            ErrorKind::FileNotFoundError => "E401"@,
            ErrorKind::PermissionError => "E402"@,
            ErrorKind::NetworkError => "E403"@,
            ErrorKind::MemoryError => "E404"@,
            ErrorKind::AssertionError => "E500"@,
            ErrorKind::NotImplementedError => "E501"@,
            ErrorKind::Generic => "E999"@,
        }
    }

    /// The Arabic name of a kind.
    pub open spec fn spec_arabic_name(self) -> Seq<char> {
        match self {
            ErrorKind::LexerError => "خطأ لغوي"@,
            ErrorKind::UnclosedString => "نص غير مغلق"@,
            ErrorKind::UnclosedComment => "تعليق غير مغلق"@,
            ErrorKind::InvalidNumber => "رقم غير صالح"@,
            ErrorKind::InvalidChar => "رمز غير صالح"@,
            ErrorKind::SyntaxError => "خطأ نحوي"@,
            ErrorKind::UnexpectedToken => "رمز غير متوقع"@,
            ErrorKind::ExpectedToken => "رمز متوقع"@,
            ErrorKind::InvalidExpression => "تعبير غير صالح"@,
            ErrorKind::MissingSemicolon => "فاصلة منقوطة مفقودة"@,
            ErrorKind::InvalidStatement => "تعليمة غير صالحة"@,
            ErrorKind::RuntimeError => "خطأ وقت التشغيل"@,
            ErrorKind::UndefinedVariable => "متغير غير معرف"@,
            ErrorKind::TypeError => "خطأ في النوع"@,
            ErrorKind::DivisionByZero => "قسمة على صفر"@,
            ErrorKind::IndexError => "فهرس خارج النطاق"@,
            ErrorKind::KeyError => "مفتاح غير موجود"@,
            ErrorKind::AttributeError => "خاصية غير موجودة"@,
            ErrorKind::ArgumentError => "خطأ في المعاملات"@,
            ErrorKind::RecursionError => "عودية عميقة جداً"@,
            ErrorKind::OverflowError => "تجاوز السعة"@,
            ErrorKind::IOError => "خطأ إدخال/إخراج"@,
            ErrorKind::FileNotFoundError => "ملف غير موجود"@,
            ErrorKind::PermissionError => "لا توجد صلاحيات"@,
            ErrorKind::NetworkError => "خطأ في الشبكة"@,
            ErrorKind::MemoryError => "خطأ في الذاكرة"@,
            ErrorKind::AssertionError => "فشل التأكيد"@,
            ErrorKind::NotImplementedError => "غير مطبق"@,
            ErrorKind::Generic => "خطأ"@,
        }
    }

    /// The icon of a kind; kinds without an icon of their own fail with a cross.
    pub open spec fn spec_icon(self) -> Seq<char> {
        match self {
            ErrorKind::LexerError => "⚠️"@,
            ErrorKind::SyntaxError => "⚠️"@,
            ErrorKind::RuntimeError => "❌"@,
            ErrorKind::TypeError => "❌"@,
            ErrorKind::DivisionByZero => "💥"@,
            ErrorKind::OverflowError => "💥"@,
            ErrorKind::FileNotFoundError => "📁"@,
            ErrorKind::PermissionError => "📁"@,
            ErrorKind::RecursionError => "🔥"@,
            ErrorKind::MemoryError => "🔥"@,
            _ => "❌"@,
        }
    }

    /// الحصول على رمز الخطأ
    pub fn code(&self) -> (r: &'static str)
        ensures
            r@ == self.spec_code(),
    {
        match self {
            ErrorKind::LexerError => "E100",
            ErrorKind::UnclosedString => "E101",
            ErrorKind::UnclosedComment => "E102",
            ErrorKind::InvalidNumber => "E103",
            ErrorKind::InvalidChar => "E104",
            ErrorKind::SyntaxError => "E200",
            ErrorKind::UnexpectedToken => "E201",
            ErrorKind::ExpectedToken => "E202",
            ErrorKind::InvalidExpression => "E203",
            ErrorKind::MissingSemicolon => "E204",
            ErrorKind::InvalidStatement => "E205",
            ErrorKind::RuntimeError => "E300",
            ErrorKind::UndefinedVariable => "E301",
            ErrorKind::TypeError => "E302",
            ErrorKind::DivisionByZero => "E303",
            ErrorKind::IndexError => "E304",
            ErrorKind::KeyError => "E305",
            ErrorKind::AttributeError => "E306",
            ErrorKind::ArgumentError => "E307",
            ErrorKind::RecursionError => "E308",
            ErrorKind::OverflowError => "E309",
            ErrorKind::IOError => "E400",
            ErrorKind::FileNotFoundError => "E401",
            ErrorKind::PermissionError => "E402",
            ErrorKind::NetworkError => "E403",
            ErrorKind::MemoryError => "E404",
            ErrorKind::AssertionError => "E500",
            ErrorKind::NotImplementedError => "E501",
            ErrorKind::Generic => "E999",
        }
    }

    /// الحصول على الاسم العربي
    pub fn arabic_name(&self) -> (r: &'static str)
        ensures
            r@ == self.spec_arabic_name(),
    {
        match self {
            ErrorKind::LexerError => "خطأ لغوي",
            ErrorKind::UnclosedString => "نص غير مغلق",
            ErrorKind::UnclosedComment => "تعليق غير مغلق",
            ErrorKind::InvalidNumber => "رقم غير صالح",
            ErrorKind::InvalidChar => "رمز غير صالح",
            ErrorKind::SyntaxError => "خطأ نحوي",
            ErrorKind::UnexpectedToken => "رمز غير متوقع",
            ErrorKind::ExpectedToken => "رمز متوقع",
            ErrorKind::InvalidExpression => "تعبير غير صالح",
            ErrorKind::MissingSemicolon => "فاصلة منقوطة مفقودة",
            ErrorKind::InvalidStatement => "تعليمة غير صالحة",
            ErrorKind::RuntimeError => "خطأ وقت التشغيل",
            ErrorKind::UndefinedVariable => "متغير غير معرف",
            ErrorKind::TypeError => "خطأ في النوع",
            ErrorKind::DivisionByZero => "قسمة على صفر",
            ErrorKind::IndexError => "فهرس خارج النطاق",
            ErrorKind::KeyError => "مفتاح غير موجود",
            ErrorKind::AttributeError => "خاصية غير موجودة",
            ErrorKind::ArgumentError => "خطأ في المعاملات",
            ErrorKind::RecursionError => "عودية عميقة جداً",
            ErrorKind::OverflowError => "تجاوز السعة",
            ErrorKind::IOError => "خطأ إدخال/إخراج",
            ErrorKind::FileNotFoundError => "ملف غير موجود",
            ErrorKind::PermissionError => "لا توجد صلاحيات",
            ErrorKind::NetworkError => "خطأ في الشبكة",
            ErrorKind::MemoryError => "خطأ في الذاكرة",
            ErrorKind::AssertionError => "فشل التأكيد",
            ErrorKind::NotImplementedError => "غير مطبق",
            ErrorKind::Generic => "خطأ",
        }
    }

    /// الحصول على الأيقونة
    pub fn icon(&self) -> (r: &'static str)
        ensures
            r@ == self.spec_icon(),
    {
        match self {
            ErrorKind::LexerError => "⚠️",
            ErrorKind::SyntaxError => "⚠️",
            ErrorKind::RuntimeError => "❌",
            ErrorKind::TypeError => "❌",
            ErrorKind::DivisionByZero => "💥",
            ErrorKind::OverflowError => "💥",
            ErrorKind::FileNotFoundError => "📁",
            ErrorKind::PermissionError => "📁",
            ErrorKind::RecursionError => "🔥",
            ErrorKind::MemoryError => "🔥",
            _ => "❌",
        }
    }
}

/// خطأ كامل مع كل المعلومات
#[derive(Debug)]
pub struct MarjaaError {
    /// نوع الخطأ
    pub kind: ErrorKind,
    /// الرسالة الرئيسية
    pub message: String,
    /// موقع الخطأ
    pub location: Option<SourceLocation>,
    /// Stack Trace
    pub stack_trace: StackTrace,
    /// اقتراحات الإصلاح
    pub suggestions: Vec<Suggestion>,
    /// نص المساعدة
    pub help: Option<String>,
    /// ملاحظات إضافية
    pub notes: Vec<String>,
}

/// An error as built by `MarjaaError::new`: no location, an empty trace
/// bounded at 100 frames, and no suggestions, help or notes.
pub open spec fn is_fresh(e: MarjaaError, kind: ErrorKind, message: Seq<char>) -> bool {
    &&& e.kind == kind
    &&& e.message@ == message
    &&& e.location is None
    &&& e.stack_trace.frames@.len() == 0
    &&& e.stack_trace.max_depth == 100
    &&& e.suggestions@.len() == 0
    &&& e.help is None
    &&& e.notes@.len() == 0
}

/// No trace, and no notes, with the default trace bound.
pub open spec fn no_trace_or_notes(e: MarjaaError) -> bool {
    &&& e.stack_trace.frames@.len() == 0
    &&& e.stack_trace.max_depth == 100
    &&& e.notes@.len() == 0
}

impl MarjaaError {
    /// إنشاء خطأ جديد
    pub fn new(kind: ErrorKind, message: &str) -> (r: Self)
        ensures
            is_fresh(r, kind, message@),
    {
        Self::from_message(kind, String::from_str(message))
    }

    /// The same as `new`, with a message that was built already.
    pub fn from_message(kind: ErrorKind, message: String) -> (r: Self)
        ensures
            is_fresh(r, kind, message@),
    {
        MarjaaError {
            kind,
            message,
            location: None,
            stack_trace: StackTrace::new(),
            suggestions: Vec::new(),
            help: None,
            notes: Vec::new(),
        }
    }

    /// إضافة موقع
    pub fn at(self, location: SourceLocation) -> (r: Self)
        ensures
            r == (MarjaaError { location: Some(location), ..self }),
    {
        let mut e = self;
        e.location = Some(location);
        e
    }

    /// إضافة Stack Trace
    pub fn with_trace(self, trace: StackTrace) -> (r: Self)
        ensures
            r == (MarjaaError { stack_trace: trace, ..self }),
    {
        let mut e = self;
        e.stack_trace = trace;
        e
    }

    /// إضافة اقتراح
    pub fn suggest(self, suggestion: Suggestion) -> (r: Self)
        ensures
            r.suggestions@ == self.suggestions@.push(suggestion),
            r == (MarjaaError { suggestions: r.suggestions, ..self }),
    {
        let mut e = self;
        e.suggestions.push(suggestion);
        e
    }

    /// إضافة اقتراح بسيط
    pub fn suggest_simple(self, message: &str) -> (r: Self)
        ensures
            r.suggestions@.len() == self.suggestions@.len() + 1,
            r.suggestions@.drop_last() == self.suggestions@,
            suggestion_is(r.suggestions@.last(), message@, None),
            r == (MarjaaError { suggestions: r.suggestions, ..self }),
    {
        let ghost before = self.suggestions@;
        let r = self.suggest(Suggestion::new(message));
        assert(r.suggestions@.drop_last() =~= before);
        r
    }

    /// إضافة نص مساعدة
    pub fn with_help(self, help: &str) -> (r: Self)
        ensures
            r.help is Some && r.help.unwrap()@ == help@,
            r == (MarjaaError { help: r.help, ..self }),
    {
        let mut e = self;
        e.help = Some(String::from_str(help));
        e
    }

    /// إضافة ملاحظة
    pub fn note(self, note: &str) -> (r: Self)
        ensures
            r.notes@.len() == self.notes@.len() + 1,
            r.notes@.drop_last() == self.notes@,
            r.notes@.last()@ == note@,
            r == (MarjaaError { notes: r.notes, ..self }),
    {
        let ghost before = self.notes@;
        let mut e = self;
        e.notes.push(String::from_str(note));
        assert(e.notes@.drop_last() =~= before);
        e
    }
}

/// The opening box and message of a coloured rendering.
pub open spec fn marjaa_heading(e: MarjaaError) -> Seq<(Tone, Seq<char>)> {
    seq![
        plain("\n"@),
        (Tone::BrightRed, "╔══════════════════════════════════════════════════════════════╗"@),
        plain("\n"@),
        plain("║  "@ + e.kind.spec_icon() + " "@),
        (Tone::BrightRedBold, e.kind.spec_arabic_name()),
        plain(" ["@),
        (Tone::BrightYellow, e.kind.spec_code()),
        plain("]\n"@),
        (Tone::BrightRed, "╚══════════════════════════════════════════════════════════════╝"@),
        plain("\n\n"@),
        (Tone::BrightCyanBold, "الرسالة:"@),
        plain(" "@),
        (Tone::BrightWhite, e.message@),
        plain("\n"@),
        plain("\n"@),
    ]
}

/// The location block of a coloured rendering: the place, then the source
/// line with a marker under the column when the line is known.
pub open spec fn marjaa_location(loc: Option<SourceLocation>) -> Seq<(Tone, Seq<char>)> {
    match loc {
        Some(l) => seq![
            (Tone::BrightCyanBold, "الموقع:"@),
            plain(" "@),
            (Tone::BrightWhiteUnderline, l.file@),
            plain(":"@),
            (Tone::BrightYellow, decimal(l.line as nat)),
            plain(":"@),
            (Tone::BrightYellow, decimal(l.column as nat)),
            plain("\n"@),
        ] + if l.line_content@.len() > 0 {
            seq![
                plain("\n"@),
                plain("  "@),
                (Tone::BrightBlue, decimal(l.line as nat)),
                plain(" │ "@),
                (Tone::BrightWhite, l.line_content@),
                plain("\n"@),
            ] + colored_marker(l)
        } else {
            Seq::empty()
        },
        None => Seq::empty(),
    }
}

/// The coloured rendering of an error, as a document.
pub open spec fn marjaa_colored(e: MarjaaError) -> Seq<(Tone, Seq<char>)> {
    marjaa_heading(e) + marjaa_location(e.location) + (if e.stack_trace.frames@.len() > 0 {
        trace_document(e.stack_trace@.0)
    } else {
        Seq::empty()
    }) + (if e.suggestions@.len() > 0 {
        seq![plain("\n"@), (Tone::BrightYellow, "💡"@), plain(" اقتراحات الإصلاح:\n"@)]
            + colored_suggestion_entries(e.suggestions@)
    } else {
        Seq::empty()
    }) + match e.help {
        Some(h) => seq![
            plain("\n"@),
            (Tone::BrightCyan, "ℹ️ مساعدة:"@),
            plain(" "@),
            (Tone::BrightWhite, h@),
            plain("\n"@),
        ],
        None => Seq::empty(),
    } + colored_notes(e.notes@)
}

/// The plain rendering of an error: heading, message, location, numbered
/// suggestions and help; the trace and the notes are left out.
pub open spec fn marjaa_plain(e: MarjaaError) -> Seq<char> {
    e.kind.spec_icon() + ": "@ + e.kind.spec_arabic_name() + " ["@ + e.kind.spec_code() + "]\n"@
        + "الرسالة: "@ + e.message@ + "\n"@ + plain_location(e.location) + plain_suggestions(
        e.suggestions@,
    ) + match e.help {
        Some(h) => "مساعدة: "@ + h@ + "\n"@,
        None => Seq::empty(),
    }
}

fn marjaa_heading_doc(d: &mut Vec<Styled>, e: &MarjaaError)
    ensures
        doc_view(final(d)@) == doc_view(old(d)@) + marjaa_heading(*e),
{
    let ghost before = doc_view(d@);
    push_seg(d, Tone::Plain, "\n");
    push_seg(d, Tone::BrightRed, "╔══════════════════════════════════════════════════════════════╗");
    push_seg(d, Tone::Plain, "\n");
    let mut line = String::from_str("║  ");
    line.append(e.kind.icon());
    line.append(" ");
    push_seg_owned(d, Tone::Plain, line);
    push_seg(d, Tone::BrightRedBold, e.kind.arabic_name());
    push_seg(d, Tone::Plain, " [");
    push_seg(d, Tone::BrightYellow, e.kind.code());
    push_seg(d, Tone::Plain, "]\n");
    push_seg(d, Tone::BrightRed, "╚══════════════════════════════════════════════════════════════╝");
    push_seg(d, Tone::Plain, "\n\n");
    push_seg(d, Tone::BrightCyanBold, "الرسالة:");
    push_seg(d, Tone::Plain, " ");
    push_seg(d, Tone::BrightWhite, e.message.as_str());
    push_seg(d, Tone::Plain, "\n");
    push_seg(d, Tone::Plain, "\n");
    assert(doc_view(d@) =~= before + marjaa_heading(*e));
}

fn marjaa_location_doc(d: &mut Vec<Styled>, loc: &Option<SourceLocation>)
    ensures
        doc_view(final(d)@) == doc_view(old(d)@) + marjaa_location(*loc),
{
    let ghost before = doc_view(d@);
    match loc {
        Some(l) => {
            push_seg(d, Tone::BrightCyanBold, "الموقع:");
            push_seg(d, Tone::Plain, " ");
            push_seg(d, Tone::BrightWhiteUnderline, l.file.as_str());
            push_seg(d, Tone::Plain, ":");
            push_seg_owned(d, Tone::BrightYellow, usize_text(l.line));
            push_seg(d, Tone::Plain, ":");
            push_seg_owned(d, Tone::BrightYellow, usize_text(l.column));
            push_seg(d, Tone::Plain, "\n");
            if l.line_content.as_str().unicode_len() > 0 {
                push_seg(d, Tone::Plain, "\n");
                push_seg(d, Tone::Plain, "  ");
                push_seg_owned(d, Tone::BrightBlue, usize_text(l.line));
                push_seg(d, Tone::Plain, " │ ");
                push_seg(d, Tone::BrightWhite, l.line_content.as_str());
                push_seg(d, Tone::Plain, "\n");
                marker_doc(d, l);
            }
            assert(doc_view(d@) =~= before + marjaa_location(*loc));
        },
        None => {
            assert(doc_view(d@) =~= before + marjaa_location(*loc));
        },
    }
}

impl MarjaaError {
    /// The coloured rendering as a document of styled segments.
    pub fn colored_document(&self) -> (r: Vec<Styled>)
        ensures
            doc_view(r@) == marjaa_colored(*self),
    {
        let mut d: Vec<Styled> = Vec::new();
        assert(doc_view(d@) =~= Seq::<(Tone, Seq<char>)>::empty());
        marjaa_heading_doc(&mut d, self);
        marjaa_location_doc(&mut d, &self.location);
        let ghost mid = doc_view(d@);
        if !self.stack_trace.is_empty() {
            append_doc(&mut d, self.stack_trace.document());
        }
        assert(doc_view(d@) =~= mid + (if self.stack_trace.frames@.len() > 0 {
            trace_document(self.stack_trace@.0)
        } else {
            Seq::empty()
        }));
        suggestion_block_doc(&mut d, &self.suggestions);
        help_doc(&mut d, &self.help);
        notes_doc(&mut d, &self.notes);
        assert(doc_view(d@) =~= marjaa_colored(*self));
        d
    }

    /// تنسيق مع الألوان
    pub fn format_colored(&self) -> (r: String)
        ensures
            renders(r@, marjaa_colored(*self)),
    {
        render(&self.colored_document())
    }

    /// تنسيق الخطأ للعرض
    pub fn format(&self) -> (r: String)
        ensures
            renders(r@, marjaa_colored(*self)),
    {
        self.format_colored()
    }

    /// تنسيق بدون ألوان
    pub fn format_plain(&self) -> (r: String)
        ensures
            r@ == marjaa_plain(*self),
    {
        let mut output = String::from_str(self.kind.icon());
        output.append(": ");
        output.append(self.kind.arabic_name());
        output.append(" [");
        output.append(self.kind.code());
        output.append("]\n");
        output.append("الرسالة: ");
        output.append(self.message.as_str());
        output.append("\n");
        output.append(location_plain(&self.location).as_str());
        output.append(suggestions_plain(&self.suggestions).as_str());
        output.append(help_plain(&self.help).as_str());
        assert(output@ =~= marjaa_plain(*self));
        output
    }

    /// The text shown for the error: its plain rendering.
    pub fn to_display_string(&self) -> (r: String)
        ensures
            r@ == marjaa_plain(*self),
    {
        self.format_plain()
    }
}

/// خطأ متغير غير معرف
pub fn undefined_variable(name: &str, location: SourceLocation) -> (r: MarjaaError)
    ensures
        r.kind == ErrorKind::UndefinedVariable,
        r.message@ == undefined_variable_message(name@),
        r.location == Some(location),
        r.suggestions@.len() == 2,
        suggestion_is(r.suggestions@[0], "هل تقصد تعريف المتغير؟"@, Some(define_variable_example(name@))),
        suggestion_is(r.suggestions@[1], "تحقق من كتابة الاسم بشكل صحيح"@, None),
        r.help is Some && r.help.unwrap()@ == "يجب تعريف المتغير قبل استخدامه"@,
        no_trace_or_notes(r),
{
    let mut message = String::from_str("المتغير '");
    message.append(name);
    message.append("' غير معرف");
    let mut example = String::from_str("متغير ");
    example.append(name);
    example.append(" = قيمة");
    MarjaaError::from_message(ErrorKind::UndefinedVariable, message)
        .at(location)
        .suggest(Suggestion::new("هل تقصد تعريف المتغير؟").with_code(example.as_str()))
        .suggest(Suggestion::new("تحقق من كتابة الاسم بشكل صحيح"))
        .with_help("يجب تعريف المتغير قبل استخدامه")
}

/// خطأ نوع
pub fn type_error(expected: &str, got: &str, location: SourceLocation) -> (r: MarjaaError)
    ensures
        r.kind == ErrorKind::TypeError,
        r.message@ == type_error_message(expected@, got@),
        r.location == Some(location),
        r.suggestions@.len() == 0,
        r.help is Some && r.help.unwrap()@ == "تأكد من أن القيمة من النوع الصحيح قبل استخدامها"@,
        no_trace_or_notes(r),
{
    let mut message = String::from_str("متوقع نوع '");
    message.append(expected);
    message.append("'، لكن وجد '");
    message.append(got);
    message.append("'");
    MarjaaError::from_message(ErrorKind::TypeError, message)
        .at(location)
        .with_help("تأكد من أن القيمة من النوع الصحيح قبل استخدامها")
}

/// خطأ قسمة على صفر
pub fn division_by_zero(location: SourceLocation) -> (r: MarjaaError)
    ensures
        r.kind == ErrorKind::DivisionByZero,
        r.message@ == "لا يمكن القسمة على صفر"@,
        r.location == Some(location),
        r.suggestions@.len() == 1,
        suggestion_is(
            r.suggestions@[0],
            "أضف شرطاً للتحقق"@,
            Some("إذا مقسوم_عليه != 0: نتيجة = مقسوم / مقسوم_عليه"@),
        ),
        r.help is Some && r.help.unwrap()@ == "تحقق من أن المقسوم عليه ليس صفراً قبل إجراء القسمة"@,
        no_trace_or_notes(r),
{
    MarjaaError::new(ErrorKind::DivisionByZero, "لا يمكن القسمة على صفر")
        .at(location)
        .with_help("تحقق من أن المقسوم عليه ليس صفراً قبل إجراء القسمة")
        .suggest(Suggestion::new("أضف شرطاً للتحقق").with_code("إذا مقسوم_عليه != 0: نتيجة = مقسوم / مقسوم_عليه"))
}

/// خطأ فهرس خارج النطاق
pub fn index_out_of_bounds(index: i64, length: usize, location: SourceLocation) -> (r: MarjaaError)
    ensures
        r.kind == ErrorKind::IndexError,
        r.message@ == index_message(index, length),
        r.location == Some(location),
        r.suggestions@.len() == 1,
        suggestion_is(r.suggestions@[0], "استخدم فهرساً صالحاً"@, Some(index_example(length))),
        r.help is Some && r.help.unwrap()@ == "الفهارس تبدأ من 0 وتنتهي عند الطول - 1"@,
        no_trace_or_notes(r),
{
    let last = if length > 0 { length - 1 } else { 0 };
    let mut message = String::from_str("الفهرس ");
    message.append(i64_text(index).as_str());
    message.append(" خارج النطاق [0..");
    message.append(usize_text(last).as_str());
    message.append("]");
    let mut example = String::from_str("استخدم فهرساً بين 0 و ");
    example.append(usize_text(last).as_str());
    MarjaaError::from_message(ErrorKind::IndexError, message)
        .at(location)
        .suggest(Suggestion::new("استخدم فهرساً صالحاً").with_code(example.as_str()))
        .with_help("الفهارس تبدأ من 0 وتنتهي عند الطول - 1")
}

/// خطأ مفتاح غير موجود
pub fn key_not_found(key: &str, location: SourceLocation) -> (r: MarjaaError)
    ensures
        r.kind == ErrorKind::KeyError,
        r.message@ == key_message(key@),
        r.location == Some(location),
        r.suggestions@.len() == 1,
        suggestion_is(r.suggestions@[0], "تحقق من وجود المفتاح أولاً"@, Some(key_example(key@))),
        r.help is Some && r.help.unwrap()@ == "يمكنك استخدام دالة 'يحتوي' للتحقق من وجود المفتاح"@,
        no_trace_or_notes(r),
{
    let mut message = String::from_str("المفتاح '");
    message.append(key);
    message.append("' غير موجود في القاموس");
    let mut example = String::from_str("إذا \"");
    example.append(key);
    example.append("\" في قاموس: قيمة = قاموس[\"");
    example.append(key);
    example.append("\"]");
    MarjaaError::from_message(ErrorKind::KeyError, message)
        .at(location)
        .suggest(Suggestion::new("تحقق من وجود المفتاح أولاً").with_code(example.as_str()))
        .with_help("يمكنك استخدام دالة 'يحتوي' للتحقق من وجود المفتاح")
}

/// خطأ عودية عميقة
pub fn recursion_limit_exceeded(limit: usize, location: SourceLocation) -> (r: MarjaaError)
    ensures
        r.kind == ErrorKind::RecursionError,
        r.message@ == recursion_message(limit),
        r.location == Some(location),
        r.suggestions@.len() == 1,
        suggestion_is(r.suggestions@[0], "حول العودية إلى حلقة تكرارية"@, None),
        r.help is Some && r.help.unwrap()@ == "العودية العميقة قد تسبب استنفاد الذاكرة"@,
        no_trace_or_notes(r),
{
    let mut message = String::from_str("تجاوز الحد الأقصى لعمق العودية (");
    message.append(usize_text(limit).as_str());
    message.append(")");
    MarjaaError::from_message(ErrorKind::RecursionError, message)
        .at(location)
        .suggest(Suggestion::new("حول العودية إلى حلقة تكرارية"))
        .with_help("العودية العميقة قد تسبب استنفاد الذاكرة")
}

/// خطأ نحوي
pub fn syntax_error(message: &str, location: SourceLocation) -> (r: MarjaaError)
    ensures
        r.kind == ErrorKind::SyntaxError,
        r.message@ == message@,
        r.location == Some(location),
        r.suggestions@.len() == 0,
        r.help is None,
        no_trace_or_notes(r),
{
    MarjaaError::new(ErrorKind::SyntaxError, message).at(location)
}

/// خطأ رمز غير متوقع
pub fn unexpected_token(found: &str, expected: &str, location: SourceLocation) -> (r: MarjaaError)
    ensures
        r.kind == ErrorKind::UnexpectedToken,
        r.message@ == unexpected_message(found@, expected@),
        r.location == Some(location),
        r.suggestions@.len() == 1,
        suggestion_is(r.suggestions@[0], add_token_message(expected@), None),
        r.help is None,
        no_trace_or_notes(r),
{
    let mut message = String::from_str("وجد '");
    message.append(found);
    message.append("' بينما المتوقع '");
    message.append(expected);
    message.append("'");
    let mut advice = String::from_str("أضف '");
    advice.append(expected);
    advice.append("' في الموضع المناسب");
    MarjaaError::from_message(ErrorKind::UnexpectedToken, message)
        .at(location)
        .suggest(Suggestion::new(advice.as_str()))
}

/// خطأ ملف غير موجود
pub fn file_not_found(path: &str, location: SourceLocation) -> (r: MarjaaError)
    ensures
        r.kind == ErrorKind::FileNotFoundError,
        r.message@ == file_message(path@),
        r.location == Some(location),
        r.suggestions@.len() == 2,
        suggestion_is(r.suggestions@[0], "تحقق من مسار الملف"@, None),
        suggestion_is(r.suggestions@[1], "تأكد من أن الملف موجود في المجلد الصحيح"@, None),
        r.help is None,
        no_trace_or_notes(r),
{
    let mut message = String::from_str("الملف '");
    message.append(path);
    message.append("' غير موجود");
    MarjaaError::from_message(ErrorKind::FileNotFoundError, message)
        .at(location)
        .suggest(Suggestion::new("تحقق من مسار الملف"))
        .suggest(Suggestion::new("تأكد من أن الملف موجود في المجلد الصحيح"))
}

/// خطأ تأكيد
pub fn assertion_failed(message: &str, location: SourceLocation) -> (r: MarjaaError)
    ensures
        r.kind == ErrorKind::AssertionError,
        r.message@ == "فشل التأكيد: "@ + message@,
        r.location == Some(location),
        r.suggestions@.len() == 0,
        r.help is Some && r.help.unwrap()@ == "التأكيد يفشل عندما يكون الشرط خطأ"@,
        no_trace_or_notes(r),
{
    let mut text = String::from_str("فشل التأكيد: ");
    text.append(message);
    MarjaaError::from_message(ErrorKind::AssertionError, text)
        .at(location)
        .with_help("التأكيد يفشل عندما يكون الشرط خطأ")
}

/// The closing lines of a report: a rule and a summary of the counts.
pub open spec fn marjaa_summary(errors: nat, warnings: nat) -> Seq<(Tone, Seq<char>)> {
    let summary = "الملخص: "@ + decimal(errors) + " خطأ، "@ + decimal(warnings) + " تحذير"@;
    seq![
        (Tone::BrightBlack, "\n"@),
        (Tone::BrightBlack, "════════════════════════════════════════════════════════════"@),
        plain("\n"@),
        if errors > 0 {
            (Tone::BrightRedBold, summary)
        } else if warnings > 0 {
            (Tone::BrightYellow, summary)
        } else {
            (Tone::BrightGreen, "لا توجد أخطاء أو تحذيرات ✓"@)
        },
        plain("\n"@),
    ]
}

/// Each error rendered in colour and followed by a line feed.
pub open spec fn marjaa_list(es: Seq<MarjaaError>) -> Seq<(Tone, Seq<char>)>
    decreases es.len(),
{
    if es.len() == 0 {
        Seq::empty()
    } else {
        marjaa_list(es.drop_last()) + marjaa_colored(es.last()) + seq![plain("\n"@)]
    }
}

/// The whole report: errors, then warnings, then the summary.
pub open spec fn marjaa_report(errors: Seq<MarjaaError>, warnings: Seq<MarjaaError>) -> Seq<(Tone, Seq<char>)> {
    marjaa_list(errors) + marjaa_list(warnings) + marjaa_summary(errors.len(), warnings.len())
}

fn marjaa_list_doc(d: &mut Vec<Styled>, es: &Vec<MarjaaError>)
    ensures
        doc_view(final(d)@) == doc_view(old(d)@) + marjaa_list(es@),
{
    let ghost before = doc_view(d@);
    let n = es.len();
    let mut i: usize = 0;
    while i < n
        invariant
            n == es@.len(),
            i <= n,
            doc_view(d@) == before + marjaa_list(es@.take(i as int)),
        decreases n - i,
    {
        assert(es@.take(i + 1).drop_last() =~= es@.take(i as int));
        assert(es@.take(i + 1).last() == es@[i as int]);
        append_doc(d, es[i].colored_document());
        push_seg(d, Tone::Plain, "\n");
        assert(doc_view(d@) =~= before + marjaa_list(es@.take(i + 1)));
        i = i + 1;
    }
    assert(es@.take(n as int) =~= es@);
}

/// مُبلغ الأخطاء - يجمع ويبلغ عن أخطاء متعددة
#[derive(Debug)]
pub struct ErrorReporter {
    errors: Vec<MarjaaError>,
    warnings: Vec<MarjaaError>,
    max_errors: usize,
}

impl ErrorReporter {
    /// The errors gathered so far, oldest first.
    pub closed spec fn spec_errors(&self) -> Seq<MarjaaError> {
        self.errors@
    }

    /// The warnings gathered so far, oldest first.
    pub closed spec fn spec_warnings(&self) -> Seq<MarjaaError> {
        self.warnings@
    }

    /// The number of errors at which the limit counts as reached.
    pub closed spec fn spec_max_errors(&self) -> usize {
        self.max_errors
    }

    /// إنشاء مُبلغ جديد
    pub fn new() -> (r: Self)
        ensures
            r.spec_errors().len() == 0,
            r.spec_warnings().len() == 0,
            r.spec_max_errors() == 100,
    {
        ErrorReporter { errors: Vec::new(), warnings: Vec::new(), max_errors: 100 }
    }

    /// تعيين الحد الأقصى للأخطاء
    pub fn with_max_errors(self, max: usize) -> (r: Self)
        ensures
            r.spec_max_errors() == max,
            r.spec_errors() == self.spec_errors(),
            r.spec_warnings() == self.spec_warnings(),
    {
        let mut s = self;
        s.max_errors = max;
        s
    }

    /// إضافة خطأ
    pub fn error(&mut self, error: MarjaaError)
        ensures
            final(self).spec_errors() == old(self).spec_errors().push(error),
            final(self).spec_warnings() == old(self).spec_warnings(),
            final(self).spec_max_errors() == old(self).spec_max_errors(),
    {
        self.errors.push(error);
    }

    /// إضافة تحذير
    pub fn warning(&mut self, warning: MarjaaError)
        ensures
            final(self).spec_warnings() == old(self).spec_warnings().push(warning),
            final(self).spec_errors() == old(self).spec_errors(),
            final(self).spec_max_errors() == old(self).spec_max_errors(),
    {
        self.warnings.push(warning);
    }

    /// هل وصل للحد الأقصى
    pub fn has_exceeded_limit(&self) -> (r: bool)
        ensures
            r == (self.spec_errors().len() >= self.spec_max_errors()),
    {
        self.errors.len() >= self.max_errors
    }

    /// عدد الأخطاء
    pub fn error_count(&self) -> (r: usize)
        ensures
            r == self.spec_errors().len(),
    {
        self.errors.len()
    }

    /// عدد التحذيرات
    pub fn warning_count(&self) -> (r: usize)
        ensures
            r == self.spec_warnings().len(),
    {
        self.warnings.len()
    }

    /// هل توجد أخطاء
    pub fn has_errors(&self) -> (r: bool)
        ensures
            r == (self.spec_errors().len() > 0),
    {
        self.errors.len() > 0
    }

    /// هل توجد تحذيرات
    pub fn has_warnings(&self) -> (r: bool)
        ensures
            r == (self.spec_warnings().len() > 0),
    {
        self.warnings.len() > 0
    }

    /// The report as a document of styled segments.
    pub fn report_document(&self) -> (r: Vec<Styled>)
        ensures
            doc_view(r@) == marjaa_report(self.spec_errors(), self.spec_warnings()),
    {
        let mut d: Vec<Styled> = Vec::new();
        assert(doc_view(d@) =~= Seq::<(Tone, Seq<char>)>::empty());
        marjaa_list_doc(&mut d, &self.errors);
        marjaa_list_doc(&mut d, &self.warnings);
        let ghost before = doc_view(d@);
        push_seg(&mut d, Tone::BrightBlack, "\n");
        push_seg(&mut d, Tone::BrightBlack, "════════════════════════════════════════════════════════════");
        push_seg(&mut d, Tone::Plain, "\n");
        let mut summary = String::from_str("الملخص: ");
        summary.append(usize_text(self.errors.len()).as_str());
        summary.append(" خطأ، ");
        summary.append(usize_text(self.warnings.len()).as_str());
        summary.append(" تحذير");
        if self.errors.len() > 0 {
            push_seg_owned(&mut d, Tone::BrightRedBold, summary);
        } else if self.warnings.len() > 0 {
            push_seg_owned(&mut d, Tone::BrightYellow, summary);
        } else {
            push_seg(&mut d, Tone::BrightGreen, "لا توجد أخطاء أو تحذيرات ✓");
        }
        push_seg(&mut d, Tone::Plain, "\n");
        assert(doc_view(d@) =~= before + marjaa_summary(self.errors@.len(), self.warnings@.len()));
        assert(doc_view(d@) =~= marjaa_report(self.errors@, self.warnings@));
        d
    }

    /// تقرير كامل
    pub fn report(&self) -> (r: String)
        ensures
            renders(r@, marjaa_report(self.spec_errors(), self.spec_warnings())),
    {
        render(&self.report_document())
    }

    /// مسح الأخطاء
    pub fn clear(&mut self)
        ensures
            final(self).spec_errors().len() == 0,
            final(self).spec_warnings().len() == 0,
            final(self).spec_max_errors() == old(self).spec_max_errors(),
    {
        self.errors.clear();
        self.warnings.clear();
    }

    /// أخذ الأخطاء
    pub fn take_errors(&mut self) -> (r: Vec<MarjaaError>)
        ensures
            r@ == old(self).spec_errors(),
            final(self).spec_errors().len() == 0,
            final(self).spec_warnings() == old(self).spec_warnings(),
            final(self).spec_max_errors() == old(self).spec_max_errors(),
    {
        let mut taken: Vec<MarjaaError> = Vec::new();
        std::mem::swap(&mut taken, &mut self.errors);
        taken
    }
}

impl Default for ErrorReporter {
    /// An empty reporter whose limit is zero.
    fn default() -> (r: Self)
        ensures
            r.spec_errors().len() == 0,
            r.spec_warnings().len() == 0,
            r.spec_max_errors() == 0,
    {
        ErrorReporter { errors: Vec::new(), warnings: Vec::new(), max_errors: 0 }
    }
}

} // verus!
