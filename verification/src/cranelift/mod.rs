//! The native back end's front matter: the language's type system, the
//! options and results of compilation, and the report made of them.

pub mod compiler;
pub mod types;

pub use compiler::{CompilationResult, CompilerOptions, OptimizationLevel};
pub use types::{MarjaaType, TypeSystem};

use vstd::prelude::*;

verus! {

/// نتيجة الترجمة
#[derive(Debug)]
pub struct CraneliftResult {
    /// هل نجحت الترجمة
    pub success: bool,
    /// الأخطاء إن وجدت
    pub errors: Vec<String>,
    /// التحذيرات
    pub warnings: Vec<String>,
    /// وقت الترجمة (مللي ثانية)
    pub compile_time_ms: u64,
    /// حجم الملف المُنتج
    pub output_size: Option<u64>,
}

/// What a compilation reports from the compiler's outcome: a failure to
/// create the compiler or to compile is the one error; a finished
/// compilation passes on its errors and warnings. It succeeded when no
/// error is left. No output file is written here, so no size is known.
pub fn compile_report(outcome: Result<CompilationResult, String>, compile_time_ms: u64) -> (r: CraneliftResult)
    ensures
        match outcome {
            Ok(c) => r.errors@ == c.errors@ && r.warnings@ == c.warnings@,
            Err(e) => r.errors@ == seq![e] && r.warnings@.len() == 0,
        },
        r.success == (r.errors@.len() == 0),
        r.compile_time_ms == compile_time_ms,
        r.output_size is None,
{
    let (errors, warnings) = match outcome {
        Ok(c) => (c.errors, c.warnings),
        Err(e) => (vec![e], Vec::new()),
    };
    let success = errors.len() == 0;
    CraneliftResult { success, errors, warnings, compile_time_ms, output_size: None }
}

} // verus!
