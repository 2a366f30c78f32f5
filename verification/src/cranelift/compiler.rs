//! Compilation options and results.

use vstd::prelude::*;

verus! {

/// مستوى التحسين
#[derive(Debug, Clone, Copy, PartialEq, Eq, Structural)]
pub enum OptimizationLevel {
    /// بدون تحسين
    Unoptimized,
    /// تحسين للسرعة
    Speed,
    /// تحسين للسرعة مع الحفاظ على الحجم
    SpeedAndSize,
}

impl OptimizationLevel {
    /// The name of the level in the code generator's settings.
    pub open spec fn setting_name(self) -> Seq<char> {
        match self {
            OptimizationLevel::Unoptimized => "none"@,
            OptimizationLevel::Speed => "speed"@,
            OptimizationLevel::SpeedAndSize => "speed_and_size"@,
        }
    }

    /// تحويل إلى إعدادات المولد
    pub fn to_settings(self) -> (r: &'static str)
        ensures
            r@ == self.setting_name(),
    {
        match self {
            OptimizationLevel::Unoptimized => "none",
            OptimizationLevel::Speed => "speed",
            OptimizationLevel::SpeedAndSize => "speed_and_size",
        }
    }
}

/// نتيجة الترجمة
#[derive(Debug)]
pub struct CompilationResult {
    /// هل نجحت الترجمة
    pub success: bool,
    /// الأخطاء
    pub errors: Vec<String>,
    /// التحذيرات
    pub warnings: Vec<String>,
}

/// إعدادات الترجمة
#[derive(Debug, Clone)]
pub struct CompilerOptions {
    /// مستوى التحسين
    pub optimization_level: OptimizationLevel,
    /// الهدف
    pub target: Option<String>,
    /// اسم ملف الإخراج
    pub output_file: String,
    /// إنشاء ملف كائن فقط
    pub object_only: bool,
    /// تضمين وقت التشغيل
    pub link_runtime: bool,
    /// تفعيل التصحيح
    pub debug_info: bool,
}

impl Default for CompilerOptions {
    /// Optimise for speed, write `a.out`, link the runtime, no debug
    /// information and no particular target.
    fn default() -> (r: Self)
        ensures
            r.optimization_level == OptimizationLevel::Speed,
            r.target is None,
            r.output_file@ == "a.out"@,
            !r.object_only,
            r.link_runtime,
            !r.debug_info,
    {
        CompilerOptions {
            optimization_level: OptimizationLevel::Speed,
            target: None,
            output_file: String::from_str("a.out"),
            object_only: false,
            link_runtime: true,
            debug_info: false,
        }
    }
}

} // verus!
