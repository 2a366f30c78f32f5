//! The register machine's code container, call frames, statistics and
//! results. Its instructions carry numbers of the language, so the
//! instruction type is a parameter `Op`, and values are a parameter `V`.

use std::collections::HashMap;
use vstd::prelude::*;

verus! {

/// كود مترجم للـ Register VM
pub struct RegChunk<Op> {
    /// التعليمات
    pub instructions: Vec<Op>,
    /// النصوص الثابتة
    pub strings: Vec<String>,
    /// نقاط الدخول للدوال
    pub entry_points: HashMap<String, usize>,
}

impl<Op> RegChunk<Op> {
    /// No instruction, no text.
    pub fn new() -> (r: Self)
        ensures
            r.instructions@.len() == 0,
            r.strings@.len() == 0,
    {
        RegChunk { instructions: Vec::new(), strings: Vec::new(), entry_points: HashMap::new() }
    }

    /// إضافة تعليمة
    pub fn emit(&mut self, op: Op)
        ensures
            final(self).instructions@ == old(self).instructions@.push(op),
            final(self).strings@ == old(self).strings@,
    {
        self.instructions.push(op);
    }

    /// إضافة نص والحصول على الفهرس: the text is kept at the end; its
    /// index is given back as a 32-bit number, which wraps past its range.
    pub fn add_string(&mut self, s: &str) -> (r: u32)
        ensures
            r == old(self).strings@.len() as u32,
            final(self).strings@.len() == old(self).strings@.len() + 1,
            final(self).strings@.drop_last() == old(self).strings@,
            final(self).strings@.last()@ == s@,
            final(self).instructions@ == old(self).instructions@,
    {
        let idx = self.strings.len() as u32;
        self.strings.push(s.to_string());
        assert(self.strings@.drop_last() =~= old(self).strings@);
        idx
    }

    /// الحصول على نص
    pub fn get_string(&self, idx: u32) -> (r: Option<&str>)
        ensures
            (idx as int) < self.strings@.len() ==> (r matches Some(t) && t@ == self.strings@[idx as int]@),
            (idx as int) >= self.strings@.len() ==> r is None,
    {
        let i = idx as usize;
        if i < self.strings.len() {
            Some(self.strings[i].as_str())
        } else {
            None
        }
    }

    /// عدد التعليمات
    pub fn len(&self) -> (r: usize)
        ensures
            r == self.instructions@.len(),
    {
        self.instructions.len()
    }
}

impl<Op> Default for RegChunk<Op> {
    fn default() -> (r: Self)
        ensures
            r.instructions@.len() == 0,
            r.strings@.len() == 0,
    {
        Self::new()
    }
}

/// إطار استدعاء للـ Register VM
#[derive(Debug, Clone)]
pub struct RegCallFrame {
    /// مؤشر التعليمة المحفوظ
    pub return_ip: usize,
    /// نقطة بداية السجلات المحلية
    pub base_register: u8,
    /// عدد السجلات المحلية
    pub num_locals: u8,
    /// اسم الدالة
    pub name: String,
}

/// إحصائيات Register VM
#[derive(Debug, Clone, Copy, PartialEq, Eq, Structural)]
pub struct RegVMStats {
    /// عدد التعليمات المنفذة
    pub instructions_executed: u64,
    /// عدد استدعاءات الدوال
    pub function_calls: u64,
    /// وقت التنفيذ (ميكروثانية)
    pub execution_time_us: u64,
    /// عدد ضربات الكاش
    pub cache_hits: u64,
    /// عدد أخطاء الكاش
    pub cache_misses: u64,
    /// عدد التحسينات المطبقة
    pub optimizations_applied: u64,
}

impl Default for RegVMStats {
    fn default() -> (r: Self)
        ensures
            r == (RegVMStats {
                instructions_executed: 0,
                function_calls: 0,
                execution_time_us: 0,
                cache_hits: 0,
                cache_misses: 0,
                optimizations_applied: 0,
            }),
    {
        RegVMStats {
            instructions_executed: 0,
            function_calls: 0,
            execution_time_us: 0,
            cache_hits: 0,
            cache_misses: 0,
            optimizations_applied: 0,
        }
    }
}

/// نتيجة التنفيذ
#[derive(Debug)]
pub enum RegExecutionResult<V> {
    /// The run ended with this value.
    Value(V),
    Error(String),
    Break,
    Continue,
    Return(V),
}

} // verus!
