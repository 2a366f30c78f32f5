//! SIMD operations of the JIT and the detection of source patterns that
//! vector instructions can replace, with the code written in their place.

use vstd::prelude::*;
use crate::text::{contains_char, contains_str, has_substring, str_eq};

verus! {

/// نوع العملية SIMD
#[derive(Debug, Clone, Copy, PartialEq, Eq, Structural)]
pub enum SimdJitOp {
    /// جمع متجهين (Add vectors)
    AddVec,
    /// طرح متجهين (Sub vectors)
    SubVec,
    /// ضرب متجهين (Mul vectors)
    MulVec,
    /// قسمة متجهين (Div vectors)
    DivVec,
    /// ضرب عدد في متجه (Scale vector)
    Scale,
    /// مجموع عناصر متجه (Sum vector)
    Sum,
    /// ناتج نقطة (Dot product)
    DotProduct,
    /// قيمة عظمى (Max)
    Max,
    /// قيمة صغرى (Min)
    Min,
    /// جمع أفقي (Horizontal add)
    HorizontalAdd,
}

/// نمط SIMD مكتشف
#[derive(Debug, Clone)]
pub enum SimdPattern {
    /// حلقة جمع (Sum loop)
    SumLoop {
        /// متغير الحلقة
        loop_var: String,
        /// القائمة
        list_expr: String,
    },
    /// حلقة ضرب (Product loop)
    ProductLoop { loop_var: String, list_expr: String },
    /// حلقة جمع مربعات (Sum of squares)
    SumOfSquares { loop_var: String, list_expr: String },
    /// عملية على عنصرين (Element-wise operation)
    ElementWise { op: String, list1: String, list2: String },
    /// عملية ضرب عدد (Scalar multiplication); the factor as it is written
    /// in the code.
    ScalarOp { op: String, list: String, scalar: String },
}

/// كاشف الأنماط SIMD
pub struct SimdPatternDetector {
    detected_patterns: Vec<SimdPattern>,
}

/// The call of a SIMD function on its arguments, as source text.
pub open spec fn call_code(func: Seq<char>, args: Seq<char>) -> Seq<char> {
    func + "("@ + args + ")"@
}

/// The code that replaces a pattern.
pub open spec fn simd_code(p: SimdPattern) -> Seq<char> {
    match p {
        SimdPattern::SumLoop { list_expr, .. } => call_code("simd.مجموع"@, list_expr@),
        SimdPattern::ProductLoop { list_expr, .. } => call_code("simd.ناتج"@, list_expr@),
        SimdPattern::SumOfSquares { list_expr, .. } => call_code("simd.مجموع_مربعات"@, list_expr@),
        SimdPattern::ElementWise { op, list1, list2 } => {
            let args = list1@ + ", "@ + list2@;
            if op@ == "Add"@ {
                call_code("simd.جمع"@, args)
            } else if op@ == "Sub"@ {
                call_code("simd.طرح"@, args)
            } else if op@ == "Mul"@ {
                call_code("simd.ضرب"@, args)
            } else {
                "// لا يمكن تحسينه"@
            }
        },
        SimdPattern::ScalarOp { list, scalar, .. } => call_code("simd.ضرب_عدد"@, list@ + ", "@ + scalar@),
    }
}

/// A sum loop over `س` in `قائمة`: the pattern that a sum is recognised as.
pub open spec fn is_sum_loop(p: SimdPattern) -> bool {
    p matches SimdPattern::SumLoop { loop_var, list_expr } && loop_var@ == "س"@ && list_expr@ == "قائمة"@
}

/// An element-wise operation of that name over `قائمة1` and `قائمة2`.
pub open spec fn is_element_wise(p: SimdPattern, name: Seq<char>) -> bool {
    p matches SimdPattern::ElementWise { op, list1, list2 } && op@ == name && list1@ == "قائمة1"@ && list2@
        == "قائمة2"@
}

/// Which element-wise operation a loop over two lists performs, by the
/// first operator found among `+`, `-` and `*` (a `*` of a closing comment
/// does not count); none when it has none of them.
pub open spec fn element_wise_op(code: Seq<char>) -> Option<Seq<char>> {
    if !(has_substring(code, "لكل"@) && has_substring(code, "في"@)) {
        None
    } else if code.contains('+') {
        Some("Add"@)
    } else if code.contains('-') {
        Some("Sub"@)
    } else if code.contains('*') && !has_substring(code, "*/"@) {
        Some("Mul"@)
    } else {
        None
    }
}

fn call_text(func: &str, args: &str) -> (r: String)
    ensures
        r@ == call_code(func@, args@),
{
    let mut r = String::from_str(func);
    r.append("(");
    r.append(args);
    r.append(")");
    r
}

fn pair_text(a: &str, b: &str) -> (r: String)
    ensures
        r@ == a@ + ", "@ + b@,
{
    let mut r = String::from_str(a);
    r.append(", ");
    r.append(b);
    r
}

fn element_wise(op: &str) -> (r: SimdPattern)
    ensures
        is_element_wise(r, op@),
{
    SimdPattern::ElementWise {
        op: String::from_str(op),
        list1: String::from_str("قائمة1"),
        list2: String::from_str("قائمة2"),
    }
}

impl SimdPatternDetector {
    /// The patterns recorded so far.
    pub closed spec fn spec_patterns(&self) -> Seq<SimdPattern> {
        self.detected_patterns@
    }

    pub fn new() -> (r: Self)
        ensures
            r.spec_patterns() == Seq::<SimdPattern>::empty(),
    {
        SimdPatternDetector { detected_patterns: Vec::new() }
    }

    /// كشف نمط حلقة جمع: code that names `مجموع` and adds with `+=` is a
    /// sum loop; nothing is recorded.
    pub fn detect_sum_pattern(&mut self, code: &str) -> (r: Option<SimdPattern>)
        ensures
            (has_substring(code@, "مجموع"@) && has_substring(code@, "+="@)) ==> (r matches Some(p) && is_sum_loop(p)),
            !(has_substring(code@, "مجموع"@) && has_substring(code@, "+="@)) ==> r is None,
            final(self).spec_patterns() == old(self).spec_patterns(),
    {
        if contains_str(code, "مجموع") && contains_str(code, "+=") {
            Some(SimdPattern::SumLoop { loop_var: String::from_str("س"), list_expr: String::from_str("قائمة") })
        } else {
            None
        }
    }

    /// كشف نمط عملية على عنصرين: a loop (`لكل` ... `في`) whose operator
    /// is `+`, `-` or `*`; nothing is recorded.
    pub fn detect_elementwise_pattern(&mut self, code: &str) -> (r: Option<SimdPattern>)
        ensures
            match element_wise_op(code@) {
                Some(name) => r matches Some(p) && is_element_wise(p, name),
                None => r is None,
            },
            final(self).spec_patterns() == old(self).spec_patterns(),
    {
        if contains_str(code, "لكل") && contains_str(code, "في") {
            if contains_char(code, '+') {
                Some(element_wise("Add"))
            } else if contains_char(code, '-') {
                Some(element_wise("Sub"))
            } else if contains_char(code, '*') && !contains_str(code, "*/") {
                Some(element_wise("Mul"))
            } else {
                None
            }
        } else {
            None
        }
    }

    /// الحصول على الأنماط المكتشفة
    pub fn detected_patterns(&self) -> (r: &[SimdPattern])
        ensures
            r@ == self.spec_patterns(),
    {
        self.detected_patterns.as_slice()
    }

    /// توليد كود SIMD محسن
    pub fn generate_simd_code(&self, pattern: &SimdPattern) -> (r: String)
        ensures
            r@ == simd_code(*pattern),
    {
        match pattern {
            SimdPattern::SumLoop { list_expr, .. } => call_text("simd.مجموع", list_expr.as_str()),
            SimdPattern::ProductLoop { list_expr, .. } => call_text("simd.ناتج", list_expr.as_str()),
            SimdPattern::SumOfSquares { list_expr, .. } => call_text("simd.مجموع_مربعات", list_expr.as_str()),
            SimdPattern::ElementWise { op, list1, list2 } => {
                let args = pair_text(list1.as_str(), list2.as_str());
                if str_eq(op.as_str(), "Add") {
                    call_text("simd.جمع", args.as_str())
                } else if str_eq(op.as_str(), "Sub") {
                    call_text("simd.طرح", args.as_str())
                } else if str_eq(op.as_str(), "Mul") {
                    call_text("simd.ضرب", args.as_str())
                } else {
                    String::from_str("// لا يمكن تحسينه")
                }
            },
            SimdPattern::ScalarOp { list, scalar, .. } => {
                let args = pair_text(list.as_str(), scalar.as_str());
                call_text("simd.ضرب_عدد", args.as_str())
            },
        }
    }
}

impl Default for SimdPatternDetector {
    fn default() -> (r: Self)
        ensures
            r.spec_patterns() == Seq::<SimdPattern>::empty(),
    {
        Self::new()
    }
}

} // verus!
