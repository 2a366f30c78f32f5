//! Optimisation passes of the compiler that work on instruction sequences:
//! loop unrolling, peeling and fusion, escape analysis for stack
//! allocation, and the cache of inlinable functions. The passes are generic
//! in the instruction type.

use crate::assoc::AssocList;
use crate::text::{usize_text, views};
use std::collections::HashMap;
use vstd::prelude::*;

verus! {

broadcast use vstd::std_specs::hash::group_hash_axioms;

/// نمط التعليمات القابل للتوجيه
#[derive(Debug, Clone, Copy, PartialEq, Eq, Structural)]
pub enum VectorizablePattern {
    /// عملية جمع على مصفوفة
    ArrayAdd,
    /// عملية طرح على مصفوفة
    ArraySub,
    /// عملية ضرب على مصفوفة
    ArrayMul,
    /// عملية قسمة على مصفوفة
    ArrayDiv,
    /// dot product
    DotProduct,
    /// مصفوفة عددية (scalar)
    ScalarOp,
    /// عملية مركبة (fused)
    FusedMultiplyAdd,
    /// لا يوجد نمط
    NoPattern,
}

/// نوع عملية SIMD
#[derive(Debug, Clone, Copy, PartialEq, Eq, Structural)]
pub enum SimdOpType {
    Add,
    Sub,
    Mul,
    Div,
    Fma,
}

// ═══════════════════════════════════════════════════════════════════════════
// Loops
// ═══════════════════════════════════════════════════════════════════════════

/// Counters of the loop optimiser.
#[derive(Debug, Clone, Copy, PartialEq, Eq, Structural)]
pub struct LoopOptStats {
    pub loops_unrolled: u64,
    pub loops_peeled: u64,
    pub iterations_saved: u64,
}

impl Default for LoopOptStats {
    fn default() -> (r: Self)
        ensures
            r == (LoopOptStats { loops_unrolled: 0, loops_peeled: 0, iterations_saved: 0 }),
    {
        LoopOptStats { loops_unrolled: 0, loops_peeled: 0, iterations_saved: 0 }
    }
}

/// محسن الحلقات
#[derive(Debug)]
pub struct LoopOptimizer {
    max_unroll_factor: usize,
    stats: LoopOptStats,
}

/// `r` is `n` copies of `body`, one after the other, each element a clone
/// of the body's element at its place.
pub open spec fn copies_of<T: Clone>(r: Seq<T>, body: Seq<T>, n: nat) -> bool {
    &&& r.len() == n * body.len()
    &&& forall|k: int| 0 <= k < r.len() ==> cloned(body[k % (body.len() as int)], #[trigger] r[k])
}

/// `r` is the fusion of the bodies: for each position below the shortest
/// length, the element of each body there in turn.
pub open spec fn fusion_of<T: Clone>(r: Seq<T>, bodies: Seq<Vec<T>>, m: nat) -> bool {
    &&& r.len() == m * bodies.len()
    &&& forall|i: int, j: int|
        0 <= i < m && 0 <= j < bodies.len() ==> cloned(
            bodies[j]@[i],
            #[trigger] r[i * bodies.len() + j],
        )
}

/// The length of the shortest body, zero when there are none.
pub open spec fn shortest<T>(bodies: Seq<Vec<T>>) -> nat
    decreases bodies.len(),
{
    if bodies.len() == 0 {
        0
    } else if bodies.len() == 1 {
        bodies[0]@.len()
    } else {
        let rest = shortest(bodies.drop_last());
        if bodies.last()@.len() < rest { bodies.last()@.len() } else { rest }
    }
}

proof fn lemma_shortest_below<T>(bodies: Seq<Vec<T>>, j: int)
    requires
        0 <= j < bodies.len(),
    ensures
        shortest(bodies) <= bodies[j]@.len(),
    decreases bodies.len(),
{
    if bodies.len() > 1 && j < bodies.len() - 1 {
        lemma_shortest_below(bodies.drop_last(), j);
    }
}

/// Unrolling lays the copies of the body out in order: copy `c` holds, at
/// each position `j`, a clone of the body's element `j`.
pub proof fn law_unrolled_in_order<T: Clone>(r: Seq<T>, body: Seq<T>, n: nat, c: int, j: int)
    requires
        copies_of(r, body, n),
        0 <= c < n,
        0 <= j < body.len(),
    ensures
        c * body.len() + j < r.len(),
        cloned(body[j], r[c * body.len() + j]),
{
    lemma_copy_index(c, body.len() as int, j);
    assert((c + 1) * body.len() <= n * body.len()) by (nonlinear_arith)
        requires
            c + 1 <= n,
    ;
}

proof fn lemma_copy_index(c: int, n: int, j: int)
    requires
        n > 0,
        c >= 0,
        0 <= j < n,
    ensures
        (c * n + j) % n == j,
        c * n + j < (c + 1) * n,
{
    assert((c * n + j) % n == j) by (nonlinear_arith)
        requires
            n > 0,
            c >= 0,
            0 <= j < n,
    ;
    assert(c * n + j < (c + 1) * n) by (nonlinear_arith)
        requires
            j < n,
    ;
}

impl LoopOptimizer {
    /// The counters.
    pub closed spec fn spec_stats(&self) -> LoopOptStats {
        self.stats
    }

    /// The largest number of copies unrolled in one group.
    pub closed spec fn spec_max_unroll_factor(&self) -> usize {
        self.max_unroll_factor
    }

    pub fn new() -> (r: Self)
        ensures
            r.spec_stats() == (LoopOptStats { loops_unrolled: 0, loops_peeled: 0, iterations_saved: 0 }),
            r.spec_max_unroll_factor() == 8,
    {
        LoopOptimizer { max_unroll_factor: 8, stats: LoopOptStats::default() }
    }

    /// فك الحلقة: the body repeated once per iteration. Past the unroll
    /// factor the loop counts as partially unrolled, saving one iteration
    /// per group of the factor.
    pub fn unroll_loop<T: Clone>(&mut self, iterations: usize, body: &[T]) -> (r: Vec<T>)
        requires
            iterations * body@.len() <= usize::MAX,
            old(self).spec_stats().loops_unrolled < u64::MAX,
            iterations > old(self).spec_max_unroll_factor() ==> old(self).spec_stats().iterations_saved + iterations
                / old(self).spec_max_unroll_factor() <= u64::MAX,
            old(self).spec_max_unroll_factor() > 0,
        ensures
            copies_of(r@, body@, iterations as nat),
            final(self).spec_max_unroll_factor() == old(self).spec_max_unroll_factor(),
            final(self).spec_stats() == (LoopOptStats {
                loops_unrolled: (old(self).spec_stats().loops_unrolled + 1) as u64,
                iterations_saved: if iterations > old(self).spec_max_unroll_factor() {
                    (old(self).spec_stats().iterations_saved + iterations / old(
                        self,
                    ).spec_max_unroll_factor()) as u64
                } else {
                    old(self).spec_stats().iterations_saved
                },
                ..old(self).spec_stats()
            }),
    {
        let mut unrolled: Vec<T> = Vec::new();
        let n = body.len();
        let mut c: usize = 0;
        while c < iterations
            invariant
                c <= iterations,
                n == body@.len(),
                iterations * n <= usize::MAX,
                unrolled@.len() == c * n,
                n > 0 ==> forall|k: int| 0 <= k < unrolled@.len() ==> cloned(body@[k % (n as int)], #[trigger] unrolled@[k]),
            decreases iterations - c,
        {
            assert((c + 1) * n <= iterations * n) by (nonlinear_arith)
                requires
                    c + 1 <= iterations,
            ;
            let ghost before = unrolled@;
            unrolled.extend_from_slice(body);
            proof {
                if n > 0 {
                    assert forall|k: int| 0 <= k < unrolled@.len() implies cloned(body@[k % (n as int)], #[trigger] unrolled@[k]) by {
                        if k >= before.len() {
                            lemma_copy_index(c as int, n as int, k - c * n);
                        } else {
                            assert(unrolled@[k] == before[k]);
                        }
                    }
                }
                assert(unrolled@.len() == (c + 1) * n) by (nonlinear_arith)
                    requires
                        unrolled@.len() == c * n + n,
                ;
            }
            c = c + 1;
        }
        let factor = self.max_unroll_factor;
        if iterations > factor {
            self.stats.iterations_saved = self.stats.iterations_saved + (iterations / factor) as u64;
        }
        self.stats.loops_unrolled = self.stats.loops_unrolled + 1;
        unrolled
    }

    /// تقشير الحلقة: the first iteration apart from the rest, both copies of
    /// the body.
    pub fn peel_loop<T: Clone>(&mut self, body: &[T]) -> (r: (Vec<T>, Vec<T>))
        requires
            old(self).spec_stats().loops_peeled < u64::MAX,
        ensures
            copies_of(r.0@, body@, 1),
            copies_of(r.1@, body@, 1),
            final(self).spec_max_unroll_factor() == old(self).spec_max_unroll_factor(),
            final(self).spec_stats() == (LoopOptStats {
                loops_peeled: (old(self).spec_stats().loops_peeled + 1) as u64,
                ..old(self).spec_stats()
            }),
    {
        let mut peeled: Vec<T> = Vec::new();
        peeled.extend_from_slice(body);
        let mut remaining: Vec<T> = Vec::new();
        remaining.extend_from_slice(body);
        proof {
            assert forall|k: int| 0 <= k < peeled@.len() implies cloned(body@[k % (body@.len() as int)], #[trigger] peeled@[k]) by {
                lemma_copy_index(0, body@.len() as int, k);
            }
            assert forall|k: int| 0 <= k < remaining@.len() implies cloned(body@[k % (body@.len() as int)], #[trigger] remaining@[k]) by {
                lemma_copy_index(0, body@.len() as int, k);
            }
        }
        self.stats.loops_peeled = self.stats.loops_peeled + 1;
        (peeled, remaining)
    }

    /// دمج الحلقات: position by position up to the shortest body, the
    /// element of each body in turn.
    pub fn fuse_loops<T: Clone>(&mut self, loops: &[Vec<T>]) -> (r: Vec<T>)
        requires
            shortest(loops@) * loops@.len() <= usize::MAX,
        ensures
            fusion_of(r@, loops@, shortest(loops@)),
            final(self).spec_stats() == old(self).spec_stats(),
            final(self).spec_max_unroll_factor() == old(self).spec_max_unroll_factor(),
    {
        let mut fused: Vec<T> = Vec::new();
        let n = loops.len();
        if n == 0 {
            return fused;
        }
        let mut min_len = loops[0].len();
        let mut j: usize = 1;
        proof {
            assert(loops@.take(1) =~= seq![loops@[0]]);
        }
        while j < n
            invariant
                1 <= j <= n,
                n == loops@.len(),
                min_len == shortest(loops@.take(j as int)),
            decreases n - j,
        {
            assert(loops@.take(j + 1).drop_last() =~= loops@.take(j as int));
            if loops[j].len() < min_len {
                min_len = loops[j].len();
            }
            j = j + 1;
        }
        assert(loops@.take(n as int) =~= loops@);
        let mut i: usize = 0;
        while i < min_len
            invariant
                i <= min_len,
                n == loops@.len(),
                n > 0,
                min_len == shortest(loops@),
                min_len * n <= usize::MAX,
                fused@.len() == i * n,
                forall|a: int, b: int|
                    0 <= a < i && 0 <= b < n ==> cloned(loops@[b]@[a], #[trigger] fused@[a * n + b]),
            decreases min_len - i,
        {
            assert((i + 1) * n <= min_len * n) by (nonlinear_arith)
                requires
                    i + 1 <= min_len,
            ;
            let mut b: usize = 0;
            let ghost start = fused@;
            while b < n
                invariant
                    b <= n,
                    i < min_len,
                    n == loops@.len(),
                    min_len == shortest(loops@),
                    (i + 1) * n <= usize::MAX,
                    start.len() == i * n,
                    fused@.len() == i * n + b,
                    fused@.subrange(0, start.len() as int) == start,
                    forall|c: int| 0 <= c < b ==> cloned(loops@[c]@[i as int], #[trigger] fused@[i * n + c]),
                decreases n - b,
            {
                proof {
                    lemma_shortest_below(loops@, b as int);
                    assert((i + 1) * n == i * n + n) by (nonlinear_arith);
                }
                let ghost mid = fused@;
                fused.push(loops[b][i].clone());
                assert(fused@.subrange(0, start.len() as int) =~= mid.subrange(0, start.len() as int));
                b = b + 1;
            }
            proof {
                assert forall|a: int, c: int|
                    0 <= a < i + 1 && 0 <= c < n implies cloned(loops@[c]@[a], #[trigger] fused@[a * n + c]) by {
                    if a < i {
                        assert(a * n + c < i * n) by (nonlinear_arith)
                            requires
                                a < i,
                                c < n,
                        ;
                        assert(fused@[a * n + c] == fused@.subrange(0, start.len() as int)[a * n + c]);
                    }
                }
                assert(fused@.len() == (i + 1) * n) by (nonlinear_arith)
                    requires
                        fused@.len() == i * n + n,
                ;
            }
            i = i + 1;
        }
        fused
    }

    pub fn stats(&self) -> (r: &LoopOptStats)
        ensures
            *r == self.spec_stats(),
    {
        &self.stats
    }
}

impl Default for LoopOptimizer {
    fn default() -> (r: Self)
        ensures
            r.spec_stats() == (LoopOptStats { loops_unrolled: 0, loops_peeled: 0, iterations_saved: 0 }),
            r.spec_max_unroll_factor() == 8,
    {
        Self::new()
    }
}

// ═══════════════════════════════════════════════════════════════════════════
// Escape analysis
// ═══════════════════════════════════════════════════════════════════════════

/// Counters of the escape analysis.
#[derive(Debug, Clone, Copy, PartialEq, Eq, Structural)]
pub struct EscapeStats {
    pub variables_analyzed: u64,
    pub stack_allocated: u64,
    pub heap_allocated: u64,
    pub memory_saved_bytes: u64,
}

impl Default for EscapeStats {
    fn default() -> (r: Self)
        ensures
            r == (EscapeStats { variables_analyzed: 0, stack_allocated: 0, heap_allocated: 0, memory_saved_bytes: 0 }),
    {
        EscapeStats { variables_analyzed: 0, stack_allocated: 0, heap_allocated: 0, memory_saved_bytes: 0 }
    }
}

/// استراتيجية التخصيص
#[derive(Debug, Clone, Copy, PartialEq, Eq, Structural)]
pub enum AllocationStrategy {
    Stack,
    Heap,
    Register,
}

/// تحليل الهروب للتخصيص على المكدس
#[derive(Debug)]
pub struct EscapeAnalyzer {
    local_vars: AssocList<bool>,
    stats: EscapeStats,
}

/// The counters after analysing one more variable: a variable that does not
/// escape saves 24 bytes.
pub open spec fn escape_counted(s: EscapeStats, escapes: bool) -> EscapeStats {
    if escapes {
        EscapeStats {
            variables_analyzed: (s.variables_analyzed + 1) as u64,
            heap_allocated: (s.heap_allocated + 1) as u64,
            ..s
        }
    } else {
        EscapeStats {
            variables_analyzed: (s.variables_analyzed + 1) as u64,
            stack_allocated: (s.stack_allocated + 1) as u64,
            memory_saved_bytes: (s.memory_saved_bytes + 24) as u64,
            ..s
        }
    }
}

impl EscapeAnalyzer {
    /// Whether each analysed variable escapes.
    pub closed spec fn spec_escapes(&self) -> Map<Seq<char>, bool> {
        self.local_vars.map()
    }

    /// The counters.
    pub closed spec fn spec_stats(&self) -> EscapeStats {
        self.stats
    }

    pub fn new() -> (r: Self)
        ensures
            r.spec_escapes() == Map::<Seq<char>, bool>::empty(),
            r.spec_stats() == (EscapeStats { variables_analyzed: 0, stack_allocated: 0, heap_allocated: 0, memory_saved_bytes: 0 }),
    {
        EscapeAnalyzer { local_vars: AssocList::new(), stats: EscapeStats::default() }
    }

    /// تحليل المتغير
    pub fn analyze_variable(&mut self, name: &str, escapes: bool)
        requires
            old(self).spec_stats().variables_analyzed < u64::MAX,
            old(self).spec_stats().heap_allocated < u64::MAX,
            old(self).spec_stats().stack_allocated < u64::MAX,
            old(self).spec_stats().memory_saved_bytes + 24 <= u64::MAX,
        ensures
            final(self).spec_escapes() == old(self).spec_escapes().insert(name@, escapes),
            final(self).spec_stats() == escape_counted(old(self).spec_stats(), escapes),
    {
        let _ = self.local_vars.insert(String::from_str(name), escapes);
        self.stats.variables_analyzed = self.stats.variables_analyzed + 1;
        if escapes {
            self.stats.heap_allocated = self.stats.heap_allocated + 1;
        } else {
            self.stats.stack_allocated = self.stats.stack_allocated + 1;
            self.stats.memory_saved_bytes = self.stats.memory_saved_bytes + 24;
        }
    }

    /// هل يمكن تخصيص المتغير على المكدس؟ Only a variable analysed as not
    /// escaping can.
    pub fn can_stack_allocate(&self, name: &str) -> (r: bool)
        ensures
            r == (self.spec_escapes().contains_key(name@) && !self.spec_escapes()[name@]),
    {
        match self.local_vars.get(name) {
            Some(escapes) => !*escapes,
            None => false,
        }
    }

    /// تحسين التخصيص
    pub fn optimize_allocation(&mut self, name: &str) -> (r: AllocationStrategy)
        ensures
            r == (if old(self).spec_escapes().contains_key(name@) && !old(self).spec_escapes()[name@] {
                AllocationStrategy::Stack
            } else {
                AllocationStrategy::Heap
            }),
            final(self).spec_escapes() == old(self).spec_escapes(),
            final(self).spec_stats() == old(self).spec_stats(),
    {
        if self.can_stack_allocate(name) {
            AllocationStrategy::Stack
        } else {
            AllocationStrategy::Heap
        }
    }

    pub fn stats(&self) -> (r: &EscapeStats)
        ensures
            *r == self.spec_stats(),
    {
        &self.stats
    }
}

impl Default for EscapeAnalyzer {
    fn default() -> (r: Self)
        ensures
            r.spec_escapes() == Map::<Seq<char>, bool>::empty(),
    {
        Self::new()
    }
}

/// The last analysis of a variable decides: it is stack-allocated exactly
/// when that analysis found that it does not escape.
pub proof fn law_last_analysis_decides(m: Map<Seq<char>, bool>, name: Seq<char>, escapes: bool)
    ensures
        (m.insert(name, escapes).contains_key(name) && !m.insert(name, escapes)[name]) == !escapes,
{
}

// ═══════════════════════════════════════════════════════════════════════════
// Inline cache
// ═══════════════════════════════════════════════════════════════════════════

/// مدخل التخزين المؤقت للدمج
#[derive(Debug)]
pub struct InlineCacheEntry<T> {
    /// اسم الدالة
    pub function_name: String,
    /// عدد المعاملات
    pub arg_count: usize,
    /// الكود المدمج
    pub inlined_code: Vec<T>,
    /// عدد مرات الاستخدام
    pub hit_count: u64,
    /// هل تم الدمج؟
    pub is_inlined: bool,
}

/// Counters of the inline cache.
#[derive(Debug, Clone, Copy, PartialEq, Eq, Structural)]
pub struct InlineCacheStats {
    pub cache_hits: u64,
    pub cache_misses: u64,
    pub functions_inlined: u64,
    pub calls_saved: u64,
}

impl Default for InlineCacheStats {
    fn default() -> (r: Self)
        ensures
            r == (InlineCacheStats { cache_hits: 0, cache_misses: 0, functions_inlined: 0, calls_saved: 0 }),
    {
        InlineCacheStats { cache_hits: 0, cache_misses: 0, functions_inlined: 0, calls_saved: 0 }
    }
}

/// The key of a function in the cache: its name, a colon and its number of
/// arguments.
pub open spec fn cache_key(name: Seq<char>, arg_count: usize) -> Seq<char> {
    name + ":"@ + crate::text::decimal(arg_count as nat)
}

/// مخبأ الدمج
#[derive(Debug)]
pub struct InlineCache<T> {
    entries: AssocList<InlineCacheEntry<T>>,
    inline_threshold: u32,
    max_inline_size: usize,
    stats: InlineCacheStats,
}

fn key_of(function_name: &str, arg_count: usize) -> (r: String)
    ensures
        r@ == cache_key(function_name@, arg_count),
{
    let mut key = String::from_str(function_name);
    key.append(":");
    key.append(usize_text(arg_count).as_str());
    key
}

impl<T> InlineCache<T> {
    /// The cached entries by key.
    pub closed spec fn spec_entries(&self) -> Map<Seq<char>, InlineCacheEntry<T>> {
        self.entries.map()
    }

    /// The counters.
    pub closed spec fn spec_stats(&self) -> InlineCacheStats {
        self.stats
    }

    /// The largest body that is inlined.
    pub closed spec fn spec_max_inline_size(&self) -> usize {
        self.max_inline_size
    }

    pub fn new() -> (r: Self)
        ensures
            r.spec_entries() == Map::<Seq<char>, InlineCacheEntry<T>>::empty(),
            r.spec_stats() == (InlineCacheStats { cache_hits: 0, cache_misses: 0, functions_inlined: 0, calls_saved: 0 }),
            r.spec_max_inline_size() == 50,
    {
        InlineCache {
            entries: AssocList::new(),
            inline_threshold: 100,
            max_inline_size: 50,
            stats: InlineCacheStats::default(),
        }
    }

    /// البحث في المخبأ: a hit counts on the entry and in the counters.
    pub fn lookup(&mut self, function_name: &str, arg_count: usize) -> (r: Option<&InlineCacheEntry<T>>)
        requires
            old(self).spec_stats().cache_hits < u64::MAX,
            old(self).spec_stats().cache_misses < u64::MAX,
            old(self).spec_entries().contains_key(cache_key(function_name@, arg_count))
                ==> old(self).spec_entries()[cache_key(function_name@, arg_count)].hit_count < u64::MAX,
        ensures
            final(self).spec_max_inline_size() == old(self).spec_max_inline_size(),
            ({
                let key = cache_key(function_name@, arg_count);
                let before = old(self).spec_entries();
                if before.contains_key(key) {
                    let e = before[key];
                    let counted = InlineCacheEntry { hit_count: (e.hit_count + 1) as u64, ..e };
                    &&& r == Some(&counted)
                    &&& final(self).spec_entries() == before.insert(key, counted)
                    &&& final(self).spec_stats() == (InlineCacheStats {
                        cache_hits: (old(self).spec_stats().cache_hits + 1) as u64,
                        ..old(self).spec_stats()
                    })
                } else {
                    &&& r is None
                    &&& final(self).spec_entries() == before
                    &&& final(self).spec_stats() == (InlineCacheStats {
                        cache_misses: (old(self).spec_stats().cache_misses + 1) as u64,
                        ..old(self).spec_stats()
                    })
                }
            }),
    {
        let key = key_of(function_name, arg_count);
        match self.entries.remove(key.as_str()) {
            Some(entry) => {
                let mut entry = entry;
                entry.hit_count = entry.hit_count + 1;
                let k2 = key.clone();
                let _ = self.entries.insert(key, entry);
                self.stats.cache_hits = self.stats.cache_hits + 1;
                proof {
                    assert(self.entries.map() =~= old(self).entries.map().insert(k2@, self.entries.map()[k2@]));
                }
                self.entries.get(k2.as_str())
            },
            None => {
                self.stats.cache_misses = self.stats.cache_misses + 1;
                assert(self.entries.map() =~= old(self).entries.map());
                None
            },
        }
    }

    /// إضافة مدخل جديد: bodies up to the size limit are kept for
    /// inlining, longer ones are recorded without code.
    pub fn insert(&mut self, function_name: &str, arg_count: usize, code: Vec<T>)
        requires
            code@.len() <= old(self).spec_max_inline_size() ==> old(self).spec_stats().functions_inlined < u64::MAX,
        ensures
            final(self).spec_max_inline_size() == old(self).spec_max_inline_size(),
            ({
                let can_inline = code@.len() <= old(self).spec_max_inline_size();
                let key = cache_key(function_name@, arg_count);
                &&& final(self).spec_entries().contains_key(key)
                &&& final(self).spec_entries() == old(self).spec_entries().insert(key, final(self).spec_entries()[key])
                &&& final(self).spec_entries()[key].function_name@ == function_name@
                &&& final(self).spec_entries()[key].arg_count == arg_count
                &&& final(self).spec_entries()[key].inlined_code@ == (if can_inline { code@ } else { Seq::empty() })
                &&& final(self).spec_entries()[key].hit_count == 1
                &&& final(self).spec_entries()[key].is_inlined == can_inline
                &&& final(self).spec_stats() == (if can_inline {
                    InlineCacheStats {
                        functions_inlined: (old(self).spec_stats().functions_inlined + 1) as u64,
                        ..old(self).spec_stats()
                    }
                } else {
                    old(self).spec_stats()
                })
            }),
    {
        let key = key_of(function_name, arg_count);
        let can_inline = code.len() <= self.max_inline_size;
        let entry = InlineCacheEntry {
            function_name: String::from_str(function_name),
            arg_count,
            inlined_code: if can_inline { code } else { Vec::new() },
            hit_count: 1,
            is_inlined: can_inline,
        };
        if can_inline {
            self.stats.functions_inlined = self.stats.functions_inlined + 1;
        }
        let _ = self.entries.insert(key, entry);
    }

    /// الحصول على الكود المدمج
    pub fn get_inlined_code(&self, function_name: &str, arg_count: usize) -> (r: Option<&[T]>)
        ensures
            match r {
                Some(code) => self.spec_entries().contains_key(cache_key(function_name@, arg_count))
                    && code@ == self.spec_entries()[cache_key(function_name@, arg_count)].inlined_code@,
                None => !self.spec_entries().contains_key(cache_key(function_name@, arg_count)),
            },
    {
        let key = key_of(function_name, arg_count);
        match self.entries.get(key.as_str()) {
            Some(e) => Some(e.inlined_code.as_slice()),
            None => None,
        }
    }

    pub fn stats(&self) -> (r: &InlineCacheStats)
        ensures
            *r == self.spec_stats(),
    {
        &self.stats
    }
}

impl<T> Default for InlineCache<T> {
    fn default() -> (r: Self)
        ensures
            r.spec_entries() == Map::<Seq<char>, InlineCacheEntry<T>>::empty(),
    {
        Self::new()
    }
}

// ═══════════════════════════════════════════════════════════════════════════
// Profiles
// ═══════════════════════════════════════════════════════════════════════════

/// بيانات الملف الشخصي
#[derive(Debug)]
pub struct ProfileData {
    /// تردد التنفيذ لكل تعليمة
    pub instruction_frequencies: HashMap<usize, u64>,
    /// تردد الفروع (taken, not taken)
    pub branch_frequencies: HashMap<usize, (u64, u64)>,
    /// أوقات التنفيذ, in microseconds
    pub execution_times: HashMap<usize, u64>,
    /// أكثر الدوال استدعاءً
    pub hot_functions: AssocList<u64>,
}

impl Default for ProfileData {
    fn default() -> (r: Self)
        ensures
            r.instruction_frequencies@ == Map::<usize, u64>::empty(),
            r.branch_frequencies@ == Map::<usize, (u64, u64)>::empty(),
            r.execution_times@ == Map::<usize, u64>::empty(),
            r.hot_functions.map() == Map::<Seq<char>, u64>::empty(),
    {
        ProfileData {
            instruction_frequencies: HashMap::new(),
            branch_frequencies: HashMap::new(),
            execution_times: HashMap::new(),
            hot_functions: AssocList::new(),
        }
    }
}


/// The count a map gives an instruction, zero when it has none.
pub open spec fn count_of(m: Map<usize, u64>, ip: usize) -> int {
    if m.contains_key(ip) {
        m[ip] as int
    } else {
        0
    }
}

/// The branch counts (taken, not taken) a map gives an instruction, zero
/// when it has none.
pub open spec fn branch_counts(m: Map<usize, (u64, u64)>, ip: usize) -> (u64, u64) {
    if m.contains_key(ip) {
        m[ip]
    } else {
        (0, 0)
    }
}

/// Pairs sorted by their counts, largest first.
pub open spec fn sorted_by_count(s: Seq<(usize, u64)>) -> bool {
    forall|a: int, b: int| 0 <= a < b < s.len() ==> s[a].1 >= s[b].1
}

/// Sorts pairs by their counts, largest first, keeping the same pairs.
fn sort_by_count(v: &mut Vec<(usize, u64)>)
    ensures
        final(v)@.to_multiset() == old(v)@.to_multiset(),
        final(v)@.len() == old(v)@.len(),
        sorted_by_count(final(v)@),
{
    let n = v.len();
    let mut i: usize = 1;
    if n == 0 {
        return;
    }
    while i < n
        invariant
            1 <= i <= n,
            n == v@.len(),
            v@.to_multiset() == old(v)@.to_multiset(),
            forall|a: int, b: int| 0 <= a < b < i ==> v@[a].1 >= v@[b].1,
        decreases n - i,
    {
        let mut j: usize = i;
        while j > 0 && v[j - 1].1 < v[j].1
            invariant
                0 <= j <= i < n,
                n == v@.len(),
                v@.to_multiset() == old(v)@.to_multiset(),
                forall|a: int, b: int| 0 <= a < b < j ==> v@[a].1 >= v@[b].1,
                forall|a: int, b: int| j < a < b <= i ==> v@[a].1 >= v@[b].1,
                forall|a: int, b: int| 0 <= a < j && j < b <= i ==> v@[a].1 >= v@[b].1,
                forall|b: int| j < b <= i ==> v@[j as int].1 > v@[b].1,
            decreases j,
        {
            let x = v[j - 1];
            let y = v[j];
            let ghost before = v@;
            v.set(j - 1, y);
            v.set(j, x);
            proof {
                broadcast use vstd::multiset::group_multiset_axioms;
                let mid = before.update(j - 1, y);
                assert(v@ == mid.update(j as int, x));
                vstd::seq_lib::to_multiset_update(before, j - 1, y);
                assert(mid.to_multiset() == before.to_multiset().insert(y).remove(x));
                assert(mid[j as int] == y);
                vstd::seq_lib::to_multiset_update(mid, j as int, x);
                assert(v@.to_multiset() == mid.to_multiset().insert(x).remove(y));
                assert(before.to_multiset().count(x) > 0) by {
                    vstd::seq_lib::to_multiset_contains(before, x);
                    assert(before[j - 1] == x);
                }
                assert(v@.to_multiset() =~= before.to_multiset());
            }
            j = j - 1;
        }
        i = i + 1;
    }
}

/// إحصائيات التحسين الموجه بالملف الشخصي; the estimated speedup is kept
/// in tenths.
#[derive(Debug, Clone, Copy, PartialEq, Eq, Structural)]
pub struct PGOStats {
    pub hot_spots_identified: u64,
    pub optimizations_applied: u64,
    pub branches_predicted: u64,
    pub estimated_speedup_tenths: u64,
}

impl Default for PGOStats {
    fn default() -> (r: Self)
        ensures
            r == (PGOStats {
                hot_spots_identified: 0,
                optimizations_applied: 0,
                branches_predicted: 0,
                estimated_speedup_tenths: 0,
            }),
    {
        PGOStats { hot_spots_identified: 0, optimizations_applied: 0, branches_predicted: 0, estimated_speedup_tenths: 0 }
    }
}

/// محلل الملف الشخصي
pub struct ProfileGuidedOptimizer {
    profile: ProfileData,
    hot_threshold: u64,
    stats: PGOStats,
    /// The instructions recorded, in the order first seen.
    executed: Vec<usize>,
    /// The branches recorded, in the order first seen.
    branched: Vec<usize>,
}

impl ProfileGuidedOptimizer {
    #[verifier::type_invariant]
    spec fn orders_match(self) -> bool {
        &&& self.executed@.no_duplicates()
        &&& forall|ip: usize| #[trigger] self.executed@.contains(ip) <==> self.profile.instruction_frequencies@.contains_key(ip)
        &&& self.branched@.no_duplicates()
        &&& forall|ip: usize| #[trigger] self.branched@.contains(ip) <==> self.profile.branch_frequencies@.contains_key(ip)
    }

    /// How often each instruction ran.
    pub closed spec fn spec_frequencies(&self) -> Map<usize, u64> {
        self.profile.instruction_frequencies@
    }

    /// The time spent in each instruction, in microseconds.
    pub closed spec fn spec_times(&self) -> Map<usize, u64> {
        self.profile.execution_times@
    }

    /// How often each branch was taken and not taken.
    pub closed spec fn spec_branches(&self) -> Map<usize, (u64, u64)> {
        self.profile.branch_frequencies@
    }

    /// The calls counted per function.
    pub closed spec fn spec_hot_functions(&self) -> Map<Seq<char>, u64> {
        self.profile.hot_functions.map()
    }

    /// The functions with their call counts, in order.
    pub closed spec fn spec_hot_function_entries(&self) -> Seq<(String, u64)> {
        self.profile.hot_functions.spec_entries()
    }

    /// How often an instruction must run to be hot.
    pub closed spec fn spec_threshold(&self) -> u64 {
        self.hot_threshold
    }

    /// The statistics.
    pub closed spec fn spec_stats(&self) -> PGOStats {
        self.stats
    }

    /// A hot instruction: recorded, and run at least as often as the
    /// threshold.
    pub open spec fn is_hot(&self, ip: usize) -> bool {
        self.spec_frequencies().contains_key(ip) && self.spec_frequencies()[ip] >= self.spec_threshold()
    }

    /// Nothing recorded; instructions are hot from 1000 runs on.
    pub fn new() -> (r: Self)
        ensures
            r.spec_frequencies() == Map::<usize, u64>::empty(),
            r.spec_times() == Map::<usize, u64>::empty(),
            r.spec_branches() == Map::<usize, (u64, u64)>::empty(),
            r.spec_hot_functions() == Map::<Seq<char>, u64>::empty(),
            r.spec_threshold() == 1000,
            r.spec_stats() == (PGOStats {
                hot_spots_identified: 0,
                optimizations_applied: 0,
                branches_predicted: 0,
                estimated_speedup_tenths: 0,
            }),
    {
        ProfileGuidedOptimizer {
            profile: ProfileData::default(),
            hot_threshold: 1000,
            stats: PGOStats::default(),
            executed: Vec::new(),
            branched: Vec::new(),
        }
    }

    /// تسجيل تنفيذ تعليمة: one more run of the instruction, taking
    /// `time_us` microseconds.
    pub fn record_execution(&mut self, ip: usize, time_us: u64)
        requires
            count_of(old(self).spec_frequencies(), ip) < u64::MAX,
            count_of(old(self).spec_times(), ip) + time_us <= u64::MAX,
        ensures
            final(self).spec_frequencies() == old(self).spec_frequencies().insert(
                ip,
                (count_of(old(self).spec_frequencies(), ip) + 1) as u64,
            ),
            final(self).spec_times() == old(self).spec_times().insert(
                ip,
                (count_of(old(self).spec_times(), ip) + time_us) as u64,
            ),
            final(self).spec_branches() == old(self).spec_branches(),
            final(self).spec_hot_functions() == old(self).spec_hot_functions(),
            final(self).spec_threshold() == old(self).spec_threshold(),
            final(self).spec_stats() == old(self).spec_stats(),
    {
        proof {
            use_type_invariant(&*self);
        }
        let freq = match self.profile.instruction_frequencies.get(&ip) {
            Some(f) => *f,
            None => 0,
        };
        let time = match self.profile.execution_times.get(&ip) {
            Some(t) => *t,
            None => 0,
        };
        let known = self.profile.instruction_frequencies.contains_key(&ip);
        let mut me = Self::new();
        std::mem::swap(&mut me, self);
        proof {
            use_type_invariant(&me);
        }
        let ProfileGuidedOptimizer { mut profile, hot_threshold, stats, mut executed, branched } = me;
        let ghost old_freq = profile.instruction_frequencies@;
        let ghost old_executed = executed@;
        assert(forall|x: usize| #[trigger] old_executed.contains(x) <==> old_freq.contains_key(x));
        profile.instruction_frequencies.insert(ip, freq + 1);
        profile.execution_times.insert(ip, time + time_us);
        if !known {
            executed.push(ip);
            proof {
                assert forall|x: usize| #[trigger] executed@.contains(x) <==> profile.instruction_frequencies@.contains_key(x) by {
                    if x != ip && executed@.contains(x) {
                        let k = choose|k: int| 0 <= k < executed@.len() && executed@[k] == x;
                        assert(old_executed[k] == x);
                        assert(old_executed.contains(x));
                    }
                    if x != ip && profile.instruction_frequencies@.contains_key(x) {
                        assert(old_freq.contains_key(x));
                        assert(old_executed.contains(x));
                        let k = choose|k: int| 0 <= k < old_executed.len() && old_executed[k] == x;
                        assert(executed@[k] == x);
                    }
                    if x == ip {
                        assert(executed@[executed@.len() - 1] == ip);
                    }
                }
                assert(executed@.no_duplicates()) by {
                    assert(!old_executed.contains(ip));
                    assert forall|a: int, b: int| 0 <= a < b < executed@.len() implies executed@[a] != executed@[b] by {
                        if b == executed@.len() - 1 {
                            assert(old_executed[a] == executed@[a]);
                        } else {
                            assert(old_executed[a] == executed@[a] && old_executed[b] == executed@[b]);
                        }
                    }
                }
            }
        } else {
            assert(profile.instruction_frequencies@.dom() =~= old_freq.dom());
        }
        *self = ProfileGuidedOptimizer { profile, hot_threshold, stats, executed, branched };
    }

    /// تسجيل فرع: one more time the branch was taken, or not taken.
    pub fn record_branch(&mut self, ip: usize, taken: bool)
        requires
            branch_counts(old(self).spec_branches(), ip).0 < u64::MAX,
            branch_counts(old(self).spec_branches(), ip).1 < u64::MAX,
        ensures
            final(self).spec_branches() == old(self).spec_branches().insert(
                ip,
                if taken {
                    ((branch_counts(old(self).spec_branches(), ip).0 + 1) as u64, branch_counts(old(self).spec_branches(), ip).1)
                } else {
                    (branch_counts(old(self).spec_branches(), ip).0, (branch_counts(old(self).spec_branches(), ip).1 + 1) as u64)
                },
            ),
            final(self).spec_frequencies() == old(self).spec_frequencies(),
            final(self).spec_times() == old(self).spec_times(),
            final(self).spec_hot_functions() == old(self).spec_hot_functions(),
            final(self).spec_threshold() == old(self).spec_threshold(),
            final(self).spec_stats() == old(self).spec_stats(),
    {
        proof {
            use_type_invariant(&*self);
        }
        let (t, n) = match self.profile.branch_frequencies.get(&ip) {
            Some(c) => *c,
            None => (0, 0),
        };
        let known = self.profile.branch_frequencies.contains_key(&ip);
        let mut me = Self::new();
        std::mem::swap(&mut me, self);
        proof {
            use_type_invariant(&me);
        }
        let ProfileGuidedOptimizer { mut profile, hot_threshold, stats, executed, mut branched } = me;
        let ghost old_branches = profile.branch_frequencies@;
        let ghost old_branched = branched@;
        assert(forall|x: usize| #[trigger] old_branched.contains(x) <==> old_branches.contains_key(x));
        let counts = if taken {
            (t + 1, n)
        } else {
            (t, n + 1)
        };
        profile.branch_frequencies.insert(ip, counts);
        if !known {
            branched.push(ip);
            proof {
                assert forall|x: usize| #[trigger] branched@.contains(x) <==> profile.branch_frequencies@.contains_key(x) by {
                    if x != ip && branched@.contains(x) {
                        let k = choose|k: int| 0 <= k < branched@.len() && branched@[k] == x;
                        assert(old_branched[k] == x);
                        assert(old_branched.contains(x));
                    }
                    if x != ip && profile.branch_frequencies@.contains_key(x) {
                        assert(old_branched.contains(x));
                        let k = choose|k: int| 0 <= k < old_branched.len() && old_branched[k] == x;
                        assert(branched@[k] == x);
                    }
                    if x == ip {
                        assert(branched@[branched@.len() - 1] == ip);
                    }
                }
                assert(branched@.no_duplicates()) by {
                    assert(!old_branched.contains(ip));
                    assert forall|a: int, b: int| 0 <= a < b < branched@.len() implies branched@[a] != branched@[b] by {
                        if b == branched@.len() - 1 {
                            assert(old_branched[a] == branched@[a]);
                        } else {
                            assert(old_branched[a] == branched@[a] && old_branched[b] == branched@[b]);
                        }
                    }
                }
            }
        } else {
            assert(profile.branch_frequencies@.dom() =~= old_branches.dom());
        }
        *self = ProfileGuidedOptimizer { profile, hot_threshold, stats, executed, branched };
    }

    /// The hot instructions with their counts, in the order first seen.
    #[verifier::rlimit(40)]
    fn hot_pairs(&self) -> (r: Vec<(usize, u64)>)
        ensures
            r@.no_duplicates(),
            forall|k: int| 0 <= k < r@.len() ==> self.is_hot(#[trigger] r@[k].0) && r@[k].1 == self.spec_frequencies()[r@[k].0],
            forall|ip: usize| self.is_hot(ip) ==> exists|k: int| 0 <= k < r@.len() && #[trigger] r@[k].0 == ip,
            forall|a: int, b: int| 0 <= a < b < r@.len() ==> r@[a].0 != r@[b].0,
            r@.len() <= self.spec_frequencies().dom().len(),
    {
        proof {
            use_type_invariant(self);
        }
        let mut out: Vec<(usize, u64)> = Vec::new();
        let mut i: usize = 0;
        while i < self.executed.len()
            invariant
                i <= self.executed@.len(),
                self.executed@.no_duplicates(),
                forall|x: usize| #[trigger] self.executed@.contains(x) <==> self.profile.instruction_frequencies@.contains_key(x),
                forall|k: int| 0 <= k < out@.len() ==> self.is_hot(#[trigger] out@[k].0) && out@[k].1 == self.spec_frequencies()[out@[k].0],
                forall|k: int| #![trigger out@[k]] 0 <= k < out@.len() ==> exists|m: int| 0 <= m < i && #[trigger] self.executed@[m] == out@[k].0,
                forall|m: int| 0 <= m < i && self.is_hot(#[trigger] self.executed@[m]) ==> exists|k: int| 0 <= k < out@.len() && out@[k].0 == self.executed@[m],
                forall|a: int, b: int| 0 <= a < b < out@.len() ==> out@[a].0 != out@[b].0,
                out@.len() <= i,
            decreases self.executed@.len() - i,
        {
            let ip = self.executed[i];
            assert(self.executed@.contains(ip));
            let freq = match self.profile.instruction_frequencies.get(&ip) {
                Some(f) => *f,
                None => 0,
            };
            if freq >= self.hot_threshold {
                proof {
                    assert forall|k: int| 0 <= k < out@.len() implies out@[k].0 != ip by {
                        let m = choose|m: int| 0 <= m < i && self.executed@[m] == out@[k].0;
                        assert(self.executed@[m] != self.executed@[i as int]);
                    }
                }
                let ghost old_out = out@;
                out.push((ip, freq));
                proof {
                    assert forall|k: int| #![trigger out@[k]] 0 <= k < out@.len() implies exists|m: int| 0 <= m < i + 1 && #[trigger] self.executed@[m] == out@[k].0 by {
                        if k == out@.len() - 1 {
                            assert(self.executed@[i as int] == out@[k].0);
                        } else {
                            assert(old_out[k] == out@[k]);
                            let m = choose|m: int| 0 <= m < i && self.executed@[m] == old_out[k].0;
                            assert(self.executed@[m] == out@[k].0);
                        }
                    }
                    assert forall|m: int| 0 <= m < i + 1 && self.is_hot(#[trigger] self.executed@[m]) implies exists|k: int| 0 <= k < out@.len() && out@[k].0 == self.executed@[m] by {
                        if m == i {
                            assert(out@[out@.len() - 1].0 == self.executed@[m]);
                        } else {
                            let k = choose|k: int| 0 <= k < old_out.len() && old_out[k].0 == self.executed@[m];
                            assert(out@[k] == old_out[k]);
                            assert(out@[k].0 == self.executed@[m]);
                        }
                    }
                }
            } else {
                proof {
                    assert forall|k: int| #![trigger out@[k]] 0 <= k < out@.len() implies exists|m: int| 0 <= m < i + 1 && #[trigger] self.executed@[m] == out@[k].0 by {
                        let m = choose|m: int| 0 <= m < i && self.executed@[m] == out@[k].0;
                        assert(self.executed@[m] == out@[k].0);
                    }
                }
            }
            i = i + 1;
        }
        proof {
            assert forall|ip: usize| self.is_hot(ip) implies exists|k: int| 0 <= k < out@.len() && #[trigger] out@[k].0 == ip by {
                assert(self.executed@.contains(ip));
                let m = choose|m: int| 0 <= m < self.executed@.len() && self.executed@[m] == ip;
                assert(self.is_hot(self.executed@[m]));
            }
            assert(out@.no_duplicates()) by {
                assert forall|a: int, b: int| 0 <= a < out@.len() && 0 <= b < out@.len() && a != b implies out@[a] != out@[b] by {
                    if a < b {
                        assert(out@[a].0 != out@[b].0);
                    } else {
                        assert(out@[b].0 != out@[a].0);
                    }
                }
            }
            assert(self.executed@.to_set() =~= self.spec_frequencies().dom());
            self.executed@.unique_seq_to_set();
        }
        out
    }

    /// تحديد النقاط الساخنة: every hot instruction once, the most frequent
    /// first; each one found counts.
    pub fn identify_hot_spots(&mut self) -> (r: Vec<usize>)
        requires
            old(self).spec_stats().hot_spots_identified + old(self).spec_frequencies().dom().len() <= u64::MAX,
        ensures
            r@.no_duplicates(),
            r@.len() <= old(self).spec_frequencies().dom().len(),
            forall|ip: usize| #[trigger] r@.contains(ip) <==> old(self).is_hot(ip),
            forall|a: int, b: int|
                0 <= a < b < r@.len() ==> old(self).spec_frequencies()[r@[a]] >= old(self).spec_frequencies()[r@[b]],
            final(self).spec_stats() == (PGOStats {
                hot_spots_identified: (old(self).spec_stats().hot_spots_identified + r@.len()) as u64,
                ..old(self).spec_stats()
            }),
            final(self).spec_frequencies() == old(self).spec_frequencies(),
            final(self).spec_times() == old(self).spec_times(),
            final(self).spec_branches() == old(self).spec_branches(),
            final(self).spec_hot_functions() == old(self).spec_hot_functions(),
            final(self).spec_threshold() == old(self).spec_threshold(),
    {
        proof {
            use_type_invariant(&*self);
        }
        let mut pairs = self.hot_pairs();
        let ghost found = pairs@;
        sort_by_count(&mut pairs);
        proof {
            broadcast use vstd::seq_lib::to_multiset_contains;
            found.lemma_multiset_has_no_duplicates();
            assert forall|x: (usize, u64)| pairs@.to_multiset().contains(x) implies pairs@.to_multiset().count(x) == 1 by {
                assert(found.to_multiset().contains(x));
            }
            pairs@.lemma_multiset_has_no_duplicates_conv();
            assert forall|k: int| 0 <= k < pairs@.len() implies found.contains(#[trigger] pairs@[k]) by {
                assert(pairs@.to_multiset().count(pairs@[k]) > 0);
            }
        }
        let mut out: Vec<usize> = Vec::new();
        let mut i: usize = 0;
        while i < pairs.len()
            invariant
                i <= pairs@.len(),
                out@.len() == i,
                forall|k: int| 0 <= k < i ==> #[trigger] out@[k] == pairs@[k].0,
            decreases pairs@.len() - i,
        {
            out.push(pairs[i].0);
            i = i + 1;
        }
        proof {
            broadcast use vstd::seq_lib::to_multiset_contains;
            assert forall|k: int| 0 <= k < pairs@.len() implies self.is_hot(#[trigger] pairs@[k].0) && pairs@[k].1
                == self.spec_frequencies()[pairs@[k].0] by {
                assert(found.contains(pairs@[k]));
                let m = choose|m: int| 0 <= m < found.len() && found[m] == pairs@[k];
                assert(found[m].1 == self.spec_frequencies()[found[m].0]);
            }
            assert forall|a: int, b: int| 0 <= a < out@.len() && 0 <= b < out@.len() && a != b implies out@[a] != out@[b] by {
                if out@[a] == out@[b] {
                    assert(pairs@[a].1 == self.spec_frequencies()[pairs@[a].0]);
                    assert(pairs@[b].1 == self.spec_frequencies()[pairs@[b].0]);
                    assert(pairs@[a] == pairs@[b]);
                }
            }
            assert forall|ip: usize| #[trigger] out@.contains(ip) <==> self.is_hot(ip) by {
                if out@.contains(ip) {
                    let k = choose|k: int| 0 <= k < out@.len() && out@[k] == ip;
                    assert(self.is_hot(pairs@[k].0));
                }
                if self.is_hot(ip) {
                    let k = choose|k: int| 0 <= k < found.len() && #[trigger] found[k].0 == ip;
                    assert(found.to_multiset().count(found[k]) > 0);
                    assert(pairs@.contains(found[k]));
                    let j = choose|j: int| 0 <= j < pairs@.len() && pairs@[j] == found[k];
                    assert(out@[j] == ip);
                }
            }
            assert forall|a: int, b: int| 0 <= a < b < out@.len() implies self.spec_frequencies()[out@[a]]
                >= self.spec_frequencies()[out@[b]] by {
                assert(pairs@[a].1 >= pairs@[b].1);
            }
        }
        self.stats.hot_spots_identified = self.stats.hot_spots_identified + i as u64;
        out
    }

    /// توقع الفرع: taken when it was taken more often than not, or when it
    /// was never recorded; a recorded branch counts as predicted.
    pub fn predict_branch(&mut self, ip: usize) -> (r: bool)
        requires
            old(self).spec_stats().branches_predicted < u64::MAX,
        ensures
            r == (!old(self).spec_branches().contains_key(ip) || old(self).spec_branches()[ip].0 > old(self).spec_branches()[ip].1),
            final(self).spec_stats() == if old(self).spec_branches().contains_key(ip) {
                PGOStats { branches_predicted: (old(self).spec_stats().branches_predicted + 1) as u64, ..old(self).spec_stats() }
            } else {
                old(self).spec_stats()
            },
            final(self).spec_frequencies() == old(self).spec_frequencies(),
            final(self).spec_branches() == old(self).spec_branches(),
            final(self).spec_hot_functions() == old(self).spec_hot_functions(),
            final(self).spec_threshold() == old(self).spec_threshold(),
    {
        proof {
            use_type_invariant(&*self);
        }
        match self.profile.branch_frequencies.get(&ip) {
            Some(c) => {
                let (taken, not_taken) = *c;
                self.stats.branches_predicted = self.stats.branches_predicted + 1;
                taken > not_taken
            },
            None => true,
        }
    }

    /// The functions called at least as often as the threshold, in order.
    fn hot_function_list(&self) -> (r: Vec<String>)
        ensures
            views(r@) == hot_function_names(self.spec_hot_function_entries(), self.spec_threshold()),
    {
        let entries = self.profile.hot_functions.entries();
        let mut out: Vec<String> = Vec::new();
        let mut i: usize = 0;
        while i < entries.len()
            invariant
                i <= entries@.len(),
                entries@ == self.spec_hot_function_entries(),
                views(out@) == hot_function_names(entries@.take(i as int), self.hot_threshold),
            decreases entries@.len() - i,
        {
            let ghost before = out@;
            assert(entries@.take(i + 1).drop_last() == entries@.take(i as int));
            if entries[i].1 >= self.hot_threshold {
                out.push(entries[i].0.clone());
                assert(views(out@) =~= views(before).push(entries@[i as int].0@));
            }
            i = i + 1;
        }
        assert(entries@.take(entries@.len() as int) =~= entries@);
        out
    }

    /// اقتراح تحسينات: inlining for each function called at least as often
    /// as the threshold, in order (each counts as applied); reordering for
    /// every recorded branch; then the hot spots, most frequent first. The
    /// estimated speedup becomes one plus a tenth per suggestion.
    pub fn suggest_optimizations(&mut self) -> (r: Vec<PGOOptimization>)
        requires
            old(self).spec_stats().optimizations_applied + old(self).spec_hot_function_entries().len() <= u64::MAX,
            old(self).spec_stats().hot_spots_identified + old(self).spec_frequencies().dom().len() <= u64::MAX,
            10 + old(self).spec_hot_function_entries().len() + old(self).spec_branches().dom().len()
                + old(self).spec_frequencies().dom().len() <= u64::MAX,
        ensures
            ({
                let names = hot_function_names(old(self).spec_hot_function_entries(), old(self).spec_threshold());
                let a = names.len();
                let b = old(self).spec_branches().dom().len();
                &&& r@.len() >= a + b
                &&& forall|k: int| 0 <= k < a ==> (#[trigger] r@[k] matches PGOOptimization::InlineFunction(n) && n@ == names[k])
                &&& forall|k: int| a <= k < a + b ==> (#[trigger] r@[k] matches PGOOptimization::ReorderBranch(ip)
                    && old(self).spec_branches().contains_key(ip))
                &&& forall|ip: usize| #[trigger] old(self).spec_branches().contains_key(ip) ==> exists|k: int|
                    a <= k < a + b && r@[k] == PGOOptimization::ReorderBranch(ip)
                &&& forall|k: int| a + b <= k < r@.len() ==> (#[trigger] r@[k] matches PGOOptimization::OptimizeHotPath(ip)
                    && old(self).is_hot(ip))
                &&& forall|ip: usize| #[trigger] old(self).is_hot(ip) ==> exists|k: int|
                    a + b <= k < r@.len() && r@[k] == PGOOptimization::OptimizeHotPath(ip)
                &&& forall|k: int, l: int|
                    a + b <= k < l < r@.len() ==> (#[trigger] r@[k] matches PGOOptimization::OptimizeHotPath(x)
                        && #[trigger] r@[l] matches PGOOptimization::OptimizeHotPath(y)
                        && old(self).spec_frequencies()[x] >= old(self).spec_frequencies()[y])
                &&& final(self).spec_stats() == (PGOStats {
                    optimizations_applied: (old(self).spec_stats().optimizations_applied + a) as u64,
                    hot_spots_identified: (old(self).spec_stats().hot_spots_identified + (r@.len() - a - b)) as u64,
                    estimated_speedup_tenths: (10 + r@.len()) as u64,
                    ..old(self).spec_stats()
                })
            }),
            final(self).spec_frequencies() == old(self).spec_frequencies(),
            final(self).spec_branches() == old(self).spec_branches(),
            final(self).spec_hot_functions() == old(self).spec_hot_functions(),
            final(self).spec_threshold() == old(self).spec_threshold(),
    {
        proof {
            use_type_invariant(&*self);
            lemma_hot_names_bounded(self.spec_hot_function_entries(), self.hot_threshold);
        }
        let ghost names = hot_function_names(self.spec_hot_function_entries(), self.hot_threshold);
        let inline = self.hot_function_list();
        let mut out: Vec<PGOOptimization> = Vec::new();
        let mut i: usize = 0;
        while i < inline.len()
            invariant
                i <= inline@.len(),
                views(inline@) == names,
                out@.len() == i,
                forall|k: int| 0 <= k < i ==> (#[trigger] out@[k] matches PGOOptimization::InlineFunction(n) && n@ == names[k]),
            decreases inline@.len() - i,
        {
            assert(views(inline@)[i as int] == inline@[i as int]@);
            out.push(PGOOptimization::InlineFunction(inline[i].clone()));
            i = i + 1;
        }
        self.stats.optimizations_applied = self.stats.optimizations_applied + i as u64;
        let a = i;
        let mut j: usize = 0;
        proof {
            assert(self.branched@.to_set() =~= self.spec_branches().dom());
            self.branched@.unique_seq_to_set();
        }
        while j < self.branched.len()
            invariant
                j <= self.branched@.len(),
                a == names.len(),
                self.branched@.no_duplicates(),
                forall|x: usize| #[trigger] self.branched@.contains(x) <==> self.profile.branch_frequencies@.contains_key(x),
                out@.len() == a + j,
                forall|k: int| 0 <= k < a ==> (#[trigger] out@[k] matches PGOOptimization::InlineFunction(n) && n@ == names[k]),
                forall|k: int| 0 <= k < j ==> #[trigger] out@[a + k] == PGOOptimization::ReorderBranch(self.branched@[k]),
            decreases self.branched@.len() - j,
        {
            out.push(PGOOptimization::ReorderBranch(self.branched[j]));
            j = j + 1;
        }
        let ghost bseq = self.branched@;
        assert(forall|x: usize| #[trigger] bseq.contains(x) <==> old(self).spec_branches().contains_key(x));
        assert(bseq.len() == old(self).spec_branches().dom().len());
        let hot = self.identify_hot_spots();
        proof {
            use_type_invariant(&*self);
        }
        let ghost b = j as int;
        let mut h: usize = 0;
        while h < hot.len()
            invariant
                h <= hot@.len(),
                a == names.len(),
                b == bseq.len(),
                out@.len() == a + b + h,
                forall|k: int| 0 <= k < a ==> (#[trigger] out@[k] matches PGOOptimization::InlineFunction(n) && n@ == names[k]),
                forall|k: int| 0 <= k < b ==> #[trigger] out@[a + k] == PGOOptimization::ReorderBranch(bseq[k]),
                forall|k: int| 0 <= k < h ==> #[trigger] out@[a + b + k] == PGOOptimization::OptimizeHotPath(hot@[k]),
            decreases hot@.len() - h,
        {
            out.push(PGOOptimization::OptimizeHotPath(hot[h]));
            h = h + 1;
        }
        proof {
            assert forall|k: int| a <= k < a + b implies (#[trigger] out@[k] matches PGOOptimization::ReorderBranch(ip)
                && old(self).spec_branches().contains_key(ip)) by {
                assert(out@[a + (k - a)] == PGOOptimization::ReorderBranch(bseq[k - a]));
                assert(bseq.contains(bseq[k - a]));
            }
            assert forall|ip: usize| #[trigger] old(self).spec_branches().contains_key(ip) implies exists|k: int|
                a <= k < a + b && out@[k] == PGOOptimization::ReorderBranch(ip) by {
                assert(bseq.contains(ip));
                let m = choose|m: int| 0 <= m < bseq.len() && bseq[m] == ip;
                assert(out@[a + m] == PGOOptimization::ReorderBranch(bseq[m]));
            }
            assert forall|k: int| a + b <= k < out@.len() implies (#[trigger] out@[k] matches PGOOptimization::OptimizeHotPath(ip)
                && old(self).is_hot(ip)) by {
                assert(out@[a + b + (k - a - b)] == PGOOptimization::OptimizeHotPath(hot@[k - a - b]));
                assert(hot@.contains(hot@[k - a - b]));
            }
            assert forall|ip: usize| #[trigger] old(self).is_hot(ip) implies exists|k: int|
                a + b <= k < out@.len() && out@[k] == PGOOptimization::OptimizeHotPath(ip) by {
                assert(hot@.contains(ip));
                let m = choose|m: int| 0 <= m < hot@.len() && hot@[m] == ip;
                assert(out@[a + b + m] == PGOOptimization::OptimizeHotPath(hot@[m]));
            }
            assert forall|k: int, l: int|
                a + b <= k < l < out@.len() implies (#[trigger] out@[k] matches PGOOptimization::OptimizeHotPath(x)
                    && #[trigger] out@[l] matches PGOOptimization::OptimizeHotPath(y)
                    && old(self).spec_frequencies()[x] >= old(self).spec_frequencies()[y]) by {
                assert(out@[a + b + (k - a - b)] == PGOOptimization::OptimizeHotPath(hot@[k - a - b]));
                assert(out@[a + b + (l - a - b)] == PGOOptimization::OptimizeHotPath(hot@[l - a - b]));
            }
        }
        let total = out.len();
        self.stats.estimated_speedup_tenths = 10 + total as u64;
        out
    }

    /// الإحصائيات
    pub fn stats(&self) -> (r: &PGOStats)
        ensures
            *r == self.spec_stats(),
    {
        &self.stats
    }

    /// The profile gathered.
    pub fn profile(&self) -> (r: &ProfileData)
        ensures
            r.instruction_frequencies@ == self.spec_frequencies(),
            r.branch_frequencies@ == self.spec_branches(),
            r.execution_times@ == self.spec_times(),
            r.hot_functions.map() == self.spec_hot_functions(),
    {
        &self.profile
    }
}

impl Default for ProfileGuidedOptimizer {
    fn default() -> (r: Self)
        ensures
            r.spec_frequencies() == Map::<usize, u64>::empty(),
            r.spec_branches() == Map::<usize, (u64, u64)>::empty(),
            r.spec_threshold() == 1000,
    {
        Self::new()
    }
}

/// The names of the functions with entries at least at the threshold, in
/// order.
pub open spec fn hot_function_names(entries: Seq<(String, u64)>, threshold: u64) -> Seq<Seq<char>>
    decreases entries.len(),
{
    if entries.len() == 0 {
        Seq::empty()
    } else {
        let rest = hot_function_names(entries.drop_last(), threshold);
        if entries.last().1 >= threshold {
            rest.push(entries.last().0@)
        } else {
            rest
        }
    }
}

proof fn lemma_hot_names_bounded(entries: Seq<(String, u64)>, threshold: u64)
    ensures
        hot_function_names(entries, threshold).len() <= entries.len(),
    decreases entries.len(),
{
    if entries.len() > 0 {
        lemma_hot_names_bounded(entries.drop_last(), threshold);
    }
}

/// نوع التحسين المقترح
#[derive(Debug, PartialEq, Eq)]
pub enum PGOOptimization {
    InlineFunction(String),
    ReorderBranch(usize),
    OptimizeHotPath(usize),
    UnrollLoop { ip: usize, factor: usize },
}

} // verus!
