//! The tiered compiler's bookkeeping: optimisation tiers and the thresholds
//! that pick them, call frames and the decisions of the execution loop
//! (which instruction runs next, what a finished instruction leads to, calls
//! and returns), compiled code, statistics, and the runtime that tracks
//! asynchronous tasks. Values of the language are a type parameter `V`, and
//! the instructions themselves are performed by the caller.

use std::collections::HashMap;
use vstd::prelude::*;

verus! {

broadcast use vstd::std_specs::hash::group_hash_axioms;

pub const MAX_CALL_DEPTH: usize = 1000;

pub const STACK_SIZE: usize = 4096;

pub const LOCALS_SIZE: usize = 256;

pub const CACHE_SIZE: usize = 512;

/// عتبات Tiered Compilation
pub const TIER1_THRESHOLD: u32 = 50;

pub const TIER2_THRESHOLD: u32 = 200;

pub const TIER3_THRESHOLD: u32 = 1000;

pub const TIER4_THRESHOLD: u32 = 5000;

/// مستوى التحسين
#[derive(Debug, Clone, Copy, PartialEq, Eq, Structural, Hash)]
pub enum TierLevel {
    /// Interpreter
    Tier0,
    /// Baseline JIT
    Tier1,
    /// Optimizing JIT
    Tier2,
    /// SIMD
    Tier3,
    /// Tracing
    Tier4,
}

impl Default for TierLevel {
    fn default() -> (r: Self)
        ensures
            r == TierLevel::Tier0,
    {
        TierLevel::Tier0
    }
}

/// The rank of a tier: higher tiers optimise more.
pub open spec fn tier_rank(t: TierLevel) -> nat {
    match t {
        TierLevel::Tier0 => 0,
        TierLevel::Tier1 => 1,
        TierLevel::Tier2 => 2,
        TierLevel::Tier3 => 3,
        TierLevel::Tier4 => 4,
    }
}

/// The tier that a number of executions earns: the highest one whose
/// threshold it reaches.
pub open spec fn tier_for_count(count: u32) -> TierLevel {
    if count >= TIER4_THRESHOLD {
        TierLevel::Tier4
    } else if count >= TIER3_THRESHOLD {
        TierLevel::Tier3
    } else if count >= TIER2_THRESHOLD {
        TierLevel::Tier2
    } else if count >= TIER1_THRESHOLD {
        TierLevel::Tier1
    } else {
        TierLevel::Tier0
    }
}

/// The lower of two tiers.
pub open spec fn lower_tier(a: TierLevel, b: TierLevel) -> TierLevel {
    if tier_rank(a) <= tier_rank(b) {
        a
    } else {
        b
    }
}

/// نتيجة التنفيذ
#[derive(Debug, Clone)]
pub enum ExecutionResult<V> {
    /// A value and the run goes on.
    Value(V),
    Return(V),
    Break,
    Continue,
    Error(String),
    /// نتيجة async غير مكتملة
    Pending(u64),
}

/// إطار الاستدعاء (Call Frame) - لدعم الدوال العودية
#[derive(Debug, Clone)]
pub struct CallFrame<V> {
    /// مؤشر التعليمة الحالية
    pub ip: usize,
    /// مؤشر بداية الدالة
    pub start_ip: usize,
    /// مؤشر نهاية الدالة
    pub end_ip: usize,
    /// المتغيرات المحلية
    pub locals: Vec<V>,
    /// مؤشر المكدس عند الاستدعاء
    pub stack_base: usize,
    /// اسم الدالة (للتصحيح)
    pub name: String,
    /// هل هي دالة async
    pub is_async: bool,
    /// معرف المهمة async (إن وجد)
    pub task_id: Option<u64>,
}

/// A frame's locals: `LOCALS_SIZE` copies of the null value.
pub open spec fn fresh_locals<V: Clone>(locals: Seq<V>, null: V) -> bool {
    &&& locals.len() == LOCALS_SIZE
    &&& forall|i: int| 0 <= i < LOCALS_SIZE ==> cloned(null, #[trigger] locals[i])
}

impl<V: Clone> CallFrame<V> {
    /// A frame that starts at `start_ip`; every local holds `null`.
    pub fn new(start_ip: usize, end_ip: usize, stack_base: usize, name: &str, null: V) -> (r: Self)
        ensures
            r.ip == start_ip,
            r.start_ip == start_ip,
            r.end_ip == end_ip,
            r.stack_base == stack_base,
            r.name@ == name@,
            !r.is_async,
            r.task_id is None,
            fresh_locals(r.locals@, null),
    {
        CallFrame {
            ip: start_ip,
            start_ip,
            end_ip,
            locals: vec![null; LOCALS_SIZE],
            stack_base,
            name: name.to_string(),
            is_async: false,
            task_id: None,
        }
    }

    /// A frame of an asynchronous function that runs as task `task_id`.
    pub fn new_async(start_ip: usize, end_ip: usize, stack_base: usize, name: &str, task_id: u64, null: V) -> (r: Self)
        ensures
            r.ip == start_ip,
            r.start_ip == start_ip,
            r.end_ip == end_ip,
            r.stack_base == stack_base,
            r.name@ == name@,
            r.is_async,
            r.task_id == Some(task_id),
            fresh_locals(r.locals@, null),
    {
        CallFrame {
            ip: start_ip,
            start_ip,
            end_ip,
            locals: vec![null; LOCALS_SIZE],
            stack_base,
            name: name.to_string(),
            is_async: true,
            task_id: Some(task_id),
        }
    }
}

/// معلومات الدالة
#[derive(Debug, Clone)]
pub struct FunctionInfo {
    pub start_ip: usize,
    pub end_ip: usize,
    pub name: String,
    pub param_count: usize,
    pub is_async: bool,
}

/// مهمة Async
#[derive(Debug)]
pub struct AsyncTask<V> {
    pub id: u64,
    pub status: TaskStatus,
    pub result: Option<V>,
    pub error: Option<String>,
}

#[derive(Debug, Clone, Copy, PartialEq, Eq, Structural)]
pub enum TaskStatus {
    Pending,
    Running,
    Completed,
    Failed,
    Cancelled,
}

/// إحصائيات JIT
#[derive(Debug, Clone)]
pub struct JitStats {
    pub compiled_functions: u64,
    pub total_executions: u64,
    pub tier0_executions: u64,
    pub tier1_executions: u64,
    pub tier2_executions: u64,
    pub tier3_executions: u64,
    pub tier4_executions: u64,
    pub recursive_calls: u64,
    pub max_call_depth: usize,
    pub async_tasks_created: u64,
    pub async_tasks_completed: u64,
    pub total_compile_time_us: u64,
    pub total_exec_time_us: u64,
    pub optimizations_applied: u64,
    pub cache_hits: u64,
    pub cache_misses: u64,
}

/// Every counter at zero.
pub open spec fn zero_stats() -> JitStats {
    JitStats {
        compiled_functions: 0,
        total_executions: 0,
        tier0_executions: 0,
        tier1_executions: 0,
        tier2_executions: 0,
        tier3_executions: 0,
        tier4_executions: 0,
        recursive_calls: 0,
        max_call_depth: 0,
        async_tasks_created: 0,
        async_tasks_completed: 0,
        total_compile_time_us: 0,
        total_exec_time_us: 0,
        optimizations_applied: 0,
        cache_hits: 0,
        cache_misses: 0,
    }
}

impl Default for JitStats {
    fn default() -> (r: Self)
        ensures
            r == zero_stats(),
    {
        JitStats {
            compiled_functions: 0,
            total_executions: 0,
            tier0_executions: 0,
            tier1_executions: 0,
            tier2_executions: 0,
            tier3_executions: 0,
            tier4_executions: 0,
            recursive_calls: 0,
            max_call_depth: 0,
            async_tasks_created: 0,
            async_tasks_completed: 0,
            total_compile_time_us: 0,
            total_exec_time_us: 0,
            optimizations_applied: 0,
            cache_hits: 0,
            cache_misses: 0,
        }
    }
}

/// الكود المترجم
#[derive(Debug, Clone)]
pub struct CompiledFunction<V, Op> {
    pub tier: TierLevel,
    pub instructions: Vec<CompiledInstruction<Op>>,
    pub constants: Vec<V>,
    pub entry_point: usize,
    pub exit_points: Vec<usize>,
}

/// تعليمة مجمعة
#[derive(Debug, Clone)]
pub enum CompiledInstruction<Op> {
    Original(Op),
    PushConst(usize),
    LoadLocalFast { slot: u16 },
    StoreLocalFast { slot: u16 },
    DirectJump { target: usize },
    ConditionalJump { target: usize, if_true: bool },
    BinaryOp(BinaryOpKind),
    Call { func_ip: usize, arg_count: u8 },
    RecursiveCall { func_ip: usize, arg_count: u8 },
    Return,
    Halt,
}

#[derive(Debug, Clone, Copy, PartialEq, Eq, Structural)]
pub enum BinaryOpKind {
    Add,
    Sub,
    Mul,
    Div,
    Mod,
    Pow,
    Eq,
    Ne,
    Lt,
    Le,
    Gt,
    Ge,
}

/// A task after its work has run: completed with its value, or failed with
/// its error; the other fields stay.
pub open spec fn settled<V>(t: AsyncTask<V>, outcome: Result<V, String>) -> AsyncTask<V> {
    match outcome {
        Ok(v) => AsyncTask { status: TaskStatus::Completed, result: Some(v), ..t },
        Err(e) => AsyncTask { status: TaskStatus::Failed, error: Some(e), ..t },
    }
}

/// A task that has not finished yet.
pub open spec fn is_unfinished(s: TaskStatus) -> bool {
    s == TaskStatus::Pending || s == TaskStatus::Running
}

/// What waiting on a task finds at a moment.
#[derive(Debug)]
pub enum TaskPoll<V> {
    /// The task completed, with this result.
    Completed(Option<V>),
    /// The task failed; the message says why.
    Failed(String),
    /// The task was cancelled; the message says so.
    Cancelled(String),
    /// The task is unknown or has not finished.
    Waiting,
}

/// Runtime للـ async/await
pub struct AsyncRuntime<V> {
    tasks: HashMap<u64, AsyncTask<V>>,
    next_task_id: u64,
}

impl<V> AsyncRuntime<V> {
    #[verifier::type_invariant]
    spec fn ids_in_order(self) -> bool {
        &&& self.next_task_id >= 1
        &&& forall|id: u64| #[trigger] self.tasks@.contains_key(id) ==> 1 <= id < self.next_task_id
        &&& forall|id: u64| #[trigger] self.tasks@.contains_key(id) ==> self.tasks@[id].id == id
    }

    /// The tasks by identifier.
    pub closed spec fn spec_tasks(&self) -> Map<u64, AsyncTask<V>> {
        self.tasks@
    }

    /// The identifier that the next task gets.
    pub closed spec fn spec_next_id(&self) -> u64 {
        self.next_task_id
    }

    pub fn new() -> (r: Self)
        ensures
            r.spec_tasks() == Map::<u64, AsyncTask<V>>::empty(),
            r.spec_next_id() == 1,
    {
        AsyncRuntime { tasks: HashMap::new(), next_task_id: 1 }
    }

    /// إنشاء مهمة جديدة: a pending task under a fresh identifier.
    pub fn create_task(&mut self) -> (id: u64)
        requires
            old(self).spec_next_id() < u64::MAX,
        ensures
            id == old(self).spec_next_id(),
            !old(self).spec_tasks().contains_key(id),
            final(self).spec_tasks() == old(self).spec_tasks().insert(
                id,
                AsyncTask { id, status: TaskStatus::Pending, result: None, error: None },
            ),
            final(self).spec_next_id() == id + 1,
    {
        proof {
            use_type_invariant(&*self);
        }
        let id = self.next_task_id;
        let task = AsyncTask { id, status: TaskStatus::Pending, result: None, error: None };
        let mut tasks: HashMap<u64, AsyncTask<V>> = HashMap::new();
        std::mem::swap(&mut tasks, &mut self.tasks);
        tasks.insert(id, task);
        self.next_task_id = id + 1;
        self.tasks = tasks;
        id
    }

    /// تحديث حالة المهمة: a known task takes the status, result and error
    /// given; an unknown identifier changes nothing.
    pub fn update_task(&mut self, id: u64, status: TaskStatus, result: Option<V>, error: Option<String>)
        ensures
            final(self).spec_tasks() == if old(self).spec_tasks().contains_key(id) {
                old(self).spec_tasks().insert(id, AsyncTask { id, status, result, error })
            } else {
                old(self).spec_tasks()
            },
            final(self).spec_next_id() == old(self).spec_next_id(),
    {
        proof {
            use_type_invariant(&*self);
        }
        let mut tasks: HashMap<u64, AsyncTask<V>> = HashMap::new();
        std::mem::swap(&mut tasks, &mut self.tasks);
        if tasks.contains_key(&id) {
            tasks.insert(id, AsyncTask { id, status, result, error });
        }
        self.tasks = tasks;
    }

    /// الحصول على نتيجة المهمة: status, a clone of the result and the error
    /// of a known task.
    pub fn get_result(&self, id: u64) -> (r: Option<(TaskStatus, Option<V>, Option<String>)>)
        where
            V: Clone,
        ensures
            match r {
                None => !self.spec_tasks().contains_key(id),
                Some((status, result, error)) => {
                    let t = self.spec_tasks()[id];
                    &&& self.spec_tasks().contains_key(id)
                    &&& status == t.status
                    &&& error == t.error
                    &&& result is None <==> t.result is None
                    &&& t.result is Some ==> cloned(t.result.unwrap(), result.unwrap())
                },
            },
    {
        match self.tasks.get(&id) {
            Some(t) => {
                let result = match &t.result {
                    Some(v) => Some(v.clone()),
                    None => None,
                };
                let error = match &t.error {
                    Some(e) => Some(e.clone()),
                    None => None,
                };
                Some((t.status, result, error))
            },
            None => None,
        }
    }

    /// What waiting on a task finds now: a completed task gives its result,
    /// a failed one its error after `خطأ: `, a cancelled one says so;
    /// otherwise the wait goes on.
    pub fn poll_task(&self, id: u64) -> (r: TaskPoll<V>)
        where
            V: Clone,
        ensures
            !self.spec_tasks().contains_key(id) ==> r is Waiting,
            self.spec_tasks().contains_key(id) ==> {
                let t = self.spec_tasks()[id];
                match t.status {
                    TaskStatus::Completed => (r matches TaskPoll::Completed(res) && (res is None
                        <==> t.result is None) && (t.result is Some ==> cloned(
                        t.result.unwrap(),
                        res.unwrap(),
                    ))),
                    TaskStatus::Failed => (r matches TaskPoll::Failed(m) && m@ == "خطأ: "@ + match t.error {
                        Some(e) => e@,
                        None => Seq::empty(),
                    }),
                    TaskStatus::Cancelled => (r matches TaskPoll::Cancelled(m) && m@ == "أُلغيت المهمة"@),
                    _ => r is Waiting,
                }
            },
    {
        match self.get_result(id) {
            Some((TaskStatus::Completed, result, _)) => TaskPoll::Completed(result),
            Some((TaskStatus::Failed, _, error)) => {
                let mut m = String::from_str("خطأ: ");
                match error {
                    Some(e) => m.append(e.as_str()),
                    None => {},
                }
                TaskPoll::Failed(m)
            },
            Some((TaskStatus::Cancelled, _, _)) => TaskPoll::Cancelled(String::from_str("أُلغيت المهمة")),
            _ => TaskPoll::Waiting,
        }
    }

    /// إلغاء مهمة: a pending or running task becomes cancelled; the answer
    /// says whether it did.
    pub fn cancel_task(&mut self, id: u64) -> (r: bool)
        ensures
            r == (old(self).spec_tasks().contains_key(id) && is_unfinished(old(self).spec_tasks()[id].status)),
            final(self).spec_tasks() == if r {
                old(self).spec_tasks().insert(
                    id,
                    AsyncTask { status: TaskStatus::Cancelled, ..old(self).spec_tasks()[id] },
                )
            } else {
                old(self).spec_tasks()
            },
            final(self).spec_next_id() == old(self).spec_next_id(),
    {
        proof {
            use_type_invariant(&*self);
        }
        let mut tasks: HashMap<u64, AsyncTask<V>> = HashMap::new();
        std::mem::swap(&mut tasks, &mut self.tasks);
        let mut cancelled = false;
        match tasks.remove(&id) {
            Some(mut task) => {
                if task.status == TaskStatus::Pending || task.status == TaskStatus::Running {
                    task.status = TaskStatus::Cancelled;
                    cancelled = true;
                }
                tasks.insert(id, task);
            },
            None => {},
        }
        proof {
            if !cancelled && old(self).spec_tasks().contains_key(id) {
                assert(tasks@ =~= old(self).spec_tasks());
            }
        }
        self.tasks = tasks;
        cancelled
    }

    /// تشغيل مهمة: runs the work at once; a known task ends completed with
    /// the value, or failed with the error, that the work gave.
    pub fn spawn_task<F>(&mut self, id: u64, f: F)
        where
            F: FnOnce() -> Result<V, String>,
        requires
            call_requires(f, ()),
        ensures
            final(self).spec_next_id() == old(self).spec_next_id(),
            !old(self).spec_tasks().contains_key(id) ==> final(self).spec_tasks() == old(self).spec_tasks(),
            old(self).spec_tasks().contains_key(id) ==> exists|outcome: Result<V, String>|
                call_ensures(f, (), outcome) && final(self).spec_tasks() == old(self).spec_tasks().insert(
                    id,
                    settled(old(self).spec_tasks()[id], outcome),
                ),
    {
        proof {
            use_type_invariant(&*self);
        }
        let mut tasks: HashMap<u64, AsyncTask<V>> = HashMap::new();
        std::mem::swap(&mut tasks, &mut self.tasks);
        let running = match tasks.remove(&id) {
            Some(mut task) => {
                task.status = TaskStatus::Running;
                tasks.insert(id, task);
                true
            },
            None => false,
        };
        let outcome = f();
        let ghost seen = outcome;
        match tasks.remove(&id) {
            Some(mut task) => {
                match outcome {
                    Ok(val) => {
                        task.status = TaskStatus::Completed;
                        task.result = Some(val);
                    },
                    Err(e) => {
                        task.status = TaskStatus::Failed;
                        task.error = Some(e);
                    },
                }
                tasks.insert(id, task);
            },
            None => {},
        }
        proof {
            if old(self).spec_tasks().contains_key(id) {
                assert(tasks@ =~= old(self).spec_tasks().insert(id, settled(old(self).spec_tasks()[id], seen)));
            } else {
                assert(tasks@ =~= old(self).spec_tasks());
            }
        }
        self.tasks = tasks;
    }
}

impl<V> Default for AsyncRuntime<V> {
    fn default() -> (r: Self)
        ensures
            r.spec_tasks() == Map::<u64, AsyncTask<V>>::empty(),
            r.spec_next_id() == 1,
    {
        Self::new()
    }
}

/// JIT Compiler متكامل مع دعم الدوال العودية و async/await
pub struct CompleteV2JitCompiler<V> {
    call_stack: Vec<CallFrame<V>>,
    stack: Vec<V>,
    async_runtime: AsyncRuntime<V>,
    stats: JitStats,
    enabled: bool,
    max_tier: TierLevel,
}

impl<V> CompleteV2JitCompiler<V> {
    /// Whether compilation is on.
    pub closed spec fn spec_enabled(&self) -> bool {
        self.enabled
    }

    /// The highest tier allowed.
    pub closed spec fn spec_max_tier(&self) -> TierLevel {
        self.max_tier
    }

    /// The statistics.
    pub closed spec fn spec_stats(&self) -> JitStats {
        self.stats
    }

    /// إنشاء JIT جديد: on, up to the tracing tier, with empty stacks and
    /// zero statistics.
    pub fn new() -> (r: Self)
        ensures
            r.spec_enabled(),
            r.spec_max_tier() == TierLevel::Tier4,
            r.spec_stats() == zero_stats(),
    {
        CompleteV2JitCompiler {
            call_stack: Vec::new(),
            stack: Vec::new(),
            async_runtime: AsyncRuntime::new(),
            stats: JitStats::default(),
            enabled: true,
            max_tier: TierLevel::Tier4,
        }
    }

    /// تحديد مستوى التحسين: the tier the execution count earns, capped by
    /// the highest tier allowed; the interpreter tier while compilation is
    /// off.
    pub fn determine_tier(&self, execution_count: u32) -> (r: TierLevel)
        ensures
            r == if self.spec_enabled() {
                lower_tier(tier_for_count(execution_count), self.spec_max_tier())
            } else {
                TierLevel::Tier0
            },
    {
        if !self.enabled {
            return TierLevel::Tier0;
        }
        let tier = if execution_count >= TIER4_THRESHOLD {
            TierLevel::Tier4
        } else if execution_count >= TIER3_THRESHOLD {
            TierLevel::Tier3
        } else if execution_count >= TIER2_THRESHOLD {
            TierLevel::Tier2
        } else if execution_count >= TIER1_THRESHOLD {
            TierLevel::Tier1
        } else {
            TierLevel::Tier0
        };
        if rank_of(tier) <= rank_of(self.max_tier) {
            tier
        } else {
            self.max_tier
        }
    }

    /// الحصول على الإحصائيات
    pub fn stats(&self) -> (r: &JitStats)
        ensures
            *r == self.spec_stats(),
    {
        &self.stats
    }

    /// إعادة تعيين الإحصائيات
    pub fn reset_stats(&mut self)
        ensures
            final(self).spec_stats() == zero_stats(),
            final(self).spec_enabled() == old(self).spec_enabled(),
            final(self).spec_max_tier() == old(self).spec_max_tier(),
    {
        self.stats = JitStats::default();
    }

    /// تفعيل/تعطيل JIT
    pub fn set_enabled(&mut self, enabled: bool)
        ensures
            final(self).spec_enabled() == enabled,
            final(self).spec_max_tier() == old(self).spec_max_tier(),
            final(self).spec_stats() == old(self).spec_stats(),
    {
        self.enabled = enabled;
    }

    /// تعيين مستوى التحسين الأقصى
    pub fn set_max_tier(&mut self, tier: TierLevel)
        ensures
            final(self).spec_max_tier() == tier,
            final(self).spec_enabled() == old(self).spec_enabled(),
            final(self).spec_stats() == old(self).spec_stats(),
    {
        self.max_tier = tier;
    }

    /// Whether compilation is on.
    pub fn is_enabled(&self) -> (r: bool)
        ensures
            r == self.spec_enabled(),
    {
        self.enabled
    }

    /// The highest tier allowed.
    pub fn max_tier(&self) -> (r: TierLevel)
        ensures
            r == self.spec_max_tier(),
    {
        self.max_tier
    }
}

impl<V> Default for CompleteV2JitCompiler<V> {
    fn default() -> (r: Self)
        ensures
            r.spec_enabled(),
            r.spec_max_tier() == TierLevel::Tier4,
            r.spec_stats() == zero_stats(),
    {
        Self::new()
    }
}

/// What the execution loop does next.
#[derive(Debug, PartialEq, Eq)]
pub enum Fetch<V> {
    /// Run the instruction at this index.
    Run(usize),
    /// Every frame has ended: the run gives this value.
    Done(V),
}

/// What the execution loop does after an instruction ran.
#[derive(Debug, PartialEq, Eq)]
pub enum Control<V> {
    /// Go on with the next instruction.
    Continue,
    /// The outermost frame returned this value: the run ends with it.
    Finish(V),
    /// The run fails with this message.
    Fail(String),
    /// Wait until the task of that identifier ends; what it gave then goes
    /// to `resume_with`.
    Await(u64),
}

/// How many frames on top of the call stack have run past the end of the
/// code.
pub open spec fn finished_frames<V>(fs: Seq<CallFrame<V>>, code_len: nat) -> nat
    decreases fs.len(),
{
    if fs.len() == 0 {
        0
    } else if fs.last().ip >= code_len {
        1 + finished_frames(fs.drop_last(), code_len)
    } else {
        0
    }
}

/// The length of a value stack of length `n` once the top `k` frames are
/// popped, each cutting it back to its base.
pub open spec fn cut_length<V>(fs: Seq<CallFrame<V>>, k: nat, n: nat) -> nat
    decreases k,
{
    if k == 0 || fs.len() == 0 {
        n
    } else {
        cut_length(
            fs.drop_last(),
            (k - 1) as nat,
            if fs.last().stack_base < n {
                fs.last().stack_base as nat
            } else {
                n
            },
        )
    }
}

/// The frame moved on by one instruction.
pub open spec fn advanced<V>(f: CallFrame<V>) -> CallFrame<V> {
    CallFrame { ip: (f.ip + 1) as usize, ..f }
}

/// The main frame of a run over code of `code_len` instructions.
pub open spec fn is_main_frame<V>(f: CallFrame<V>, code_len: usize) -> bool {
    &&& f.ip == 0 && f.start_ip == 0 && f.end_ip == code_len && f.stack_base == 0
    &&& f.name@ == "main"@
    &&& !f.is_async && f.task_id is None
}

/// The message for a call nested too deeply.
pub open spec fn depth_text() -> Seq<char> {
    "تجاوز عمق الاستدعاء الأقصى ("@ + crate::text::decimal(MAX_CALL_DEPTH as nat) + ")"@
}

impl<V> CompleteV2JitCompiler<V> {
    /// The call frames, the innermost last.
    pub closed spec fn spec_frames(&self) -> Seq<CallFrame<V>> {
        self.call_stack@
    }

    /// The value stack, its top last.
    pub closed spec fn spec_stack(&self) -> Seq<V> {
        self.stack@
    }

    /// The asynchronous tasks.
    pub closed spec fn spec_runtime(&self) -> AsyncRuntime<V> {
        self.async_runtime
    }

    /// Pushes a value on the value stack.
    pub fn push_value(&mut self, value: V)
        ensures
            final(self).spec_stack() == old(self).spec_stack().push(value),
            final(self).spec_frames() == old(self).spec_frames(),
            final(self).spec_stats() == old(self).spec_stats(),
    {
        self.stack.push(value);
    }

    /// Pops the top of the value stack; `None` when it is empty.
    pub fn pop_value(&mut self) -> (r: Option<V>)
        ensures
            old(self).spec_stack().len() > 0 ==> r == Some(old(self).spec_stack().last()) && final(self).spec_stack()
                == old(self).spec_stack().drop_last(),
            old(self).spec_stack().len() == 0 ==> r is None && final(self).spec_stack() == old(self).spec_stack(),
            final(self).spec_frames() == old(self).spec_frames(),
            final(self).spec_stats() == old(self).spec_stats(),
    {
        self.stack.pop()
    }

    /// The number of call frames.
    pub fn call_depth(&self) -> (r: usize)
        ensures
            r == self.spec_frames().len(),
    {
        self.call_stack.len()
    }

    /// The tasks, to wait on.
    pub fn runtime(&self) -> (r: &AsyncRuntime<V>)
        ensures
            *r == self.spec_runtime(),
    {
        &self.async_runtime
    }

    /// إزالة إطار من call stack: the innermost frame goes, and the value
    /// stack is cut back to where that frame began; refused when there is
    /// no frame.
    pub fn pop_frame(&mut self) -> (r: Result<(), String>)
        ensures
            old(self).spec_frames().len() == 0 ==> {
                &&& r matches Err(m) && m@ == "call stack فارغ"@
                &&& final(self).spec_frames() == old(self).spec_frames()
                &&& final(self).spec_stack() == old(self).spec_stack()
            },
            old(self).spec_frames().len() > 0 ==> {
                let base = old(self).spec_frames().last().stack_base;
                &&& r is Ok
                &&& final(self).spec_frames() == old(self).spec_frames().drop_last()
                &&& final(self).spec_stack() == if base < old(self).spec_stack().len() {
                    old(self).spec_stack().take(base as int)
                } else {
                    old(self).spec_stack()
                }
            },
            final(self).spec_stats() == old(self).spec_stats(),
            final(self).spec_runtime() == old(self).spec_runtime(),
    {
        match self.call_stack.pop() {
            None => Err(String::from_str("call stack فارغ")),
            Some(frame) => {
                self.stack.truncate(frame.stack_base);
                Ok(())
            },
        }
    }

    /// حلقة التنفيذ, one turn: frames that have run past the end of the
    /// code are popped; when none is left the run is done with the top of
    /// the value stack (`null` when it is empty, taken off); otherwise the
    /// innermost frame's next instruction is to run, and counts as run by
    /// the interpreter tier.
    pub fn next_instruction(&mut self, code_len: usize, null: V) -> (r: Fetch<V>)
        requires
            old(self).spec_stats().tier0_executions < u64::MAX,
        ensures
            ({
                let fs = old(self).spec_frames();
                let k = finished_frames(fs, code_len as nat);
                let rest = fs.take(fs.len() - k);
                let cut = old(self).spec_stack().take(cut_length(fs, k, old(self).spec_stack().len()) as int);
                &&& rest.len() == 0 ==> {
                    &&& final(self).spec_frames().len() == 0
                    &&& cut.len() > 0 ==> r == Fetch::Done(cut.last()) && final(self).spec_stack() == cut.drop_last()
                    &&& cut.len() == 0 ==> r == Fetch::Done(null) && final(self).spec_stack() == cut
                    &&& final(self).spec_stats() == old(self).spec_stats()
                }
                &&& rest.len() > 0 ==> {
                    &&& r == Fetch::<V>::Run(rest.last().ip)
                    &&& final(self).spec_frames() == rest.drop_last().push(advanced(rest.last()))
                    &&& final(self).spec_stack() == cut
                    &&& final(self).spec_stats() == (JitStats {
                        tier0_executions: (old(self).spec_stats().tier0_executions + 1) as u64,
                        ..old(self).spec_stats()
                    })
                }
            }),
            final(self).spec_runtime() == old(self).spec_runtime(),
    {
        let ghost fs = self.call_stack@;
        let ghost n0 = self.stack@.len();
        let ghost s0 = self.stack@;
        let ghost k = finished_frames(fs, code_len as nat);
        let ghost mut j: nat = 0;
        loop
            invariant
                j <= fs.len(),
                self.call_stack@ == fs.take(fs.len() - j),
                finished_frames(fs, code_len as nat) == j + finished_frames(self.call_stack@, code_len as nat),
                k == finished_frames(fs, code_len as nat),
                n0 == s0.len(),
                self.stack@.len() <= n0,
                self.stack@ == s0.take(self.stack@.len() as int),
                cut_length(fs, k, n0) == cut_length(self.call_stack@, (k - j) as nat, self.stack@.len() as nat),
                self.stats == old(self).stats,
                self.stats.tier0_executions < u64::MAX,
                self.async_runtime == old(self).async_runtime,
                s0 == old(self).stack@,
                fs == old(self).call_stack@,
            decreases self.call_stack@.len(),
        {
            let depth = self.call_stack.len();
            if depth == 0 {
                assert(fs.take(fs.len() - k) =~= Seq::<CallFrame<V>>::empty());
                assert(s0.take(cut_length(fs, k, n0) as int) =~= self.stack@);
                return match self.stack.pop() {
                    Some(v) => Fetch::Done(v),
                    None => Fetch::Done(null),
                };
            }
            let ip = self.call_stack[depth - 1].ip;
            if ip >= code_len {
                proof {
                    let cur = self.call_stack@;
                    assert(cur.drop_last() =~= fs.take(fs.len() - (j + 1)));
                    j = j + 1;
                }
                let f = self.call_stack.pop().unwrap();
                let ghost before = self.stack@;
                self.stack.truncate(f.stack_base);
                proof {
                    if (f.stack_base as int) <= before.len() {
                        assert(self.stack@ =~= s0.take(f.stack_base as int));
                    } else {
                        assert(self.stack@ == before);
                    }
                }
            } else {
                let ghost cur = self.call_stack@;
                assert(finished_frames(cur, code_len as nat) == 0);
                assert(fs.take(fs.len() - k) =~= cur);
                let mut f = self.call_stack.pop().unwrap();
                f.ip = ip + 1;
                self.call_stack.push(f);
                assert(self.call_stack@ =~= cur.drop_last().push(advanced(cur.last())));
                self.stats.tier0_executions = self.stats.tier0_executions + 1;
                assert(self.stack@ =~= s0.take(cut_length(fs, k, n0) as int));
                return Fetch::Run(ip);
            }
        }
    }

    /// What the loop does after an instruction ran: a value goes on; a
    /// return from an inner frame pops it and pushes the value, from the
    /// outermost frame it ends the run; `break` and `continue` outside a
    /// loop and errors fail the run; a pending task is waited for.
    pub fn after_instruction(&mut self, result: ExecutionResult<V>) -> (r: Control<V>)
        ensures
            final(self).spec_stats() == old(self).spec_stats(),
            final(self).spec_runtime() == old(self).spec_runtime(),
            match result {
                ExecutionResult::Value(_) => r == Control::<V>::Continue && *final(self) == *old(self),
                ExecutionResult::Return(v) => if old(self).spec_frames().len() > 1 {
                    let base = old(self).spec_frames().last().stack_base;
                    &&& r == Control::<V>::Continue
                    &&& final(self).spec_frames() == old(self).spec_frames().drop_last()
                    &&& final(self).spec_stack() == (if base < old(self).spec_stack().len() {
                        old(self).spec_stack().take(base as int)
                    } else {
                        old(self).spec_stack()
                    }).push(v)
                } else {
                    r == Control::Finish(v) && *final(self) == *old(self)
                },
                ExecutionResult::Break => r matches Control::Fail(m) && m@ == "break خارج حلقة"@ && *final(self)
                    == *old(self),
                ExecutionResult::Continue => r matches Control::Fail(m) && m@ == "continue خارج حلقة"@ && *final(self)
                    == *old(self),
                ExecutionResult::Error(e) => r == Control::<V>::Fail(e) && *final(self) == *old(self),
                ExecutionResult::Pending(id) => r == Control::<V>::Await(id) && *final(self) == *old(self),
            },
    {
        match result {
            ExecutionResult::Value(_) => Control::Continue,
            ExecutionResult::Return(v) => {
                if self.call_stack.len() > 1 {
                    let _ = self.pop_frame();
                    self.stack.push(v);
                    Control::Continue
                } else {
                    Control::Finish(v)
                }
            },
            ExecutionResult::Break => Control::Fail(String::from_str("break خارج حلقة")),
            ExecutionResult::Continue => Control::Fail(String::from_str("continue خارج حلقة")),
            ExecutionResult::Error(e) => Control::Fail(e),
            ExecutionResult::Pending(id) => Control::Await(id),
        }
    }

    /// The awaited task's value, if it gave one, goes on the value stack.
    pub fn resume_with(&mut self, value: Option<V>)
        ensures
            final(self).spec_stack() == match value {
                Some(v) => old(self).spec_stack().push(v),
                None => old(self).spec_stack(),
            },
            final(self).spec_frames() == old(self).spec_frames(),
            final(self).spec_stats() == old(self).spec_stats(),
    {
        match value {
            Some(v) => self.stack.push(v),
            None => {},
        }
    }

    /// A run has ended: it counts, with the time it took.
    pub fn finish_execution(&mut self, elapsed_us: u64)
        requires
            old(self).spec_stats().total_executions < u64::MAX,
            old(self).spec_stats().total_exec_time_us + elapsed_us <= u64::MAX,
        ensures
            final(self).spec_stats() == (JitStats {
                total_executions: (old(self).spec_stats().total_executions + 1) as u64,
                total_exec_time_us: (old(self).spec_stats().total_exec_time_us + elapsed_us) as u64,
                ..old(self).spec_stats()
            }),
            final(self).spec_frames() == old(self).spec_frames(),
            final(self).spec_stack() == old(self).spec_stack(),
    {
        self.stats.total_exec_time_us = self.stats.total_exec_time_us + elapsed_us;
        self.stats.total_executions = self.stats.total_executions + 1;
    }
}

impl<V: Clone> CompleteV2JitCompiler<V> {
    /// تنفيذ, its start: the main frame over code of `code_len`
    /// instructions is pushed.
    pub fn begin_execution(&mut self, code_len: usize, null: V)
        ensures
            final(self).spec_frames().len() == old(self).spec_frames().len() + 1,
            final(self).spec_frames().drop_last() == old(self).spec_frames(),
            is_main_frame(final(self).spec_frames().last(), code_len),
            fresh_locals(final(self).spec_frames().last().locals@, null),
            final(self).spec_stack() == old(self).spec_stack(),
            final(self).spec_stats() == old(self).spec_stats(),
    {
        let frame = CallFrame::new(0, code_len, 0, "main", null);
        self.call_stack.push(frame);
        assert(self.call_stack@.drop_last() =~= old(self).call_stack@);
    }

    /// معالجة استدعاء الدالة: a call of the function at `func_addr` with
    /// the top `arg_count` values as arguments counts as a recursive call;
    /// it is refused past the deepest nesting allowed, or when the callee
    /// is no address. Otherwise the deepest nesting seen is kept, the
    /// arguments leave the value stack, and a frame named after the address
    /// starts there, its base where the arguments began. The arguments are
    /// dropped: they do not reach the new frame's locals, which all hold
    /// `null`, so a callee sees null locals.
    pub fn enter_function(&mut self, func_addr: Option<usize>, arg_count: usize, code_len: usize, null: V) -> (r:
        Result<(), String>)
        requires
            old(self).spec_stats().recursive_calls < u64::MAX,
            old(self).spec_stack().len() >= arg_count,
        ensures
            ({
                let before = old(self).spec_stats();
                let depth = old(self).spec_frames().len();
                let counted = JitStats { recursive_calls: (before.recursive_calls + 1) as u64, ..before };
                let deepest = JitStats {
                    max_call_depth: if depth > before.max_call_depth {
                        depth as usize
                    } else {
                        before.max_call_depth
                    },
                    ..counted
                };
                &&& depth >= MAX_CALL_DEPTH ==> {
                    &&& r matches Err(m) && m@ == depth_text()
                    &&& final(self).spec_stats() == counted
                    &&& final(self).spec_frames() == old(self).spec_frames()
                    &&& final(self).spec_stack() == old(self).spec_stack()
                }
                &&& depth < MAX_CALL_DEPTH && func_addr is None ==> {
                    &&& r matches Err(m) && m@ == "عنوان دالة غير صالح"@
                    &&& final(self).spec_stats() == deepest
                    &&& final(self).spec_frames() == old(self).spec_frames()
                    &&& final(self).spec_stack() == old(self).spec_stack()
                }
                &&& depth < MAX_CALL_DEPTH && func_addr is Some ==> {
                    let addr = func_addr->0;
                    let base = old(self).spec_stack().len() - arg_count;
                    let f = final(self).spec_frames().last();
                    &&& r is Ok
                    &&& final(self).spec_stats() == deepest
                    &&& final(self).spec_stack() == old(self).spec_stack().take(base)
                    &&& final(self).spec_frames().len() == depth + 1
                    &&& final(self).spec_frames().drop_last() == old(self).spec_frames()
                    &&& f.ip == addr && f.start_ip == addr && f.end_ip == code_len && f.stack_base == base
                    &&& f.name@ == "func_"@ + crate::text::decimal(addr as nat)
                    &&& !f.is_async && f.task_id is None
                    &&& fresh_locals(f.locals@, null)
                }
            }),
            final(self).spec_runtime() == old(self).spec_runtime(),
    {
        self.stats.recursive_calls = self.stats.recursive_calls + 1;
        let depth = self.call_stack.len();
        if depth >= MAX_CALL_DEPTH {
            let mut m = String::from_str("تجاوز عمق الاستدعاء الأقصى (");
            m.append(crate::text::usize_text(MAX_CALL_DEPTH).as_str());
            m.append(")");
            return Err(m);
        }
        if depth > self.stats.max_call_depth {
            self.stats.max_call_depth = depth;
        }
        let addr = match func_addr {
            Some(a) => a,
            None => {
                return Err(String::from_str("عنوان دالة غير صالح"));
            },
        };
        let stack_base = self.stack.len() - arg_count;
        let mut name = String::from_str("func_");
        name.append(crate::text::usize_text(addr).as_str());
        let frame = CallFrame::new(addr, code_len, stack_base, name.as_str(), null);
        self.stack.truncate(stack_base);
        self.call_stack.push(frame);
        assert(self.call_stack@.drop_last() =~= old(self).call_stack@);
        Ok(())
    }
}

/// What running a fresh task's work leaves for `get_result`: a task that
/// was pending with no result and no error is completed with the value, or
/// failed with the error, that the work gave, keeps its identifier, and the
/// other tasks are as they were.
pub proof fn law_spawned_task_settles<V>(tasks: Map<u64, AsyncTask<V>>, id: u64, outcome: Result<V, String>)
    requires
        tasks.contains_key(id),
        tasks[id] == (AsyncTask::<V> { id, status: TaskStatus::Pending, result: None, error: None }),
    ensures
        ({
            let after = tasks.insert(id, settled(tasks[id], outcome));
            &&& after.contains_key(id)
            &&& after[id].id == id
            &&& match outcome {
                Ok(v) => after[id].status == TaskStatus::Completed && after[id].result == Some(v)
                    && after[id].error is None,
                Err(e) => after[id].status == TaskStatus::Failed && after[id].result is None && after[id].error
                    == Some(e),
            }
            &&& forall|k: u64| k != id ==> #[trigger] after.contains_key(k) == tasks.contains_key(k)
            &&& forall|k: u64| k != id && tasks.contains_key(k) ==> #[trigger] after[k] == tasks[k]
        }),
{
}

/// A call and the return from it: the frame that the call pushed, its
/// base where the arguments began, is popped again, the caller's frames are
/// back as they were, and the returned value stands where the arguments
/// stood.
pub proof fn law_call_then_return<V>(frames: Seq<CallFrame<V>>, stack: Seq<V>, arg_count: nat, callee: CallFrame<
    V,
>, value: V)
    requires
        frames.len() >= 1,
        arg_count <= stack.len(),
        callee.stack_base == stack.len() - arg_count,
    ensures
        ({
            let called = frames.push(callee);
            let args_taken = stack.take(stack.len() - arg_count);
            let base = called.last().stack_base;
            &&& called.len() > 1
            &&& called.drop_last() == frames
            &&& (if base < args_taken.len() {
                args_taken.take(base as int)
            } else {
                args_taken
            }).push(value) == stack.take(stack.len() - arg_count).push(value)
        }),
{
    assert(frames.push(callee).drop_last() =~= frames);
}

/// The rank of a tier, as a number.
fn rank_of(t: TierLevel) -> (r: u8)
    ensures
        r as nat == tier_rank(t),
{
    match t {
        TierLevel::Tier0 => 0,
        TierLevel::Tier1 => 1,
        TierLevel::Tier2 => 2,
        TierLevel::Tier3 => 3,
        TierLevel::Tier4 => 4,
    }
}

/// A compiler never picks a tier above the highest one allowed, and picks
/// the interpreter tier while compilation is off.
pub proof fn law_tier_capped(enabled: bool, max_tier: TierLevel, count: u32)
    ensures
        tier_rank(
            if enabled {
                lower_tier(tier_for_count(count), max_tier)
            } else {
                TierLevel::Tier0
            },
        ) <= tier_rank(max_tier),
{
}

/// More executions never earn a lower tier.
pub proof fn law_tier_monotone(fewer: u32, more: u32, max_tier: TierLevel)
    requires
        fewer <= more,
    ensures
        tier_rank(tier_for_count(fewer)) <= tier_rank(tier_for_count(more)),
        tier_rank(lower_tier(tier_for_count(fewer), max_tier)) <= tier_rank(
            lower_tier(tier_for_count(more), max_tier),
        ),
{
}

} // verus!
