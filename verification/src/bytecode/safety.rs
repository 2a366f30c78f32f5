//! Resource limits for running programs: an execution guard that counts
//! operations, call depth, stack size and memory against configured limits
//! and records why execution had to stop, a memory tracker, and call scopes.
//!
//! Times are kept in whole milliseconds for limits; the clock is read from
//! `std::time` and nothing is assumed of what it returns.

use crate::text::{decimal, digit_char, u64_text, usize_text};
use std::time::{Duration, Instant};
use vstd::prelude::*;

verus! {

/// Maximum memory that can be allocated, in bytes (512 MB).
pub const DEFAULT_MAX_MEMORY: usize = 536870912;

/// Maximum execution time, in milliseconds (60 seconds).
pub const DEFAULT_MAX_EXECUTION_TIME_MS: u64 = 60000;

/// Maximum call depth.
pub const DEFAULT_MAX_CALL_DEPTH: usize = 10000;

/// Maximum stack size, in values.
pub const DEFAULT_MAX_STACK_SIZE: usize = 1000000;

/// The clock is consulted when the operation count is a multiple of this.
pub const ITERATIONS_PER_CHECK: u64 = 10000;

// ═══════════════════════════════════════════════════════════════════════════
// Limits
// ═══════════════════════════════════════════════════════════════════════════

/// Configuration for execution limits
#[derive(Debug, Clone, Copy, PartialEq, Eq, Structural)]
pub struct ExecutionLimits {
    /// Maximum memory in bytes
    pub max_memory: usize,
    /// Maximum execution time, in milliseconds
    pub max_time_ms: u64,
    /// Maximum call stack depth
    pub max_call_depth: usize,
    /// Maximum stack size (number of values)
    pub max_stack_size: usize,
    /// Maximum number of operations
    pub max_operations: u64,
    /// Enable bailout on limit exceeded
    pub enable_bailout: bool,
}

/// The limits used when none are given.
pub open spec fn default_limits() -> ExecutionLimits {
    ExecutionLimits {
        max_memory: DEFAULT_MAX_MEMORY,
        max_time_ms: DEFAULT_MAX_EXECUTION_TIME_MS,
        max_call_depth: DEFAULT_MAX_CALL_DEPTH,
        max_stack_size: DEFAULT_MAX_STACK_SIZE,
        max_operations: 1000000000,
        enable_bailout: true,
    }
}

impl Default for ExecutionLimits {
    fn default() -> (r: Self)
        ensures
            r == default_limits(),
    {
        ExecutionLimits {
            max_memory: DEFAULT_MAX_MEMORY,
            max_time_ms: DEFAULT_MAX_EXECUTION_TIME_MS,
            max_call_depth: DEFAULT_MAX_CALL_DEPTH,
            max_stack_size: DEFAULT_MAX_STACK_SIZE,
            max_operations: 1000000000,
            enable_bailout: true,
        }
    }
}

impl ExecutionLimits {
    /// Create limits for development (more lenient)
    pub fn development() -> (r: Self)
        ensures
            r == (ExecutionLimits {
                max_memory: 1073741824,
                max_time_ms: 300000,
                max_call_depth: 50000,
                max_stack_size: 10000000,
                max_operations: 10000000000,
                enable_bailout: true,
            }),
    {
        ExecutionLimits {
            max_memory: 1073741824,
            max_time_ms: 300000,
            max_call_depth: 50000,
            max_stack_size: 10000000,
            max_operations: 10000000000,
            enable_bailout: true,
        }
    }

    /// Create limits for production (stricter)
    pub fn production() -> (r: Self)
        ensures
            r == (ExecutionLimits {
                max_memory: 268435456,
                max_time_ms: 30000,
                max_call_depth: 5000,
                max_stack_size: 500000,
                max_operations: 100000000,
                enable_bailout: true,
            }),
    {
        ExecutionLimits {
            max_memory: 268435456,
            max_time_ms: 30000,
            max_call_depth: 5000,
            max_stack_size: 500000,
            max_operations: 100000000,
            enable_bailout: true,
        }
    }

    /// Create limits for testing (very strict)
    pub fn testing() -> (r: Self)
        ensures
            r == (ExecutionLimits {
                max_memory: 67108864,
                max_time_ms: 5000,
                max_call_depth: 1000,
                max_stack_size: 100000,
                max_operations: 10000000,
                enable_bailout: true,
            }),
    {
        ExecutionLimits {
            max_memory: 67108864,
            max_time_ms: 5000,
            max_call_depth: 1000,
            max_stack_size: 100000,
            max_operations: 10000000,
            enable_bailout: true,
        }
    }

    /// Create unlimited limits (dangerous!); the time limit is the largest
    /// number of milliseconds.
    pub fn unlimited() -> (r: Self)
        ensures
            r == (ExecutionLimits {
                max_memory: usize::MAX,
                max_time_ms: u64::MAX,
                max_call_depth: usize::MAX,
                max_stack_size: usize::MAX,
                max_operations: u64::MAX,
                enable_bailout: false,
            }),
    {
        ExecutionLimits {
            max_memory: usize::MAX,
            max_time_ms: u64::MAX,
            max_call_depth: usize::MAX,
            max_stack_size: usize::MAX,
            max_operations: u64::MAX,
            enable_bailout: false,
        }
    }
}

/// The presets are ordered from lenient to strict: development allows more
/// than the defaults, production less, and testing less than production, in
/// every limit.
pub proof fn law_presets_ordered(
    dev: ExecutionLimits,
    def: ExecutionLimits,
    prod: ExecutionLimits,
    test: ExecutionLimits,
)
    requires
        dev == (ExecutionLimits {
            max_memory: 1073741824,
            max_time_ms: 300000,
            max_call_depth: 50000,
            max_stack_size: 10000000,
            max_operations: 10000000000,
            enable_bailout: true,
        }),
        def == default_limits(),
        prod == (ExecutionLimits {
            max_memory: 268435456,
            max_time_ms: 30000,
            max_call_depth: 5000,
            max_stack_size: 500000,
            max_operations: 100000000,
            enable_bailout: true,
        }),
        test == (ExecutionLimits {
            max_memory: 67108864,
            max_time_ms: 5000,
            max_call_depth: 1000,
            max_stack_size: 100000,
            max_operations: 10000000,
            enable_bailout: true,
        }),
    ensures
        dev.max_memory > def.max_memory > prod.max_memory > test.max_memory,
        dev.max_time_ms > def.max_time_ms > prod.max_time_ms > test.max_time_ms,
        dev.max_call_depth > def.max_call_depth > prod.max_call_depth > test.max_call_depth,
        dev.max_stack_size > def.max_stack_size > prod.max_stack_size > test.max_stack_size,
        dev.max_operations > def.max_operations > prod.max_operations > test.max_operations,
{
}

// ═══════════════════════════════════════════════════════════════════════════
// Bailout reasons
// ═══════════════════════════════════════════════════════════════════════════

/// Reason for execution bailout
#[derive(Debug, PartialEq, Eq)]
pub enum BailoutReason {
    /// Execution time exceeded
    Timeout { elapsed_ms: u64, limit_ms: u64 },
    /// Memory limit exceeded
    MemoryExceeded { used_bytes: usize, limit_bytes: usize },
    /// Call stack depth exceeded
    StackOverflow { depth: usize, limit: usize },
    /// Operation count exceeded
    OperationLimit { count: u64, limit: u64 },
    /// Stack size exceeded
    StackSizeExceeded { size: usize, limit: usize },
    /// External interrupt
    Interrupted,
    /// Custom reason
    Custom(String),
}

impl Clone for BailoutReason {
    fn clone(&self) -> (r: Self)
        ensures
            r == *self,
    {
        match self {
            BailoutReason::Timeout { elapsed_ms, limit_ms } => BailoutReason::Timeout {
                elapsed_ms: *elapsed_ms,
                limit_ms: *limit_ms,
            },
            BailoutReason::MemoryExceeded { used_bytes, limit_bytes } => BailoutReason::MemoryExceeded {
                used_bytes: *used_bytes,
                limit_bytes: *limit_bytes,
            },
            BailoutReason::StackOverflow { depth, limit } => BailoutReason::StackOverflow {
                depth: *depth,
                limit: *limit,
            },
            BailoutReason::OperationLimit { count, limit } => BailoutReason::OperationLimit {
                count: *count,
                limit: *limit,
            },
            BailoutReason::StackSizeExceeded { size, limit } => BailoutReason::StackSizeExceeded {
                size: *size,
                limit: *limit,
            },
            BailoutReason::Interrupted => BailoutReason::Interrupted,
            BailoutReason::Custom(m) => BailoutReason::Custom(m.clone()),
        }
    }
}

/// The Arabic description of a bailout reason.
pub open spec fn reason_text(r: BailoutReason) -> Seq<char> {
    match r {
        BailoutReason::Timeout { elapsed_ms, limit_ms } => "انتهت مهلة التنفيذ: "@ + decimal(
            elapsed_ms as nat,
        ) + " مللي ثانية (الحد: "@ + decimal(limit_ms as nat) + " مللي ثانية)"@,
        BailoutReason::MemoryExceeded { used_bytes, limit_bytes } => "تجاوز حد الذاكرة: "@ + decimal(
            used_bytes as nat,
        ) + " بايت (الحد: "@ + decimal(limit_bytes as nat) + " بايت)"@,
        BailoutReason::StackOverflow { depth, limit } => "تجاوز عمق الاستدعاء: "@ + decimal(
            depth as nat,
        ) + " (الحد: "@ + decimal(limit as nat) + ")"@,
        BailoutReason::OperationLimit { count, limit } => "تجاوز حد العمليات: "@ + decimal(
            count as nat,
        ) + " (الحد: "@ + decimal(limit as nat) + ")"@,
        BailoutReason::StackSizeExceeded { size, limit } => "تجاوز حجم المكدس: "@ + decimal(
            size as nat,
        ) + " (الحد: "@ + decimal(limit as nat) + ")"@,
        BailoutReason::Interrupted => "تم إيقاف التنفيذ خارجياً"@,
        BailoutReason::Custom(msg) => msg@,
    }
}

impl BailoutReason {
    /// The text shown for the reason, in Arabic.
    pub fn to_display_string(&self) -> (r: String)
        ensures
            r@ == reason_text(*self),
    {
        match self {
            BailoutReason::Timeout { elapsed_ms, limit_ms } => {
                let mut s = String::from_str("انتهت مهلة التنفيذ: ");
                s.append(u64_text(*elapsed_ms).as_str());
                s.append(" مللي ثانية (الحد: ");
                s.append(u64_text(*limit_ms).as_str());
                s.append(" مللي ثانية)");
                s
            },
            BailoutReason::MemoryExceeded { used_bytes, limit_bytes } => {
                let mut s = String::from_str("تجاوز حد الذاكرة: ");
                s.append(usize_text(*used_bytes).as_str());
                s.append(" بايت (الحد: ");
                s.append(usize_text(*limit_bytes).as_str());
                s.append(" بايت)");
                s
            },
            BailoutReason::StackOverflow { depth, limit } => {
                let mut s = String::from_str("تجاوز عمق الاستدعاء: ");
                s.append(usize_text(*depth).as_str());
                s.append(" (الحد: ");
                s.append(usize_text(*limit).as_str());
                s.append(")");
                s
            },
            BailoutReason::OperationLimit { count, limit } => {
                let mut s = String::from_str("تجاوز حد العمليات: ");
                s.append(u64_text(*count).as_str());
                s.append(" (الحد: ");
                s.append(u64_text(*limit).as_str());
                s.append(")");
                s
            },
            BailoutReason::StackSizeExceeded { size, limit } => {
                let mut s = String::from_str("تجاوز حجم المكدس: ");
                s.append(usize_text(*size).as_str());
                s.append(" (الحد: ");
                s.append(usize_text(*limit).as_str());
                s.append(")");
                s
            },
            BailoutReason::Interrupted => String::from_str("تم إيقاف التنفيذ خارجياً"),
            BailoutReason::Custom(msg) => msg.clone(),
        }
    }
}

// ═══════════════════════════════════════════════════════════════════════════
// The clock
// ═══════════════════════════════════════════════════════════════════════════

#[verifier::external_type_specification]
#[verifier::external_body]
pub struct ExInstant(Instant);

/// `Instant::now`: reads the monotonic clock. Nothing is stated of the
/// instant it returns.
#[verifier::external_body]
fn instant_now() -> Instant {
    Instant::now()
}

/// `Instant::elapsed`: the time since the instant. It depends on the clock,
/// so nothing is stated of it.
#[verifier::external_body]
fn instant_elapsed(start: &Instant) -> Duration {
    start.elapsed()
}

/// `Duration::as_nanos`: the whole nanoseconds of a duration. The duration
/// is opaque here, so the number is not tied to it by any clause.
#[verifier::external_body]
fn duration_nanos(d: &Duration) -> u128 {
    d.as_nanos()
}

/// The `Debug` text of a duration, such as `1.5ms`. The duration is opaque
/// here, so the text is not tied to it by any clause.
#[verifier::external_body]
fn duration_debug_text(d: &Duration) -> String {
    format!("{:?}", d)
}

// ═══════════════════════════════════════════════════════════════════════════
// Execution guard
// ═══════════════════════════════════════════════════════════════════════════

/// Execution guard for resource monitoring
pub struct ExecutionGuard {
    limits: ExecutionLimits,
    start_time: Instant,
    operation_count: u64,
    call_depth: usize,
    stack_size: usize,
    memory_used: usize,
    bailout: bool,
    bailout_reason: Option<BailoutReason>,
    interrupted: bool,
}

/// What a guard holds, but for its start time.
pub struct GuardState {
    pub limits: ExecutionLimits,
    pub operation_count: u64,
    pub call_depth: usize,
    pub stack_size: usize,
    pub memory_used: usize,
    pub bailout: bool,
    pub bailout_reason: Option<BailoutReason>,
    pub interrupted: bool,
}

impl View for ExecutionGuard {
    type V = GuardState;

    closed spec fn view(&self) -> GuardState {
        GuardState {
            limits: self.limits,
            operation_count: self.operation_count,
            call_depth: self.call_depth,
            stack_size: self.stack_size,
            memory_used: self.memory_used,
            bailout: self.bailout,
            bailout_reason: self.bailout_reason,
            interrupted: self.interrupted,
        }
    }
}

/// A guard that has counted nothing yet.
pub open spec fn fresh_state(limits: ExecutionLimits) -> GuardState {
    GuardState {
        limits,
        operation_count: 0,
        call_depth: 0,
        stack_size: 0,
        memory_used: 0,
        bailout: false,
        bailout_reason: None,
        interrupted: false,
    }
}

/// The state after a bailout with the given reason.
pub open spec fn bailed(s: GuardState, reason: BailoutReason) -> GuardState {
    GuardState { bailout: true, bailout_reason: Some(reason), ..s }
}

/// Whether a check reads the clock in the given state.
pub open spec fn reads_clock(s: GuardState) -> bool {
    s.limits.enable_bailout && !s.bailout && !s.interrupted && s.operation_count % ITERATIONS_PER_CHECK == 0
}

/// The state and answer of a check, given the nanoseconds since the start
/// (read only when `reads_clock` holds). Past the time limit the guard bails
/// out, and the check after it reports the timeout.
pub open spec fn check_outcome(s: GuardState, elapsed_nanos: u128) -> (GuardState, Result<(), BailoutReason>) {
    if !s.limits.enable_bailout {
        (s, Ok(()))
    } else if s.bailout {
        (
            s,
            Err(
                match s.bailout_reason {
                    Some(r) => r,
                    None => BailoutReason::Interrupted,
                },
            ),
        )
    } else if s.interrupted {
        (s, Err(BailoutReason::Interrupted))
    } else if s.operation_count % ITERATIONS_PER_CHECK == 0 && elapsed_nanos > s.limits.max_time_ms
        * 1000000 {
        (
            bailed(
                s,
                BailoutReason::Timeout {
                    elapsed_ms: (elapsed_nanos / 1000000) as u64,
                    limit_ms: s.limits.max_time_ms,
                },
            ),
            Ok(()),
        )
    } else {
        (s, Ok(()))
    }
}

/// The state and answer of recording one more operation (below the largest
/// count), given the clock reading of the periodic check.
pub open spec fn operation_outcome(s: GuardState, elapsed_nanos: u128) -> (GuardState, Result<(), BailoutReason>) {
    let count = (s.operation_count + 1) as u64;
    let counted = GuardState { operation_count: count, ..s };
    if count > s.limits.max_operations {
        let reason = BailoutReason::OperationLimit { count, limit: s.limits.max_operations };
        if s.limits.enable_bailout {
            (bailed(counted, reason), Err(reason))
        } else {
            (bailed(counted, reason), Ok(()))
        }
    } else if count % ITERATIONS_PER_CHECK == 0 {
        check_outcome(counted, elapsed_nanos)
    } else {
        (counted, Ok(()))
    }
}

/// The state and answer of entering a call (below the largest depth).
pub open spec fn enter_outcome(s: GuardState) -> (GuardState, Result<(), BailoutReason>) {
    let depth = (s.call_depth + 1) as usize;
    let entered = GuardState { call_depth: depth, ..s };
    if depth > s.limits.max_call_depth {
        let reason = BailoutReason::StackOverflow { depth, limit: s.limits.max_call_depth };
        if s.limits.enable_bailout {
            (bailed(entered, reason), Err(reason))
        } else {
            (bailed(entered, reason), Ok(()))
        }
    } else {
        (entered, Ok(()))
    }
}

/// The state after leaving a call; leaving at depth zero wraps around.
pub open spec fn exit_state(s: GuardState) -> GuardState {
    GuardState { call_depth: vstd::wrapping::usize_specs::wrapping_sub(s.call_depth, 1), ..s }
}

impl ExecutionGuard {
    /// Create a new execution guard with default limits
    pub fn new() -> (r: Self)
        ensures
            r@ == fresh_state(default_limits()),
    {
        Self::with_limits(ExecutionLimits::default())
    }

    /// Create a new execution guard with custom limits
    pub fn with_limits(limits: ExecutionLimits) -> (r: Self)
        ensures
            r@ == fresh_state(limits),
    {
        ExecutionGuard {
            limits,
            start_time: instant_now(),
            operation_count: 0,
            call_depth: 0,
            stack_size: 0,
            memory_used: 0,
            bailout: false,
            bailout_reason: None,
            interrupted: false,
        }
    }

    /// Check whether execution should continue, given the nanoseconds since
    /// the guard started. Returns the reason when it should stop.
    pub fn check_with_elapsed(&mut self, elapsed_nanos: u128) -> (r: Result<(), BailoutReason>)
        ensures
            (final(self)@, r) == check_outcome(old(self)@, elapsed_nanos),
    {
        if !self.limits.enable_bailout {
            return Ok(());
        }
        if self.bailout {
            return match &self.bailout_reason {
                Some(reason) => Err(reason.clone()),
                None => Err(BailoutReason::Interrupted),
            };
        }
        if self.interrupted {
            return Err(BailoutReason::Interrupted);
        }
        if self.operation_count % ITERATIONS_PER_CHECK == 0 {
            let limit_nanos: u128 = (self.limits.max_time_ms as u128) * 1000000;
            if elapsed_nanos > limit_nanos {
                let elapsed_ms = (elapsed_nanos / 1000000) as u64;
                self.trigger_bailout(
                    BailoutReason::Timeout { elapsed_ms, limit_ms: self.limits.max_time_ms },
                );
            }
        }
        Ok(())
    }

    /// Check if execution should continue; returns the reason when it
    /// should stop. The clock is read only when the operation count is a
    /// multiple of `ITERATIONS_PER_CHECK`.
    pub fn check(&mut self) -> (r: Result<(), BailoutReason>)
        ensures
            exists|e: u128| (final(self)@, r) == #[trigger] check_outcome(old(self)@, e),
    {
        let elapsed: u128 = if self.limits.enable_bailout && !self.bailout && !self.interrupted
            && self.operation_count % ITERATIONS_PER_CHECK == 0 {
            let d = instant_elapsed(&self.start_time);
            duration_nanos(&d)
        } else {
            0
        };
        let r = self.check_with_elapsed(elapsed);
        assert((self@, r) == check_outcome(old(self)@, elapsed));
        r
    }

    /// Record an operation. Past the operation limit the guard bails out and
    /// the operation fails.
    pub fn record_operation(&mut self) -> (r: Result<(), BailoutReason>)
        requires
            old(self)@.operation_count < u64::MAX,
        ensures
            exists|e: u128| (final(self)@, r) == #[trigger] operation_outcome(old(self)@, e),
    {
        let count = self.operation_count + 1;
        self.operation_count = count;
        if count > self.limits.max_operations {
            let reason = BailoutReason::OperationLimit { count, limit: self.limits.max_operations };
            self.trigger_bailout(reason.clone());
            if !self.limits.enable_bailout {
                assert((self@, Ok::<(), BailoutReason>(())) == operation_outcome(old(self)@, 0));
                return Ok(());
            }
            assert((self@, Err::<(), BailoutReason>(reason)) == operation_outcome(old(self)@, 0));
            return Err(reason);
        }
        if count % ITERATIONS_PER_CHECK == 0 {
            let ghost counted = self@;
            let r = self.check();
            proof {
                let e = choose|e: u128| (self@, r) == #[trigger] check_outcome(counted, e);
                assert((self@, r) == operation_outcome(old(self)@, e));
            }
            return r;
        }
        assert((self@, Ok::<(), BailoutReason>(())) == operation_outcome(old(self)@, 0));
        Ok(())
    }

    /// Enter a function call. Past the depth limit the guard bails out and
    /// the call fails; the depth is counted either way.
    pub fn enter_call(&mut self) -> (r: Result<(), BailoutReason>)
        requires
            old(self)@.call_depth < usize::MAX,
        ensures
            (final(self)@, r) == enter_outcome(old(self)@),
    {
        let depth = self.call_depth + 1;
        self.call_depth = depth;
        if depth > self.limits.max_call_depth {
            let reason = BailoutReason::StackOverflow { depth, limit: self.limits.max_call_depth };
            self.trigger_bailout(reason.clone());
            if !self.limits.enable_bailout {
                return Ok(());
            }
            return Err(reason);
        }
        Ok(())
    }

    /// Exit a function call
    pub fn exit_call(&mut self)
        ensures
            final(self)@ == exit_state(old(self)@),
    {
        self.call_depth = self.call_depth.wrapping_sub(1);
    }

    /// Update stack size; past the limit the guard bails out, and the next
    /// check reports it.
    pub fn update_stack_size(&mut self, size: usize) -> (r: Result<(), BailoutReason>)
        ensures
            r is Ok,
            final(self)@ == (if size > old(self)@.limits.max_stack_size {
                bailed(
                    GuardState { stack_size: size, ..old(self)@ },
                    BailoutReason::StackSizeExceeded { size, limit: old(self)@.limits.max_stack_size },
                )
            } else {
                GuardState { stack_size: size, ..old(self)@ }
            }),
    {
        self.stack_size = size;
        if size > self.limits.max_stack_size {
            self.trigger_bailout(
                BailoutReason::StackSizeExceeded { size, limit: self.limits.max_stack_size },
            );
        }
        Ok(())
    }

    /// Record memory allocation; past the limit the guard bails out, and the
    /// next check reports it.
    pub fn record_memory(&mut self, bytes: usize) -> (r: Result<(), BailoutReason>)
        requires
            old(self)@.memory_used + bytes <= usize::MAX,
        ensures
            r is Ok,
            final(self)@ == (if old(self)@.memory_used + bytes > old(self)@.limits.max_memory {
                bailed(
                    GuardState { memory_used: (old(self)@.memory_used + bytes) as usize, ..old(self)@ },
                    BailoutReason::MemoryExceeded {
                        used_bytes: (old(self)@.memory_used + bytes) as usize,
                        limit_bytes: old(self)@.limits.max_memory,
                    },
                )
            } else {
                GuardState { memory_used: (old(self)@.memory_used + bytes) as usize, ..old(self)@ }
            }),
    {
        let used = self.memory_used + bytes;
        self.memory_used = used;
        if used > self.limits.max_memory {
            self.trigger_bailout(
                BailoutReason::MemoryExceeded { used_bytes: used, limit_bytes: self.limits.max_memory },
            );
        }
        Ok(())
    }

    /// Record memory deallocation; releasing more than is held wraps around.
    pub fn release_memory(&mut self, bytes: usize)
        ensures
            final(self)@ == (GuardState {
                memory_used: vstd::wrapping::usize_specs::wrapping_sub(old(self)@.memory_used, bytes),
                ..old(self)@
            }),
    {
        self.memory_used = self.memory_used.wrapping_sub(bytes);
    }

    /// Trigger a bailout
    pub fn trigger_bailout(&mut self, reason: BailoutReason)
        ensures
            final(self)@ == bailed(old(self)@, reason),
    {
        self.bailout_reason = Some(reason);
        self.bailout = true;
    }

    /// Interrupt execution externally
    pub fn interrupt(&mut self)
        ensures
            final(self)@ == (GuardState { interrupted: true, ..old(self)@ }),
    {
        self.interrupted = true;
    }

    /// Check if bailout has been triggered
    pub fn is_bailed_out(&self) -> (r: bool)
        ensures
            r == self@.bailout,
    {
        self.bailout
    }

    /// Get bailout reason
    pub fn get_bailout_reason(&self) -> (r: Option<BailoutReason>)
        ensures
            r == self@.bailout_reason,
    {
        match &self.bailout_reason {
            Some(reason) => Some(reason.clone()),
            None => None,
        }
    }

    /// Reset the guard for reuse: the counters start again from zero, with
    /// the same limits and a new start time.
    pub fn reset(&mut self)
        ensures
            final(self)@ == fresh_state(old(self)@.limits),
    {
        self.start_time = instant_now();
        self.operation_count = 0;
        self.call_depth = 0;
        self.stack_size = 0;
        self.memory_used = 0;
        self.bailout = false;
        self.bailout_reason = None;
        self.interrupted = false;
    }

    /// Get current statistics; the elapsed time is read from the clock.
    pub fn stats(&self) -> (r: ExecutionStats)
        ensures
            r.operation_count == self@.operation_count,
            r.call_depth == self@.call_depth,
            r.stack_size == self@.stack_size,
            r.memory_used == self@.memory_used,
    {
        ExecutionStats {
            elapsed_time: instant_elapsed(&self.start_time),
            operation_count: self.operation_count,
            call_depth: self.call_depth,
            stack_size: self.stack_size,
            memory_used: self.memory_used,
        }
    }
}

impl Default for ExecutionGuard {
    fn default() -> (r: Self)
        ensures
            r@ == fresh_state(default_limits()),
    {
        Self::new()
    }
}

/// Leaving a call undoes entering it: the depth comes back, whatever the
/// entry answered.
pub proof fn law_enter_exit(s: GuardState)
    requires
        s.call_depth < usize::MAX,
    ensures
        exit_state(enter_outcome(s).0).call_depth == s.call_depth,
{
}

/// Once bailed out, a guard that enforces its limits fails every check with
/// the recorded reason, and the check changes nothing.
pub proof fn law_bailout_sticks(s: GuardState, reason: BailoutReason, e: u128)
    requires
        s.limits.enable_bailout,
    ensures
        check_outcome(bailed(s, reason), e) == (bailed(s, reason), Err::<(), BailoutReason>(reason)),
{
}

/// A guard that does not enforce its limits passes every check unchanged,
/// and never refuses an operation or a call.
pub proof fn law_disabled_never_fails(s: GuardState, e: u128)
    requires
        !s.limits.enable_bailout,
    ensures
        check_outcome(s, e) == (s, Ok::<(), BailoutReason>(())),
        s.operation_count < u64::MAX ==> operation_outcome(s, e).1 is Ok,
        s.call_depth < usize::MAX ==> enter_outcome(s).1 is Ok,
{
}

/// Recording operations below the limit, away from the periodic check,
/// only counts them.
pub proof fn law_operation_counts(s: GuardState, e: u128)
    requires
        s.operation_count < u64::MAX,
        s.operation_count + 1 <= s.limits.max_operations,
        (s.operation_count + 1) % (ITERATIONS_PER_CHECK as int) != 0,
    ensures
        operation_outcome(s, e) == (GuardState { operation_count: (s.operation_count + 1) as u64, ..s }, Ok::<(), BailoutReason>(())),
{
}

/// Resetting gives the state of a new guard with the same limits.
pub proof fn law_reset_is_fresh(s: GuardState)
    ensures
        fresh_state(s.limits).operation_count == 0,
        fresh_state(s.limits).call_depth == 0,
        !fresh_state(s.limits).bailout,
        fresh_state(s.limits).limits == s.limits,
{
}

// ═══════════════════════════════════════════════════════════════════════════
// Execution statistics
// ═══════════════════════════════════════════════════════════════════════════

/// Statistics about execution
#[derive(Debug)]
pub struct ExecutionStats {
    /// Elapsed time
    pub elapsed_time: Duration,
    /// Number of operations
    pub operation_count: u64,
    /// Current call depth
    pub call_depth: usize,
    /// Current stack size
    pub stack_size: usize,
    /// Memory used
    pub memory_used: usize,
}

/// 2^53: below it every integer is exactly a double.
pub open spec fn exact_double_bound() -> nat {
    9007199254740992
}

/// The power of two by which `m` must be divided to fit in the 53 bits of a
/// double's significand, searched from `p` with at most `fuel` doublings.
pub open spec fn double_scale(m: nat, p: nat, fuel: nat) -> nat
    decreases fuel,
{
    if fuel == 0 || p == 0 || m / p < exact_double_bound() {
        p
    } else {
        double_scale(m, 2 * p, (fuel - 1) as nat)
    }
}

/// The value of `m` as a double: `m` itself below 2^53, and above it `m`
/// rounded to 53 significant bits, ties to even.
pub open spec fn as_double(m: nat) -> nat {
    let p = double_scale(m, 1, 64);
    let q = m / p;
    let r = m % p;
    (if 2 * r > p || (2 * r == p && q % 2 == 1) { q + 1 } else { q }) * p
}

/// The bytes `m` in megabytes, as a double, rounded to hundredths with ties
/// to even: the number that `{:.2}` prints, times one hundred.
pub open spec fn mb_hundredths(m: nat) -> nat {
    let x = as_double(m) * 100;
    let t = x / 1048576;
    let rem = x % 1048576;
    if 2 * rem > 1048576 || (2 * rem == 1048576 && t % 2 == 1) {
        t + 1
    } else {
        t
    }
}

/// The megabytes of `m` bytes with two decimals.
pub open spec fn mb_text(m: nat) -> Seq<char> {
    let h = mb_hundredths(m);
    decimal(h / 100) + "."@ + seq![digit_char((h % 100) / 10), digit_char(h % 10)]
}

fn megabytes_text(m: usize) -> (r: String)
    ensures
        r@ == mb_text(m as nat),
{
    let mm: u128 = m as u128;
    let mut p: u128 = 1;
    let mut fuel: u32 = 64;
    while fuel > 0 && mm / p >= 9007199254740992
        invariant
            1 <= p <= mm + 1,
            mm == m,
            m <= usize::MAX,
            double_scale(m as nat, p as nat, fuel as nat) == double_scale(m as nat, 1, 64),
        decreases fuel,
    {
        assert(p * 9007199254740992 <= mm) by (nonlinear_arith)
            requires
                mm / p >= 9007199254740992,
                p >= 1,
        {
            assert((mm / p) * p <= mm);
        }
        p = p * 2;
        fuel = fuel - 1;
    }
    let q = mm / p;
    let rem = mm % p;
    let up = 2 * rem > p || (2 * rem == p && q % 2 == 1);
    assert(q <= mm) by (nonlinear_arith)
        requires
            p >= 1,
            q == mm / p,
    ;
    assert(q * p <= mm) by (nonlinear_arith)
        requires
            p >= 1,
            q == mm / p,
    ;
    let qq: u128 = if up { q + 1 } else { q };
    assert(qq * p <= mm + p) by (nonlinear_arith)
        requires
            qq <= q + 1,
            q * p <= mm,
    ;
    let v: u128 = qq * p;
    let x: u128 = v * 100;
    let t = x / 1048576;
    let rest = x % 1048576;
    let h: u128 = if 2 * rest > 1048576 || (2 * rest == 1048576 && t % 2 == 1) {
        t + 1
    } else {
        t
    };
    assert(h / 100 <= u64::MAX);
    let mut out = u64_text((h / 100) as u64);
    out.append(".");
    let tens = ((h % 100) / 10) as u64;
    let ones = (h % 10) as u64;
    out.append(u64_text(tens).as_str());
    out.append(u64_text(ones).as_str());
    proof {
        assert(decimal(tens as nat) =~= seq![digit_char(tens as nat)]);
        assert(decimal(ones as nat) =~= seq![digit_char(ones as nat)]);
        assert(out@ =~= mb_text(m as nat));
    }
    out
}

/// The statistics text, given the text of the elapsed time.
pub open spec fn stats_text(elapsed: Seq<char>, s: ExecutionStats) -> Seq<char> {
    "═══════════════════════════════════════════════════════════════\n"@ + "                    إحصائيات التنفيذ                          \n"@ + "═══════════════════════════════════════════════════════════════\n"@
        + "  الوقت المنقضي:      "@ + elapsed + "\n"@
        + "  عدد العمليات:       "@ + decimal(s.operation_count as nat) + "\n"@
        + "  عمق الاستدعاء:      "@ + decimal(s.call_depth as nat) + "\n"@
        + "  حجم المكدس:         "@ + decimal(s.stack_size as nat) + "\n"@
        + "  الذاكرة المستخدمة:  "@ + decimal(s.memory_used as nat) + " بايت ("@ + mb_text(s.memory_used as nat) + " MB)\n"@
        + "═══════════════════════════════════════════════════════════════\n"@
}

impl ExecutionStats {
    /// The statistics text with the given text standing for the elapsed time.
    pub fn display_with_elapsed(&self, elapsed: &str) -> (r: String)
        ensures
            r@ == stats_text(elapsed@, *self),
    {
        let mut out = String::from_str("═══════════════════════════════════════════════════════════════\n");
        out.append("                    إحصائيات التنفيذ                          \n");
        out.append("═══════════════════════════════════════════════════════════════\n");
        out.append("  الوقت المنقضي:      ");
        out.append(elapsed);
        out.append("\n");
        out.append("  عدد العمليات:       ");
        out.append(u64_text(self.operation_count).as_str());
        out.append("\n");
        out.append("  عمق الاستدعاء:      ");
        out.append(usize_text(self.call_depth).as_str());
        out.append("\n");
        out.append("  حجم المكدس:         ");
        out.append(usize_text(self.stack_size).as_str());
        out.append("\n");
        out.append("  الذاكرة المستخدمة:  ");
        out.append(usize_text(self.memory_used).as_str());
        out.append(" بايت (");
        out.append(megabytes_text(self.memory_used).as_str());
        out.append(" MB)\n");
        out.append("═══════════════════════════════════════════════════════════════\n");
        out
    }

    /// The statistics text; the elapsed time is written as its `Debug` text.
    pub fn to_display_string(&self) -> (r: String)
        ensures
            exists|t: Seq<char>| r@ == #[trigger] stats_text(t, *self),
    {
        let t = duration_debug_text(&self.elapsed_time);
        let r = self.display_with_elapsed(t.as_str());
        assert(r@ == stats_text(t@, *self));
        r
    }
}

// ═══════════════════════════════════════════════════════════════════════════
// Memory tracking
// ═══════════════════════════════════════════════════════════════════════════

/// Memory statistics
#[derive(Debug, Clone, Copy, PartialEq, Eq, Structural)]
pub struct MemoryStats {
    pub current: usize,
    pub peak: usize,
    pub allocations: u64,
    pub deallocations: u64,
}

/// Memory tracker
pub struct MemoryTracker {
    allocated: usize,
    peak: usize,
    allocations: u64,
    deallocations: u64,
    limit: usize,
}

impl View for MemoryTracker {
    type V = MemoryStats;

    closed spec fn view(&self) -> MemoryStats {
        MemoryStats {
            current: self.allocated,
            peak: self.peak,
            allocations: self.allocations,
            deallocations: self.deallocations,
        }
    }
}

/// The counts after an allocation of `bytes` (that does not overflow).
pub open spec fn after_allocate(s: MemoryStats, bytes: usize, limit: usize) -> MemoryStats {
    let current = (s.current + bytes) as usize;
    if s.current + bytes > limit {
        s
    } else {
        MemoryStats {
            current,
            peak: if current > s.peak { current } else { s.peak },
            allocations: vstd::wrapping::u64_specs::wrapping_add(s.allocations, 1),
            deallocations: s.deallocations,
        }
    }
}

/// The counts after a deallocation; releasing more than is held wraps around.
pub open spec fn after_deallocate(s: MemoryStats, bytes: usize) -> MemoryStats {
    MemoryStats {
        current: vstd::wrapping::usize_specs::wrapping_sub(s.current, bytes),
        peak: s.peak,
        allocations: s.allocations,
        deallocations: vstd::wrapping::u64_specs::wrapping_add(s.deallocations, 1),
    }
}

/// The peak is never below what is held.
pub open spec fn peak_covers(s: MemoryStats) -> bool {
    s.peak >= s.current
}

impl MemoryTracker {
    /// The limit the tracker reports against.
    pub closed spec fn spec_limit(&self) -> usize {
        self.limit
    }

    pub fn new(limit: usize) -> (r: Self)
        ensures
            r@ == (MemoryStats { current: 0, peak: 0, allocations: 0, deallocations: 0 }),
            r.spec_limit() == limit,
    {
        MemoryTracker { allocated: 0, peak: 0, allocations: 0, deallocations: 0, limit }
    }

    /// Allocate memory, returns false if limit exceeded; a refused
    /// allocation changes nothing.
    pub fn allocate(&mut self, bytes: usize) -> (r: bool)
        ensures
            final(self)@ == after_allocate(old(self)@, bytes, old(self).spec_limit()),
            final(self).spec_limit() == old(self).spec_limit(),
            r == (old(self)@.current + bytes <= old(self).spec_limit()),
    {
        if bytes > self.limit || self.allocated > self.limit - bytes {
            return false;
        }
        let current = self.allocated + bytes;
        self.allocated = current;
        if current > self.peak {
            self.peak = current;
        }
        self.allocations = self.allocations.wrapping_add(1);
        true
    }

    /// Deallocate memory
    pub fn deallocate(&mut self, bytes: usize)
        ensures
            final(self)@ == after_deallocate(old(self)@, bytes),
            final(self).spec_limit() == old(self).spec_limit(),
    {
        self.allocated = self.allocated.wrapping_sub(bytes);
        self.deallocations = self.deallocations.wrapping_add(1);
    }

    /// Get current usage
    pub fn current(&self) -> (r: usize)
        ensures
            r == self@.current,
    {
        self.allocated
    }

    /// Get peak usage
    pub fn peak(&self) -> (r: usize)
        ensures
            r == self@.peak,
    {
        self.peak
    }

    /// Get statistics
    pub fn stats(&self) -> (r: MemoryStats)
        ensures
            r == self@,
    {
        MemoryStats {
            current: self.allocated,
            peak: self.peak,
            allocations: self.allocations,
            deallocations: self.deallocations,
        }
    }
}

/// The peak never falls below what is held, as long as no deallocation
/// releases more than is held; and the peak never decreases.
pub proof fn law_peak_covers(s: MemoryStats, bytes: usize, limit: usize)
    requires
        peak_covers(s),
    ensures
        peak_covers(after_allocate(s, bytes, limit)),
        after_allocate(s, bytes, limit).peak >= s.peak,
        bytes <= s.current ==> peak_covers(after_deallocate(s, bytes)),
        after_deallocate(s, bytes).peak == s.peak,
{
}

/// Releasing what was just allocated gives back the amount held before; a
/// refused allocation holds nothing more.
pub proof fn law_allocate_release(s: MemoryStats, bytes: usize, limit: usize)
    ensures
        s.current + bytes <= limit ==> after_deallocate(after_allocate(s, bytes, limit), bytes).current == s.current,
        s.current + bytes > limit ==> after_allocate(s, bytes, limit) == s,
{
}

// ═══════════════════════════════════════════════════════════════════════════
// Call scopes
// ═══════════════════════════════════════════════════════════════════════════

/// A function call entered on a guard, to be closed when the call returns.
pub struct CallScopeGuard {
    depth: usize,
}

impl CallScopeGuard {
    /// The depth that the call was entered at.
    pub closed spec fn spec_depth(&self) -> usize {
        self.depth
    }

    /// Enter a call on the guard; fails, with the depth counted, when the
    /// depth limit is passed.
    pub fn new(guard: &mut ExecutionGuard) -> (r: Result<CallScopeGuard, BailoutReason>)
        requires
            old(guard)@.call_depth < usize::MAX,
        ensures
            final(guard)@ == enter_outcome(old(guard)@).0,
            match r {
                Ok(scope) => enter_outcome(old(guard)@).1 is Ok && scope.spec_depth() == final(guard)@.call_depth,
                Err(reason) => enter_outcome(old(guard)@).1 == Err::<(), BailoutReason>(reason),
            },
    {
        match guard.enter_call() {
            Ok(()) => Ok(CallScopeGuard { depth: guard.call_depth }),
            Err(reason) => Err(reason),
        }
    }

    /// Leave the call: the guard's depth goes down by one.
    pub fn close(self, guard: &mut ExecutionGuard)
        ensures
            final(guard)@ == exit_state(old(guard)@),
    {
        guard.exit_call();
    }
}

} // verus!
