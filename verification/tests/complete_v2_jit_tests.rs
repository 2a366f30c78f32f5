use almarjaa::bytecode::complete_v2_jit::{
    AsyncRuntime, CallFrame, CompleteV2JitCompiler, Control, ExecutionResult, Fetch, TaskPoll, TaskStatus,
    TierLevel, LOCALS_SIZE, MAX_CALL_DEPTH,
};

/// A tiny instruction set to drive the execution loop with.
enum Op {
    Push(f64),
    Return,
    Call(usize, usize),
    Jump(f64),
    Break,
}

fn run(jit: &mut CompleteV2JitCompiler<f64>, code: &[Op]) -> Result<f64, String> {
    jit.begin_execution(code.len(), 0.0);
    let result = loop {
        let ip = match jit.next_instruction(code.len(), 0.0) {
            Fetch::Done(v) => break Ok(v),
            Fetch::Run(ip) => ip,
        };
        let outcome = match &code[ip] {
            Op::Push(n) => {
                jit.push_value(*n);
                ExecutionResult::Value(0.0)
            },
            Op::Return => ExecutionResult::Return(jit.pop_value().unwrap_or(0.0)),
            Op::Call(addr, args) => match jit.enter_function(Some(*addr), *args, code.len(), 0.0) {
                Ok(()) => ExecutionResult::Value(0.0),
                Err(e) => ExecutionResult::Error(e),
            },
            Op::Jump(_) => ExecutionResult::Value(0.0),
            Op::Break => ExecutionResult::Break,
        };
        match jit.after_instruction(outcome) {
            Control::Continue => {},
            Control::Finish(v) => break Ok(v),
            Control::Fail(e) => break Err(e),
            Control::Await(_) => jit.resume_with(None),
        }
    };
    if result.is_ok() {
        jit.finish_execution(1);
    }
    result
}

#[test]
fn complete_v2_jit_test_jit_creation() {
    let jit: CompleteV2JitCompiler<f64> = CompleteV2JitCompiler::new();
    assert!(jit.is_enabled());
    assert_eq!(jit.max_tier(), TierLevel::Tier4);
}

#[test]
fn test_async_runtime() {
    let mut runtime: AsyncRuntime<f64> = AsyncRuntime::new();
    let task_id = runtime.create_task();
    assert_eq!(task_id, 1);
    let task_id2 = runtime.create_task();
    assert_eq!(task_id2, 2);
}

#[test]
fn test_tier_determination() {
    let jit: CompleteV2JitCompiler<f64> = CompleteV2JitCompiler::new();
    assert_eq!(jit.determine_tier(0), TierLevel::Tier0);
    assert_eq!(jit.determine_tier(50), TierLevel::Tier1);
    assert_eq!(jit.determine_tier(200), TierLevel::Tier2);
    assert_eq!(jit.determine_tier(1000), TierLevel::Tier3);
    assert_eq!(jit.determine_tier(5000), TierLevel::Tier4);
}

#[test]
fn tiers_capped_and_disabled() {
    let mut jit: CompleteV2JitCompiler<f64> = CompleteV2JitCompiler::new();
    jit.set_max_tier(TierLevel::Tier2);
    assert_eq!(jit.determine_tier(49), TierLevel::Tier0);
    assert_eq!(jit.determine_tier(6000), TierLevel::Tier2);
    jit.set_enabled(false);
    assert_eq!(jit.determine_tier(6000), TierLevel::Tier0);
    assert_eq!(jit.stats().total_executions, 0);
    jit.reset_stats();
    assert_eq!(jit.stats().max_call_depth, 0);
}

#[test]
fn call_frames_start_with_null_locals() {
    let frame = CallFrame::new(3, 9, 2, "f", 0.0f64);
    assert_eq!(frame.ip, 3);
    assert_eq!(frame.locals.len(), LOCALS_SIZE);
    assert!(frame.locals.iter().all(|v| *v == 0.0));
    assert!(!frame.is_async);
    let task = CallFrame::new_async(0, 1, 0, "g", 7, 0.0f64);
    assert_eq!(task.task_id, Some(7));
    assert!(task.is_async);
}

#[test]
fn tasks_run_cancel_and_report() {
    let mut runtime: AsyncRuntime<i32> = AsyncRuntime::new();
    let a = runtime.create_task();
    let b = runtime.create_task();
    let c = runtime.create_task();
    runtime.spawn_task(a, || Ok(42));
    runtime.spawn_task(b, || Err("فشل".to_string()));
    assert_eq!(runtime.get_result(a), Some((TaskStatus::Completed, Some(42), None)));
    assert!(matches!(runtime.poll_task(a), TaskPoll::Completed(Some(42))));
    match runtime.poll_task(b) {
        TaskPoll::Failed(m) => assert_eq!(m, "خطأ: فشل"),
        _ => panic!("expected a failed task"),
    }
    assert!(!runtime.cancel_task(a));
    assert!(runtime.cancel_task(c));
    match runtime.poll_task(c) {
        TaskPoll::Cancelled(m) => assert_eq!(m, "أُلغيت المهمة"),
        _ => panic!("expected a cancelled task"),
    }
    assert!(matches!(runtime.poll_task(99), TaskPoll::Waiting));
    runtime.update_task(99, TaskStatus::Completed, Some(1), None);
    assert_eq!(runtime.get_result(99), None);
}

#[test]
fn test_stats_tracking() {
    let mut jit: CompleteV2JitCompiler<f64> = CompleteV2JitCompiler::new();
    let _ = run(&mut jit, &[]);
    assert!(jit.stats().total_executions > 0);
}

#[test]
fn test_recursive_function() {
    let mut jit: CompleteV2JitCompiler<f64> = CompleteV2JitCompiler::new();
    let result = run(&mut jit, &[Op::Push(42.0), Op::Return]).unwrap();
    assert_eq!(result, 42.0);
}

#[test]
fn test_max_call_depth() {
    let mut jit: CompleteV2JitCompiler<f64> = CompleteV2JitCompiler::new();
    for _ in 0..MAX_CALL_DEPTH {
        assert_eq!(jit.enter_function(Some(0), 0, 1, 0.0), Ok(()));
    }
    assert_eq!(jit.call_depth(), MAX_CALL_DEPTH);
    assert_eq!(jit.enter_function(Some(0), 0, 1, 0.0), Err("تجاوز عمق الاستدعاء الأقصى (1000)".to_string()));
    assert_eq!(jit.call_depth(), MAX_CALL_DEPTH);
    assert_eq!(jit.stats().max_call_depth, MAX_CALL_DEPTH - 1);
    assert_eq!(jit.stats().recursive_calls, MAX_CALL_DEPTH as u64 + 1);
}

#[test]
fn call_and_return_restore_the_caller() {
    let mut jit: CompleteV2JitCompiler<f64> = CompleteV2JitCompiler::new();
    // main: push 1, push 2, push 5 (argument), call 5 with one argument;
    // the callee at 5 pushes 9 and returns it; main then returns the top.
    let code = [Op::Push(1.0), Op::Push(2.0), Op::Push(5.0), Op::Call(5, 1), Op::Return, Op::Push(9.0), Op::Return];
    assert_eq!(run(&mut jit, &code), Ok(9.0));
    assert_eq!(jit.call_depth(), 1);
    assert_eq!(jit.stats().recursive_calls, 1);
    assert_eq!(jit.stats().tier0_executions, 7);
}

#[test]
fn frames_past_the_end_are_popped() {
    let mut jit: CompleteV2JitCompiler<f64> = CompleteV2JitCompiler::new();
    // The main frame runs past the end: it is popped, and the value stack is
    // cut back to its base, so the run gives the null value.
    assert_eq!(run(&mut jit, &[Op::Push(3.0), Op::Push(4.0)]), Ok(0.0));
    assert_eq!(jit.call_depth(), 0);
    assert_eq!(jit.pop_value(), None);
    assert_eq!(jit.pop_frame(), Err("call stack فارغ".to_string()));
}

#[test]
fn break_outside_a_loop_fails() {
    let mut jit: CompleteV2JitCompiler<f64> = CompleteV2JitCompiler::new();
    assert_eq!(run(&mut jit, &[Op::Jump(0.0), Op::Break]), Err("break خارج حلقة".to_string()));
    assert_eq!(jit.after_instruction(ExecutionResult::Continue), Control::Fail("continue خارج حلقة".to_string()));
    assert_eq!(jit.after_instruction(ExecutionResult::Pending(3)), Control::Await(3));
    assert_eq!(jit.stats().total_executions, 0);
}

#[test]
fn a_call_without_an_address_is_refused() {
    let mut jit: CompleteV2JitCompiler<f64> = CompleteV2JitCompiler::new();
    jit.push_value(1.0);
    assert_eq!(jit.enter_function(None, 1, 4, 0.0), Err("عنوان دالة غير صالح".to_string()));
    assert_eq!(jit.call_depth(), 0);
    assert_eq!(jit.pop_value(), Some(1.0));
}
