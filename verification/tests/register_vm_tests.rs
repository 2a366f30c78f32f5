use almarjaa::bytecode::register_vm::{RegCallFrame, RegChunk, RegExecutionResult, RegVMStats};

#[derive(Debug, Clone, PartialEq)]
enum Op {
    LoadConst { dest: u8, value: f64 },
    Add { dest: u8, src1: u8, src2: u8 },
    Halt,
}

#[test]
fn chunk_collects_instructions_and_texts() {
    let mut chunk: RegChunk<Op> = RegChunk::new();
    chunk.emit(Op::LoadConst { dest: 0, value: 5.0 });
    chunk.emit(Op::LoadConst { dest: 1, value: 3.0 });
    chunk.emit(Op::Add { dest: 2, src1: 0, src2: 1 });
    chunk.emit(Op::Halt);
    assert_eq!(chunk.len(), 4);
    assert_eq!(chunk.instructions[2], Op::Add { dest: 2, src1: 0, src2: 1 });
    assert_eq!(chunk.add_string("س"), 0);
    assert_eq!(chunk.add_string("ص"), 1);
    assert_eq!(chunk.get_string(1), Some("ص"));
    assert_eq!(chunk.get_string(2), None);
}

#[test]
fn register_machine_defaults() {
    let chunk: RegChunk<Op> = RegChunk::default();
    assert_eq!(chunk.len(), 0);
    assert!(chunk.entry_points.is_empty());
    let stats = RegVMStats::default();
    assert_eq!(stats.instructions_executed, 0);
    assert_eq!(stats.function_calls, 0);
    let frame = RegCallFrame { return_ip: 3, base_register: 1, num_locals: 2, name: "f".to_string() };
    assert_eq!(frame.clone().return_ip, 3);
    assert!(matches!(RegExecutionResult::Value(1.5), RegExecutionResult::Value(v) if v == 1.5));
}
