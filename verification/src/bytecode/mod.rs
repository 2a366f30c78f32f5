//! Execution support for compiled programs: resource guards, tiered
//! compilation, profiling, vector patterns, the register machine's code
//! container and foreign functions.

pub mod complete_v2_jit;
pub mod ffi;
pub mod jit_optimizer;
pub mod jit_simd;
pub mod register_vm;
pub mod safety;
