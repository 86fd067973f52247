//! Batch compilation of shader crates to SPIR-V: the choice of compile target
//! and the fail-fast decisions that drive a batch run.

pub mod batch;
pub mod target;
