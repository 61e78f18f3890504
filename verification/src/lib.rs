//! Process-scheduling core of a single-core kernel: the process control
//! block (PCB) model, the fixed-capacity process table, the run-queue
//! selection policy, the lifecycle guard, and a register-level model of
//! the context-switch primitive and the initial stack trampoline.

pub mod error;
pub mod context;
pub mod process;
pub mod trampoline;
pub mod scheduler;
